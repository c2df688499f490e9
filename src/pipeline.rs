use vstd::prelude::*;

use crate::text::views;

verus! {

/// Where the decompiler artifact is fetched from.
pub const VF_DOWNLOAD_URL: &'static str =
    "https://github.com/Vineflower/vineflower/releases/download/1.10.1/vineflower-1.10.1.jar";

/// The location of the cached decompiler artifact, under a given data directory.
#[derive(Debug, Clone)]
pub struct ToolCache {
    pub data_dir: String,
}

/// The directory that holds the cached artifact.
pub open spec fn cache_dir(data_dir: Seq<char>) -> Seq<char> {
    data_dir + "/plugdecomp"@
}

/// The path of the cached artifact.
pub open spec fn cache_path(data_dir: Seq<char>) -> Seq<char> {
    cache_dir(data_dir) + "/vineflower.jar"@
}

/// What acquiring the artifact does, given whether a file is already cached.
pub enum CacheStep {
    /// Use the cached file at `path`; nothing is fetched.
    Hit { path: Seq<char> },
    /// Create `dir`, fetch `url` into `path`, then use `path`.
    Fetch { dir: Seq<char>, url: Seq<char>, path: Seq<char> },
}

/// The step that acquiring the artifact takes: the presence of the file alone decides.
pub open spec fn acquire_step(data_dir: Seq<char>, cached: bool) -> CacheStep {
    if cached {
        CacheStep::Hit { path: cache_path(data_dir) }
    } else {
        CacheStep::Fetch {
            dir: cache_dir(data_dir),
            url: VF_DOWNLOAD_URL@,
            path: cache_path(data_dir),
        }
    }
}

/// What acquiring the artifact does.
#[derive(Debug, Clone)]
pub enum CacheAction {
    Hit { path: String },
    Fetch { dir: String, url: String, path: String },
}

impl View for CacheAction {
    type V = CacheStep;

    open spec fn view(&self) -> CacheStep {
        match self {
            CacheAction::Hit { path } => CacheStep::Hit { path: path@ },
            CacheAction::Fetch { dir, url, path } => CacheStep::Fetch {
                dir: dir@,
                url: url@,
                path: path@,
            },
        }
    }
}

impl ToolCache {
    /// The directory that holds the cached artifact.
    pub fn artifact_dir(&self) -> (r: String)
        ensures
            r@ == cache_dir(self.data_dir@),
    {
        let mut s = self.data_dir.clone();
        s.append("/plugdecomp");
        s
    }

    /// The path of the cached artifact.
    pub fn artifact_path(&self) -> (r: String)
        ensures
            r@ == cache_path(self.data_dir@),
    {
        let mut s = self.artifact_dir();
        s.append("/vineflower.jar");
        s
    }

    /// Decides how to acquire the artifact, given whether a file exists at its path.
    pub fn acquire(&self, cached: bool) -> (r: CacheAction)
        ensures
            r@ == acquire_step(self.data_dir@, cached),
    {
        if cached {
            CacheAction::Hit { path: self.artifact_path() }
        } else {
            CacheAction::Fetch {
                dir: self.artifact_dir(),
                url: String::from_str(VF_DOWNLOAD_URL),
                path: self.artifact_path(),
            }
        }
    }
}

/// Acquiring is idempotent: once the artifact is cached, acquiring again fetches nothing
/// and gives the same path each time, the path that a fetch writes to.
pub proof fn lemma_cache_idempotence(data_dir: Seq<char>)
    ensures
        acquire_step(data_dir, true) is Hit,
        acquire_step(data_dir, true)->Hit_path == cache_path(data_dir),
        acquire_step(data_dir, true)->Hit_path == acquire_step(data_dir, false)->Fetch_path,
{
}

/// The flags that the decompiler is run with, before the two paths.
pub open spec fn vf_flags() -> Seq<Seq<char>> {
    seq!["--folder"@, "--kt-decompile-kotlin=false"@]
}

/// The program and arguments that run the decompiler.
pub struct DecompilerCommand {
    pub program: String,
    pub args: Vec<String>,
}

/// The command that decompiles `jarfile` into `output_dir` with the artifact at `tool_path`:
/// the Java runtime, told to run the artifact, with the fixed flags and then the two paths.
pub fn vf_command(jarfile: &str, output_dir: &str, tool_path: &str) -> (r: DecompilerCommand)
    ensures
        r.program@ == "java"@,
        views(r.args@) == seq!["-jar"@, tool_path@] + vf_flags() + seq![jarfile@, output_dir@],
{
    let mut args: Vec<String> = Vec::new();
    args.push(String::from_str("-jar"));
    args.push(String::from_str(tool_path));
    args.push(String::from_str("--folder"));
    args.push(String::from_str("--kt-decompile-kotlin=false"));
    args.push(String::from_str(jarfile));
    args.push(String::from_str(output_dir));
    assert(views(args@) =~= seq!["-jar"@, tool_path@] + vf_flags() + seq![jarfile@, output_dir@]);
    DecompilerCommand { program: String::from_str("java"), args }
}

/// A failure of the decompiler process.
#[derive(Debug, Clone, Copy, PartialEq, Eq, Structural)]
pub enum ProcessFailure {
    /// It exited with this non-zero code.
    ExitCode(i32),
    /// It ended without an exit code (killed by a signal).
    Abnormal,
}

/// Translates the decompiler's exit code into success or failure: only zero succeeds.
pub fn check_exit(code: Option<i32>) -> (r: Result<(), ProcessFailure>)
    ensures
        r is Ok <==> code == Some(0i32),
        code is None ==> r == Err::<(), ProcessFailure>(ProcessFailure::Abnormal),
        forall|c: i32| code == Some(c) && c != 0 ==> r == Err::<(), ProcessFailure>(ProcessFailure::ExitCode(c)),
{
    match code {
        Some(c) => if c == 0 {
            Ok(())
        } else {
            Err(ProcessFailure::ExitCode(c))
        },
        None => Err(ProcessFailure::Abnormal),
    }
}

/// The paths of a generated workspace.
pub struct WorkspaceLayout {
    pub java_dir: String,
    pub resources_dir: String,
    pub buildscript: String,
    pub buildsettings: String,
}

fn join(dir: &str, rel: &str) -> (r: String)
    ensures
        r@ == dir@ + "/"@ + rel@,
{
    let mut s = String::from_str(dir);
    s.append("/");
    s.append(rel);
    s
}

/// The fixed paths under the output directory: the two source sets and the two documents.
pub fn workspace_layout(output_dir: &str) -> (r: WorkspaceLayout)
    ensures
        r.java_dir@ == output_dir@ + "/"@ + "src/main/java"@,
        r.resources_dir@ == output_dir@ + "/"@ + "src/main/resources"@,
        r.buildscript@ == output_dir@ + "/"@ + "build.gradle.kts"@,
        r.buildsettings@ == output_dir@ + "/"@ + "settings.gradle.kts"@,
{
    WorkspaceLayout {
        java_dir: join(output_dir, "src/main/java"),
        resources_dir: join(output_dir, "src/main/resources"),
        buildscript: join(output_dir, "build.gradle.kts"),
        buildsettings: join(output_dir, "settings.gradle.kts"),
    }
}

} // verus!

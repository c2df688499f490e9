use vstd::prelude::*;

use crate::text::str_equal;

verus! {

/// Where a file of the decompiled tree ends up.
#[derive(Debug, Clone, Copy, PartialEq, Eq, Structural)]
pub enum Placement {
    /// It stays under the source root.
    Source,
    /// It is moved under the resources root, at the same relative path.
    Resources,
}

/// The fate of one file, given by its path relative to the source root
/// (components separated by `/`).
#[derive(Debug, Clone)]
pub struct FilePlan {
    /// The file's relative path as found.
    pub original: String,
    /// The relative path after suffix repair; equal to `original` when none applies.
    pub path: String,
    /// The root under which the file stands at the end.
    pub placement: Placement,
}

/// The index of the last occurrence of `c` in `s`, or -1 when there is none.
pub open spec fn last_index_of(s: Seq<char>, c: char) -> int
    decreases s.len(),
{
    if s.len() == 0 {
        -1
    } else if s.last() == c {
        s.len() - 1
    } else {
        last_index_of(s.drop_last(), c)
    }
}

/// The last component of a relative path.
pub open spec fn file_name(p: Seq<char>) -> Seq<char> {
    p.subrange(last_index_of(p, '/') + 1, p.len() as int)
}

/// The extension of a path: what follows the last `.` of its file name, provided that
/// dot is not the name's first character.
pub open spec fn extension(p: Seq<char>) -> Option<Seq<char>> {
    let n = file_name(p);
    let d = last_index_of(n, '.');
    if d > 0 {
        Some(n.subrange(d + 1, n.len() as int))
    } else {
        None
    }
}

/// The extensions of files that stay in the source tree.
pub open spec fn is_allowed_extension(e: Seq<char>) -> bool {
    e == "sql"@ || e == "java"@ || e == "html"@ || e == "proto"@
}

/// The path of a file after suffix repair: a placeholder that the decompiler marked by the
/// extension `java~` loses its trailing `~`.
pub open spec fn repaired_path(p: Seq<char>) -> Seq<char> {
    if extension(p) == Some("java~"@) {
        p.drop_last()
    } else {
        p
    }
}

/// The root under which a file (given by its path as found) ends up.
pub open spec fn placement_of(p: Seq<char>) -> Placement {
    match extension(repaired_path(p)) {
        None => Placement::Source,
        Some(e) => if is_allowed_extension(e) {
            Placement::Source
        } else {
            Placement::Resources
        },
    }
}

/// The last occurrence of `c`, when there is one, is an index of `s` that holds `c`.
pub proof fn lemma_last_index_bounds(s: Seq<char>, c: char)
    ensures
        -1 <= last_index_of(s, c) < s.len(),
        last_index_of(s, c) >= 0 ==> s[last_index_of(s, c)] == c,
    decreases s.len(),
{
    if s.len() > 0 && s.last() != c {
        lemma_last_index_bounds(s.drop_last(), c);
    }
}

/// The index of the last occurrence of `c` in `s`.
fn last_index(s: &str, c: char) -> (r: Option<usize>)
    ensures
        match r {
            Some(k) => k as int == last_index_of(s@, c),
            None => last_index_of(s@, c) == -1,
        },
{
    let mut i: usize = s.unicode_len();
    assert(s@.subrange(0, i as int) =~= s@);
    while i > 0
        invariant
            i <= s@.len(),
            last_index_of(s@.subrange(0, i as int), c) == last_index_of(s@, c),
        decreases i,
    {
        let ch = s.get_char(i - 1);
        assert(s@.subrange(0, i as int).drop_last() =~= s@.subrange(0, i - 1));
        if ch == c {
            return Some(i - 1);
        }
        i = i - 1;
    }
    None
}

/// The extension of a relative path, as `extension` defines it.
pub fn extension_of(p: &str) -> (r: Option<&str>)
    ensures
        match r {
            Some(e) => extension(p@) == Some(e@),
            None => extension(p@) is None,
        },
{
    let n = p.unicode_len();
    proof {
        lemma_last_index_bounds(p@, '/');
    }
    let start: usize = match last_index(p, '/') {
        Some(k) => k + 1,
        None => 0,
    };
    let name = p.substring_char(start, n);
    assert(name@ == file_name(p@));
    proof {
        lemma_last_index_bounds(name@, '.');
    }
    match last_index(name, '.') {
        Some(d) => {
            if d > 0 {
                Some(name.substring_char(d + 1, name.unicode_len()))
            } else {
                None
            }
        },
        None => None,
    }
}

/// Whether an extension is one of those that stay in the source tree.
pub fn is_allowed(e: &str) -> (r: bool)
    ensures
        r == is_allowed_extension(e@),
{
    str_equal(e, "sql") || str_equal(e, "java") || str_equal(e, "html") || str_equal(e, "proto")
}

/// Dropping a last character that is not `c` keeps the last occurrence of `c`.
proof fn lemma_last_index_drop_last(s: Seq<char>, c: char)
    requires
        s.len() > 0,
        s.last() != c,
    ensures
        last_index_of(s.drop_last(), c) == last_index_of(s, c),
{
}

/// Suffix repair turns a marked placeholder into a file of the primary source extension.
pub proof fn lemma_repaired_extension(p: Seq<char>)
    requires
        extension(p) == Some("java~"@),
    ensures
        extension(p.drop_last()) == Some("java"@),
{
    reveal_strlit("java~");
    reveal_strlit("java");
    let n = file_name(p);
    let s = last_index_of(p, '/');
    let d = last_index_of(n, '.');
    lemma_last_index_bounds(p, '/');
    lemma_last_index_bounds(n, '.');
    let e = n.subrange(d + 1, n.len() as int);
    assert(e.len() == 5);
    assert(p.last() == '~') by {
        assert(e[4] == n[n.len() - 1]);
    }
    lemma_last_index_drop_last(p, '/');
    let q = p.drop_last();
    let m = file_name(q);
    assert(m =~= n.drop_last());
    lemma_last_index_drop_last(n, '.');
    assert(e == "java~"@);
    assert(m.subrange(d + 1, m.len() as int) =~= e.drop_last());
    assert(e.drop_last() =~= "java"@);
}

/// Each file's relative path after repair, in the order given.
pub open spec fn repaired_files(files: Seq<Seq<char>>) -> Seq<Seq<char>> {
    files.map_values(|p: Seq<char>| repaired_path(p))
}

/// The relative paths, after repair, of the files that stay under the source root.
pub open spec fn source_files(files: Seq<Seq<char>>) -> Set<Seq<char>> {
    Set::new(
        |q: Seq<char>|
            exists|k: int|
                0 <= k < files.len() && placement_of(files[k]) == Placement::Source
                    && #[trigger] repaired_path(files[k]) == q,
    )
}

/// The relative paths, after repair, of the files moved under the resources root.
pub open spec fn resource_files(files: Seq<Seq<char>>) -> Set<Seq<char>> {
    Set::new(
        |q: Seq<char>|
            exists|k: int|
                0 <= k < files.len() && placement_of(files[k]) == Placement::Resources
                    && #[trigger] repaired_path(files[k]) == q,
    )
}

/// Reconciliation partitions the tree: what stays under the source root has an allowed
/// extension or none, what is moved has another extension, no path is on both sides, and
/// together the two sides hold every file of the tree at its relative path, after repair.
pub proof fn lemma_reconcile_partition(files: Seq<Seq<char>>)
    ensures
        forall|q: Seq<char>|
            #[trigger] source_files(files).contains(q) ==> match extension(q) {
                None => true,
                Some(e) => is_allowed_extension(e),
            },
        forall|q: Seq<char>|
            #[trigger] resource_files(files).contains(q) ==> match extension(q) {
                None => false,
                Some(e) => !is_allowed_extension(e),
            },
        source_files(files).disjoint(resource_files(files)),
        source_files(files) + resource_files(files) == repaired_files(files).to_set(),
{
    let all = repaired_files(files).to_set();
    assert forall|q: Seq<char>| #[trigger] source_files(files).contains(q) implies match extension(
        q,
    ) {
        None => true,
        Some(e) => is_allowed_extension(e),
    } by {
        let k = choose|k: int|
            0 <= k < files.len() && placement_of(files[k]) == Placement::Source
                && #[trigger] repaired_path(files[k]) == q;
    }
    assert forall|q: Seq<char>| #[trigger] resource_files(files).contains(q) implies match extension(
        q,
    ) {
        None => false,
        Some(e) => !is_allowed_extension(e),
    } by {
        let k = choose|k: int|
            0 <= k < files.len() && placement_of(files[k]) == Placement::Resources
                && #[trigger] repaired_path(files[k]) == q;
    }
    assert forall|q: Seq<char>| #[trigger] all.contains(q) implies (source_files(files)
        + resource_files(files)).contains(q) by {
        let k = choose|k: int|
            0 <= k < files.len() && #[trigger] repaired_files(files)[k] == q;
        assert(repaired_path(files[k]) == q);
    }
    assert forall|q: Seq<char>| #[trigger]
        (source_files(files) + resource_files(files)).contains(q) implies all.contains(q) by {
        let k = choose|k: int|
            0 <= k < files.len() && #[trigger] repaired_path(files[k]) == q;
        assert(repaired_files(files)[k] == q);
    }
    assert(source_files(files) + resource_files(files) =~= all);
}

/// A file whose extension is the marker is renamed without its trailing `~` and stays
/// under the source root; a `~` after any other extension is not repaired, and such a
/// file is moved under the resources root.
pub proof fn lemma_suffix_repair(p: Seq<char>)
    ensures
        extension(p) == Some("java~"@) ==> {
            &&& repaired_path(p) == p.drop_last()
            &&& extension(repaired_path(p)) == Some("java"@)
            &&& placement_of(p) == Placement::Source
        },
        forall|e: Seq<char>|
            extension(p) == Some(#[trigger] e.push('~')) && e != "java"@ ==> {
                &&& repaired_path(p) == p
                &&& placement_of(p) == Placement::Resources
            },
{
    reveal_strlit("java~");
    reveal_strlit("java");
    reveal_strlit("sql");
    reveal_strlit("html");
    reveal_strlit("proto");
    if extension(p) == Some("java~"@) {
        lemma_repaired_extension(p);
    }
    assert forall|e: Seq<char>|
        extension(p) == Some(#[trigger] e.push('~')) && e != "java"@ implies {
            &&& repaired_path(p) == p
            &&& placement_of(p) == Placement::Resources
        } by {
        if e.push('~') == "java~"@ {
            assert(e =~= e.push('~').drop_last());
            assert("java~"@.drop_last() =~= "java"@);
        }
        let t = e.push('~');
        assert(t.last() == '~');
    }
}

/// The plan for one file, given by its path relative to the source root.
pub fn plan_file(p: &str) -> (r: FilePlan)
    ensures
        r.original@ == p@,
        r.path@ == repaired_path(p@),
        r.placement == placement_of(p@),
{
    let ext = extension_of(p);
    let marked = match ext {
        Some(e) => str_equal(e, "java~"),
        None => false,
    };
    let path = if marked {
        proof {
            lemma_repaired_extension(p@);
        }
        String::from_str(p.substring_char(0, p.unicode_len() - 1))
    } else {
        String::from_str(p)
    };
    assert(path@ == repaired_path(p@));
    let placement = match extension_of(path.as_str()) {
        Some(e) => if is_allowed(e) {
            Placement::Source
        } else {
            Placement::Resources
        },
        None => Placement::Source,
    };
    FilePlan { original: String::from_str(p), path, placement }
}

/// Plans the reconciliation of a decompiled tree, given the relative paths of its files:
/// each file gets its repaired path and the root under which it ends up.
pub fn filter_resources(files: &Vec<String>) -> (r: Vec<FilePlan>)
    ensures
        r.len() == files.len(),
        forall|k: int|
            0 <= k < files.len() ==> {
                &&& (#[trigger] r[k]).original@ == files[k]@
                &&& r[k].path@ == repaired_path(files[k]@)
                &&& r[k].placement == placement_of(files[k]@)
            },
{
    let mut r: Vec<FilePlan> = Vec::new();
    let mut i: usize = 0;
    while i < files.len()
        invariant
            i <= files.len(),
            r.len() == i,
            forall|k: int|
                0 <= k < i ==> {
                    &&& (#[trigger] r[k]).original@ == files[k]@
                    &&& r[k].path@ == repaired_path(files[k]@)
                    &&& r[k].placement == placement_of(files[k]@)
                },
        decreases files.len() - i,
    {
        let plan = plan_file(files[i].as_str());
        r.push(plan);
        i = i + 1;
    }
    r
}

} // verus!

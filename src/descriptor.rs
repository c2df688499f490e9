use vstd::prelude::*;

use crate::text::{decimal, push_decimal};
use crate::{Internals, Mapping, PluginData};

verus! {

/// Whether the plugin uses internals under the Mojang mapping.
pub open spec fn uses_mojang(internals: Option<Internals>) -> bool {
    internals == Some(Internals { mapping: Mapping::Mojang })
}

/// The block that declares the build-tool plugins.
pub open spec fn plugins_block(internals: Option<Internals>) -> Seq<char> {
    "plugins {\n    java\n"@ + (if uses_mojang(internals) {
        "    id(\"io.papermc.paperweight.userdev\") version \"2.0.0-beta.8\"\n"@
    } else {
        Seq::empty()
    }) + "}\n"@
}

/// The block that declares the artifact repository; the same for every plugin.
pub open spec fn repositories_block() -> Seq<char> {
    "repositories {\n    maven(\"https://repo.papermc.io/repository/maven-public\")\n}\n"@
}

/// The single dependency expression, chosen by the plugin's internals.
pub open spec fn dependency_line(internals: Option<Internals>, version: Seq<char>) -> Seq<char> {
    match internals {
        Some(i) => match i.mapping {
            Mapping::Mojang => "    paperweight.paperDevBundle(\""@ + version
                + "-R0.1-SNAPSHOT\")"@,
            Mapping::Spigot => "    compileOnly(\"org.spigotmc:spigot:"@ + version
                + "-R0.1-SNAPSHOT\")"@,
        },
        None => "    compileOnly(\"io.papermc.paper:paper-api:"@ + version + "-R0.1-SNAPSHOT\")"@,
    }
}

/// The block that holds the dependency expression.
pub open spec fn dependencies_block(internals: Option<Internals>, version: Seq<char>) -> Seq<
    char,
> {
    "dependencies {\n"@ + dependency_line(internals, version) + "\n}\n"@
}

/// The block that selects the Java toolchain.
pub open spec fn toolchain_block(java_version: u8) -> Seq<char> {
    "java {\n    toolchain.languageVersion.set(JavaLanguageVersion.of("@ + decimal(
        java_version as nat,
    ) + "))\n}"@
}

/// The whole build script.
pub open spec fn buildscript_text(
    internals: Option<Internals>,
    version: Seq<char>,
    java_version: u8,
) -> Seq<char> {
    plugins_block(internals) + repositories_block() + dependencies_block(internals, version)
        + toolchain_block(java_version)
}

/// The whole settings document; the name is quoted as it stands, with no escaping.
pub open spec fn buildsettings_text(name: Seq<char>) -> Seq<char> {
    "rootProject.name = \""@ + name
        + "\"\nplugins {\n    id(\"org.gradle.toolchains.foojay-resolver\") version \"0.9.0\"\n}"@
}

/// Renders the build script of the plugin.
pub fn create_buildscript(data: PluginData) -> (r: String)
    ensures
        r@ == buildscript_text(data.internals, data.version@, data.java_version),
{
    let mut s = String::new();
    s.append("plugins {\n    java\n");
    let mojang = match data.internals {
        Some(i) => match i.mapping {
            Mapping::Mojang => true,
            Mapping::Spigot => false,
        },
        None => false,
    };
    if mojang {
        s.append("    id(\"io.papermc.paperweight.userdev\") version \"2.0.0-beta.8\"\n");
    }
    s.append("}\n");
    assert(s@ =~= plugins_block(data.internals));
    s.append(
        "repositories {\n    maven(\"https://repo.papermc.io/repository/maven-public\")\n}\n",
    );
    s.append("dependencies {\n");
    match data.internals {
        Some(i) => match i.mapping {
            Mapping::Mojang => {
                s.append("    paperweight.paperDevBundle(\"");
            },
            Mapping::Spigot => {
                s.append("    compileOnly(\"org.spigotmc:spigot:");
            },
        },
        None => {
            s.append("    compileOnly(\"io.papermc.paper:paper-api:");
        },
    }
    s.append(data.version.as_str());
    s.append("-R0.1-SNAPSHOT\")");
    s.append("\n}\n");
    s.append("java {\n    toolchain.languageVersion.set(JavaLanguageVersion.of(");
    push_decimal(&mut s, data.java_version);
    s.append("))\n}");
    assert(s@ =~= buildscript_text(data.internals, data.version@, data.java_version));
    s
}

/// Renders the settings document of the plugin.
pub fn create_buildsettings(data: PluginData) -> (r: String)
    ensures
        r@ == buildsettings_text(data.name@),
{
    let mut s = String::new();
    s.append("rootProject.name = \"");
    s.append(data.name.as_str());
    s.append(
        "\"\nplugins {\n    id(\"org.gradle.toolchains.foojay-resolver\") version \"0.9.0\"\n}",
    );
    assert(s@ =~= buildsettings_text(data.name@));
    s
}

/// Both documents depend on nothing but the plugin's data: equal data give equal text.
pub proof fn lemma_descriptor_determinism(a: PluginData, b: PluginData)
    requires
        a.name@ == b.name@,
        a.java_version == b.java_version,
        a.version@ == b.version@,
        a.internals == b.internals,
    ensures
        buildscript_text(a.internals, a.version@, a.java_version) == buildscript_text(
            b.internals,
            b.version@,
            b.java_version,
        ),
        buildsettings_text(a.name@) == buildsettings_text(b.name@),
{
}

/// The three choices of internals give three different dependency blocks, while the
/// repository and toolchain blocks of the build script stay the same.
pub proof fn lemma_internals_vary_dependencies_only(version: Seq<char>, java_version: u8)
    ensures
        forall|i: Option<Internals>|
            #[trigger] buildscript_text(i, version, java_version) == plugins_block(i)
                + repositories_block() + dependencies_block(i, version) + toolchain_block(
                java_version,
            ),
        dependencies_block(None, version) != dependencies_block(
            Some(Internals { mapping: Mapping::Mojang }),
            version,
        ),
        dependencies_block(None, version) != dependencies_block(
            Some(Internals { mapping: Mapping::Spigot }),
            version,
        ),
        dependencies_block(Some(Internals { mapping: Mapping::Mojang }), version)
            != dependencies_block(Some(Internals { mapping: Mapping::Spigot }), version),
{
    reveal_strlit("dependencies {\n");
    reveal_strlit("    paperweight.paperDevBundle(\"");
    reveal_strlit("    compileOnly(\"org.spigotmc:spigot:");
    reveal_strlit("    compileOnly(\"io.papermc.paper:paper-api:");
    let none = dependencies_block(None, version);
    let mojang = dependencies_block(Some(Internals { mapping: Mapping::Mojang }), version);
    let spigot = dependencies_block(Some(Internals { mapping: Mapping::Spigot }), version);
    assert(none[19] != mojang[19]);
    assert(none[32] != spigot[32]);
    assert(mojang[19] != spigot[19]);
}

} // verus!

use vstd::prelude::*;

pub mod descriptor;
pub mod pipeline;
pub mod reconcile;
pub mod text;
pub mod version;

pub use descriptor::{create_buildscript, create_buildsettings};
pub use reconcile::filter_resources;

verus! {

/// The name-mapping scheme under which a plugin's internal API use is expressed.
#[derive(Debug, Clone, Copy, PartialEq, Eq, Structural)]
pub enum Mapping {
    Mojang,
    Spigot,
}

/// The display name of a mapping scheme.
pub open spec fn mapping_name(m: Mapping) -> Seq<char> {
    match m {
        Mapping::Mojang => "Mojang"@,
        Mapping::Spigot => "Spigot/Obfuscated"@,
    }
}

impl Mapping {
    /// The name under which the mapping scheme is shown and parsed.
    pub fn name(&self) -> (r: &'static str)
        ensures
            r@ == mapping_name(*self),
    {
        match self {
            Mapping::Mojang => "Mojang",
            Mapping::Spigot => "Spigot/Obfuscated",
        }
    }

    /// Parses a mapping scheme from its display name; any other string is rejected.
    pub fn parse(value: &str) -> (r: Result<Mapping, UnknownMapping>)
        ensures
            r == Ok::<Mapping, UnknownMapping>(Mapping::Mojang) <==> value@ == mapping_name(
                Mapping::Mojang,
            ),
            r == Ok::<Mapping, UnknownMapping>(Mapping::Spigot) <==> value@ == mapping_name(
                Mapping::Spigot,
            ),
            r is Err <==> (value@ != mapping_name(Mapping::Mojang) && value@ != mapping_name(
                Mapping::Spigot,
            )),
            r matches Err(e) ==> e.value@ == value@,
    {
        proof {
            reveal_strlit("Mojang");
            reveal_strlit("Spigot/Obfuscated");
            assert(mapping_name(Mapping::Mojang)[0] != mapping_name(Mapping::Spigot)[0]);
        }
        if text::str_equal(value, "Mojang") {
            Ok(Mapping::Mojang)
        } else if text::str_equal(value, "Spigot/Obfuscated") {
            Ok(Mapping::Spigot)
        } else {
            Err(UnknownMapping { value: String::from_str(value) })
        }
    }
}

/// The error of parsing a string that names no mapping scheme.
#[derive(Debug, Clone, PartialEq, Eq)]
pub struct UnknownMapping {
    /// The rejected string.
    pub value: String,
}

/// No two mapping schemes share a display name, so parsing the name of a scheme gives
/// that scheme back.
pub proof fn lemma_mapping_name_round_trip(m: Mapping)
    ensures
        forall|n: Mapping| #[trigger] mapping_name(n) == mapping_name(m) ==> n == m,
{
    reveal_strlit("Mojang");
    reveal_strlit("Spigot/Obfuscated");
    assert(mapping_name(Mapping::Mojang)[0] != mapping_name(Mapping::Spigot)[0]);
}

/// Declares that a plugin uses internal platform APIs, under the given mapping.
#[derive(Debug, Clone, Copy, PartialEq, Eq, Structural)]
pub struct Internals {
    pub mapping: Mapping,
}

/// The description of the plugin whose workspace is generated.
#[derive(Debug, Clone)]
pub struct PluginData {
    pub name: String,
    pub java_version: u8,
    pub jarfile: String,
    pub output_dir: String,
    pub version: String,
    pub internals: Option<Internals>,
}

} // verus!

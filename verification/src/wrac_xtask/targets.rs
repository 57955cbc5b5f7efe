//! The formats, targets and platforms that a product is built for.

use vstd::prelude::*;

use crate::text::{join2, join3};

verus! {

/// A plugin format that a product can ship in.
#[derive(Debug, Clone, Copy, PartialEq, Eq, Structural)]
pub enum PluginFormat {
    Clap,
    Vst3,
    Au,
    Aax,
}

impl PluginFormat {
    /// The name of the format as users see it.
    pub open spec fn label(self) -> Seq<char> {
        match self {
            PluginFormat::Clap => "CLAP"@,
            PluginFormat::Vst3 => "VST3"@,
            PluginFormat::Au => "AU"@,
            PluginFormat::Aax => "AAX"@,
        }
    }

    /// The name of the format as users see it.
    pub fn display(self) -> (name: &'static str)
        ensures
            name@ == self.label(),
    {
        match self {
            PluginFormat::Clap => "CLAP",
            PluginFormat::Vst3 => "VST3",
            PluginFormat::Au => "AU",
            PluginFormat::Aax => "AAX",
        }
    }
}

/// A format whose artifact can be validated.
#[derive(Debug, Clone, Copy, PartialEq, Eq, Structural)]
pub enum ValidateTarget {
    Clap,
    Vst3,
    Au,
    Aax,
}

/// A format that can be installed.
#[derive(Debug, Clone, Copy, PartialEq, Eq, Structural)]
pub enum PluginTarget {
    Clap,
    Vst3,
    Au,
    Aax,
}

impl PluginTarget {
    /// The format that the target is built in.
    pub open spec fn plugin_format(self) -> PluginFormat {
        match self {
            PluginTarget::Clap => PluginFormat::Clap,
            PluginTarget::Vst3 => PluginFormat::Vst3,
            PluginTarget::Au => PluginFormat::Au,
            PluginTarget::Aax => PluginFormat::Aax,
        }
    }

    /// The format that the target is built in.
    pub fn format(self) -> (format: PluginFormat)
        ensures
            format == self.plugin_format(),
    {
        match self {
            PluginTarget::Clap => PluginFormat::Clap,
            PluginTarget::Vst3 => PluginFormat::Vst3,
            PluginTarget::Au => PluginFormat::Au,
            PluginTarget::Aax => PluginFormat::Aax,
        }
    }
}

/// An operating system that products are built on.
#[derive(Debug, Clone, Copy, PartialEq, Eq, Structural)]
pub enum Platform {
    Macos,
    Windows,
    Linux,
}

/// For whom a product is installed.
#[derive(Debug, Clone, Copy, PartialEq, Eq, Structural)]
pub enum InstallScope {
    /// Whatever suits the format.
    Default,
    User,
    System,
}

/// Whose copies of a product are removed.
#[derive(Debug, Clone, Copy, PartialEq, Eq, Structural)]
pub enum UninstallScope {
    All,
    User,
    System,
}

impl Platform {
    /// The name that the dynamic library of a package has.
    pub open spec fn dynamic_library(self, package: Seq<char>) -> Seq<char> {
        match self {
            Platform::Macos => "lib"@ + package + ".dylib"@,
            Platform::Windows => package + ".dll"@,
            Platform::Linux => "lib"@ + package + ".so"@,
        }
    }

    /// The name that the static library of a package has.
    pub open spec fn static_library(self, package: Seq<char>) -> Seq<char> {
        match self {
            Platform::Windows => package + ".lib"@,
            _ => "lib"@ + package + ".a"@,
        }
    }

    /// The CMake generator, where the default is not wanted.
    pub open spec fn generator(self) -> Option<Seq<char>> {
        match self {
            Platform::Macos => Some("Xcode"@),
            Platform::Windows => Some("Visual Studio 17 2022"@),
            Platform::Linux => None,
        }
    }

    /// The name that the dynamic library of a package has.
    pub fn dynamic_library_name(self, package: &str) -> (name: String)
        ensures
            name@ == self.dynamic_library(package@),
    {
        match self {
            Platform::Macos => join3("lib", package, ".dylib"),
            Platform::Windows => join2(package, ".dll"),
            Platform::Linux => join3("lib", package, ".so"),
        }
    }

    /// The name that the static library of a package has.
    pub fn static_library_name(self, package: &str) -> (name: String)
        ensures
            name@ == self.static_library(package@),
    {
        match self {
            Platform::Windows => join2(package, ".lib"),
            _ => join3("lib", package, ".a"),
        }
    }

    /// The CMake generator, where the default is not wanted.
    pub fn cmake_generator(self) -> (generator: Option<&'static str>)
        ensures
            match generator {
                Some(name) => self.generator() == Some(name@),
                None => self.generator() is None,
            },
    {
        match self {
            Platform::Macos => Some("Xcode"),
            Platform::Windows => Some("Visual Studio 17 2022"),
            Platform::Linux => None,
        }
    }
}

/// How a product is built.
#[derive(Debug, Clone, Copy, PartialEq, Eq, Structural)]
pub enum BuildProfile {
    Debug,
    Release,
}

impl BuildProfile {
    /// The name of the CMake configuration.
    pub open spec fn config(self) -> Seq<char> {
        match self {
            BuildProfile::Debug => "Debug"@,
            BuildProfile::Release => "Release"@,
        }
    }

    /// The profile that a `--release` flag selects.
    pub fn from_release(release: bool) -> (profile: Self)
        ensures
            profile == if release {
                BuildProfile::Release
            } else {
                BuildProfile::Debug
            },
    {
        if release {
            BuildProfile::Release
        } else {
            BuildProfile::Debug
        }
    }

    /// The name of the CMake configuration.
    pub fn cmake_config(self) -> (name: &'static str)
        ensures
            name@ == self.config(),
    {
        match self {
            BuildProfile::Debug => "Debug",
            BuildProfile::Release => "Release",
        }
    }
}

/// Each format has the name that its users know it by, and each target is built in the format
/// that it is named after.
pub proof fn formats_are_known_by_name(format: PluginFormat, name: &str, target: PluginTarget)
    requires
        call_ensures(PluginFormat::display, (format,), name),
    ensures
        name@ == "CLAP"@ <==> format is Clap,
        name@ == "VST3"@ <==> format is Vst3,
        name@ == "AU"@ <==> format is Au,
        name@ == "AAX"@ <==> format is Aax,
        target.plugin_format() is Clap <==> target is Clap,
        target.plugin_format() is Vst3 <==> target is Vst3,
        target.plugin_format() is Au <==> target is Au,
        target.plugin_format() is Aax <==> target is Aax,
{
    reveal_strlit("CLAP");
    reveal_strlit("VST3");
    reveal_strlit("AU");
    reveal_strlit("AAX");
    assert("CLAP"@[0] != "VST3"@[0]);
    assert("CLAP"@.len() == 4 && "VST3"@.len() == 4 && "AU"@.len() == 2 && "AAX"@.len() == 3);
}

/// Libraries are named as the linker of each system names them: with a prefix everywhere but on
/// Windows, and with the ending of the system and of the kind of library.
pub proof fn libraries_are_named_as_their_system_does(
    platform: Platform,
    package: &str,
    shared: String,
    linked: String,
)
    requires
        call_ensures(Platform::dynamic_library_name, (platform, package), shared),
        call_ensures(Platform::static_library_name, (platform, package), linked),
    ensures
        platform is Windows ==> package@.is_prefix_of(shared@) && package@.is_prefix_of(linked@),
        !(platform is Windows) ==> ("lib"@ + package@).is_prefix_of(shared@) && ("lib"@
            + package@).is_prefix_of(linked@),
        platform is Macos ==> shared@ == "lib"@ + package@ + ".dylib"@,
        platform is Linux ==> shared@ == "lib"@ + package@ + ".so"@,
        platform is Windows ==> shared@ == package@ + ".dll"@ && linked@ == package@ + ".lib"@,
        !(platform is Windows) ==> linked@ == "lib"@ + package@ + ".a"@,
{
    if platform is Windows {
        assert(shared@.subrange(0, package@.len() as int) =~= package@);
        assert(linked@.subrange(0, package@.len() as int) =~= package@);
    } else {
        let stem = "lib"@ + package@;
        assert(shared@.subrange(0, stem.len() as int) =~= stem);
        assert(linked@.subrange(0, stem.len() as int) =~= stem);
    }
}

/// Where a build is asked for as a release it is built as one, and else for debugging; CMake
/// knows each by its own name, and builds with the tools of the system.
pub proof fn builds_are_named_as_they_are_asked_for(
    release: bool,
    profile: BuildProfile,
    name: &str,
    platform: Platform,
    generator: Option<&'static str>,
)
    requires
        call_ensures(BuildProfile::from_release, (release,), profile),
        call_ensures(BuildProfile::cmake_config, (profile,), name),
        call_ensures(Platform::cmake_generator, (platform,), generator),
    ensures
        profile is Release <==> release,
        release ==> name@ == "Release"@,
        !release ==> name@ == "Debug"@,
        generator is None <==> platform is Linux,
        platform is Macos ==> generator->Some_0@ == "Xcode"@,
        platform is Windows ==> generator->Some_0@ == "Visual Studio 17 2022"@,
{
}

/// A target is built in the format of its own name.
pub proof fn targets_are_built_in_their_format(target: PluginTarget, format: PluginFormat)
    requires
        call_ensures(PluginTarget::format, (target,), format),
    ensures
        format is Clap <==> target is Clap,
        format is Vst3 <==> target is Vst3,
        format is Au <==> target is Au,
        format is Aax <==> target is Aax,
{
}

} // verus!

//! Where builds find and leave their files.
//!
//! A place is given by the names that lead to it from the target directory.

use vstd::prelude::*;

use crate::text::{join2, join3, texts};
use crate::wrac_xtask::targets::{BuildProfile, Platform};

verus! {

impl BuildProfile {
    /// The name of the profile, as directories carry it.
    pub open spec fn directory(self) -> Seq<char> {
        match self {
            BuildProfile::Debug => "debug"@,
            BuildProfile::Release => "release"@,
        }
    }

    /// The name of the profile, as directories carry it.
    pub fn artifact_dir(self) -> (name: &'static str)
        ensures
            name@ == self.directory(),
    {
        match self {
            BuildProfile::Debug => "debug",
            BuildProfile::Release => "release",
        }
    }

    /// The flag by which cargo selects the profile.
    pub fn cargo_flag(self) -> (flag: Option<&'static str>)
        ensures
            match flag {
                Some(flag) => self is Release && flag@ == "--release"@,
                None => self is Debug,
            },
    {
        match self {
            BuildProfile::Debug => None,
            BuildProfile::Release => Some("--release"),
        }
    }
}

fn path2(a: &str, b: &str) -> (path: Vec<String>)
    ensures
        texts(path@) == seq![a@, b@],
{
    let mut path: Vec<String> = Vec::new();
    path.push(a.to_owned());
    path.push(b.to_owned());
    assert(texts(path@) =~= seq![a@, b@]);
    path
}

fn path3(a: &str, b: &str, c: &str) -> (path: Vec<String>)
    ensures
        texts(path@) == seq![a@, b@, c@],
{
    let mut path: Vec<String> = path2(a, b);
    let ghost before = path@;
    path.push(c.to_owned());
    assert(texts(path@) =~= texts(before).push(c@));
    assert(texts(path@) =~= seq![a@, b@, c@]);
    path
}

/// Where plugins are left.
pub fn plugins_dir(profile: BuildProfile) -> (path: Vec<String>)
    ensures
        texts(path@) == seq!["wrac"@, "plugins"@, profile.directory()],
{
    path3("wrac", "plugins", profile.artifact_dir())
}

/// Where standalone applications are left.
pub fn standalone_dir(profile: BuildProfile) -> (path: Vec<String>)
    ensures
        texts(path@) == seq!["wrac"@, "standalone"@, profile.directory()],
{
    path3("wrac", "standalone", profile.artifact_dir())
}

/// Where wrappers are built.
pub fn cmake_dir(purpose: &str, profile: BuildProfile) -> (path: Vec<String>)
    ensures
        texts(path@) == seq!["wrac"@, "cmake"@, purpose@ + "-"@ + profile.directory()],
{
    let name = join3(purpose, "-", profile.artifact_dir());
    path3("wrac", "cmake", name.as_str())
}

/// Where a plugin bundle is left.
pub fn plugin_bundle(profile: BuildProfile, bundle_name: &str) -> (path: Vec<String>)
    ensures
        texts(path@) == seq!["wrac"@, "plugins"@, profile.directory(), bundle_name@],
{
    let mut path = plugins_dir(profile);
    let ghost before = path@;
    path.push(bundle_name.to_owned());
    assert(texts(path@) =~= texts(before).push(bundle_name@));
    assert(texts(path@) =~= seq!["wrac"@, "plugins"@, profile.directory(), bundle_name@]);
    path
}

/// The name of the file of a standalone application.
pub open spec fn standalone_file(platform: Platform, name: Seq<char>) -> Seq<char> {
    match platform {
        Platform::Macos => name + ".app"@,
        Platform::Windows => name + ".exe"@,
        Platform::Linux => name,
    }
}

/// Where a standalone application is left.
pub fn standalone_artifact(platform: Platform, profile: BuildProfile, name: &str) -> (path: Vec<
    String,
>)
    ensures
        texts(path@) == seq![
            "wrac"@,
            "standalone"@,
            profile.directory(),
            standalone_file(platform, name@),
        ],
{
    let file = match platform {
        Platform::Macos => join2(name, ".app"),
        Platform::Windows => join2(name, ".exe"),
        Platform::Linux => name.to_owned(),
    };
    let mut path = standalone_dir(profile);
    let ghost before = path@;
    path.push(file);
    assert(texts(path@) =~= texts(before).push(standalone_file(platform, name@)));
    assert(texts(path@) =~= seq![
        "wrac"@,
        "standalone"@,
        profile.directory(),
        standalone_file(platform, name@),
    ]);
    path
}

/// Where cargo leaves the dynamic library of a package.
pub fn dynamic_library(platform: Platform, profile: BuildProfile, package: &str) -> (path: Vec<
    String,
>)
    ensures
        texts(path@) == seq![profile.directory(), platform.dynamic_library(package@)],
{
    let name = platform.dynamic_library_name(package);
    path2(profile.artifact_dir(), name.as_str())
}

/// Where cargo leaves the static library of a package.
pub fn static_library(platform: Platform, profile: BuildProfile, package: &str) -> (path: Vec<
    String,
>)
    ensures
        texts(path@) == seq![profile.directory(), platform.static_library(package@)],
{
    let name = platform.static_library_name(package);
    path2(profile.artifact_dir(), name.as_str())
}

/// Where the VST3 validator is built.
pub fn vst3_validator(platform: Platform) -> (path: Vec<String>)
    ensures
        texts(path@) == seq![
            "vst3sdk-validator"@,
            "bin"@,
            "Debug"@,
            if platform is Windows {
                "validator.exe"@
            } else {
                "validator"@
            },
        ],
{
    let executable = if platform == Platform::Windows {
        "validator.exe"
    } else {
        "validator"
    };
    let mut path = path3("vst3sdk-validator", "bin", "Debug");
    let ghost before = path@;
    path.push(executable.to_owned());
    assert(texts(path@) =~= texts(before).push(executable@));
    assert(texts(path@) =~= seq!["vst3sdk-validator"@, "bin"@, "Debug"@, executable@]);
    path
}

/// Releases and builds for debugging lie apart, each in a directory of its own name, and cargo is
/// told of a release alone.
pub proof fn profiles_lie_apart(profile: BuildProfile, name: &str, flag: Option<&'static str>)
    requires
        call_ensures(BuildProfile::artifact_dir, (profile,), name),
        call_ensures(BuildProfile::cargo_flag, (profile,), flag),
    ensures
        profile is Release ==> name@ == "release"@ && flag is Some && flag->Some_0@ == "--release"@,
        profile is Debug ==> name@ == "debug"@ && flag is None,
        BuildProfile::Release.directory() != BuildProfile::Debug.directory(),
{
    reveal_strlit("release");
    reveal_strlit("debug");
    assert("release"@.len() != "debug"@.len());
}

/// Plugins, standalone applications and wrappers are left in directories of their own, each below
/// that of its profile; a bundle lies among the plugins, an application among the applications,
/// with the ending that the system knows applications by.
pub proof fn builds_are_left_apart(
    profile: BuildProfile,
    platform: Platform,
    name: &str,
    plugins: Vec<String>,
    standalone: Vec<String>,
    cmake: Vec<String>,
    bundle: Vec<String>,
    application: Vec<String>,
)
    requires
        call_ensures(plugins_dir, (profile,), plugins),
        call_ensures(standalone_dir, (profile,), standalone),
        call_ensures(cmake_dir, (name, profile), cmake),
        call_ensures(plugin_bundle, (profile, name), bundle),
        call_ensures(standalone_artifact, (platform, profile, name), application),
    ensures
        plugins@.len() == 3 && plugins@[0]@ == "wrac"@ && plugins@[1]@ == "plugins"@,
        standalone@.len() == 3 && standalone@[0]@ == "wrac"@ && standalone@[1]@ == "standalone"@,
        cmake@.len() == 3 && cmake@[0]@ == "wrac"@ && cmake@[1]@ == "cmake"@,
        profile is Release ==> plugins@[2]@ == "release"@ && standalone@[2]@ == "release"@
            && cmake@[2]@ == name@ + "-"@ + "release"@,
        profile is Debug ==> plugins@[2]@ == "debug"@ && standalone@[2]@ == "debug"@ && cmake@[2]@
            == name@ + "-"@ + "debug"@,
        texts(bundle@) == texts(plugins@).push(name@),
        texts(application@).drop_last() == texts(standalone@),
        platform is Macos ==> application@.last()@ == name@ + ".app"@,
        platform is Windows ==> application@.last()@ == name@ + ".exe"@,
        platform is Linux ==> application@.last()@ == name@,
{
    assert(texts(plugins@).len() == plugins@.len());
    assert(texts(plugins@)[0] == plugins@[0]@);
    assert(texts(plugins@)[1] == plugins@[1]@);
    assert(texts(plugins@)[2] == plugins@[2]@);
    assert(texts(standalone@).len() == standalone@.len());
    assert(texts(standalone@)[0] == standalone@[0]@);
    assert(texts(standalone@)[1] == standalone@[1]@);
    assert(texts(standalone@)[2] == standalone@[2]@);
    assert(texts(cmake@).len() == cmake@.len());
    assert(texts(cmake@)[0] == cmake@[0]@);
    assert(texts(cmake@)[1] == cmake@[1]@);
    assert(texts(cmake@)[2] == cmake@[2]@);
    assert(texts(application@).len() == application@.len());
    assert(texts(application@)[0] == application@[0]@);
    assert(texts(application@)[1] == application@[1]@);
    assert(texts(application@)[2] == application@[2]@);
    assert(texts(application@)[3] == application@[3]@);
    assert(texts(bundle@) =~= texts(plugins@).push(name@));
    assert(texts(application@).drop_last() =~= texts(standalone@));
}

/// Libraries lie in the directory of their profile, under the names that the system gives them.
pub proof fn libraries_lie_with_their_profile(
    platform: Platform,
    profile: BuildProfile,
    package: &str,
    shared: Vec<String>,
    linked: Vec<String>,
    directory: &str,
    shared_name: String,
    linked_name: String,
)
    requires
        call_ensures(dynamic_library, (platform, profile, package), shared),
        call_ensures(static_library, (platform, profile, package), linked),
        call_ensures(BuildProfile::artifact_dir, (profile,), directory),
        call_ensures(Platform::dynamic_library_name, (platform, package), shared_name),
        call_ensures(Platform::static_library_name, (platform, package), linked_name),
    ensures
        shared@.len() == 2 && shared@[0]@ == directory@ && shared@[1]@ == shared_name@,
        linked@.len() == 2 && linked@[0]@ == directory@ && linked@[1]@ == linked_name@,
{
    assert(texts(shared@).len() == shared@.len());
    assert(texts(shared@)[0] == shared@[0]@);
    assert(texts(shared@)[1] == shared@[1]@);
    assert(texts(linked@).len() == linked@.len());
    assert(texts(linked@)[0] == linked@[0]@);
    assert(texts(linked@)[1] == linked@[1]@);
}

/// The validator is built in one place, under the name that programs have on the platform.
pub proof fn the_vst3_validator_is_built_in_one_place(platform: Platform, path: Vec<String>)
    requires
        call_ensures(vst3_validator, (platform,), path),
    ensures
        path@.len() == 4,
        path@[0]@ == "vst3sdk-validator"@ && path@[1]@ == "bin"@ && path@[2]@ == "Debug"@,
        platform is Windows ==> path@[3]@ == "validator.exe"@,
        !(platform is Windows) ==> path@[3]@ == "validator"@,
{
    assert(texts(path@).len() == path@.len());
    assert(texts(path@)[0] == path@[0]@);
    assert(texts(path@)[1] == path@[1]@);
    assert(texts(path@)[2] == path@[2]@);
    assert(texts(path@)[3] == path@[3]@);
}

} // verus!

//! What the build commands do.

use vstd::prelude::*;

use crate::text::{decimal, decimal_text, join2, join3, texts};
use crate::wrac_xtask::install::{InstallBase, InstallLocation, Place};
use crate::wrac_xtask::package::{clap_plist, write_plist};
use crate::wrac_xtask::targets::{BuildProfile, InstallScope, Platform, UninstallScope};
use crate::wrac_xtask::wrapper::{generator_args, on_off, on_off_text};
use crate::xtask::targets::{PluginTarget, Target, ValidateTarget};

verus! {

// Building

/// A step of a build.
#[derive(Debug, Clone, Copy, PartialEq, Eq, Structural)]
pub enum BuildStep {
    Clean,
    BuildGui,
    BuildRustPlugin,
    PackageClap,
    BuildPluginWrappers { vst3: bool, au: bool },
    BuildStandalone,
    Install,
    Validate,
    PrintOutputs,
}

/// A step where a condition holds, and none otherwise.
pub open spec fn step_if(condition: bool, step: BuildStep) -> Seq<BuildStep> {
    if condition {
        seq![step]
    } else {
        Seq::empty()
    }
}

/// The steps of a build of targets. The plugin holds the GUI, so the GUI is built first; every
/// artifact is made of the plugin, so the plugin comes before them. What was built is installed
/// before it is validated.
pub open spec fn build_steps(
    clean: bool,
    install: bool,
    validate: bool,
    targets: Seq<Target>,
) -> Seq<BuildStep> {
    let vst3 = targets.contains(Target::Vst3);
    let au = targets.contains(Target::Au);
    step_if(clean, BuildStep::Clean) + seq![BuildStep::BuildGui, BuildStep::BuildRustPlugin]
        + step_if(targets.contains(Target::Clap), BuildStep::PackageClap) + step_if(
        vst3 || au,
        BuildStep::BuildPluginWrappers { vst3, au },
    ) + step_if(targets.contains(Target::Standalone), BuildStep::BuildStandalone) + step_if(
        install,
        BuildStep::Install,
    ) + step_if(validate, BuildStep::Validate) + seq![BuildStep::PrintOutputs]
}

fn contains_target(targets: &[Target], target: Target) -> (found: bool)
    ensures
        found == targets@.contains(target),
{
    let mut i: usize = 0;
    while i < targets.len()
        invariant
            i <= targets@.len(),
            forall|j: int| 0 <= j < i ==> targets@[j] != target,
        decreases targets@.len() - i,
    {
        if targets[i] == target {
            assert(targets@[i as int] == target);
            return true;
        }
        i += 1;
    }
    false
}

fn push_step_if(steps: &mut Vec<BuildStep>, condition: bool, step: BuildStep)
    ensures
        final(steps)@ == old(steps)@ + step_if(condition, step),
{
    if condition {
        steps.push(step);
    }
    assert(steps@ =~= old(steps)@ + step_if(condition, step));
}

/// The steps of a build of targets.
pub fn build(clean: bool, install: bool, validate: bool, targets: &[Target]) -> (steps: Vec<
    BuildStep,
>)
    ensures
        steps@ == build_steps(clean, install, validate, targets@),
{
    let vst3 = contains_target(targets, Target::Vst3);
    let au = contains_target(targets, Target::Au);
    let mut steps: Vec<BuildStep> = Vec::new();
    push_step_if(&mut steps, clean, BuildStep::Clean);
    let ghost before = steps@;
    steps.push(BuildStep::BuildGui);
    steps.push(BuildStep::BuildRustPlugin);
    assert(steps@ =~= before + seq![BuildStep::BuildGui, BuildStep::BuildRustPlugin]);
    push_step_if(&mut steps, contains_target(targets, Target::Clap), BuildStep::PackageClap);
    push_step_if(&mut steps, vst3 || au, BuildStep::BuildPluginWrappers { vst3, au });
    push_step_if(
        &mut steps,
        contains_target(targets, Target::Standalone),
        BuildStep::BuildStandalone,
    );
    push_step_if(&mut steps, install, BuildStep::Install);
    push_step_if(&mut steps, validate, BuildStep::Validate);
    let ghost last = steps@;
    steps.push(BuildStep::PrintOutputs);
    assert(steps@ =~= last + seq![BuildStep::PrintOutputs]);
    assert(steps@ =~= build_steps(clean, install, validate, targets@));
    steps
}

/// Whether a step makes a target.
pub open spec fn makes(step: BuildStep, target: Target) -> bool {
    match target {
        Target::Clap => step is PackageClap,
        Target::Vst3 => step matches BuildStep::BuildPluginWrappers { vst3, .. } && vst3,
        Target::Au => step matches BuildStep::BuildPluginWrappers { au, .. } && au,
        Target::Standalone => step is BuildStandalone,
    }
}

/// Every target that is asked for is made, and no other, once the GUI and the plugin are built.
pub proof fn builds_make_what_is_asked_for(
    clean: bool,
    install: bool,
    validate: bool,
    targets: Seq<Target>,
    target: Target,
)
    ensures
        ({
            let steps = build_steps(clean, install, validate, targets);
            let start = if clean {
                1int
            } else {
                0
            };
            &&& steps[start] is BuildGui
            &&& steps[start + 1] is BuildRustPlugin
            &&& targets.contains(target) <==> exists|i: int|
                start + 2 <= i < steps.len() && makes(#[trigger] steps[i], target)
            &&& forall|i: int|
                0 <= i < steps.len() && makes(#[trigger] steps[i], target) ==> i >= start + 2
        }),
{
    let vst3 = targets.contains(Target::Vst3);
    let au = targets.contains(Target::Au);
    let steps = build_steps(clean, install, validate, targets);
    let a = step_if(clean, BuildStep::Clean);
    let b = a + seq![BuildStep::BuildGui, BuildStep::BuildRustPlugin];
    let c = b + step_if(targets.contains(Target::Clap), BuildStep::PackageClap);
    let d = c + step_if(vst3 || au, BuildStep::BuildPluginWrappers { vst3, au });
    let e = d + step_if(targets.contains(Target::Standalone), BuildStep::BuildStandalone);
    if targets.contains(target) {
        match target {
            Target::Clap => assert(makes(steps[b.len() as int], target)),
            Target::Vst3 => assert(makes(steps[c.len() as int], target)),
            Target::Au => assert(makes(steps[c.len() as int], target)),
            Target::Standalone => assert(makes(steps[d.len() as int], target)),
        }
    }
}

/// A build validates exactly where it is asked to, once, and after it has made and installed
/// everything: only what was built is shown after that.
pub proof fn builds_validate_what_is_made(
    clean: bool,
    install: bool,
    validate: bool,
    targets: Seq<Target>,
    i: int,
)
    requires
        0 <= i < build_steps(clean, install, validate, targets).len(),
    ensures
        ({
            let steps = build_steps(clean, install, validate, targets);
            &&& steps[i] is Validate <==> validate && i == steps.len() - 2
            &&& steps[i] is PrintOutputs <==> i == steps.len() - 1
        }),
{
    let vst3 = targets.contains(Target::Vst3);
    let au = targets.contains(Target::Au);
    let a = step_if(clean, BuildStep::Clean);
    let b = a + seq![BuildStep::BuildGui, BuildStep::BuildRustPlugin];
    let c = b + step_if(targets.contains(Target::Clap), BuildStep::PackageClap);
    let d = c + step_if(vst3 || au, BuildStep::BuildPluginWrappers { vst3, au });
    let e = d + step_if(targets.contains(Target::Standalone), BuildStep::BuildStandalone);
    let f = e + step_if(install, BuildStep::Install);
    let g = f + step_if(validate, BuildStep::Validate);
    let steps = build_steps(clean, install, validate, targets);
    assert(steps == g + seq![BuildStep::PrintOutputs]);
    if i < f.len() {
        assert(steps[i] == f[i]);
        if i < e.len() {
            assert(f[i] == e[i]);
            if i < d.len() {
                assert(e[i] == d[i]);
                if i < c.len() {
                    assert(d[i] == c[i]);
                    if i < b.len() {
                        assert(c[i] == b[i]);
                    }
                }
            }
        }
    }
}

/// The plugin formats among targets, in order. A standalone application is not installed.
pub open spec fn installable(targets: Seq<Target>) -> Seq<PluginTarget>
    decreases targets.len(),
{
    if targets.len() == 0 {
        Seq::empty()
    } else {
        let before = installable(targets.drop_last());
        match targets.last().plugin() {
            Some(plugin) => before.push(plugin),
            None => before,
        }
    }
}

/// The plugin formats among targets, in order.
pub fn installable_targets(targets: &[Target]) -> (plugins: Vec<PluginTarget>)
    ensures
        plugins@ == installable(targets@),
{
    let mut plugins: Vec<PluginTarget> = Vec::new();
    let mut i: usize = 0;
    while i < targets.len()
        invariant
            i <= targets@.len(),
            plugins@ == installable(targets@.take(i as int)),
        decreases targets@.len() - i,
    {
        proof {
            assert(targets@.take(i + 1).drop_last() =~= targets@.take(i as int));
            assert(targets@.take(i + 1).last() == targets@[i as int]);
        }
        if let Some(plugin) = targets[i].plugin_target() {
            plugins.push(plugin);
        }
        i += 1;
    }
    assert(targets@.take(i as int) =~= targets@);
    plugins
}

/// The arguments by which cargo builds the plugin.
pub fn cargo_args(target_dir: &str, manifest: &str, profile: BuildProfile) -> (args: Vec<String>)
    ensures
        texts(args@) == seq![
            "build"@,
            "--target-dir"@,
            target_dir@,
            "--manifest-path"@,
            manifest@,
        ] + (if profile is Release {
            seq!["--release"@]
        } else {
            Seq::empty()
        }),
{
    let mut args: Vec<String> = Vec::new();
    args.push("build".to_owned());
    args.push("--target-dir".to_owned());
    args.push(target_dir.to_owned());
    args.push("--manifest-path".to_owned());
    args.push(manifest.to_owned());
    let ghost common = texts(args@);
    assert(common =~= seq!["build"@, "--target-dir"@, target_dir@, "--manifest-path"@, manifest@]);
    if let Some(flag) = profile.cargo_flag() {
        args.push(flag.to_owned());
    }
    assert(texts(args@) =~= common + (if profile is Release {
        seq!["--release"@]
    } else {
        Seq::empty()
    }));
    args
}

/// The property list of the CLAP bundle.
pub fn macos_clap_info_plist(plugin_name: &str, plugin_id: &str) -> (plist: String)
    ensures
        plist@ == clap_plist(plugin_name@, plugin_id@, "1.0.0"@, ""@),
{
    write_plist(plugin_name, plugin_id, "1.0.0", "")
}

/// The arguments by which an artifact is signed.
pub fn codesign_args(path: &str) -> (args: Vec<String>)
    ensures
        texts(args@) == seq!["--force"@, "--sign"@, "-"@, "--timestamp=none"@, path@],
{
    let mut args: Vec<String> = Vec::new();
    args.push("--force".to_owned());
    args.push("--sign".to_owned());
    args.push("-".to_owned());
    args.push("--timestamp=none".to_owned());
    args.push(path.to_owned());
    assert(texts(args@) =~= seq!["--force"@, "--sign"@, "-"@, "--timestamp=none"@, path@]);
    args
}

/// The arguments by which a library is told where it is loaded from.
pub fn install_name_args(plugin_name: &str, library: &str) -> (args: Vec<String>)
    ensures
        texts(args@) == seq!["-id"@, "@loader_path/"@ + plugin_name@, library@],
{
    let mut args: Vec<String> = Vec::new();
    args.push("-id".to_owned());
    args.push(join2("@loader_path/", plugin_name));
    args.push(library.to_owned());
    assert(texts(args@) =~= seq!["-id"@, "@loader_path/"@ + plugin_name@, library@]);
    args
}

/// What is said of an artifact that was built.
pub fn output_line(target: Target, path: &str) -> (line: String)
    ensures
        line@ == target.label() + ": "@ + path@,
{
    join3(target.display(), ": ", path)
}

// Wrappers

/// A build of wrappers.
#[derive(Debug, Clone, Copy, PartialEq, Eq, Structural)]
pub enum WrapperBuild {
    Plugin { vst3: bool, au: bool },
    Standalone,
}

impl WrapperBuild {
    /// The name of the build.
    pub open spec fn name(self) -> Seq<char> {
        match self {
            WrapperBuild::Plugin { .. } => "wrap"@,
            WrapperBuild::Standalone => "standalone"@,
        }
    }

    /// The name of the build.
    pub fn purpose(self) -> (purpose: &'static str)
        ensures
            purpose@ == self.name(),
    {
        match self {
            WrapperBuild::Plugin { .. } => "wrap",
            WrapperBuild::Standalone => "standalone",
        }
    }
}

/// What a wrapper build works on. Paths are as the system shows them.
#[derive(Debug)]
pub struct WrapperSet {
    pub platform: Platform,
    pub profile: BuildProfile,
    pub package: String,
    pub plugin_id: String,
    pub plugin_name: String,
    pub company_name: String,
    pub auv2_subtype: String,
    pub auv2_manufacturer_code: String,
    pub standalone_name: String,
    pub wrapper_dir: String,
    pub build_dir: String,
    pub stage_dir: String,
    pub static_library: String,
    pub audio_unit_sdk: String,
}

/// The arguments that every wrapper build takes.
pub open spec fn common_args(build: WrapperBuild, set: WrapperSet) -> Seq<Seq<char>> {
    seq![
        "-S"@,
        set.wrapper_dir@,
        "-B"@,
        set.build_dir@,
        "-DCLAP_WRAPPER_BUILDER_TARGET_LIB="@ + set.static_library@,
        "-DCLAP_WRAPPER_BUILDER_OUTPUT_NAME="@ + set.plugin_name@,
        "-DCLAP_WRAPPER_BUILDER_TARGET_NAME="@ + (set.package@ + "_"@ + build.name()),
        "-DCLAP_WRAPPER_BUILDER_STAGE_DIR="@ + set.stage_dir@,
        "-DCMAKE_BUILD_TYPE="@ + set.profile.config(),
        "-DCLAP_WRAPPER_BUILDER_BUILD_AAX=OFF"@,
        "-DCLAP_WRAPPER_DOWNLOAD_DEPENDENCIES=OFF"@,
        "-DCLAP_WRAPPER_CXX_STANDARD=23"@,
    ]
}

fn push_common_args(args: &mut Vec<String>, build: WrapperBuild, set: &WrapperSet)
    ensures
        texts(final(args)@) == texts(old(args)@) + common_args(build, *set),
{
    let ghost before = texts(args@);
    args.push("-S".to_owned());
    args.push(set.wrapper_dir.clone());
    args.push("-B".to_owned());
    args.push(set.build_dir.clone());
    args.push(join2("-DCLAP_WRAPPER_BUILDER_TARGET_LIB=", set.static_library.as_str()));
    args.push(join2("-DCLAP_WRAPPER_BUILDER_OUTPUT_NAME=", set.plugin_name.as_str()));
    args.push(join2(
        "-DCLAP_WRAPPER_BUILDER_TARGET_NAME=",
        join3(set.package.as_str(), "_", build.purpose()).as_str(),
    ));
    args.push(join2("-DCLAP_WRAPPER_BUILDER_STAGE_DIR=", set.stage_dir.as_str()));
    args.push(join2("-DCMAKE_BUILD_TYPE=", set.profile.cmake_config()));
    args.push("-DCLAP_WRAPPER_BUILDER_BUILD_AAX=OFF".to_owned());
    args.push("-DCLAP_WRAPPER_DOWNLOAD_DEPENDENCIES=OFF".to_owned());
    args.push("-DCLAP_WRAPPER_CXX_STANDARD=23".to_owned());
    assert(texts(args@) =~= before + common_args(build, *set));
}

/// The arguments of a build of plugins.
pub open spec fn plugin_args(vst3: bool, au: bool) -> Seq<Seq<char>> {
    seq![
        "-DCLAP_WRAPPER_BUILDER_BUILD_VST3="@ + on_off_text(vst3),
        "-DCLAP_WRAPPER_BUILDER_BUILD_AUV2="@ + on_off_text(au),
        "-DCLAP_WRAPPER_BUILDER_BUILD_STANDALONE=OFF"@,
    ]
}

fn push_plugin_args(args: &mut Vec<String>, vst3: bool, au: bool)
    ensures
        texts(final(args)@) == texts(old(args)@) + plugin_args(vst3, au),
{
    let ghost before = texts(args@);
    args.push(join2("-DCLAP_WRAPPER_BUILDER_BUILD_VST3=", on_off(vst3)));
    args.push(join2("-DCLAP_WRAPPER_BUILDER_BUILD_AUV2=", on_off(au)));
    args.push("-DCLAP_WRAPPER_BUILDER_BUILD_STANDALONE=OFF".to_owned());
    assert(texts(args@) =~= before + plugin_args(vst3, au));
}

/// The arguments of a build of the standalone application, which may fetch what it needs.
pub open spec fn standalone_args(set: WrapperSet) -> Seq<Seq<char>> {
    seq![
        "-DCLAP_WRAPPER_BUILDER_BUILD_VST3=OFF"@,
        "-DCLAP_WRAPPER_BUILDER_BUILD_AUV2=OFF"@,
        "-DCLAP_WRAPPER_BUILDER_BUILD_STANDALONE=ON"@,
        "-DCLAP_WRAPPER_BUILDER_STANDALONE_PLUGIN_ID="@ + set.plugin_id@,
        "-DCLAP_WRAPPER_BUILDER_STANDALONE_OUTPUT_NAME="@ + set.standalone_name@,
        "-DCLAP_WRAPPER_DOWNLOAD_DEPENDENCIES=ON"@,
    ]
}

fn push_standalone_args(args: &mut Vec<String>, set: &WrapperSet)
    ensures
        texts(final(args)@) == texts(old(args)@) + standalone_args(*set),
{
    let ghost before = texts(args@);
    args.push("-DCLAP_WRAPPER_BUILDER_BUILD_VST3=OFF".to_owned());
    args.push("-DCLAP_WRAPPER_BUILDER_BUILD_AUV2=OFF".to_owned());
    args.push("-DCLAP_WRAPPER_BUILDER_BUILD_STANDALONE=ON".to_owned());
    args.push(join2("-DCLAP_WRAPPER_BUILDER_STANDALONE_PLUGIN_ID=", set.plugin_id.as_str()));
    args.push(join2("-DCLAP_WRAPPER_BUILDER_STANDALONE_OUTPUT_NAME=", set.standalone_name.as_str()));
    args.push("-DCLAP_WRAPPER_DOWNLOAD_DEPENDENCIES=ON".to_owned());
    assert(texts(args@) =~= before + standalone_args(*set));
}

/// The arguments of every build on macOS.
pub open spec fn macos_args(set: WrapperSet) -> Seq<Seq<char>> {
    seq![
        "-DAUDIOUNIT_SDK_ROOT="@ + set.audio_unit_sdk@,
        "-DCLAP_WRAPPER_AUV2_INSTRUMENT_TYPE=aufx"@,
        "-DCLAP_WRAPPER_AUV2_MANUFACTURER_NAME="@ + set.company_name@,
        "-DCLAP_WRAPPER_AUV2_MANUFACTURER_CODE="@ + set.auv2_manufacturer_code@,
        "-DCLAP_WRAPPER_AUV2_SUBTYPE_CODE="@ + set.auv2_subtype@,
    ]
}

fn push_macos_args(args: &mut Vec<String>, set: &WrapperSet)
    ensures
        texts(final(args)@) == texts(old(args)@) + macos_args(*set),
{
    let ghost before = texts(args@);
    args.push(join2("-DAUDIOUNIT_SDK_ROOT=", set.audio_unit_sdk.as_str()));
    args.push("-DCLAP_WRAPPER_AUV2_INSTRUMENT_TYPE=aufx".to_owned());
    args.push(join2("-DCLAP_WRAPPER_AUV2_MANUFACTURER_NAME=", set.company_name.as_str()));
    args.push(join2("-DCLAP_WRAPPER_AUV2_MANUFACTURER_CODE=", set.auv2_manufacturer_code.as_str()));
    args.push(join2("-DCLAP_WRAPPER_AUV2_SUBTYPE_CODE=", set.auv2_subtype.as_str()));
    assert(texts(args@) =~= before + macos_args(*set));
}

/// The arguments by which CMake is configured for a build.
pub open spec fn configure_args(build: WrapperBuild, set: WrapperSet) -> Seq<Seq<char>> {
    common_args(build, set) + (match build {
        WrapperBuild::Plugin { vst3, au } => plugin_args(vst3, au),
        WrapperBuild::Standalone => standalone_args(set),
    }) + (if set.platform is Macos {
        macos_args(set)
    } else {
        Seq::empty()
    }) + generator_args(set.platform)
}

/// The arguments by which CMake is configured for a build.
pub fn configure_wrapper_set(build: WrapperBuild, set: &WrapperSet) -> (args: Vec<String>)
    ensures
        texts(args@) == configure_args(build, *set),
{
    let mut args: Vec<String> = Vec::new();
    assert(texts(args@) =~= Seq::<Seq<char>>::empty());
    push_common_args(&mut args, build, set);
    assert(texts(args@) =~= common_args(build, *set));
    match build {
        WrapperBuild::Plugin { vst3, au } => push_plugin_args(&mut args, vst3, au),
        WrapperBuild::Standalone => push_standalone_args(&mut args, set),
    }
    let ghost before = texts(args@);
    assert(before + Seq::<Seq<char>>::empty() =~= before);
    if set.platform == Platform::Macos {
        push_macos_args(&mut args, set);
    }
    let ghost last = texts(args@);
    if let Some(generator) = set.platform.cmake_generator() {
        args.push("-G".to_owned());
        args.push(generator.to_owned());
    }
    assert(texts(args@) =~= last + generator_args(set.platform));
    args
}

/// What Xcode is told so that warnings of the Audio Unit SDK do not break a build.
pub const XCODE_FLAGS: &'static str =
    "OTHER_CPLUSPLUSFLAGS=$(inherited) -Wno-gnu-statement-expression-from-macro-expansion -Wno-shorten-64-to-32";

/// The arguments by which CMake makes a build.
pub fn build_wrapper_set(set: &WrapperSet) -> (args: Vec<String>)
    ensures
        texts(args@) == seq![
            "--build"@,
            set.build_dir@,
            "--config"@,
            set.profile.config(),
        ] + (if set.platform is Macos {
            seq!["--"@, XCODE_FLAGS@]
        } else {
            Seq::empty()
        }),
{
    let mut args: Vec<String> = Vec::new();
    args.push("--build".to_owned());
    args.push(set.build_dir.clone());
    args.push("--config".to_owned());
    args.push(set.profile.cmake_config().to_owned());
    let ghost common = texts(args@);
    assert(common =~= seq!["--build"@, set.build_dir@, "--config"@, set.profile.config()]);
    if set.platform == Platform::Macos {
        args.push("--".to_owned());
        args.push(XCODE_FLAGS.to_owned());
    }
    assert(texts(args@) =~= common + (if set.platform is Macos {
        seq!["--"@, XCODE_FLAGS@]
    } else {
        Seq::empty()
    }));
    args
}

/// An artifact that has to be there once wrappers are built, and whether it is then signed.
#[derive(Debug, Clone, Copy, PartialEq, Eq, Structural)]
pub struct BuiltArtifact {
    pub target: Target,
    pub sign: bool,
}

/// The artifacts of a build, in the order in which they are looked for.
pub open spec fn built_artifacts(build: WrapperBuild, platform: Platform) -> Seq<BuiltArtifact> {
    match build {
        WrapperBuild::Plugin { vst3, au } => (if vst3 {
            seq![BuiltArtifact { target: Target::Vst3, sign: platform is Macos }]
        } else {
            Seq::empty()
        }) + (if au {
            seq![BuiltArtifact { target: Target::Au, sign: true }]
        } else {
            Seq::empty()
        }),
        WrapperBuild::Standalone => seq![
            BuiltArtifact { target: Target::Standalone, sign: platform is Macos },
        ],
    }
}

/// The artifacts of a build, in the order in which they are looked for.
pub fn artifacts_of_build(build: WrapperBuild, platform: Platform) -> (artifacts: Vec<
    BuiltArtifact,
>)
    ensures
        artifacts@ == built_artifacts(build, platform),
{
    let on_macos = platform == Platform::Macos;
    let mut artifacts: Vec<BuiltArtifact> = Vec::new();
    match build {
        WrapperBuild::Plugin { vst3, au } => {
            if vst3 {
                artifacts.push(BuiltArtifact { target: Target::Vst3, sign: on_macos });
            }
            if au {
                artifacts.push(BuiltArtifact { target: Target::Au, sign: true });
            }
        },
        WrapperBuild::Standalone => {
            artifacts.push(BuiltArtifact { target: Target::Standalone, sign: on_macos });
        },
    }
    assert(artifacts@ =~= built_artifacts(build, platform));
    artifacts
}

/// What has to be below the wrapper directory before wrappers are built.
pub open spec fn required_files(platform: Platform) -> Seq<(Seq<char>, Seq<char>)> {
    seq![
        (""@, "clap_wrapper_builder directory"@),
        ("clap-wrapper/CMakeLists.txt"@, "clap-wrapper submodule"@),
        ("clap/include/clap/clap.h"@, "CLAP SDK submodule"@),
        ("vst3sdk/CMakeLists.txt"@, "VST3 SDK submodule"@),
    ] + (if platform is Macos {
        seq![("AudioUnitSDK/include/AudioUnitSDK/AudioUnitSDK.h"@, "AudioUnitSDK submodule"@)]
    } else {
        Seq::empty()
    })
}

/// What has to be below the wrapper directory before wrappers are built.
pub fn ensure_wrapper_inputs(platform: Platform) -> (files: Vec<(&'static str, &'static str)>)
    ensures
        crate::wrac_xtask::wrapper::input_files_of(files@) == required_files(platform),
{
    let mut files: Vec<(&'static str, &'static str)> = Vec::new();
    files.push(("", "clap_wrapper_builder directory"));
    files.push(("clap-wrapper/CMakeLists.txt", "clap-wrapper submodule"));
    files.push(("clap/include/clap/clap.h", "CLAP SDK submodule"));
    files.push(("vst3sdk/CMakeLists.txt", "VST3 SDK submodule"));
    if platform == Platform::Macos {
        files.push(("AudioUnitSDK/include/AudioUnitSDK/AudioUnitSDK.h", "AudioUnitSDK submodule"));
    }
    assert(crate::wrac_xtask::wrapper::input_files_of(files@) =~= required_files(platform));
    files
}

// Installing

/// Where hosts look for a format, for every user or for one, or why there is no such place.
pub open spec fn place_of(platform: Platform, system: bool, target: PluginTarget) -> Result<
    Place,
    Seq<char>,
> {
    match (platform, target) {
        (Platform::Macos, _) => {
            let folder = match target {
                PluginTarget::Clap => "CLAP"@,
                PluginTarget::Vst3 => "VST3"@,
                PluginTarget::Au => "Components"@,
            };
            if system {
                Ok(Place { base: InstallBase::Root, below: seq!["/Library/Audio/Plug-Ins"@, folder] })
            } else {
                Ok(Place { base: InstallBase::Home, below: seq!["Library/Audio/Plug-Ins"@, folder] })
            }
        },
        (Platform::Windows, PluginTarget::Au) => Err("AU is not supported on Windows"@),
        (Platform::Windows, _) => {
            let folder = if target is Clap {
                "CLAP"@
            } else {
                "VST3"@
            };
            if system {
                Ok(Place { base: InstallBase::CommonProgramFiles, below: seq![folder] })
            } else {
                Ok(
                    Place {
                        base: InstallBase::LocalAppData,
                        below: seq!["Programs"@, "Common"@, folder],
                    },
                )
            }
        },
        (Platform::Linux, PluginTarget::Clap) => if system {
            Ok(Place { base: InstallBase::Root, below: seq!["/usr/lib/clap"@] })
        } else {
            Ok(Place { base: InstallBase::Home, below: seq![".clap"@] })
        },
        (Platform::Linux, _) => Err("VST3/AU install is not supported on Linux"@),
    }
}

fn place(base: InstallBase, below: Vec<&'static str>) -> (location: InstallLocation)
    ensures
        location@ == (Place { base, below: Seq::new(below@.len(), |i: int| below@[i]@) }),
{
    InstallLocation { base, below }
}

/// Where a format is installed, or why it cannot be. Nothing said means for the user.
pub fn install_dir(platform: Platform, scope: InstallScope, target: PluginTarget) -> (result: Result<
    InstallLocation,
    &'static str,
>)
    ensures
        match place_of(platform, scope is System, target) {
            Ok(wanted) => result matches Ok(location) && location@ == wanted,
            Err(wanted) => result matches Err(message) && message@ == wanted,
        },
{
    let system = scope == InstallScope::System;
    let mut below: Vec<&'static str> = Vec::new();
    match (platform, target) {
        (Platform::Macos, _) => {
            let folder = match target {
                PluginTarget::Clap => "CLAP",
                PluginTarget::Vst3 => "VST3",
                PluginTarget::Au => "Components",
            };
            if system {
                below.push("/Library/Audio/Plug-Ins");
                below.push(folder);
                let location = place(InstallBase::Root, below);
                assert(location@.below =~= seq!["/Library/Audio/Plug-Ins"@, folder@]);
                Ok(location)
            } else {
                below.push("Library/Audio/Plug-Ins");
                below.push(folder);
                let location = place(InstallBase::Home, below);
                assert(location@.below =~= seq!["Library/Audio/Plug-Ins"@, folder@]);
                Ok(location)
            }
        },
        (Platform::Windows, PluginTarget::Au) => Err("AU is not supported on Windows"),
        (Platform::Windows, _) => {
            let folder = if target == PluginTarget::Clap {
                "CLAP"
            } else {
                "VST3"
            };
            if system {
                below.push(folder);
                let location = place(InstallBase::CommonProgramFiles, below);
                assert(location@.below =~= seq![folder@]);
                Ok(location)
            } else {
                below.push("Programs");
                below.push("Common");
                below.push(folder);
                let location = place(InstallBase::LocalAppData, below);
                assert(location@.below =~= seq!["Programs"@, "Common"@, folder@]);
                Ok(location)
            }
        },
        (Platform::Linux, PluginTarget::Clap) => {
            if system {
                below.push("/usr/lib/clap");
                let location = place(InstallBase::Root, below);
                assert(location@.below =~= seq!["/usr/lib/clap"@]);
                Ok(location)
            } else {
                below.push(".clap");
                let location = place(InstallBase::Home, below);
                assert(location@.below =~= seq![".clap"@]);
                Ok(location)
            }
        },
        (Platform::Linux, _) => Err("VST3/AU install is not supported on Linux"),
    }
}

/// For whom copies are removed: for the user and for everyone, unless one was asked for.
pub open spec fn scopes_of(scope: UninstallScope) -> Seq<InstallScope> {
    match scope {
        UninstallScope::All => seq![InstallScope::User, InstallScope::System],
        UninstallScope::User => seq![InstallScope::User],
        UninstallScope::System => seq![InstallScope::System],
    }
}

/// For whom copies are removed.
pub fn uninstall_scopes(scope: UninstallScope) -> (scopes: Vec<InstallScope>)
    ensures
        scopes@ == scopes_of(scope),
{
    let mut scopes: Vec<InstallScope> = Vec::new();
    if scope == UninstallScope::All || scope == UninstallScope::User {
        scopes.push(InstallScope::User);
    }
    if scope == UninstallScope::All || scope == UninstallScope::System {
        scopes.push(InstallScope::System);
    }
    assert(scopes@ =~= scopes_of(scope));
    scopes
}

/// Whatever is installed, for whomever, an uninstall that asks for nothing in particular looks
/// for it where it was installed.
pub proof fn uninstalling_covers_installing(
    platform: Platform,
    scope: InstallScope,
    target: PluginTarget,
)
    ensures
        exists|i: int|
            0 <= i < scopes_of(UninstallScope::All).len() && place_of(
                platform,
                (#[trigger] scopes_of(UninstallScope::All)[i]) is System,
                target,
            ) == place_of(platform, scope is System, target),
{
    let scopes = scopes_of(UninstallScope::All);
    assert(scopes[0] is User);
    assert(scopes[1] is System);
    assert(place_of(platform, scopes[0] is System, target) == place_of(platform, false, target));
    assert(place_of(platform, scopes[1] is System, target) == place_of(platform, true, target));
}

/// What becomes of an installed copy.
#[derive(Debug, Clone, Copy, PartialEq, Eq, Structural)]
pub enum UninstallAction {
    ReportMissing,
    ReportOnly,
    Remove,
}

/// How many copies were found and how many were not.
#[derive(Debug, Clone, Copy, PartialEq, Eq, Structural)]
pub struct UninstallCount {
    pub removed: u64,
    pub missing: u64,
}

impl UninstallCount {
    /// Nothing was looked for.
    pub fn new() -> (count: Self)
        ensures
            count.removed == 0,
            count.missing == 0,
    {
        UninstallCount { removed: 0, missing: 0 }
    }

    /// Takes note of a place that was looked at. In a dry run nothing is removed, and what would
    /// be is counted.
    pub fn look(&mut self, present: bool, dry_run: bool) -> (action: UninstallAction)
        requires
            old(self).removed < u64::MAX,
            old(self).missing < u64::MAX,
        ensures
            action == if !present {
                UninstallAction::ReportMissing
            } else if dry_run {
                UninstallAction::ReportOnly
            } else {
                UninstallAction::Remove
            },
            final(self).removed == old(self).removed + if present {
                1int
            } else {
                0
            },
            final(self).missing == old(self).missing + if present {
                0int
            } else {
                1
            },
    {
        if !present {
            self.missing = self.missing + 1;
            return UninstallAction::ReportMissing;
        }
        self.removed = self.removed + 1;
        if dry_run {
            UninstallAction::ReportOnly
        } else {
            UninstallAction::Remove
        }
    }

    /// What is said at the end.
    pub fn summary(&self, dry_run: bool) -> (line: String)
        ensures
            line@ == if dry_run {
                "Uninstall dry run complete: "@ + decimal(self.removed as nat)
                    + " would be removed, "@ + decimal(self.missing as nat) + " not found"@
            } else {
                "Uninstall complete: "@ + decimal(self.removed as nat) + " removed, "@ + decimal(
                    self.missing as nat,
                ) + " not found"@
            },
    {
        let removed = decimal_text(self.removed);
        let missing = decimal_text(self.missing);
        let mut line = if dry_run {
            join3("Uninstall dry run complete: ", removed.as_str(), " would be removed, ")
        } else {
            join3("Uninstall complete: ", removed.as_str(), " removed, ")
        };
        line.append(missing.as_str());
        line.append(" not found");
        line
    }
}

impl UninstallAction {
    /// What is said of a copy.
    pub fn line(self, path: &str) -> (line: String)
        ensures
            line@ == match self {
                UninstallAction::ReportMissing => "Not found: "@ + path@,
                UninstallAction::ReportOnly => "Would remove: "@ + path@,
                UninstallAction::Remove => "Removing: "@ + path@,
            },
    {
        match self {
            UninstallAction::ReportMissing => join2("Not found: ", path),
            UninstallAction::ReportOnly => join2("Would remove: ", path),
            UninstallAction::Remove => join2("Removing: ", path),
        }
    }
}

// Validating

/// The formats to validate, in the order in which they are: VST3 first.
pub open spec fn validation_order(targets: Seq<ValidateTarget>) -> Seq<ValidateTarget> {
    (if targets.contains(ValidateTarget::Vst3) {
        seq![ValidateTarget::Vst3]
    } else {
        Seq::empty()
    }) + (if targets.contains(ValidateTarget::Au) {
        seq![ValidateTarget::Au]
    } else {
        Seq::empty()
    })
}

fn contains_validation(targets: &[ValidateTarget], target: ValidateTarget) -> (found: bool)
    ensures
        found == targets@.contains(target),
{
    let mut i: usize = 0;
    while i < targets.len()
        invariant
            i <= targets@.len(),
            forall|j: int| 0 <= j < i ==> targets@[j] != target,
        decreases targets@.len() - i,
    {
        if targets[i] == target {
            assert(targets@[i as int] == target);
            return true;
        }
        i += 1;
    }
    false
}

/// The formats to validate, in the order in which they are.
pub fn validate_targets(targets: &[ValidateTarget]) -> (order: Vec<ValidateTarget>)
    ensures
        order@ == validation_order(targets@),
{
    let mut order: Vec<ValidateTarget> = Vec::new();
    if contains_validation(targets, ValidateTarget::Vst3) {
        order.push(ValidateTarget::Vst3);
    }
    if contains_validation(targets, ValidateTarget::Au) {
        order.push(ValidateTarget::Au);
    }
    assert(order@ =~= validation_order(targets@));
    order
}

/// The validations that there are for targets that were built, in order.
pub open spec fn built_validations(targets: Seq<Target>) -> Seq<ValidateTarget>
    decreases targets.len(),
{
    if targets.len() == 0 {
        Seq::empty()
    } else {
        let before = built_validations(targets.drop_last());
        match targets.last().validation() {
            Some(validation) => before.push(validation),
            None => before,
        }
    }
}

/// A format that was built is validated exactly where it can be.
pub proof fn what_was_built_is_validated(targets: Seq<Target>, validation: ValidateTarget)
    ensures
        validation_order(built_validations(targets)).contains(validation) <==> targets.contains(
            validation.as_target(),
        ),
{
    lemma_built_validations(targets, validation);
    let built = built_validations(targets);
    let order = validation_order(built);
    if built.contains(ValidateTarget::Vst3) {
        assert(order[0] == ValidateTarget::Vst3);
    }
    if built.contains(ValidateTarget::Au) {
        assert(order[order.len() - 1] == ValidateTarget::Au);
    }
}

proof fn lemma_built_validations(targets: Seq<Target>, validation: ValidateTarget)
    ensures
        built_validations(targets).contains(validation) <==> targets.contains(
            validation.as_target(),
        ),
    decreases targets.len(),
{
    if targets.len() > 0 {
        let rest = targets.drop_last();
        let before = built_validations(rest);
        let after = built_validations(targets);
        lemma_built_validations(rest, validation);
        assert(rest.push(targets.last()) =~= targets);
        if after.contains(validation) {
            let i = choose|i: int| 0 <= i < after.len() && after[i] == validation;
            if i < before.len() {
                assert(before[i] == validation);
                let j = choose|j: int| 0 <= j < rest.len() && rest[j] == validation.as_target();
                assert(targets[j] == validation.as_target());
            } else {
                assert(targets[targets.len() - 1] == validation.as_target());
            }
        }
        if targets.contains(validation.as_target()) {
            let j = choose|j: int| 0 <= j < targets.len() && targets[j] == validation.as_target();
            if j < rest.len() {
                assert(rest[j] == validation.as_target());
                let i = choose|i: int| 0 <= i < before.len() && before[i] == validation;
                assert(after[i] == validation);
            } else {
                assert(after[before.len() as int] == validation);
            }
        }
    }
}

/// The formats to validate once targets were built, in the order in which they are.
pub fn validate_built_targets(targets: &[Target]) -> (order: Vec<ValidateTarget>)
    ensures
        order@ == validation_order(built_validations(targets@)),
{
    let mut validations: Vec<ValidateTarget> = Vec::new();
    let mut i: usize = 0;
    while i < targets.len()
        invariant
            i <= targets@.len(),
            validations@ == built_validations(targets@.take(i as int)),
        decreases targets@.len() - i,
    {
        proof {
            assert(targets@.take(i + 1).drop_last() =~= targets@.take(i as int));
            assert(targets@.take(i + 1).last() == targets@[i as int]);
        }
        if let Some(validation) = targets[i].validate_target() {
            validations.push(validation);
        }
        i += 1;
    }
    assert(targets@.take(i as int) =~= targets@);
    validate_targets(validations.as_slice())
}

/// The arguments by which CMake is configured for the VST3 validator.
pub fn vst3_validator_configure_args(platform: Platform, sdk_dir: &str, build_dir: &str) -> (args:
    Vec<String>)
    ensures
        texts(args@) == seq![
            "-S"@,
            sdk_dir@,
            "-B"@,
            build_dir@,
            "-DSMTG_ENABLE_VST3_HOSTING_EXAMPLES=ON"@,
            "-DSMTG_ENABLE_VST3_PLUGIN_EXAMPLES=OFF"@,
            "-DSMTG_ENABLE_VSTGUI_SUPPORT=OFF"@,
        ] + (if platform is Macos {
            seq!["-G"@, "Xcode"@]
        } else {
            Seq::empty()
        }),
{
    let mut args: Vec<String> = Vec::new();
    args.push("-S".to_owned());
    args.push(sdk_dir.to_owned());
    args.push("-B".to_owned());
    args.push(build_dir.to_owned());
    args.push("-DSMTG_ENABLE_VST3_HOSTING_EXAMPLES=ON".to_owned());
    args.push("-DSMTG_ENABLE_VST3_PLUGIN_EXAMPLES=OFF".to_owned());
    args.push("-DSMTG_ENABLE_VSTGUI_SUPPORT=OFF".to_owned());
    let ghost common = texts(args@);
    assert(common =~= seq![
        "-S"@,
        sdk_dir@,
        "-B"@,
        build_dir@,
        "-DSMTG_ENABLE_VST3_HOSTING_EXAMPLES=ON"@,
        "-DSMTG_ENABLE_VST3_PLUGIN_EXAMPLES=OFF"@,
        "-DSMTG_ENABLE_VSTGUI_SUPPORT=OFF"@,
    ]);
    if platform == Platform::Macos {
        args.push("-G".to_owned());
        args.push("Xcode".to_owned());
    }
    assert(texts(args@) =~= common + (if platform is Macos {
        seq!["-G"@, "Xcode"@]
    } else {
        Seq::empty()
    }));
    args
}

/// The arguments by which CMake makes the VST3 validator. It is a tool, so one build serves
/// every profile.
pub fn vst3_validator_build_args(build_dir: &str) -> (args: Vec<String>)
    ensures
        texts(args@) == seq![
            "--build"@,
            build_dir@,
            "--target"@,
            "validator"@,
            "--config"@,
            "Debug"@,
        ],
{
    let mut args: Vec<String> = Vec::new();
    args.push("--build".to_owned());
    args.push(build_dir.to_owned());
    args.push("--target".to_owned());
    args.push("validator".to_owned());
    args.push("--config".to_owned());
    args.push("Debug".to_owned());
    assert(texts(args@) =~= seq![
        "--build"@,
        build_dir@,
        "--target"@,
        "validator"@,
        "--config"@,
        "Debug"@,
    ]);
    args
}

proof fn lemma_installable(targets: Seq<Target>, plugin: PluginTarget)
    ensures
        installable(targets).contains(plugin) <==> targets.contains(plugin.as_target()),
        installable(targets).len() <= targets.len(),
    decreases targets.len(),
{
    if targets.len() > 0 {
        let rest = targets.drop_last();
        let before = installable(rest);
        let after = installable(targets);
        lemma_installable(rest, plugin);
        assert(rest.push(targets.last()) =~= targets);
        if after.contains(plugin) {
            let i = after.index_of(plugin);
            if i < before.len() {
                assert(before[i] == plugin);
                let j = rest.index_of(plugin.as_target());
                assert(targets[j] == plugin.as_target());
            } else {
                assert(targets[targets.len() - 1] == plugin.as_target());
            }
        }
        if targets.contains(plugin.as_target()) {
            let j = targets.index_of(plugin.as_target());
            if j < rest.len() {
                assert(rest[j] == plugin.as_target());
                let i = before.index_of(plugin);
                assert(after[i] == plugin);
            } else {
                assert(after[before.len() as int] == plugin);
            }
        }
    }
}

/// A plugin is installed exactly where its target was built, and a standalone application never
/// is.
pub proof fn built_plugins_are_installed(
    targets: &[Target],
    plugins: Vec<PluginTarget>,
    plugin: PluginTarget,
)
    requires
        call_ensures(installable_targets, (targets,), plugins),
    ensures
        plugins@.contains(plugin) <==> targets@.contains(plugin.as_target()),
        plugins@.len() <= targets@.len(),
{
    lemma_installable(targets@, plugin);
}

/// A build cleans first where it is asked to, and installs what it has made where it is asked to.
pub proof fn builds_clean_first_and_install_late(
    clean: bool,
    install: bool,
    validate: bool,
    targets: &[Target],
    steps: Vec<BuildStep>,
    i: int,
)
    requires
        call_ensures(build, (clean, install, validate, targets), steps),
        0 <= i < steps@.len(),
    ensures
        steps@[i] is Clean <==> clean && i == 0,
        steps@[i] is Install <==> install && i == steps@.len() - if validate {
            3int
        } else {
            2
        },
        steps@[i] is PrintOutputs <==> i == steps@.len() - 1,
{
    let made = making_steps(clean, targets@);
    let installed = made + step_if(install, BuildStep::Install);
    let validated = installed + step_if(validate, BuildStep::Validate);
    assert(steps@ == validated + seq![BuildStep::PrintOutputs]);
    if i < made.len() {
        lemma_making_steps(clean, targets@, i);
        assert(steps@[i] == made[i]);
    } else if i < installed.len() {
        assert(steps@[i] == installed[i]);
    } else if i < validated.len() {
        assert(steps@[i] == validated[i]);
    }
    lemma_making_steps(clean, targets@, 0);
}

/// The steps of a build up to what it makes.
spec fn making_steps(clean: bool, targets: Seq<Target>) -> Seq<BuildStep> {
    let vst3 = targets.contains(Target::Vst3);
    let au = targets.contains(Target::Au);
    step_if(clean, BuildStep::Clean) + seq![BuildStep::BuildGui, BuildStep::BuildRustPlugin]
        + step_if(targets.contains(Target::Clap), BuildStep::PackageClap) + step_if(
        vst3 || au,
        BuildStep::BuildPluginWrappers { vst3, au },
    ) + step_if(targets.contains(Target::Standalone), BuildStep::BuildStandalone)
}

proof fn lemma_making_steps(clean: bool, targets: Seq<Target>, i: int)
    requires
        0 <= i < making_steps(clean, targets).len(),
    ensures
        ({
            let step = making_steps(clean, targets)[i];
            &&& step is Clean <==> clean && i == 0
            &&& !(step is Install) && !(step is Validate) && !(step is PrintOutputs)
        }),
{
}

/// Cargo builds the package of the manifest into the target directory, and as a release exactly
/// where one is asked for.
pub proof fn cargo_is_told_what_to_build(
    target_dir: &str,
    manifest: &str,
    profile: BuildProfile,
    args: Vec<String>,
)
    requires
        call_ensures(cargo_args, (target_dir, manifest, profile), args),
    ensures
        args@[0]@ == "build"@,
        args@[1]@ == "--target-dir"@ && args@[2]@ == target_dir@,
        args@[3]@ == "--manifest-path"@ && args@[4]@ == manifest@,
        profile is Debug ==> args@.len() == 5,
        profile is Release ==> args@.len() == 6 && args@[5]@ == "--release"@,
{
    assert(texts(args@).len() == args@.len());
    assert(texts(args@)[0] == args@[0]@);
    assert(texts(args@)[1] == args@[1]@);
    assert(texts(args@)[2] == args@[2]@);
    assert(texts(args@)[3] == args@[3]@);
    assert(texts(args@)[4] == args@[4]@);
    if profile is Release {
        assert(texts(args@)[5] == args@[5]@);
    }
}

/// A bundle is signed where it lies and with no identity, its library is loaded from beside the
/// plugin, and each artifact is shown with its format and its place.
pub proof fn artifacts_are_signed_and_shown(
    name: &str,
    path: &str,
    signing: Vec<String>,
    naming: Vec<String>,
    target: Target,
    line: String,
)
    requires
        call_ensures(codesign_args, (path,), signing),
        call_ensures(install_name_args, (name, path), naming),
        call_ensures(output_line, (target, path), line),
    ensures
        signing@.len() == 5,
        signing@[0]@ == "--force"@ && signing@[1]@ == "--sign"@ && signing@[2]@ == "-"@,
        signing@[3]@ == "--timestamp=none"@ && signing@[4]@ == path@,
        naming@.len() == 3,
        naming@[0]@ == "-id"@ && naming@[1]@ == "@loader_path/"@ + name@ && naming@[2]@ == path@,
        target is Clap ==> line@ == "CLAP"@ + ": "@ + path@,
        target is Vst3 ==> line@ == "VST3"@ + ": "@ + path@,
        target is Au ==> line@ == "AU"@ + ": "@ + path@,
        target is Standalone ==> line@ == "Standalone"@ + ": "@ + path@,
{
    assert(texts(signing@).len() == signing@.len());
    assert(texts(signing@)[0] == signing@[0]@);
    assert(texts(signing@)[1] == signing@[1]@);
    assert(texts(signing@)[2] == signing@[2]@);
    assert(texts(signing@)[3] == signing@[3]@);
    assert(texts(signing@)[4] == signing@[4]@);
    assert(texts(naming@).len() == naming@.len());
    assert(texts(naming@)[0] == naming@[0]@);
    assert(texts(naming@)[1] == naming@[1]@);
    assert(texts(naming@)[2] == naming@[2]@);
}

/// Every wrapper build is told where it works, what it wraps, and what to name it; which formats it
/// makes is switched on and off by itself, and only the standalone build may fetch what it needs.
pub proof fn wrapper_builds_are_told_what_to_make(
    build: WrapperBuild,
    set: WrapperSet,
    args: Vec<String>,
)
    requires
        call_ensures(configure_wrapper_set, (build, &set), args),
    ensures
        args@.len() >= 15,
        args@[0]@ == "-S"@ && args@[1]@ == set.wrapper_dir@,
        args@[2]@ == "-B"@ && args@[3]@ == set.build_dir@,
        args@[4]@ == "-DCLAP_WRAPPER_BUILDER_TARGET_LIB="@ + set.static_library@,
        args@[5]@ == "-DCLAP_WRAPPER_BUILDER_OUTPUT_NAME="@ + set.plugin_name@,
        build is Plugin ==> args@[6]@ == "-DCLAP_WRAPPER_BUILDER_TARGET_NAME="@ + (set.package@ + "_"@
            + "wrap"@),
        build is Standalone ==> args@[6]@ == "-DCLAP_WRAPPER_BUILDER_TARGET_NAME="@ + (set.package@
            + "_"@ + "standalone"@),
        args@[7]@ == "-DCLAP_WRAPPER_BUILDER_STAGE_DIR="@ + set.stage_dir@,
        set.profile is Debug ==> args@[8]@ == "-DCMAKE_BUILD_TYPE="@ + "Debug"@,
        set.profile is Release ==> args@[8]@ == "-DCMAKE_BUILD_TYPE="@ + "Release"@,
        args@[9]@ == "-DCLAP_WRAPPER_BUILDER_BUILD_AAX=OFF"@,
        args@[10]@ == "-DCLAP_WRAPPER_DOWNLOAD_DEPENDENCIES=OFF"@,
        args@[11]@ == "-DCLAP_WRAPPER_CXX_STANDARD=23"@,
        build matches WrapperBuild::Plugin { vst3, au } ==> {
            &&& vst3 ==> args@[12]@ == "-DCLAP_WRAPPER_BUILDER_BUILD_VST3="@ + "ON"@
            &&& !vst3 ==> args@[12]@ == "-DCLAP_WRAPPER_BUILDER_BUILD_VST3="@ + "OFF"@
            &&& au ==> args@[13]@ == "-DCLAP_WRAPPER_BUILDER_BUILD_AUV2="@ + "ON"@
            &&& !au ==> args@[13]@ == "-DCLAP_WRAPPER_BUILDER_BUILD_AUV2="@ + "OFF"@
            &&& args@[14]@ == "-DCLAP_WRAPPER_BUILDER_BUILD_STANDALONE=OFF"@
        },
        build is Standalone ==> {
            &&& args@.len() >= 18
            &&& args@[12]@ == "-DCLAP_WRAPPER_BUILDER_BUILD_VST3=OFF"@
            &&& args@[13]@ == "-DCLAP_WRAPPER_BUILDER_BUILD_AUV2=OFF"@
            &&& args@[14]@ == "-DCLAP_WRAPPER_BUILDER_BUILD_STANDALONE=ON"@
            &&& args@[15]@ == "-DCLAP_WRAPPER_BUILDER_STANDALONE_PLUGIN_ID="@ + set.plugin_id@
            &&& args@[16]@ == "-DCLAP_WRAPPER_BUILDER_STANDALONE_OUTPUT_NAME="@
                + set.standalone_name@
            &&& args@[17]@ == "-DCLAP_WRAPPER_DOWNLOAD_DEPENDENCIES=ON"@
        },
{
    assert(texts(args@).len() == args@.len());
    assert(texts(args@)[0] == args@[0]@);
    assert(texts(args@)[1] == args@[1]@);
    assert(texts(args@)[2] == args@[2]@);
    assert(texts(args@)[3] == args@[3]@);
    assert(texts(args@)[4] == args@[4]@);
    assert(texts(args@)[5] == args@[5]@);
    assert(texts(args@)[6] == args@[6]@);
    assert(texts(args@)[7] == args@[7]@);
    assert(texts(args@)[8] == args@[8]@);
    assert(texts(args@)[9] == args@[9]@);
    assert(texts(args@)[10] == args@[10]@);
    assert(texts(args@)[11] == args@[11]@);
    assert(texts(args@)[12] == args@[12]@);
    assert(texts(args@)[13] == args@[13]@);
    assert(texts(args@)[14] == args@[14]@);
    if build is Standalone {
        assert(texts(args@)[15] == args@[15]@);
        assert(texts(args@)[16] == args@[16]@);
        assert(texts(args@)[17] == args@[17]@);
    }
}

/// On macOS a wrapper build is told what the Audio Unit is: the SDK, the kind, and the name and the
/// codes of its manufacturer and of itself. The generator follows where the system has one.
pub proof fn wrapper_builds_on_macos_know_the_audio_unit(
    build: WrapperBuild,
    set: WrapperSet,
    args: Vec<String>,
)
    requires
        call_ensures(configure_wrapper_set, (build, &set), args),
    ensures
        ({
            let at: int = if build is Standalone {
                18
            } else {
                15
            };
            &&& set.platform is Macos ==> {
                &&& args@.len() == at + 7
                &&& args@[at]@ == "-DAUDIOUNIT_SDK_ROOT="@ + set.audio_unit_sdk@
                &&& args@[at + 1]@ == "-DCLAP_WRAPPER_AUV2_INSTRUMENT_TYPE=aufx"@
                &&& args@[at + 2]@ == "-DCLAP_WRAPPER_AUV2_MANUFACTURER_NAME="@ + set.company_name@
                &&& args@[at + 3]@ == "-DCLAP_WRAPPER_AUV2_MANUFACTURER_CODE="@
                    + set.auv2_manufacturer_code@
                &&& args@[at + 4]@ == "-DCLAP_WRAPPER_AUV2_SUBTYPE_CODE="@ + set.auv2_subtype@
                &&& args@[at + 5]@ == "-G"@
                &&& args@[at + 6]@ == "Xcode"@
            }
            &&& set.platform is Windows ==> args@.len() == at + 2 && args@[at]@ == "-G"@ && args@[at
                + 1]@ == "Visual Studio 17 2022"@
            &&& set.platform is Linux ==> args@.len() == at
        }),
{
    let at: int = if build is Standalone {
        18
    } else {
        15
    };
    assert(texts(args@).len() == args@.len());
    if set.platform is Macos {
        assert(texts(args@)[at] == args@[at]@);
        assert(texts(args@)[at + 1] == args@[at + 1]@);
        assert(texts(args@)[at + 2] == args@[at + 2]@);
        assert(texts(args@)[at + 3] == args@[at + 3]@);
        assert(texts(args@)[at + 4] == args@[at + 4]@);
        assert(texts(args@)[at + 5] == args@[at + 5]@);
        assert(texts(args@)[at + 6] == args@[at + 6]@);
    } else if set.platform is Windows {
        assert(texts(args@)[at] == args@[at]@);
        assert(texts(args@)[at + 1] == args@[at + 1]@);
    }
}

/// CMake makes what it was configured for, in its directory and in the profile of the build.
pub proof fn wrappers_are_made_where_they_were_configured(set: WrapperSet, args: Vec<String>)
    requires
        call_ensures(build_wrapper_set, (&set,), args),
    ensures
        args@[0]@ == "--build"@ && args@[1]@ == set.build_dir@ && args@[2]@ == "--config"@,
        set.profile is Debug ==> args@[3]@ == "Debug"@,
        set.profile is Release ==> args@[3]@ == "Release"@,
        set.platform is Macos ==> args@.len() == 6 && args@[4]@ == "--"@ && args@[5]@ == XCODE_FLAGS@,
        !(set.platform is Macos) ==> args@.len() == 4,
{
    assert(texts(args@).len() == args@.len());
    assert(texts(args@)[0] == args@[0]@);
    assert(texts(args@)[1] == args@[1]@);
    assert(texts(args@)[2] == args@[2]@);
    assert(texts(args@)[3] == args@[3]@);
    if set.platform is Macos {
        assert(texts(args@)[4] == args@[4]@);
        assert(texts(args@)[5] == args@[5]@);
    }
}

/// A build has to leave what it was to make and nothing else; an Audio Unit is always signed, and
/// anything else on macOS.
pub proof fn builds_leave_what_they_were_to_make(
    build: WrapperBuild,
    platform: Platform,
    artifacts: Vec<BuiltArtifact>,
    i: int,
)
    requires
        call_ensures(artifacts_of_build, (build, platform), artifacts),
    ensures
        build is Standalone ==> artifacts@.len() == 1 && artifacts@[0].target is Standalone,
        build matches WrapperBuild::Plugin { vst3, au } ==> {
            &&& (exists|k: int| 0 <= k < artifacts@.len() && (#[trigger] artifacts@[k]).target is Vst3)
                <==> vst3
            &&& (exists|k: int| 0 <= k < artifacts@.len() && (#[trigger] artifacts@[k]).target is Au)
                <==> au
            &&& forall|k: int|
                0 <= k < artifacts@.len() ==> (#[trigger] artifacts@[k]).target.is_wrapped()
        },
        0 <= i < artifacts@.len() ==> artifacts@[i].sign == (platform is Macos || artifacts@[i].target
            is Au),
{
    if let WrapperBuild::Plugin { vst3, au } = build {
        if vst3 {
            assert(artifacts@[0].target is Vst3);
        }
        if au {
            assert(artifacts@[artifacts@.len() - 1].target is Au);
        }
    }
}

/// Wrappers need the wrapper itself and the SDKs of CLAP and VST3, and on macOS that of Audio
/// Units.
pub proof fn wrappers_need_their_sdks(platform: Platform, files: Vec<(&'static str, &'static str)>)
    requires
        call_ensures(ensure_wrapper_inputs, (platform,), files),
    ensures
        files@[0].0@ == ""@ && files@[0].1@ == "clap_wrapper_builder directory"@,
        files@[1].0@ == "clap-wrapper/CMakeLists.txt"@ && files@[1].1@ == "clap-wrapper submodule"@,
        files@[2].0@ == "clap/include/clap/clap.h"@ && files@[2].1@ == "CLAP SDK submodule"@,
        files@[3].0@ == "vst3sdk/CMakeLists.txt"@ && files@[3].1@ == "VST3 SDK submodule"@,
        platform is Macos ==> files@.len() == 5 && files@[4].0@
            == "AudioUnitSDK/include/AudioUnitSDK/AudioUnitSDK.h"@ && files@[4].1@
            == "AudioUnitSDK submodule"@,
        !(platform is Macos) ==> files@.len() == 4,
{
    let shown = crate::wrac_xtask::wrapper::input_files_of(files@);
    assert(shown.len() == files@.len());
    assert(shown[0] == (files@[0].0@, files@[0].1@));
    assert(shown[1] == (files@[1].0@, files@[1].1@));
    assert(shown[2] == (files@[2].0@, files@[2].1@));
    assert(shown[3] == (files@[3].0@, files@[3].1@));
    if platform is Macos {
        assert(shown[4] == (files@[4].0@, files@[4].1@));
    }
}

/// A user finds each format where the hosts of the system look for it: in a folder of the format,
/// below the user's own directories.
pub proof fn users_find_formats_where_hosts_look(
    platform: Platform,
    scope: InstallScope,
    target: PluginTarget,
    result: Result<InstallLocation, &'static str>,
)
    requires
        call_ensures(install_dir, (platform, scope, target), result),
        !(scope is System),
    ensures
        platform is Macos ==> (result matches Ok(location) && location@.base is Home
            && location@.below.len() == 2 && location@.below[0] == "Library/Audio/Plug-Ins"@ && (
        target is Clap ==> location@.below[1] == "CLAP"@) && (target is Vst3 ==> location@.below[1]
            == "VST3"@) && (target is Au ==> location@.below[1] == "Components"@)),
        platform is Windows && !(target is Au) ==> (result matches Ok(location) && location@.base
            is LocalAppData && location@.below.len() == 3 && location@.below[0] == "Programs"@
            && location@.below[1] == "Common"@ && (target is Clap ==> location@.below[2] == "CLAP"@)
            && (target is Vst3 ==> location@.below[2] == "VST3"@)),
        platform is Linux && target is Clap ==> (result matches Ok(location) && location@.base is Home
            && location@.below == seq![".clap"@]),
        result is Err <==> (platform is Windows && target is Au) || (platform is Linux && !(target
            is Clap)),
        platform is Windows && target is Au ==> result->Err_0@ == "AU is not supported on Windows"@,
        platform is Linux && !(target is Clap) ==> result->Err_0@
            == "VST3/AU install is not supported on Linux"@,
{
}

/// For everyone, a format is installed where every host of the system looks for it, and never where
/// a user's own copy is.
pub proof fn systems_hold_formats_where_hosts_look(
    platform: Platform,
    target: PluginTarget,
    user: Result<InstallLocation, &'static str>,
    system: Result<InstallLocation, &'static str>,
)
    requires
        call_ensures(install_dir, (platform, InstallScope::User, target), user),
        call_ensures(install_dir, (platform, InstallScope::System, target), system),
    ensures
        system is Ok <==> user is Ok,
        system matches Ok(location) ==> location@ != user->Ok_0@,
        platform is Macos ==> (system matches Ok(location) && location@.base is Root
            && location@.below.len() == 2 && location@.below[0] == "/Library/Audio/Plug-Ins"@
            && location@.below[1] == user->Ok_0@.below[1]),
        platform is Windows && !(target is Au) ==> (system matches Ok(location) && location@.base
            is CommonProgramFiles && location@.below.len() == 1 && location@.below[0]
            == user->Ok_0@.below[2]),
        platform is Linux && target is Clap ==> (system matches Ok(location) && location@.base is Root
            && location@.below == seq!["/usr/lib/clap"@]),
{
}

/// No two formats are installed in the same place.
pub proof fn formats_are_installed_apart(
    platform: Platform,
    scope: InstallScope,
    target: PluginTarget,
    other: PluginTarget,
    first: Result<InstallLocation, &'static str>,
    second: Result<InstallLocation, &'static str>,
)
    requires
        call_ensures(install_dir, (platform, scope, target), first),
        call_ensures(install_dir, (platform, scope, other), second),
        target != other,
        first is Ok,
        second is Ok,
    ensures
        first->Ok_0@ != second->Ok_0@,
{
    reveal_strlit("CLAP");
    reveal_strlit("VST3");
    reveal_strlit("Components");
    assert("CLAP"@[0] != "VST3"@[0]);
    assert("CLAP"@.len() == 4 && "VST3"@.len() == 4 && "Components"@.len() == 10);
    let a = first->Ok_0@.below;
    let b = second->Ok_0@.below;
    if !(platform is Linux) {
        assert(a[a.len() - 1] != b[b.len() - 1]);
    }
}

/// An uninstall covers whom it is asked to cover, and everyone where it is asked for all.
pub proof fn uninstalls_cover_what_they_are_asked_for(
    scope: UninstallScope,
    scopes: Vec<InstallScope>,
)
    requires
        call_ensures(uninstall_scopes, (scope,), scopes),
    ensures
        scopes@.contains(InstallScope::User) <==> !(scope is System),
        scopes@.contains(InstallScope::System) <==> !(scope is User),
        !scopes@.contains(InstallScope::Default),
        scopes@.no_duplicates(),
{
    if scope is All {
        assert(scopes@[0] is User && scopes@[1] is System);
    } else {
        assert(scopes@[0] is User || scopes@[0] is System);
    }
}

/// A copy that is there is removed, but for a dry run, and counted as removed either way; one that
/// is not there is counted as missing. Each is spoken of by what became of it.
pub proof fn copies_are_counted_as_they_are_found(
    fresh: UninstallCount,
    count: &mut UninstallCount,
    present: bool,
    dry_run: bool,
    action: UninstallAction,
    path: &str,
    line: String,
    summary: String,
)
    requires
        call_ensures(UninstallCount::new, (), fresh),
        call_ensures(UninstallCount::look, (count, present, dry_run), action),
        call_ensures(UninstallAction::line, (action, path), line),
        call_ensures(UninstallCount::summary, (final(count), dry_run), summary),
    ensures
        fresh.removed == 0 && fresh.missing == 0,
        final(count).removed + final(count).missing == old(count).removed + old(count).missing + 1,
        present <==> final(count).removed == old(count).removed + 1,
        action is Remove <==> present && !dry_run,
        !present ==> line@ == "Not found: "@ + path@,
        present && dry_run ==> line@ == "Would remove: "@ + path@,
        present && !dry_run ==> line@ == "Removing: "@ + path@,
        dry_run ==> summary@ == "Uninstall dry run complete: "@ + decimal(
            final(count).removed as nat,
        ) + " would be removed, "@ + decimal(final(count).missing as nat) + " not found"@,
        !dry_run ==> summary@ == "Uninstall complete: "@ + decimal(final(count).removed as nat)
            + " removed, "@ + decimal(final(count).missing as nat) + " not found"@,
{
}

/// What is to be validated is validated once each, VST3 before Audio Units, whatever the order in
/// which it was asked for.
pub proof fn validations_come_in_one_order(
    targets: &[ValidateTarget],
    order: Vec<ValidateTarget>,
    target: ValidateTarget,
)
    requires
        call_ensures(validate_targets, (targets,), order),
    ensures
        order@.contains(target) <==> targets@.contains(target),
        order@.no_duplicates(),
        order@.len() == 2 ==> order@[0] is Vst3 && order@[1] is Au,
{
    if targets@.contains(ValidateTarget::Vst3) {
        assert(order@[0] == ValidateTarget::Vst3);
    }
    if targets@.contains(ValidateTarget::Au) {
        assert(order@[order@.len() - 1] == ValidateTarget::Au);
    }
}

/// The VST3 validator is configured from its SDK into its directory, without the examples that it
/// does not need, and built there as the tool that it is.
pub proof fn the_vst3_validator_is_built_from_its_sdk(
    platform: Platform,
    sdk_dir: &str,
    build_dir: &str,
    configure: Vec<String>,
    make: Vec<String>,
)
    requires
        call_ensures(vst3_validator_configure_args, (platform, sdk_dir, build_dir), configure),
        call_ensures(vst3_validator_build_args, (build_dir,), make),
    ensures
        configure@[0]@ == "-S"@ && configure@[1]@ == sdk_dir@,
        configure@[2]@ == "-B"@ && configure@[3]@ == build_dir@,
        configure@[4]@ == "-DSMTG_ENABLE_VST3_HOSTING_EXAMPLES=ON"@,
        configure@[5]@ == "-DSMTG_ENABLE_VST3_PLUGIN_EXAMPLES=OFF"@,
        configure@[6]@ == "-DSMTG_ENABLE_VSTGUI_SUPPORT=OFF"@,
        platform is Macos ==> configure@.len() == 9 && configure@[7]@ == "-G"@ && configure@[8]@
            == "Xcode"@,
        !(platform is Macos) ==> configure@.len() == 7,
        make@.len() == 6,
        make@[0]@ == "--build"@ && make@[1]@ == build_dir@,
        make@[2]@ == "--target"@ && make@[3]@ == "validator"@,
        make@[4]@ == "--config"@ && make@[5]@ == "Debug"@,
{
    assert(texts(configure@).len() == configure@.len());
    assert(texts(configure@)[0] == configure@[0]@);
    assert(texts(configure@)[1] == configure@[1]@);
    assert(texts(configure@)[2] == configure@[2]@);
    assert(texts(configure@)[3] == configure@[3]@);
    assert(texts(configure@)[4] == configure@[4]@);
    assert(texts(configure@)[5] == configure@[5]@);
    assert(texts(configure@)[6] == configure@[6]@);
    assert(texts(make@).len() == make@.len());
    assert(texts(make@)[0] == make@[0]@);
    assert(texts(make@)[1] == make@[1]@);
    assert(texts(make@)[2] == make@[2]@);
    assert(texts(make@)[3] == make@[3]@);
    assert(texts(make@)[4] == make@[4]@);
    assert(texts(make@)[5] == make@[5]@);
    if platform is Macos {
        assert(texts(configure@)[7] == configure@[7]@);
        assert(texts(configure@)[8] == configure@[8]@);
    }
}

/// The bundle tells of the plugin by its name and its id, in the first version and without a
/// copyright.
pub proof fn bundles_tell_of_the_plugin(
    plugin_name: &str,
    plugin_id: &str,
    version: &str,
    copyright: &str,
    plist: String,
    expected: String,
)
    requires
        version@ == "1.0.0"@,
        copyright@ == ""@,
        call_ensures(macos_clap_info_plist, (plugin_name, plugin_id), plist),
        call_ensures(write_plist, (plugin_name, plugin_id, version, copyright), expected),
    ensures
        plist@ == expected@,
{
}

/// What was built and can be validated is validated, each format once and VST3 first.
pub proof fn built_formats_are_validated(
    targets: &[Target],
    order: Vec<ValidateTarget>,
    build: WrapperBuild,
    purpose: &str,
)
    requires
        call_ensures(validate_built_targets, (targets,), order),
        call_ensures(WrapperBuild::purpose, (build,), purpose),
    ensures
        order@.contains(ValidateTarget::Vst3) <==> targets@.contains(Target::Vst3),
        order@.contains(ValidateTarget::Au) <==> targets@.contains(Target::Au),
        order@.no_duplicates(),
        build is Standalone ==> purpose@ == "standalone"@,
        build is Plugin ==> purpose@ == "wrap"@,
{
    what_was_built_is_validated(targets@, ValidateTarget::Vst3);
    what_was_built_is_validated(targets@, ValidateTarget::Au);
}

} // verus!

//! The builds that wrap a plugin into other formats.

use vstd::prelude::*;

use crate::text::{
    decimal, decimal_text, decimals_tell_numbers_apart, is_digit, join, join2, join3, joined,
    same_text, texts,
};
use crate::wrac_xtask::metadata::{PluginMetadata, PluginProductMetadata};
use crate::wrac_xtask::package::auval_args;
use crate::wrac_xtask::targets::{BuildProfile, Platform};

verus! {

/// A build of wrappers. AAX stands apart, since only it needs the AAX SDK.
#[derive(Debug, Clone, Copy, PartialEq, Eq, Structural)]
pub enum WrapperBuild {
    Plugins { vst3: bool, au: bool },
    Aax,
    Standalone,
}

/// A format that a wrapper build makes.
#[derive(Debug, Clone, Copy, PartialEq, Eq, Structural)]
pub enum WrapperTarget {
    Vst3,
    Au,
    Aax,
    Standalone,
}

/// A build of the Rust library.
#[derive(Debug, Clone, Copy, PartialEq, Eq, Structural)]
pub enum RustPluginBuild {
    Default,
    Standalone,
}

impl RustPluginBuild {
    /// The name of the build.
    pub fn label(self) -> (label: &'static str)
        ensures
            label@ == match self {
                RustPluginBuild::Default => "default"@,
                RustPluginBuild::Standalone => "standalone"@,
            },
    {
        match self {
            RustPluginBuild::Default => "default",
            RustPluginBuild::Standalone => "standalone",
        }
    }
}

/// What a wrapper build works on. Paths are as the system shows them.
#[derive(Debug)]
pub struct WrapperInputs {
    pub metadata: PluginMetadata,
    pub platform: Platform,
    pub profile: BuildProfile,
    pub wrapper_dir: String,
    pub build_dir: String,
    pub stage_dir: String,
    pub static_library: String,
    pub aax_sdk_root: String,
    pub audio_unit_sdk_root: String,
    pub deployment_target: String,
}

impl WrapperBuild {
    /// The name of the build, as directories carry it.
    pub open spec fn purpose_text(self) -> Seq<char> {
        match self {
            WrapperBuild::Plugins { .. } => "wrap-plugins"@,
            WrapperBuild::Aax => "wrap-aax"@,
            WrapperBuild::Standalone => "standalone"@,
        }
    }

    /// The name of the build, as CMake targets carry it.
    pub open spec fn target_suffix(self) -> Seq<char> {
        match self {
            WrapperBuild::Plugins { .. } => "wrap_plugins"@,
            WrapperBuild::Aax => "wrap_aax"@,
            WrapperBuild::Standalone => "standalone"@,
        }
    }

    /// What the names of the CMake targets begin with.
    pub open spec fn target_base(self, metadata: PluginMetadata) -> Seq<char> {
        metadata.package_name@ + "_"@ + self.target_suffix()
    }

    /// The name of the build, as directories carry it.
    pub fn purpose(self) -> (purpose: &'static str)
        ensures
            purpose@ == self.purpose_text(),
    {
        match self {
            WrapperBuild::Plugins { .. } => "wrap-plugins",
            WrapperBuild::Aax => "wrap-aax",
            WrapperBuild::Standalone => "standalone",
        }
    }

    /// What the names of the CMake targets begin with.
    pub fn target_name_base(self, metadata: &PluginMetadata) -> (base: String)
        ensures
            base@ == self.target_base(*metadata),
    {
        let suffix = match self {
            WrapperBuild::Plugins { .. } => "wrap_plugins",
            WrapperBuild::Aax => "wrap_aax",
            WrapperBuild::Standalone => "standalone",
        };
        join3(metadata.package_name.as_str(), "_", suffix)
    }

    /// The build of the Rust library that the wrappers link.
    pub fn rust_build(self) -> (build: RustPluginBuild)
        ensures
            build == if self == WrapperBuild::Standalone {
                RustPluginBuild::Standalone
            } else {
                RustPluginBuild::Default
            },
    {
        match self {
            WrapperBuild::Standalone => RustPluginBuild::Standalone,
            _ => RustPluginBuild::Default,
        }
    }
}

/// `ON` or `OFF`.
pub open spec fn on_off_text(on: bool) -> Seq<char> {
    if on {
        "ON"@
    } else {
        "OFF"@
    }
}

/// `ON` or `OFF`.
pub fn on_off(on: bool) -> (text: &'static str)
    ensures
        text@ == on_off_text(on),
{
    if on {
        "ON"
    } else {
        "OFF"
    }
}

/// An argument on the plugin at `index`.
pub open spec fn product_arg(index: nat, key: Seq<char>, value: Seq<char>) -> Seq<char> {
    "-DCLAP_WRAPPER_BUILDER_PRODUCT_"@ + decimal(index) + "_"@ + key + value
}

fn product_argument(index: usize, key: &str, value: &str) -> (arg: String)
    ensures
        arg@ == product_arg(index as nat, key@, value@),
{
    let mut arg = join3(
        "-DCLAP_WRAPPER_BUILDER_PRODUCT_",
        decimal_text(index as u64).as_str(),
        "_",
    );
    arg.append(key);
    arg.append(value);
    arg
}

/// The arguments that every wrapper build takes.
pub open spec fn common_args(build: WrapperBuild, inputs: WrapperInputs) -> Seq<Seq<char>> {
    seq![
        "-S"@,
        inputs.wrapper_dir@,
        "-B"@,
        inputs.build_dir@,
        "-DCLAP_WRAPPER_BUILDER_TARGET_LIB="@ + inputs.static_library@,
        "-DCLAP_WRAPPER_BUILDER_OUTPUT_NAME="@ + inputs.metadata.bundle_name@,
        "-DCLAP_WRAPPER_BUILDER_TARGET_NAME="@ + build.target_base(inputs.metadata),
        "-DCLAP_WRAPPER_BUILDER_STAGE_DIR="@ + inputs.stage_dir@,
        "-DCLAP_WRAPPER_BUILDER_BUNDLE_VERSION="@ + inputs.metadata.version@,
        "-DCMAKE_BUILD_TYPE="@ + inputs.profile.config(),
        "-DCLAP_WRAPPER_DOWNLOAD_DEPENDENCIES=OFF"@,
        "-DCLAP_WRAPPER_CXX_STANDARD=23"@,
    ]
}

fn push_common_args(args: &mut Vec<String>, build: WrapperBuild, inputs: &WrapperInputs)
    ensures
        texts(final(args)@) == texts(old(args)@) + common_args(build, *inputs),
{
    let ghost before = texts(args@);
    args.push("-S".to_owned());
    args.push(inputs.wrapper_dir.clone());
    args.push("-B".to_owned());
    args.push(inputs.build_dir.clone());
    args.push(join2("-DCLAP_WRAPPER_BUILDER_TARGET_LIB=", inputs.static_library.as_str()));
    args.push(join2("-DCLAP_WRAPPER_BUILDER_OUTPUT_NAME=", inputs.metadata.bundle_name.as_str()));
    args.push(join2("-DCLAP_WRAPPER_BUILDER_TARGET_NAME=", build.target_name_base(&inputs.metadata).as_str()));
    args.push(join2("-DCLAP_WRAPPER_BUILDER_STAGE_DIR=", inputs.stage_dir.as_str()));
    args.push(join2("-DCLAP_WRAPPER_BUILDER_BUNDLE_VERSION=", inputs.metadata.version.as_str()));
    args.push(join2("-DCMAKE_BUILD_TYPE=", inputs.profile.cmake_config()));
    args.push("-DCLAP_WRAPPER_DOWNLOAD_DEPENDENCIES=OFF".to_owned());
    args.push("-DCLAP_WRAPPER_CXX_STANDARD=23".to_owned());
    assert(texts(args@) =~= before + common_args(build, *inputs));
}

/// What an AU build is told of one plugin: AU reads no descriptor of the plugin itself.
pub open spec fn au_product_args(index: nat, plugin: PluginProductMetadata) -> Seq<Seq<char>> {
    seq![
        product_arg(index, "OUTPUT_NAME="@, plugin.plugin_name@),
        product_arg(index, "AUV2_TYPE="@, plugin.auv2_type@),
        product_arg(index, "AUV2_SUBTYPE="@, plugin.auv2_subtype@),
    ]
}

fn push_au_product_args(args: &mut Vec<String>, index: usize, plugin: &PluginProductMetadata)
    ensures
        texts(final(args)@) == texts(old(args)@) + au_product_args(index as nat, *plugin),
{
    let ghost before = texts(args@);
    args.push(product_argument(index, "OUTPUT_NAME=", plugin.plugin_name.as_str()));
    args.push(product_argument(index, "AUV2_TYPE=", plugin.auv2_type.as_str()));
    args.push(product_argument(index, "AUV2_SUBTYPE=", plugin.auv2_subtype.as_str()));
    assert(texts(args@) =~= before + au_product_args(index as nat, *plugin));
}

/// What a standalone build is told of one plugin.
pub open spec fn standalone_product_args(index: nat, plugin: PluginProductMetadata) -> Seq<Seq<char>> {
    seq![
        product_arg(index, "OUTPUT_NAME="@, plugin.plugin_name@),
        product_arg(index, "PLUGIN_ID="@, plugin.plugin_id@),
        product_arg(index, "STANDALONE_NAME="@, plugin.standalone_name@),
    ]
}

fn push_standalone_product_args(args: &mut Vec<String>, index: usize, plugin: &PluginProductMetadata)
    ensures
        texts(final(args)@) == texts(old(args)@) + standalone_product_args(index as nat, *plugin),
{
    let ghost before = texts(args@);
    args.push(product_argument(index, "OUTPUT_NAME=", plugin.plugin_name.as_str()));
    args.push(product_argument(index, "PLUGIN_ID=", plugin.plugin_id.as_str()));
    args.push(product_argument(index, "STANDALONE_NAME=", plugin.standalone_name.as_str()));
    assert(texts(args@) =~= before + standalone_product_args(index as nat, *plugin));
}

/// What a build is told of the first `n` plugins.
pub open spec fn product_args(metadata: PluginMetadata, build: WrapperBuild, n: int) -> Seq<
    Seq<char>,
>
    decreases n,
{
    if n <= 0 {
        seq![
            "-DCLAP_WRAPPER_BUILDER_PRODUCT_COUNT="@ + decimal(metadata.plugins@.len()),
        ]
    } else {
        let before = product_args(metadata, build, n - 1);
        let plugin = metadata.plugins@[n - 1];
        match build {
            WrapperBuild::Plugins { au, .. } => if au {
                before + au_product_args((n - 1) as nat, plugin)
            } else {
                before
            },
            WrapperBuild::Aax => before,
            WrapperBuild::Standalone => before + standalone_product_args((n - 1) as nat, plugin),
        }
    }
}

/// Appends what a build is told of the plugins: their number, and for formats that cannot read
/// a plugin's descriptor what identifies each.
fn add_wrapper_product_args(args: &mut Vec<String>, metadata: &PluginMetadata, build: WrapperBuild)
    ensures
        texts(final(args)@) == texts(old(args)@) + product_args(
            *metadata,
            build,
            metadata.plugins@.len() as int,
        ),
{
    let ghost before = texts(args@);
    args.push(
        join2(
            "-DCLAP_WRAPPER_BUILDER_PRODUCT_COUNT=",
            decimal_text(metadata.plugins.len() as u64).as_str(),
        ),
    );
    assert(texts(args@) =~= before + product_args(*metadata, build, 0));
    let mut i: usize = 0;
    while i < metadata.plugins.len()
        invariant
            i <= metadata.plugins@.len(),
            texts(args@) == before + product_args(*metadata, build, i as int),
        decreases metadata.plugins@.len() - i,
    {
        let plugin = &metadata.plugins[i];
        match build {
            WrapperBuild::Plugins { vst3: _, au } => {
                if au {
                    push_au_product_args(args, i, plugin);
                }
            },
            WrapperBuild::Aax => {},
            WrapperBuild::Standalone => {
                push_standalone_product_args(args, i, plugin);
            },
        }
        assert(texts(args@) =~= before + product_args(*metadata, build, i + 1));
        i += 1;
    }
}

/// The arguments of a VST3 and AU build.
pub open spec fn plugin_args(vst3: bool, au: bool) -> Seq<Seq<char>> {
    seq![
        "-DCLAP_WRAPPER_BUILDER_BUILD_VST3="@ + on_off_text(vst3),
        "-DCLAP_WRAPPER_BUILDER_BUILD_AUV2="@ + on_off_text(au),
        "-DCLAP_WRAPPER_BUILDER_BUILD_AAX=OFF"@,
        "-DCLAP_WRAPPER_BUILDER_BUILD_STANDALONE=OFF"@,
    ]
}

fn push_plugin_args(args: &mut Vec<String>, vst3: bool, au: bool)
    ensures
        texts(final(args)@) == texts(old(args)@) + plugin_args(vst3, au),
{
    let ghost before = texts(args@);
    args.push(join2("-DCLAP_WRAPPER_BUILDER_BUILD_VST3=", on_off(vst3)));
    args.push(join2("-DCLAP_WRAPPER_BUILDER_BUILD_AUV2=", on_off(au)));
    args.push("-DCLAP_WRAPPER_BUILDER_BUILD_AAX=OFF".to_owned());
    args.push("-DCLAP_WRAPPER_BUILDER_BUILD_STANDALONE=OFF".to_owned());
    assert(texts(args@) =~= before + plugin_args(vst3, au));
}

/// The arguments of an AAX build.
pub open spec fn aax_args(inputs: WrapperInputs) -> Seq<Seq<char>> {
    seq![
        "-DCLAP_WRAPPER_BUILDER_BUILD_VST3=OFF"@,
        "-DCLAP_WRAPPER_BUILDER_BUILD_AUV2=OFF"@,
        "-DCLAP_WRAPPER_BUILDER_BUILD_AAX=ON"@,
        "-DCLAP_WRAPPER_BUILDER_BUILD_STANDALONE=OFF"@,
        "-DAAX_SDK_ROOT="@ + inputs.aax_sdk_root@,
    ]
}

fn push_aax_args(args: &mut Vec<String>, inputs: &WrapperInputs)
    ensures
        texts(final(args)@) == texts(old(args)@) + aax_args(*inputs),
{
    let ghost before = texts(args@);
    args.push("-DCLAP_WRAPPER_BUILDER_BUILD_VST3=OFF".to_owned());
    args.push("-DCLAP_WRAPPER_BUILDER_BUILD_AUV2=OFF".to_owned());
    args.push("-DCLAP_WRAPPER_BUILDER_BUILD_AAX=ON".to_owned());
    args.push("-DCLAP_WRAPPER_BUILDER_BUILD_STANDALONE=OFF".to_owned());
    args.push(join2("-DAAX_SDK_ROOT=", inputs.aax_sdk_root.as_str()));
    assert(texts(args@) =~= before + aax_args(*inputs));
}

/// The arguments of a standalone build, which may fetch what the application needs.
pub open spec fn standalone_args() -> Seq<Seq<char>> {
    seq![
        "-DCLAP_WRAPPER_BUILDER_BUILD_VST3=OFF"@,
        "-DCLAP_WRAPPER_BUILDER_BUILD_AUV2=OFF"@,
        "-DCLAP_WRAPPER_BUILDER_BUILD_AAX=OFF"@,
        "-DCLAP_WRAPPER_BUILDER_BUILD_STANDALONE=ON"@,
        "-DCLAP_WRAPPER_DOWNLOAD_DEPENDENCIES=ON"@,
    ]
}

fn push_standalone_args(args: &mut Vec<String>)
    ensures
        texts(final(args)@) == texts(old(args)@) + standalone_args(),
{
    let ghost before = texts(args@);
    args.push("-DCLAP_WRAPPER_BUILDER_BUILD_VST3=OFF".to_owned());
    args.push("-DCLAP_WRAPPER_BUILDER_BUILD_AUV2=OFF".to_owned());
    args.push("-DCLAP_WRAPPER_BUILDER_BUILD_AAX=OFF".to_owned());
    args.push("-DCLAP_WRAPPER_BUILDER_BUILD_STANDALONE=ON".to_owned());
    args.push("-DCLAP_WRAPPER_DOWNLOAD_DEPENDENCIES=ON".to_owned());
    assert(texts(args@) =~= before + standalone_args());
}

/// The arguments of every build on macOS.
pub open spec fn macos_args(inputs: WrapperInputs) -> Seq<Seq<char>> {
    seq![
        "-DCMAKE_OSX_DEPLOYMENT_TARGET="@ + inputs.deployment_target@,
        "-DAUDIOUNIT_SDK_ROOT="@ + inputs.audio_unit_sdk_root@,
        "-DCLAP_WRAPPER_AUV2_MANUFACTURER_NAME="@ + inputs.metadata.company_name@,
        "-DCLAP_WRAPPER_AUV2_MANUFACTURER_CODE="@ + inputs.metadata.auv2_manufacturer_code@,
    ]
}

fn push_macos_args(args: &mut Vec<String>, inputs: &WrapperInputs)
    ensures
        texts(final(args)@) == texts(old(args)@) + macos_args(*inputs),
{
    let ghost before = texts(args@);
    args.push(join2("-DCMAKE_OSX_DEPLOYMENT_TARGET=", inputs.deployment_target.as_str()));
    args.push(join2("-DAUDIOUNIT_SDK_ROOT=", inputs.audio_unit_sdk_root.as_str()));
    args.push(join2("-DCLAP_WRAPPER_AUV2_MANUFACTURER_NAME=", inputs.metadata.company_name.as_str()));
    args.push(join2("-DCLAP_WRAPPER_AUV2_MANUFACTURER_CODE=", inputs.metadata.auv2_manufacturer_code.as_str()));
    assert(texts(args@) =~= before + macos_args(*inputs));
}

/// The arguments that select the CMake generator.
pub open spec fn generator_args(platform: Platform) -> Seq<Seq<char>> {
    match platform.generator() {
        Some(name) => seq!["-G"@, name],
        None => Seq::empty(),
    }
}

/// The arguments that tell which formats a build makes.
pub open spec fn format_args(build: WrapperBuild, inputs: WrapperInputs) -> Seq<Seq<char>> {
    match build {
        WrapperBuild::Plugins { vst3, au } => plugin_args(vst3, au),
        WrapperBuild::Aax => aax_args(inputs),
        WrapperBuild::Standalone => standalone_args(),
    }
}

/// The arguments by which CMake is configured for a build.
pub open spec fn configure_args(build: WrapperBuild, inputs: WrapperInputs) -> Seq<Seq<char>> {
    common_args(build, inputs) + product_args(
        inputs.metadata,
        build,
        inputs.metadata.plugins@.len() as int,
    ) + format_args(build, inputs) + (if inputs.platform == Platform::Macos {
        macos_args(inputs)
    } else {
        Seq::empty()
    }) + generator_args(inputs.platform)
}

/// The arguments by which CMake is configured for a build.
pub fn configure_wrapper(build: WrapperBuild, inputs: &WrapperInputs) -> (args: Vec<String>)
    ensures
        texts(args@) == configure_args(build, *inputs),
{
    let mut args: Vec<String> = Vec::new();
    assert(texts(args@) =~= Seq::<Seq<char>>::empty());
    push_common_args(&mut args, build, inputs);
    assert(texts(args@) =~= common_args(build, *inputs));
    add_wrapper_product_args(&mut args, &inputs.metadata, build);
    match build {
        WrapperBuild::Plugins { vst3, au } => push_plugin_args(&mut args, vst3, au),
        WrapperBuild::Aax => push_aax_args(&mut args, inputs),
        WrapperBuild::Standalone => push_standalone_args(&mut args),
    }
    let ghost before = texts(args@);
    assert(before + Seq::<Seq<char>>::empty() =~= before);
    if inputs.platform == Platform::Macos {
        push_macos_args(&mut args, inputs);
    }
    let ghost last = texts(args@);
    if let Some(generator) = inputs.platform.cmake_generator() {
        args.push("-G".to_owned());
        args.push(generator.to_owned());
    }
    assert(texts(args@) =~= last + generator_args(inputs.platform));
    args
}

/// Every file that has to exist before a wrapper is configured: where it stands below the
/// wrapper directory, and what it is.
pub open spec fn wrapper_input_files(build: WrapperBuild) -> Seq<(Seq<char>, Seq<char>)> {
    let common = seq![
        (""@, "clap_wrapper_builder directory"@),
        ("clap-wrapper/CMakeLists.txt"@, "clap-wrapper subtree"@),
        ("clap/include/clap/clap.h"@, "CLAP SDK submodule"@),
    ];
    match build {
        WrapperBuild::Plugins { vst3, au } => common + (if vst3 {
            seq![("vst3sdk/CMakeLists.txt"@, "VST3 SDK submodule"@)]
        } else {
            Seq::empty()
        }) + (if au {
            seq![
                (
                    "AudioUnitSDK/include/AudioUnitSDK/AudioUnitSDK.h"@,
                    "AudioUnitSDK submodule"@,
                ),
            ]
        } else {
            Seq::empty()
        }),
        _ => common,
    }
}

/// The files of a list: where each stands and what it is.
pub open spec fn input_files_of(list: Seq<(&'static str, &'static str)>) -> Seq<
    (Seq<char>, Seq<char>),
> {
    Seq::new(list.len(), |i: int| (list[i].0@, list[i].1@))
}

/// Every file below the wrapper directory that has to exist before a wrapper is configured.
pub fn ensure_wrapper_inputs(build: WrapperBuild) -> (files: Vec<(&'static str, &'static str)>)
    ensures
        input_files_of(files@) == wrapper_input_files(build),
{
    let mut files: Vec<(&'static str, &'static str)> = Vec::new();
    files.push(("", "clap_wrapper_builder directory"));
    files.push(("clap-wrapper/CMakeLists.txt", "clap-wrapper subtree"));
    files.push(("clap/include/clap/clap.h", "CLAP SDK submodule"));
    if let WrapperBuild::Plugins { vst3, au } = build {
        if vst3 {
            files.push(("vst3sdk/CMakeLists.txt", "VST3 SDK submodule"));
        }
        if au {
            files.push(
                ("AudioUnitSDK/include/AudioUnitSDK/AudioUnitSDK.h", "AudioUnitSDK submodule"),
            );
        }
    }
    assert(input_files_of(files@) =~= wrapper_input_files(build));
    files
}

/// The CMake targets of the standalones of the first `n` plugins.
pub open spec fn standalone_targets(base: Seq<char>, n: int) -> Seq<Seq<char>>
    decreases n,
{
    if n <= 0 {
        Seq::empty()
    } else {
        standalone_targets(base, n - 1).push(
            base + "_product_"@ + decimal((n - 1) as nat) + "_standalone"@,
        )
    }
}

/// The CMake targets that make a format: one, or for standalones one for each plugin.
pub open spec fn cmake_targets(
    metadata: PluginMetadata,
    build: WrapperBuild,
    target: WrapperTarget,
) -> Seq<Seq<char>> {
    let base = build.target_base(metadata);
    match target {
        WrapperTarget::Vst3 => seq![base + "_vst3"@],
        WrapperTarget::Aax => seq![base + "_aax"@],
        WrapperTarget::Au => seq![base + "_auv2"@],
        WrapperTarget::Standalone => standalone_targets(base, metadata.plugins@.len() as int),
    }
}

/// The CMake targets that make a format.
pub fn cmake_wrapper_targets(metadata: &PluginMetadata, build: WrapperBuild, target: WrapperTarget) -> (targets:
    Vec<String>)
    ensures
        texts(targets@) == cmake_targets(*metadata, build, target),
{
    let base = build.target_name_base(metadata);
    let mut targets: Vec<String> = Vec::new();
    match target {
        WrapperTarget::Vst3 => {
            targets.push(join2(base.as_str(), "_vst3"));
            assert(texts(targets@) =~= cmake_targets(*metadata, build, target));
        },
        WrapperTarget::Aax => {
            targets.push(join2(base.as_str(), "_aax"));
            assert(texts(targets@) =~= cmake_targets(*metadata, build, target));
        },
        WrapperTarget::Au => {
            targets.push(join2(base.as_str(), "_auv2"));
            assert(texts(targets@) =~= cmake_targets(*metadata, build, target));
        },
        WrapperTarget::Standalone => {
            let mut i: usize = 0;
            assert(texts(targets@) =~= standalone_targets(base@, 0));
            while i < metadata.plugins.len()
                invariant
                    i <= metadata.plugins@.len(),
                    texts(targets@) == standalone_targets(base@, i as int),
                decreases metadata.plugins@.len() - i,
            {
                let ghost before = targets@;
                let mut name = join3(
                    base.as_str(),
                    "_product_",
                    decimal_text(i as u64).as_str(),
                );
                name.append("_standalone");
                targets.push(name);
                assert(texts(targets@) =~= texts(before).push(targets@.last()@));
                i += 1;
            }
        },
    }
    targets
}

/// The arguments by which CMake builds one target.
pub open spec fn build_args(
    build_dir: Seq<char>,
    target: Seq<char>,
    profile: BuildProfile,
    platform: Platform,
) -> Seq<Seq<char>> {
    seq!["--build"@, build_dir, "--target"@, target, "--config"@, profile.config()] + (if platform
        == Platform::Macos {
        seq!["--"@, XCODE_FLAGS@]
    } else {
        Seq::empty()
    })
}

/// What Xcode is told of warnings that come from the wrapper SDKs.
pub const XCODE_FLAGS: &'static str = "OTHER_CPLUSPLUSFLAGS=$(inherited) -Wno-unknown-warning-option -Wno-gnu-statement-expression-from-macro-expansion -Wno-shorten-64-to-32 -Wno-perf-constraint-implies-noexcept";

/// The arguments by which CMake builds one target.
pub fn build_wrapper_target(
    build_dir: &str,
    target: &str,
    profile: BuildProfile,
    platform: Platform,
) -> (args: Vec<String>)
    ensures
        texts(args@) == build_args(build_dir@, target@, profile, platform),
{
    let mut args: Vec<String> = Vec::new();
    args.push("--build".to_owned());
    args.push(build_dir.to_owned());
    args.push("--target".to_owned());
    args.push(target.to_owned());
    args.push("--config".to_owned());
    args.push(profile.cmake_config().to_owned());
    if platform == Platform::Macos {
        args.push("--".to_owned());
        args.push(XCODE_FLAGS.to_owned());
    }
    assert(texts(args@) =~= build_args(build_dir@, target@, profile, platform));
    args
}

// What CMake is told

/// The text that CMake reads as a key on the plugin at `i`.
pub open spec fn product_key(i: int, name: Seq<char>) -> Seq<char> {
    "-DCLAP_WRAPPER_BUILDER_PRODUCT_"@ + decimal(i as nat) + name
}

/// An AU build tells CMake the type, the subtype and the name of each plugin, each under the key
/// of that plugin, and gives none of these keys another value. The two paths behind `-S` and `-B`
/// are no keys.
pub proof fn au_builds_tell_what_each_plugin_is(vst3: bool, inputs: WrapperInputs, i: int, at: int)
    requires
        0 <= i < inputs.metadata.plugins@.len(),
    ensures
        ({
            let args = configure_args(WrapperBuild::Plugins { vst3, au: true }, inputs);
            let plugin = inputs.metadata.plugins@[i];
            let name = product_key(i, "_OUTPUT_NAME="@);
            let type_key = product_key(i, "_AUV2_TYPE="@);
            let subtype = product_key(i, "_AUV2_SUBTYPE="@);
            &&& args.contains(name + plugin.plugin_name@)
            &&& args.contains(type_key + plugin.auv2_type@)
            &&& args.contains(subtype + plugin.auv2_subtype@)
            &&& 0 <= at < args.len() && at != 1 && at != 3 ==> {
                &&& name.is_prefix_of(args[at]) ==> args[at] == name + plugin.plugin_name@
                &&& type_key.is_prefix_of(args[at]) ==> args[at] == type_key + plugin.auv2_type@
                &&& subtype.is_prefix_of(args[at]) ==> args[at] == subtype + plugin.auv2_subtype@
            }
        }),
{
    let build = WrapperBuild::Plugins { vst3, au: true };
    let metadata = inputs.metadata;
    let n = metadata.plugins@.len() as int;
    let args = configure_args(build, inputs);
    let told = product_args(metadata, build, n);
    let plugin = metadata.plugins@[i];
    lemma_told(metadata, build, n, 1 + 3 * i);
    lemma_told(metadata, build, n, 2 + 3 * i);
    lemma_told(metadata, build, n, 3 + 3 * i);
    assert((3 * i) / 3 == i && (3 * i + 1) / 3 == i && (3 * i + 2) / 3 == i);
    reveal_strlit("_");
    reveal_strlit("OUTPUT_NAME=");
    reveal_strlit("AUV2_TYPE=");
    reveal_strlit("AUV2_SUBTYPE=");
    reveal_strlit("_OUTPUT_NAME=");
    reveal_strlit("_AUV2_TYPE=");
    reveal_strlit("_AUV2_SUBTYPE=");
    let name = product_key(i, "_OUTPUT_NAME="@);
    let type_key = product_key(i, "_AUV2_TYPE="@);
    let subtype = product_key(i, "_AUV2_SUBTYPE="@);
    assert(told[1 + 3 * i] =~= name + plugin.plugin_name@);
    assert(told[2 + 3 * i] =~= type_key + plugin.auv2_type@);
    assert(told[3 + 3 * i] =~= subtype + plugin.auv2_subtype@);
    assert(args[12 + 1 + 3 * i] == told[1 + 3 * i]);
    assert(args[12 + 2 + 3 * i] == told[2 + 3 * i]);
    assert(args[12 + 3 + 3 * i] == told[3 + 3 * i]);
    if 0 <= at < args.len() && at != 1 && at != 3 {
        if 12 < at < 12 + told.len() {
            let p = at - 12;
            lemma_told(metadata, build, n, p);
            let j = (p - 1) / 3;
            let which = (p - 1) % 3;
            assert(p == 1 + 3 * j + which);
            assert(args[at] == told[p]);
            let other = if which == 0 {
                "OUTPUT_NAME="@
            } else if which == 1 {
                "AUV2_TYPE="@
            } else {
                "AUV2_SUBTYPE="@
            };
            let value = if which == 0 {
                metadata.plugins@[j].plugin_name@
            } else if which == 1 {
                metadata.plugins@[j].auv2_type@
            } else {
                metadata.plugins@[j].auv2_subtype@
            };
            assert(told[p] == product_arg(j as nat, other, value));
            lemma_keys_tell_plugins_apart(i, "_OUTPUT_NAME="@, j, other, value);
            lemma_keys_tell_plugins_apart(i, "_AUV2_TYPE="@, j, other, value);
            lemma_keys_tell_plugins_apart(i, "_AUV2_SUBTYPE="@, j, other, value);
        } else {
            lemma_other_arguments_are_no_product_keys(build, inputs, i, at);
        }
    }
}

/// What an AU build tells CMake of a plugin is what the AU validator looks for: the type, the
/// subtype and the code of the maker.
pub proof fn an_audio_unit_is_validated_as_it_was_built(
    vst3: bool,
    inputs: WrapperInputs,
    i: int,
    args: Vec<String>,
)
    requires
        0 <= i < inputs.metadata.plugins@.len(),
        inputs.platform == Platform::Macos,
        call_ensures(auval_args, (&inputs.metadata, &inputs.metadata.plugins@[i]), args),
    ensures
        ({
            let built = configure_args(WrapperBuild::Plugins { vst3, au: true }, inputs);
            let asked = texts(args@);
            &&& asked.len() == 4
            &&& asked[0] == "-v"@
            &&& built.contains(product_key(i, "_AUV2_TYPE="@) + asked[1])
            &&& built.contains(product_key(i, "_AUV2_SUBTYPE="@) + asked[2])
            &&& built.contains("-DCLAP_WRAPPER_AUV2_MANUFACTURER_CODE="@ + asked[3])
        }),
{
    au_builds_tell_what_each_plugin_is(vst3, inputs, i, 0);
    builds_suit_their_system(WrapperBuild::Plugins { vst3, au: true }, inputs);
}

/// A standalone build tells CMake the id and the names of each plugin, each under the key of that
/// plugin.
pub proof fn standalone_builds_tell_what_each_plugin_is(inputs: WrapperInputs, i: int)
    requires
        0 <= i < inputs.metadata.plugins@.len(),
    ensures
        ({
            let args = configure_args(WrapperBuild::Standalone, inputs);
            let plugin = inputs.metadata.plugins@[i];
            &&& args.contains(product_key(i, "_OUTPUT_NAME="@) + plugin.plugin_name@)
            &&& args.contains(product_key(i, "_PLUGIN_ID="@) + plugin.plugin_id@)
            &&& args.contains(product_key(i, "_STANDALONE_NAME="@) + plugin.standalone_name@)
        }),
{
    let build = WrapperBuild::Standalone;
    let n = inputs.metadata.plugins@.len() as int;
    let args = configure_args(build, inputs);
    let told = product_args(inputs.metadata, build, n);
    let plugin = inputs.metadata.plugins@[i];
    lemma_told(inputs.metadata, build, n, 1 + 3 * i);
    lemma_told(inputs.metadata, build, n, 2 + 3 * i);
    lemma_told(inputs.metadata, build, n, 3 + 3 * i);
    assert((3 * i) / 3 == i && (3 * i + 1) / 3 == i && (3 * i + 2) / 3 == i);
    reveal_strlit("_");
    reveal_strlit("OUTPUT_NAME=");
    reveal_strlit("PLUGIN_ID=");
    reveal_strlit("STANDALONE_NAME=");
    reveal_strlit("_OUTPUT_NAME=");
    reveal_strlit("_PLUGIN_ID=");
    reveal_strlit("_STANDALONE_NAME=");
    assert(told[1 + 3 * i] =~= product_key(i, "_OUTPUT_NAME="@) + plugin.plugin_name@);
    assert(told[2 + 3 * i] =~= product_key(i, "_PLUGIN_ID="@) + plugin.plugin_id@);
    assert(told[3 + 3 * i] =~= product_key(i, "_STANDALONE_NAME="@) + plugin.standalone_name@);
    assert(args[12 + 1 + 3 * i] == told[1 + 3 * i]);
    assert(args[12 + 2 + 3 * i] == told[2 + 3 * i]);
    assert(args[12 + 3 + 3 * i] == told[3 + 3 * i]);
}

/// Every build tells CMake where it works, what it wraps, and under which names and version, each
/// under its own key, and how many plugins there are.
pub proof fn builds_tell_where_they_work(build: WrapperBuild, inputs: WrapperInputs)
    ensures
        ({
            let args = configure_args(build, inputs);
            let metadata = inputs.metadata;
            &&& args[0] == "-S"@ && args[1] == inputs.wrapper_dir@
            &&& args[2] == "-B"@ && args[3] == inputs.build_dir@
            &&& args.subrange(0, 12).contains("-DCLAP_WRAPPER_DOWNLOAD_DEPENDENCIES=OFF"@)
            &&& args.contains("-DCLAP_WRAPPER_CXX_STANDARD=23"@)
            &&& args.contains("-DCLAP_WRAPPER_BUILDER_TARGET_LIB="@ + inputs.static_library@)
            &&& args.contains("-DCLAP_WRAPPER_BUILDER_OUTPUT_NAME="@ + metadata.bundle_name@)
            &&& args.contains("-DCLAP_WRAPPER_BUILDER_STAGE_DIR="@ + inputs.stage_dir@)
            &&& args.contains("-DCLAP_WRAPPER_BUILDER_BUNDLE_VERSION="@ + metadata.version@)
            &&& args.contains(
                "-DCLAP_WRAPPER_BUILDER_PRODUCT_COUNT="@ + decimal(metadata.plugins@.len()),
            )
            &&& inputs.profile == BuildProfile::Debug ==> args.contains(
                "-DCMAKE_BUILD_TYPE="@ + "Debug"@,
            )
            &&& inputs.profile == BuildProfile::Release ==> args.contains(
                "-DCMAKE_BUILD_TYPE="@ + "Release"@,
            )
            &&& build is Plugins ==> args.contains(
                "-DCLAP_WRAPPER_BUILDER_TARGET_NAME="@ + (metadata.package_name@ + "_"@
                    + "wrap_plugins"@),
            )
            &&& build is Aax ==> args.contains(
                "-DCLAP_WRAPPER_BUILDER_TARGET_NAME="@ + (metadata.package_name@ + "_"@
                    + "wrap_aax"@),
            )
            &&& build is Standalone ==> args.contains(
                "-DCLAP_WRAPPER_BUILDER_TARGET_NAME="@ + (metadata.package_name@ + "_"@
                    + "standalone"@),
            )
        }),
{
    let args = configure_args(build, inputs);
    let common = common_args(build, inputs);
    lemma_count_comes_first(inputs.metadata, build, inputs.metadata.plugins@.len() as int);
    assert(args[0] == common[0] && args[1] == common[1] && args[2] == common[2] && args[3]
        == common[3]);
    assert(args[4] == common[4]);
    assert(args[5] == common[5]);
    assert(args[6] == common[6]);
    assert(args[7] == common[7]);
    assert(args[8] == common[8]);
    assert(args[9] == common[9]);
    assert(args.subrange(0, 12)[10] == common[10]);
    assert(args[11] == common[11]);
    assert(args[12] == product_args(
        inputs.metadata,
        build,
        inputs.metadata.plugins@.len() as int,
    )[0]);
}

/// A build switches each format on where it is to make it and off where it is not.
pub proof fn builds_switch_on_what_they_make(build: WrapperBuild, inputs: WrapperInputs)
    ensures
        ({
            let args = configure_args(build, inputs);
            let vst3 = build matches WrapperBuild::Plugins { vst3, .. } && vst3;
            let au = build matches WrapperBuild::Plugins { au, .. } && au;
            &&& vst3 ==> args.contains("-DCLAP_WRAPPER_BUILDER_BUILD_VST3=ON"@)
            &&& !vst3 ==> args.contains("-DCLAP_WRAPPER_BUILDER_BUILD_VST3=OFF"@)
            &&& au ==> args.contains("-DCLAP_WRAPPER_BUILDER_BUILD_AUV2=ON"@)
            &&& !au ==> args.contains("-DCLAP_WRAPPER_BUILDER_BUILD_AUV2=OFF"@)
            &&& build is Aax ==> args.contains("-DCLAP_WRAPPER_BUILDER_BUILD_AAX=ON"@)
                && args.contains("-DAAX_SDK_ROOT="@ + inputs.aax_sdk_root@)
            &&& !(build is Aax) ==> args.contains("-DCLAP_WRAPPER_BUILDER_BUILD_AAX=OFF"@)
            &&& build is Standalone ==> args.contains(
                "-DCLAP_WRAPPER_BUILDER_BUILD_STANDALONE=ON"@,
            ) && args.skip(12).contains("-DCLAP_WRAPPER_DOWNLOAD_DEPENDENCIES=ON"@)
            &&& !(build is Standalone) ==> args.contains(
                "-DCLAP_WRAPPER_BUILDER_BUILD_STANDALONE=OFF"@,
            )
        }),
{
    let args = configure_args(build, inputs);
    let formats = format_args(build, inputs);
    let start: int = 12 + product_args(
        inputs.metadata,
        build,
        inputs.metadata.plugins@.len() as int,
    ).len() as int;
    reveal_strlit("ON");
    reveal_strlit("OFF");
    reveal_strlit("-DCLAP_WRAPPER_BUILDER_BUILD_VST3=");
    reveal_strlit("-DCLAP_WRAPPER_BUILDER_BUILD_VST3=ON");
    reveal_strlit("-DCLAP_WRAPPER_BUILDER_BUILD_VST3=OFF");
    reveal_strlit("-DCLAP_WRAPPER_BUILDER_BUILD_AUV2=");
    reveal_strlit("-DCLAP_WRAPPER_BUILDER_BUILD_AUV2=ON");
    reveal_strlit("-DCLAP_WRAPPER_BUILDER_BUILD_AUV2=OFF");
    assert("-DCLAP_WRAPPER_BUILDER_BUILD_VST3="@ + "ON"@
        =~= "-DCLAP_WRAPPER_BUILDER_BUILD_VST3=ON"@);
    assert("-DCLAP_WRAPPER_BUILDER_BUILD_VST3="@ + "OFF"@
        =~= "-DCLAP_WRAPPER_BUILDER_BUILD_VST3=OFF"@);
    assert("-DCLAP_WRAPPER_BUILDER_BUILD_AUV2="@ + "ON"@
        =~= "-DCLAP_WRAPPER_BUILDER_BUILD_AUV2=ON"@);
    assert("-DCLAP_WRAPPER_BUILDER_BUILD_AUV2="@ + "OFF"@
        =~= "-DCLAP_WRAPPER_BUILDER_BUILD_AUV2=OFF"@);
    assert(args[start] == formats[0]);
    assert(args[start + 1] == formats[1]);
    assert(args[start + 2] == formats[2]);
    assert(args[start + 3] == formats[3]);
    if !(build is Plugins) {
        assert(args[start + 4] == formats[4]);
        assert(args.skip(12)[start - 8] == formats[4]);
    }
}

/// A build on macOS is told of the SDK, the oldest system and the maker of the Audio Units, and
/// every system but Linux names its generator last.
pub proof fn builds_suit_their_system(build: WrapperBuild, inputs: WrapperInputs)
    ensures
        ({
            let args = configure_args(build, inputs);
            &&& inputs.platform == Platform::Macos ==> {
                &&& args.contains("-DCMAKE_OSX_DEPLOYMENT_TARGET="@ + inputs.deployment_target@)
                &&& args.contains("-DAUDIOUNIT_SDK_ROOT="@ + inputs.audio_unit_sdk_root@)
                &&& args.contains(
                    "-DCLAP_WRAPPER_AUV2_MANUFACTURER_NAME="@ + inputs.metadata.company_name@,
                )
                &&& args.contains(
                    "-DCLAP_WRAPPER_AUV2_MANUFACTURER_CODE="@
                        + inputs.metadata.auv2_manufacturer_code@,
                )
                &&& args[args.len() - 2] == "-G"@
                &&& args.last() == "Xcode"@
            }
            &&& inputs.platform == Platform::Windows ==> {
                &&& args[args.len() - 2] == "-G"@
                &&& args.last() == "Visual Studio 17 2022"@
            }
            &&& inputs.platform == Platform::Linux ==> args.last() == format_args(
                build,
                inputs,
            ).last()
        }),
{
    let args = configure_args(build, inputs);
    let start: int = 12 + product_args(
        inputs.metadata,
        build,
        inputs.metadata.plugins@.len() as int,
    ).len() as int + format_args(build, inputs).len();
    if inputs.platform == Platform::Macos {
        assert(args[start] == macos_args(inputs)[0]);
        assert(args[start + 1] == macos_args(inputs)[1]);
        assert(args[start + 2] == macos_args(inputs)[2]);
        assert(args[start + 3] == macos_args(inputs)[3]);
        assert(args[start + 4] == generator_args(inputs.platform)[0]);
        assert(args[start + 5] == generator_args(inputs.platform)[1]);
    }
}

/// Two builds of different kinds work in directories of different names.
pub proof fn builds_have_their_own_directories(build: WrapperBuild, other: WrapperBuild)
    ensures
        build.purpose_text() == other.purpose_text() ==> (build is Plugins == other is Plugins)
            && (build is Aax == other is Aax) && (build is Standalone == other is Standalone),
        build is Plugins ==> build.purpose_text() == "wrap-plugins"@,
        build is Aax ==> build.purpose_text() == "wrap-aax"@,
        build is Standalone ==> build.purpose_text() == "standalone"@,
{
    reveal_strlit("wrap-plugins");
    reveal_strlit("wrap-aax");
    reveal_strlit("standalone");
    assert("wrap-plugins"@.len() == 12 && "wrap-aax"@.len() == 8 && "standalone"@.len() == 10);
}

/// A build needs the SDK of each format that it makes: that of VST3 and that of AU where it makes
/// them, and the wrapper and CLAP always.
pub proof fn builds_need_the_sdks_of_their_formats(build: WrapperBuild)
    ensures
        ({
            let files = wrapper_input_files(build);
            let vst3 = ("vst3sdk/CMakeLists.txt"@, "VST3 SDK submodule"@);
            let au = (
                "AudioUnitSDK/include/AudioUnitSDK/AudioUnitSDK.h"@,
                "AudioUnitSDK submodule"@,
            );
            &&& files.contains(vst3) <==> (build matches WrapperBuild::Plugins { vst3, .. } && vst3)
            &&& files.contains(au) <==> (build matches WrapperBuild::Plugins { au, .. } && au)
            &&& files.contains((""@, "clap_wrapper_builder directory"@))
            &&& files.contains(("clap-wrapper/CMakeLists.txt"@, "clap-wrapper subtree"@))
            &&& files.contains(("clap/include/clap/clap.h"@, "CLAP SDK submodule"@))
        }),
{
    let files = wrapper_input_files(build);
    reveal_strlit("");
    reveal_strlit("clap-wrapper/CMakeLists.txt");
    reveal_strlit("clap/include/clap/clap.h");
    reveal_strlit("vst3sdk/CMakeLists.txt");
    reveal_strlit("AudioUnitSDK/include/AudioUnitSDK/AudioUnitSDK.h");
    assert(""@.len() == 0 && "clap-wrapper/CMakeLists.txt"@.len() == 27
        && "clap/include/clap/clap.h"@.len() == 24 && "vst3sdk/CMakeLists.txt"@.len() == 22
        && "AudioUnitSDK/include/AudioUnitSDK/AudioUnitSDK.h"@.len() == 48);
    assert(files[0] == (""@, "clap_wrapper_builder directory"@));
    assert(files[1] == ("clap-wrapper/CMakeLists.txt"@, "clap-wrapper subtree"@));
    assert(files[2] == ("clap/include/clap/clap.h"@, "CLAP SDK submodule"@));
    if let WrapperBuild::Plugins { vst3, au } = build {
        if vst3 {
            assert(files[3] == ("vst3sdk/CMakeLists.txt"@, "VST3 SDK submodule"@));
        }
        if au {
            assert(files.last() == (
                "AudioUnitSDK/include/AudioUnitSDK/AudioUnitSDK.h"@,
                "AudioUnitSDK submodule"@,
            ));
        }
    }
}

/// Each format has one CMake target, named after the package, the build and the format; only
/// standalones have one for each plugin, with the number of the plugin.
pub proof fn targets_are_named_after_their_format(
    metadata: PluginMetadata,
    build: WrapperBuild,
    i: int,
)
    ensures
        ({
            let base = build.target_base(metadata);
            let standalones = cmake_targets(metadata, build, WrapperTarget::Standalone);
            &&& cmake_targets(metadata, build, WrapperTarget::Vst3) == seq![base + "_vst3"@]
            &&& cmake_targets(metadata, build, WrapperTarget::Au) == seq![base + "_auv2"@]
            &&& cmake_targets(metadata, build, WrapperTarget::Aax) == seq![base + "_aax"@]
            &&& standalones.len() == metadata.plugins@.len()
            &&& 0 <= i < standalones.len() ==> standalones[i] == base + "_product_"@ + decimal(
                i as nat,
            ) + "_standalone"@
        }),
{
    lemma_standalones(build.target_base(metadata), metadata.plugins@.len() as int, i);
}

proof fn lemma_standalones(base: Seq<char>, n: int, i: int)
    requires
        0 <= n,
    ensures
        standalone_targets(base, n).len() == n,
        0 <= i < n ==> standalone_targets(base, n)[i] == base + "_product_"@ + decimal(i as nat)
            + "_standalone"@,
    decreases n,
{
    if n > 0 {
        lemma_standalones(base, n - 1, i);
    }
}

/// CMake builds the target that is named, in the directory that is named, in the configuration of
/// the profile; the flags of Xcode follow on macOS alone.
pub proof fn cmake_builds_what_is_named(
    build_dir: Seq<char>,
    target: Seq<char>,
    profile: BuildProfile,
    platform: Platform,
)
    ensures
        ({
            let args = build_args(build_dir, target, profile, platform);
            &&& args[0] == "--build"@ && args[1] == build_dir
            &&& args[2] == "--target"@ && args[3] == target
            &&& args[4] == "--config"@
            &&& profile == BuildProfile::Debug ==> args[5] == "Debug"@
            &&& profile == BuildProfile::Release ==> args[5] == "Release"@
            &&& platform != Platform::Macos ==> args.len() == 6
            &&& platform == Platform::Macos ==> args.len() == 8 && args[6] == "--"@ && args[7]
                == XCODE_FLAGS@
        }),
{
}

/// Whether a build tells CMake of each plugin.
spec fn tells_of_plugins(build: WrapperBuild) -> bool {
    match build {
        WrapperBuild::Plugins { au, .. } => au,
        WrapperBuild::Aax => false,
        WrapperBuild::Standalone => true,
    }
}

/// Behind the number of plugins each plugin has three arguments, in the order of the plugins.
proof fn lemma_told(metadata: PluginMetadata, build: WrapperBuild, n: int, p: int)
    requires
        0 <= n <= metadata.plugins@.len(),
        tells_of_plugins(build),
    ensures
        product_args(metadata, build, n).len() == 1 + 3 * n,
        1 <= p < 1 + 3 * n ==> product_args(metadata, build, n)[p] == if build
            == WrapperBuild::Standalone {
            standalone_product_args(
                ((p - 1) / 3) as nat,
                metadata.plugins@[(p - 1) / 3],
            )[(p - 1) % 3]
        } else {
            au_product_args(((p - 1) / 3) as nat, metadata.plugins@[(p - 1) / 3])[(p - 1) % 3]
        },
    decreases n,
{
    if n > 0 {
        lemma_told(metadata, build, n - 1, p);
        if 1 + 3 * (n - 1) <= p < 1 + 3 * n {
            assert((p - 1) / 3 == n - 1);
            assert((p - 1) % 3 == p - 1 - 3 * (n - 1));
        }
    }
}

/// A key on one plugin begins an argument only where the argument is on that plugin and has the
/// name of the key.
proof fn lemma_keys_tell_plugins_apart(
    i: int,
    name: Seq<char>,
    j: int,
    other: Seq<char>,
    value: Seq<char>,
)
    requires
        0 <= i,
        0 <= j,
        name == "_OUTPUT_NAME="@ || name == "_AUV2_TYPE="@ || name == "_AUV2_SUBTYPE="@,
        other == "OUTPUT_NAME="@ || other == "AUV2_TYPE="@ || other == "AUV2_SUBTYPE="@,
    ensures
        product_key(i, name).is_prefix_of(product_arg(j as nat, other, value)) ==> i == j && name
            == "_"@ + other,
{
    let key = product_key(i, name);
    let arg = product_arg(j as nat, other, value);
    if key.is_prefix_of(arg) {
        reveal_strlit("-DCLAP_WRAPPER_BUILDER_PRODUCT_");
        reveal_strlit("_");
        reveal_strlit("OUTPUT_NAME=");
        reveal_strlit("AUV2_TYPE=");
        reveal_strlit("AUV2_SUBTYPE=");
        reveal_strlit("_OUTPUT_NAME=");
        reveal_strlit("_AUV2_TYPE=");
        reveal_strlit("_AUV2_SUBTYPE=");
        decimals_tell_numbers_apart(i as nat, j as nat);
        decimals_tell_numbers_apart(j as nat, i as nat);
        let a = decimal(i as nat);
        let b = decimal(j as nat);
        assert forall|k: int| 0 <= k < key.len() implies #[trigger] key[k] == arg[k] by {
            assert(arg.subrange(0, key.len() as int)[k] == arg[k]);
        }
        let start = 31int;
        if a.len() < b.len() {
            assert(key[start + a.len()] == '_');
            assert(arg[start + a.len()] == b[a.len() as int]);
            assert(is_digit(b[a.len() as int]));
            assert(false);
        }
        if b.len() < a.len() {
            assert(arg[start + b.len()] == '_');
            assert(key[start + b.len()] == a[b.len() as int]);
            assert(is_digit(a[b.len() as int]));
            assert(false);
        }
        assert forall|k: int| 0 <= k < a.len() implies #[trigger] a[k] == b[k] by {
            assert(key[start + k] == a[k]);
            assert(arg[start + k] == b[k]);
        }
        assert(a =~= b);
        let behind = start + a.len();
        assert(key[behind + 1] == name[1]);
        assert(key[behind + 6] == name[6]);
        assert(arg[behind + 1] == other[0]);
        assert(arg[behind + 6] == other[5]);
        assert("_"@ + "OUTPUT_NAME="@ =~= "_OUTPUT_NAME="@);
        assert("_"@ + "AUV2_TYPE="@ =~= "_AUV2_TYPE="@);
        assert("_"@ + "AUV2_SUBTYPE="@ =~= "_AUV2_SUBTYPE="@);
        assert("_OUTPUT_NAME="@[1] == 'O' && "_AUV2_TYPE="@[1] == 'A' && "_AUV2_SUBTYPE="@[1]
            == 'A');
        assert("_AUV2_TYPE="@[6] == 'T' && "_AUV2_SUBTYPE="@[6] == 'S');
        assert("OUTPUT_NAME="@[0] == 'O' && "AUV2_TYPE="@[0] == 'A' && "AUV2_SUBTYPE="@[0]
            == 'A');
        assert("AUV2_TYPE="@[5] == 'T' && "AUV2_SUBTYPE="@[5] == 'S');
    }
}

/// No argument but those on plugins begins with a key on a plugin, the two paths aside.
proof fn lemma_other_arguments_are_no_product_keys(
    build: WrapperBuild,
    inputs: WrapperInputs,
    i: int,
    at: int,
)
    requires
        0 <= i,
        0 <= at < configure_args(build, inputs).len(),
        at != 1 && at != 3,
        !(12 < at < 12 + product_args(
            inputs.metadata,
            build,
            inputs.metadata.plugins@.len() as int,
        ).len()),
    ensures
        forall|name: Seq<char>|
            !(#[trigger] product_key(i, name)).is_prefix_of(configure_args(build, inputs)[at]),
{
    let args = configure_args(build, inputs);
    let told = product_args(
        inputs.metadata,
        build,
        inputs.metadata.plugins@.len() as int,
    );
    lemma_count_comes_first(inputs.metadata, build, inputs.metadata.plugins@.len() as int);
    reveal_strlit("-S");
    reveal_strlit("-B");
    reveal_strlit("-G");
    reveal_strlit("Xcode");
    reveal_strlit("Visual Studio 17 2022");
    reveal_strlit("-DCLAP_WRAPPER_BUILDER_PRODUCT_");
    reveal_strlit("-DCLAP_WRAPPER_BUILDER_PRODUCT_COUNT=");
    reveal_strlit("-DCLAP_WRAPPER_BUILDER_TARGET_LIB=");
    reveal_strlit("-DCLAP_WRAPPER_BUILDER_OUTPUT_NAME=");
    reveal_strlit("-DCLAP_WRAPPER_BUILDER_TARGET_NAME=");
    reveal_strlit("-DCLAP_WRAPPER_BUILDER_STAGE_DIR=");
    reveal_strlit("-DCLAP_WRAPPER_BUILDER_BUNDLE_VERSION=");
    reveal_strlit("-DCMAKE_BUILD_TYPE=");
    reveal_strlit("-DCLAP_WRAPPER_DOWNLOAD_DEPENDENCIES=OFF");
    reveal_strlit("-DCLAP_WRAPPER_DOWNLOAD_DEPENDENCIES=ON");
    reveal_strlit("-DCLAP_WRAPPER_CXX_STANDARD=23");
    reveal_strlit("-DCLAP_WRAPPER_BUILDER_BUILD_VST3=");
    reveal_strlit("-DCLAP_WRAPPER_BUILDER_BUILD_AUV2=");
    reveal_strlit("-DCLAP_WRAPPER_BUILDER_BUILD_VST3=OFF");
    reveal_strlit("-DCLAP_WRAPPER_BUILDER_BUILD_AUV2=OFF");
    reveal_strlit("-DCLAP_WRAPPER_BUILDER_BUILD_AAX=OFF");
    reveal_strlit("-DCLAP_WRAPPER_BUILDER_BUILD_AAX=ON");
    reveal_strlit("-DCLAP_WRAPPER_BUILDER_BUILD_STANDALONE=OFF");
    reveal_strlit("-DCLAP_WRAPPER_BUILDER_BUILD_STANDALONE=ON");
    reveal_strlit("-DAAX_SDK_ROOT=");
    reveal_strlit("-DCMAKE_OSX_DEPLOYMENT_TARGET=");
    reveal_strlit("-DAUDIOUNIT_SDK_ROOT=");
    reveal_strlit("-DCLAP_WRAPPER_AUV2_MANUFACTURER_NAME=");
    reveal_strlit("-DCLAP_WRAPPER_AUV2_MANUFACTURER_CODE=");
    let arg = args[at];
    decimals_tell_numbers_apart(i as nat, 0);
    assert forall|name: Seq<char>| !(#[trigger] product_key(i, name)).is_prefix_of(arg) by {
        let key = product_key(i, name);
        if key.is_prefix_of(arg) {
            assert forall|k: int| 0 <= k < key.len() implies #[trigger] key[k] == arg[k] by {
                assert(arg.subrange(0, key.len() as int)[k] == arg[k]);
            }
            assert(key[0] == '-' && key[1] == 'D' && key[2] == 'C' && key[3] == 'L' && key[15]
                == 'B' && key[23] == 'P');
            assert(key[31] == decimal(i as nat)[0]);
            assert(is_digit(key[31]));
            let formats = format_args(build, inputs);
            let after = 12 + told.len() + formats.len();
            if at < 12 {
                assert(arg == common_args(build, inputs)[at]);
            } else if at == 12 {
                assert(arg == told[0]);
                assert(arg[31] == 'C');
            } else if at < after {
                assert(arg == formats[at - 12 - told.len()]);
            } else if inputs.platform == Platform::Macos && at < after + 4 {
                assert(arg == macos_args(inputs)[at - after]);
            } else {
                let last = generator_args(inputs.platform);
                assert(arg == last[args.len() - at - 1] || arg == last[0] || arg == last[1]);
            }
            assert(false);
        }
    }
}

proof fn lemma_count_comes_first(metadata: PluginMetadata, build: WrapperBuild, n: int)
    requires
        0 <= n <= metadata.plugins@.len(),
    ensures
        product_args(metadata, build, n).len() >= 1,
        product_args(metadata, build, n)[0] == "-DCLAP_WRAPPER_BUILDER_PRODUCT_COUNT="@ + decimal(
            metadata.plugins@.len(),
        ),
    decreases n,
{
    if n > 0 {
        lemma_count_comes_first(metadata, build, n - 1);
    }
}

// Whether CMake has to be configured again

/// A CMake file whose change makes a configuration stale: where it stands and when it was
/// modified, in nanoseconds.
#[derive(Debug)]
pub struct CmakeInput {
    pub relative_path: String,
    pub modified: String,
}

/// The lines that say when the first `n` CMake files were modified.
pub open spec fn input_lines(inputs: Seq<CmakeInput>, n: int) -> Seq<Seq<char>>
    decreases n,
{
    if n <= 0 {
        Seq::empty()
    } else {
        input_lines(inputs, n - 1).push(
            "cmake-input:"@ + inputs[n - 1].relative_path@ + ":"@ + inputs[n - 1].modified@,
        )
    }
}

/// What a configuration rests on: its arguments and the state of the CMake files, line by line.
pub open spec fn stamp_text(args: Seq<Seq<char>>, inputs: Seq<CmakeInput>) -> Seq<char> {
    joined(args + input_lines(inputs, inputs.len() as int), "\n"@)
}

/// What a configuration rests on.
pub fn cmake_configure_stamp(args: &Vec<String>, inputs: &Vec<CmakeInput>) -> (stamp: String)
    ensures
        stamp@ == stamp_text(texts(args@), inputs@),
{
    let mut lines: Vec<String> = Vec::new();
    let mut i: usize = 0;
    while i < args.len()
        invariant
            i <= args@.len(),
            lines@.len() == i,
            forall|k: int| 0 <= k < i ==> #[trigger] lines@[k]@ == args@[k]@,
        decreases args@.len() - i,
    {
        lines.push(args[i].clone());
        i += 1;
    }
    let ghost all = texts(args@);
    assert(texts(lines@) =~= all);
    assert(all + input_lines(inputs@, 0) =~= all);
    let mut k: usize = 0;
    while k < inputs.len()
        invariant
            k <= inputs@.len(),
            texts(lines@) == all + input_lines(inputs@, k as int),
        decreases inputs@.len() - k,
    {
        let ghost before = lines@;
        let mut line = join3("cmake-input:", inputs[k].relative_path.as_str(), ":");
        line.append(inputs[k].modified.as_str());
        lines.push(line);
        assert(texts(lines@) =~= texts(before).push(lines@.last()@));
        assert(texts(lines@) =~= all + input_lines(inputs@, k + 1));
        k += 1;
    }
    join(&lines, "\n")
}

/// Whether a configuration is current: CMake has been configured, and the stamp that was left
/// is the one of now. `stored` is the stamp that was left, or `None` where the cache or the
/// stamp is missing.
pub fn cmake_configure_is_current(
    stored: Option<&str>,
    args: &Vec<String>,
    inputs: &Vec<CmakeInput>,
) -> (current: bool)
    ensures
        current == (stored matches Some(text) && text@ == stamp_text(texts(args@), inputs@)),
{
    match stored {
        None => false,
        Some(text) => same_text(text, cmake_configure_stamp(args, inputs).as_str()),
    }
}

/// A configuration is stale once one of its arguments has changed.
pub proof fn a_changed_argument_makes_a_configuration_stale(
    args: Seq<Seq<char>>,
    inputs: Seq<CmakeInput>,
    i: int,
    changed: Seq<char>,
)
    requires
        0 <= i < args.len(),
        changed != args[i],
    ensures
        stamp_text(args.update(i, changed), inputs) != stamp_text(args, inputs),
{
    let lines = args + input_lines(inputs, inputs.len() as int);
    assert(args.update(i, changed) + input_lines(inputs, inputs.len() as int) =~= lines.update(
        i,
        changed,
    ));
    lemma_a_changed_line_shows(lines, lines.update(i, changed), i);
}

/// A configuration is stale once one of the CMake files has been modified.
pub proof fn a_modified_file_makes_a_configuration_stale(
    args: Seq<Seq<char>>,
    inputs: Seq<CmakeInput>,
    i: int,
    modified: CmakeInput,
)
    requires
        0 <= i < inputs.len(),
        modified.relative_path@ == inputs[i].relative_path@,
        modified.modified@ != inputs[i].modified@,
    ensures
        stamp_text(args, inputs.update(i, modified)) != stamp_text(args, inputs),
{
    let n = inputs.len() as int;
    let later = inputs.update(i, modified);
    lemma_input_lines(inputs, later, i, n);
    let lines = args + input_lines(inputs, n);
    let later_lines = args + input_lines(later, n);
    let at = args.len() + i;
    let front = "cmake-input:"@ + inputs[i].relative_path@ + ":"@;
    assert(lines[at] =~= front + inputs[i].modified@);
    assert(later_lines[at] =~= front + modified.modified@);
    if lines[at] == later_lines[at] {
        assert(inputs[i].modified@ =~= lines[at].skip(front.len() as int));
        assert(modified.modified@ =~= later_lines[at].skip(front.len() as int));
        assert(false);
    }
    lemma_a_changed_line_shows(lines, later_lines, at as int);
}

proof fn lemma_input_lines(before: Seq<CmakeInput>, after: Seq<CmakeInput>, i: int, n: int)
    requires
        0 <= n <= before.len(),
        before.len() == after.len(),
        forall|k: int| 0 <= k < before.len() && k != i ==> before[k] == after[k],
    ensures
        input_lines(before, n).len() == n,
        input_lines(after, n).len() == n,
        forall|k: int| 0 <= k < n && k != i ==> input_lines(before, n)[k] == input_lines(after, n)[k],
        0 <= i < n ==> input_lines(before, n)[i] == "cmake-input:"@ + before[i].relative_path@
            + ":"@ + before[i].modified@,
        0 <= i < n ==> input_lines(after, n)[i] == "cmake-input:"@ + after[i].relative_path@
            + ":"@ + after[i].modified@,
    decreases n,
{
    if n > 0 {
        lemma_input_lines(before, after, i, n - 1);
    }
}

proof fn lemma_a_changed_line_shows(before: Seq<Seq<char>>, after: Seq<Seq<char>>, i: int)
    requires
        before.len() == after.len(),
        0 <= i < before.len(),
        forall|k: int| 0 <= k < before.len() && k != i ==> before[k] == after[k],
        before[i] != after[i],
    ensures
        joined(before, "\n"@) != joined(after, "\n"@),
    decreases before.len(),
{
    let sep = "\n"@;
    let last = before.len() - 1;
    if before.len() > 1 {
        let front = joined(before.drop_last(), sep) + sep;
        let later = joined(after.drop_last(), sep) + sep;
        if joined(before, sep) == joined(after, sep) {
            if i == last {
                assert(before.drop_last() =~= after.drop_last());
                assert(before[i] =~= (front + before[i]).skip(front.len() as int));
                assert(after[i] =~= (later + after[i]).skip(later.len() as int));
            } else {
                lemma_a_changed_line_shows(before.drop_last(), after.drop_last(), i);
                assert((front + before[last]).len() == (later + after[last]).len());
                assert(front.len() == later.len());
                assert(front =~= (front + before[last]).take(front.len() as int));
                assert(later =~= (later + after[last]).take(later.len() as int));
                let a = joined(before.drop_last(), sep);
                let b = joined(after.drop_last(), sep);
                assert(a =~= front.take(front.len() - sep.len()));
                assert(b =~= later.take(later.len() - sep.len()));
            }
        }
    }
}

/// Builds are configured and made with the arguments that the laws above speak of, under their own
/// names, and are configured anew exactly where something has changed.
pub proof fn builds_are_made_with_their_arguments(
    build: WrapperBuild,
    inputs: WrapperInputs,
    args: Vec<String>,
    purpose: &str,
    base: String,
    target: WrapperTarget,
    targets: Vec<String>,
    files: Vec<(&'static str, &'static str)>,
    build_dir: &str,
    name: &str,
    make: Vec<String>,
)
    requires
        call_ensures(configure_wrapper, (build, &inputs), args),
        call_ensures(WrapperBuild::purpose, (build,), purpose),
        call_ensures(WrapperBuild::target_name_base, (build, &inputs.metadata), base),
        call_ensures(cmake_wrapper_targets, (&inputs.metadata, build, target), targets),
        call_ensures(ensure_wrapper_inputs, (build,), files),
        call_ensures(
            build_wrapper_target,
            (build_dir, name, inputs.profile, inputs.platform),
            make,
        ),
    ensures
        texts(args@) == configure_args(build, inputs),
        purpose@ == build.purpose_text(),
        base@ == build.target_base(inputs.metadata),
        texts(targets@) == cmake_targets(inputs.metadata, build, target),
        input_files_of(files@) == wrapper_input_files(build),
        texts(make@) == build_args(build_dir@, name@, inputs.profile, inputs.platform),
{
}

/// A configuration is current exactly where its stamp is the one that was stored; a standalone
/// application is built apart from the plugins and says so.
pub proof fn configurations_are_current_while_nothing_changes(
    stored: &str,
    args: Vec<String>,
    inputs: Vec<CmakeInput>,
    stamp: String,
    current: bool,
    missing: bool,
    build: WrapperBuild,
    rust: RustPluginBuild,
    label: &str,
)
    requires
        call_ensures(cmake_configure_stamp, (&args, &inputs), stamp),
        call_ensures(cmake_configure_is_current, (Some(stored), &args, &inputs), current),
        call_ensures(cmake_configure_is_current, (None, &args, &inputs), missing),
        call_ensures(WrapperBuild::rust_build, (build,), rust),
        call_ensures(RustPluginBuild::label, (rust,), label),
    ensures
        current <==> stored@ == stamp@,
        stamp@ == stamp_text(texts(args@), inputs@),
        !missing,
        rust is Standalone <==> build is Standalone,
        build is Standalone ==> label@ == "standalone"@,
        !(build is Standalone) ==> label@ == "default"@,
{
}

} // verus!

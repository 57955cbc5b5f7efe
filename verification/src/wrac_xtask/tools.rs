//! The tools that validation needs: where they are found, and how they are fetched and built.
//!
//! A place is given by the path that leads to it from a root, with `/` between its parts.

use vstd::prelude::*;

use crate::text::{
    chars_of, ends_with, error_of, join2, join3, same_text, string_of, texts, to_ascii_lowercase,
};
use crate::wrac_xtask::aax::names_of;
use crate::wrac_xtask::metadata::PluginMetadata;
use crate::wrac_xtask::targets::{BuildProfile, Platform};

verus! {

// Names of files

/// The extension of a file: what follows the last dot of its name, unless nothing comes before
/// that dot.
pub open spec fn extension_of(name: Seq<char>) -> Option<Seq<char>> {
    extension_from(name, name.len() as int)
}

/// The extension where no dot stands from position `end` on.
pub open spec fn extension_from(name: Seq<char>, end: int) -> Option<Seq<char>>
    decreases end,
{
    if end <= 1 {
        None
    } else if name[end - 1] == '.' {
        Some(name.skip(end))
    } else {
        extension_from(name, end - 1)
    }
}

/// The extension of a file.
pub fn file_extension(name: &str) -> (extension: Option<String>)
    ensures
        match extension {
            Some(text) => extension_of(name@) == Some(text@),
            None => extension_of(name@) is None,
        },
{
    let chars = chars_of(name);
    let mut end: usize = chars.len();
    while end > 1
        invariant
            end <= chars@.len(),
            chars@ == name@,
            extension_of(name@) == extension_from(name@, end as int),
        decreases end,
    {
        if chars[end - 1] == '.' {
            let extension = string_of(vstd::slice::slice_subrange(chars.as_slice(), end, chars.len()));
            assert(extension@ =~= name@.skip(end as int));
            return Some(extension);
        }
        end -= 1;
    }
    None
}

/// Whether an archive is a zip archive, by its name.
pub fn is_zip_archive(name: &str) -> (zip: bool)
    ensures
        zip == (extension_of(name@) matches Some(extension) && crate::text::lower(extension)
            == "zip"@),
{
    match file_extension(name) {
        Some(extension) => same_text(to_ascii_lowercase(extension.as_str()).as_str(), "zip"),
        None => false,
    }
}

/// Whether something in a bundle is a plugin that is signed on its own, by its name.
pub fn is_nested_clap(name: &str) -> (nested: bool)
    ensures
        nested == (extension_of(name@) == Some("clap"@)),
{
    match file_extension(name) {
        Some(extension) => same_text(extension.as_str(), "clap"),
        None => false,
    }
}

// Settings

/// What a setting that holds a path stands for.
#[derive(Debug, Clone, Copy, PartialEq, Eq, Structural)]
pub enum PathSetting {
    Unset,
    Absolute,
    /// The path starts at the root of the repository, wherever a tool runs.
    BelowRoot,
}

/// What a setting that holds a path stands for. An empty setting is none.
pub fn env_path(value: Option<&str>, is_absolute: bool) -> (setting: PathSetting)
    ensures
        setting == match value {
            None => PathSetting::Unset,
            Some(text) => if text@.len() == 0 {
                PathSetting::Unset
            } else if is_absolute {
                PathSetting::Absolute
            } else {
                PathSetting::BelowRoot
            },
        },
{
    match value {
        None => PathSetting::Unset,
        Some(text) => if text.is_empty() {
            PathSetting::Unset
        } else if is_absolute {
            PathSetting::Absolute
        } else {
            PathSetting::BelowRoot
        },
    }
}

/// What is said where the archive of the AAX validator is not set.
pub const AAX_ARCHIVE_UNSET: &'static str =
    "AAX validator/DSH archive not found. Set AAX_VALIDATOR_DSH_ARCHIVE in .env or the process environment.";

/// What is said where the AAX SDK is not set.
pub const AAX_SDK_UNSET: &'static str =
    "AAX SDK not found. Set AAX_SDK_ROOT in .env or the process environment.";

/// The archive or SDK that a setting names, or what is said of a missing one.
pub fn required_path(
    setting: PathSetting,
    present: bool,
    path: &str,
    description: &str,
    unset: &str,
) -> (result: Result<(), String>)
    ensures
        error_of(result) == if setting is Unset {
            Some(unset@)
        } else if present {
            None
        } else {
            Some(description@ + " not found: "@ + path@)
        },
{
    if setting == PathSetting::Unset {
        Err(unset.to_owned())
    } else if present {
        Ok(())
    } else {
        Err(join3(description, " not found: ", path))
    }
}

/// The value of a setting, or what stands in for it.
pub fn env_value_or(value: Option<&str>, fallback: &str) -> (result: String)
    ensures
        result@ == match value {
            Some(text) => text@,
            None => fallback@,
        },
{
    match value {
        Some(text) => text.to_owned(),
        None => fallback.to_owned(),
    }
}

// The AAX validator

/// Where the test runner of the AAX validator can be, in the order of preference.
pub open spec fn dtt_dirs() -> Seq<Seq<char>> {
    seq![
        "DigiShell/DTT"@,
        "DTT"@,
        "DigiShell/AAXValidatorResources/Tools/DTT"@,
        "AAXValidatorResources/Tools/DTT"@,
    ]
}

/// Where the test runner of the AAX validator can be, in the order of preference.
pub fn dtt_directories() -> (paths: Vec<&'static str>)
    ensures
        names_of(paths@) == dtt_dirs(),
{
    let mut paths: Vec<&'static str> = Vec::new();
    paths.push("DigiShell/DTT");
    paths.push("DTT");
    paths.push("DigiShell/AAXValidatorResources/Tools/DTT");
    paths.push("AAXValidatorResources/Tools/DTT");
    assert(names_of(paths@) =~= dtt_dirs());
    paths
}

/// The name of the test runner.
pub open spec fn runner_name(platform: Platform) -> Seq<char> {
    if platform is Windows {
        "run_test.bat"@
    } else {
        "run_test.command"@
    }
}

/// The places where the test runner can be.
pub open spec fn runner_places(platform: Platform) -> Seq<Seq<char>> {
    dtt_dirs().map_values(|dir: Seq<char>| dir + "/"@ + runner_name(platform))
}

/// The places where the test runner can be, in the order of preference.
pub fn aax_validator_dtt_runners(platform: Platform) -> (paths: Vec<String>)
    ensures
        texts(paths@) == runner_places(platform),
{
    let runner = if platform == Platform::Windows {
        "run_test.bat"
    } else {
        "run_test.command"
    };
    let directories = dtt_directories();
    let mut paths: Vec<String> = Vec::new();
    let mut i: usize = 0;
    while i < directories.len()
        invariant
            i <= directories@.len(),
            names_of(directories@) == dtt_dirs(),
            runner@ == runner_name(platform),
            texts(paths@) == runner_places(platform).take(i as int),
        decreases directories@.len() - i,
    {
        let ghost before = paths@;
        paths.push(join3(directories[i], "/", runner));
        i += 1;
        proof {
            assert(texts(paths@) =~= texts(before).push(paths@.last()@));
            assert(names_of(directories@)[i - 1] == directories@[i - 1]@);
            let all = runner_places(platform);
            assert(all.take(i as int) =~= all.take(i - 1).push(all[i - 1]));
        }
    }
    assert(names_of(directories@).len() == directories@.len());
    assert(texts(paths@) =~= runner_places(platform));
    paths
}

/// The first place from `i` on that is there.
pub open spec fn first_present(present: Seq<bool>, i: int) -> Option<int>
    decreases present.len() - i,
{
    if i < 0 || i >= present.len() {
        None
    } else if present[i] {
        Some(i)
    } else {
        first_present(present, i + 1)
    }
}

/// Which of the places of the test runner is used, by which of them are there, or what is said
/// where none is.
pub fn aax_validator_dtt_runner(present: &[bool], root: &str) -> (result: Result<usize, String>)
    ensures
        match first_present(present@, 0) {
            Some(i) => result == Ok::<usize, String>(i as usize) && 0 <= i < present@.len(),
            None => result matches Err(message) && message@
                == "AAX validator DTT runner not found under "@ + root@,
        },
{
    let mut i: usize = 0;
    while i < present.len()
        invariant
            i <= present@.len(),
            first_present(present@, 0) == first_present(present@, i as int),
        decreases present@.len() - i,
    {
        if present[i] {
            return Ok(i);
        }
        i += 1;
    }
    Err(join2("AAX validator DTT runner not found under ", root))
}

/// The scripts that run all tests; each that is there is patched.
pub open spec fn run_all_scripts() -> Seq<Seq<char>> {
    seq![
        "DigiShell/DTT/sources/scripts/ValidatorRunAllTests.rb"@,
        "DTT/sources/scripts/ValidatorRunAllTests.rb"@,
        "DigiShell/AAXValidatorResources/Tools/DTT/sources/scripts/ValidatorRunAllTests.rb"@,
        "AAXValidatorResources/Tools/DTT/sources/scripts/ValidatorRunAllTests.rb"@,
    ]
}

/// The scripts that run all tests; each that is there is patched.
pub fn run_all_tests_scripts() -> (paths: Vec<&'static str>)
    ensures
        names_of(paths@) == run_all_scripts(),
{
    let mut paths: Vec<&'static str> = Vec::new();
    paths.push("DigiShell/DTT/sources/scripts/ValidatorRunAllTests.rb");
    paths.push("DTT/sources/scripts/ValidatorRunAllTests.rb");
    paths.push("DigiShell/AAXValidatorResources/Tools/DTT/sources/scripts/ValidatorRunAllTests.rb");
    paths.push("AAXValidatorResources/Tools/DTT/sources/scripts/ValidatorRunAllTests.rb");
    assert(names_of(paths@) =~= run_all_scripts());
    paths
}

/// Where the scripts are that look for a bundle.
pub open spec fn bundle_path_dirs() -> Seq<Seq<char>> {
    seq![
        "DTT/sources/scripts"@,
        "DigiShell/DTT/sources/scripts"@,
        "AAXValidatorResources/Tools/DTT/sources/scripts"@,
        "Frameworks/AAXValidatorResources/Tools/DTT/sources/scripts"@,
        "DigiShell/AAXValidatorResources/Tools/DTT/sources/scripts"@,
    ]
}

/// Where the scripts are that look for a bundle.
pub fn bundle_path_script_directories() -> (paths: Vec<&'static str>)
    ensures
        names_of(paths@) == bundle_path_dirs(),
{
    let mut paths: Vec<&'static str> = Vec::new();
    paths.push("DTT/sources/scripts");
    paths.push("DigiShell/DTT/sources/scripts");
    paths.push("AAXValidatorResources/Tools/DTT/sources/scripts");
    paths.push("Frameworks/AAXValidatorResources/Tools/DTT/sources/scripts");
    paths.push("DigiShell/AAXValidatorResources/Tools/DTT/sources/scripts");
    assert(names_of(paths@) =~= bundle_path_dirs());
    paths
}

/// The scripts that look for a bundle; each that is there is patched.
pub open spec fn bundle_path_names() -> Seq<Seq<char>> {
    seq![
        "DSH_AAXVAL_Support_IDs.rb"@,
        "DSH_AAXVAL_Support_General.rb"@,
        "DSH_AAXVAL_Data_Model.rb"@,
    ]
}

/// The scripts that look for a bundle; each that is there is patched.
pub fn bundle_path_scripts() -> (paths: Vec<&'static str>)
    ensures
        names_of(paths@) == bundle_path_names(),
{
    let mut paths: Vec<&'static str> = Vec::new();
    paths.push("DSH_AAXVAL_Support_IDs.rb");
    paths.push("DSH_AAXVAL_Support_General.rb");
    paths.push("DSH_AAXVAL_Data_Model.rb");
    assert(names_of(paths@) =~= bundle_path_names());
    paths
}

/// The configurations of the validator; each that is there is normalized.
pub open spec fn main_config_places() -> Seq<Seq<char>> {
    seq![
        "DigiShell/AAXValidatorResources/Main.valconfig"@,
        "AAXValidatorResources/Main.valconfig"@,
        "Frameworks/AAXValidator.framework/Versions/A/Resources/Main.valconfig"@,
    ]
}

/// The configurations of the validator; each that is there is normalized.
pub fn main_configs() -> (paths: Vec<&'static str>)
    ensures
        names_of(paths@) == main_config_places(),
{
    let mut paths: Vec<&'static str> = Vec::new();
    paths.push("DigiShell/AAXValidatorResources/Main.valconfig");
    paths.push("AAXValidatorResources/Main.valconfig");
    paths.push("Frameworks/AAXValidator.framework/Versions/A/Resources/Main.valconfig");
    assert(names_of(paths@) =~= main_config_places());
    paths
}

/// The script that tells the validator of the system.
pub const SYSINFO_SCRIPT: &'static str = "DTT/sources/classes/SysInfo.rb";

/// Tests that do not run, each with the reason.
pub open spec fn skipped_tests() -> Seq<(Seq<char>, Seq<char>)> {
    seq![
        (
            "test.cycle_counts"@,
            "targets DSP/HDX cycle-count validation, which is outside this native local build target"@,
        ),
        (
            "test.page_table.load"@,
            "requires page-table XML resources, which this template does not generate"@,
        ),
    ]
}

/// Tests that do not run, each with the reason.
pub fn aax_validator_skipped_tests() -> (tests: Vec<(&'static str, &'static str)>)
    ensures
        crate::wrac_xtask::wrapper::input_files_of(tests@) == skipped_tests(),
{
    let mut tests: Vec<(&'static str, &'static str)> = Vec::new();
    tests.push(
        (
            "test.cycle_counts",
            "targets DSP/HDX cycle-count validation, which is outside this native local build target",
        ),
    );
    tests.push(
        (
            "test.page_table.load",
            "requires page-table XML resources, which this template does not generate",
        ),
    );
    assert(crate::wrac_xtask::wrapper::input_files_of(tests@) =~= skipped_tests());
    tests
}

fn unpack_command(archive: &str, root: &str) -> (command: String)
    ensures
        command@ == "Expand-Archive -LiteralPath '"@ + archive@ + "' -DestinationPath '"@ + root@
            + "' -Force"@,
{
    let mut command = join3("Expand-Archive -LiteralPath '", archive, "' -DestinationPath '");
    command.append(root);
    command.append("' -Force");
    command
}

/// The arguments by which PowerShell unpacks the archive of the AAX validator.
pub fn dsh_zip_args(archive: &str, root: &str) -> (args: Vec<String>)
    ensures
        texts(args@) == seq![
            "-NoProfile"@,
            "-Command"@,
            "Expand-Archive -LiteralPath '"@ + archive@ + "' -DestinationPath '"@ + root@ + "' -Force"@,
        ],
{
    let mut args: Vec<String> = Vec::new();
    args.push("-NoProfile".to_owned());
    args.push("-Command".to_owned());
    args.push(unpack_command(archive, root));
    assert(texts(args@) =~= seq![
        "-NoProfile"@,
        "-Command"@,
        "Expand-Archive -LiteralPath '"@ + archive@ + "' -DestinationPath '"@ + root@ + "' -Force"@,
    ]);
    args
}

/// The arguments by which tar unpacks the archive of the AAX validator.
pub fn dsh_tar_args(archive: &str, root: &str) -> (args: Vec<String>)
    ensures
        texts(args@) == seq![
            "-xf"@,
            archive@,
            "--strip-components=1"@,
            "-C"@,
            root@,
        ],
{
    let mut args: Vec<String> = Vec::new();
    args.push("-xf".to_owned());
    args.push(archive.to_owned());
    args.push("--strip-components=1".to_owned());
    args.push("-C".to_owned());
    args.push(root.to_owned());
    assert(texts(args@) =~= seq![
        "-xf"@,
        archive@,
        "--strip-components=1"@,
        "-C"@,
        root@,
    ]);
    args
}

/// Whether the test runner is patched, by its name: only the one for macOS splits its arguments
/// anew.
pub fn is_patched_runner(name: &str) -> (patched: bool)
    ensures
        patched == (name@ == "run_test.command"@),
{
    same_text(name, "run_test.command")
}

/// Whether a file of the validator's logs is shown.
pub fn is_shown_log(name: &str) -> (shown: bool)
    ensures
        shown == ".txt"@.is_suffix_of(name@),
{
    ends_with(name, ".txt")
}

// The CLAP validator

/// A step by which a tool is made ready.
#[derive(Debug, Clone, Copy, PartialEq, Eq, Structural)]
pub enum ToolStep {
    Download,
    Unpack,
    /// The tool has to be there now.
    EnsureTool,
    MakeExecutable,
}

/// The steps by which the CLAP validator is made ready: none where it is there, and no download
/// where its archive is.
pub open spec fn clap_validator_steps(
    platform: Platform,
    validator_present: bool,
    archive_present: bool,
) -> Seq<ToolStep> {
    if validator_present {
        Seq::empty()
    } else {
        (if archive_present {
            Seq::empty()
        } else {
            seq![ToolStep::Download]
        }) + seq![ToolStep::Unpack, ToolStep::EnsureTool] + (if platform is Windows {
            Seq::empty()
        } else {
            seq![ToolStep::MakeExecutable]
        })
    }
}

/// The steps by which the CLAP validator is made ready.
pub fn ensure_clap_validator(
    platform: Platform,
    validator_present: bool,
    archive_present: bool,
) -> (steps: Vec<ToolStep>)
    ensures
        steps@ == clap_validator_steps(platform, validator_present, archive_present),
{
    let mut steps: Vec<ToolStep> = Vec::new();
    if !validator_present {
        if !archive_present {
            steps.push(ToolStep::Download);
        }
        steps.push(ToolStep::Unpack);
        steps.push(ToolStep::EnsureTool);
        if platform != Platform::Windows {
            steps.push(ToolStep::MakeExecutable);
        }
    }
    assert(steps@ =~= clap_validator_steps(platform, validator_present, archive_present));
    steps
}

/// The arguments by which curl fetches an archive.
pub fn download_args(archive: &str, url: &str) -> (args: Vec<String>)
    ensures
        texts(args@) == seq![
            "-L"@,
            "--fail"@,
            "-o"@,
            archive@,
            url@,
        ],
{
    let mut args: Vec<String> = Vec::new();
    args.push("-L".to_owned());
    args.push("--fail".to_owned());
    args.push("-o".to_owned());
    args.push(archive.to_owned());
    args.push(url.to_owned());
    assert(texts(args@) =~= seq![
        "-L"@,
        "--fail"@,
        "-o"@,
        archive@,
        url@,
    ]);
    args
}

fn unpack_flag(archive_name: &str) -> (flag: &'static str)
    ensures
        flag@ == if ".zip"@.is_suffix_of(archive_name@) {
            "-xf"@
        } else {
            "-xzf"@
        },
{
    if ends_with(archive_name, ".zip") {
        "-xf"
    } else {
        "-xzf"
    }
}

/// The arguments by which tar unpacks the archive of the CLAP validator.
pub fn unpack_args(archive: &str, archive_name: &str, directory: &str) -> (args: Vec<String>)
    ensures
        texts(args@) == seq![
            (if ".zip"@.is_suffix_of(archive_name@) {
                "-xf"@
            } else {
                "-xzf"@
            }),
            archive@,
            "-C"@,
            directory@,
        ],
{
    let mut args: Vec<String> = Vec::new();
    args.push(unpack_flag(archive_name).to_owned());
    args.push(archive.to_owned());
    args.push("-C".to_owned());
    args.push(directory.to_owned());
    assert(texts(args@) =~= seq![
        (if ".zip"@.is_suffix_of(archive_name@) {
                "-xf"@
            } else {
                "-xzf"@
            }),
        archive@,
        "-C"@,
        directory@,
    ]);
    args
}

// The VST3 validator

/// Where a built VST3 validator is: some generators make a directory for each configuration.
#[derive(Debug, Clone, Copy, PartialEq, Eq, Structural)]
pub enum Vst3Validator {
    WithConfiguration,
    WithoutConfiguration,
}

/// Which VST3 validator is used, by which are there. Without one, it is built.
pub fn vst3_validator_to_use(with_configuration: bool, without_configuration: bool) -> (validator:
    Option<Vst3Validator>)
    ensures
        validator == if with_configuration {
            Some(Vst3Validator::WithConfiguration)
        } else if without_configuration {
            Some(Vst3Validator::WithoutConfiguration)
        } else {
            None
        },
{
    if with_configuration {
        Some(Vst3Validator::WithConfiguration)
    } else if without_configuration {
        Some(Vst3Validator::WithoutConfiguration)
    } else {
        None
    }
}

/// Where a VST3 validator is, below the target directory.
pub fn vst3_validator_path(platform: Platform, validator: Vst3Validator) -> (path: String)
    ensures
        path@ == "vst3sdk-validator/bin/"@ + (if validator is WithConfiguration {
            "Debug/"@
        } else {
            ""@
        }) + (if platform is Windows {
            "validator.exe"@
        } else {
            "validator"@
        }),
{
    let directory = match validator {
        Vst3Validator::WithConfiguration => "Debug/",
        Vst3Validator::WithoutConfiguration => "",
    };
    let executable = if platform == Platform::Windows {
        "validator.exe"
    } else {
        "validator"
    };
    join3("vst3sdk-validator/bin/", directory, executable)
}

// The frontend

/// What becomes of the frontend in a build.
#[derive(Debug, Clone, Copy, PartialEq, Eq, Structural)]
pub enum FrontendBuild {
    /// There is no frontend.
    NoPackage,
    /// The frontend has nothing to build.
    NoBuildScript,
    Build,
}

/// What becomes of the frontend in a build, by its package manifest.
pub fn build_gui(package_json: Option<&[u8]>) -> (result: Result<FrontendBuild, String>)
    ensures
        match package_json {
            None => result == Ok::<FrontendBuild, String>(FrontendBuild::NoPackage),
            Some(content) => match crate::wrac_xtask::package::json_nested_text(
                content@,
                "scripts"@,
                "build"@,
            ) {
                Ok(script) => result == Ok::<FrontendBuild, String>(
                    if script is Some {
                        FrontendBuild::Build
                    } else {
                        FrontendBuild::NoBuildScript
                    },
                ),
                Err(message) => result matches Err(error) && error@ == message,
            },
        },
{
    match package_json {
        None => Ok(FrontendBuild::NoPackage),
        Some(content) => match crate::wrac_xtask::package::has_package_script(content, "build") {
            Ok(found) => if found {
                Ok(FrontendBuild::Build)
            } else {
                Ok(FrontendBuild::NoBuildScript)
            },
            Err(message) => Err(message),
        },
    }
}

// The library of a bundle

/// Where the library of the CLAP bundle is: on macOS inside the bundle, elsewhere it is the
/// bundle.
pub fn clap_library_path(platform: Platform, bundle: &str, bundle_name: &str) -> (path: String)
    ensures
        path@ == if platform is Macos {
            bundle@ + "/Contents/MacOS/"@ + bundle_name@
        } else {
            bundle@
        },
{
    if platform == Platform::Macos {
        join3(bundle, "/Contents/MacOS/", bundle_name)
    } else {
        bundle.to_owned()
    }
}

// Launching

/// What is said where there is nothing to launch.
pub fn missing_launch_artifact(path: &str, package: &str, profile: BuildProfile) -> (message: String)
    ensures
        message@ == "standalone artifact not found: "@ + path@ + "\nRun `cargo xtask build -p "@
            + package@ + " --target=standalone"@ + (if profile is Release {
            " --release"@
        } else {
            ""@
        }) + "` first."@,
{
    let mut message = join3("standalone artifact not found: ", path, "\nRun `cargo xtask build -p ");
    message.append(package);
    message.append(" --target=standalone");
    message.append(
        match profile {
            BuildProfile::Release => " --release",
            BuildProfile::Debug => "",
        },
    );
    message.append("` first.");
    message
}

/// The command that launches an application, its program first.
pub fn launch_command(platform: Platform, artifact: &str) -> (parts: Vec<String>)
    ensures
        texts(parts@) == if platform is Macos {
            seq!["open"@, "-W"@, "-n"@, artifact@]
        } else {
            seq![artifact@]
        },
{
    let mut parts: Vec<String> = Vec::new();
    if platform == Platform::Macos {
        parts.push("open".to_owned());
        parts.push("-W".to_owned());
        parts.push("-n".to_owned());
    }
    parts.push(artifact.to_owned());
    assert(texts(parts@) =~= if platform is Macos {
        seq!["open"@, "-W"@, "-n"@, artifact@]
    } else {
        seq![artifact@]
    });
    parts
}

// Audio Units of before

/// The names of the bundles that a product once had, one for each plugin. They are removed
/// before the bundle that holds all plugins is installed.
pub fn stale_au_bundles(metadata: &PluginMetadata) -> (names: Vec<String>)
    ensures
        names@.len() == metadata.plugins@.len(),
        forall|i: int|
            0 <= i < names@.len() ==> (#[trigger] names@[i])@ == metadata.plugins@[i].plugin_name@
                + ".component"@,
{
    let mut names: Vec<String> = Vec::new();
    let mut i: usize = 0;
    while i < metadata.plugins.len()
        invariant
            i <= metadata.plugins@.len(),
            names@.len() == i,
            forall|j: int|
                0 <= j < i ==> (#[trigger] names@[j])@ == metadata.plugins@[j].plugin_name@
                    + ".component"@,
        decreases metadata.plugins@.len() - i,
    {
        names.push(join2(metadata.plugins[i].plugin_name.as_str(), ".component"));
        i += 1;
    }
    names
}

proof fn lemma_extension_from(stem: Seq<char>, extension: Seq<char>, end: int)
    requires
        stem.len() > 0,
        !extension.contains('.'),
        stem.len() < end <= stem.len() + 1 + extension.len(),
    ensures
        extension_from(stem.push('.') + extension, end) == Some(extension),
    decreases end,
{
    let name = stem.push('.') + extension;
    if end == stem.len() + 1 {
        assert(name[end - 1] == '.');
        assert(name.skip(end) =~= extension);
    } else {
        assert(name[end - 1] == extension[end - 2 - stem.len()]);
        assert(extension.contains(extension[end - 2 - stem.len()]));
        lemma_extension_from(stem, extension, end - 1);
    }
}

proof fn lemma_no_extension(name: Seq<char>, end: int)
    requires
        end <= name.len(),
        forall|i: int| 1 <= i < name.len() ==> name[i] != '.',
    ensures
        extension_from(name, end) is None,
    decreases end,
{
    if end > 1 {
        lemma_no_extension(name, end - 1);
    }
}

/// A file has as its extension what follows the last dot of its name. A name without a dot has
/// none, nor has one that only starts with a dot.
pub proof fn extensions_follow_the_last_dot(stem: Seq<char>, extension: Seq<char>, bare: Seq<char>)
    requires
        stem.len() > 0,
        !extension.contains('.'),
        forall|i: int| 1 <= i < bare.len() ==> bare[i] != '.',
    ensures
        extension_of(stem.push('.') + extension) == Some(extension),
        extension_of(bare) is None,
{
    lemma_extension_from(stem, extension, (stem.len() + 1 + extension.len()) as int);
    lemma_no_extension(bare, bare.len() as int);
}

/// An archive is known as a zip archive by its extension, in any case; a nested plugin by its own,
/// as it is written.
pub proof fn files_are_known_by_their_extension(
    name: &str,
    stem: Seq<char>,
    extension: Seq<char>,
    zip: bool,
    nested: bool,
)
    requires
        name@ == stem.push('.') + extension,
        stem.len() > 0,
        !extension.contains('.'),
        call_ensures(is_zip_archive, (name,), zip),
        call_ensures(is_nested_clap, (name,), nested),
    ensures
        zip <==> crate::text::lower(extension) == "zip"@,
        nested <==> extension == "clap"@,
{
    extensions_follow_the_last_dot(stem, extension, Seq::empty());
}

/// A setting that is missing or empty is none; any other names a path, from the root of the
/// repository on unless it is absolute. What it names has to be there.
pub proof fn settings_name_paths(
    value: Option<&str>,
    is_absolute: bool,
    setting: PathSetting,
    present: bool,
    path: &str,
    description: &str,
    unset: &str,
    result: Result<(), String>,
)
    requires
        call_ensures(env_path, (value, is_absolute), setting),
        call_ensures(required_path, (setting, present, path, description, unset), result),
    ensures
        setting is Unset <==> value is None || value->Some_0@.len() == 0,
        setting is Absolute ==> is_absolute,
        setting is BelowRoot ==> !is_absolute,
        result is Ok <==> !(setting is Unset) && present,
        setting is Unset ==> result->Err_0@ == unset@,
        !(setting is Unset) && !present ==> result->Err_0@ == description@ + " not found: "@ + path@,
{
}

/// A value that is set is taken as it is, and what stands in for it only where none is.
pub proof fn values_come_before_their_fallback(
    value: &str,
    fallback: &str,
    set: String,
    missing: String,
)
    requires
        call_ensures(env_value_or, (Some(value), fallback), set),
        call_ensures(env_value_or, (None, fallback), missing),
    ensures
        set@ == value@,
        missing@ == fallback@,
{
}

proof fn lemma_first_present(present: Seq<bool>, i: int)
    requires
        0 <= i <= present.len(),
    ensures
        match first_present(present, i) {
            Some(k) => i <= k < present.len() && present[k] && forall|j: int|
                i <= j < k ==> !(#[trigger] present[j]),
            None => forall|j: int| i <= j < present.len() ==> !(#[trigger] present[j]),
        },
    decreases present.len() - i,
{
    if i < present.len() && !present[i] {
        lemma_first_present(present, i + 1);
    }
}

/// The runner that is used is there, and none of those before it is; it is missing exactly where
/// none is there.
pub proof fn the_first_runner_that_is_there_is_used(
    present: &[bool],
    root: &str,
    result: Result<usize, String>,
)
    requires
        call_ensures(aax_validator_dtt_runner, (present, root), result),
        present@.len() <= usize::MAX,
    ensures
        result is Err <==> forall|j: int| 0 <= j < present@.len() ==> !(#[trigger] present@[j]),
        result matches Ok(i) ==> i < present@.len() && present@[i as int] && forall|j: int|
            0 <= j < i ==> !(#[trigger] present@[j]),
        result matches Err(message) ==> message@ == "AAX validator DTT runner not found under "@
            + root@,
{
    lemma_first_present(present@, 0);
}

/// The runner is looked for in the directories of the test tool, in their order, under the name
/// that it has on the platform.
pub proof fn runners_are_looked_for_in_order(
    platform: Platform,
    directories: Vec<&'static str>,
    runners: Vec<String>,
    i: int,
)
    requires
        call_ensures(dtt_directories, (), directories),
        call_ensures(aax_validator_dtt_runners, (platform,), runners),
        0 <= i < directories@.len(),
    ensures
        directories@.len() == 4,
        runners@.len() == directories@.len(),
        directories@[0]@ == "DigiShell/DTT"@,
        directories@[1]@ == "DTT"@,
        directories@[2]@ == "DigiShell/AAXValidatorResources/Tools/DTT"@,
        directories@[3]@ == "AAXValidatorResources/Tools/DTT"@,
        platform is Windows ==> runners@[i]@ == directories@[i]@ + "/"@ + "run_test.bat"@,
        !(platform is Windows) ==> runners@[i]@ == directories@[i]@ + "/"@ + "run_test.command"@,
{
    assert(names_of(directories@).len() == directories@.len());
    assert(names_of(directories@)[0] == directories@[0]@);
    assert(names_of(directories@)[1] == directories@[1]@);
    assert(names_of(directories@)[2] == directories@[2]@);
    assert(names_of(directories@)[3] == directories@[3]@);
    assert(names_of(directories@)[i] == directories@[i]@);
    assert(texts(runners@).len() == runners@.len());
    assert(texts(runners@)[i] == runners@[i]@);
    assert(runner_places(platform)[i] == dtt_dirs()[i] + "/"@ + runner_name(platform));
}

/// Every script that runs all tests lies in a directory of the test tool.
pub proof fn scripts_lie_with_the_test_tool(
    directories: Vec<&'static str>,
    scripts: Vec<&'static str>,
)
    requires
        call_ensures(dtt_directories, (), directories),
        call_ensures(run_all_tests_scripts, (), scripts),
    ensures
        scripts@.len() == directories@.len(),
        scripts@[0]@ == "DigiShell/DTT/sources/scripts/ValidatorRunAllTests.rb"@,
        scripts@[1]@ == "DTT/sources/scripts/ValidatorRunAllTests.rb"@,
        scripts@[2]@
            == "DigiShell/AAXValidatorResources/Tools/DTT/sources/scripts/ValidatorRunAllTests.rb"@,
        scripts@[3]@
            == "AAXValidatorResources/Tools/DTT/sources/scripts/ValidatorRunAllTests.rb"@,
{
    assert(names_of(scripts@).len() == scripts@.len());
    assert(names_of(scripts@)[0] == scripts@[0]@);
    assert(names_of(scripts@)[1] == scripts@[1]@);
    assert(names_of(scripts@)[2] == scripts@[2]@);
    assert(names_of(scripts@)[3] == scripts@[3]@);
    assert(names_of(directories@).len() == directories@.len());
}

/// The scripts that look for a bundle and the configurations are found where the validator has
/// them.
pub proof fn patched_files_are_found_where_they_are(
    directories: Vec<&'static str>,
    scripts: Vec<&'static str>,
    configs: Vec<&'static str>,
)
    requires
        call_ensures(bundle_path_script_directories, (), directories),
        call_ensures(bundle_path_scripts, (), scripts),
        call_ensures(main_configs, (), configs),
    ensures
        directories@.len() == 5,
        directories@[0]@ == "DTT/sources/scripts"@,
        directories@[1]@ == "DigiShell/DTT/sources/scripts"@,
        directories@[2]@ == "AAXValidatorResources/Tools/DTT/sources/scripts"@,
        directories@[3]@ == "Frameworks/AAXValidatorResources/Tools/DTT/sources/scripts"@,
        directories@[4]@ == "DigiShell/AAXValidatorResources/Tools/DTT/sources/scripts"@,
        scripts@.len() == 3,
        scripts@[0]@ == "DSH_AAXVAL_Support_IDs.rb"@,
        scripts@[1]@ == "DSH_AAXVAL_Support_General.rb"@,
        scripts@[2]@ == "DSH_AAXVAL_Data_Model.rb"@,
        configs@.len() == 3,
        configs@[0]@ == "DigiShell/AAXValidatorResources/Main.valconfig"@,
        configs@[1]@ == "AAXValidatorResources/Main.valconfig"@,
        configs@[2]@ == "Frameworks/AAXValidator.framework/Versions/A/Resources/Main.valconfig"@,
{
    assert(names_of(directories@).len() == directories@.len());
    assert(names_of(directories@)[0] == directories@[0]@);
    assert(names_of(directories@)[1] == directories@[1]@);
    assert(names_of(directories@)[2] == directories@[2]@);
    assert(names_of(directories@)[3] == directories@[3]@);
    assert(names_of(directories@)[4] == directories@[4]@);
    assert(names_of(scripts@).len() == scripts@.len());
    assert(names_of(scripts@)[0] == scripts@[0]@);
    assert(names_of(scripts@)[1] == scripts@[1]@);
    assert(names_of(scripts@)[2] == scripts@[2]@);
    assert(names_of(configs@).len() == configs@.len());
    assert(names_of(configs@)[0] == configs@[0]@);
    assert(names_of(configs@)[1] == configs@[1]@);
    assert(names_of(configs@)[2] == configs@[2]@);
}

/// Two tests do not run: one that needs a signal processor, and one that needs page tables.
pub proof fn two_tests_do_not_run(tests: Vec<(&'static str, &'static str)>)
    requires
        call_ensures(aax_validator_skipped_tests, (), tests),
    ensures
        tests@.len() == 2,
        tests@[0].0@ == "test.cycle_counts"@,
        tests@[1].0@ == "test.page_table.load"@,
{
    let shown = crate::wrac_xtask::wrapper::input_files_of(tests@);
    assert(shown.len() == tests@.len());
    assert(shown[0] == (tests@[0].0@, tests@[0].1@));
    assert(shown[1] == (tests@[1].0@, tests@[1].1@));
}

/// An archive is unpacked from where it is to where it is asked for, by either tool.
pub proof fn archives_are_unpacked_where_asked(
    archive: &str,
    root: &str,
    zip: Vec<String>,
    tar: Vec<String>,
)
    requires
        call_ensures(dsh_zip_args, (archive, root), zip),
        call_ensures(dsh_tar_args, (archive, root), tar),
    ensures
        zip@.len() == 3,
        zip@[0]@ == "-NoProfile"@,
        zip@[1]@ == "-Command"@,
        zip@[2]@ == "Expand-Archive -LiteralPath '"@ + archive@ + "' -DestinationPath '"@ + root@
            + "' -Force"@,
        tar@.len() == 5,
        tar@[0]@ == "-xf"@,
        tar@[1]@ == archive@,
        tar@[2]@ == "--strip-components=1"@,
        tar@[3]@ == "-C"@,
        tar@[4]@ == root@,
{
    assert(texts(zip@).len() == zip@.len());
    assert(texts(zip@)[0] == zip@[0]@);
    assert(texts(zip@)[1] == zip@[1]@);
    assert(texts(zip@)[2] == zip@[2]@);
    assert(texts(tar@).len() == tar@.len());
    assert(texts(tar@)[0] == tar@[0]@);
    assert(texts(tar@)[1] == tar@[1]@);
    assert(texts(tar@)[2] == tar@[2]@);
    assert(texts(tar@)[3] == tar@[3]@);
    assert(texts(tar@)[4] == tar@[4]@);
}

/// Only the runner of macOS is patched, and only logs that are text are shown.
pub proof fn runners_and_logs_are_known_by_name(name: &str, patched: bool, shown: bool)
    requires
        call_ensures(is_patched_runner, (name,), patched),
        call_ensures(is_shown_log, (name,), shown),
    ensures
        patched <==> name@ == runner_name(Platform::Macos),
        patched ==> name@ != runner_name(Platform::Windows),
        name@ == "run_test.command"@ ==> patched,
        shown <==> name@.len() >= 4 && name@.skip(name@.len() - 4) == ".txt"@,
{
    reveal_strlit("run_test.command");
    reveal_strlit("run_test.bat");
    assert("run_test.command"@.len() == 16 && "run_test.bat"@.len() == 12);
    reveal_strlit(".txt");
    assert(".txt"@.len() == 4);
    if name@.len() >= 4 {
        assert(name@.skip(name@.len() - 4) =~= name@.subrange(name@.len() - 4, name@.len() as int));
    }
}

/// A validator that is there is left as it is. Else it is unpacked, from an archive that is fetched
/// only where it is missing, and has to be there afterwards; where systems mark programs, it is
/// marked last.
pub proof fn validators_are_fetched_only_where_missing(
    platform: Platform,
    validator_present: bool,
    archive_present: bool,
    steps: Vec<ToolStep>,
)
    requires
        call_ensures(ensure_clap_validator, (platform, validator_present, archive_present), steps),
    ensures
        validator_present ==> steps@.len() == 0,
        steps@.no_duplicates(),
        !validator_present ==> {
            let first: int = if archive_present {
                0
            } else {
                1
            };
            &&& !archive_present ==> steps@[0] is Download
            &&& steps@[first] is Unpack
            &&& steps@[first + 1] is EnsureTool
            &&& platform is Windows ==> steps@.len() == first + 2
            &&& !(platform is Windows) ==> steps@.len() == first + 3 && steps@.last()
                is MakeExecutable
        },
{
}

/// An archive is fetched from its address to its place, and unpacked from there: a zip archive
/// without a compression of its own, any other with one.
pub proof fn archives_are_fetched_and_unpacked(
    archive: &str,
    url: &str,
    name: &str,
    directory: &str,
    fetch: Vec<String>,
    unpack: Vec<String>,
)
    requires
        call_ensures(download_args, (archive, url), fetch),
        call_ensures(unpack_args, (archive, name, directory), unpack),
    ensures
        fetch@.len() == 5,
        fetch@[0]@ == "-L"@,
        fetch@[1]@ == "--fail"@,
        fetch@[2]@ == "-o"@,
        fetch@[3]@ == archive@,
        fetch@[4]@ == url@,
        unpack@.len() == 4,
        ".zip"@.is_suffix_of(name@) ==> unpack@[0]@ == "-xf"@,
        !".zip"@.is_suffix_of(name@) ==> unpack@[0]@ == "-xzf"@,
        unpack@[1]@ == archive@,
        unpack@[2]@ == "-C"@,
        unpack@[3]@ == directory@,
{
    assert(texts(fetch@).len() == fetch@.len());
    assert(texts(fetch@)[0] == fetch@[0]@);
    assert(texts(fetch@)[1] == fetch@[1]@);
    assert(texts(fetch@)[2] == fetch@[2]@);
    assert(texts(fetch@)[3] == fetch@[3]@);
    assert(texts(fetch@)[4] == fetch@[4]@);
    assert(texts(unpack@).len() == unpack@.len());
    assert(texts(unpack@)[0] == unpack@[0]@);
    assert(texts(unpack@)[1] == unpack@[1]@);
    assert(texts(unpack@)[2] == unpack@[2]@);
    assert(texts(unpack@)[3] == unpack@[3]@);
}

/// A validator of either place is used where it is there, first the one with a configuration, and
/// is found below the directory of that place under the name that programs have on the platform.
pub proof fn built_validators_are_used(
    with_configuration: bool,
    without_configuration: bool,
    chosen: Option<Vst3Validator>,
    platform: Platform,
    first: String,
    second: String,
)
    requires
        call_ensures(vst3_validator_to_use, (with_configuration, without_configuration), chosen),
        call_ensures(vst3_validator_path, (platform, Vst3Validator::WithConfiguration), first),
        call_ensures(vst3_validator_path, (platform, Vst3Validator::WithoutConfiguration), second),
    ensures
        chosen is None <==> !with_configuration && !without_configuration,
        chosen == Some(Vst3Validator::WithConfiguration) <==> with_configuration,
        platform is Windows ==> first@ == "vst3sdk-validator/bin/"@ + "Debug/"@ + "validator.exe"@
            && second@ == "vst3sdk-validator/bin/"@ + "validator.exe"@,
        !(platform is Windows) ==> first@ == "vst3sdk-validator/bin/"@ + "Debug/"@ + "validator"@
            && second@ == "vst3sdk-validator/bin/"@ + "validator"@,
{
    reveal_strlit("");
    assert("vst3sdk-validator/bin/"@ + ""@ =~= "vst3sdk-validator/bin/"@);
}

/// A frontend is built exactly where it has a manifest with a script to build it.
pub proof fn frontends_with_a_build_script_are_built(
    content: &[u8],
    result: Result<FrontendBuild, String>,
    missing: Result<FrontendBuild, String>,
    found: Result<bool, String>,
    name: &str,
)
    requires
        name@ == "build"@,
        call_ensures(build_gui, (Some(content),), result),
        call_ensures(build_gui, (None,), missing),
        call_ensures(crate::wrac_xtask::package::has_package_script, (content, name), found),
    ensures
        missing matches Ok(FrontendBuild::NoPackage),
        result is Ok <==> found is Ok,
        found matches Ok(true) ==> result matches Ok(FrontendBuild::Build),
        found matches Ok(false) ==> result matches Ok(FrontendBuild::NoBuildScript),
{
}

/// The library of a bundle stands inside it on macOS, under the name of the bundle, and is the
/// bundle elsewhere; an application is opened as one on macOS and run as a program elsewhere.
pub proof fn only_macos_has_bundles(
    platform: Platform,
    bundle: &str,
    name: &str,
    path: String,
    parts: Vec<String>,
)
    requires
        call_ensures(clap_library_path, (platform, bundle, name), path),
        call_ensures(launch_command, (platform, bundle), parts),
    ensures
        platform is Macos ==> path@ == bundle@ + "/Contents/MacOS/"@ + name@,
        !(platform is Macos) ==> path@ == bundle@,
        parts@.last()@ == bundle@,
        platform is Macos ==> parts@.len() == 4 && parts@[0]@ == "open"@ && parts@[1]@ == "-W"@
            && parts@[2]@ == "-n"@,
        !(platform is Macos) ==> parts@.len() == 1,
{
    assert(texts(parts@).len() == parts@.len());
    assert(texts(parts@)[0] == parts@[0]@);
    if platform is Macos {
        assert(texts(parts@)[1] == parts@[1]@);
        assert(texts(parts@)[2] == parts@[2]@);
        assert(texts(parts@)[3] == parts@[3]@);
    }
}

/// Who launches what was not built is told what to run: the build of the same package and in the
/// same profile.
pub proof fn missing_applications_are_told_how_to_build(
    path: &str,
    package: &str,
    release: String,
    debug: String,
)
    requires
        call_ensures(missing_launch_artifact, (path, package, BuildProfile::Release), release),
        call_ensures(missing_launch_artifact, (path, package, BuildProfile::Debug), debug),
    ensures
        release@ == "standalone artifact not found: "@ + path@ + "\nRun `cargo xtask build -p "@
            + package@ + " --target=standalone"@ + " --release"@ + "` first."@,
        debug@ == "standalone artifact not found: "@ + path@ + "\nRun `cargo xtask build -p "@
            + package@ + " --target=standalone"@ + "` first."@,
{
    reveal_strlit("");
    let start = "standalone artifact not found: "@ + path@ + "\nRun `cargo xtask build -p "@
        + package@ + " --target=standalone"@;
    assert(start + ""@ =~= start);
}

/// Each plugin once had an Audio Unit of its own name.
pub proof fn stale_audio_units_are_named_after_plugins(
    metadata: PluginMetadata,
    names: Vec<String>,
    i: int,
)
    requires
        call_ensures(stale_au_bundles, (&metadata,), names),
        0 <= i < metadata.plugins@.len(),
    ensures
        names@.len() == metadata.plugins@.len(),
        names@[i]@ == metadata.plugins@[i].plugin_name@ + ".component"@,
{
}

} // verus!

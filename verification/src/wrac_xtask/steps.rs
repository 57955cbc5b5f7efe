//! The steps by which a product is built, packaged, installed and prepared for its validator.

use vstd::prelude::*;

use crate::text::{decimal, decimal_text, join2, join3, same_text, trim, trimmed};
use crate::wrac_xtask::metadata::PluginMetadata;
use crate::wrac_xtask::targets::{Platform, PluginTarget};
use crate::wrac_xtask::tools::stale_au_bundles;
use crate::wrac_xtask::wrapper::RustPluginBuild;

verus! {

// Building

impl RustPluginBuild {
    /// Where cargo builds, below the target directory. A standalone application has its own
    /// place, so that neither build throws away what the other has made.
    pub fn cargo_target_dir(self) -> (below: &'static str)
        ensures
            below@ == match self {
                RustPluginBuild::Default => ""@,
                RustPluginBuild::Standalone => "wrac/cargo/standalone"@,
            },
    {
        match self {
            RustPluginBuild::Default => "",
            RustPluginBuild::Standalone => "wrac/cargo/standalone",
        }
    }
}

/// The libraries that have to be there after a build.
#[derive(Debug, Clone, Copy, PartialEq, Eq, Structural)]
pub enum BuiltLibrary {
    Dynamic,
    /// Other formats link it.
    Static,
}

impl BuiltLibrary {
    /// What is said of the library where it is missing.
    pub fn description(self) -> (text: &'static str)
        ensures
            text@ == match self {
                BuiltLibrary::Dynamic => "dynamic plugin library"@,
                BuiltLibrary::Static => "static plugin library"@,
            },
    {
        match self {
            BuiltLibrary::Dynamic => "dynamic plugin library",
            BuiltLibrary::Static => "static plugin library",
        }
    }
}

/// The libraries that have to be there after a build. The static one is used only where plugins
/// can be wrapped in another format.
pub fn libraries_of_build(wraps: bool) -> (libraries: Vec<BuiltLibrary>)
    ensures
        libraries@ == if wraps {
            seq![BuiltLibrary::Dynamic, BuiltLibrary::Static]
        } else {
            seq![BuiltLibrary::Dynamic]
        },
{
    let mut libraries: Vec<BuiltLibrary> = Vec::new();
    libraries.push(BuiltLibrary::Dynamic);
    if wraps {
        libraries.push(BuiltLibrary::Static);
    }
    assert(libraries@ =~= if wraps {
        seq![BuiltLibrary::Dynamic, BuiltLibrary::Static]
    } else {
        seq![BuiltLibrary::Dynamic]
    });
    libraries
}

/// The oldest macOS that a build runs on, where the environment names none.
pub const MACOS_DEPLOYMENT_TARGET: &'static str = "11.0";

// Packaging

/// A step by which a CLAP plugin is packaged.
#[derive(Debug, Clone, Copy, PartialEq, Eq, Structural)]
pub enum PackageStep {
    RemoveBundle,
    CreatePluginsDirectory,
    /// Create the directories of a bundle.
    CreateBundle,
    WriteInfoPlist,
    WritePackageInfo,
    /// Copy the library into the bundle, under the name of the bundle.
    CopyIntoBundle,
    /// The library is found from wherever the bundle is.
    SetInstallName,
    Sign,
    /// Copy the library to where the plugin is looked for.
    CopyLibrary,
    EnsureArtifact,
}

/// The steps by which a CLAP plugin is packaged: on macOS as a bundle, elsewhere as a library.
pub open spec fn package_steps(platform: Platform) -> Seq<PackageStep> {
    if platform is Macos {
        seq![
            PackageStep::RemoveBundle,
            PackageStep::CreatePluginsDirectory,
            PackageStep::CreateBundle,
            PackageStep::WriteInfoPlist,
            PackageStep::WritePackageInfo,
            PackageStep::CopyIntoBundle,
            PackageStep::SetInstallName,
            PackageStep::Sign,
            PackageStep::EnsureArtifact,
        ]
    } else {
        seq![
            PackageStep::RemoveBundle,
            PackageStep::CreatePluginsDirectory,
            PackageStep::CopyLibrary,
            PackageStep::EnsureArtifact,
        ]
    }
}

/// The steps by which a CLAP plugin is packaged.
pub fn package_clap(platform: Platform) -> (steps: Vec<PackageStep>)
    ensures
        steps@ == package_steps(platform),
{
    let mut steps: Vec<PackageStep> = Vec::new();
    steps.push(PackageStep::RemoveBundle);
    steps.push(PackageStep::CreatePluginsDirectory);
    if platform == Platform::Macos {
        steps.push(PackageStep::CreateBundle);
        steps.push(PackageStep::WriteInfoPlist);
        steps.push(PackageStep::WritePackageInfo);
        steps.push(PackageStep::CopyIntoBundle);
        steps.push(PackageStep::SetInstallName);
        steps.push(PackageStep::Sign);
    } else {
        steps.push(PackageStep::CopyLibrary);
    }
    steps.push(PackageStep::EnsureArtifact);
    assert(steps@ =~= package_steps(platform));
    steps
}

/// What says that a bundle holds a plugin.
pub const PACKAGE_INFO: &'static str = "BNDL????";

/// A bundle is signed once nothing in it changes any more, and what was there before is gone
/// before anything is written.
pub proof fn a_bundle_is_signed_last(platform: Platform, i: int)
    requires
        0 <= i < package_steps(platform).len(),
    ensures
        package_steps(platform)[i] is Sign ==> forall|j: int|
            i < j < package_steps(platform).len() ==> (#[trigger] package_steps(platform)[j])
                is EnsureArtifact,
        package_steps(platform)[i] is RemoveBundle <==> i == 0,
        package_steps(platform).last() is EnsureArtifact,
{
}

// Installing

/// A step by which a plugin is installed.
#[derive(Debug)]
pub enum InstallStep {
    /// Remove a bundle of this name from the place of installation.
    Remove { name: String },
    /// Copy what was built to the place of installation.
    Copy,
}

/// The steps by which a plugin is installed. A product once had an Audio Unit for each plugin;
/// those that are left would be found beside the one that holds all plugins.
pub fn install_plugin_target(metadata: &PluginMetadata, target: PluginTarget) -> (steps: Vec<
    InstallStep,
>)
    ensures
        ({
            let stale = if target is Au {
                metadata.plugins@.len()
            } else {
                0
            };
            &&& steps@.len() == stale + 1
            &&& steps@.last() is Copy
            &&& forall|i: int|
                0 <= i < stale ==> ((#[trigger] steps@[i]) matches InstallStep::Remove { name }
                    && name@ == metadata.plugins@[i].plugin_name@ + ".component"@)
        }),
{
    let mut steps: Vec<InstallStep> = Vec::new();
    if target == PluginTarget::Au {
        let names = stale_au_bundles(metadata);
        let mut i: usize = 0;
        while i < names.len()
            invariant
                i <= names@.len(),
                names@.len() == metadata.plugins@.len(),
                steps@.len() == i,
                forall|j: int|
                    0 <= j < names@.len() ==> (#[trigger] names@[j])@
                        == metadata.plugins@[j].plugin_name@ + ".component"@,
                forall|j: int|
                    0 <= j < i ==> ((#[trigger] steps@[j]) matches InstallStep::Remove { name }
                        && name@ == metadata.plugins@[j].plugin_name@ + ".component"@),
            decreases names@.len() - i,
        {
            steps.push(InstallStep::Remove { name: names[i].as_str().to_owned() });
            i += 1;
        }
    }
    steps.push(InstallStep::Copy);
    steps
}

// Preparing the AAX validator

/// A step by which the AAX validator is prepared.
#[derive(Debug, Clone, Copy, PartialEq, Eq, Structural)]
pub enum PrepareStep {
    Unpack,
    EnsureRunner,
    PatchRunAllTests,
    PatchBundlePathScripts,
    NormalizeConfig,
    NormalizeSystemInfo,
    /// What was fetched with a browser does not run before this.
    RemoveQuarantine,
    MakeRunnerExecutable,
}

/// The steps by which the AAX validator is prepared.
pub open spec fn prepare_steps(platform: Platform) -> Seq<PrepareStep> {
    seq![
        PrepareStep::Unpack,
        PrepareStep::EnsureRunner,
        PrepareStep::PatchRunAllTests,
        PrepareStep::PatchBundlePathScripts,
        PrepareStep::NormalizeConfig,
    ] + if platform is Macos {
        seq![
            PrepareStep::NormalizeSystemInfo,
            PrepareStep::RemoveQuarantine,
            PrepareStep::MakeRunnerExecutable,
        ]
    } else {
        Seq::empty()
    }
}

/// The steps by which the AAX validator is prepared.
pub fn ensure_aax_validator_dtt(platform: Platform) -> (steps: Vec<PrepareStep>)
    ensures
        steps@ == prepare_steps(platform),
{
    let mut steps: Vec<PrepareStep> = Vec::new();
    steps.push(PrepareStep::Unpack);
    steps.push(PrepareStep::EnsureRunner);
    steps.push(PrepareStep::PatchRunAllTests);
    steps.push(PrepareStep::PatchBundlePathScripts);
    steps.push(PrepareStep::NormalizeConfig);
    if platform == Platform::Macos {
        steps.push(PrepareStep::NormalizeSystemInfo);
        steps.push(PrepareStep::RemoveQuarantine);
        steps.push(PrepareStep::MakeRunnerExecutable);
    }
    assert(steps@ =~= prepare_steps(platform));
    steps
}

// Showing what the AAX validator has printed

/// The status of a test that has passed.
pub const PASSED_STATUS: &'static str = "E_COMPLETED_PASS";

/// Whether something that was printed is shown: not where it is blank.
pub fn shows_output(printed: &str) -> (shows: bool)
    ensures
        shows == (trimmed(printed@).len() > 0),
{
    let rest = trim(printed);
    !rest.as_str().is_empty()
}

/// The line above a log.
pub fn log_heading(path: &str) -> (line: String)
    ensures
        line@ == "========== AAX validator DTT log ("@ + path@ + ") =========="@,
{
    join3("========== AAX validator DTT log (", path, ") ==========")
}

/// The line below a log that was cut.
pub fn log_cut_note(total: u64, shown: u64, path: &str) -> (line: String)
    requires
        shown <= total,
    ensures
        line@ == "... truncated "@ + decimal((total - shown) as nat) + " bytes from "@ + path@,
{
    let count = decimal_text(total - shown);
    let mut line = join3("... truncated ", count.as_str(), " bytes from ");
    line.append(path);
    line
}

/// The line that says what became of a test.
pub fn aax_result_line(test_id: &str, status: &str, path: &str) -> (line: String)
    ensures
        line@ == if status@ == PASSED_STATUS@ {
            "AAX validator PASS: "@ + test_id@
        } else {
            "AAX validator FAIL: "@ + test_id@ + " ("@ + status@ + "); see "@ + path@
        },
{
    if same_text(status, PASSED_STATUS) {
        join2("AAX validator PASS: ", test_id)
    } else {
        let mut line = join3("AAX validator FAIL: ", test_id, " (");
        line.append(status);
        line.append("); see ");
        line.append(path);
        line
    }
}

/// The line that says that a test does not run.
pub fn skipped_test_line(test_id: &str, reason: &str) -> (line: String)
    ensures
        line@ == "Skipping "@ + test_id@ + ": "@ + reason@ + "."@,
{
    let mut line = join3("Skipping ", test_id, ": ");
    line.append(reason);
    line.append(".");
    line
}

/// The line that says how many tests run.
pub fn selected_tests_line(count: u64) -> (line: String)
    ensures
        line@ == "AAX validation runs "@ + decimal(count as nat)
            + " selected validator tests."@,
{
    let count = decimal_text(count);
    join3("AAX validation runs ", count.as_str(), " selected validator tests.")
}

/// A standalone application is built apart from the plugins, so that neither build throws away
/// what the other has made.
pub proof fn standalone_builds_have_their_own_place(plugins: &str, standalone: &str)
    requires
        call_ensures(RustPluginBuild::cargo_target_dir, (RustPluginBuild::Default,), plugins),
        call_ensures(RustPluginBuild::cargo_target_dir, (RustPluginBuild::Standalone,), standalone),
    ensures
        plugins@ == ""@,
        standalone@ == "wrac/cargo/standalone"@,
        plugins@ != standalone@,
{
    reveal_strlit("");
    reveal_strlit("wrac/cargo/standalone");
    assert(plugins@.len() != standalone@.len());
}

/// A build always makes the dynamic library, and the static one exactly where plugins are wrapped;
/// each is spoken of by its kind.
pub proof fn wrapping_needs_the_static_library(
    wraps: bool,
    libraries: Vec<BuiltLibrary>,
    shared: &str,
    linked: &str,
)
    requires
        call_ensures(libraries_of_build, (wraps,), libraries),
        call_ensures(BuiltLibrary::description, (BuiltLibrary::Dynamic,), shared),
        call_ensures(BuiltLibrary::description, (BuiltLibrary::Static,), linked),
    ensures
        libraries@.contains(BuiltLibrary::Dynamic),
        libraries@.contains(BuiltLibrary::Static) <==> wraps,
        libraries@.no_duplicates(),
        shared@ == "dynamic plugin library"@,
        linked@ == "static plugin library"@,
{
    assert(libraries@[0] == BuiltLibrary::Dynamic);
    if wraps {
        assert(libraries@[1] == BuiltLibrary::Static);
    }
}

/// A package holds a library on every system: in a bundle on macOS, where the library is signed
/// after it was named, and as it is elsewhere. Only macOS has bundles.
pub proof fn packages_hold_a_library(platform: Platform, steps: Vec<PackageStep>)
    requires
        call_ensures(package_clap, (platform,), steps),
    ensures
        steps@.no_duplicates(),
        steps@.contains(PackageStep::CopyIntoBundle) <==> platform is Macos,
        steps@.contains(PackageStep::CopyLibrary) <==> !(platform is Macos),
        steps@.contains(PackageStep::Sign) <==> platform is Macos,
        steps@.contains(PackageStep::WriteInfoPlist) <==> platform is Macos,
        steps@.contains(PackageStep::WritePackageInfo) <==> platform is Macos,
        steps@.contains(PackageStep::SetInstallName) <==> platform is Macos,
        steps@[0] is RemoveBundle && steps@[1] is CreatePluginsDirectory && steps@.last()
            is EnsureArtifact,
        platform is Macos ==> steps@.len() == 9 && steps@[2] is CreateBundle && steps@[5]
            is CopyIntoBundle && steps@[6] is SetInstallName && steps@[7] is Sign,
        !(platform is Macos) ==> steps@.len() == 4 && steps@[2] is CopyLibrary,
{
    if platform is Macos {
        assert(steps@[3] is WriteInfoPlist);
        assert(steps@[4] is WritePackageInfo);
        assert(steps@[5] is CopyIntoBundle);
        assert(steps@[6] is SetInstallName);
        assert(steps@[7] is Sign);
    } else {
        assert(steps@[2] is CopyLibrary);
    }
}

/// What was built is copied last. Before that an Audio Unit of the name of each plugin is removed,
/// and for no other format anything is.
pub proof fn stale_audio_units_go_first(
    metadata: PluginMetadata,
    target: PluginTarget,
    steps: Vec<InstallStep>,
    i: int,
)
    requires
        call_ensures(install_plugin_target, (&metadata, target), steps),
    ensures
        steps@.last() is Copy,
        !(target is Au) ==> steps@.len() == 1,
        target is Au ==> steps@.len() == metadata.plugins@.len() + 1,
        target is Au && 0 <= i < metadata.plugins@.len() ==> (steps@[i] matches InstallStep::Remove {
            name,
        } && name@ == metadata.plugins@[i].plugin_name@ + ".component"@),
{
}

/// The validator is unpacked before anything in it is changed, and its runner has to be there.
/// Only macOS keeps programs that were fetched from running.
pub proof fn validators_are_prepared_in_order(platform: Platform, steps: Vec<PrepareStep>)
    requires
        call_ensures(ensure_aax_validator_dtt, (platform,), steps),
    ensures
        steps@.no_duplicates(),
        steps@[0] is Unpack && steps@[1] is EnsureRunner && steps@[2] is PatchRunAllTests
            && steps@[3] is PatchBundlePathScripts && steps@[4] is NormalizeConfig,
        platform is Macos ==> steps@.len() == 8 && steps@[5] is NormalizeSystemInfo && steps@[6]
            is RemoveQuarantine && steps@[7] is MakeRunnerExecutable,
        !(platform is Macos) ==> steps@.len() == 5,
{
}

/// What is blank is not shown, and what holds anything else is.
pub proof fn blank_output_is_not_shown(printed: &str, shows: bool)
    requires
        call_ensures(shows_output, (printed,), shows),
    ensures
        shows <==> exists|i: int| 0 <= i < printed@.len() && !crate::text::is_space(
            #[trigger] printed@[i],
        ),
{
    lemma_trimmed_is_empty(printed@);
}

proof fn lemma_trimmed_is_empty(s: Seq<char>)
    ensures
        trimmed(s).len() == 0 <==> forall|i: int|
            0 <= i < s.len() ==> crate::text::is_space(#[trigger] s[i]),
    decreases s.len(),
{
    if s.len() > 0 {
        if crate::text::is_space(s[0]) {
            lemma_trimmed_is_empty(s.skip(1));
            if forall|i: int| 0 <= i < s.len() ==> crate::text::is_space(#[trigger] s[i]) {
                assert forall|i: int| 0 <= i < s.skip(1).len() implies crate::text::is_space(
                    #[trigger] s.skip(1)[i],
                ) by {
                    assert(crate::text::is_space(s[i + 1]));
                }
            }
            if forall|i: int|
                0 <= i < s.skip(1).len() ==> crate::text::is_space(#[trigger] s.skip(1)[i]) {
                assert forall|i: int| 0 <= i < s.len() implies crate::text::is_space(
                    #[trigger] s[i],
                ) by {
                    if i > 0 {
                        assert(crate::text::is_space(s.skip(1)[i - 1]));
                    }
                }
            }
        } else {
            lemma_trimmed_back_keeps_the_front(s);
        }
    }
}

proof fn lemma_trimmed_back_keeps_the_front(s: Seq<char>)
    requires
        s.len() > 0,
        !crate::text::is_space(s[0]),
    ensures
        crate::text::trimmed_back(s).len() > 0,
    decreases s.len(),
{
    if crate::text::is_space(s.last()) {
        assert(s.len() > 1);
        lemma_trimmed_back_keeps_the_front(s.drop_last());
    }
}

/// What is printed names the test, the log and the numbers that it speaks of: a test passes with
/// one status alone, and any other is shown with the place of its log.
pub proof fn lines_name_what_they_speak_of(
    test_id: &str,
    status: &str,
    path: &str,
    reason: &str,
    total: u64,
    shown: u64,
    heading: String,
    cut: String,
    result: String,
    skipped: String,
    selected: String,
)
    requires
        shown <= total,
        call_ensures(log_heading, (path,), heading),
        call_ensures(log_cut_note, (total, shown, path), cut),
        call_ensures(aax_result_line, (test_id, status, path), result),
        call_ensures(skipped_test_line, (test_id, reason), skipped),
        call_ensures(selected_tests_line, (total,), selected),
    ensures
        heading@ == "========== AAX validator DTT log ("@ + path@ + ") =========="@,
        cut@ == "... truncated "@ + decimal((total - shown) as nat) + " bytes from "@ + path@,
        status@ == "E_COMPLETED_PASS"@ ==> result@ == "AAX validator PASS: "@ + test_id@,
        status@ != "E_COMPLETED_PASS"@ ==> result@ == "AAX validator FAIL: "@ + test_id@ + " ("@
            + status@ + "); see "@ + path@,
        skipped@ == "Skipping "@ + test_id@ + ": "@ + reason@ + "."@,
        selected@ == "AAX validation runs "@ + decimal(total as nat)
            + " selected validator tests."@,
{
}

} // verus!

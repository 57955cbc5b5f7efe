//! How a built product is validated.

use vstd::prelude::*;

use crate::text::{decimal, decimal_text, join2, join3};
use crate::wrac_xtask::targets::ValidateTarget;

verus! {

/// A step by which a format is validated.
#[derive(Debug, Clone, Copy, PartialEq, Eq, Structural)]
pub enum ValidationStep {
    /// The built artifact has to be there.
    EnsureArtifact,
    /// No bundle for every user may stand in for the one that was built.
    EnsureNoSystemBundle,
    /// The validator has to be there.
    EnsureValidator,
    /// The system forgets the components that it knows.
    RestartRegistrar,
    /// The validator runs on the artifact.
    RunValidator,
    /// The validator runs on one plugin of the product.
    RunPluginValidator { plugin: usize },
    /// The ids that the validator has seen have to be those of the product.
    CheckComponentIds,
}

/// The runs of the validator on the first `n` plugins.
pub open spec fn plugin_runs(n: nat) -> Seq<ValidationStep> {
    Seq::new(n, |i: int| ValidationStep::RunPluginValidator { plugin: i as usize })
}

/// The steps by which a format is validated.
pub open spec fn validation_steps(target: ValidateTarget, plugins: nat) -> Seq<ValidationStep> {
    match target {
        ValidateTarget::Clap => seq![
            ValidationStep::EnsureArtifact,
            ValidationStep::EnsureValidator,
            ValidationStep::RunValidator,
        ],
        ValidateTarget::Vst3 => seq![
            ValidationStep::EnsureArtifact,
            ValidationStep::EnsureValidator,
            ValidationStep::RunValidator,
            ValidationStep::CheckComponentIds,
        ],
        ValidateTarget::Au => seq![
            ValidationStep::EnsureNoSystemBundle,
            ValidationStep::EnsureArtifact,
            ValidationStep::RestartRegistrar,
        ] + plugin_runs(plugins),
        ValidateTarget::Aax => seq![ValidationStep::EnsureArtifact, ValidationStep::RunValidator],
    }
}

/// The steps by which a format is validated.
pub fn validate_plugin_target(target: ValidateTarget, plugins: usize) -> (steps: Vec<
    ValidationStep,
>)
    ensures
        steps@ == validation_steps(target, plugins as nat),
{
    let mut steps: Vec<ValidationStep> = Vec::new();
    match target {
        ValidateTarget::Clap => {
            steps.push(ValidationStep::EnsureArtifact);
            steps.push(ValidationStep::EnsureValidator);
            steps.push(ValidationStep::RunValidator);
        },
        ValidateTarget::Vst3 => {
            steps.push(ValidationStep::EnsureArtifact);
            steps.push(ValidationStep::EnsureValidator);
            steps.push(ValidationStep::RunValidator);
            steps.push(ValidationStep::CheckComponentIds);
        },
        ValidateTarget::Au => {
            steps.push(ValidationStep::EnsureNoSystemBundle);
            steps.push(ValidationStep::EnsureArtifact);
            steps.push(ValidationStep::RestartRegistrar);
            let ghost before = steps@;
            let mut i: usize = 0;
            while i < plugins
                invariant
                    i <= plugins,
                    steps@ == before + plugin_runs(i as nat),
                decreases plugins - i,
            {
                steps.push(ValidationStep::RunPluginValidator { plugin: i });
                i += 1;
                assert(steps@ =~= before + plugin_runs(i as nat));
            }
        },
        ValidateTarget::Aax => {
            steps.push(ValidationStep::EnsureArtifact);
            steps.push(ValidationStep::RunValidator);
        },
    }
    assert(steps@ =~= validation_steps(target, plugins as nat));
    steps
}

/// Whether a step runs a validator.
pub open spec fn runs_validator(step: ValidationStep) -> bool {
    step is RunValidator || step is RunPluginValidator
}

/// No validator runs before the artifact was found to be there, and every plugin of a product
/// is validated as an Audio Unit.
pub proof fn artifacts_are_found_before_they_are_validated(
    target: ValidateTarget,
    plugins: nat,
    i: int,
)
    requires
        plugins <= usize::MAX,
        0 <= i < validation_steps(target, plugins).len(),
        runs_validator(validation_steps(target, plugins)[i]),
    ensures
        exists|j: int|
            0 <= j < i && (#[trigger] validation_steps(target, plugins)[j]) is EnsureArtifact,
        target is Au ==> forall|plugin: int|
            0 <= plugin < plugins ==> validation_steps(target, plugins)[3 + plugin]
                == #[trigger] plugin_runs(plugins)[plugin],
{
    let steps = validation_steps(target, plugins);
    if target is Au {
        assert(steps[1] is EnsureArtifact);
        assert(i >= 3);
    } else {
        assert(steps[0] is EnsureArtifact);
    }
}

// The AAX validator runs one test at a time

/// What a run of the AAX tests waits for.
#[derive(Debug, Clone, Copy, PartialEq, Eq, Structural)]
pub enum AaxPhase {
    /// The process of a test.
    Process,
    /// The search for the result of a test.
    Search,
    /// The copy of the result.
    Copy,
    Finished,
    Failed,
}

/// What happens to a run of the AAX tests.
#[derive(Debug, Clone, Copy, PartialEq, Eq, Structural)]
pub enum AaxEvent {
    ProcessEnded { success: bool },
    ResultSearched { found: bool },
    ResultCopied { copied: bool },
}

/// What is done next.
#[derive(Debug, Clone, Copy, PartialEq, Eq, Structural)]
pub enum AaxAction {
    /// Run the test at a position.
    RunTest { index: usize },
    /// Look for the result of the test.
    FindResult,
    /// Copy the result to where it is known by the test alone.
    CopyResult,
    /// Show what the process has printed, and fail.
    ShowAndFail,
    /// Fail.
    Fail,
    /// All tests have run.
    Finish,
}

/// A run of the AAX tests: which test it is at, of how many.
#[derive(Debug, Clone, Copy, PartialEq, Eq, Structural)]
pub struct AaxRun {
    pub index: usize,
    pub count: usize,
    pub phase: AaxPhase,
}

impl AaxRun {
    /// Whether the run is at one of the tests, or is over.
    pub open spec fn wf(self) -> bool {
        &&& self.index <= self.count
        &&& (self.phase is Process || self.phase is Search || self.phase is Copy) ==> self.index
            < self.count
        &&& self.phase is Finished ==> self.index == self.count
    }

    /// Whether an event can happen now.
    pub open spec fn awaits(self, event: AaxEvent) -> bool {
        match event {
            AaxEvent::ProcessEnded { .. } => self.phase is Process,
            AaxEvent::ResultSearched { .. } => self.phase is Search,
            AaxEvent::ResultCopied { .. } => self.phase is Copy,
        }
    }

    /// The run at a test.
    pub open spec fn at(index: usize, count: usize) -> Self {
        AaxRun {
            index,
            count,
            phase: if index < count {
                AaxPhase::Process
            } else {
                AaxPhase::Finished
            },
        }
    }

    /// What is done at the start of a test.
    pub open spec fn opening(index: usize, count: usize) -> AaxAction {
        if index < count {
            AaxAction::RunTest { index }
        } else {
            AaxAction::Finish
        }
    }

    /// The run after an event.
    pub open spec fn after(self, event: AaxEvent) -> Self {
        match event {
            AaxEvent::ProcessEnded { success } => AaxRun {
                phase: if success {
                    AaxPhase::Search
                } else {
                    AaxPhase::Failed
                },
                ..self
            },
            AaxEvent::ResultSearched { found } => AaxRun {
                phase: if found {
                    AaxPhase::Copy
                } else {
                    AaxPhase::Failed
                },
                ..self
            },
            AaxEvent::ResultCopied { copied } => if copied {
                AaxRun::at((self.index + 1) as usize, self.count)
            } else {
                AaxRun { phase: AaxPhase::Failed, ..self }
            },
        }
    }

    /// What is done after an event.
    pub open spec fn action(self, event: AaxEvent) -> AaxAction {
        match event {
            AaxEvent::ProcessEnded { success } => if success {
                AaxAction::FindResult
            } else {
                AaxAction::ShowAndFail
            },
            AaxEvent::ResultSearched { found } => if found {
                AaxAction::CopyResult
            } else {
                AaxAction::ShowAndFail
            },
            AaxEvent::ResultCopied { copied } => if copied {
                AaxRun::opening((self.index + 1) as usize, self.count)
            } else {
                AaxAction::Fail
            },
        }
    }

    /// Starts a run of so many tests.
    pub fn start(count: usize) -> (started: (Self, AaxAction))
        ensures
            started.0.wf(),
            started.0 == AaxRun::at(0, count),
            started.1 == AaxRun::opening(0, count),
    {
        AaxRun::enter(0, count)
    }

    fn enter(index: usize, count: usize) -> (entered: (Self, AaxAction))
        requires
            index <= count,
        ensures
            entered.0.wf(),
            entered.0 == AaxRun::at(index, count),
            entered.1 == AaxRun::opening(index, count),
    {
        if index < count {
            (AaxRun { index, count, phase: AaxPhase::Process }, AaxAction::RunTest { index })
        } else {
            (AaxRun { index, count, phase: AaxPhase::Finished }, AaxAction::Finish)
        }
    }

    /// Takes note of an event.
    pub fn advance(&mut self, event: AaxEvent) -> (action: AaxAction)
        requires
            old(self).wf(),
            old(self).awaits(event),
        ensures
            final(self).wf(),
            *final(self) == old(self).after(event),
            action == old(self).action(event),
    {
        match event {
            AaxEvent::ProcessEnded { success } => {
                if success {
                    self.phase = AaxPhase::Search;
                    AaxAction::FindResult
                } else {
                    self.phase = AaxPhase::Failed;
                    AaxAction::ShowAndFail
                }
            },
            AaxEvent::ResultSearched { found } => {
                if found {
                    self.phase = AaxPhase::Copy;
                    AaxAction::CopyResult
                } else {
                    self.phase = AaxPhase::Failed;
                    AaxAction::ShowAndFail
                }
            },
            AaxEvent::ResultCopied { copied } => {
                if copied {
                    let (next, action) = AaxRun::enter(self.index + 1, self.count);
                    *self = next;
                    action
                } else {
                    self.phase = AaxPhase::Failed;
                    AaxAction::Fail
                }
            },
        }
    }
}

/// A run after a series of events.
pub open spec fn run_after(count: usize, events: Seq<AaxEvent>) -> AaxRun
    decreases events.len(),
{
    if events.len() == 0 {
        AaxRun::at(0, count)
    } else {
        run_after(count, events.drop_last()).after(events.last())
    }
}

/// Whether every event of a series was awaited when it happened.
pub open spec fn is_history(count: usize, events: Seq<AaxEvent>) -> bool
    decreases events.len(),
{
    events.len() == 0 || (is_history(count, events.drop_last()) && run_after(
        count,
        events.drop_last(),
    ).awaits(events.last()))
}

/// How many results were copied.
pub open spec fn results_copied(events: Seq<AaxEvent>) -> nat
    decreases events.len(),
{
    if events.len() == 0 {
        0
    } else {
        results_copied(events.drop_last()) + if events.last() == (AaxEvent::ResultCopied {
            copied: true,
        }) {
            1nat
        } else {
            0nat
        }
    }
}

/// A run finishes only once a result was copied for every test, in the order of the tests.
pub proof fn a_finished_run_has_every_result(count: usize, events: Seq<AaxEvent>)
    requires
        is_history(count, events),
    ensures
        run_after(count, events).wf(),
        run_after(count, events).count == count,
        results_copied(events) == run_after(count, events).index,
        run_after(count, events).phase is Finished ==> results_copied(events) == count,
    decreases events.len(),
{
    if events.len() > 0 {
        a_finished_run_has_every_result(count, events.drop_last());
    }
}

/// What is said of a test whose process failed.
pub fn aax_process_failure(test_id: &str, stdout_path: &str) -> (message: String)
    ensures
        message@ == "AAX validator/DTT failed while running "@ + test_id@ + "; see "@ + stdout_path@,
{
    let mut message = join3("AAX validator/DTT failed while running ", test_id, "; see ");
    message.append(stdout_path);
    message
}

/// What is said of a result that could not be copied.
pub fn aax_copy_failure(from: &str, to: &str, error: &str) -> (message: String)
    ensures
        message@ == "failed to copy AAX validator result "@ + from@ + " to "@ + to@ + ": "@ + error@,
{
    let mut message = join3("failed to copy AAX validator result ", from, " to ");
    message.append(to);
    message.append(": ");
    message.append(error);
    message
}

// Reading what a plugin shows to its host

/// Why the parameters of a plugin cannot be read.
#[derive(Debug, Clone, Copy, PartialEq, Eq, Structural)]
pub enum SchemaFault {
    NullEntry,
    NoInit,
    InitFailed,
    NoGetFactory,
    NoFactory,
    NoCreatePlugin,
    NoPluginCount,
    NoPlugins,
    NoGetDescriptor,
    NullDescriptor { index: u32 },
    NullPluginId { index: u32 },
    NoGetExtension,
    NoParameterCount,
    NoParameterInfo,
    ParameterInfoFailed { index: u32 },
}

impl SchemaFault {
    /// What is said of the fault.
    pub open spec fn text(self) -> Seq<char> {
        match self {
            SchemaFault::NullEntry => "CLAP entry returned a null pointer"@,
            SchemaFault::NoInit => "CLAP entry has no init callback"@,
            SchemaFault::InitFailed => "CLAP entry init failed"@,
            SchemaFault::NoGetFactory => "CLAP entry has no get_factory callback"@,
            SchemaFault::NoFactory => "CLAP plugin factory is not available"@,
            SchemaFault::NoCreatePlugin => "CLAP factory has no create_plugin callback"@,
            SchemaFault::NoPluginCount => "CLAP factory has no get_plugin_count callback"@,
            SchemaFault::NoPlugins => "CLAP factory contains no plugins"@,
            SchemaFault::NoGetDescriptor => "CLAP factory has no get_plugin_descriptor callback"@,
            SchemaFault::NullDescriptor { index } => "CLAP factory returned a null descriptor at index "@
                + decimal(index as nat),
            SchemaFault::NullPluginId { index } => "CLAP descriptor has a null plugin id at index "@
                + decimal(index as nat),
            SchemaFault::NoGetExtension => "CLAP plugin has no get_extension callback"@,
            SchemaFault::NoParameterCount => "CLAP params extension has no count callback"@,
            SchemaFault::NoParameterInfo => "CLAP params extension has no get_info callback"@,
            SchemaFault::ParameterInfoFailed { index } => "CLAP params.get_info failed for index "@
                + decimal(index as nat),
        }
    }

    /// What is said of the fault.
    pub fn message(self) -> (message: String)
        ensures
            message@ == self.text(),
    {
        match self {
            SchemaFault::NullEntry => "CLAP entry returned a null pointer".to_owned(),
            SchemaFault::NoInit => "CLAP entry has no init callback".to_owned(),
            SchemaFault::InitFailed => "CLAP entry init failed".to_owned(),
            SchemaFault::NoGetFactory => "CLAP entry has no get_factory callback".to_owned(),
            SchemaFault::NoFactory => "CLAP plugin factory is not available".to_owned(),
            SchemaFault::NoCreatePlugin => "CLAP factory has no create_plugin callback".to_owned(),
            SchemaFault::NoPluginCount => {
                "CLAP factory has no get_plugin_count callback".to_owned()
            },
            SchemaFault::NoPlugins => "CLAP factory contains no plugins".to_owned(),
            SchemaFault::NoGetDescriptor => {
                "CLAP factory has no get_plugin_descriptor callback".to_owned()
            },
            SchemaFault::NullDescriptor { index } => join2(
                "CLAP factory returned a null descriptor at index ",
                decimal_text(index as u64).as_str(),
            ),
            SchemaFault::NullPluginId { index } => join2(
                "CLAP descriptor has a null plugin id at index ",
                decimal_text(index as u64).as_str(),
            ),
            SchemaFault::NoGetExtension => "CLAP plugin has no get_extension callback".to_owned(),
            SchemaFault::NoParameterCount => {
                "CLAP params extension has no count callback".to_owned()
            },
            SchemaFault::NoParameterInfo => {
                "CLAP params extension has no get_info callback".to_owned()
            },
            SchemaFault::ParameterInfoFailed { index } => join2(
                "CLAP params.get_info failed for index ",
                decimal_text(index as u64).as_str(),
            ),
        }
    }
}

/// What is said of a plugin that the factory does not create.
pub fn create_failure(plugin_id: &str) -> (message: String)
    ensures
        message@ == "CLAP factory failed to create plugin id="@ + plugin_id@,
{
    join2("CLAP factory failed to create plugin id=", plugin_id)
}

/// What is said of a plugin that does not start.
pub fn init_failure(plugin_id: &str) -> (message: String)
    ensures
        message@ == "CLAP plugin init failed for plugin id="@ + plugin_id@,
{
    join2("CLAP plugin init failed for plugin id=", plugin_id)
}

/// How many plugins a factory has, as far as it tells.
pub fn plugin_count(count: Option<u32>) -> (result: Result<u32, SchemaFault>)
    ensures
        result == match count {
            None => Err::<u32, SchemaFault>(SchemaFault::NoPluginCount),
            Some(count) => if count == 0 {
                Err(SchemaFault::NoPlugins)
            } else {
                Ok(count)
            },
        },
{
    match count {
        None => Err(SchemaFault::NoPluginCount),
        Some(count) => if count == 0 {
            Err(SchemaFault::NoPlugins)
        } else {
            Ok(count)
        },
    }
}

/// Each format is validated in its own way: the ids of components are looked at for VST3 alone, a
/// copy for the whole system is ruled out for Audio Units alone, which are validated plugin by
/// plugin; and every other format runs its validator once.
pub proof fn formats_are_validated_in_their_own_way(
    target: ValidateTarget,
    plugins: usize,
    steps: Vec<ValidationStep>,
    i: int,
)
    requires
        call_ensures(validate_plugin_target, (target, plugins), steps),
    ensures
        target is Clap ==> steps@.len() == 3 && steps@[0] is EnsureArtifact && steps@[1]
            is EnsureValidator && steps@[2] is RunValidator,
        target is Vst3 ==> steps@.len() == 4 && steps@[0] is EnsureArtifact && steps@[1]
            is EnsureValidator && steps@[2] is RunValidator && steps@[3] is CheckComponentIds,
        target is Aax ==> steps@.len() == 2 && steps@[0] is EnsureArtifact && steps@[1]
            is RunValidator,
        target is Au ==> steps@.len() == plugins + 3 && steps@[0] is EnsureNoSystemBundle && steps@[1]
            is EnsureArtifact && steps@[2] is RestartRegistrar,
        target is Au && 0 <= i < plugins ==> steps@[i + 3] == (ValidationStep::RunPluginValidator {
            plugin: i as usize,
        }),
{
}

/// A test is run, its result is looked for and copied, and the next test follows; the run stops at
/// the first of these that fails, and shows what was printed unless only the copy failed.
pub proof fn tests_run_one_after_the_other(
    count: usize,
    started: (AaxRun, AaxAction),
    run: AaxRun,
)
    requires
        call_ensures(AaxRun::start, (count,), started),
        run.wf(),
    ensures
        count > 0 ==> started.1 == (AaxAction::RunTest { index: 0 }) && started.0.phase is Process,
        count == 0 ==> started.1 is Finish && started.0.phase is Finished,
        started.0.index == 0 && started.0.count == count,
        run.phase is Process ==> {
            let done = run.after(AaxEvent::ProcessEnded { success: true });
            let failed = run.after(AaxEvent::ProcessEnded { success: false });
            &&& run.action(AaxEvent::ProcessEnded { success: true }) is FindResult
            &&& done.awaits(AaxEvent::ResultSearched { found: true })
            &&& done.index == run.index
            &&& run.action(AaxEvent::ProcessEnded { success: false }) is ShowAndFail
            &&& failed.phase is Failed
        },
        run.phase is Search ==> {
            let found = run.after(AaxEvent::ResultSearched { found: true });
            let lost = run.after(AaxEvent::ResultSearched { found: false });
            &&& run.action(AaxEvent::ResultSearched { found: true }) is CopyResult
            &&& found.awaits(AaxEvent::ResultCopied { copied: true })
            &&& found.index == run.index
            &&& run.action(AaxEvent::ResultSearched { found: false }) is ShowAndFail
            &&& lost.phase is Failed
        },
        run.phase is Copy ==> {
            let copied = run.after(AaxEvent::ResultCopied { copied: true });
            let action = run.action(AaxEvent::ResultCopied { copied: true });
            &&& copied.index == run.index + 1
            &&& run.index + 1 < run.count ==> action == (AaxAction::RunTest {
                index: (run.index + 1) as usize,
            }) && copied.awaits(AaxEvent::ProcessEnded { success: true })
            &&& run.index + 1 == run.count ==> action is Finish && copied.phase is Finished
            &&& run.action(AaxEvent::ResultCopied { copied: false }) is Fail
            &&& run.after(AaxEvent::ResultCopied { copied: false }).phase is Failed
        },
{
}

/// What is said of a failure names the test, the plugin or the files that it is about.
pub proof fn failures_name_what_failed(
    test_id: &str,
    path: &str,
    to: &str,
    error: &str,
    process: String,
    copy: String,
    create: String,
    init: String,
)
    requires
        call_ensures(aax_process_failure, (test_id, path), process),
        call_ensures(aax_copy_failure, (path, to, error), copy),
        call_ensures(create_failure, (test_id,), create),
        call_ensures(init_failure, (test_id,), init),
    ensures
        process@ == "AAX validator/DTT failed while running "@ + test_id@ + "; see "@ + path@,
        copy@ == "failed to copy AAX validator result "@ + path@ + " to "@ + to@ + ": "@ + error@,
        create@ == "CLAP factory failed to create plugin id="@ + test_id@,
        init@ == "CLAP plugin init failed for plugin id="@ + test_id@,
{
}

/// What is said of a plugin that cannot be read tells what is missing, and at which position where
/// it is missing at one.
pub proof fn faults_tell_what_is_missing(index: u32)
    ensures
        SchemaFault::NullEntry.text() == "CLAP entry returned a null pointer"@,
        SchemaFault::NoInit.text() == "CLAP entry has no init callback"@,
        SchemaFault::InitFailed.text() == "CLAP entry init failed"@,
        SchemaFault::NoGetFactory.text() == "CLAP entry has no get_factory callback"@,
        SchemaFault::NoFactory.text() == "CLAP plugin factory is not available"@,
        SchemaFault::NoCreatePlugin.text() == "CLAP factory has no create_plugin callback"@,
        SchemaFault::NoPluginCount.text() == "CLAP factory has no get_plugin_count callback"@,
        SchemaFault::NoPlugins.text() == "CLAP factory contains no plugins"@,
        SchemaFault::NoGetDescriptor.text() == "CLAP factory has no get_plugin_descriptor callback"@,
        SchemaFault::NoGetExtension.text() == "CLAP plugin has no get_extension callback"@,
        SchemaFault::NoParameterCount.text() == "CLAP params extension has no count callback"@,
        SchemaFault::NoParameterInfo.text() == "CLAP params extension has no get_info callback"@,
        (SchemaFault::NullDescriptor { index }).text()
            == "CLAP factory returned a null descriptor at index "@ + decimal(index as nat),
        (SchemaFault::NullPluginId { index }).text()
            == "CLAP descriptor has a null plugin id at index "@ + decimal(index as nat),
        (SchemaFault::ParameterInfoFailed { index }).text()
            == "CLAP params.get_info failed for index "@ + decimal(index as nat),
{
}

/// A factory is read where it tells of at least one plugin, and as many as it tells of.
pub proof fn factories_hold_a_plugin(count: Option<u32>, result: Result<u32, SchemaFault>)
    requires
        call_ensures(plugin_count, (count,), result),
    ensures
        result matches Ok(n) ==> n > 0 && count == Some(n),
        result is Ok <==> count is Some && count->Some_0 > 0,
        count is None ==> result->Err_0 is NoPluginCount,
        count == Some(0u32) ==> result->Err_0 is NoPlugins,
{
}

/// A run goes on as the laws above say, and a fault is told in its own words.
pub proof fn runs_go_event_by_event(
    run: &mut AaxRun,
    event: AaxEvent,
    action: AaxAction,
    fault: SchemaFault,
    message: String,
)
    requires
        old(run).wf(),
        old(run).awaits(event),
        call_ensures(AaxRun::advance, (run, event), action),
        call_ensures(SchemaFault::message, (fault,), message),
    ensures
        *final(run) == old(run).after(event),
        action == old(run).action(event),
        final(run).count == old(run).count,
        action is RunTest || action is Finish ==> final(run).index == old(run).index + 1,
        message@ == fault.text(),
{
}

} // verus!

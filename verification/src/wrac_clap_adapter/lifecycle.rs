//! Who may use the processor of a plugin instance, and when it changes hands.
//!
//! The product makes a processor when the plugin is activated and gets it back when the plugin is
//! deactivated. In between, one callback at a time may borrow it. Wrappers call back from any
//! thread and in any order, so every callback is a series of indivisible steps on one state.

use vstd::prelude::*;

use crate::clap_abi::{
    CLAP_PROCESS_CONTINUE,
    CLAP_PROCESS_CONTINUE_IF_NOT_QUIET,
    CLAP_PROCESS_ERROR,
    CLAP_PROCESS_SLEEP,
    CLAP_PROCESS_TAIL,
};
use crate::wrac_clap_adapter::api::ProcessStatus;

verus! {

/// Which lifecycle callback is under way. There is at most one.
#[derive(Debug, Clone, Copy, PartialEq, Eq, Structural)]
pub enum LifecyclePhase {
    Idle,
    /// The product is making a processor.
    Activating,
    /// The product has made a processor, which is not stored yet.
    Storing,
    /// A callback is about to take the processor out.
    Deactivating,
    /// The product is taking the processor back.
    HandingBack,
}

/// The part of a plugin instance that its callbacks compete for.
#[derive(Debug, Clone, Copy, PartialEq, Eq, Structural)]
pub struct InstanceState {
    pub phase: LifecyclePhase,
    /// Whether a processor is stored.
    pub has_processor: bool,
    /// Whether a callback looks at the place where the processor is stored.
    pub processor_busy: bool,
}

/// A step of a callback.
#[derive(Debug, Clone, Copy, PartialEq, Eq, Structural)]
pub enum LifecycleStep {
    /// The host asks to activate the plugin.
    RequestActivation,
    /// The product has made a processor, or has refused to.
    FinishActivation { made: bool },
    /// The new processor is to be stored.
    StoreProcessor,
    /// The host asks to deactivate or to destroy the plugin.
    RequestDeactivation,
    /// The processor is to be taken out.
    TakeProcessor,
    /// The product has taken the processor back.
    FinishDeactivation,
    /// An audio callback wants the processor.
    BorrowProcessor,
    /// The audio callback is done with it.
    ReturnProcessor,
}

/// What follows from a step.
#[derive(Debug, Clone, Copy, PartialEq, Eq, Structural)]
pub enum LifecycleAnswer {
    /// Tell the host that the callback failed.
    Refuse,
    /// Tell the host that the callback succeeded.
    Succeed,
    /// Make the same step again later.
    Retry,
    /// Go on to the next step.
    Proceed,
    /// Ask the product for a processor.
    MakeProcessor,
    /// Hand the processor back to the product.
    HandBackProcessor,
    /// Use the processor, and return it.
    UseProcessor,
    /// There is no processor; return the place.
    NoProcessor,
}

impl InstanceState {
    /// The state of a new instance.
    pub open spec fn initial() -> Self {
        InstanceState { phase: LifecyclePhase::Idle, has_processor: false, processor_busy: false }
    }

    /// Whether a callback can be at the point where it makes the step.
    pub open spec fn allows(self, step: LifecycleStep) -> bool {
        match step {
            LifecycleStep::RequestActivation => true,
            LifecycleStep::FinishActivation { .. } => self.phase is Activating,
            LifecycleStep::StoreProcessor => self.phase is Storing,
            LifecycleStep::RequestDeactivation => true,
            LifecycleStep::TakeProcessor => self.phase is Deactivating,
            LifecycleStep::FinishDeactivation => self.phase is HandingBack,
            LifecycleStep::BorrowProcessor => true,
            LifecycleStep::ReturnProcessor => self.processor_busy,
        }
    }

    /// The state after a step.
    pub open spec fn after(self, step: LifecycleStep) -> Self {
        match step {
            LifecycleStep::RequestActivation => if self.phase is Idle && !self.has_processor
                && !self.processor_busy {
                InstanceState { phase: LifecyclePhase::Activating, ..self }
            } else {
                self
            },
            LifecycleStep::FinishActivation { made } => InstanceState {
                phase: if made {
                    LifecyclePhase::Storing
                } else {
                    LifecyclePhase::Idle
                },
                ..self
            },
            LifecycleStep::StoreProcessor => if self.processor_busy {
                self
            } else {
                InstanceState { phase: LifecyclePhase::Idle, has_processor: true, ..self }
            },
            LifecycleStep::RequestDeactivation => if self.phase is Idle {
                InstanceState { phase: LifecyclePhase::Deactivating, ..self }
            } else {
                self
            },
            LifecycleStep::TakeProcessor => if self.processor_busy {
                self
            } else {
                InstanceState {
                    phase: if self.has_processor {
                        LifecyclePhase::HandingBack
                    } else {
                        LifecyclePhase::Idle
                    },
                    has_processor: false,
                    ..self
                }
            },
            LifecycleStep::FinishDeactivation => InstanceState {
                phase: LifecyclePhase::Idle,
                ..self
            },
            LifecycleStep::BorrowProcessor => InstanceState { processor_busy: true, ..self },
            LifecycleStep::ReturnProcessor => InstanceState { processor_busy: false, ..self },
        }
    }

    /// What follows from a step.
    pub open spec fn answer(self, step: LifecycleStep) -> LifecycleAnswer {
        match step {
            LifecycleStep::RequestActivation => if self.phase is Idle && !self.has_processor
                && !self.processor_busy {
                LifecycleAnswer::MakeProcessor
            } else {
                LifecycleAnswer::Refuse
            },
            LifecycleStep::FinishActivation { made } => if made {
                LifecycleAnswer::Proceed
            } else {
                LifecycleAnswer::Refuse
            },
            LifecycleStep::StoreProcessor => if self.processor_busy {
                LifecycleAnswer::Retry
            } else {
                LifecycleAnswer::Succeed
            },
            LifecycleStep::RequestDeactivation => if self.phase is Idle {
                LifecycleAnswer::Proceed
            } else {
                LifecycleAnswer::Retry
            },
            LifecycleStep::TakeProcessor => if self.processor_busy {
                LifecycleAnswer::Retry
            } else if self.has_processor {
                LifecycleAnswer::HandBackProcessor
            } else {
                LifecycleAnswer::Succeed
            },
            LifecycleStep::FinishDeactivation => LifecycleAnswer::Succeed,
            LifecycleStep::BorrowProcessor => if self.processor_busy {
                LifecycleAnswer::Refuse
            } else if self.has_processor {
                LifecycleAnswer::UseProcessor
            } else {
                LifecycleAnswer::NoProcessor
            },
            LifecycleStep::ReturnProcessor => LifecycleAnswer::Succeed,
        }
    }

    /// The state of a new instance.
    pub fn new() -> (state: Self)
        ensures
            state == InstanceState::initial(),
    {
        InstanceState { phase: LifecyclePhase::Idle, has_processor: false, processor_busy: false }
    }

    /// Makes a step.
    pub fn step(&mut self, step: LifecycleStep) -> (answer: LifecycleAnswer)
        requires
            old(self).allows(step),
        ensures
            *final(self) == old(self).after(step),
            answer == old(self).answer(step),
    {
        match step {
            LifecycleStep::RequestActivation => self.request_activation(),
            LifecycleStep::FinishActivation { made } => {
                if made {
                    self.phase = LifecyclePhase::Storing;
                    LifecycleAnswer::Proceed
                } else {
                    self.phase = LifecyclePhase::Idle;
                    LifecycleAnswer::Refuse
                }
            },
            LifecycleStep::StoreProcessor => {
                if self.processor_busy {
                    LifecycleAnswer::Retry
                } else {
                    self.has_processor = true;
                    self.phase = LifecyclePhase::Idle;
                    LifecycleAnswer::Succeed
                }
            },
            LifecycleStep::RequestDeactivation => {
                if self.phase == LifecyclePhase::Idle {
                    self.phase = LifecyclePhase::Deactivating;
                    LifecycleAnswer::Proceed
                } else {
                    LifecycleAnswer::Retry
                }
            },
            LifecycleStep::TakeProcessor => self.take_processor(),
            LifecycleStep::FinishDeactivation => {
                self.phase = LifecyclePhase::Idle;
                LifecycleAnswer::Succeed
            },
            LifecycleStep::BorrowProcessor => {
                if self.processor_busy {
                    return LifecycleAnswer::Refuse;
                }
                self.processor_busy = true;
                if self.has_processor {
                    LifecycleAnswer::UseProcessor
                } else {
                    LifecycleAnswer::NoProcessor
                }
            },
            LifecycleStep::ReturnProcessor => {
                self.processor_busy = false;
                LifecycleAnswer::Succeed
            },
        }
    }

    /// Starts to activate the plugin, unless another lifecycle callback is under way, a processor
    /// is stored already, or a callback looks at its place.
    fn request_activation(&mut self) -> (answer: LifecycleAnswer)
        ensures
            *final(self) == old(self).after(LifecycleStep::RequestActivation),
            answer == old(self).answer(LifecycleStep::RequestActivation),
    {
        if self.phase == LifecyclePhase::Idle && !self.has_processor_or_busy() {
            self.phase = LifecyclePhase::Activating;
            LifecycleAnswer::MakeProcessor
        } else {
            LifecycleAnswer::Refuse
        }
    }

    /// Takes the processor out, once no callback looks at it.
    fn take_processor(&mut self) -> (answer: LifecycleAnswer)
        ensures
            *final(self) == old(self).after(LifecycleStep::TakeProcessor),
            answer == old(self).answer(LifecycleStep::TakeProcessor),
    {
        if self.processor_busy {
            return LifecycleAnswer::Retry;
        }
        if self.has_processor {
            self.has_processor = false;
            self.phase = LifecyclePhase::HandingBack;
            LifecycleAnswer::HandBackProcessor
        } else {
            self.phase = LifecyclePhase::Idle;
            LifecycleAnswer::Succeed
        }
    }

    /// Whether a processor is stored, or may be. The host may start processing exactly then.
    pub fn has_processor_or_busy(&self) -> (possible: bool)
        ensures
            possible == (self.has_processor || self.processor_busy),
    {
        self.has_processor || self.processor_busy
    }

    /// Whether the layout of the audio ports may change now: no processor relies on the present
    /// one, and no lifecycle callback is under way.
    pub fn can_configure_ports(&self) -> (allowed: bool)
        ensures
            allowed == (self.phase is Idle && !self.has_processor && !self.processor_busy),
    {
        self.phase == LifecyclePhase::Idle && !self.has_processor_or_busy()
    }
}

/// What became of a call to process a block of audio.
#[derive(Debug, Clone, Copy, PartialEq, Eq, Structural)]
pub enum ProcessOutcome {
    MissingInstance,
    /// The host passed no description of the block.
    NullProcess,
    InvalidAudioBuffers,
    ProcessorBusy,
    NoProcessor,
    ProcessorFailed,
    Processed(ProcessStatus),
}

/// The status that the host gets. A fault of the host's data or of the processor is an error; a
/// block that comes at the wrong time is slept through.
pub open spec fn status_of(outcome: ProcessOutcome) -> i32 {
    match outcome {
        ProcessOutcome::MissingInstance => CLAP_PROCESS_ERROR,
        ProcessOutcome::NullProcess => CLAP_PROCESS_SLEEP,
        ProcessOutcome::InvalidAudioBuffers => CLAP_PROCESS_ERROR,
        ProcessOutcome::ProcessorBusy => CLAP_PROCESS_SLEEP,
        ProcessOutcome::NoProcessor => CLAP_PROCESS_SLEEP,
        ProcessOutcome::ProcessorFailed => CLAP_PROCESS_ERROR,
        ProcessOutcome::Processed(ProcessStatus::Continue) => CLAP_PROCESS_CONTINUE,
        ProcessOutcome::Processed(ProcessStatus::ContinueIfNotQuiet) =>
            CLAP_PROCESS_CONTINUE_IF_NOT_QUIET,
        ProcessOutcome::Processed(ProcessStatus::Tail) => CLAP_PROCESS_TAIL,
        ProcessOutcome::Processed(ProcessStatus::Sleep) => CLAP_PROCESS_SLEEP,
    }
}

/// The status that the host gets.
pub fn process_status(outcome: ProcessOutcome) -> (status: i32)
    ensures
        status == status_of(outcome),
{
    match outcome {
        ProcessOutcome::MissingInstance => CLAP_PROCESS_ERROR,
        ProcessOutcome::NullProcess => CLAP_PROCESS_SLEEP,
        ProcessOutcome::InvalidAudioBuffers => CLAP_PROCESS_ERROR,
        ProcessOutcome::ProcessorBusy => CLAP_PROCESS_SLEEP,
        ProcessOutcome::NoProcessor => CLAP_PROCESS_SLEEP,
        ProcessOutcome::ProcessorFailed => CLAP_PROCESS_ERROR,
        ProcessOutcome::Processed(status) => match status {
            ProcessStatus::Continue => CLAP_PROCESS_CONTINUE,
            ProcessStatus::ContinueIfNotQuiet => CLAP_PROCESS_CONTINUE_IF_NOT_QUIET,
            ProcessStatus::Tail => CLAP_PROCESS_TAIL,
            ProcessStatus::Sleep => CLAP_PROCESS_SLEEP,
        },
    }
}

// Histories

/// The state after a series of steps.
pub open spec fn state_after(steps: Seq<LifecycleStep>) -> InstanceState
    decreases steps.len(),
{
    if steps.len() == 0 {
        InstanceState::initial()
    } else {
        state_after(steps.drop_last()).after(steps.last())
    }
}

/// Whether every step of a series was allowed when it was made.
pub open spec fn is_history(steps: Seq<LifecycleStep>) -> bool
    decreases steps.len(),
{
    steps.len() == 0 || (is_history(steps.drop_last()) && state_after(steps.drop_last()).allows(
        steps.last(),
    ))
}

/// How many processors the product has made.
pub open spec fn processors_made(steps: Seq<LifecycleStep>) -> nat
    decreases steps.len(),
{
    if steps.len() == 0 {
        0
    } else {
        processors_made(steps.drop_last()) + if steps.last() == (LifecycleStep::FinishActivation {
            made: true,
        }) {
            1nat
        } else {
            0nat
        }
    }
}

/// How many processors the product has been handed back.
pub open spec fn processors_handed_back(steps: Seq<LifecycleStep>) -> nat
    decreases steps.len(),
{
    if steps.len() == 0 {
        0
    } else {
        let before = state_after(steps.drop_last());
        processors_handed_back(steps.drop_last()) + if before.answer(steps.last())
            is HandBackProcessor {
            1nat
        } else {
            0nat
        }
    }
}

/// Every processor that the product has made is either still there, stored or about to be, or has
/// been handed back to it. At most one is there at a time, and none is made while one is there.
pub proof fn every_processor_is_handed_back_once(steps: Seq<LifecycleStep>)
    requires
        is_history(steps),
    ensures
        ({
            let state = state_after(steps);
            &&& processors_made(steps) == processors_handed_back(steps) + (if state.has_processor {
                1nat
            } else {
                0
            }) + (if state.phase is Storing {
                1nat
            } else {
                0
            })
            &&& (state.phase is Activating || state.phase is Storing || state.phase is HandingBack)
                ==> !state.has_processor
        }),
    decreases steps.len(),
{
    if steps.len() > 0 {
        every_processor_is_handed_back_once(steps.drop_last());
    }
}

/// While one callback uses the processor, no other gets it, and it is not taken out.
pub proof fn a_borrowed_processor_stays(state: InstanceState, step: LifecycleStep)
    requires
        state.processor_busy,
        state.allows(step),
        step != LifecycleStep::ReturnProcessor,
    ensures
        state.after(step).processor_busy,
        state.after(step).has_processor == state.has_processor,
        !(state.answer(step) is UseProcessor),
        !(state.answer(step) is HandBackProcessor),
{
}

/// A deactivation that the host has begun ends without a processor.
pub proof fn deactivation_leaves_no_processor(state: InstanceState)
    requires
        state.phase is Deactivating,
        !state.processor_busy,
    ensures
        !state.after(LifecycleStep::TakeProcessor).has_processor,
        state.answer(LifecycleStep::TakeProcessor) is HandBackProcessor <==> state.has_processor,
{
}

/// Each answer of the processor reaches the host under a number of its own: it goes on, goes on
/// while there is sound, plays its tail, or sleeps. An error has a number that none of them has.
pub proof fn statuses_are_told_apart(status: ProcessStatus, other: ProcessStatus)
    ensures
        status_of(ProcessOutcome::Processed(ProcessStatus::Continue)) == 1,
        status_of(ProcessOutcome::Processed(ProcessStatus::ContinueIfNotQuiet)) == 2,
        status_of(ProcessOutcome::Processed(ProcessStatus::Tail)) == 3,
        status_of(ProcessOutcome::Processed(ProcessStatus::Sleep)) == 4,
        status_of(ProcessOutcome::Processed(status)) == status_of(ProcessOutcome::Processed(other))
            ==> status == other,
        status_of(ProcessOutcome::Processed(status)) != status_of(ProcessOutcome::ProcessorFailed),
        status_of(ProcessOutcome::ProcessorFailed) == 0,
        status_of(ProcessOutcome::InvalidAudioBuffers) == 0,
        status_of(ProcessOutcome::MissingInstance) == 0,
        status_of(ProcessOutcome::NullProcess) == status_of(
            ProcessOutcome::Processed(ProcessStatus::Sleep),
        ),
        status_of(ProcessOutcome::ProcessorBusy) == status_of(
            ProcessOutcome::Processed(ProcessStatus::Sleep),
        ),
        status_of(ProcessOutcome::NoProcessor) == status_of(
            ProcessOutcome::Processed(ProcessStatus::Sleep),
        ),
{
}

/// A processor is asked for exactly where none is there and nothing else is under way; the
/// activation that asked for it is the only one until it is over.
pub proof fn one_activation_at_a_time(state: InstanceState)
    ensures
        state.answer(LifecycleStep::RequestActivation) is MakeProcessor
            || state.answer(LifecycleStep::RequestActivation) is Refuse,
        state.answer(LifecycleStep::RequestActivation) is MakeProcessor ==> {
            let next = state.after(LifecycleStep::RequestActivation);
            &&& !state.has_processor
            &&& next.answer(LifecycleStep::RequestActivation) is Refuse
            &&& next.answer(LifecycleStep::RequestDeactivation) is Retry
            &&& next.allows(LifecycleStep::FinishActivation { made: true })
        },
        state.answer(LifecycleStep::RequestActivation) is Refuse ==> state.after(
            LifecycleStep::RequestActivation,
        ) == state,
        InstanceState::initial().answer(LifecycleStep::RequestActivation) is MakeProcessor,
{
}

/// A processor that was made and stored can be used, and one that was not made cannot.
pub proof fn an_activation_makes_a_processor(state: InstanceState)
    requires
        state.phase is Activating,
        !state.processor_busy,
        !state.has_processor,
    ensures
        ({
            let made = state.after(LifecycleStep::FinishActivation { made: true });
            let stored = made.after(LifecycleStep::StoreProcessor);
            &&& state.answer(LifecycleStep::FinishActivation { made: true }) is Proceed
            &&& made.allows(LifecycleStep::StoreProcessor)
            &&& made.answer(LifecycleStep::StoreProcessor) is Succeed
            &&& stored.answer(LifecycleStep::BorrowProcessor) is UseProcessor
            &&& stored.answer(LifecycleStep::RequestActivation) is Refuse
            &&& stored.answer(LifecycleStep::RequestDeactivation) is Proceed
        }),
        ({
            let refused = state.after(LifecycleStep::FinishActivation { made: false });
            &&& state.answer(LifecycleStep::FinishActivation { made: false }) is Refuse
            &&& refused.answer(LifecycleStep::BorrowProcessor) is NoProcessor
            &&& refused.answer(LifecycleStep::RequestActivation) is MakeProcessor
        }),
{
}

/// A borrowed processor is used by one callback alone, and is there for the next once it was
/// returned.
pub proof fn a_processor_is_lent_once(state: InstanceState)
    requires
        !state.processor_busy,
    ensures
        ({
            let lent = state.after(LifecycleStep::BorrowProcessor);
            &&& state.answer(LifecycleStep::BorrowProcessor) is UseProcessor <==> state.has_processor
            &&& !state.has_processor ==> state.answer(LifecycleStep::BorrowProcessor) is NoProcessor
            &&& lent.answer(LifecycleStep::BorrowProcessor) is Refuse
            &&& lent.answer(LifecycleStep::RequestActivation) is Refuse
            &&& lent.answer(LifecycleStep::TakeProcessor) is Retry
            &&& lent.answer(LifecycleStep::StoreProcessor) is Retry
            &&& lent.after(LifecycleStep::ReturnProcessor) == state
            &&& lent.answer(LifecycleStep::ReturnProcessor) is Succeed
        }),
{
}

/// A deactivation waits for what is under way, takes the processor once, and lets the plugin be
/// activated again.
pub proof fn a_deactivation_ends_idle(state: InstanceState)
    requires
        !state.processor_busy,
    ensures
        state.answer(LifecycleStep::RequestDeactivation) is Proceed <==> state.phase is Idle,
        !(state.phase is Idle) ==> state.answer(LifecycleStep::RequestDeactivation) is Retry
            && state.after(LifecycleStep::RequestDeactivation) == state,
        state.phase is Idle ==> {
            let begun = state.after(LifecycleStep::RequestDeactivation);
            let taken = begun.after(LifecycleStep::TakeProcessor);
            let done = taken.after(LifecycleStep::FinishDeactivation);
            &&& begun.allows(LifecycleStep::TakeProcessor)
            &&& begun.answer(LifecycleStep::RequestDeactivation) is Retry
            &&& state.has_processor ==> begun.answer(LifecycleStep::TakeProcessor)
                is HandBackProcessor && taken.allows(LifecycleStep::FinishDeactivation)
                && taken.answer(LifecycleStep::FinishDeactivation) is Succeed
            &&& !state.has_processor ==> begun.answer(LifecycleStep::TakeProcessor) is Succeed
                && taken == InstanceState::initial()
            &&& done == InstanceState::initial()
        },
{
}

/// The layout of the ports can change exactly where the plugin could be activated, and never
/// while a processor may be there.
pub proof fn layouts_change_between_activations(state: InstanceState, allowed: bool, possible: bool)
    requires
        call_ensures(InstanceState::can_configure_ports, (&state,), allowed),
        call_ensures(InstanceState::has_processor_or_busy, (&state,), possible),
    ensures
        allowed <==> state.answer(LifecycleStep::RequestActivation) is MakeProcessor,
        possible ==> !allowed,
        state.answer(LifecycleStep::BorrowProcessor) is UseProcessor ==> possible,
        state.processor_busy ==> possible,
        state.answer(LifecycleStep::BorrowProcessor) is NoProcessor ==> !possible,
{
}

/// A step of an instance goes as the laws above say, and a block is told its own status.
pub proof fn instances_go_step_by_step(
    fresh: InstanceState,
    state: &mut InstanceState,
    step: LifecycleStep,
    answer: LifecycleAnswer,
    outcome: ProcessOutcome,
    status: i32,
)
    requires
        call_ensures(InstanceState::new, (), fresh),
        call_ensures(InstanceState::step, (state, step), answer),
        call_ensures(process_status, (outcome,), status),
    ensures
        fresh == InstanceState::initial(),
        *final(state) == old(state).after(step),
        answer == old(state).answer(step),
        status == status_of(outcome),
        answer is Retry ==> *final(state) == *old(state),
        answer is UseProcessor ==> old(state).has_processor && !old(state).processor_busy && final(state).processor_busy,
        answer is HandBackProcessor ==> old(state).has_processor && !final(state).has_processor,
{
}

} // verus!

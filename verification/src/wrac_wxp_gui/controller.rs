//! The life of a GUI session: from the host's calls to a runtime inside the host's window.
//!
//! A runtime is created on the GUI thread, after the host's call has returned, so that a session
//! can be closed or replaced while its runtime is being made. Each session has a generation of
//! its own; a runtime is attached only to the session of the generation that asked for it.

use vstd::prelude::*;

use crate::wrac_clap_adapter::api::{GuiConfiguration, GuiSize, PluginError, PluginResult};
use crate::wrac_wxp_gui::layout::{
    nearest_size, size_after, size_result, GuiSizeLimits, HostGuiLayout,
};
use crate::wrac_wxp_gui::window::{ParentWindowHandle, StoredParentWindow};

verus! {

/// How long a new runtime waits after the last one was destroyed, in nanoseconds.
pub const WEBVIEW_RECREATE_QUIET_PERIOD: u64 = 500_000_000;

/// A GUI that the host has opened. `scale` holds the bits of the scale factor, and `handle` the
/// number of the runtime that shows the GUI.
#[derive(Debug, Clone, Copy, PartialEq, Eq, Structural)]
pub struct GuiSession {
    pub generation: u64,
    pub configuration: GuiConfiguration,
    pub scale: u64,
    pub parent: Option<StoredParentWindow>,
    pub has_parent_lease: bool,
    pub handle: Option<u64>,
    pub visible: bool,
}

/// The state that the host's calls and the creation of runtimes share. Times are in
/// nanoseconds of one clock that does not run backwards.
#[derive(Debug, Clone, Copy, PartialEq, Eq, Structural)]
pub struct GuiRuntimeState {
    pub session: Option<GuiSession>,
    pub generation: u64,
    pub last_runtime_destroyed_at: Option<u64>,
    pub is_creating_runtime: bool,
    pub creating_generation: Option<u64>,
    pub pending_creation_generation: Option<u64>,
    pub destroy_requested_while_creating: bool,
}

/// What `show` has to do.
#[derive(Debug, Clone, Copy, PartialEq, Eq, Structural)]
pub enum ShowAction {
    ShowExisting { handle: u64, generation: u64 },
    Create { generation: u64 },
}

/// A runtime that is being created.
#[derive(Debug, Clone, Copy, PartialEq, Eq, Structural)]
pub struct CreationJob {
    pub generation: u64,
    pub configuration: GuiConfiguration,
    pub parent: StoredParentWindow,
    pub phase: CreationPhase,
}

/// How far the creation of a runtime has come.
#[derive(Debug, Clone, Copy, PartialEq, Eq, Structural)]
pub enum CreationPhase {
    Posted,
    Waiting,
    Creating { scale: u64 },
    ScalingNew { handle: u64 },
    Sizing { handle: u64, visible: bool, scale: u64 },
    Scaling { handle: u64, visible: bool },
    Hiding { handle: u64 },
    Discarding { handle: u64, noted: bool },
    Done,
}

/// What happened to a runtime that is being created.
#[derive(Debug, Clone, Copy, PartialEq, Eq, Structural)]
pub enum CreationEvent {
    /// The GUI thread takes the job up.
    Started { now: u64 },
    /// The wait is over.
    Waited,
    /// The runtime exists and has this number.
    Created { handle: u64 },
    /// What was asked of the runtime is done.
    Applied,
    /// The runtime could not be created, or what was asked of it failed.
    Failed,
    /// The runtime is gone.
    Destroyed { now: u64 },
}

/// What to do next for a runtime that is being created.
#[derive(Debug, Clone, Copy, PartialEq, Eq, Structural)]
pub enum CreationAction {
    Wait { nanoseconds: u64 },
    Create { configuration: GuiConfiguration, size: GuiSize, parent: ParentWindowHandle },
    SetScale { handle: u64, scale: u64 },
    SetSize { handle: u64, size: GuiSize },
    Hide { handle: u64 },
    Destroy { handle: u64 },
    /// The job is over; a creation that became pending meanwhile can start.
    Finish,
}

/// The generation after `generation`.
pub open spec fn next_generation(generation: u64) -> u64 {
    if generation == u64::MAX {
        0
    } else {
        (generation + 1) as u64
    }
}

/// How long a new runtime has to wait: what is left of the quiet period, where the last runtime
/// was destroyed within it.
pub open spec fn quiet_time_left(destroyed_at: Option<u64>, now: u64) -> Option<u64> {
    match destroyed_at {
        None => None,
        Some(at) => {
            let elapsed = if now >= at {
                now - at
            } else {
                0
            };
            if elapsed <= WEBVIEW_RECREATE_QUIET_PERIOD {
                Some((WEBVIEW_RECREATE_QUIET_PERIOD - elapsed) as u64)
            } else {
                None
            }
        },
    }
}

fn remaining_quiet_time(destroyed_at: Option<u64>, now: u64) -> (left: Option<u64>)
    ensures
        left == quiet_time_left(destroyed_at, now),
{
    match destroyed_at {
        None => None,
        Some(at) => {
            let elapsed: u64 = if now >= at {
                now - at
            } else {
                0
            };
            if elapsed <= WEBVIEW_RECREATE_QUIET_PERIOD {
                Some(WEBVIEW_RECREATE_QUIET_PERIOD - elapsed)
            } else {
                None
            }
        },
    }
}

impl GuiRuntimeState {
    /// What holds of the state between any two calls: a creation is in progress exactly where
    /// its generation is known, a destroy request belongs to a creation in progress, and the
    /// session is the one opened last.
    pub open spec fn is_consistent(self) -> bool {
        &&& self.is_creating_runtime == (self.creating_generation is Some)
        &&& self.destroy_requested_while_creating ==> self.is_creating_runtime
        &&& self.session matches Some(session) ==> session.generation == self.generation
    }

    /// The session of `generation`, where it is open.
    pub open spec fn session_of(self, generation: u64) -> Option<GuiSession> {
        match self.session {
            Some(session) => if session.generation == generation {
                Some(session)
            } else {
                None
            },
            None => None,
        }
    }

    /// The state with the creation of `generation` no longer in progress.
    pub open spec fn without_creation(self, generation: u64) -> Self {
        if self.creating_generation == Some(generation) {
            GuiRuntimeState {
                is_creating_runtime: false,
                creating_generation: None,
                destroy_requested_while_creating: false,
                ..self
            }
        } else {
            self
        }
    }

    /// The state after the creation of `generation` failed: nothing is in progress or pending.
    pub open spec fn with_failed_creation(self, generation: u64) -> Self {
        if self.creating_generation == Some(generation) {
            GuiRuntimeState {
                pending_creation_generation: None,
                ..self.without_creation(generation)
            }
        } else {
            self
        }
    }

    /// Whether the runtime that was made for `generation` has no use any more.
    pub open spec fn is_unwanted(self, generation: u64) -> bool {
        self.destroy_requested_while_creating || self.session_of(generation) is None
    }

    /// The state after a runtime was made for `generation`. An unwanted runtime makes way for
    /// the session that is open now.
    pub open spec fn with_created(self, generation: u64) -> Self {
        if self.creating_generation == Some(generation) && self.is_unwanted(generation) {
            GuiRuntimeState {
                pending_creation_generation: match self.session {
                    Some(session) => Some(session.generation),
                    None => None,
                },
                ..self.without_creation(generation)
            }
        } else {
            self.without_creation(generation)
        }
    }

    /// The state with another runtime in the open session.
    pub open spec fn with_handle(self, handle: Option<u64>) -> Self {
        match self.session {
            Some(session) => GuiRuntimeState {
                session: Some(GuiSession { handle, ..session }),
                ..self
            },
            None => self,
        }
    }

    /// No session, and nothing in progress.
    pub fn new() -> (state: Self)
        ensures
            state.is_consistent(),
            state == (GuiRuntimeState {
                session: None,
                generation: 0,
                last_runtime_destroyed_at: None,
                is_creating_runtime: false,
                creating_generation: None,
                pending_creation_generation: None,
                destroy_requested_while_creating: false,
            }),
    {
        GuiRuntimeState {
            session: None,
            generation: 0,
            last_runtime_destroyed_at: None,
            is_creating_runtime: false,
            creating_generation: None,
            pending_creation_generation: None,
            destroy_requested_while_creating: false,
        }
    }

    /// Closes the session and hands it out. A runtime that is being created meanwhile is to be
    /// destroyed once it exists.
    pub fn destroy_session(&mut self) -> (dropped: Option<GuiSession>)
        requires
            old(self).is_consistent(),
        ensures
            final(self).is_consistent(),
            dropped == old(self).session,
            *final(self) == if old(self).is_creating_runtime {
                GuiRuntimeState {
                    session: None,
                    generation: next_generation(old(self).generation),
                    destroy_requested_while_creating: true,
                    ..*old(self)
                }
            } else {
                GuiRuntimeState { session: None, ..*old(self) }
            },
    {
        let dropped = self.session;
        self.session = None;
        if self.is_creating_runtime {
            self.generation = generation_after(self.generation);
            self.destroy_requested_while_creating = true;
        }
        dropped
    }

    /// Notes when a runtime was destroyed.
    pub fn note_runtime_destroyed(&mut self, now: u64)
        ensures
            *final(self) == (GuiRuntimeState {
                last_runtime_destroyed_at: Some(now),
                ..*old(self)
            }),
            old(self).is_consistent() ==> final(self).is_consistent(),
    {
        self.last_runtime_destroyed_at = Some(now);
    }

    /// Opens a session of a new generation. It counts as visible until the host hides it, since
    /// some hosts attach a parent without a call to show.
    pub fn open_session(&mut self, configuration: GuiConfiguration, scale: u64) -> (generation: u64)
        requires
            old(self).is_consistent(),
        ensures
            final(self).is_consistent(),
            generation == next_generation(old(self).generation),
            *final(self) == (GuiRuntimeState {
                generation,
                session: Some(
                    GuiSession {
                        generation,
                        configuration,
                        scale,
                        parent: None,
                        has_parent_lease: false,
                        handle: None,
                        visible: true,
                    },
                ),
                ..*old(self)
            }),
    {
        self.generation = generation_after(self.generation);
        let generation: u64 = self.generation;
        self.session = Some(
            GuiSession {
                generation,
                configuration,
                scale,
                parent: None,
                has_parent_lease: false,
                handle: None,
                visible: true,
            },
        );
        generation
    }

    /// Starts the creation of a runtime for the session of `generation`. While another creation
    /// is in progress the request is remembered instead; a session that has a runtime needs none.
    pub fn schedule_runtime_creation(&mut self, generation: u64) -> (result: PluginResult<
        Option<CreationJob>,
    >)
        requires
            old(self).is_consistent(),
        ensures
            final(self).is_consistent(),
            old(self).is_creating_runtime ==> {
                &&& result == Ok::<Option<CreationJob>, PluginError>(None)
                &&& *final(self) == (GuiRuntimeState {
                    pending_creation_generation: Some(generation),
                    ..*old(self)
                })
            },
            !old(self).is_creating_runtime ==> match old(self).session_of(generation) {
                None => {
                    &&& result matches Err(error)
                    &&& error is InvalidState
                    &&& *final(self) == *old(self)
                },
                Some(session) => if session.handle is Some {
                    &&& result == Ok::<Option<CreationJob>, PluginError>(None)
                    &&& *final(self) == *old(self)
                } else {
                    match session.parent {
                        None => {
                            &&& result matches Err(error)
                            &&& error is InvalidState
                            &&& *final(self) == *old(self)
                        },
                        Some(parent) => {
                            &&& result == Ok::<Option<CreationJob>, PluginError>(
                                Some(
                                    CreationJob {
                                        generation,
                                        configuration: session.configuration,
                                        parent,
                                        phase: CreationPhase::Posted,
                                    },
                                ),
                            )
                            &&& *final(self) == (GuiRuntimeState {
                                is_creating_runtime: true,
                                creating_generation: Some(generation),
                                pending_creation_generation: None,
                                destroy_requested_while_creating: false,
                                ..*old(self)
                            })
                        },
                    }
                },
            },
    {
        if self.is_creating_runtime {
            self.pending_creation_generation = Some(generation);
            return Ok(None);
        }
        match self.session {
            None => Err(PluginError::InvalidState),
            Some(session) => {
                if session.generation != generation {
                    return Err(PluginError::InvalidState);
                }
                if session.handle.is_some() {
                    return Ok(None);
                }
                match session.parent {
                    None => Err(PluginError::InvalidState),
                    Some(parent) => {
                        self.is_creating_runtime = true;
                        self.creating_generation = Some(generation);
                        self.pending_creation_generation = None;
                        self.destroy_requested_while_creating = false;
                        Ok(
                            Some(
                                CreationJob {
                                    generation,
                                    configuration: session.configuration,
                                    parent,
                                    phase: CreationPhase::Posted,
                                },
                            ),
                        )
                    },
                }
            },
        }
    }

    /// The generation whose creation is pending and still needed.
    pub open spec fn needed_pending(self) -> Option<u64> {
        match self.pending_creation_generation {
            None => None,
            Some(generation) => match self.session_of(generation) {
                Some(session) => if session.handle is Some {
                    None
                } else {
                    Some(generation)
                },
                None => Some(generation),
            },
        }
    }

    /// Starts the creation that became pending, where it is still needed and possible. The
    /// request is forgotten unless another creation is in progress.
    pub fn schedule_pending_runtime_creation(&mut self) -> (job: Option<CreationJob>)
        requires
            old(self).is_consistent(),
        ensures
            final(self).is_consistent(),
            match old(self).needed_pending() {
                None => job is None && *final(self) == (GuiRuntimeState {
                    pending_creation_generation: None,
                    ..*old(self)
                }),
                Some(generation) => if old(self).is_creating_runtime {
                    job is None && *final(self) == *old(self)
                } else {
                    match old(self).session_of(generation) {
                        Some(session) => match session.parent {
                            Some(parent) => {
                                &&& job == Some(
                                    CreationJob {
                                        generation,
                                        configuration: session.configuration,
                                        parent,
                                        phase: CreationPhase::Posted,
                                    },
                                )
                                &&& *final(self) == (GuiRuntimeState {
                                    is_creating_runtime: true,
                                    creating_generation: Some(generation),
                                    pending_creation_generation: None,
                                    destroy_requested_while_creating: false,
                                    ..*old(self)
                                })
                            },
                            None => job is None && *final(self) == (GuiRuntimeState {
                                pending_creation_generation: None,
                                ..*old(self)
                            }),
                        },
                        None => job is None && *final(self) == (GuiRuntimeState {
                            pending_creation_generation: None,
                            ..*old(self)
                        }),
                    }
                },
            },
    {
        let pending = self.pending_creation_generation;
        self.pending_creation_generation = None;
        let generation: u64 = match pending {
            None => {
                return None;
            },
            Some(generation) => generation,
        };
        if let Some(session) = self.session {
            if session.generation == generation && session.handle.is_some() {
                return None;
            }
        }
        match self.schedule_runtime_creation(generation) {
            Ok(job) => job,
            Err(_) => None,
        }
    }
}

fn generation_after(generation: u64) -> (next: u64)
    ensures
        next == next_generation(generation),
{
    if generation == u64::MAX {
        0
    } else {
        generation + 1
    }
}

// The creation of one runtime

/// A job, the state and the next action after an event.
pub ghost struct Step {
    pub phase: CreationPhase,
    pub state: GuiRuntimeState,
    pub action: CreationAction,
}

impl CreationJob {
    /// Whether the job can take `event`: each phase waits for what its action leads to.
    pub open spec fn takes(self, event: CreationEvent) -> bool {
        match self.phase {
            CreationPhase::Posted => event is Started,
            CreationPhase::Waiting => event is Waited,
            CreationPhase::Creating { .. } => event is Created || event is Failed,
            CreationPhase::ScalingNew { .. } => event is Applied || event is Failed,
            CreationPhase::Sizing { .. } => event is Applied || event is Failed,
            CreationPhase::Scaling { .. } => event is Applied || event is Failed,
            CreationPhase::Hiding { .. } => event is Applied || event is Failed,
            CreationPhase::Discarding { .. } => event is Destroyed,
            CreationPhase::Done => false,
        }
    }

    /// The runtime that the job has to attach or destroy.
    pub open spec fn held(self) -> Option<u64> {
        match self.phase {
            CreationPhase::ScalingNew { handle } => Some(handle),
            CreationPhase::Sizing { handle, .. } => Some(handle),
            CreationPhase::Scaling { handle, .. } => Some(handle),
            CreationPhase::Hiding { handle } => Some(handle),
            CreationPhase::Discarding { handle, .. } => Some(handle),
            _ => None,
        }
    }

    /// The job is over.
    pub open spec fn finished(self, state: GuiRuntimeState) -> Step {
        Step { phase: CreationPhase::Done, state, action: CreationAction::Finish }
    }

    /// The runtime is destroyed, and the job is over after that. `noted` says whether the next
    /// runtime keeps the quiet period.
    pub open spec fn discarded(self, state: GuiRuntimeState, handle: u64, noted: bool) -> Step {
        Step {
            phase: CreationPhase::Discarding { handle, noted },
            state,
            action: CreationAction::Destroy { handle },
        }
    }

    /// The runtime is created with the size and the scale of now, unless the session is gone or
    /// its parent is no window.
    pub open spec fn creating(self, state: GuiRuntimeState, size: GuiSize) -> Step {
        match state.session_of(self.generation) {
            None => self.finished(state.without_creation(self.generation)),
            Some(session) => match self.parent.toolkit_form() {
                None => self.finished(state.with_failed_creation(self.generation)),
                Some(parent) => Step {
                    phase: CreationPhase::Creating { scale: session.scale },
                    state,
                    action: CreationAction::Create {
                        configuration: self.configuration,
                        size,
                        parent,
                    },
                },
            },
        }
    }

    /// The runtime becomes that of the session, unless the session is gone. A runtime that the
    /// session had before is destroyed.
    pub open spec fn attached(self, state: GuiRuntimeState, handle: u64) -> Step {
        match state.session_of(self.generation) {
            None => self.discarded(state, handle, true),
            Some(session) => match session.handle {
                Some(previous) => self.discarded(
                    state.with_handle(Some(handle)),
                    previous,
                    true,
                ),
                None => self.finished(
                    GuiRuntimeState {
                        pending_creation_generation: if state.pending_creation_generation == Some(
                            self.generation,
                        ) {
                            None
                        } else {
                            state.pending_creation_generation
                        },
                        ..state.with_handle(Some(handle))
                    },
                ),
            },
        }
    }

    /// What follows an event, while the accepted size is `size`.
    pub open spec fn step(self, state: GuiRuntimeState, size: GuiSize, event: CreationEvent) -> Step {
        match self.phase {
            CreationPhase::Posted => match event {
                CreationEvent::Started { now } => if state.session_of(self.generation) is None {
                    self.finished(state.without_creation(self.generation))
                } else {
                    match quiet_time_left(state.last_runtime_destroyed_at, now) {
                        Some(nanoseconds) => Step {
                            phase: CreationPhase::Waiting,
                            state,
                            action: CreationAction::Wait { nanoseconds },
                        },
                        None => self.creating(state, size),
                    }
                },
                _ => self.finished(state),
            },
            CreationPhase::Waiting => self.creating(state, size),
            CreationPhase::Creating { scale } => match event {
                CreationEvent::Created { handle } => if state.is_unwanted(self.generation) {
                    self.discarded(state.with_created(self.generation), handle, true)
                } else {
                    Step {
                        phase: CreationPhase::ScalingNew { handle },
                        state: state.with_created(self.generation),
                        action: CreationAction::SetScale { handle, scale },
                    }
                },
                _ => self.finished(state.with_failed_creation(self.generation)),
            },
            CreationPhase::ScalingNew { handle } => if event is Failed {
                self.discarded(state, handle, false)
            } else {
                match state.session_of(self.generation) {
                    None => self.discarded(state, handle, true),
                    Some(session) => Step {
                        phase: CreationPhase::Sizing {
                            handle,
                            visible: session.visible,
                            scale: session.scale,
                        },
                        state,
                        action: CreationAction::SetSize { handle, size },
                    },
                }
            },
            CreationPhase::Sizing { handle, visible, scale } => if event is Failed {
                self.discarded(state, handle, true)
            } else {
                Step {
                    phase: CreationPhase::Scaling { handle, visible },
                    state,
                    action: CreationAction::SetScale { handle, scale },
                }
            },
            CreationPhase::Scaling { handle, visible } => if event is Failed {
                self.discarded(state, handle, true)
            } else if visible {
                self.attached(state, handle)
            } else {
                Step {
                    phase: CreationPhase::Hiding { handle },
                    state,
                    action: CreationAction::Hide { handle },
                }
            },
            CreationPhase::Hiding { handle } => if event is Failed {
                self.discarded(state, handle, true)
            } else {
                self.attached(state, handle)
            },
            CreationPhase::Discarding { noted, .. } => match event {
                CreationEvent::Destroyed { now } => self.finished(
                    if noted {
                        GuiRuntimeState { last_runtime_destroyed_at: Some(now), ..state }
                    } else {
                        state
                    },
                ),
                _ => self.finished(state),
            },
            CreationPhase::Done => self.finished(state),
        }
    }

    fn finish(&mut self) -> (action: CreationAction)
        ensures
            *final(self) == (CreationJob { phase: CreationPhase::Done, ..*old(self) }),
            action == CreationAction::Finish,
    {
        self.phase = CreationPhase::Done;
        CreationAction::Finish
    }

    fn discard(&mut self, handle: u64, noted: bool) -> (action: CreationAction)
        ensures
            *final(self) == (CreationJob {
                phase: CreationPhase::Discarding { handle, noted },
                ..*old(self)
            }),
            action == (CreationAction::Destroy { handle }),
    {
        self.phase = CreationPhase::Discarding { handle, noted };
        CreationAction::Destroy { handle }
    }

    fn create(&mut self, state: &mut GuiRuntimeState, size: GuiSize) -> (action: CreationAction)
        ensures
            old(self).creating(*old(state), size) == (Step {
                phase: final(self).phase,
                state: *final(state),
                action,
            }),
            *final(self) == (CreationJob { phase: final(self).phase, ..*old(self) }),
    {
        match state.session {
            Some(session) => if session.generation == self.generation {
                match self.parent.to_parent_window_handle() {
                    Ok(parent) => {
                        self.phase = CreationPhase::Creating { scale: session.scale };
                        CreationAction::Create { configuration: self.configuration, size, parent }
                    },
                    Err(_) => {
                        state.fail_creation(self.generation);
                        self.finish()
                    },
                }
            } else {
                state.end_creation(self.generation);
                self.finish()
            },
            None => {
                state.end_creation(self.generation);
                self.finish()
            },
        }
    }

    fn attach(&mut self, state: &mut GuiRuntimeState, handle: u64) -> (action: CreationAction)
        ensures
            old(self).attached(*old(state), handle) == (Step {
                phase: final(self).phase,
                state: *final(state),
                action,
            }),
            *final(self) == (CreationJob { phase: final(self).phase, ..*old(self) }),
    {
        match state.session {
            Some(session) => if session.generation == self.generation {
                state.session = Some(GuiSession { handle: Some(handle), ..session });
                match session.handle {
                    Some(previous) => self.discard(previous, true),
                    None => {
                        if let Some(pending) = state.pending_creation_generation {
                            if pending == self.generation {
                                state.pending_creation_generation = None;
                            }
                        }
                        self.finish()
                    },
                }
            } else {
                self.discard(handle, true)
            },
            None => self.discard(handle, true),
        }
    }

    /// Takes an event and says what to do next. `size` is the size that is accepted now.
    pub fn advance(
        &mut self,
        state: &mut GuiRuntimeState,
        size: GuiSize,
        event: CreationEvent,
    ) -> (action: CreationAction)
        requires
            old(self).takes(event),
            old(state).is_consistent(),
        ensures
            final(state).is_consistent(),
            old(self).step(*old(state), size, event) == (Step {
                phase: final(self).phase,
                state: *final(state),
                action,
            }),
            *final(self) == (CreationJob { phase: final(self).phase, ..*old(self) }),
    {
        match self.phase {
            CreationPhase::Posted => match event {
                CreationEvent::Started { now } => {
                    match remaining_quiet_time(state.last_runtime_destroyed_at, now) {
                        Some(nanoseconds) => {
                            if state.is_current(self.generation) {
                                self.phase = CreationPhase::Waiting;
                                CreationAction::Wait { nanoseconds }
                            } else {
                                state.end_creation(self.generation);
                                self.finish()
                            }
                        },
                        None => self.create(state, size),
                    }
                },
                _ => self.finish(),
            },
            CreationPhase::Waiting => self.create(state, size),
            CreationPhase::Creating { scale } => match event {
                CreationEvent::Created { handle } => {
                    if state.finish_runtime_creation_requested_destroy(self.generation) {
                        self.discard(handle, true)
                    } else {
                        self.phase = CreationPhase::ScalingNew { handle };
                        CreationAction::SetScale { handle, scale }
                    }
                },
                _ => {
                    state.fail_creation(self.generation);
                    self.finish()
                },
            },
            CreationPhase::ScalingNew { handle } => match event {
                CreationEvent::Failed => self.discard(handle, false),
                _ => match state.latest_session(self.generation) {
                    None => self.discard(handle, true),
                    Some(session) => {
                        self.phase = CreationPhase::Sizing {
                            handle,
                            visible: session.visible,
                            scale: session.scale,
                        };
                        CreationAction::SetSize { handle, size }
                    },
                },
            },
            CreationPhase::Sizing { handle, visible, scale } => match event {
                CreationEvent::Failed => self.discard(handle, true),
                _ => {
                    self.phase = CreationPhase::Scaling { handle, visible };
                    CreationAction::SetScale { handle, scale }
                },
            },
            CreationPhase::Scaling { handle, visible } => match event {
                CreationEvent::Failed => self.discard(handle, true),
                _ => {
                    if visible {
                        self.attach(state, handle)
                    } else {
                        self.phase = CreationPhase::Hiding { handle };
                        CreationAction::Hide { handle }
                    }
                },
            },
            CreationPhase::Hiding { handle } => match event {
                CreationEvent::Failed => self.discard(handle, true),
                _ => self.attach(state, handle),
            },
            CreationPhase::Discarding { handle: _, noted } => match event {
                CreationEvent::Destroyed { now } => {
                    if noted {
                        state.note_runtime_destroyed(now);
                    }
                    self.finish()
                },
                _ => self.finish(),
            },
            CreationPhase::Done => self.finish(),
        }
    }
}

impl GuiRuntimeState {
    fn is_current(&self, generation: u64) -> (yes: bool)
        ensures
            yes == (self.session_of(generation) is Some),
    {
        match self.session {
            Some(session) => session.generation == generation,
            None => false,
        }
    }

    fn latest_session(&self, generation: u64) -> (session: Option<GuiSession>)
        ensures
            session == self.session_of(generation),
    {
        match self.session {
            Some(session) => if session.generation == generation {
                Some(session)
            } else {
                None
            },
            None => None,
        }
    }

    fn is_creation_of(&self, generation: u64) -> (yes: bool)
        ensures
            yes == (self.creating_generation == Some(generation)),
    {
        match self.creating_generation {
            Some(creating) => creating == generation,
            None => false,
        }
    }

    fn end_creation(&mut self, generation: u64)
        ensures
            *final(self) == old(self).without_creation(generation),
    {
        if self.is_creation_of(generation) {
            self.is_creating_runtime = false;
            self.creating_generation = None;
            self.destroy_requested_while_creating = false;
        }
    }

    fn fail_creation(&mut self, generation: u64)
        ensures
            *final(self) == old(self).with_failed_creation(generation),
    {
        if self.is_creation_of(generation) {
            self.is_creating_runtime = false;
            self.creating_generation = None;
            self.pending_creation_generation = None;
            self.destroy_requested_while_creating = false;
        }
    }

    /// Ends the creation of `generation` and says whether the runtime is unwanted.
    fn finish_runtime_creation_requested_destroy(&mut self, generation: u64) -> (unwanted: bool)
        ensures
            unwanted == old(self).is_unwanted(generation),
            *final(self) == old(self).with_created(generation),
    {
        let unwanted = self.destroy_requested_while_creating || !self.is_current(generation);
        if self.is_creation_of(generation) {
            self.is_creating_runtime = false;
            self.creating_generation = None;
            if unwanted {
                self.pending_creation_generation = match self.session {
                    Some(session) => Some(session.generation),
                    None => None,
                };
            }
            self.destroy_requested_while_creating = false;
        }
        unwanted
    }
}

// The host's calls

impl GuiRuntimeState {
    /// Keeps the scale in the open session, and hands out its runtime, which has to follow.
    pub fn store_scale(&mut self, scale: u64) -> (handle: Option<u64>)
        requires
            old(self).is_consistent(),
        ensures
            final(self).is_consistent(),
            match old(self).session {
                Some(session) => {
                    &&& handle == session.handle
                    &&& *final(self) == (GuiRuntimeState {
                        session: Some(GuiSession { scale, ..session }),
                        ..*old(self)
                    })
                },
                None => handle is None && *final(self) == *old(self),
            },
    {
        match self.session {
            Some(session) => {
                self.session = Some(GuiSession { scale, ..session });
                session.handle
            },
            None => None,
        }
    }

    /// The runtime of the open session.
    pub fn current_handle(&self) -> (handle: Option<u64>)
        ensures
            handle == match self.session {
                Some(session) => session.handle,
                None => None,
            },
    {
        match self.session {
            Some(session) => session.handle,
            None => None,
        }
    }

    /// The runtime that has to take a new size, and the size within the limits that it is given.
    pub open spec fn size_for_runtime(self, limits: GuiSizeLimits, size: GuiSize) -> Option<
        (u64, GuiSize),
    > {
        match self.session {
            Some(session) => match session.handle {
                Some(handle) => Some((handle, nearest_size(size, limits))),
                None => None,
            },
            None => None,
        }
    }

    /// The first step of setting a size: the runtime that has to take it, where there is one, and
    /// the size that it is given. `HostGuiLayout::set_size` is the last, once the runtime has
    /// answered.
    pub fn begin_set_size(&self, layout: &HostGuiLayout, size: GuiSize) -> (step: Option<
        (u64, GuiSize),
    >)
        ensures
            step == self.size_for_runtime(layout.size_limits(), size),
    {
        match self.current_handle() {
            Some(handle) => Some((handle, layout.clamp_size(size))),
            None => None,
        }
    }

    /// The first step of attaching a parent: the generation of the session, and whether the GUI
    /// thread has to be leased first. Another parent can only be set from the GUI thread.
    pub fn begin_set_parent(&self, on_gui_thread: bool) -> (result: PluginResult<(u64, bool)>)
        ensures
            match self.session {
                None => result matches Err(error) && error is InvalidState,
                Some(session) => if session.parent is Some && !on_gui_thread {
                    result matches Err(error) && error is UnsupportedHostGuiThreadingModel
                } else {
                    result == Ok::<(u64, bool), PluginError>(
                        (session.generation, session.parent is None),
                    )
                },
            },
    {
        match self.session {
            None => Err(PluginError::InvalidState),
            Some(session) => match session.parent {
                Some(_) => if !on_gui_thread {
                    Err(PluginError::UnsupportedHostGuiThreadingModel)
                } else {
                    Ok((session.generation, false))
                },
                None => Ok((session.generation, true)),
            },
        }
    }

    /// The second step of attaching a parent: takes the runtime out of the session of
    /// `generation`, to be destroyed before a new one is made on the new parent.
    pub fn detach_runtime(&mut self, generation: u64) -> (result: PluginResult<Option<u64>>)
        requires
            old(self).is_consistent(),
        ensures
            final(self).is_consistent(),
            match old(self).session_of(generation) {
                Some(session) => {
                    &&& result == Ok::<Option<u64>, PluginError>(session.handle)
                    &&& *final(self) == old(self).with_handle(None)
                },
                None => {
                    &&& result matches Err(error)
                    &&& error is InvalidState
                    &&& *final(self) == *old(self)
                },
            },
    {
        match self.latest_session(generation) {
            Some(session) => {
                self.session = Some(GuiSession { handle: None, ..session });
                Ok(session.handle)
            },
            None => Err(PluginError::InvalidState),
        }
    }

    /// Keeps the parent in the session of `generation`, with the lease where one was taken.
    pub fn accept_parent(
        &mut self,
        generation: u64,
        parent: StoredParentWindow,
        leased: bool,
    ) -> (result: PluginResult<()>)
        requires
            old(self).is_consistent(),
        ensures
            final(self).is_consistent(),
            match old(self).session_of(generation) {
                Some(session) => {
                    &&& result is Ok
                    &&& *final(self) == (GuiRuntimeState {
                        session: Some(
                            GuiSession {
                                parent: Some(parent),
                                has_parent_lease: leased || session.has_parent_lease,
                                ..session
                            },
                        ),
                        ..*old(self)
                    })
                },
                None => {
                    &&& result matches Err(error)
                    &&& error is InvalidState
                    &&& *final(self) == *old(self)
                },
            },
    {
        match self.latest_session(generation) {
            Some(session) => {
                self.session = Some(
                    GuiSession {
                        parent: Some(parent),
                        has_parent_lease: leased || session.has_parent_lease,
                        ..session
                    },
                );
                Ok(())
            },
            None => Err(PluginError::InvalidState),
        }
    }

    /// The state with a parent in the open session, and with the lease where one was taken.
    pub open spec fn with_parent(self, parent: StoredParentWindow, leased: bool) -> Self {
        match self.session {
            Some(session) => GuiRuntimeState {
                session: Some(
                    GuiSession {
                        parent: Some(parent),
                        has_parent_lease: leased || session.has_parent_lease,
                        ..session
                    },
                ),
                ..self
            },
            None => self,
        }
    }

    /// The third step of attaching a parent: keeps the parent in the session of `generation`, and
    /// requests the runtime that is to stand in it. While another creation is in progress the
    /// request is remembered instead.
    pub fn attach_parent(
        &mut self,
        generation: u64,
        parent: StoredParentWindow,
        leased: bool,
    ) -> (result: PluginResult<Option<CreationJob>>)
        requires
            old(self).is_consistent(),
        ensures
            final(self).is_consistent(),
            match old(self).session_of(generation) {
                None => {
                    &&& result matches Err(error)
                    &&& error is InvalidState
                    &&& *final(self) == *old(self)
                },
                Some(session) => if old(self).is_creating_runtime {
                    &&& result == Ok::<Option<CreationJob>, PluginError>(None)
                    &&& *final(self) == (GuiRuntimeState {
                        pending_creation_generation: Some(generation),
                        ..old(self).with_parent(parent, leased)
                    })
                } else if session.handle is Some {
                    &&& result == Ok::<Option<CreationJob>, PluginError>(None)
                    &&& *final(self) == old(self).with_parent(parent, leased)
                } else {
                    &&& result == Ok::<Option<CreationJob>, PluginError>(
                        Some(
                            CreationJob {
                                generation,
                                configuration: session.configuration,
                                parent,
                                phase: CreationPhase::Posted,
                            },
                        ),
                    )
                    &&& *final(self) == (GuiRuntimeState {
                        is_creating_runtime: true,
                        creating_generation: Some(generation),
                        pending_creation_generation: None,
                        destroy_requested_while_creating: false,
                        ..old(self).with_parent(parent, leased)
                    })
                },
            },
    {
        match self.accept_parent(generation, parent, leased) {
            Ok(_) => self.schedule_runtime_creation(generation),
            Err(error) => Err(error),
        }
    }

    /// What showing the session takes: its runtime, or one to be created on its parent.
    pub fn show_action(&self) -> (result: PluginResult<ShowAction>)
        ensures
            match self.session {
                None => result matches Err(error) && error is InvalidState,
                Some(session) => match session.handle {
                    Some(handle) => result == Ok::<ShowAction, PluginError>(
                        ShowAction::ShowExisting { handle, generation: session.generation },
                    ),
                    None => if session.parent is Some {
                        result == Ok::<ShowAction, PluginError>(
                            ShowAction::Create { generation: session.generation },
                        )
                    } else {
                        result matches Err(error) && error is InvalidState
                    },
                },
            },
    {
        match self.session {
            None => Err(PluginError::InvalidState),
            Some(session) => match session.handle {
                Some(handle) => Ok(
                    ShowAction::ShowExisting { handle, generation: session.generation },
                ),
                None => if session.parent.is_some() {
                    Ok(ShowAction::Create { generation: session.generation })
                } else {
                    Err(PluginError::InvalidState)
                },
            },
        }
    }

    /// The session to hide: its generation and its runtime.
    pub fn hide_target(&self) -> (result: PluginResult<(u64, Option<u64>)>)
        ensures
            match self.session {
                None => result matches Err(error) && error is InvalidState,
                Some(session) => result == Ok::<(u64, Option<u64>), PluginError>(
                    (session.generation, session.handle),
                ),
            },
    {
        match self.session {
            None => Err(PluginError::InvalidState),
            Some(session) => Ok((session.generation, session.handle)),
        }
    }

    /// Keeps whether the session of `generation` is visible, while it is open.
    pub fn set_visible(&mut self, generation: u64, visible: bool)
        requires
            old(self).is_consistent(),
        ensures
            final(self).is_consistent(),
            *final(self) == match old(self).session_of(generation) {
                Some(session) => GuiRuntimeState {
                    session: Some(GuiSession { visible, ..session }),
                    ..*old(self)
                },
                None => *old(self),
            },
    {
        if let Some(session) = self.session {
            if session.generation == generation {
                self.session = Some(GuiSession { visible, ..session });
            }
        }
    }
}

// What holds of every creation

/// A runtime is only ever attached to the session that asked for it: no step of a job whose
/// session is gone changes the session that is open now.
pub proof fn a_stale_runtime_is_never_attached(
    job: CreationJob,
    state: GuiRuntimeState,
    size: GuiSize,
    event: CreationEvent,
)
    requires
        job.takes(event),
        state.session_of(job.generation) is None,
    ensures
        job.step(state, size, event).state.session == state.session,
{
}

/// A runtime whose session was closed or replaced while it was made is destroyed as soon as it
/// exists, and the session that is open now is next in line.
pub proof fn a_closed_session_discards_its_runtime(
    job: CreationJob,
    state: GuiRuntimeState,
    size: GuiSize,
    handle: u64,
)
    requires
        job.phase is Creating,
        state.creating_generation == Some(job.generation),
        state.destroy_requested_while_creating || state.session_of(job.generation) is None,
    ensures
        ({
            let next = job.step(state, size, CreationEvent::Created { handle });
            &&& next.action == (CreationAction::Destroy { handle })
            &&& next.state.session == state.session
            &&& next.state.pending_creation_generation == match state.session {
                Some(session) => Some(session.generation),
                None => None,
            }
        }),
{
}

/// No runtime is lost: a created one is held by its job; a held one stays held, or becomes that
/// of the session while the job holds the one that the session had before; and only a destroyed
/// one is let go of. A job that is over holds none.
pub proof fn every_runtime_is_attached_or_destroyed(
    job: CreationJob,
    state: GuiRuntimeState,
    size: GuiSize,
    event: CreationEvent,
)
    requires
        job.takes(event),
    ensures
        ({
            let next = job.step(state, size, event);
            let after = CreationJob { phase: next.phase, ..job };
            let had = match state.session {
                Some(session) => session.handle,
                None => None,
            };
            let has = match next.state.session {
                Some(session) => session.handle,
                None => None,
            };
            &&& match event {
                CreationEvent::Created { handle } => after.held() == Some(handle) && has == had,
                CreationEvent::Destroyed { .. } => after.held() is None && has == had,
                _ => {
                    ||| after.held() == job.held() && has == had
                    ||| job.held() is Some && has == job.held() && after.held() == had
                },
            }
            &&& next.action is Finish ==> after.held() is None
            &&& next.action is Finish ==> after.phase is Done
        }),
{
}

/// Once a job is over, nothing is in progress, so that a later call can start a new creation.
pub proof fn a_finished_job_leaves_nothing_in_progress(
    job: CreationJob,
    state: GuiRuntimeState,
    size: GuiSize,
    event: CreationEvent,
)
    requires
        job.takes(event),
        state.is_consistent(),
        state.creating_generation == Some(job.generation),
        job.phase is Posted || job.phase is Waiting || job.phase is Creating,
    ensures
        ({
            let next = job.step(state, size, event);
            !(next.phase is Waiting || next.phase is Creating) ==> !next.state.is_creating_runtime
                && next.state.creating_generation is None
        }),
{
}

/// A runtime is created no sooner than the quiet period after the last one was destroyed.
pub proof fn creation_keeps_the_quiet_period(destroyed_at: u64, now: u64)
    requires
        destroyed_at <= now,
    ensures
        match quiet_time_left(Some(destroyed_at), now) {
            Some(wait) => now + wait == destroyed_at + WEBVIEW_RECREATE_QUIET_PERIOD,
            None => now > destroyed_at + WEBVIEW_RECREATE_QUIET_PERIOD,
        },
{
}

/// A size is accepted as the runtime has taken it. Where setting it succeeds, the accepted size is
/// the one to which the host's is adjusted: it lies within the limits, and a runtime that is there
/// was given it. Where the runtime refuses, its error comes back and the accepted size is that of
/// before. Without a runtime, setting a size always succeeds.
pub proof fn sizes_are_accepted_as_they_were_taken(
    state: GuiRuntimeState,
    limits: GuiSizeLimits,
    accepted: GuiSize,
    size: GuiSize,
    answer: Option<PluginResult<()>>,
)
    requires
        limits.are_ordered(),
        answer is Some == state.size_for_runtime(limits, size) is Some,
    ensures
        size_result(answer) is Ok ==> {
            let after = size_after(limits, accepted, size, answer);
            &&& after == nearest_size(size, limits)
            &&& limits.allow_size(after)
            &&& state.size_for_runtime(limits, size) matches Some((_, given)) ==> given == after
        },
        size_result(answer) matches Err(error) ==> {
            &&& answer == Some(Err::<(), PluginError>(error))
            &&& size_after(limits, accepted, size, answer) == accepted
        },
        state.size_for_runtime(limits, size) is None ==> size_result(answer) is Ok,
{
}

/// A session is opened under a generation that the one before did not have, as the host asked for
/// it, visible and without a window; the host cannot show it before it has a parent.
pub proof fn sessions_open_without_a_window(
    state: &mut GuiRuntimeState,
    configuration: GuiConfiguration,
    scale: u64,
    generation: u64,
    shown: PluginResult<ShowAction>,
    handle: Option<u64>,
    parent: PluginResult<(u64, bool)>,
    on_gui_thread: bool,
)
    requires
        call_ensures(GuiRuntimeState::open_session, (state, configuration, scale), generation),
        call_ensures(GuiRuntimeState::show_action, (final(state),), shown),
        call_ensures(GuiRuntimeState::current_handle, (final(state),), handle),
        call_ensures(GuiRuntimeState::begin_set_parent, (final(state), on_gui_thread), parent),
    ensures
        generation != old(state).generation,
        final(state).session_of(old(state).generation) is None,
        final(state).session_of(generation) matches Some(session) && session.configuration
            == configuration && session.scale == scale && session.visible && session.parent is None
            && session.handle is None && !session.has_parent_lease,
        shown is Err,
        handle is None,
        parent == Ok::<(u64, bool), PluginError>((generation, true)),
        final(state).creating_generation == old(state).creating_generation,
        final(state).pending_creation_generation == old(state).pending_creation_generation,
{
}

/// The first parent needs a lease of the GUI thread and can come from anywhere; another parent
/// needs none and comes from the GUI thread alone.
pub proof fn the_first_parent_takes_the_lease(
    state: GuiRuntimeState,
    on_gui_thread: bool,
    result: PluginResult<(u64, bool)>,
)
    requires
        call_ensures(GuiRuntimeState::begin_set_parent, (&state, on_gui_thread), result),
    ensures
        result is Ok <==> state.session is Some && (state.session->Some_0.parent is None
            || on_gui_thread),
        result matches Ok((generation, lease)) ==> state.session_of(generation) is Some && (lease
            <==> state.session->Some_0.parent is None),
        state.session is None ==> result->Err_0 is InvalidState,
        state.session is Some && result is Err ==> result->Err_0 is UnsupportedHostGuiThreadingModel,
{
}

/// A parent that is attached is where the runtime of its session is made, in the form that the
/// session was opened in; one creation runs at a time, and a second one is remembered.
pub proof fn parents_are_where_runtimes_are_made(
    state: &mut GuiRuntimeState,
    generation: u64,
    parent: StoredParentWindow,
    leased: bool,
    result: PluginResult<Option<CreationJob>>,
)
    requires
        call_ensures(GuiRuntimeState::attach_parent, (state, generation, parent, leased), result),
        old(state).is_consistent(),
    ensures
        result is Ok <==> old(state).session_of(generation) is Some,
        result is Err ==> *final(state) == *old(state),
        result matches Ok(Some(job)) ==> {
            &&& job.generation == generation
            &&& job.parent == parent
            &&& job.configuration == old(state).session->Some_0.configuration
            &&& job.phase is Posted
            &&& !old(state).is_creating_runtime
            &&& final(state).creating_generation == Some(generation)
            &&& old(state).session->Some_0.handle is None
        },
        result == Ok::<Option<CreationJob>, PluginError>(None) && old(state).is_creating_runtime
            ==> final(state).pending_creation_generation == Some(generation) && final(state).creating_generation == old(state).creating_generation,
        result is Ok ==> {
            let before = old(state).session->Some_0;
            let after = final(state).session->Some_0;
            &&& after.parent == Some(parent)
            &&& after.has_parent_lease == (leased || before.has_parent_lease)
            &&& after.generation == before.generation
            &&& after.configuration == before.configuration
            &&& after.scale == before.scale
            &&& after.visible == before.visible
            &&& after.handle == before.handle
        },
{
}

/// While one runtime is made a later request waits, and is taken up once nothing is in progress,
/// where its session is still open, has a parent and has no runtime. It is taken up once.
pub proof fn a_request_that_waited_is_taken_up_once(
    waiting: &mut GuiRuntimeState,
    generation: u64,
    result: PluginResult<Option<CreationJob>>,
    ready: &mut GuiRuntimeState,
    job: Option<CreationJob>,
    later: &mut GuiRuntimeState,
    again: Option<CreationJob>,
)
    requires
        call_ensures(GuiRuntimeState::schedule_runtime_creation, (waiting, generation), result),
        call_ensures(GuiRuntimeState::schedule_pending_runtime_creation, (ready,), job),
        *later == *final(ready),
        call_ensures(GuiRuntimeState::schedule_pending_runtime_creation, (later,), again),
        old(ready).is_consistent(),
    ensures
        old(waiting).is_creating_runtime ==> result == Ok::<Option<CreationJob>, PluginError>(None)
            && final(waiting).pending_creation_generation == Some(generation),
        result matches Ok(Some(started)) ==> started.generation == generation && (old(waiting).session_of(generation) matches Some(session) && session.parent == Some(started.parent)
            && session.handle is None),
        job is Some <==> !old(ready).is_creating_runtime
            && old(ready).pending_creation_generation is Some && (old(ready).session_of(
            old(ready).pending_creation_generation->Some_0,
        ) matches Some(session) && session.handle is None && session.parent is Some),
        job matches Some(started) ==> old(ready).pending_creation_generation == Some(
            started.generation,
        ) && final(ready).creating_generation == Some(started.generation),
        again is None,
{
}

/// A closed session is handed out as it was and leads to nothing more; a runtime that is still
/// being made for it is not wanted any more, under whatever generation comes next.
pub proof fn closed_sessions_want_no_runtime(
    state: &mut GuiRuntimeState,
    dropped: Option<GuiSession>,
    generation: u64,
    handle: Option<u64>,
    hidden: PluginResult<(u64, Option<u64>)>,
)
    requires
        call_ensures(GuiRuntimeState::destroy_session, (state,), dropped),
        call_ensures(GuiRuntimeState::current_handle, (final(state),), handle),
        call_ensures(GuiRuntimeState::hide_target, (final(state),), hidden),
    ensures
        dropped == old(state).session,
        handle is None,
        hidden is Err,
        final(state).session_of(generation) is None,
        final(state).is_unwanted(generation),
        old(state).is_creating_runtime ==> final(state).destroy_requested_while_creating && final(state).generation != old(state).generation,
        final(state).creating_generation == old(state).creating_generation,
{
}

/// What is set in a session is what it has from there on, and nothing else of it changes. What is
/// set for another generation changes nothing.
pub proof fn settings_change_the_open_session_alone(
    shown: &mut GuiRuntimeState,
    generation: u64,
    visible: bool,
    scaled: &mut GuiRuntimeState,
    scale: u64,
    follows: Option<u64>,
    detached: &mut GuiRuntimeState,
    taken: PluginResult<Option<u64>>,
)
    requires
        call_ensures(GuiRuntimeState::set_visible, (shown, generation, visible), ()),
        call_ensures(GuiRuntimeState::store_scale, (scaled, scale), follows),
        call_ensures(GuiRuntimeState::detach_runtime, (detached, generation), taken),
    ensures
        old(shown).session_of(generation) is None ==> *final(shown) == *old(shown),
        old(shown).session_of(generation) matches Some(before) ==> (final(shown).session
            matches Some(after) && after.visible == visible && after.handle == before.handle
            && after.parent == before.parent && after.scale == before.scale),
        old(scaled).session is None ==> follows is None && final(scaled).session is None,
        old(scaled).session matches Some(before) ==> (final(scaled).session matches Some(after)
            && after.scale == scale && after.visible == before.visible && after.parent
            == before.parent && follows == before.handle && after.handle == before.handle),
        taken is Ok <==> old(detached).session_of(generation) is Some,
        taken matches Ok(handle) ==> handle == old(detached).session->Some_0.handle && (final(detached).session matches Some(after) && after.handle is None && after.parent == old(detached).session->Some_0.parent && after.visible == old(detached).session->Some_0.visible),
        taken is Err ==> *final(detached) == *old(detached),
{
}

/// Showing goes to the runtime that is there, and else asks for one on the parent that is there;
/// hiding and resizing go to the runtime that is there.
pub proof fn calls_go_to_the_runtime_that_is_there(
    state: GuiRuntimeState,
    shown: PluginResult<ShowAction>,
    hidden: PluginResult<(u64, Option<u64>)>,
    handle: Option<u64>,
    layout: HostGuiLayout,
    size: GuiSize,
    step: Option<(u64, GuiSize)>,
    clamped: GuiSize,
)
    requires
        call_ensures(GuiRuntimeState::show_action, (&state,), shown),
        call_ensures(GuiRuntimeState::hide_target, (&state,), hidden),
        call_ensures(GuiRuntimeState::current_handle, (&state,), handle),
        call_ensures(GuiRuntimeState::begin_set_size, (&state, &layout, size), step),
        call_ensures(HostGuiLayout::clamp_size, (&layout, size), clamped),
    ensures
        state.session matches Some(session) ==> handle == session.handle && hidden == Ok::<
            (u64, Option<u64>),
            PluginError,
        >((session.generation, session.handle)),
        handle matches Some(h) ==> (shown matches Ok(ShowAction::ShowExisting {
            handle: there,
            generation,
        }) && there == h && state.session_of(generation) is Some) && step == Some((h, clamped)),
        handle is None ==> step is None,
        handle is None && state.session is Some && state.session->Some_0.parent is Some ==> (shown
            matches Ok(ShowAction::Create { generation }) && state.session_of(generation) is Some),
        handle is None && (state.session is None || state.session->Some_0.parent is None)
            ==> shown is Err,
        state.session is None ==> hidden is Err && handle is None,
{
}

/// A runtime is made on the window of its job, in the form of its job and with the size that is
/// accepted then; it is scaled as its session is, given the accepted size, and hidden before it is
/// attached where its session is not visible.
pub proof fn runtimes_are_fitted_before_they_are_attached(
    job: CreationJob,
    state: GuiRuntimeState,
    size: GuiSize,
    event: CreationEvent,
)
    requires
        job.takes(event),
        state.session_of(job.generation) is Some,
    ensures
        ({
            let session = state.session->Some_0;
            let next = job.step(state, size, event);
            &&& next.action matches CreationAction::Create { configuration, size: given, parent }
                ==> configuration == job.configuration && given == size && Some(parent)
                == job.parent.toolkit_form() && next.phase == (CreationPhase::Creating {
                scale: session.scale,
            })
            &&& event matches CreationEvent::Created { handle } ==> (state.is_unwanted(
                job.generation,
            ) || next.action == (CreationAction::SetScale { handle, scale: job.phase->Creating_scale }))
            &&& job.phase matches CreationPhase::ScalingNew { handle } ==> (event is Applied
                ==> next.action == (CreationAction::SetSize { handle, size }) && next.phase == (
            CreationPhase::Sizing { handle, visible: session.visible, scale: session.scale }))
            &&& job.phase matches CreationPhase::Sizing { handle, visible, scale } ==> (event
                is Applied ==> next.action == (CreationAction::SetScale { handle, scale })
                && next.phase == (CreationPhase::Scaling { handle, visible }))
            &&& job.phase matches CreationPhase::Scaling { handle, visible } ==> (event is Applied
                ==> if visible {
                next.state.session->Some_0.handle == Some(handle)
            } else {
                next.action == (CreationAction::Hide { handle }) && next.state == state
            })
            &&& job.phase matches CreationPhase::Hiding { handle } ==> (event is Applied
                ==> next.state.session->Some_0.handle == Some(handle))
            &&& event is Failed ==> match job.held() {
                Some(handle) => next.action == (CreationAction::Destroy { handle }),
                None => next.action is Finish,
            }
        }),
{
}

/// A job that starts within the quiet period waits for the rest of it, and else goes on at once;
/// a runtime that was discarded starts the period anew, unless it never worked.
pub proof fn quiet_periods_follow_runtimes(
    job: CreationJob,
    state: GuiRuntimeState,
    size: GuiSize,
    now: u64,
    at: u64,
)
    ensures
        job.phase is Posted && state.session_of(job.generation) is Some
            && state.last_runtime_destroyed_at == Some(at) && at <= now ==> {
            let next = job.step(state, size, CreationEvent::Started { now });
            &&& now - at <= 500_000_000 ==> next.action == (CreationAction::Wait {
                nanoseconds: (500_000_000 - (now - at)) as u64,
            }) && next.phase is Waiting
            &&& now - at > 500_000_000 ==> !(next.action is Wait)
        },
        job.phase is Posted && state.last_runtime_destroyed_at is None ==> !(job.step(
            state,
            size,
            CreationEvent::Started { now },
        ).action is Wait),
        job.phase matches CreationPhase::Discarding { noted, .. } ==> {
            let next = job.step(state, size, CreationEvent::Destroyed { now });
            &&& next.action is Finish
            &&& noted ==> next.state.last_runtime_destroyed_at == Some(now)
            &&& !noted ==> next.state.last_runtime_destroyed_at == state.last_runtime_destroyed_at
        },
{
}

/// A job goes step by step as the laws above say, and keeps its generation, its form and its
/// window; a parent that is accepted is kept, and the time of a destroyed runtime is noted.
pub proof fn jobs_go_step_by_step(
    job: &mut CreationJob,
    state: &mut GuiRuntimeState,
    size: GuiSize,
    event: CreationEvent,
    action: CreationAction,
    noted: &mut GuiRuntimeState,
    now: u64,
    accepted: &mut GuiRuntimeState,
    generation: u64,
    parent: StoredParentWindow,
    leased: bool,
    result: PluginResult<()>,
)
    requires
        call_ensures(CreationJob::advance, (job, state, size, event), action),
        call_ensures(GuiRuntimeState::note_runtime_destroyed, (noted, now), ()),
        call_ensures(GuiRuntimeState::accept_parent, (accepted, generation, parent, leased), result),
    ensures
        action == old(job).step(*old(state), size, event).action,
        *final(state) == old(job).step(*old(state), size, event).state,
        final(job).phase == old(job).step(*old(state), size, event).phase,
        final(job).generation == old(job).generation,
        final(job).configuration == old(job).configuration,
        final(job).parent == old(job).parent,
        final(noted).last_runtime_destroyed_at == Some(now) && final(noted).session == old(noted).session,
        result is Ok <==> old(accepted).session_of(generation) is Some,
        result is Ok ==> (final(accepted).session matches Some(session) && session.parent == Some(
            parent,
        ) && (leased ==> session.has_parent_lease)),
        result is Err ==> *final(accepted) == *old(accepted),
{
}

} // verus!

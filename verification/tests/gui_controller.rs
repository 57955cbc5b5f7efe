use wrac_plugin::wrac_clap_adapter::api::{GuiApi, GuiConfiguration, GuiSize, PluginError};
use wrac_plugin::wrac_wxp_gui::controller::{
    CreationAction, CreationEvent, CreationJob, GuiRuntimeState, ShowAction,
    WEBVIEW_RECREATE_QUIET_PERIOD,
};
use wrac_plugin::wrac_wxp_gui::layout::{GuiResizePolicy, GuiSizeLimits, HostGuiLayout};
use wrac_plugin::wrac_wxp_gui::window::{ParentWindowHandle, StoredParentWindow};

const SIZE: GuiSize = GuiSize { width: 480, height: 420 };

fn embedded() -> GuiConfiguration {
    GuiConfiguration { api: GuiApi::Win32, is_floating: false }
}

fn parent() -> StoredParentWindow {
    StoredParentWindow::Win32 { hwnd: 77 }
}

/// An open session with a parent, and the job that creates its runtime.
fn scheduled() -> (GuiRuntimeState, u64, CreationJob) {
    let mut state = GuiRuntimeState::new();
    let generation = state.open_session(embedded(), 1.0_f64.to_bits());
    state.accept_parent(generation, parent(), true).unwrap();
    let job = state.schedule_runtime_creation(generation).unwrap().unwrap();
    (state, generation, job)
}

#[test]
fn a_runtime_is_created_and_attached() {
    let (mut state, generation, mut job) = scheduled();
    let action = job.advance(&mut state, SIZE, CreationEvent::Started { now: 5 });
    assert_eq!(
        action,
        CreationAction::Create {
            configuration: embedded(),
            size: SIZE,
            parent: ParentWindowHandle::Win32 { hwnd: 77 },
        }
    );
    let mut action = job.advance(&mut state, SIZE, CreationEvent::Created { handle: 31 });
    let mut steps = Vec::new();
    while action != CreationAction::Finish {
        steps.push(action);
        action = job.advance(&mut state, SIZE, CreationEvent::Applied);
    }
    assert!(steps.contains(&CreationAction::SetScale { handle: 31, scale: 1.0_f64.to_bits() }));
    assert!(steps.contains(&CreationAction::SetSize { handle: 31, size: SIZE }));
    assert_eq!(state.current_handle(), Some(31));
    assert_eq!(
        state.show_action(),
        Ok(ShowAction::ShowExisting { handle: 31, generation })
    );
    assert!(!state.is_creating_runtime);
}

#[test]
fn a_stale_runtime_is_destroyed() {
    let (mut state, _, mut job) = scheduled();
    job.advance(&mut state, SIZE, CreationEvent::Started { now: 5 });
    assert!(state.destroy_session().is_some());
    assert_eq!(
        job.advance(&mut state, SIZE, CreationEvent::Created { handle: 31 }),
        CreationAction::Destroy { handle: 31 }
    );
    assert_eq!(
        job.advance(&mut state, SIZE, CreationEvent::Destroyed { now: 6 }),
        CreationAction::Finish
    );
    assert_eq!(state.current_handle(), None);
    assert!(!state.is_creating_runtime);
}

#[test]
fn creation_waits_for_the_quiet_period() {
    let (mut state, _, mut job) = scheduled();
    state.note_runtime_destroyed(1_000);
    assert_eq!(
        job.advance(&mut state, SIZE, CreationEvent::Started { now: 1_100 }),
        CreationAction::Wait { nanoseconds: WEBVIEW_RECREATE_QUIET_PERIOD - 100 }
    );
    assert!(matches!(
        job.advance(&mut state, SIZE, CreationEvent::Waited),
        CreationAction::Create { .. }
    ));
}

#[test]
fn a_failed_creation_leaves_nothing_in_progress() {
    let (mut state, generation, mut job) = scheduled();
    job.advance(&mut state, SIZE, CreationEvent::Started { now: 5 });
    assert_eq!(job.advance(&mut state, SIZE, CreationEvent::Failed), CreationAction::Finish);
    assert!(!state.is_creating_runtime);
    assert!(state.schedule_runtime_creation(generation).unwrap().is_some());
}

#[test]
fn a_second_request_starts_no_second_job() {
    let (mut state, generation, _job) = scheduled();
    assert!(state.schedule_runtime_creation(generation).unwrap().is_none());
}

#[test]
fn showing_needs_a_session_with_a_parent() {
    let mut state = GuiRuntimeState::new();
    assert!(state.show_action().is_err());
    assert!(state.hide_target().is_err());
    assert!(state.begin_set_parent(true).is_err());
    let generation = state.open_session(embedded(), 1.0_f64.to_bits());
    assert_eq!(state.begin_set_parent(true), Ok((generation, true)));
    state.accept_parent(generation, parent(), true).unwrap();
    assert_eq!(state.show_action(), Ok(ShowAction::Create { generation }));
    assert_eq!(state.hide_target(), Ok((generation, None)));
    assert!(state.accept_parent(generation + 1, parent(), true).is_err());
    assert!(state.detach_runtime(generation + 1).is_err());
    assert_eq!(state.detach_runtime(generation), Ok(None));
}

#[test]
fn scales_reach_the_runtime() {
    let mut state = GuiRuntimeState::new();
    assert_eq!(state.store_scale(2.0_f64.to_bits()), None);
    state.open_session(embedded(), 1.0_f64.to_bits());
    assert_eq!(state.store_scale(2.0_f64.to_bits()), None);
    assert_eq!(state.session.unwrap().scale, 2.0_f64.to_bits());
}

#[test]
fn a_session_that_was_opened_meanwhile_gets_its_runtime() {
    let (mut state, _, mut job) = scheduled();
    job.advance(&mut state, SIZE, CreationEvent::Started { now: 5 });
    assert!(state.destroy_session().is_some());
    let newer = state.open_session(embedded(), 1.0_f64.to_bits());
    state.accept_parent(newer, parent(), true).unwrap();
    assert_eq!(state.schedule_runtime_creation(newer), Ok(None));
    assert_eq!(
        job.advance(&mut state, SIZE, CreationEvent::Created { handle: 31 }),
        CreationAction::Destroy { handle: 31 }
    );
    assert_eq!(
        job.advance(&mut state, SIZE, CreationEvent::Destroyed { now: 6 }),
        CreationAction::Finish
    );
    let pending = state.schedule_pending_runtime_creation().unwrap();
    assert_eq!(pending.generation, newer);
    assert_eq!(state.creating_generation, Some(newer));
    assert_eq!(state.schedule_pending_runtime_creation(), None);
}

#[test]
fn only_the_session_that_was_meant_is_hidden() {
    let (mut state, generation, _) = scheduled();
    state.set_visible(generation + 1, false);
    assert!(state.session.unwrap().visible);
    state.set_visible(generation, false);
    assert!(!state.session.unwrap().visible);
}

#[test]
fn a_size_is_accepted_as_the_runtime_takes_it() {
    let limits = GuiSizeLimits {
        min: GuiSize { width: 100, height: 100 },
        max: GuiSize { width: 300, height: 200 },
    };
    let resizable = GuiResizePolicy { can_resize: true };
    let start = GuiSize { width: 120, height: 130 };
    let mut layout = HostGuiLayout::new(start, limits, resizable);
    let asked = GuiSize { width: 900, height: 150 };
    let adjusted = GuiSize { width: 300, height: 150 };

    let (mut state, _, mut job) = scheduled();
    assert_eq!(state.begin_set_size(&layout, asked), None);
    job.advance(&mut state, SIZE, CreationEvent::Started { now: 5 });
    let mut action = job.advance(&mut state, SIZE, CreationEvent::Created { handle: 31 });
    while action != CreationAction::Finish {
        action = job.advance(&mut state, SIZE, CreationEvent::Applied);
    }
    assert_eq!(state.begin_set_size(&layout, asked), Some((31, adjusted)));

    let refusal = PluginError::Message("failed to resize webview");
    assert_eq!(layout.set_size(asked, Some(Err(refusal))), Err(refusal));
    assert_eq!(layout.accepted_size(), start);
    assert_eq!(layout.set_size(asked, Some(Ok(()))), Ok(()));
    assert_eq!(layout.accepted_size(), adjusted);
    assert_eq!(layout.set_size(GuiSize { width: 1, height: 1 }, None), Ok(()));
    assert_eq!(layout.accepted_size(), limits.min);
}

#[test]
fn attaching_a_parent_requests_a_runtime() {
    let mut state = GuiRuntimeState::new();
    assert!(state.attach_parent(1, parent(), true).is_err());
    let generation = state.open_session(embedded(), 1.0_f64.to_bits());
    assert!(state.attach_parent(generation + 1, parent(), true).is_err());
    assert!(!state.is_creating_runtime);

    let mut job = state.attach_parent(generation, parent(), true).unwrap().unwrap();
    assert!(state.is_creating_runtime);
    assert_eq!(state.creating_generation, Some(generation));
    assert!(state.session.as_ref().is_some_and(|session| session.has_parent_lease));
    assert_eq!(
        job.advance(&mut state, SIZE, CreationEvent::Started { now: 5 }),
        CreationAction::Create {
            configuration: embedded(),
            size: SIZE,
            parent: ParentWindowHandle::Win32 { hwnd: 77 },
        }
    );
}

#[test]
fn attaching_during_a_creation_is_remembered() {
    let (mut state, generation, _job) = scheduled();
    let other = StoredParentWindow::Win32 { hwnd: 78 };
    assert_eq!(state.attach_parent(generation, other, false), Ok(None));
    assert_eq!(state.pending_creation_generation, Some(generation));
    assert_eq!(state.session.as_ref().and_then(|session| session.parent), Some(other));
}

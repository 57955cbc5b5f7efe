//! Which thread owns the GUI.

use vstd::prelude::*;

use crate::wrac_clap_adapter::api::{PluginError, PluginResult};

verus! {

/// The thread that owns the GUI and how many leases bind it there.
#[derive(Debug)]
pub struct GuiThreadState {
    owner: Option<u64>,
    ref_count: usize,
}

impl GuiThreadState {
    /// The thread that owns the GUI, where one does.
    pub closed spec fn owner_thread(self) -> Option<u64> {
        self.owner
    }

    /// How many leases are out.
    pub closed spec fn leases(self) -> nat {
        self.ref_count as nat
    }

    /// Whether a thread may take a lease: no other thread owns the GUI.
    pub open spec fn admits(self, thread: u64) -> bool {
        self.owner_thread() matches Some(owner) ==> owner == thread
    }

    #[verifier::type_invariant]
    spec fn owned_while_leased(self) -> bool {
        self.owner is Some <==> self.ref_count > 0
    }

    /// No thread owns the GUI.
    pub fn new() -> (state: Self)
        ensures
            state.owner_thread() is None,
            state.leases() == 0,
    {
        GuiThreadState { owner: None, ref_count: 0 }
    }

    /// How many leases are out.
    pub fn lease_count(&self) -> (count: usize)
        ensures
            count == self.leases(),
    {
        self.ref_count
    }

    /// Whether `thread` may take a lease.
    pub fn check(&self, thread: u64) -> (result: PluginResult<()>)
        ensures
            match result {
                Ok(_) => self.admits(thread),
                Err(error) => !self.admits(thread) && error is UnsupportedHostGuiThreadingModel,
            },
    {
        match self.owner {
            Some(owner) => if owner != thread {
                Err(PluginError::UnsupportedHostGuiThreadingModel)
            } else {
                Ok(())
            },
            None => Ok(()),
        }
    }

    /// Takes a lease for `thread`, whose run loop was or was not started. Nothing changes where
    /// the lease is refused.
    pub fn acquire(&mut self, thread: u64, run_loop_started: bool) -> (result: PluginResult<()>)
        requires
            old(self).leases() < usize::MAX,
        ensures
            match result {
                Ok(_) => {
                    &&& old(self).admits(thread)
                    &&& run_loop_started
                    &&& final(self).owner_thread() == Some(thread)
                    &&& final(self).leases() == old(self).leases() + 1
                },
                Err(error) => {
                    &&& !old(self).admits(thread) || !run_loop_started
                    &&& error is UnsupportedHostGuiThreadingModel
                    &&& *final(self) == *old(self)
                },
            },
    {
        match self.check(thread) {
            Err(error) => Err(error),
            Ok(_) => {
                if !run_loop_started {
                    return Err(PluginError::UnsupportedHostGuiThreadingModel);
                }
                let ref_count: usize = self.ref_count + 1;
                *self = GuiThreadState { owner: Some(thread), ref_count };
                Ok(())
            },
        }
    }

    /// Gives a lease back. The last one frees the GUI for any thread.
    pub fn release(&mut self)
        ensures
            final(self).leases() == if old(self).leases() > 0 {
                (old(self).leases() - 1) as nat
            } else {
                0
            },
            final(self).owner_thread() == if old(self).leases() > 1 {
                old(self).owner_thread()
            } else {
                None
            },
    {
        let ref_count: usize = if self.ref_count > 0 {
            self.ref_count - 1
        } else {
            0
        };
        let owner = if ref_count == 0 {
            None
        } else {
            self.owner
        };
        proof {
            use_type_invariant(&*self);
        }
        *self = GuiThreadState { owner, ref_count };
    }
}

/// While a thread holds a lease, it may take another and no other thread may take one. Once it
/// has given back as many as it took, any thread may.
pub proof fn leases_bind_the_gui_to_a_thread(
    first: &mut GuiThreadState,
    thread: u64,
    other: u64,
    taken: PluginResult<()>,
    own: PluginResult<()>,
    foreign: PluginResult<()>,
    second: &mut GuiThreadState,
)
    requires
        old(first).leases() == 0,
        old(first).owner_thread() is None,
        other != thread,
        call_ensures(GuiThreadState::acquire, (first, thread, true), taken),
        call_ensures(GuiThreadState::check, (final(first), thread), own),
        call_ensures(GuiThreadState::check, (final(first), other), foreign),
        *second == *final(first),
        call_ensures(GuiThreadState::release, (second,), ()),
    ensures
        taken is Ok,
        own is Ok,
        foreign is Err && foreign->Err_0 is UnsupportedHostGuiThreadingModel,
        final(first).leases() == 1,
        final(second).leases() == 0,
        final(second).admits(other),
        final(second).admits(thread),
{
}

/// A lease that was given back is gone, and those that are left keep their thread. A lease without
/// a run loop is never given, and a lease that is refused changes nothing.
pub proof fn leases_are_counted(
    taken: &mut GuiThreadState,
    thread: u64,
    run_loop_started: bool,
    result: PluginResult<()>,
    released: &mut GuiThreadState,
    count: usize,
)
    requires
        call_ensures(GuiThreadState::acquire, (taken, thread, run_loop_started), result),
        *released == *final(taken),
        call_ensures(GuiThreadState::release, (released,), ()),
        call_ensures(GuiThreadState::lease_count, (final(taken),), count),
    ensures
        !run_loop_started ==> result is Err,
        result is Ok ==> count == old(taken).leases() + 1 && final(released).leases()
            == old(taken).leases(),
        result is Ok && old(taken).leases() > 0 ==> final(released).owner_thread() == Some(thread),
        result is Ok ==> old(taken).owner_thread() is None || old(taken).owner_thread() == Some(
            thread,
        ),
        result is Err ==> count == old(taken).leases() && *final(taken) == *old(taken),
        run_loop_started && (old(taken).owner_thread() is None || old(taken).owner_thread() == Some(
            thread,
        )) ==> result is Ok,
{
}

} // verus!

//! A timer that runs a callback again and again on a run loop.
//!
//! The run loop itself is elsewhere; this is when the timer asks it for a call.

use vstd::prelude::*;

verus! {

/// What happens to a timer. Where the run loop calls a timer that runs, the callback itself can
/// start and stop it before the tick is over.
#[derive(Debug, Clone, Copy, PartialEq, Eq, Structural)]
pub enum TimerEvent {
    Start,
    Stop,
    BeginTick,
    EndTick,
}

/// Whether a timer runs, whether it is due, and whether its callback is running.
pub ghost struct TimerModel {
    pub running: bool,
    pub due: bool,
    pub in_callback: bool,
}

/// A new timer.
pub open spec fn idle() -> TimerModel {
    TimerModel { running: false, due: false, in_callback: false }
}

/// Whether an event can happen: the run loop calls only a timer that is due, and only a callback
/// that runs is over.
pub open spec fn can_happen(timer: TimerModel, event: TimerEvent) -> bool {
    match event {
        TimerEvent::Start | TimerEvent::Stop => true,
        TimerEvent::BeginTick => timer.due && !timer.in_callback,
        TimerEvent::EndTick => timer.in_callback,
    }
}

/// A timer after an event.
pub open spec fn after_event(timer: TimerModel, event: TimerEvent) -> TimerModel {
    match event {
        TimerEvent::Start => TimerModel {
            running: true,
            due: timer.due || !timer.running,
            in_callback: timer.in_callback,
        },
        TimerEvent::Stop => TimerModel {
            running: false,
            due: false,
            in_callback: timer.in_callback,
        },
        TimerEvent::BeginTick => TimerModel {
            running: timer.running,
            due: false,
            in_callback: timer.running,
        },
        TimerEvent::EndTick => TimerModel {
            running: timer.running,
            due: timer.due || timer.running,
            in_callback: false,
        },
    }
}

/// Whether a timer runs, and whether the run loop is to call it.
#[derive(Debug, Clone, Copy, PartialEq, Eq, Structural)]
pub struct Timer {
    running: bool,
    scheduled: bool,
}

impl Timer {
    /// Whether the timer runs.
    pub closed spec fn runs(self) -> bool {
        self.running
    }

    /// Whether the run loop is to call the timer.
    pub closed spec fn is_due(self) -> bool {
        self.scheduled
    }

    /// The timer, where its callback is running or not.
    pub open spec fn model(self, in_callback: bool) -> TimerModel {
        TimerModel { running: self.runs(), due: self.is_due(), in_callback }
    }

    /// A timer that does not run.
    pub fn new() -> (timer: Self)
        ensures
            timer.model(false) == idle(),
    {
        Timer { running: false, scheduled: false }
    }

    /// Whether the timer runs.
    pub fn is_running(&self) -> (running: bool)
        ensures
            running == self.runs(),
    {
        self.running
    }

    /// Starts the timer. The result says whether the run loop is to be asked for a call, which
    /// is not so for a timer that runs already.
    pub fn start(&mut self) -> (schedule: bool)
        ensures
            schedule == !old(self).runs(),
            forall|in_callback: bool| #[trigger]
                final(self).model(in_callback) == after_event(
                    old(self).model(in_callback),
                    TimerEvent::Start,
                ),
    {
        if self.running {
            return false;
        }
        self.running = true;
        self.scheduled = true;
        true
    }

    /// Stops the timer. The result says whether a call of the run loop is to be cancelled.
    pub fn stop(&mut self) -> (cancel: bool)
        ensures
            cancel == old(self).is_due(),
            forall|in_callback: bool| #[trigger]
                final(self).model(in_callback) == after_event(
                    old(self).model(in_callback),
                    TimerEvent::Stop,
                ),
    {
        self.running = false;
        let cancel = self.scheduled;
        self.scheduled = false;
        cancel
    }

    /// The run loop calls the timer. The result says whether the callback is to run.
    pub fn begin_tick(&mut self) -> (run: bool)
        ensures
            run == old(self).runs(),
            final(self).model(run) == after_event(old(self).model(false), TimerEvent::BeginTick),
    {
        self.scheduled = false;
        self.running
    }

    /// The callback has run. The result says whether the run loop is to be asked for the next
    /// call, which is not so where the callback has stopped the timer, or has started it anew.
    pub fn end_tick(&mut self) -> (schedule: bool)
        ensures
            schedule == (old(self).runs() && !old(self).is_due()),
            final(self).model(false) == after_event(old(self).model(true), TimerEvent::EndTick),
    {
        if self.running && !self.scheduled {
            self.scheduled = true;
            true
        } else {
            false
        }
    }
}

// Histories

/// Whether every event of a series can happen.
pub open spec fn is_history(events: Seq<TimerEvent>) -> bool
    decreases events.len(),
{
    events.len() == 0 || (is_history(events.drop_last()) && can_happen(
        timer_after(events.drop_last()),
        events.last(),
    ))
}

/// A timer after a series of events.
pub open spec fn timer_after(events: Seq<TimerEvent>) -> TimerModel
    decreases events.len(),
{
    if events.len() == 0 {
        idle()
    } else {
        after_event(timer_after(events.drop_last()), events.last())
    }
}

/// A timer that does not run is never due, so a stopped timer is not called; and one that runs
/// is due, or its callback is running.
pub proof fn a_timer_is_due_while_it_runs(events: Seq<TimerEvent>)
    requires
        is_history(events),
    ensures
        ({
            let timer = timer_after(events);
            &&& timer.due ==> timer.running
            &&& timer.running ==> timer.due || timer.in_callback
        }),
    decreases events.len(),
{
    if events.len() > 0 {
        a_timer_is_due_while_it_runs(events.drop_last());
    }
}

/// A timer that does not run asks the run loop for one call when it is started, and for none when
/// it is started again; a stop takes that call back, and leaves nothing to take back.
pub proof fn starts_ask_once_and_stops_take_back(
    timer: Timer,
    first: &mut Timer,
    second: &mut Timer,
    third: &mut Timer,
    fourth: &mut Timer,
    asked: (bool, bool),
    cancelled: (bool, bool),
    running: (bool, bool),
)
    requires
        call_ensures(Timer::new, (), timer),
        *first == timer,
        call_ensures(Timer::start, (first,), asked.0),
        call_ensures(Timer::is_running, (final(first),), running.0),
        *second == *final(first),
        call_ensures(Timer::start, (second,), asked.1),
        *third == *final(second),
        call_ensures(Timer::stop, (third,), cancelled.0),
        call_ensures(Timer::is_running, (final(third),), running.1),
        *fourth == *final(third),
        call_ensures(Timer::stop, (fourth,), cancelled.1),
    ensures
        asked == (true, false),
        cancelled == (true, false),
        running == (true, false),
{
    assert(timer.model(false) == idle());
    assert(final(first).model(false).due);
    assert(final(second).model(false).due);
    assert(!final(third).model(false).due);
}

/// A timer runs its callback while it runs, and asks for the next call once the callback is over,
/// unless the callback has stopped it, or has started it anew, which asks by itself.
pub proof fn ticks_follow_each_other(
    begun: &mut Timer,
    run: bool,
    ended: &mut Timer,
    again: bool,
    stopped: &mut Timer,
    cancelled: bool,
    over: &mut Timer,
    next: bool,
    restarted: &mut Timer,
    asked: bool,
    late: &mut Timer,
    twice: bool,
)
    requires
        call_ensures(Timer::begin_tick, (begun,), run),
        *ended == *final(begun),
        call_ensures(Timer::end_tick, (ended,), again),
        *stopped == *final(begun),
        call_ensures(Timer::stop, (stopped,), cancelled),
        *over == *final(stopped),
        call_ensures(Timer::end_tick, (over,), next),
        *restarted == *final(stopped),
        call_ensures(Timer::start, (restarted,), asked),
        *late == *final(restarted),
        call_ensures(Timer::end_tick, (late,), twice),
    ensures
        run <==> old(begun).runs(),
        again <==> old(begun).runs(),
        final(ended).is_due() <==> old(begun).runs(),
        !cancelled,
        !next && !final(over).is_due(),
        asked && !twice && final(late).is_due(),
{
    assert(!final(begun).model(run).due);
    assert(final(begun).model(run).running == old(begun).model(false).running);
    assert(final(ended).model(false).due == old(begun).model(false).running);
    assert(!final(stopped).model(true).running);
    assert(!final(over).model(false).due);
    assert(final(restarted).model(true).due);
    assert(final(late).model(false).due);
}

} // verus!

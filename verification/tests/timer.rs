use wrac_plugin::run_loop_timer::Timer;

#[test]
fn timer_state_tracks_start_and_stop() {
    let mut timer = Timer::new();

    assert!(!timer.is_running());
    timer.start();
    assert!(timer.is_running());
    timer.stop();
    assert!(!timer.is_running());
}

/// Plays a run loop on which time passes, and counts the callbacks.
struct RunLoop {
    now: u32,
    due: Option<u32>,
    interval: u32,
    counter: u32,
}

impl RunLoop {
    fn start(&mut self, timer: &mut Timer) {
        if timer.start() {
            self.due = Some(self.now + self.interval);
        }
    }

    fn stop(&mut self, timer: &mut Timer) {
        if timer.stop() {
            self.due = None;
        }
    }

    fn delay(&mut self, timer: &mut Timer, millis: u32) {
        let end = self.now + millis;
        while let Some(due) = self.due {
            if due > end {
                break;
            }
            self.now = due;
            self.due = None;
            if timer.begin_tick() {
                self.counter += 1;
                if timer.end_tick() {
                    self.due = Some(self.now + self.interval);
                }
            }
        }
        self.now = end;
    }
}

#[test]
fn stop_cancels_next_schedule() {
    let mut timer = Timer::new();
    let mut run_loop = RunLoop { now: 0, due: None, interval: 100, counter: 0 };

    run_loop.start(&mut timer);
    run_loop.delay(&mut timer, 150);
    run_loop.stop(&mut timer);
    run_loop.delay(&mut timer, 200);

    assert_eq!(run_loop.counter, 1);
}

#[test]
fn a_running_timer_ticks_on() {
    let mut timer = Timer::new();
    let mut run_loop = RunLoop { now: 0, due: None, interval: 100, counter: 0 };
    run_loop.start(&mut timer);
    run_loop.delay(&mut timer, 350);
    assert_eq!(run_loop.counter, 3);
    assert!(timer.is_running());
}

#[test]
fn a_second_start_asks_for_no_second_call() {
    let mut timer = Timer::new();
    assert!(timer.start());
    assert!(!timer.start());
}

#[test]
fn a_callback_can_stop_its_timer() {
    let mut timer = Timer::new();
    assert!(timer.start());
    assert!(timer.begin_tick());
    assert!(!timer.stop());
    assert!(!timer.end_tick());
    assert!(!timer.is_running());
}

#[test]
fn a_callback_can_start_its_timer_anew() {
    let mut timer = Timer::new();
    assert!(timer.start());
    assert!(timer.begin_tick());
    timer.stop();
    assert!(timer.start());
    assert!(!timer.end_tick());
    assert!(timer.stop());
}

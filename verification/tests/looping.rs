use status_bar::driver::EventLoopDriver;
use status_bar::driver::HostStep;
use status_bar::terminate::LoopTerminator;
use status_bar::terminate::NopLoopTerminatee;

#[derive(Default)]
struct StepCounter {
    finish_launching: u32,
    open_scope: u32,
    run_tick_work: u32,
    poll_event: u32,
    update_windows: u32,
    sleep_tick: u32,
    close_scope: u32,
}

impl StepCounter {
    fn record(&mut self, step: HostStep) {
        match step {
            HostStep::FinishLaunching => self.finish_launching += 1,
            HostStep::OpenScope => self.open_scope += 1,
            HostStep::RunTickWork => self.run_tick_work += 1,
            HostStep::PollEvent => self.poll_event += 1,
            HostStep::UpdateWindows => self.update_windows += 1,
            HostStep::SleepTick => self.sleep_tick += 1,
            HostStep::CloseScope => self.close_scope += 1,
            HostStep::Halt => {}
        }
    }
}

#[test]
fn event_loop() {
    // A terminator that "fires after a delay": the flag turns on after a
    // fixed number of driver steps, mid-batch.
    let mut driver = EventLoopDriver::new();
    let mut counter = StepCounter::default();
    let mut steps_taken: u32 = 0;
    let fire_after: u32 = 50;
    loop {
        let step = driver.next_step(steps_taken >= fire_after);
        if matches!(step, HostStep::Halt) {
            break;
        }
        counter.record(step);
        steps_taken += 1;
    }
    assert_eq!(counter.finish_launching, 1);
    assert!(1 < counter.update_windows);
    assert!(1 < counter.poll_event);
    assert!(1 < counter.run_tick_work);
    assert!(1 < counter.sleep_tick);
    // cooperative cancellation: the loop stops at the next per-tick check
    assert!(steps_taken <= fire_after + 6);
    assert!(driver.is_terminated());
}

#[test]
fn event_loop_tick_order() {
    let mut driver = EventLoopDriver::new();
    let mut first_ten = Vec::new();
    for _ in 0..10 {
        first_ten.push(driver.next_step(false));
    }
    assert_eq!(
        first_ten,
        vec![
            HostStep::FinishLaunching,
            HostStep::OpenScope,
            HostStep::RunTickWork,
            HostStep::PollEvent,
            HostStep::UpdateWindows,
            HostStep::SleepTick,
            HostStep::RunTickWork,
            HostStep::PollEvent,
            HostStep::UpdateWindows,
            HostStep::SleepTick,
        ]
    );
}

#[test]
fn event_loop_scope_boundary() {
    // 100 ticks per scoped allocation region: the region is closed and a new
    // one opened after the hundredth tick.
    let mut driver = EventLoopDriver::new();
    let mut steps = Vec::new();
    // launch + open + 100 ticks of 4 steps each, then the boundary
    for _ in 0..(2 + 100 * 4 + 2) {
        steps.push(driver.next_step(false));
    }
    assert_eq!(steps[0], HostStep::FinishLaunching);
    assert_eq!(steps[1], HostStep::OpenScope);
    assert_eq!(steps[2 + 100 * 4 - 1], HostStep::SleepTick);
    assert_eq!(steps[2 + 100 * 4], HostStep::CloseScope);
    assert_eq!(steps[2 + 100 * 4 + 1], HostStep::OpenScope);
    assert_eq!(steps.iter().filter(|s| matches!(s, HostStep::CloseScope)).count(), 1);
    assert_eq!(steps.iter().filter(|s| matches!(s, HostStep::FinishLaunching)).count(), 1);
}

#[test]
fn terminated_driver_only_halts() {
    let mut driver = EventLoopDriver::new();
    driver.next_step(true);
    driver.next_step(true);
    driver.next_step(true);
    assert!(driver.is_terminated());
    for _ in 0..5 {
        assert!(matches!(driver.next_step(false), HostStep::Halt));
    }
}

#[test]
fn terminator_signals_termination() {
    let (terminator, mut terminatee) = LoopTerminator::new();
    assert!(!terminatee.should_terminate());
    terminator.terminate();
    assert!(terminatee.should_terminate());
}

#[test]
fn termination_is_terminal() {
    // the channel hands the one-shot signal out only once; the terminatee
    // latches it, so the observation never reverts while the sender lives
    let (terminator, mut terminatee) = LoopTerminator::new();
    terminator.terminate();
    assert!(terminatee.should_terminate());
    assert!(terminatee.should_terminate());
    drop(terminator);
    assert!(terminatee.should_terminate());
}

#[test]
fn terminate_after_terminatee_gone_is_harmless() {
    let (terminator, terminatee) = LoopTerminator::new();
    drop(terminatee);
    terminator.terminate();
}

#[test]
fn loop_terminator_dropped() {
    // dropping the terminator without firing reads as terminate, never as
    // run-forever
    let (terminator, mut terminatee) = LoopTerminator::new();
    drop(terminator);
    assert!(terminatee.should_terminate());
    assert!(terminatee.should_terminate());
}

#[test]
fn nop_terminatee_never_terminates() {
    let terminatee = NopLoopTerminatee {};
    for _ in 0..3 {
        assert!(!terminatee.should_terminate());
    }
}

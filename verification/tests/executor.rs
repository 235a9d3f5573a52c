use coop_rt::rt::{
    sleep_for, wait_button_release, Executor, FatalError, NoopWaker, SleepChain, Task,
    TASK_CAPACITY,
};
use coop_rt::time::{Duration, Instant};

fn at(ms: u32) -> Instant {
    Instant::from_millis(ms)
}

fn zero_sleep_task() -> Task {
    Task::Sleep(sleep_for(at(0), Duration::from_millis(0)))
}

/// Drives sweeps with an advancing synthetic clock until the table is
/// idle; panics if that takes more than `limit` sweeps.
fn run_to_idle(ex: &mut Executor, limit: u32) -> u32 {
    let mut sweeps: u32 = 0;
    loop {
        let busy = ex.sweep(at(sweeps), false);
        sweeps += 1;
        if !busy {
            return sweeps;
        }
        assert!(sweeps < limit, "executor failed to go idle");
    }
}

#[test]
fn new_executor_is_empty_and_idle() {
    let mut ex = Executor::new();
    assert_eq!(ex.task_count(), 0);
    assert!(!ex.sweep(at(0), false));
}

#[test]
fn run_terminates_for_each_registration_count() {
    // Zero to four eventually-ready waits: the driving loop always
    // reaches the idle sweep.
    for n in 0..=TASK_CAPACITY {
        let mut ex = Executor::new();
        for i in 0..n {
            ex = ex.with_task(Task::Sleep(sleep_for(at(0), Duration::from_millis(5 * i as u32))));
        }
        assert_eq!(ex.task_count(), n);
        run_to_idle(&mut ex, 100);
        assert_eq!(ex.task_count(), 0);
    }
}

#[test]
fn fifth_task_is_refused_with_capacity_error() {
    let mut ex = Executor::new();
    for _ in 0..4 {
        ex = match ex.try_with_task(zero_sleep_task()) {
            Ok(ex) => ex,
            Err(_) => panic!("a free slot was refused"),
        };
    }
    assert_eq!(ex.task_count(), 4);
    match ex.try_with_task(zero_sleep_task()) {
        Ok(_) => panic!("a fifth task must not be accepted"),
        Err(e) => assert_eq!(e, FatalError::CapacityExceeded),
    }
}

#[test]
fn completed_task_vacates_its_slot_immediately() {
    let mut ex = Executor::new()
        .with_task(Task::Sleep(sleep_for(at(0), Duration::from_millis(0))))
        .with_task(Task::Sleep(sleep_for(at(0), Duration::from_millis(1000))));
    assert_eq!(ex.task_count(), 2);
    assert!(ex.sweep(at(0), false));
    assert_eq!(ex.task_count(), 1);
    // The long wait stays; further sweeps before its deadline change nothing.
    assert!(ex.sweep(at(500), false));
    assert_eq!(ex.task_count(), 1);
    assert!(!ex.sweep(at(1000), false));
    assert_eq!(ex.task_count(), 0);
}

#[test]
fn stuck_first_slot_does_not_starve_later_slots() {
    // X never completes; Y and Z are chains that need several polls.
    // Every sweep still steps Y and Z, so they finish while X stays.
    let x = Task::Sleep(sleep_for(at(0), Duration::from_millis(1_000_000)));
    let y = Task::Chain(
        SleepChain::new(at(0), Duration::from_millis(0))
            .then_wait(Duration::from_millis(0))
            .then_wait(Duration::from_millis(0)),
    );
    let z = Task::Chain(SleepChain::new(at(0), Duration::from_millis(0)).then_wait(
        Duration::from_millis(0),
    ));
    let mut ex = Executor::new().with_task(x).with_task(y).with_task(z);
    assert_eq!(ex.task_count(), 3);
    assert!(ex.sweep(at(0), false));
    assert_eq!(ex.task_count(), 3);
    assert!(ex.sweep(at(1), false));
    assert_eq!(ex.task_count(), 2); // z done after its two waits
    assert!(ex.sweep(at(2), false));
    assert_eq!(ex.task_count(), 1); // y done after its three waits
    assert!(ex.sweep(at(3), false));
    assert_eq!(ex.task_count(), 1); // x pends forever
}

#[test]
fn button_task_completes_on_release() {
    let mut ex = Executor::new().with_task(Task::ButtonWait(wait_button_release(false, at(0))));
    assert!(ex.sweep(at(1), false)); // idle: no press seen yet
    assert!(ex.sweep(at(2), true)); // press observed
    assert!(ex.sweep(at(3), true)); // still held
    assert!(!ex.sweep(at(4), false)); // released: task done, table idle
    assert_eq!(ex.task_count(), 0);
}

#[test]
fn chain_waits_run_back_to_back() {
    // 3 waits of 10 ms each, started at their predecessor's completion.
    let chain = SleepChain::new(at(0), Duration::from_millis(10))
        .then_wait(Duration::from_millis(10))
        .then_wait(Duration::from_millis(10));
    let mut ex = Executor::new().with_task(Task::Chain(chain));
    assert!(ex.sweep(at(5), false)); // first wait pending
    assert!(ex.sweep(at(10), false)); // first done, second starts at 10
    assert!(ex.sweep(at(19), false)); // second pending
    assert!(ex.sweep(at(20), false)); // second done, third starts at 20
    assert!(ex.sweep(at(29), false)); // third pending
    assert!(!ex.sweep(at(30), false)); // third done: chain complete
}

#[test]
fn waker_handles_are_inert_and_wake_is_fatal() {
    let w = NoopWaker;
    let w2 = w.duplicate();
    drop(w2);
    assert_eq!(w.request_wake(), FatalError::WakeUnsupported);
}

use system_monitor::sampling::{
    LoopAction, LoopEvent, LoopState, SamplingLoop, DEFAULT_INTERVAL_SECS,
};

#[test]
fn loop_starts_idle() {
    let sampling = SamplingLoop::new(1);
    assert_eq!(sampling.state(), LoopState::Idle);
    assert_eq!(sampling.interval_secs(), 1);
}

#[test]
fn default_interval_is_one_minute() {
    assert_eq!(DEFAULT_INTERVAL_SECS, 60);
    let sampling = SamplingLoop::with_default_interval();
    assert_eq!(sampling.interval_secs(), 60);
    assert_eq!(sampling.state(), LoopState::Idle);
}

#[test]
fn one_cycle() {
    let mut sampling = SamplingLoop::new(7);
    assert_eq!(sampling.step(LoopEvent::IntervalElapsed), LoopAction::Sample);
    assert_eq!(sampling.state(), LoopState::Sampling);
    assert_eq!(sampling.step(LoopEvent::ReportEmitted), LoopAction::Wait(7));
    assert_eq!(sampling.state(), LoopState::Idle);
    assert_eq!(sampling.interval_secs(), 7);
}

#[test]
fn events_out_of_turn_change_nothing() {
    let mut sampling = SamplingLoop::new(1);
    assert_eq!(sampling.step(LoopEvent::ReportEmitted), LoopAction::Nothing);
    assert_eq!(sampling.state(), LoopState::Idle);
    assert_eq!(sampling.step(LoopEvent::IntervalElapsed), LoopAction::Sample);
    assert_eq!(sampling.step(LoopEvent::IntervalElapsed), LoopAction::Nothing);
    assert_eq!(sampling.state(), LoopState::Sampling);
}

#[test]
fn n_intervals_give_n_snapshots_one_after_the_other() {
    let n: u64 = 25;
    let mut sampling = SamplingLoop::new(1);
    let mut emitted: u64 = 0;
    for tick in 1..=n {
        assert_eq!(sampling.state(), LoopState::Idle);
        assert_eq!(sampling.step(LoopEvent::IntervalElapsed), LoopAction::Sample);
        assert_eq!(sampling.state(), LoopState::Sampling);
        emitted += 1;
        assert_eq!(sampling.step(LoopEvent::ReportEmitted), LoopAction::Wait(1));
        assert_eq!(emitted, tick);
    }
    assert_eq!(emitted, n);
    assert_eq!(sampling.state(), LoopState::Idle);
}

#[test]
fn driver_on_a_fake_clock_emits_once_per_interval() {
    let n: u64 = 10;
    let mut sampling = SamplingLoop::new(1);
    let mut clock: u64 = 0;
    let mut emitted: u64 = 0;
    let mut action = LoopAction::Wait(sampling.interval_secs());
    while !(clock == n && action != LoopAction::Sample) {
        let event = match action {
            LoopAction::Wait(secs) => {
                clock += secs;
                LoopEvent::IntervalElapsed
            }
            LoopAction::Sample => {
                emitted += 1;
                LoopEvent::ReportEmitted
            }
            LoopAction::Nothing => unreachable!(),
        };
        action = sampling.step(event);
        assert!(emitted == clock || (emitted + 1 == clock && action == LoopAction::Sample));
    }
    assert_eq!(emitted, n);
    assert_eq!(action, LoopAction::Wait(1));
}

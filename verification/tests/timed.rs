use contender::timed::{MissedTicks, SpamDuration, SpamTrigger, TimedSpammer};
use std::time::{Duration, Instant};

// The timed spammer's trigger stream must fire at its configured interval,
// not assume a fixed one-second period. A 100ms interval should emit ~10
// ticks in the time a 1000ms interval emits one, proving sub-second pacing.
#[test]
fn ticks_fire_at_configured_sub_second_interval() {
    let runtime = tokio::runtime::Builder::new_current_thread()
        .enable_time()
        .build()
        .unwrap();
    let spammer = TimedSpammer::new(Duration::from_millis(100));
    let mut stream = spammer.on_spam();
    let (ticks, elapsed) = runtime.block_on(async {
        let mut interval = tokio::time::interval(stream.interval());
        interval.set_missed_tick_behavior(tokio::time::MissedTickBehavior::Delay);
        let start = Instant::now();
        let mut ticks = Vec::new();
        while ticks.len() < 5 {
            interval.tick().await;
            if let Some(trigger) = stream.interval_fired() {
                ticks.push(trigger);
            }
        }
        (ticks, start.elapsed())
    });

    assert_eq!(ticks.len(), 5);
    // 5 ticks at 100ms each: first tick after the initial wait, so ~5
    // intervals. Allow generous slack for scheduling, but it must be far
    // under the ~5s a one-second period would take.
    assert!(
        elapsed >= Duration::from_millis(450),
        "expected >=450ms for 5x100ms ticks, got {elapsed:?}"
    );
    assert!(
        elapsed < Duration::from_millis(2000),
        "5x100ms ticks took {elapsed:?}; pacing is not sub-second"
    );
    assert_eq!(
        ticks,
        vec![
            SpamTrigger::Tick(0),
            SpamTrigger::Tick(1),
            SpamTrigger::Tick(2),
            SpamTrigger::Tick(3),
            SpamTrigger::Tick(4),
        ]
    );
}

#[test]
fn first_firing_gives_no_tick() {
    let spammer = TimedSpammer::new(Duration::from_millis(250));
    let mut stream = spammer.on_spam();
    assert_eq!(stream.interval(), Duration::from_millis(250));
    assert_eq!(stream.missed_ticks(), MissedTicks::Delay);
    assert_eq!(stream.interval_fired(), None);
    assert_eq!(stream.interval_fired(), Some(SpamTrigger::Tick(0)));
    assert_eq!(stream.interval_fired(), Some(SpamTrigger::Tick(1)));
}

#[test]
fn each_run_counts_its_own_ticks() {
    let spammer = TimedSpammer::new(Duration::from_secs(1));
    let mut first = spammer.on_spam();
    let mut second = spammer.on_spam();
    for _ in 0..3 {
        first.interval_fired();
    }
    assert_eq!(first.interval_fired(), Some(SpamTrigger::Tick(2)));
    assert_eq!(second.interval_fired(), None);
    assert_eq!(second.interval_fired(), Some(SpamTrigger::Tick(0)));
}

#[test]
fn timed_runs_are_measured_in_seconds() {
    assert_eq!(TimedSpammer::duration_units(30), SpamDuration::Seconds(30));
    let spammer = TimedSpammer::new(Duration::from_secs(1));
    assert!(!spammer.context().done_sending);
    assert!(!spammer.context().done_fcu);
}

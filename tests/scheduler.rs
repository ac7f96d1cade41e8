use wombscape::envelope::EnvState;
use wombscape::scheduler::{Anomaly, Beat, HeartbeatScheduler, Side};

#[test]
fn new_scheduler_starts_at_zero() {
    let s = HeartbeatScheduler::new();
    assert_eq!(s.sample_index(), 0);
    assert_eq!(s.last_trigger(), None);
}

#[test]
fn counter_steps_by_one() {
    let mut s = HeartbeatScheduler::new();
    for i in 0..10u64 {
        assert_eq!(s.sample_index(), i);
        let _ = s.tick(false, false, EnvState::Idle);
    }
    assert_eq!(s.sample_index(), 10);
}

#[test]
fn lub_then_dub_alternate() {
    let mut s = HeartbeatScheduler::new();
    assert_eq!(s.tick(true, false, EnvState::Idle), Ok(Beat::Lub));
    assert_eq!(s.last_trigger(), Some(Side::Lub));
    assert_eq!(s.tick(false, false, EnvState::Idle), Ok(Beat::Quiet));
    assert_eq!(s.tick(false, true, EnvState::Idle), Ok(Beat::Dub));
    assert_eq!(s.last_trigger(), Some(Side::Dub));
    assert_eq!(s.tick(true, false, EnvState::Decaying), Ok(Beat::Lub));
}

#[test]
fn dub_may_come_first() {
    let mut s = HeartbeatScheduler::new();
    assert_eq!(s.tick(false, true, EnvState::Idle), Ok(Beat::Dub));
    assert_eq!(s.last_trigger(), Some(Side::Dub));
}

#[test]
fn double_lub_is_skipped() {
    let mut s = HeartbeatScheduler::new();
    assert_eq!(s.tick(true, false, EnvState::Idle), Ok(Beat::Lub));
    assert_eq!(
        s.tick(true, false, EnvState::Idle),
        Err(Anomaly { side: Side::Lub, sample: 1 })
    );
    assert_eq!(s.last_trigger(), Some(Side::Lub));
    assert_eq!(s.sample_index(), 2);
    assert_eq!(s.tick(false, true, EnvState::Idle), Ok(Beat::Dub));
}

#[test]
fn double_dub_is_skipped() {
    let mut s = HeartbeatScheduler::new();
    assert_eq!(s.tick(false, true, EnvState::Idle), Ok(Beat::Dub));
    assert_eq!(s.tick(false, false, EnvState::Attacking), Ok(Beat::Quiet));
    assert_eq!(
        s.tick(false, true, EnvState::Attacking),
        Err(Anomaly { side: Side::Dub, sample: 2 })
    );
    assert_eq!(s.last_trigger(), Some(Side::Dub));
}

#[test]
fn lub_window_wins_over_dub_window() {
    let mut s = HeartbeatScheduler::new();
    assert_eq!(s.tick(true, true, EnvState::Idle), Ok(Beat::Lub));
    assert_eq!(
        s.tick(true, true, EnvState::Idle),
        Err(Anomaly { side: Side::Lub, sample: 1 })
    );
}

#[test]
fn rearm_after_dub_settles() {
    let mut s = HeartbeatScheduler::new();
    assert_eq!(s.tick(false, false, EnvState::Decaying), Ok(Beat::Quiet));
    assert_eq!(s.tick(false, false, EnvState::Idle), Ok(Beat::Rearm));
    assert_eq!(s.tick(false, false, EnvState::Idle), Ok(Beat::Quiet));
}

#[test]
fn no_rearm_inside_a_window() {
    let mut s = HeartbeatScheduler::new();
    assert_eq!(s.tick(false, false, EnvState::Decaying), Ok(Beat::Quiet));
    assert_eq!(s.tick(true, false, EnvState::Idle), Ok(Beat::Lub));
}

#[test]
fn fired_dub_counts_as_attacking_next_sample() {
    let mut s = HeartbeatScheduler::new();
    // The dub envelope reported Decaying, but this sample fires it, so the
    // next sample's Idle is no Decaying-to-Idle change.
    assert_eq!(s.tick(false, true, EnvState::Decaying), Ok(Beat::Dub));
    assert_eq!(s.tick(false, false, EnvState::Idle), Ok(Beat::Quiet));
}

/// Drives the scheduler for one second at 48 kHz and 110 bpm with the trigger
/// windows of a zero jitter offset, and counts what it decided.
#[test]
fn one_second_session_has_lub_and_dub() {
    let sr = 48000u32;
    let bpm = 110.0f32;
    let samples_per_beat = (60.0 / bpm) * sr as f32;
    let dub_offset = 0.12 * sr as f32;
    let jitter = 0.0f32;
    let mut s = HeartbeatScheduler::new();
    let (mut lubs, mut dubs, mut anomalies) = (0, 0, 0);
    let mut order = Vec::new();
    for _ in 0..48000 {
        let pos = (s.sample_index() as f32) % samples_per_beat;
        let in_lub = pos > jitter && pos < jitter + 1.01;
        let in_dub = pos > jitter + dub_offset && pos < jitter + dub_offset + 1.01;
        match s.tick(in_lub, in_dub, EnvState::Idle) {
            Ok(Beat::Lub) => {
                lubs += 1;
                order.push(Side::Lub);
            }
            Ok(Beat::Dub) => {
                dubs += 1;
                order.push(Side::Dub);
            }
            Ok(_) => {}
            Err(_) => anomalies += 1,
        }
    }
    assert!(lubs >= 1 && dubs >= 1);
    for w in order.windows(2) {
        assert_ne!(w[0], w[1]);
    }
    assert_eq!(anomalies, 0);
}

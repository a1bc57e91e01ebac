use displayrecorder::pacer::{admitted_frames, FramePacer, PacerError};

#[test]
fn first_frame_admitted_unconditionally() {
    let mut pacer = FramePacer::new(30).unwrap();
    assert_eq!(pacer.period, 333_333);
    assert!(pacer.accept(7_000));
    assert_eq!(pacer.next_target, 7_000 + 333_333);
}

#[test]
fn early_frame_discarded_late_frame_admitted() {
    let mut pacer = FramePacer::new(30).unwrap();
    assert!(pacer.accept(0));
    assert!(!pacer.accept(100_000));
    assert!(!pacer.accept(333_332));
    assert!(pacer.accept(333_333));
    assert!(pacer.accept(666_666));
}

#[test]
fn target_advances_from_its_own_prior_value_not_the_arrival() {
    let mut pacer = FramePacer::new(100).unwrap();
    // period is 100_000; a frame arriving late must not push the schedule
    assert!(pacer.accept(0));
    assert_eq!(pacer.next_target, 100_000);
    assert!(pacer.accept(180_000));
    // not 280_000: the schedule moves by one period from its prior value
    assert_eq!(pacer.next_target, 200_000);
    assert!(pacer.accept(200_000));
    assert_eq!(pacer.next_target, 300_000);
}

#[test]
fn whole_feed_admission_filters_early_frames() {
    // 100 fps: the period is 100_000 units
    let arrivals: Vec<i64> = vec![0, 50_000, 100_000, 120_000, 250_000];
    let admitted = admitted_frames(100, &arrivals).unwrap();
    assert_eq!(admitted, vec![0, 100_000, 250_000]);
    assert!(admitted_frames(0, &arrivals).is_err());
}

#[test]
fn pacer_rejects_invalid_frame_rates() {
    assert_eq!(FramePacer::new(0).unwrap_err(), PacerError::InvalidFrameRate);
    assert_eq!(FramePacer::new(20_000_000).unwrap_err(), PacerError::InvalidFrameRate);
    assert!(FramePacer::new(1).is_ok());
    assert!(FramePacer::new(10_000_000).is_ok());
}

#[test]
fn arrivals_slower_than_the_target_rate_are_all_admitted() {
    let mut pacer = FramePacer::new(30).unwrap();
    let mut admitted = 0u32;
    for k in 0..100i64 {
        if pacer.accept(k * 400_000) {
            admitted += 1;
        }
    }
    assert_eq!(admitted, 100);
}

#[test]
fn thirty_fps_jittered_ten_second_feed_admits_about_three_hundred() {
    // frames arriving every 33 ms with +/- 5 ms of deterministic jitter
    let mut pacer = FramePacer::new(30).unwrap();
    let mut admitted: Vec<i64> = Vec::new();
    let mut k: i64 = 0;
    loop {
        let base = k * 330_000;
        if base > 100_000_000 {
            break;
        }
        let jitter = (k * 7919) % 100_001 - 50_000;
        let arrival = if base + jitter < 0 { 0 } else { base + jitter };
        if pacer.accept(arrival) {
            admitted.push(arrival);
        }
        k += 1;
    }
    assert!(admitted.len() >= 295, "admitted only {} frames", admitted.len());
    assert!(admitted.len() <= 305, "admitted {} frames", admitted.len());
    // no frame is admitted ahead of its fixed-rate slot
    for (i, &t) in admitted.iter().enumerate() {
        assert!(t >= admitted[0] + (i as i64) * pacer.period);
    }
}

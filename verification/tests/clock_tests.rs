use audio_stream::clock::SampleRequestOptions;

#[test]
fn new_request_starts_at_zero() {
    let req = SampleRequestOptions::new(44100);
    assert_eq!(req.sample_rate, 44100);
    assert_eq!(req.sample_clock, 0);
}

#[test]
fn tick_advances_by_exactly_one() {
    let mut req = SampleRequestOptions::new(8);
    for expected in 1..8u32 {
        req.tick();
        assert_eq!(req.sample_clock, expected);
        assert_eq!(req.sample_rate, 8);
    }
}

#[test]
fn tick_wraps_to_start_after_rate_ticks() {
    let mut req = SampleRequestOptions::new(5);
    let start = req.sample_clock;
    let mut seen = Vec::new();
    for _ in 0..5 {
        req.tick();
        seen.push(req.sample_clock);
    }
    assert_eq!(req.sample_clock, start);
    for (a, &v) in seen.iter().enumerate() {
        assert!(v < 5);
        for &w in &seen[a + 1..] {
            assert_ne!(v, w);
        }
    }
}

#[test]
fn tick_cycles_at_nominal_rate() {
    let mut req = SampleRequestOptions::new(44100);
    for _ in 0..44100 {
        req.tick();
        assert!(req.sample_clock < 44100);
    }
    assert_eq!(req.sample_clock, 0);
}

#[test]
fn tick_at_rate_one_stays_at_zero() {
    let mut req = SampleRequestOptions::new(1);
    for _ in 0..3 {
        req.tick();
        assert_eq!(req.sample_clock, 0);
    }
}

#[test]
fn tick_from_nonzero_start_returns_there_after_one_period() {
    let mut req = SampleRequestOptions { sample_rate: 7, sample_clock: 3 };
    for _ in 0..7 {
        req.tick();
    }
    assert_eq!(req.sample_clock, 3);
}

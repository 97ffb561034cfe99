use tor_proxy::barrier::{Barrier, BarrierError};

const SECOND: u64 = 1_000_000_000;

#[test]
fn build_rejects_zero_replenish() {
    assert!(matches!(Barrier::build(0, 3), Err(BarrierError::InvalidReplenish)));
}

#[test]
fn build_rejects_zero_replenish_before_zero_burst() {
    assert!(matches!(Barrier::build(0, 0), Err(BarrierError::InvalidReplenish)));
}

#[test]
fn build_rejects_zero_burst() {
    assert!(matches!(Barrier::build(SECOND, 0), Err(BarrierError::InvalidMaxBurst)));
}

#[test]
fn build_keeps_parameters() {
    let mut barrier = Barrier::build(4 * SECOND, 100).unwrap();
    assert_eq!(barrier.replenish_nanos(), 4 * SECOND);
    assert_eq!(barrier.max_burst(), 100);
}

#[test]
fn burst_from_idle_passes_without_waiting() {
    let mut barrier = Barrier::build(3600 * SECOND, 5).unwrap();
    for _ in 0..5 {
        assert!(barrier.jammed().is_none());
    }
}

#[test]
fn rate_limit_sheds_beyond_burst() {
    let mut barrier = Barrier::build(SECOND, 3).unwrap();
    let probes: Vec<bool> = (0..5).map(|_| barrier.jammed().is_none()).collect();
    assert_eq!(probes, vec![true, true, true, false, false]);
}

#[test]
fn jammed_wait_is_at_most_one_period() {
    let mut barrier = Barrier::build(SECOND, 1).unwrap();
    assert!(barrier.jammed().is_none());
    let wait = barrier.jammed().expect("second probe must be refused");
    assert!(wait > 0);
    assert!(wait <= SECOND);
}

#[test]
fn probe_before_wait_elapses_is_still_refused() {
    let mut barrier = Barrier::build(3600 * SECOND, 1).unwrap();
    assert!(barrier.jammed().is_none());
    let first = barrier.jammed().expect("refused");
    let second = barrier.jammed().expect("still refused");
    assert!(second <= first);
}

#[test]
fn cell_is_back_after_waiting() {
    let mut barrier = Barrier::build(20_000_000, 1).unwrap();
    assert!(barrier.jammed().is_none());
    let wait = barrier.jammed().expect("refused");
    let deadline = std::time::Instant::now()
        + std::time::Duration::from_nanos(wait)
        + std::time::Duration::from_millis(5);
    while std::time::Instant::now() < deadline {}
    assert!(barrier.jammed().is_none());
}

#[test]
fn refused_probe_takes_no_cell() {
    let mut barrier = Barrier::build(3600 * SECOND, 2).unwrap();
    assert!(barrier.jammed().is_none());
    assert!(barrier.jammed().is_none());
    for _ in 0..10 {
        let wait = barrier.jammed().expect("refused");
        assert!(wait <= 3600 * SECOND);
    }
}

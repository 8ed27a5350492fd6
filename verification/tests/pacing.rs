use emu8080::pacing::{Pacer, PERIOD_NS};

#[test]
fn default_period() {
    assert_eq!(PERIOD_NS, 350);
    let pacer = Pacer::new();
    assert_eq!(pacer.delay(1, 0), 350);
}

#[test]
fn delay_is_cycle_time_less_elapsed_time() {
    let pacer = Pacer::new();
    assert_eq!(pacer.delay(10, 0), 3500);
    assert_eq!(pacer.delay(10, 1000), 2500);
    assert_eq!(pacer.delay(17, 5949), 1);
    assert_eq!(pacer.delay(0, 0), 0);
}

#[test]
fn host_that_is_behind_does_not_wait() {
    let pacer = Pacer::new();
    assert_eq!(pacer.delay(10, 3500), 0);
    assert_eq!(pacer.delay(10, 3501), 0);
    assert_eq!(pacer.delay(4, u128::MAX), 0);
}

#[test]
fn period_can_be_chosen() {
    let pacer = Pacer::with_period(500);
    assert_eq!(pacer.delay(4, 0), 2000);
    assert_eq!(pacer.delay(4, 1999), 1);
    let stopped = Pacer::with_period(0);
    assert_eq!(stopped.delay(1000, 0), 0);
}

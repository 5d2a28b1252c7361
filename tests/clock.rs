use bitset_ecs::clock::{FrameClock, GOAL_DELTA_TIME};

#[test]
fn frames_run_whole_steps_and_carry_the_rest() {
    let mut c = FrameClock::new(10);
    assert_eq!(c.advance(3), 0);
    assert_eq!(c.lag(), 3);
    assert_eq!(c.advance(9), 1);
    assert_eq!(c.lag(), 2);
    assert_eq!(c.advance(25), 2);
    assert_eq!(c.lag(), 7);
    assert_eq!(c.step(), 10);
}

#[test]
fn steps_account_for_all_elapsed_time() {
    let deltas: Vec<u64> = vec![16_000_000, 17_000_000, 33_400_000, 0, 5, 100_000_000, 8_333_333];
    let mut c = FrameClock::new(GOAL_DELTA_TIME);
    let mut steps: u64 = 0;
    for d in &deltas {
        steps += c.advance(*d);
        assert!(c.lag() < GOAL_DELTA_TIME);
    }
    let total: u64 = deltas.iter().sum();
    assert_eq!(steps * GOAL_DELTA_TIME + c.lag(), total);
}

#[test]
fn huge_frame_does_not_overflow() {
    let mut c = FrameClock::new(2);
    assert_eq!(c.advance(1), 0);
    assert_eq!(c.advance(u64::MAX), u64::MAX / 2 + 1);
    assert_eq!(c.lag(), 0);
}

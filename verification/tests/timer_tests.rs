use rasterizer::timer::Timer;

#[test]
fn test_tick_accumulates_nonnegative_deltas() {
    let mut timer = Timer::default();
    assert_eq!(timer.time_elapsed_secs().raw, 0);
    assert_eq!(timer.delta_time_secs().raw, 0);
    timer.tick();
    let delta = timer.delta_time_secs();
    assert!(delta.raw >= 0);
    assert_eq!(timer.time_elapsed_secs(), delta);
    let first_total = timer.time_elapsed_secs();
    timer.tick();
    assert!(timer.delta_time_secs().raw >= 0);
    assert!(timer.time_elapsed_secs().raw >= first_total.raw);
}

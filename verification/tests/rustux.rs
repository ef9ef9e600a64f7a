use rustux_syscalls::rustux::{
    clock_id, dlog_options, get_stats, sys_clock_adjust_impl, sys_clock_get_impl, sys_cprng_draw_once_impl,
    sys_nanosleep_impl, ClockState, Prng, PRNG_INITIAL_SEED,
};
use rustux_syscalls::usercopy::UserMemory;

#[test]
fn test_clock_id_consts() {
    assert_eq!(clock_id::MONOTONIC, 0);
    assert_eq!(clock_id::UTC, 1);
    assert_eq!(clock_id::THREAD, 2);
}

#[test]
fn test_dlog_options_consts() {
    assert_eq!(dlog_options::NONE, 0);
    assert_eq!(dlog_options::READABLE, 0x01);
}

#[test]
fn test_utc_offset() {
    let mut clock = ClockState::new();
    clock.utc_offset = 1000;
    assert_eq!(clock.utc_offset, 1000);
    assert_eq!(get_stats(&clock).utc_offset, 1000);
}

#[test]
fn test_prng_draw() {
    let mut prng = Prng::new(PRNG_INITIAL_SEED);
    let mut buf = vec![0u8; 16];
    prng.draw(&mut buf);
    let has_nonzero = buf.iter().any(|&b| b != 0);
    assert!(has_nonzero);
}

#[test]
fn test_prng_add_entropy() {
    let mut prng = Prng::new(PRNG_INITIAL_SEED);
    let entropy = [1u8, 2, 3, 4, 5];
    let state_before = prng.state;
    prng.add_entropy(&entropy);
    let state_after = prng.state;
    assert_ne!(state_before, state_after);
}

#[test]
fn test_nanosleep_non_positive() {
    let result = sys_nanosleep_impl(0);
    assert!(result >= 0);
    let result = sys_nanosleep_impl(-1);
    assert!(result >= 0);
}

#[test]
fn prng_entropy_formula() {
    let mut prng = Prng::new(10);
    prng.add_entropy(&[1, 2]);
    assert_eq!(prng.state, (10u64 * 31 + 1) * 31 + 2);
}

#[test]
fn prng_draw_is_deterministic_per_seed() {
    let mut a = Prng::new(99);
    let mut b = Prng::new(99);
    let mut x = vec![0u8; 20];
    let mut y = vec![0u8; 20];
    a.draw(&mut x);
    b.draw(&mut y);
    assert_eq!(x, y);
    assert_eq!(a.state, b.state);
    let mut mem = UserMemory::new(0x1000, 32);
    let mut c = Prng::new(99);
    assert_eq!(sys_cprng_draw_once_impl(&mut c, &mut mem, 0x1000, 20), 0);
    assert_eq!(&mem.bytes[0..20], &x[..]);
}

#[test]
fn clock_adjust_and_get() {
    let mut clock = ClockState::new();
    assert_eq!(sys_clock_adjust_impl(&mut clock, 0, clock_id::UTC, 500), 0);
    assert_eq!(clock.utc_offset, 500);
    assert_eq!(sys_clock_get_impl(&clock, 1000, clock_id::MONOTONIC), 1000);
    assert_eq!(sys_clock_get_impl(&clock, 1000, clock_id::UTC), 1500);
}

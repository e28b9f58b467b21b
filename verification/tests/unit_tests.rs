use split_flap::split_flap::SplitFlap;

fn unit(offset: usize, delay_nanos: u64, max_slips: usize) -> SplitFlap {
    SplitFlap::new(0, "AB", 4, offset, delay_nanos, max_slips)
}

#[test]
fn new_unit_is_idle_and_unhomed() {
    let u = unit(0, 1000, 3);
    assert_eq!(u.target, None);
    assert_eq!(u.position, 0);
    assert!(!u.homed);
    assert_eq!(u.slips, 0);
    assert_eq!(u.step_countdown, 0);
    assert_eq!(u.previous_hall, None);
    assert!(!u.stepper.enabled);
    assert_eq!(u.stepper.phase, 0);
}

#[test]
fn advance_without_target_issues_no_step() {
    let mut u = unit(0, 1000, 3);
    let settled = u.advance_nanos(123456);
    assert!(settled);
    assert_eq!(u.position, 0);
    assert_eq!(u.stepper.phase, 0);
    assert!(!u.stepper.enabled);
}

#[test]
fn advance_when_settled_issues_no_step() {
    let mut u = unit(0, 1000, 3);
    u.set_target('A');
    u.set_hall_value(true);
    u.set_hall_value(false);
    assert!(u.homed);
    let phase_before = u.stepper.phase;
    let settled = u.advance_nanos(999999);
    assert!(settled);
    assert_eq!(u.position, 0);
    assert_eq!(u.stepper.phase, phase_before);
    assert!(!u.stepper.enabled);
}

#[test]
fn set_target_reloads_countdown_and_counts_one_slip() {
    let mut u = unit(0, 10000, 5);
    u.set_target('A');
    assert_eq!(u.step_countdown, 10000);
    assert_eq!(u.slips, 1);
    let settled = u.advance_nanos(4000);
    assert!(!settled);
    assert_eq!(u.step_countdown, 6000);
    u.set_target('B');
    assert_eq!(u.step_countdown, 10000);
    assert_eq!(u.slips, 2);
}

#[test]
fn set_target_computes_step_positions() {
    let mut u = unit(0, 1000, 9);
    u.set_target('A');
    assert_eq!(u.target, Some(0));
    u.set_target('B');
    assert_eq!(u.target, Some(2));
    let mut v = unit(1, 1000, 9);
    v.set_target('B');
    assert_eq!(v.target, Some(3));
    v.set_target('A');
    assert_eq!(v.target, Some(1));
}

#[test]
fn slip_ceiling_forces_atomic_reset() {
    let mut u = unit(0, 0, 3);
    u.set_target('B');
    u.set_hall_value(true);
    u.set_hall_value(false);
    assert!(u.homed);
    u.advance_nanos(1);
    u.advance_nanos(1);
    assert_eq!(u.position, 2);
    u.set_target('A');
    assert_eq!(u.slips, 1);
    u.set_target('A');
    assert_eq!(u.slips, 2);
    assert!(u.homed);
    assert_eq!(u.position, 2);
    u.set_target('A');
    assert_eq!(u.slips, 0);
    assert_eq!(u.position, 0);
    assert!(!u.homed);
}

#[test]
fn falling_edge_homes_the_unit() {
    let mut u = unit(0, 0, 5);
    u.set_target('B');
    u.advance_nanos(1);
    u.advance_nanos(1);
    u.advance_nanos(1);
    assert_eq!(u.position, 3);
    u.set_hall_value(true);
    assert!(!u.homed);
    assert_eq!(u.position, 3);
    u.set_hall_value(false);
    assert!(u.homed);
    assert_eq!(u.position, 0);
    assert_eq!(u.slips, 0);
    assert_eq!(u.previous_hall, Some(false));
}

#[test]
fn non_falling_transitions_never_home() {
    let mut u = unit(0, 1000, 5);
    u.set_target('A');
    u.set_hall_value(false);
    assert!(!u.homed);
    u.set_hall_value(false);
    assert!(!u.homed);
    u.set_hall_value(true);
    assert!(!u.homed);
    assert_eq!(u.previous_hall, Some(true));
    u.set_hall_value(true);
    assert!(!u.homed);
}

#[test]
fn first_reading_never_homes() {
    let mut u = unit(0, 1000, 5);
    assert_eq!(u.previous_hall, None);
    u.set_hall_value(false);
    assert!(!u.homed);
    assert_eq!(u.previous_hall, Some(false));
}

#[test]
fn stepping_cycles_the_phase_backwards() {
    let mut u = unit(0, 0, 9);
    u.set_target('B');
    let mut expected_phases = [3u8, 2, 1, 0, 3].iter();
    for steps in 1..=5usize {
        let settled = u.advance_nanos(1);
        assert!(!settled);
        assert_eq!(u.position, steps);
        assert_eq!(u.stepper.phase, *expected_phases.next().unwrap());
    }
}

#[test]
fn large_elapsed_issues_at_most_one_step() {
    let mut u = unit(0, 1_000_000, 9);
    u.set_target('B');
    let settled = u.advance_nanos(50_000_000);
    assert!(!settled);
    assert_eq!(u.position, 1);
    assert_eq!(u.step_countdown, 1_000_000);
}

#[test]
fn countdown_burns_down_before_a_step() {
    let mut u = unit(0, 10000, 9);
    u.set_target('B');
    u.advance_nanos(4000);
    assert_eq!(u.position, 0);
    assert_eq!(u.step_countdown, 6000);
    u.advance_nanos(6000);
    assert_eq!(u.position, 0);
    assert_eq!(u.step_countdown, 0);
    u.advance_nanos(1);
    assert_eq!(u.position, 1);
    assert_eq!(u.step_countdown, 10000);
}

#[test]
fn set_hall_enabled_only_flags_the_line() {
    let mut u = unit(0, 1000, 3);
    u.set_hall_enabled(true);
    assert!(u.hall_enabled);
    assert_eq!(u.target, None);
    assert_eq!(u.position, 0);
    u.set_hall_enabled(false);
    assert!(!u.hall_enabled);
}

#[test]
fn scenario_target_then_home_then_settled() {
    // two units, alphabet "AB", four steps per rotation, both unhomed at 0
    let mut u0 = SplitFlap::new(0, "AB", 4, 0, 2_000_000, 5);
    let _u1 = SplitFlap::new(1, "AB", 4, 0, 2_000_000, 5);
    u0.set_target('A');
    assert_eq!(u0.target, Some(0));
    u0.set_hall_value(true);
    u0.set_hall_value(false);
    assert_eq!(u0.position, 0);
    assert!(u0.homed);
    let settled = u0.advance_nanos(250_000);
    assert!(settled);
}

#[test]
fn scenario_three_slips_on_never_homed_unit() {
    let mut u = unit(0, 1000, 3);
    u.set_target('A');
    u.set_target('A');
    assert_eq!(u.slips, 2);
    u.set_target('A');
    assert!(!u.homed);
    assert_eq!(u.position, 0);
    assert_eq!(u.slips, 0);
}

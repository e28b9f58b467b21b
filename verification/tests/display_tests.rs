use split_flap::ports::{CountdownPoll, NoWait, RecordingSink, ScriptedSensor};
use split_flap::split_flap_display::SplitFlapDisplay;
use split_flap::terminate::check_terminate;

type TestDisplay = SplitFlapDisplay<ScriptedSensor, RecordingSink, CountdownPoll, NoWait>;

fn display(
    readings: Vec<bool>,
    polls_before_stop: u64,
    letters: &'static str,
    steps_per_rotation: usize,
    offsets: Vec<usize>,
    delay_nanos: u64,
    hall_ticks: u64,
) -> TestDisplay {
    SplitFlapDisplay::new(
        ScriptedSensor::new(readings),
        RecordingSink::new(),
        CountdownPoll::new(polls_before_stop),
        NoWait,
        letters,
        steps_per_rotation,
        offsets,
        250,
        delay_nanos,
        hall_ticks,
        5,
    )
}

#[test]
fn check_terminate_maps_pending_input_to_stop() {
    assert!(check_terminate(false).is_ok());
    assert!(check_terminate(true).is_err());
}

#[test]
fn new_display_builds_one_unit_per_offset() {
    let d = display(vec![], 1000, "AB", 4, vec![1, 3], 1000, 16);
    assert_eq!(d.flaps.len(), 2);
    assert_eq!(d.flaps[0].index, 0);
    assert_eq!(d.flaps[0].offset, 1);
    assert_eq!(d.flaps[1].index, 1);
    assert_eq!(d.flaps[1].offset, 3);
    assert_eq!(d.flaps[0].target, None);
    assert_eq!(d.active, 0);
}

#[test]
fn scenario_round_robin_over_thirty_ticks() {
    // dwell of ten ticks across three modules: ten 0s, ten 1s, ten 2s
    let mut d = display(vec![], 1000, "AB", 4, vec![0, 0, 0], 1_000_000, 10);
    let mut actives = Vec::new();
    for _ in 0..30 {
        actives.push(d.active);
        d.tick_step();
    }
    let mut expected = Vec::new();
    for module in 0..3usize {
        for _ in 0..10 {
            expected.push(module);
        }
    }
    assert_eq!(actives, expected);
    assert_eq!(d.active, 0);
}

#[test]
fn sensing_is_granted_to_exactly_one_module() {
    let mut d = display(vec![], 1000, "AB", 4, vec![0, 0, 0], 1_000_000, 2);
    for _ in 0..7 {
        let expected_active = d.active;
        d.tick_step();
        for (i, flap) in d.flaps.iter().enumerate() {
            assert_eq!(flap.hall_enabled, i == expected_active);
        }
    }
}

#[test]
fn reading_is_delivered_once_at_the_slot_boundary() {
    let mut d = display(vec![true, false], 1000, "AB", 4, vec![0, 0], 1_000_000, 1);
    // first tick: no slot has ended yet, nothing is delivered
    d.tick_step();
    assert_eq!(d.flaps[0].previous_hall, None);
    assert_eq!(d.flaps[1].previous_hall, None);
    // second tick: module 0's slot ended, it alone gets the first reading
    d.tick_step();
    assert_eq!(d.flaps[0].previous_hall, Some(true));
    assert_eq!(d.flaps[1].previous_hall, None);
    // third tick: module 1's slot ended, it alone gets the second reading
    d.tick_step();
    assert_eq!(d.flaps[0].previous_hall, Some(true));
    assert_eq!(d.flaps[1].previous_hall, Some(false));
}

#[test]
fn no_delivery_inside_a_dwell_slot() {
    let mut d = display(vec![true, false], 1000, "AB", 4, vec![0, 0], 1_000_000, 3);
    d.tick_step();
    d.tick_step();
    d.tick_step();
    // three ticks, all inside module 0's first slot: nothing delivered
    assert_eq!(d.flaps[0].previous_hall, None);
    assert_eq!(d.flaps[1].previous_hall, None);
    d.tick_step();
    // the slot ended: module 0 gets the reading
    assert_eq!(d.flaps[0].previous_hall, Some(true));
    assert_eq!(d.flaps[1].previous_hall, None);
}

#[test]
fn single_module_slot_never_ends_so_nothing_is_delivered() {
    let mut d = display(vec![true, false], 1000, "AB", 4, vec![0], 1_000_000, 1);
    for _ in 0..6 {
        d.tick_step();
        assert_eq!(d.active, 0);
        assert_eq!(d.flaps[0].previous_hall, None);
    }
}

#[test]
fn frames_record_committed_line_state() {
    let mut d = display(vec![], 1000, "AB", 4, vec![0], 0, 1);
    d.flaps[0].set_target('B');
    d.tick_step();
    d.tick_step();
    d.tick_step();
    assert_eq!(d.sink.frames.len(), 3);
    assert_eq!(d.sink.frames[0].len(), 1);
    // a zero step delay steps the drum once every tick: phase walks backwards
    assert_eq!(d.sink.frames[0][0].phase, 3);
    assert_eq!(d.sink.frames[1][0].phase, 2);
    assert_eq!(d.sink.frames[2][0].phase, 1);
    assert_eq!(d.flaps[0].position, 3);
    assert!(d.sink.frames[0][0].hall_enabled);
}

#[test]
fn run_homes_both_units_and_settles() {
    let mut d = display(
        vec![true, true, false, false],
        1000,
        "AB",
        4,
        vec![0, 0],
        2_000_000,
        1,
    );
    let result = d.run("AA");
    assert!(result.is_ok());
    for flap in d.flaps.iter() {
        assert_eq!(flap.target, Some(0));
        assert!(flap.homed);
        assert_eq!(flap.position, 0);
    }
    // ticks 0..4 each committed one frame; the homing edges landed on
    // ticks 3 and 4 and the run closed on the fifth tick
    assert_eq!(d.sink.frames.len(), 5);
    // the closing frame shows both settled units with their coils released
    let last = d.sink.frames.last().unwrap();
    assert!(!last[0].stepper_enabled);
    assert!(!last[1].stepper_enabled);
}

#[test]
fn run_aborts_on_stop_request_and_keeps_targets() {
    let mut d = display(vec![], 3, "AB", 4, vec![0, 0], 2_000_000, 16);
    let result = d.run("AB");
    assert!(result.is_err());
    // three polls came back quiet, so exactly three ticks were committed
    // before the fourth poll aborted the run
    assert_eq!(d.sink.frames.len(), 3);
    // the targets assigned on entry were never reassigned
    assert_eq!(d.flaps[0].target, Some(0));
    assert_eq!(d.flaps[1].target, Some(2));
}

#[test]
fn run_pads_short_messages_with_the_blank_symbol() {
    let mut d = display(vec![], 2, " AB", 6, vec![0, 0], 2_000_000, 16);
    let result = d.run("A");
    assert!(result.is_err());
    assert_eq!(d.flaps[0].target, Some(2));
    assert_eq!(d.flaps[1].target, Some(0));
}

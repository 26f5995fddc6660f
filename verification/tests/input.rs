use arrayvec::ArrayVec;
use stokast::clock::Time;
use stokast::input::{
    Button, Captured, Debounce, Edge, EdgeInput, Expander, FastKnob, Inputs, Knob, PolledLines, TrackInputs, PASS_MAX,
};
use stokast::queue::OperQueue;
use stokast::state::Oper;

const HOLD: i64 = 100;

fn button(expander: Expander, mask: u16) -> Button {
    Button::new(expander, mask, Time::new(HOLD))
}

fn track_inputs(expander: Expander) -> TrackInputs {
    TrackInputs {
        offs: Knob::new(expander, 0x0001, 0x0002),
        offs_btn: button(expander, 0x0004),
        step: Knob::new(expander, 0x0010, 0x0020),
        step_btn: button(expander, 0x0040),
    }
}

fn inputs() -> Inputs {
    Inputs {
        clock_last: None,
        seed: FastKnob::new(Expander::First, 0x0100, 0x0200),
        seed_btn: button(Expander::First, 0x0400),
        length: Knob::new(Expander::Second, 0x0100, 0x0200),
        length_btn: button(Expander::Second, 0x0400),
        tracks: [
            track_inputs(Expander::First),
            TrackInputs {
                offs: Knob::new(Expander::First, 0x1000, 0x2000),
                offs_btn: button(Expander::First, 0x4000),
                step: Knob::new(Expander::First, 0x0008, 0x0080),
                step_btn: button(Expander::First, 0x8000),
            },
            track_inputs(Expander::Second),
            TrackInputs {
                offs: Knob::new(Expander::Second, 0x1000, 0x2000),
                offs_btn: button(Expander::Second, 0x4000),
                step: Knob::new(Expander::Second, 0x0008, 0x0080),
                step_btn: button(Expander::Second, 0x8000),
            },
        ],
    }
}

fn captured(ext1: u16, ext2: u16) -> Captured {
    Captured { reset: false, clock: None, ext1, ext2 }
}

fn pass(inputs: &mut Inputs, now: i64, c: Captured) -> Vec<Oper> {
    let mut todo: OperQueue = ArrayVec::new();
    inputs.tick(Time::new(now), &mut todo, &c, true);
    todo.to_vec()
}

#[test]
fn edge_input_sees_changes_only() {
    let mut e = EdgeInput::new();
    assert_eq!(e.tick(Time::new(1), true), None);
    assert_eq!(e.tick(Time::new(2), true), None);
    assert_eq!(e.tick(Time::new(3), false), Some(Edge::Falling(Time::new(3))));
    assert_eq!(e.tick(Time::new(4), false), None);
    assert_eq!(e.tick(Time::new(5), true), Some(Edge::Rising(Time::new(5))));
    let mut e = EdgeInput::new();
    assert_eq!(e.tick(Time::new(1), false), None);
    assert_eq!(e.tick(Time::new(2), true), Some(Edge::Rising(Time::new(2))));
}

#[test]
fn polled_lines_report_falling_edges() {
    let mut lines = PolledLines::new();
    assert_eq!(lines.sample(Time::new(1), true, true), (false, None));
    assert_eq!(lines.sample(Time::new(2), false, true), (false, Some(Time::new(2))));
    assert_eq!(lines.sample(Time::new(3), false, false), (true, None));
    assert_eq!(lines.sample(Time::new(4), true, true), (false, None));
    assert_eq!(lines.sample(Time::new(5), false, false), (true, Some(Time::new(5))));
}

#[test]
fn debounce_waits_for_a_stable_line() {
    let mut d = Debounce::new(Time::new(HOLD));
    assert!(!d.tick(Time::new(0), false));
    // The line goes high: the wait begins.
    assert!(!d.tick(Time::new(1000), true));
    assert!(!d.tick(Time::new(1050), true));
    assert!(!d.tick(Time::new(1099), true));
    assert!(d.tick(Time::new(1100), true));
    assert!(d.tick(Time::new(1200), true));
    // It goes low: the level holds until the line has stayed low.
    assert!(d.tick(Time::new(2000), false));
    assert!(d.tick(Time::new(2099), false));
    assert!(!d.tick(Time::new(2100), false));
}

#[test]
fn debounce_ignores_a_bounce() {
    let mut d = Debounce::new(Time::new(HOLD));
    assert!(!d.tick(Time::new(1000), true));
    assert!(!d.tick(Time::new(1050), false));
    assert!(!d.tick(Time::new(1090), true));
    // The wait began again at 1090.
    assert!(!d.tick(Time::new(1150), true));
    assert!(!d.tick(Time::new(1189), true));
    assert!(d.tick(Time::new(1190), true));
}

#[test]
fn button_clicks_on_the_debounced_rise() {
    let mut b = button(Expander::Second, 0x0400);
    let up = captured(0xffff, 0x0000);
    let down = captured(0x0000, 0x0400);
    assert!(!b.tick(Time::new(0), &up));
    assert!(!b.tick(Time::new(10), &down));
    assert!(!b.tick(Time::new(50), &down));
    assert!(b.tick(Time::new(110), &down));
    assert!(!b.tick(Time::new(200), &down));
    assert!(!b.tick(Time::new(300), &up));
    assert!(!b.tick(Time::new(400), &up));
    assert!(!b.tick(Time::new(500), &down));
    assert!(b.tick(Time::new(600), &down));
}

#[test]
fn knob_reads_its_two_bits() {
    let mut k = Knob::new(Expander::First, 0x0010, 0x0800);
    assert_eq!(k.tick(&captured(0x0010, 0xffff)), 0);
    assert_eq!(k.tick(&captured(0x0810, 0xffff)), 1);
    assert_eq!(k.tick(&captured(0x0800, 0)), 0);
    assert_eq!(k.tick(&captured(0x0000, 0)), 0);
    assert_eq!(k.tick(&captured(0x0800, 0)), 0);
    assert_eq!(k.tick(&captured(0x0810 | 0x0003, 0)), -1);
}

#[test]
fn fast_knob_reads_its_two_bits() {
    let mut k = FastKnob::new(Expander::Second, 0x0001, 0x0002);
    assert_eq!(k.tick(Time::new(1), &captured(0xffff, 0x0001)), 0);
    assert_eq!(k.tick(Time::new(2), &captured(0xfffc, 0x0003)), 1);
    assert_eq!(k.accelerator.direction, 1);
}

#[test]
fn reset_comes_before_the_tick() {
    let mut i = inputs();
    i.clock_last = Some(Time::new(400));
    let c = Captured { reset: true, clock: Some(Time::new(1000)), ext1: 0, ext2: 0 };
    assert_eq!(pass(&mut i, 1005, c), vec![Oper::Reset, Oper::Tick(Time::new(600))]);
    assert_eq!(i.clock_last, Some(Time::new(1000)));
}

#[test]
fn first_clock_pulse_only_starts_the_measurement() {
    let mut i = inputs();
    let c = Captured { reset: false, clock: Some(Time::new(1000)), ext1: 0, ext2: 0 };
    assert_eq!(pass(&mut i, 1005, c), vec![]);
    assert_eq!(i.clock_last, Some(Time::new(1000)));
    let c = Captured { reset: false, clock: Some(Time::new(1800)), ext1: 0, ext2: 0 };
    assert_eq!(pass(&mut i, 1805, c), vec![Oper::Tick(Time::new(800))]);
    assert_eq!(pass(&mut i, 1900, captured(0, 0)), vec![]);
    assert_eq!(i.clock_last, Some(Time::new(1800)));
}

#[test]
fn expanders_are_skipped_without_a_change() {
    let mut i = inputs();
    let mut todo: OperQueue = ArrayVec::new();
    // Track 0 offset knob turns clockwise on the first expander, unseen.
    i.tick(Time::new(1), &mut todo, &captured(0x0001, 0), false);
    i.tick(Time::new(2), &mut todo, &captured(0x0003, 0), false);
    assert!(todo.is_empty());
    assert_eq!(i.tracks[0].offs.encoder.state, 0);
    // The seed knob is looked at all the same.
    i.tick(Time::new(3), &mut todo, &captured(0x0100, 0), false);
    i.tick(Time::new(4), &mut todo, &captured(0x0300, 0), false);
    assert_eq!(todo.to_vec(), vec![Oper::Seed(1)]);
}

#[test]
fn operations_come_in_the_order_of_the_controls() {
    let mut i = inputs();
    i.clock_last = Some(Time::new(0));
    // First pass: phase A of every knob and every button goes high.
    let a1 = 0x0100 | 0x0400 | 0x0001 | 0x0004 | 0x0010 | 0x0040 | 0x1000 | 0x4000 | 0x0008 | 0x8000;
    let a2 = 0x0100 | 0x0400 | 0x0001 | 0x0004 | 0x0010 | 0x0040 | 0x1000 | 0x4000 | 0x0008 | 0x8000;
    assert_eq!(pass(&mut i, 1000, captured(a1, a2)), vec![]);
    // Second pass, after the hold time: phase B follows, the buttons are still down.
    let b1 = a1 | 0x0200 | 0x0002 | 0x0020 | 0x2000 | 0x0080;
    let b2 = a2 | 0x0200 | 0x0002 | 0x0020 | 0x2000 | 0x0080;
    let c = Captured { reset: true, clock: Some(Time::new(1190)), ext1: b1, ext2: b2 };
    let opers = pass(&mut i, 1200, c);
    assert_eq!(
        opers,
        vec![
            Oper::Reset,
            Oper::Tick(Time::new(1190)),
            Oper::Seed(1),
            Oper::SeedClick,
            Oper::Length(1),
            Oper::LengthClick,
            Oper::Offset(0, 1),
            Oper::OffsetClick(0),
            Oper::Steps(0, 1),
            Oper::StepsClick(0),
            Oper::Offset(1, 1),
            Oper::OffsetClick(1),
            Oper::Steps(1, 1),
            Oper::StepsClick(1),
            Oper::Offset(2, 1),
            Oper::OffsetClick(2),
            Oper::Steps(2, 1),
            Oper::StepsClick(2),
            Oper::Offset(3, 1),
            Oper::OffsetClick(3),
            Oper::Steps(3, 1),
            Oper::StepsClick(3),
        ]
    );
    assert_eq!(opers.len(), PASS_MAX);
    for oper in opers {
        assert!(oper.is_valid());
    }
}

#[test]
fn operations_are_appended_behind_those_waiting() {
    let mut i = inputs();
    let mut todo: OperQueue = ArrayVec::new();
    todo.push(Oper::SeedClick);
    let c = Captured { reset: true, clock: None, ext1: 0, ext2: 0 };
    i.tick(Time::new(5), &mut todo, &c, false);
    assert_eq!(todo.to_vec(), vec![Oper::SeedClick, Oper::Reset]);
}

#[test]
fn counter_clockwise_turn_gives_a_negative_step() {
    let mut i = inputs();
    assert_eq!(pass(&mut i, 1, captured(0, 0x0200)), vec![]);
    assert_eq!(pass(&mut i, 2, captured(0, 0x0300)), vec![Oper::Length(-1)]);
}

#[test]
fn clockwise_run_of_the_length_knob_gives_one_turn_per_step() {
    let mut i = inputs();
    let mut todo: OperQueue = ArrayVec::new();
    // Length knob: phase A is 0x0100, phase B is 0x0200 on the second expander.
    let samples: [u16; 4] = [0x0100, 0x0300, 0x0200, 0x0000];
    let mut now = 0;
    for _ in 0..5 {
        for s in samples {
            now += 10;
            i.tick(Time::new(now), &mut todo, &captured(0, s), true);
        }
    }
    assert_eq!(todo.to_vec(), vec![Oper::Length(1); 5]);
    assert_eq!(i.length.encoder.prev_next % 4, 0);
}

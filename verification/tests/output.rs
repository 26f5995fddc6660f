use stokast::clock::Time;
use stokast::lfo::Waves;
use stokast::output::{command, Driven, Gate, GateSet, HiLo, Outputs};
use stokast::params::{Params, TrackParams, SEED_BASE};
use stokast::state::{Oper, Reply, State};

struct Pin {
    calls: Vec<bool>,
}

impl Pin {
    fn new() -> Pin {
        Pin { calls: Vec::new() }
    }
}

impl HiLo for Pin {
    fn driven(&self) -> Driven {
        panic!("the ghost of the line is never run")
    }

    fn set_hilo(&mut self, hi: bool) {
        self.calls.push(hi);
    }
}

fn state() -> State {
    let params =
        Params { seed: SEED_BASE, pattern_length: 16, tracks: [TrackParams { steps: 0, length: 16, offset: 0 }; 4] };
    State::new(params, Waves::flat(), &[[0u8; 64]; 4], &[[0u32; 64]; 4])
}

#[test]
fn gate_set_from_a_step() {
    assert_eq!(GateSet::from(0), GateSet::Clear);
    assert_eq!(GateSet::from(1), GateSet::Pulse);
    assert_eq!(GateSet::from(255), GateSet::Pulse);
}

#[test]
fn new_gate_is_low() {
    let g = Gate::new(Pin::new(), 50);
    assert!(!g.is_high());
    assert_eq!(g.clear_at, None);
    assert_eq!(g.duty_percent, 50);
    assert!(g.pin.calls.is_empty());
}

#[test]
fn gate_pulse_scenario() {
    let mut g = Gate::new(Pin::new(), 50);
    let predicted = Time::new(1000);
    g.tick(Time::new(10_000), GateSet::Pulse, &predicted);
    assert!(g.is_high());
    assert_eq!(g.clear_at, Some(Time::new(10_500)));
    assert_eq!(g.pin.calls, vec![false]);
    // Before the end of the pulse it stays high.
    g.tick(Time::new(10_001), GateSet::Retain, &predicted);
    g.tick(Time::new(10_499), GateSet::Retain, &predicted);
    assert!(g.is_high());
    assert_eq!(g.clear_at, Some(Time::new(10_500)));
    assert_eq!(g.pin.calls, vec![false]);
    // At its end it is cleared, once.
    g.tick(Time::new(10_500), GateSet::Retain, &predicted);
    assert!(!g.is_high());
    assert_eq!(g.clear_at, None);
    assert_eq!(g.pin.calls, vec![false, true]);
    g.tick(Time::new(10_501), GateSet::Retain, &predicted);
    g.tick(Time::new(99_999), GateSet::Retain, &predicted);
    assert!(!g.is_high());
    assert_eq!(g.pin.calls, vec![false, true]);
}

#[test]
fn gate_clear_ends_the_pulse_at_once() {
    let mut g = Gate::new(Pin::new(), 50);
    let predicted = Time::new(1000);
    g.tick(Time::new(0), GateSet::Pulse, &predicted);
    g.tick(Time::new(1), GateSet::Clear, &predicted);
    assert!(!g.is_high());
    assert_eq!(g.clear_at, None);
    assert_eq!(g.pin.calls, vec![false, true]);
    g.tick(Time::new(600), GateSet::Retain, &predicted);
    assert_eq!(g.pin.calls, vec![false, true]);
}

#[test]
fn gate_pulse_width_is_a_share_of_the_interval() {
    let predicted = Time::new(999);
    let mut g = Gate::new(Pin::new(), 25);
    g.tick(Time::new(-100), GateSet::Pulse, &predicted);
    assert_eq!(g.clear_at, Some(Time::new(-100 + 249)));
    let mut g = Gate::new(Pin::new(), 255);
    g.tick(Time::new(0), GateSet::Pulse, &predicted);
    assert_eq!(g.clear_at, Some(Time::new(2547)));
    let mut g = Gate::new(Pin::new(), 0);
    g.tick(Time::new(7), GateSet::Pulse, &predicted);
    assert_eq!(g.clear_at, Some(Time::new(7)));
    // A negative interval is rounded towards zero.
    let mut g = Gate::new(Pin::new(), 50);
    g.tick(Time::new(1000), GateSet::Pulse, &Time::new(-999));
    assert_eq!(g.clear_at, Some(Time::new(1000 - 499)));
}

#[test]
fn gate_pulse_restarts_a_running_pulse() {
    let mut g = Gate::new(Pin::new(), 50);
    g.tick(Time::new(0), GateSet::Pulse, &Time::new(1000));
    g.tick(Time::new(400), GateSet::Pulse, &Time::new(2000));
    assert_eq!(g.clear_at, Some(Time::new(1400)));
    assert_eq!(g.pin.calls, vec![false, false]);
}

#[test]
fn command_follows_pattern_and_mute() {
    let mut st = state();
    st.patterns[0][1] = 1;
    st.patterns[2][1] = 1;
    st.mute[2] = true;
    st.update(Time::new(0), &[Oper::Tick(Time::new(10))], &[Reply::predicted(Time::new(1000))]);
    assert_eq!(st.playhead(), 1);
    assert_eq!(command(&st, 0, 0), GateSet::Pulse);
    assert_eq!(command(&st, 0, 1), GateSet::Clear);
    assert_eq!(command(&st, 0, 2), GateSet::Retain);
    assert_eq!(command(&st, 0, 3), GateSet::Clear);
    // Nothing is commanded while the playhead stays.
    assert_eq!(command(&st, 1, 0), GateSet::Retain);
    assert_eq!(command(&st, 1, 1), GateSet::Retain);
}

#[test]
fn outputs_command_the_gates_once_per_playhead() {
    let mut st = state();
    st.patterns[0][1] = 1;
    st.patterns[3][1] = 9;
    let mut out = Outputs {
        playhead_last: 0,
        gate1: Gate::new(Pin::new(), 50),
        gate2: Gate::new(Pin::new(), 50),
        gate3: Gate::new(Pin::new(), 50),
        gate4: Gate::new(Pin::new(), 10),
    };
    // Playhead 0: nothing moves.
    out.tick(Time::new(0), &st);
    assert!(out.gate1.pin.calls.is_empty());
    st.update(Time::new(100), &[Oper::Tick(Time::new(10))], &[Reply::predicted(Time::new(1000))]);
    out.tick(Time::new(100), &st);
    assert_eq!(out.playhead_last, 1);
    assert!(out.gate1.is_high());
    assert!(!out.gate2.is_high());
    assert!(out.gate4.is_high());
    assert_eq!(out.gate1.clear_at, Some(Time::new(600)));
    assert_eq!(out.gate4.clear_at, Some(Time::new(200)));
    assert_eq!(out.gate1.pin.calls, vec![false]);
    assert_eq!(out.gate2.pin.calls, vec![true]);
    // Same playhead: retain, and end the short pulse.
    out.tick(Time::new(250), &st);
    assert!(out.gate1.is_high());
    assert!(!out.gate4.is_high());
    assert_eq!(out.gate1.pin.calls, vec![false]);
    assert_eq!(out.gate2.pin.calls, vec![true]);
    assert_eq!(out.gate4.pin.calls, vec![false, true]);
    out.tick(Time::new(600), &st);
    assert!(!out.gate1.is_high());
    assert_eq!(out.gate1.pin.calls, vec![false, true]);
}

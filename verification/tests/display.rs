use stokast::clock::Time;
use stokast::display::{loop_frame, saw_dn, saw_up};
use stokast::lfo::{Mode, Waves};
use stokast::max6958::{Seg, Segs4};
use stokast::params::{Params, TrackParams, SEED_BASE};
use stokast::state::{InputMode, Oper, Reply, State, TrackSync};

fn state() -> State {
    let params =
        Params { seed: SEED_BASE, pattern_length: 16, tracks: [TrackParams { steps: 0, length: 16, offset: 0 }; 4] };
    State::new(params, Waves::flat(), &[[0u8; 64]; 4], &[[0u32; 64]; 4])
}

#[test]
fn run_shows_playhead_and_animation() {
    let mut st = state();
    st.params.pattern_length = 64;
    assert_eq!(st.to_display().0, [Seg::SegA.bits(), Seg::N0.bits(), Seg::N0.bits(), Seg::SegA.bits(), 0]);
    for _ in 0..17 {
        st.update(Time::new(0), &[Oper::Tick(Time::new(1))], &[Reply::none()]);
    }
    assert_eq!(st.to_display().0, [Seg::SegF.bits(), Seg::N7.bits(), Seg::N1.bits(), Seg::SegF.bits(), 0]);
    st.playhead = 64 + 63;
    st.tick_count = 64 + 63;
    assert_eq!(st.to_display().0, [Seg::SegD.bits(), Seg::N3.bits(), Seg::N6.bits(), Seg::SegD.bits(), 0]);
}

#[test]
fn animation_goes_around_the_digit() {
    let frames = [Seg::SegA, Seg::SegB, Seg::SegC, Seg::SegD, Seg::SegE, Seg::SegF];
    for (i, f) in frames.iter().enumerate() {
        assert_eq!(loop_frame(i), *f);
    }
}

#[test]
fn numbers_are_shown_in_their_modes() {
    let mut st = state();
    st.params.seed = SEED_BASE + 9041;
    st.input_mode = InputMode::Seed;
    assert_eq!(st.to_display(), Segs4::from_number(9041));
    st.input_mode = InputMode::Length;
    assert_eq!(st.to_display(), Segs4::from_number(16));
    st.params.tracks[2].offset = 11;
    st.input_mode = InputMode::Offset(2);
    assert_eq!(st.to_display(), Segs4::from_number(11));
}

#[test]
fn steps_mode_shows_steps_and_length() {
    let mut st = state();
    st.params.tracks[1] = TrackParams { steps: 7, length: 24, offset: 0 };
    st.input_mode = InputMode::Steps(1);
    assert_eq!(st.to_display().0, [Seg::N7.bits(), Seg::N0.bits(), Seg::N4.bits(), Seg::N2.bits(), 0]);
}

#[test]
fn words_are_shown_in_their_modes() {
    let mut st = state();
    st.input_mode = InputMode::Fate;
    assert_eq!(st.to_display(), Segs4::from_text("fate"));
    st.input_mode = InputMode::TrackSync(3);
    assert_eq!(st.to_display(), Segs4::from_text("sync"));
    st.track_sync[3] = TrackSync::Free;
    assert_eq!(st.to_display(), Segs4::from_text("free"));
    st.track_sync[3] = TrackSync::Loop;
    assert_eq!(st.to_display(), Segs4::from_text("loop"));
}

#[test]
fn waveforms_are_shown_in_lfo_mode() {
    let mut st = state();
    st.input_mode = InputMode::Lfo(0);
    let words = [
        (Mode::Random, "rand"),
        (Mode::Sine, "sine"),
        (Mode::Sine90, "si90"),
        (Mode::Sine180, "s180"),
        (Mode::Triangle, "tria"),
        (Mode::Triangle90, "tr90"),
        (Mode::Triangle180, "t180"),
        (Mode::Square, "puls"),
        (Mode::Square90, "pu90"),
        (Mode::Square180, "p180"),
    ];
    for (mode, word) in words {
        st.lfo[0].mode = mode;
        assert_eq!(st.to_display(), Segs4::from_text(word), "{}", word);
    }
    st.lfo[0].mode = Mode::SawUp;
    assert_eq!(st.to_display(), saw_up());
    st.lfo[0].mode = Mode::SawDown;
    assert_eq!(st.to_display(), saw_dn());
}

#[test]
fn sawtooth_drawings() {
    assert_eq!(
        saw_up().0,
        [0, Seg::SegA.bits(), Seg::CornerMru.bits(), Seg::SegG.bits(), Seg::CornerBr.bits()]
    );
    assert_eq!(
        saw_dn().0,
        [0, Seg::SegD.bits(), Seg::CornerMrd.bits(), Seg::SegG.bits(), Seg::CornerTr.bits()]
    );
}

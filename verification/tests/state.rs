use arrayvec::ArrayVec;
use stokast::clock::Time;
use stokast::lfo::{Mode, Waves};
use stokast::queue::OperQueue;
use stokast::fate::{fate_length, fate_offset, fate_seed, fate_steps, fate_track};
use stokast::params::{length_edit, offset_edit, seed_edit, steps_edit, Params, TrackParams, SEED_BASE};
use stokast::playhead::{interpolation, phase, track_playhead_of};
use stokast::state::{InputMode, Oper, Pending, Reply, State, TrackSync, TRACK_COUNT};

fn track(steps: u8, length: u8, offset: u8) -> TrackParams {
    TrackParams { steps, length, offset }
}

fn params() -> Params {
    Params { seed: SEED_BASE, pattern_length: 16, tracks: [track(0, 16, 0); 4] }
}

fn state() -> State {
    State::new(params(), Waves::flat(), &[[0u8; 64]; 4], &[[0u32; 64]; 4])
}

fn run(st: &mut State, now: i64, opers: &[Oper]) -> bool {
    let replies: Vec<Reply> = opers.iter().map(|_| Reply::none()).collect();
    st.update(Time::new(now), opers, &replies)
}

fn tick() -> Oper {
    Oper::Tick(Time::new(1000))
}

#[test]
fn new_state_is_at_rest() {
    let st = state();
    assert_eq!(TRACK_COUNT, 4);
    assert_eq!(st.input_mode, InputMode::Run);
    assert_eq!(st.params, params());
    assert_eq!(st.playhead, 0);
    assert_eq!(st.tick_count, 0);
    assert_eq!(st.track_playhead, [0; 4]);
    assert_eq!(st.track_sync, [TrackSync::Sync; 4]);
    assert_eq!(st.mute, [false; 4]);
    assert!(!st.next_is_reset);
    assert_eq!(st.track_per_tick, [(u32::MAX / 16) as u64; 4]);
    assert_eq!(st.lfo[2].length, 16);
    assert_eq!(st.lfo[2].mode, Mode::Random);
    assert!(params().is_valid());
}

#[test]
fn params_validity_is_checked() {
    let mut p = params();
    assert!(p.is_valid());
    p.seed = SEED_BASE - 1;
    assert!(!p.is_valid());
    p.seed = SEED_BASE + 10_000;
    assert!(!p.is_valid());
    p.seed = SEED_BASE + 9999;
    assert!(p.is_valid());
    p.pattern_length = 1;
    assert!(!p.is_valid());
    p.pattern_length = 65;
    assert!(!p.is_valid());
    p.pattern_length = 64;
    p.tracks[3] = track(5, 4, 0);
    assert!(!p.is_valid());
    p.tracks[3] = track(4, 4, 200);
    assert!(!p.is_valid());
    p.tracks[3] = track(4, 4, 4);
    assert!(!p.is_valid());
    p.tracks[3] = track(4, 4, 3);
    assert!(p.is_valid());
    p.tracks[0] = track(0, 1, 0);
    assert!(!p.is_valid());
}

#[test]
fn oper_validity_is_checked() {
    assert!(Oper::Reset.is_valid());
    assert!(Oper::Offset(3, 1).is_valid());
    assert!(!Oper::Offset(4, 1).is_valid());
    assert!(!Oper::OffsetClick(4).is_valid());
    assert!(!Oper::Steps(9, -1).is_valid());
    assert!(!Oper::StepsClick(4).is_valid());
    assert!(Oper::StepsClick(0).is_valid());
}

#[test]
fn update_without_operations_changes_nothing() {
    let mut st = state();
    run(&mut st, 5, &[tick(), Oper::Steps(1, 3), Oper::OffsetClick(2)]);
    let before = st;
    let regenerate = st.update(Time::new(999_999), &[], &[]);
    assert!(!regenerate);
    assert_eq!(st, before);
}

#[test]
fn sync_playhead_scenario() {
    let mut st = state();
    st.params.pattern_length = 16;
    st.params.tracks[0] = track(0, 4, 0);
    st.playhead = 5;
    st.tick_count = 5;
    st.update_track_playhead();
    assert_eq!(st.track_playhead[0], 1);
    assert_eq!(st.playhead(), 5);
}

#[test]
fn sync_playhead_after_ticks() {
    let mut st = state();
    st.params.tracks[0] = track(0, 4, 0);
    for _ in 0..6 {
        run(&mut st, 0, &[tick()]);
    }
    // The first tick moves the playhead from 0 to 1.
    assert_eq!(st.playhead, 6);
    assert_eq!(st.track_playhead[0], 2);
    assert_eq!(st.track_playhead[1], 6);
}

#[test]
fn sync_wraps_at_the_pattern_length_first() {
    let mut st = state();
    st.params.pattern_length = 16;
    st.params.tracks[0] = track(0, 3, 0);
    st.playhead = 16;
    st.tick_count = 16;
    run(&mut st, 0, &[tick()]);
    assert_eq!(st.playhead, 17);
    assert_eq!(st.playhead(), 1);
    assert_eq!(st.track_playhead[0], 1);
}

#[test]
fn track_playhead_under_each_policy() {
    assert_eq!(track_playhead_of(TrackSync::Sync, 5, 100, 16, 4), 1);
    assert_eq!(track_playhead_of(TrackSync::Sync, 21, 100, 16, 4), 1);
    assert_eq!(track_playhead_of(TrackSync::Sync, 21, 100, 4, 16), 1);
    assert_eq!(track_playhead_of(TrackSync::Sync, 17, 100, 16, 3), 1);
    assert_eq!(track_playhead_of(TrackSync::Free, 17, 100, 16, 3), 2);
    assert_eq!(track_playhead_of(TrackSync::Free, 21, 100, 16, 64), 21);
    assert_eq!(track_playhead_of(TrackSync::Loop, 21, 100, 16, 7), 2);
    assert_eq!(track_playhead_of(TrackSync::Loop, 0, u64::MAX, 16, 64), 63);
}

#[test]
fn reset_restarts_sync_and_free_but_not_loop() {
    let mut st = state();
    st.track_sync = [TrackSync::Sync, TrackSync::Free, TrackSync::Loop, TrackSync::Loop];
    st.params.tracks[2] = track(0, 5, 0);
    for _ in 0..7 {
        run(&mut st, 0, &[tick()]);
    }
    assert_eq!(st.track_playhead, [7, 7, 2, 7]);
    let before = st.track_playhead;
    run(&mut st, 0, &[Oper::Reset]);
    assert!(st.next_is_reset);
    assert_eq!(st.track_playhead, before);
    assert_eq!(st.playhead, 7);
    run(&mut st, 0, &[tick()]);
    assert!(!st.next_is_reset);
    assert_eq!(st.playhead, 0);
    assert_eq!(st.tick_count, 8);
    assert_eq!(st.track_playhead, [0, 0, 3, 8]);
}

#[test]
fn tick_takes_time_and_prediction() {
    let mut st = state();
    let regenerate = st.update(Time::new(777), &[tick()], &[Reply::predicted(Time::new(4242))]);
    assert!(!regenerate);
    assert_eq!(st.last, Time::new(777));
    assert_eq!(st.predicted, Time::new(4242));
    assert_eq!(st.tick_count, 1);
    assert_eq!(st.playhead, 1);
    assert_eq!(st.input_mode, InputMode::Run);
    assert_eq!(st.last_action, Time::new(0));
}

#[test]
fn seed_scenario_counts_down_to_zero_and_stays() {
    let mut st = state();
    st.params.seed = SEED_BASE + 5000;
    for i in 0..5000 {
        let regenerate = run(&mut st, i, &[Oper::Seed(-1)]);
        assert!(regenerate);
        assert_eq!(st.params.seed, SEED_BASE + 5000 - 1 - i as u32);
    }
    assert_eq!(st.params.seed, SEED_BASE);
    let before = st;
    let regenerate = run(&mut st, 9_000_000, &[Oper::Seed(-1)]);
    assert!(!regenerate);
    assert_eq!(st, before);
}

#[test]
fn seed_edit_accepts_only_0_to_9999() {
    assert_eq!(seed_edit(SEED_BASE, 1), Some(SEED_BASE + 1));
    assert_eq!(seed_edit(SEED_BASE, -1), None);
    assert_eq!(seed_edit(SEED_BASE + 9999, 1), None);
    assert_eq!(seed_edit(SEED_BASE + 9998, 1), Some(SEED_BASE + 9999));
    assert_eq!(seed_edit(SEED_BASE + 9999, -128), Some(SEED_BASE + 9871));
    assert_eq!(seed_edit(SEED_BASE + 100, 127), Some(SEED_BASE + 227));
    assert_eq!(seed_edit(SEED_BASE + 100, -101), None);
    assert_eq!(seed_edit(SEED_BASE + 5, 0), Some(SEED_BASE + 5));
}

#[test]
fn seed_operation_shows_the_seed() {
    let mut st = state();
    let regenerate = run(&mut st, 50, &[Oper::Seed(7)]);
    assert!(regenerate);
    assert_eq!(st.params.seed, SEED_BASE + 7);
    assert_eq!(st.input_mode, InputMode::Seed);
    assert_eq!(st.last_action, Time::new(50));
}

#[test]
fn length_edit_accepts_only_2_to_64() {
    assert_eq!(length_edit(16, 1), Some(17));
    assert_eq!(length_edit(2, -1), None);
    assert_eq!(length_edit(64, 1), None);
    assert_eq!(length_edit(64, -62), Some(2));
    assert_eq!(length_edit(2, 62), Some(64));
    assert_eq!(length_edit(64, 127), None);
    assert_eq!(length_edit(2, -128), None);
}

#[test]
fn length_operation_out_of_range_changes_nothing() {
    let mut st = state();
    st.params.pattern_length = 64;
    let before = st;
    assert!(!run(&mut st, 10, &[Oper::Length(1)]));
    assert_eq!(st, before);
    assert!(run(&mut st, 10, &[Oper::Length(-1)]));
    assert_eq!(st.params.pattern_length, 63);
    assert_eq!(st.input_mode, InputMode::Length);
}

#[test]
fn length_click_changes_nothing() {
    let mut st = state();
    let before = st;
    assert!(!run(&mut st, 10, &[Oper::LengthClick]));
    assert_eq!(st, before);
}

#[test]
fn steps_wrap_grow_scenario() {
    let mut st = state();
    st.params.tracks[1] = track(2, 2, 0);
    let regenerate = run(&mut st, 3, &[Oper::Steps(1, 1)]);
    assert!(regenerate);
    assert_eq!(st.params.tracks[1], track(0, 3, 0));
    assert_eq!(st.input_mode, InputMode::Steps(1));
}

#[test]
fn steps_edit_at_the_bounds() {
    // Within the track.
    assert_eq!(steps_edit(track(3, 8, 5), 2), track(5, 8, 5));
    assert_eq!(steps_edit(track(3, 8, 5), -3), track(0, 8, 5));
    assert_eq!(steps_edit(track(3, 8, 5), 5), track(8, 8, 5));
    // Past the length: one step longer, steps at zero.
    assert_eq!(steps_edit(track(8, 8, 5), 1), track(0, 9, 5));
    assert_eq!(steps_edit(track(3, 8, 5), 100), track(0, 9, 5));
    // At the longest length the length stays.
    assert_eq!(steps_edit(track(64, 64, 0), 1), track(0, 64, 0));
    // Below zero: one step shorter, steps at the new length.
    assert_eq!(steps_edit(track(0, 8, 5), -1), track(7, 7, 5));
    assert_eq!(steps_edit(track(3, 8, 5), -100), track(7, 7, 5));
    // At the shortest length the length stays, and the steps are one below it.
    assert_eq!(steps_edit(track(0, 2, 0), -1), track(1, 2, 0));
    assert_eq!(steps_edit(track(0, 3, 0), -1), track(2, 2, 0));
    // An offset at the last step of a track that shrinks starts again at zero.
    assert_eq!(steps_edit(track(0, 8, 7), -1), track(7, 7, 0));
    assert_eq!(steps_edit(track(0, 8, 6), -1), track(7, 7, 6));
    assert_eq!(steps_edit(track(8, 8, 7), 1), track(0, 9, 7));
    assert_eq!(steps_edit(track(0, 2, 1), -1), track(1, 2, 1));
}

#[test]
fn steps_stay_in_bounds_over_many_turns() {
    let mut st = state();
    let deltas: [i8; 8] = [1, -1, 5, -7, 127, -128, 3, -2];
    for round in 0..200 {
        let d = deltas[round % deltas.len()];
        run(&mut st, 0, &[Oper::Steps(round % 4, d), Oper::Offset(round % 4, d), Oper::Length(d), Oper::Seed(d)]);
        assert!(st.params.is_valid());
        for t in st.params.tracks {
            assert!(2 <= t.length && t.length <= 64);
            assert!(t.steps <= t.length);
            assert!(t.offset < t.length);
        }
        assert!(2 <= st.params.pattern_length && st.params.pattern_length <= 64);
        assert!(st.params.seed - SEED_BASE <= 9999);
    }
}

#[test]
fn offset_wraps_at_the_track_length() {
    assert_eq!(offset_edit(track(0, 8, 0), 1), track(0, 8, 1));
    assert_eq!(offset_edit(track(0, 8, 7), 1), track(0, 8, 0));
    assert_eq!(offset_edit(track(0, 8, 0), -1), track(0, 8, 7));
    assert_eq!(offset_edit(track(0, 8, 3), 127), track(0, 8, 2));
    assert_eq!(offset_edit(track(0, 8, 3), -128), track(0, 8, 3));
    assert_eq!(offset_edit(track(0, 3, 0), -128), track(0, 3, 1));
    assert_eq!(offset_edit(track(0, 5, 200), 0), track(0, 5, 0));
}

#[test]
fn offset_operation_edits_the_offset() {
    let mut st = state();
    let regenerate = run(&mut st, 9, &[Oper::Offset(2, -1)]);
    assert!(regenerate);
    assert_eq!(st.params.tracks[2], track(0, 16, 15));
    assert_eq!(st.input_mode, InputMode::Offset(2));
    assert_eq!(st.last_action, Time::new(9));
}

#[test]
fn offset_in_lfo_mode_cycles_the_waveform() {
    let mut st = state();
    run(&mut st, 1, &[Oper::OffsetClick(3)]);
    assert_eq!(st.input_mode, InputMode::Lfo(3));
    let regenerate = run(&mut st, 2, &[Oper::Offset(3, -1)]);
    assert!(regenerate);
    assert_eq!(st.lfo[3].mode, Mode::Square180);
    assert_eq!(st.params.tracks[3].offset, 0);
    assert_eq!(st.input_mode, InputMode::Lfo(3));
    assert_eq!(st.last_action, Time::new(2));
    // Another track's knob edits that track's offset.
    run(&mut st, 3, &[Oper::Offset(1, 1)]);
    assert_eq!(st.params.tracks[1].offset, 1);
    assert_eq!(st.lfo[1].mode, Mode::Random);
    assert_eq!(st.input_mode, InputMode::Offset(1));
}

#[test]
fn clicks_toggle_the_modes() {
    let mut st = state();
    assert!(!run(&mut st, 1, &[Oper::SeedClick]));
    assert_eq!(st.input_mode, InputMode::Fate);
    run(&mut st, 2, &[Oper::SeedClick]);
    assert_eq!(st.input_mode, InputMode::Seed);
    run(&mut st, 3, &[Oper::OffsetClick(1)]);
    assert_eq!(st.input_mode, InputMode::Lfo(1));
    run(&mut st, 4, &[Oper::OffsetClick(1)]);
    assert_eq!(st.input_mode, InputMode::Offset(1));
    run(&mut st, 5, &[Oper::OffsetClick(2)]);
    assert_eq!(st.input_mode, InputMode::Lfo(2));
    run(&mut st, 6, &[Oper::OffsetClick(1)]);
    assert_eq!(st.input_mode, InputMode::Lfo(1));
    run(&mut st, 7, &[Oper::StepsClick(0)]);
    assert_eq!(st.input_mode, InputMode::TrackSync(0));
    run(&mut st, 8, &[Oper::StepsClick(0)]);
    assert_eq!(st.input_mode, InputMode::Steps(0));
    assert_eq!(st.last_action, Time::new(8));
}

#[test]
fn steps_in_sync_mode_cycles_the_policy() {
    let mut st = state();
    run(&mut st, 1, &[Oper::StepsClick(2)]);
    let regenerate = run(&mut st, 2, &[Oper::Steps(2, 1)]);
    assert!(!regenerate);
    assert_eq!(st.track_sync[2], TrackSync::Free);
    assert_eq!(st.params.tracks[2], track(0, 16, 0));
    assert_eq!(st.last_action, Time::new(2));
    run(&mut st, 3, &[Oper::Steps(2, 1)]);
    assert_eq!(st.track_sync[2], TrackSync::Loop);
    run(&mut st, 4, &[Oper::Steps(2, 1)]);
    assert_eq!(st.track_sync[2], TrackSync::Sync);
    run(&mut st, 5, &[Oper::Steps(2, -1)]);
    assert_eq!(st.track_sync[2], TrackSync::Loop);
    run(&mut st, 6, &[Oper::Steps(2, -128)]);
    assert_eq!(st.track_sync[2], TrackSync::Sync);
    assert_eq!(st.input_mode, InputMode::TrackSync(2));
}

#[test]
fn track_sync_from_wraps_both_ways() {
    assert_eq!(TrackSync::len(), 3);
    assert_eq!(TrackSync::from(0), TrackSync::Sync);
    assert_eq!(TrackSync::from(1), TrackSync::Free);
    assert_eq!(TrackSync::from(2), TrackSync::Loop);
    assert_eq!(TrackSync::from(3), TrackSync::Sync);
    assert_eq!(TrackSync::from(-1), TrackSync::Loop);
    assert_eq!(TrackSync::from(-3), TrackSync::Sync);
    assert_eq!(TrackSync::from(-128), TrackSync::Free);
    assert_eq!(TrackSync::Loop.index(), 2);
    assert_eq!(TrackSync::wrap(129), TrackSync::Sync);
    assert_eq!(TrackSync::wrap(-128), TrackSync::Free);
}

#[test]
fn mode_of_the_batch_start_decides() {
    let mut st = state();
    // The click asks for Fate, but the turn in the same batch still edits the seed.
    let regenerate = run(&mut st, 1, &[Oper::SeedClick, Oper::Seed(1)]);
    assert!(regenerate);
    assert_eq!(st.params.seed, SEED_BASE + 1);
    assert_eq!(st.input_mode, InputMode::Seed);
    // Two clicks in one batch both see the old mode.
    run(&mut st, 2, &[Oper::SeedClick, Oper::SeedClick]);
    assert_eq!(st.input_mode, InputMode::Fate);
}

#[test]
fn fate_draws_new_parameters() {
    let mut st = state();
    run(&mut st, 1, &[Oper::SeedClick]);
    assert_eq!(st.input_mode, InputMode::Fate);
    let top = u32::MAX;
    let mut draws = [0u32; 25];
    // Track 0: power of two, no steps, no offset.
    draws[1] = u32::MAX / 6 * 3;
    // Track 1: another length, steps and offset in proportion.
    draws[6] = top;
    draws[7] = u32::MAX / 16 * 5;
    draws[8] = top;
    draws[9] = u32::MAX / 11 * 4;
    draws[10] = top;
    draws[11] = u32::MAX / 10 * 9;
    // Track 2 and 3: all draws zero.
    draws[24] = u32::MAX / 9999 * 1234;
    let regenerate = st.update(Time::new(2), &[Oper::Seed(1)], &[Reply::draws(draws)]);
    assert!(regenerate);
    assert_eq!(st.params.tracks[0], track(0, 16, 0));
    assert_eq!(st.params.tracks[1], track(4, 10, 9));
    assert_eq!(st.params.tracks[2], track(0, 2, 0));
    assert_eq!(st.params.tracks[3], track(0, 2, 0));
    assert_eq!(st.params.seed, SEED_BASE + 1234);
    assert_eq!(st.params.pattern_length, 16);
    assert!(st.next_is_reset);
    assert_eq!(st.input_mode, InputMode::Fate);
    assert_eq!(st.last_action, Time::new(1));
    assert!(st.params.is_valid());
    assert_eq!(st.fate_params(&draws), st.params);
}

#[test]
fn fate_formulas() {
    let low = 0u32;
    let high = u32::MAX / 2;
    let sixth = u32::MAX / 6;
    assert_eq!(fate_length(low, 0), 2);
    assert_eq!(fate_length(low, sixth - 1), 2);
    assert_eq!(fate_length(low, sixth), 4);
    assert_eq!(fate_length(low, sixth * 2), 8);
    assert_eq!(fate_length(low, sixth * 3), 16);
    assert_eq!(fate_length(low, sixth * 4), 32);
    assert_eq!(fate_length(low, sixth * 5), 64);
    assert_eq!(fate_length(low, u32::MAX), 64);
    assert_eq!(fate_length(high - 1, 0), 2);
    let lengths: [u8; 16] = [3, 5, 6, 7, 9, 10, 11, 12, 13, 14, 15, 17, 18, 19, 20, 24];
    for (i, l) in lengths.iter().enumerate() {
        assert_eq!(fate_length(high, u32::MAX / 16 * i as u32), *l);
    }
    assert_eq!(fate_length(u32::MAX, u32::MAX), 24);

    assert_eq!(fate_steps(low, u32::MAX, 8), 0);
    assert_eq!(fate_steps(high, 0, 8), 0);
    assert_eq!(fate_steps(high, u32::MAX / 9 * 4, 8), 4);
    assert_eq!(fate_steps(high, u32::MAX / 9 * 8, 8), 8);
    assert_eq!(fate_steps(high, u32::MAX, 8), 8);
    assert_eq!(fate_steps(high, u32::MAX, 64), 64);

    assert_eq!(fate_offset(low, u32::MAX, 8), 0);
    assert_eq!(fate_offset(high, 0, 8), 0);
    assert_eq!(fate_offset(high, u32::MAX / 8 * 3, 8), 3);
    assert_eq!(fate_offset(high, u32::MAX / 8 * 7, 8), 7);
    assert_eq!(fate_offset(high, u32::MAX / 8 * 8, 8), 7);
    assert_eq!(fate_offset(high, u32::MAX, 8), 7);
    assert_eq!(fate_offset(high, u32::MAX, 2), 1);
    assert_eq!(fate_offset(high, u32::MAX, 64), 63);

    assert_eq!(fate_seed(0), SEED_BASE);
    assert_eq!(fate_seed(u32::MAX / 9999 - 1), SEED_BASE);
    assert_eq!(fate_seed(u32::MAX / 9999), SEED_BASE + 1);
    assert_eq!(fate_seed(u32::MAX), SEED_BASE + 9999);

    let mut draws = [0u32; 25];
    draws[18] = high;
    draws[19] = u32::MAX / 16 * 15;
    draws[20] = high;
    draws[21] = u32::MAX;
    assert_eq!(fate_track(&draws, 18), track(24, 24, 0));
}

#[test]
fn apply_is_one_step_of_update() {
    let mut a = state();
    let mut b = state();
    let opers = [Oper::Steps(0, 2), tick(), Oper::Reset, Oper::Offset(1, 3), Oper::StepsClick(3)];
    let mut pending = Pending::nothing();
    for oper in opers {
        a.apply(&mut pending, Time::new(5), oper, &Reply::none());
    }
    assert_eq!(pending.input_mode, Some(InputMode::TrackSync(3)));
    assert!(pending.regenerate);
    // The mode asked for is not taken up before the batch ends.
    assert_eq!(a.input_mode, InputMode::Run);
    let regenerate = run(&mut b, 5, &opers);
    assert!(regenerate);
    a.input_mode = InputMode::TrackSync(3);
    a.last_action = Time::new(5);
    assert_eq!(a, b);
}

#[test]
fn update_queued_empties_the_queue() {
    let mut st = state();
    let mut todo: OperQueue = ArrayVec::new();
    todo.push(Oper::Steps(1, 2));
    todo.push(tick());
    let replies = [Reply::none(), Reply::predicted(Time::new(99))];
    let regenerate = st.update_queued(Time::new(11), &mut todo, &replies);
    assert!(regenerate);
    assert!(todo.is_empty());
    assert_eq!(st.params.tracks[1].steps, 2);
    assert_eq!(st.predicted, Time::new(99));
    assert_eq!(st.tick_count, 1);
    assert_eq!(st.input_mode, InputMode::Steps(1));
}

#[test]
fn regenerate_takes_patterns_tables_and_tick_phase() {
    let mut st = state();
    st.params.tracks = [track(0, 2, 0), track(0, 3, 0), track(0, 16, 0), track(0, 64, 0)];
    let mut patterns = [[0u8; 64]; 4];
    patterns[1][2] = 1;
    let mut draws = [[0u32; 64]; 4];
    draws[3][63] = 77;
    st.regenerate(&patterns, &draws);
    assert_eq!(st.patterns, patterns);
    assert_eq!(st.lfo[0].length, 2);
    assert_eq!(st.lfo[1].length, 3);
    assert_eq!(st.lfo[3].length, 64);
    assert_eq!(st.lfo[3].rnd, draws[3]);
    assert_eq!(
        st.track_per_tick,
        [2147483647, 1431655765, 268435455, 67108863]
    );
}

#[test]
fn interpolation_formula() {
    assert_eq!(interpolation(500, 1000, 4000), 2000);
    assert_eq!(interpolation(1000, 1000, 4000), 4000);
    assert_eq!(interpolation(5000, 1000, 4000), 4000);
    assert_eq!(interpolation(0, 1000, 4000), 0);
    assert_eq!(interpolation(500, 0, 4000), 0);
    assert_eq!(interpolation(500, -7, 4000), 0);
    assert_eq!(interpolation(1, 3, 4000), 1333);
    assert_eq!(interpolation(u64::MAX, i64::MAX, u32::MAX as u64), u32::MAX as u64);
}

#[test]
fn phase_formula() {
    let pt = (u32::MAX / 4) as u64;
    assert_eq!(phase(0, pt, 0, 1000), 0);
    assert_eq!(phase(1, pt, 0, 1000), 1073741823);
    assert_eq!(phase(1, pt, 500, 1000), 1073741823 + 536870911);
    assert_eq!(phase(3, pt, 1000, 1000), 3221225469 + 1073741823);
    // A playhead past the end of a shortened track wraps the phase around.
    assert_eq!(phase(4, pt, 0, 1000), (4 * 1073741823u64 % 0x1_0000_0000) as u32);
    assert_eq!(phase(63, (u32::MAX / 2) as u64, 0, 0), ((63 * 2147483647u64) % 0x1_0000_0000) as u32);
}

#[test]
fn track_offset_interpolates_between_ticks() {
    let mut st = state();
    st.params.tracks = [track(0, 4, 0); 4];
    st.regenerate(&[[0u8; 64]; 4], &[[0u32; 64]; 4]);
    st.update(Time::new(10_000), &[tick()], &[Reply::predicted(Time::new(1000))]);
    assert_eq!(st.track_playhead, [1; 4]);
    assert_eq!(st.track_offset(Time::new(10_000)), [1073741823; 4]);
    assert_eq!(st.track_offset(Time::new(10_500)), [1073741823 + 536870911; 4]);
    assert_eq!(st.track_offset(Time::new(20_000)), [2147483646; 4]);
    // Before the last tick nothing has lapsed.
    assert_eq!(st.track_offset(Time::new(9_000)), [1073741823; 4]);
}

#[test]
fn update_time_returns_to_run_after_five_seconds() {
    let mut st = state();
    run(&mut st, 1000, &[Oper::Seed(1)]);
    assert_eq!(st.input_mode, InputMode::Seed);
    let waves = [Waves::flat(); 4];
    st.update_time(Time::new(1000 + 3_000_000_000), &waves);
    assert_eq!(st.input_mode, InputMode::Seed);
    st.update_time(Time::new(1000 + 3_000_000_001), &waves);
    assert_eq!(st.input_mode, InputMode::Run);
    // The time of the last action stays.
    assert_eq!(st.last_action, Time::new(1000));
}

#[test]
fn update_time_moves_the_oscillators() {
    let mut st = state();
    st.params.tracks = [track(0, 4, 0); 4];
    st.regenerate(&[[0u8; 64]; 4], &[[0u32; 64]; 4]);
    st.lfo[1].mode = Mode::SawUp;
    st.lfo[2].mode = Mode::Sine;
    st.update(Time::new(0), &[tick()], &[Reply::predicted(Time::new(1000))]);
    let mut waves = [Waves::flat(); 4];
    waves[2].sine = 1600;
    st.update_time(Time::new(500), &waves);
    let offset = 1073741823 + 536870911;
    assert_eq!(st.lfo[0].offset, offset);
    assert_eq!(st.lfo[1].offset, offset);
    assert_eq!(st.lfo[0].tick(), None);
    assert_eq!(st.lfo[1].tick(), Some((offset >> 20) as u16));
    assert_eq!(st.lfo[2].tick(), Some(2148));
    assert_eq!(st.lfo[2].waves, waves[2]);
}

#[test]
fn replies_are_made_by_their_constructors() {
    assert_eq!(Reply::none().predicted, Time::new(0));
    assert_eq!(Reply::none().draws, [0u32; 25]);
    assert_eq!(Reply::predicted(Time::new(5)).predicted, Time::new(5));
    assert_eq!(Reply::predicted(Time::new(5)).draws, [0u32; 25]);
    let mut d = [0u32; 25];
    d[24] = 9;
    assert_eq!(Reply::draws(d).draws, d);
}

#[test]
fn validity_is_checked() {
    let mut st = state();
    assert!(st.is_valid());
    st.input_mode = InputMode::Lfo(3);
    assert!(st.is_valid());
    st.input_mode = InputMode::Lfo(4);
    assert!(!st.is_valid());
    assert!(!InputMode::Steps(4).is_valid());
    assert!(InputMode::Fate.is_valid());
    st.input_mode = InputMode::Run;
    st.track_playhead[3] = 64;
    assert!(!st.is_valid());
    st.track_playhead[3] = 63;
    st.track_per_tick[0] = 1 << 32;
    assert!(!st.is_valid());
    st.track_per_tick[0] = u32::MAX as u64;
    assert!(st.is_valid());
    st.lfo[1].length = 1;
    assert!(!st.lfo[1].is_valid());
    assert!(!st.is_valid());
    st.lfo[1].length = 2;
    st.lfo[1].next = Some(4096);
    assert!(!st.is_valid());
    st.lfo[1].next = Some(4095);
    st.predicted = Time::new(i64::MAX);
    assert!(!st.is_valid());
    st.predicted = Time::new(0);
    st.last = Time::new(i64::MIN);
    assert!(!st.is_valid());
    st.last = Time::new(5);
    assert!(st.is_valid());
    st.playhead = 1;
    assert!(!st.is_valid());
    st.tick_count = 1;
    assert!(st.is_valid());
    st.params.tracks[2].offset = 16;
    assert!(!st.is_valid());
    st.params.tracks[2].offset = 15;
    st.params.pattern_length = 0;
    assert!(!st.is_valid());
}

#[test]
fn fate_offset_stays_below_the_length() {
    let mut st = state();
    run(&mut st, 1, &[Oper::SeedClick]);
    // Every track gets the shortest length and the greatest offset draw.
    let mut draws = [0u32; 25];
    for tr in 0..4 {
        draws[tr * 6 + 4] = u32::MAX;
        draws[tr * 6 + 5] = u32::MAX;
    }
    let regenerate = st.update(Time::new(2), &[Oper::Seed(-1)], &[Reply::draws(draws)]);
    assert!(regenerate);
    for t in st.params.tracks {
        assert_eq!(t, track(0, 2, 1));
    }
    assert!(st.is_valid());
}

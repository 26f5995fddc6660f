use stokast::clock::Time;
use stokast::lfo::Waves;
use stokast::max6958::{Segs, Segs4};
use stokast::pacing::{same_segs, Pacer, DISPLAY_PERIOD, TIME_UPDATE_PERIOD};
use stokast::params::{Params, TrackParams, SEED_BASE};
use stokast::state::{Oper, Reply, State};

fn state() -> State {
    let params =
        Params { seed: SEED_BASE, pattern_length: 16, tracks: [TrackParams { steps: 0, length: 16, offset: 0 }; 4] };
    State::new(params, Waves::flat(), &[[0u8; 64]; 4], &[[0u32; 64]; 4])
}

#[test]
fn periods_are_ten_micros_and_ten_millis() {
    assert_eq!(TIME_UPDATE_PERIOD, Time::from_micros(10).count());
    assert_eq!(DISPLAY_PERIOD, Time::from_millis(10).count());
}

#[test]
fn segs_are_compared_byte_by_byte() {
    assert!(same_segs(&Segs([1, 2, 3, 4, 5]), &Segs([1, 2, 3, 4, 5])));
    for i in 0..5 {
        let mut other = Segs([1, 2, 3, 4, 5]);
        other.0[i] = 0;
        assert!(!same_segs(&Segs([1, 2, 3, 4, 5]), &other));
    }
}

#[test]
fn time_update_comes_every_ten_micros() {
    let mut p = Pacer::new(Time::new(1000));
    assert!(!p.time_update_due(Time::new(1000)));
    assert!(!p.time_update_due(Time::new(6999)));
    assert_eq!(p.last_time_update, Time::new(1000));
    assert!(p.time_update_due(Time::new(7000)));
    assert_eq!(p.last_time_update, Time::new(7000));
    assert!(!p.time_update_due(Time::new(7001)));
    assert!(p.time_update_due(Time::new(99_000)));
    assert_eq!(p.last_display_update, Time::new(1000));
}

#[test]
fn display_is_written_where_it_changed() {
    let mut st = state();
    let mut p = Pacer::new(Time::new(0));
    // Too early.
    assert_eq!(p.display_due(Time::new(DISPLAY_PERIOD - 1), &st), None);
    assert_eq!(p.last_display_update, Time::new(0));
    // Due, and the display differs from the dark one.
    let shown = p.display_due(Time::new(DISPLAY_PERIOD), &st);
    assert_eq!(shown, Some(st.to_display()));
    assert_eq!(p.last_segs, st.to_display());
    assert_eq!(p.last_display_update, Time::new(DISPLAY_PERIOD));
    // Due again, but nothing changed.
    assert_eq!(p.display_due(Time::new(2 * DISPLAY_PERIOD), &st), None);
    assert_eq!(p.last_display_update, Time::new(2 * DISPLAY_PERIOD));
    // The playhead moves, but it is too early to look.
    st.update(Time::new(0), &[Oper::Tick(Time::new(1))], &[Reply::none()]);
    assert_eq!(p.display_due(Time::new(2 * DISPLAY_PERIOD + 5), &st), None);
    let shown: Option<Segs4> = p.display_due(Time::new(3 * DISPLAY_PERIOD), &st);
    assert_eq!(shown, Some(st.to_display()));
}

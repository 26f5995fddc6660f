use stokast::clock::Time;
use stokast::encoder::{decay, measure, table, Encoder, EncoderAccelerator, ACCEL_ONE, ACCEL_PERIOD};

fn feed(e: &mut Encoder, samples: &[(bool, bool)]) -> Vec<i8> {
    let mut out = Vec::new();
    for (a, b) in samples {
        out.push(e.tick(*a, *b));
    }
    out
}

#[test]
fn table_maps_every_nibble() {
    let expected: [i8; 16] = [0, 1, -1, 0, -1, 0, 0, 1, 1, 0, 0, -1, 0, -1, 1, 0];
    for nibble in 0..16u8 {
        assert_eq!(table(nibble), expected[nibble as usize], "nibble {}", nibble);
    }
}

#[test]
fn table_has_four_of_each_direction() {
    let mut up = 0;
    let mut down = 0;
    let mut none = 0;
    for nibble in 0..16u8 {
        match table(nibble) {
            1 => up += 1,
            -1 => down += 1,
            0 => none += 1,
            other => panic!("table gave {}", other),
        }
    }
    assert_eq!((up, down, none), (4, 4, 8));
}

#[test]
fn table_is_zero_outside_the_nibbles() {
    assert_eq!(table(16), 0);
    assert_eq!(table(255), 0);
}

#[test]
fn clockwise_step_emits_once() {
    let mut e = Encoder::new();
    let out = feed(&mut e, &[(true, false), (true, true), (false, true), (false, false)]);
    assert_eq!(out, vec![0, 1, 0, 0]);
}

#[test]
fn counter_clockwise_step_emits_once() {
    let mut e = Encoder::new();
    let out = feed(&mut e, &[(false, true), (true, true), (true, false), (false, false)]);
    assert_eq!(out, vec![0, -1, 0, 0]);
}

#[test]
fn three_clockwise_steps_emit_three() {
    let mut e = Encoder::new();
    let step = [(true, false), (true, true), (false, true), (false, false)];
    let mut sum = 0;
    for _ in 0..3 {
        for d in feed(&mut e, &step) {
            assert!(d == 0 || d == 1);
            sum += d;
        }
    }
    assert_eq!(sum, 3);
}

#[test]
fn bounce_emits_nothing() {
    let mut e = Encoder::new();
    let out = feed(
        &mut e,
        &[(true, false), (false, false), (true, false), (false, false), (false, true), (false, false)],
    );
    assert_eq!(out, vec![0, 0, 0, 0, 0, 0]);
}

#[test]
fn jump_of_both_lines_emits_nothing() {
    let mut e = Encoder::new();
    let out = feed(&mut e, &[(true, true), (false, false), (true, true)]);
    assert_eq!(out, vec![0, 0, 0]);
    assert_eq!(e.state, 0);
}

#[test]
fn steady_lines_emit_nothing() {
    let mut e = Encoder::new();
    let out = feed(&mut e, &[(false, false), (false, false), (true, false), (true, false)]);
    assert_eq!(out, vec![0, 0, 0, 0]);
}

#[test]
fn state_holds_the_last_two_transitions() {
    let mut e = Encoder::new();
    e.tick(true, false);
    assert_eq!(e.state, 0x01);
    e.tick(true, true);
    assert_eq!(e.state, 0x17);
    e.tick(false, true);
    assert_eq!(e.state, 0x7e);
    e.tick(false, false);
    assert_eq!(e.state, 0xe8);
}

#[test]
fn measure_is_capped_at_one_step_per_period() {
    assert_eq!(measure(0), ACCEL_ONE);
    assert_eq!(measure(-5), ACCEL_ONE);
    assert_eq!(measure(ACCEL_PERIOD), ACCEL_ONE);
    assert_eq!(measure(ACCEL_PERIOD / 2), ACCEL_ONE);
    assert_eq!(measure(ACCEL_PERIOD * 2), ACCEL_ONE / 2);
    assert_eq!(measure(ACCEL_PERIOD * 10), 6553);
}

#[test]
fn decay_is_geometric_and_reaches_zero() {
    assert_eq!(decay(0), 0);
    assert_eq!(decay(1), 0);
    assert_eq!(decay(255), 254);
    assert_eq!(decay(256), 255);
    assert_eq!(decay(65536), 65280);
}

fn clockwise(acc: &mut EncoderAccelerator, now: Time) -> i8 {
    let mut sum = 0;
    for (a, b) in [(true, false), (true, true), (false, true), (false, false)] {
        sum += acc.tick(now, a, b);
    }
    sum
}

#[test]
fn accelerator_passes_real_steps() {
    let mut acc = EncoderAccelerator::new(Encoder::new());
    assert_eq!(clockwise(&mut acc, Time::new(1000)), 1);
    assert_eq!(acc.direction, 1);
    assert_eq!(acc.speed, 0);
}

#[test]
fn accelerator_speeds_up_on_steps_in_one_direction() {
    let mut acc = EncoderAccelerator::new(Encoder::new());
    clockwise(&mut acc, Time::new(0));
    clockwise(&mut acc, Time::new(ACCEL_PERIOD * 2));
    assert_eq!(acc.speed, ACCEL_ONE / 2);
    assert_eq!(acc.stepped, Time::new(ACCEL_PERIOD * 2));
}

#[test]
fn accelerator_emits_steps_of_its_own() {
    let mut acc = EncoderAccelerator::new(Encoder::new());
    clockwise(&mut acc, Time::new(0));
    clockwise(&mut acc, Time::new(ACCEL_PERIOD * 2));
    let speed = acc.speed;
    // Before a period has passed nothing happens.
    assert_eq!(acc.tick(Time::new(ACCEL_PERIOD * 2 + 10), false, false), 0);
    assert_eq!(acc.speed, speed);
    // First period: the pool is half full.
    assert_eq!(acc.tick(Time::new(ACCEL_PERIOD * 3), false, false), 0);
    assert_eq!(acc.speed, decay(speed));
    assert_eq!(acc.pool, decay(speed));
    // Second period: the pool does not quite overflow, since the speed decayed.
    assert_eq!(acc.tick(Time::new(ACCEL_PERIOD * 4), false, false), 0);
    // Third period: it overflows.
    assert_eq!(acc.tick(Time::new(ACCEL_PERIOD * 5), false, false), 1);
    assert!(acc.pool < ACCEL_ONE);
}

#[test]
fn accelerator_stops_on_a_change_of_direction() {
    let mut acc = EncoderAccelerator::new(Encoder::new());
    clockwise(&mut acc, Time::new(0));
    clockwise(&mut acc, Time::new(ACCEL_PERIOD * 2));
    acc.tick(Time::new(ACCEL_PERIOD * 3), false, false);
    assert!(acc.speed > 0);
    let mut sum = 0;
    for (a, b) in [(false, true), (true, true), (true, false), (false, false)] {
        sum += acc.tick(Time::new(ACCEL_PERIOD * 3 + 100), a, b);
    }
    assert_eq!(sum, -1);
    assert_eq!(acc.direction, -1);
    assert_eq!(acc.speed, 0);
    assert_eq!(acc.pool, 0);
}

#[test]
fn accelerator_at_rest_stays_silent() {
    let mut acc = EncoderAccelerator::new(Encoder::new());
    for i in 0..100 {
        assert_eq!(acc.tick(Time::new(i * ACCEL_PERIOD), false, false), 0);
    }
}

//! Behavior of the shader combinators on concrete sample points.

use shark::fixed::SCALE;
use shark::primitives::{checkerboard, color, memoized, mix, mod_position, mod_time, off,
    position_gradient, position_rainbow, random_seeded, rotate_hue, scale_position, scale_time,
    time_gradient, time_rainbow, translate_position, volume_blur};
use shark::{Color, Fixed, FragOne, FragThree, FragTwo, Fragment};

fn fx(millionths: i64) -> Fixed {
    Fixed::from_millionths(millionths)
}

fn rgb(r: i64, g: i64, b: i64) -> Color {
    Color::new(fx(r), fx(g), fx(b))
}

fn frag1(pos: i64, time: i64) -> Fragment {
    FragOne { pos: fx(pos), time: fx(time) }.fragment()
}

fn red() -> Color {
    rgb(SCALE, 0, 0)
}

fn blue() -> Color {
    rgb(0, 0, SCALE)
}

fn white() -> Color {
    rgb(SCALE, SCALE, SCALE)
}

#[test]
fn shader_ext() {
    let mut shader = color(rgb(800_000, 159_000, -193_000)).checkerboard(off(), fx(2 * SCALE));
    shader.shade(&frag1(0, 0));
}

#[test]
fn off_is_black() {
    let mut s = off();
    assert_eq!(s.shade(&frag1(7 * SCALE, 3 * SCALE)), rgb(0, 0, 0));
}

#[test]
fn color_ignores_position_and_time() {
    let mut s = color(rgb(250_000, 500_000, 750_000));
    assert_eq!(s.shade(&frag1(0, 0)), rgb(250_000, 500_000, 750_000));
    assert_eq!(s.shade(&frag1(-9 * SCALE, 4 * SCALE)), rgb(250_000, 500_000, 750_000));
}

#[test]
fn checkerboard_parity_stride_two() {
    // Stride two, one dimension: cells 0,0,1,1,2 at positions 0..4.
    let mut s = checkerboard(color(red()), color(blue()), fx(2 * SCALE));
    let expected = [red(), red(), blue(), blue(), red()];
    for i in 0..5 {
        assert_eq!(s.shade(&frag1(i as i64 * SCALE, 0)), expected[i]);
    }
}

#[test]
fn checkerboard_negative_position() {
    let mut s = checkerboard(color(red()), color(blue()), fx(2 * SCALE));
    // |-1| / 2 is cell zero: the first shader.
    assert_eq!(s.shade(&frag1(-SCALE, 0)), red());
    // |-2| / 2 is cell one: the second shader.
    assert_eq!(s.shade(&frag1(-2 * SCALE, 0)), blue());
}

#[test]
fn mix_endpoints_and_midpoint() {
    let mut at_start = mix(color(red()), color(blue()), fx(0));
    assert_eq!(at_start.shade(&frag1(0, 0)), red());

    let mut at_end = mix(color(red()), color(blue()), fx(SCALE));
    assert_eq!(at_end.shade(&frag1(0, 0)), blue());

    let mut half = mix(color(rgb(0, 0, 0)), color(white()), fx(SCALE / 2));
    assert_eq!(half.shade(&frag1(0, 0)), rgb(SCALE / 2, SCALE / 2, SCALE / 2));
}

#[test]
fn mix_extrapolates_past_the_end() {
    let mut s = mix(color(rgb(0, 0, 0)), color(white()), fx(2 * SCALE));
    assert_eq!(s.shade(&frag1(0, 0)), rgb(2 * SCALE, 2 * SCALE, 2 * SCALE));
}

#[test]
fn position_gradient_follows_position() {
    let mut s = position_gradient(off(), color(white()));
    assert_eq!(s.shade(&frag1(SCALE / 2, 0)), rgb(SCALE / 2, SCALE / 2, SCALE / 2));
}

#[test]
fn time_gradient_follows_time() {
    let mut s = time_gradient(off(), color(white()));
    assert_eq!(s.shade(&frag1(0, SCALE / 4)), rgb(SCALE / 4, SCALE / 4, SCALE / 4));
}

#[test]
fn mod_position_is_periodic() {
    let m = 5 * SCALE;
    let mut a = mod_position(position_gradient(off(), color(white())), fx(m));
    let mut b = mod_position(position_gradient(off(), color(white())), fx(m));
    for p in [0, 1_500_000, 4_999_999, -3_200_000] {
        assert_eq!(a.shade(&frag1(p, 0)), b.shade(&frag1(p + m, 0)));
    }
}

#[test]
fn mod_position_wraps_into_range() {
    // Position -1.5 wrapped by 2 lands at 0.5.
    let mut s = mod_position(position_gradient(off(), color(white())), fx(2 * SCALE));
    assert_eq!(s.shade(&frag1(-1_500_000, 0)), rgb(SCALE / 2, SCALE / 2, SCALE / 2));
}

#[test]
fn mod_time_loops_animation() {
    let mut s = mod_time(time_gradient(off(), color(white())), fx(SCALE));
    assert_eq!(s.shade(&frag1(0, 2_500_000)), rgb(SCALE / 2, SCALE / 2, SCALE / 2));
}

#[test]
fn scale_time_speeds_up() {
    let mut s = scale_time(time_gradient(off(), color(white())), fx(2 * SCALE));
    assert_eq!(s.shade(&frag1(0, SCALE / 4)), rgb(SCALE / 2, SCALE / 2, SCALE / 2));
}

#[test]
fn scale_position_zooms() {
    let mut s = scale_position(position_gradient(off(), color(white())), fx(2 * SCALE));
    assert_eq!(s.shade(&frag1(SCALE / 4, 0)), rgb(SCALE / 2, SCALE / 2, SCALE / 2));
}

#[test]
fn translate_position_pans() {
    let mut s = translate_position(position_gradient(off(), color(white())), vec![fx(SCALE / 4)]);
    assert_eq!(s.shade(&frag1(SCALE / 4, 0)), rgb(SCALE / 2, SCALE / 2, SCALE / 2));
}

#[test]
fn arithmetic_combinators() {
    let mut sum = shark::primitives::add(color(red()), color(blue()));
    assert_eq!(sum.shade(&frag1(0, 0)), rgb(SCALE, 0, SCALE));

    let mut diff = shark::primitives::subtract(color(white()), color(red()));
    assert_eq!(diff.shade(&frag1(0, 0)), rgb(0, SCALE, SCALE));

    let mut prod = shark::primitives::multiply(
        color(rgb(SCALE / 2, SCALE, 0)),
        color(rgb(SCALE / 2, SCALE / 4, SCALE)),
    );
    assert_eq!(prod.shade(&frag1(0, 0)), rgb(SCALE / 4, SCALE / 4, 0));

    let mut quot = shark::primitives::divide(
        color(rgb(SCALE, SCALE, -SCALE)),
        color(rgb(SCALE / 2, 0, 0)),
    );
    // One divided by a half is two; a zero divisor saturates by sign.
    assert_eq!(quot.shade(&frag1(0, 0)), rgb(2 * SCALE, i64::MAX, i64::MIN));
}

#[test]
fn rainbow_primary_hues() {
    // Hue zero is red, a third of the circle on is green, two thirds blue.
    let mut s = time_rainbow();
    assert_eq!(s.shade(&frag1(0, 0)), red());
    assert_eq!(s.shade(&frag1(0, 120 * SCALE)), rgb(0, SCALE, 0));
    assert_eq!(s.shade(&frag1(0, 240 * SCALE)), blue());
    // The hue wraps after a full circle.
    assert_eq!(s.shade(&frag1(0, 360 * SCALE)), red());
}

#[test]
fn rainbow_secondary_hues() {
    // The sector midpoints: yellow, cyan and magenta, all exact.
    let mut s = time_rainbow();
    assert_eq!(s.shade(&frag1(0, 60 * SCALE)), rgb(SCALE, SCALE, 0));
    assert_eq!(s.shade(&frag1(0, 180 * SCALE)), rgb(0, SCALE, SCALE));
    assert_eq!(s.shade(&frag1(0, 300 * SCALE)), rgb(SCALE, 0, SCALE));
}

#[test]
fn rainbow_follows_position() {
    let mut s = position_rainbow();
    assert_eq!(s.shade(&frag1(120 * SCALE, 0)), rgb(0, SCALE, 0));
}

#[test]
fn rotate_hue_by_thirds() {
    let mut to_green = rotate_hue(color(red()), fx(120 * SCALE));
    assert_eq!(to_green.shade(&frag1(0, 0)), rgb(0, SCALE, 0));

    let mut by_zero = rotate_hue(color(red()), fx(0));
    assert_eq!(by_zero.shade(&frag1(0, 0)), red());

    let mut backwards = rotate_hue(color(blue()), fx(-120 * SCALE));
    assert_eq!(backwards.shade(&frag1(0, 0)), rgb(0, SCALE, 0));
}

#[test]
fn extrude_ignores_new_axis() {
    let base = || checkerboard(color(red()), color(blue()), fx(2 * SCALE));
    let mut lifted = base().extrude();
    let x = 3 * SCALE;
    let mut colors = Vec::new();
    for y in [0, SCALE, -7 * SCALE, 42 * SCALE] {
        let f = FragTwo { pos: [fx(x), fx(y)], time: fx(0) }.fragment();
        colors.push(lifted.shade(&f));
    }
    for c in &colors {
        assert_eq!(*c, colors[0]);
    }
    // The first coordinate still drives the pattern.
    let mut flat = base();
    assert_eq!(colors[0], flat.shade(&frag1(x, 0)));
}

#[test]
fn extrude_below_one_dimension_is_total() {
    // Extruding a one-dimensional point leaves the child no coordinates:
    // the position sum is then empty, so a position rainbow sits at hue
    // zero, which is red.
    let mut s = position_rainbow().extrude();
    assert_eq!(s.shade(&frag1(5 * SCALE, 0)), red());
}

#[test]
fn volume_blur_of_constant_is_identity() {
    let c = rgb(123_456, 654_321, 999_999);
    for samples in [1usize, 2, 5] {
        let mut one = volume_blur(color(c), fx(3 * SCALE), samples);
        assert_eq!(one.shade(&frag1(17 * SCALE, 2 * SCALE)), c);

        let mut two = volume_blur(color(c), fx(SCALE / 2), samples);
        let f2 = FragTwo { pos: [fx(SCALE), fx(-SCALE)], time: fx(0) }.fragment();
        assert_eq!(two.shade(&f2), c);

        let mut three = volume_blur(color(c), fx(10 * SCALE), samples);
        let f3 = FragThree { pos: [fx(0), fx(SCALE), fx(2 * SCALE)], time: fx(0) }.fragment();
        assert_eq!(three.shade(&f3), c);
    }
}

#[test]
fn random_matches_seeded_generator() {
    // The shader draws three channel values in [0, SCALE] from a
    // generator seeded like its own, reseeding between draws.
    let mut s = random_seeded(123);
    let got = s.shade(&frag1(0, 0));

    let mut seed: u64 = 123;
    let mut channels: [i64; 3] = [0; 3];
    for slot in channels.iter_mut() {
        let mut rng = fastrand::Rng::with_seed(seed);
        *slot = rng.u64(0..=SCALE as u64) as i64;
        seed = rng.get_seed();
    }
    assert_eq!(got, rgb(channels[0], channels[1], channels[2]));
}

#[test]
fn random_advances_between_calls() {
    let mut s = random_seeded(99);
    let first = s.shade(&frag1(0, 0));
    let second = s.shade(&frag1(0, 0));
    assert_ne!(first, second);
}

#[test]
fn memoize_caches_repeats() {
    // With an exact threshold and no time invalidation, a repeated
    // position returns the cached color even of a random shader.
    let mut s = memoized(random_seeded(42), Some(fx(0)), false);
    let here = frag1(SCALE, 0);
    let first = s.shade(&here);
    let again = s.shade(&here);
    assert_eq!(first, again);

    let far = s.shade(&frag1(100 * SCALE, 0));
    assert_ne!(first, far);
}

#[test]
fn memoize_threshold_admits_near_misses() {
    let mut s = memoized(random_seeded(5), Some(fx(SCALE / 2)), false);
    let at_zero = s.shade(&frag1(0, 0));
    let nearby = s.shade(&frag1(300_000, 0));
    assert_eq!(at_zero, nearby);
    let beyond = s.shade(&frag1(SCALE, 0));
    assert_ne!(at_zero, beyond);
}

#[test]
fn memoize_without_threshold_needs_exact_repeats() {
    let mut s = memoized(random_seeded(3), None, false);
    let exact = s.shade(&frag1(250_000, 0));
    assert_eq!(exact, s.shade(&frag1(250_000, 0)));
    // One millionth off is already a miss.
    assert_ne!(exact, s.shade(&frag1(250_001, 0)));
}

#[test]
fn memoize_time_invalidates_cache() {
    // Same position, different times: the wrapped shader runs again, so
    // a random child yields a fresh color both times.
    let mut s = memoized(random_seeded(7), Some(fx(0)), true);
    let early = s.shade(&frag1(0, 0));
    let later = s.shade(&frag1(0, SCALE));
    assert_ne!(early, later);

    // At an unchanged time the cache still hits.
    let repeat = s.shade(&frag1(0, SCALE));
    assert_eq!(later, repeat);
}

#[test]
fn fixed_saturates_and_wraps() {
    assert_eq!(Fixed::from_millionths(i64::MAX).add(fx(1)).raw, i64::MAX);
    assert_eq!(Fixed::from_millionths(i64::MIN).sub(fx(1)).raw, i64::MIN);
    assert_eq!(fx(-1_500_000).rem_euclid(fx(2 * SCALE)).raw, 500_000);
    assert_eq!(fx(SCALE / 2).mul(fx(SCALE / 2)).raw, SCALE / 4);
    assert_eq!(fx(SCALE).div(fx(SCALE / 2)).raw, 2 * SCALE);
    assert_eq!(Fixed::from_units(3).raw, 3 * SCALE);
}

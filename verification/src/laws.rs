//! Laws of the combinator algebra.
//!
//! The properties here are stated over the evaluation semantics
//! `spec_shade`, which `Shader::shade` is proved to follow exactly, so
//! each law carries over to the executable library.

use vstd::prelude::*;

use crate::color::{color_in_range, ColorModel};
use crate::fixed::in_range;
use crate::fragment::FragModel;
use crate::shader::{best_prefix, blur_fold, height, spec_shade, Shader, ShaderModel,
    ShaderState};

verus! {

/// Well-formedness of a structure: parameters in their meaningful
/// ranges and constant colors representable.
pub open spec fn wf_model(m: ShaderModel) -> bool
    decreases m,
{
    match m {
        ShaderModel::Off => true,
        ShaderModel::Color { color } => color_in_range(color),
        ShaderModel::Interpolate { start, end, .. } => wf_model(*start) && wf_model(*end),
        ShaderModel::Checkerboard { first, second, stride } => stride != 0 && wf_model(*first)
            && wf_model(*second),
        ShaderModel::ModPosition { shader, modulo } => modulo > 0 && wf_model(*shader),
        ShaderModel::ModTime { shader, modulo } => modulo > 0 && wf_model(*shader),
        ShaderModel::ScalePosition { shader, scale } => in_range(scale) && wf_model(*shader),
        ShaderModel::ScaleTime { shader, scale } => in_range(scale) && wf_model(*shader),
        ShaderModel::TranslatePosition { shader, .. } => wf_model(*shader),
        ShaderModel::RotateHue { shader, .. } => wf_model(*shader),
        ShaderModel::Add { left, right } => wf_model(*left) && wf_model(*right),
        ShaderModel::Subtract { left, right } => wf_model(*left) && wf_model(*right),
        ShaderModel::Multiply { left, right } => wf_model(*left) && wf_model(*right),
        ShaderModel::Divide { left, right } => wf_model(*left) && wf_model(*right),
        ShaderModel::Rainbow { .. } => true,
        ShaderModel::Random => true,
        ShaderModel::Extrude { shader } => wf_model(*shader),
        ShaderModel::VolumeBlur { shader, samples, .. } => 1 <= samples && wf_model(*shader),
        ShaderModel::Memoize { shader, threshold, .. } => (match threshold {
            Some(t) => t >= 0,
            None => true,
        }) && wf_model(*shader),
    }
}

/// Well-formedness of a state: cache columns aligned and every cached
/// color representable.
pub open spec fn state_wf(s: ShaderState) -> bool
    decreases s,
{
    match s {
        ShaderState::Leaf => true,
        ShaderState::Solo { child } => state_wf(*child),
        ShaderState::Pair { left, right } => state_wf(*left) && state_wf(*right),
        ShaderState::Rng { .. } => true,
        ShaderState::Memo { child, keys, colors, .. } => keys.len() == colors.len() && (forall|
            i: int,
        |
            0 <= i < colors.len() ==> color_in_range(colors[i])) && state_wf(*child),
    }
}

/// Every well-formed shader value has a well-formed structure and
/// state, so the laws below apply to every tree the constructors build:
/// constant colors and cached colors are representable by construction,
/// and the parameter ranges carry over.
pub proof fn lemma_shader_wf_models(s: &Shader)
    requires
        s.wf(),
    ensures
        wf_model(s.structure()),
        state_wf(s.state()),
    decreases s,
{
    match s {
        Shader::Interpolate { start, end, .. } => {
            lemma_shader_wf_models(start);
            lemma_shader_wf_models(end);
        },
        Shader::Checkerboard { first, second, .. } => {
            lemma_shader_wf_models(first);
            lemma_shader_wf_models(second);
        },
        Shader::ModPosition { shader, .. } => lemma_shader_wf_models(shader),
        Shader::ModTime { shader, .. } => lemma_shader_wf_models(shader),
        Shader::ScalePosition { shader, .. } => lemma_shader_wf_models(shader),
        Shader::ScaleTime { shader, .. } => lemma_shader_wf_models(shader),
        Shader::TranslatePosition { shader, .. } => lemma_shader_wf_models(shader),
        Shader::RotateHue { shader, .. } => lemma_shader_wf_models(shader),
        Shader::Add { left, right } => {
            lemma_shader_wf_models(left);
            lemma_shader_wf_models(right);
        },
        Shader::Subtract { left, right } => {
            lemma_shader_wf_models(left);
            lemma_shader_wf_models(right);
        },
        Shader::Multiply { left, right } => {
            lemma_shader_wf_models(left);
            lemma_shader_wf_models(right);
        },
        Shader::Divide { left, right } => {
            lemma_shader_wf_models(left);
            lemma_shader_wf_models(right);
        },
        Shader::Extrude { shader } => lemma_shader_wf_models(shader),
        Shader::VolumeBlur { shader, .. } => lemma_shader_wf_models(shader),
        Shader::Memoize { shader, .. } => lemma_shader_wf_models(shader),
        _ => {},
    }
}

/// A cache lookup, when it hits, names one of the first `n` slots.
pub proof fn lemma_best_prefix_bound(keys: Seq<Seq<int>>, key: Seq<int>, thr2: int, n: nat)
    ensures
        match best_prefix(keys, key, thr2, n) {
            Some(i) => 0 <= i < n,
            None => true,
        },
    decreases n,
{
    if n > 0 {
        lemma_best_prefix_bound(keys, key, thr2, (n - 1) as nat);
    }
}

/// Blur folding preserves state well-formedness.
proof fn lemma_blur_fold_wf(m: ShaderModel, s: ShaderState, f: FragModel, radius: int, n: nat,
    j: nat)
    requires
        wf_model(m),
        state_wf(s),
    ensures
        state_wf(blur_fold(m, s, f, radius, n, j).0),
    decreases height(m), j, 1nat,
{
    if j > 0 {
        lemma_blur_fold_wf(m, s, f, radius, n, (j - 1) as nat);
        let (s1, acc) = blur_fold(m, s, f, radius, n, (j - 1) as nat);
        lemma_shade_wf(m, s1, crate::shader::sample_frag(f, radius, n, (j - 1) as nat));
    }
}

/// Every evaluation of a well-formed shader yields a representable color
/// and leaves the state well-formed.
pub proof fn lemma_shade_wf(m: ShaderModel, s: ShaderState, f: FragModel)
    requires
        wf_model(m),
        state_wf(s),
    ensures
        state_wf(spec_shade(m, s, f).0),
        color_in_range(spec_shade(m, s, f).1),
    decreases height(m), 0nat, 0nat,
{
    match (m, s) {
        (ShaderModel::Interpolate { start, end, .. }, ShaderState::Pair { left, right }) => {
            lemma_shade_wf(*start, *left, f);
            lemma_shade_wf(*end, *right, f);
        },
        (
            ShaderModel::Checkerboard { first, second, stride },
            ShaderState::Pair { left, right },
        ) => {
            if crate::shader::checker_cells(f.pos, stride) % 2 == 0 {
                lemma_shade_wf(*first, *left, f);
            } else {
                lemma_shade_wf(*second, *right, f);
            }
        },
        (ShaderModel::ModPosition { shader, modulo }, ShaderState::Solo { child }) => {
            lemma_shade_wf(
                *shader,
                *child,
                FragModel { pos: crate::shader::mod_pos(f.pos, modulo), time: f.time },
            );
        },
        (ShaderModel::ModTime { shader, modulo }, ShaderState::Solo { child }) => {
            lemma_shade_wf(*shader, *child, FragModel { pos: f.pos, time: f.time % modulo });
        },
        (ShaderModel::ScalePosition { shader, scale }, ShaderState::Solo { child }) => {
            lemma_shade_wf(
                *shader,
                *child,
                FragModel { pos: crate::shader::scale_pos(f.pos, scale), time: f.time },
            );
        },
        (ShaderModel::ScaleTime { shader, scale }, ShaderState::Solo { child }) => {
            lemma_shade_wf(
                *shader,
                *child,
                FragModel { pos: f.pos, time: crate::fixed::spec_mul(f.time, scale) },
            );
        },
        (ShaderModel::TranslatePosition { shader, offset }, ShaderState::Solo { child }) => {
            lemma_shade_wf(
                *shader,
                *child,
                FragModel { pos: crate::shader::translate_pos(f.pos, offset), time: f.time },
            );
        },
        (ShaderModel::RotateHue { shader, .. }, ShaderState::Solo { child }) => {
            lemma_shade_wf(*shader, *child, f);
        },
        (ShaderModel::Add { left, right }, ShaderState::Pair { left: sl, right: sr }) => {
            lemma_shade_wf(*left, *sl, f);
            lemma_shade_wf(*right, *sr, f);
        },
        (ShaderModel::Subtract { left, right }, ShaderState::Pair { left: sl, right: sr }) => {
            lemma_shade_wf(*left, *sl, f);
            lemma_shade_wf(*right, *sr, f);
        },
        (ShaderModel::Multiply { left, right }, ShaderState::Pair { left: sl, right: sr }) => {
            lemma_shade_wf(*left, *sl, f);
            lemma_shade_wf(*right, *sr, f);
        },
        (ShaderModel::Divide { left, right }, ShaderState::Pair { left: sl, right: sr }) => {
            lemma_shade_wf(*left, *sl, f);
            lemma_shade_wf(*right, *sr, f);
        },
        (ShaderModel::Extrude { shader }, ShaderState::Solo { child }) => {
            lemma_shade_wf(*shader, *child, crate::shader::extrude_frag(f));
        },
        (ShaderModel::VolumeBlur { shader, radius, samples }, ShaderState::Solo { child }) => {
            let total = crate::shader::npow(samples, f.pos.len());
            lemma_blur_fold_wf(*shader, *child, f, radius, samples, total);
        },
        (
            ShaderModel::Memoize { shader, threshold, time_invalidates },
            ShaderState::Memo { child, keys, colors, last_time },
        ) => {
            if time_invalidates && f.time != last_time {
                lemma_shade_wf(*shader, *child, f);
            } else {
                let hit = best_prefix(keys, f.pos, crate::shader::thr2_of(threshold), keys.len());
                if hit is Some {
                    lemma_best_prefix_bound(
                        keys,
                        f.pos,
                        crate::shader::thr2_of(threshold),
                        keys.len(),
                    );
                } else {
                    lemma_shade_wf(*shader, *child, f);
                }
            }
        },
        _ => {},
    }
}

/// Checkerboard parity: at a one-dimensional position of `k` whole
/// strides plus a remainder, an even `k` shows the first shader and an
/// odd `k` the second, with only that child's state advancing.
pub proof fn lemma_checkerboard_parity(a: ShaderModel, b: ShaderModel, sa: ShaderState,
    sb: ShaderState, stride: int, k: int, r: int, t: int)
    requires
        stride > 0,
        k >= 0,
        0 <= r < stride,
    ensures
        ({
            let f = FragModel { pos: seq![k * stride + r], time: t };
            let m = ShaderModel::Checkerboard {
                first: Box::new(a),
                second: Box::new(b),
                stride,
            };
            let s = ShaderState::Pair { left: Box::new(sa), right: Box::new(sb) };
            spec_shade(m, s, f) == if k % 2 == 0 {
                let (sa2, c) = spec_shade(a, sa, f);
                (ShaderState::Pair { left: Box::new(sa2), right: Box::new(sb) }, c)
            } else {
                let (sb2, c) = spec_shade(b, sb, f);
                (ShaderState::Pair { left: Box::new(sa), right: Box::new(sb2) }, c)
            }
        }),
{
    let p = k * stride + r;
    let f = FragModel { pos: seq![p], time: t };
    assert(k * stride + r >= 0) by (nonlinear_arith)
        requires
            k >= 0,
            stride > 0,
            0 <= r,
    ;
    vstd::arithmetic::div_mod::lemma_fundamental_div_mod_converse_div(p, stride, k, r);
    assert(crate::shader::cells_prefix(f.pos, stride, 0) == 0);
    assert(crate::shader::cells_prefix(f.pos, stride, 1) == crate::fixed::iabs(p)
        / crate::fixed::iabs(stride));
    assert(crate::shader::checker_cells(f.pos, stride) == k);
}

/// One channel of an interpolation at the endpoints: factor zero gives
/// the start channel, a factor of one full unit gives the end channel
/// whenever the channel difference is representable.
proof fn lemma_lerp_endpoints(x: int, y: int, t: int)
    requires
        in_range(x),
        in_range(y),
    ensures
        t == 0 ==> crate::fixed::spec_lerp(x, y, t) == x,
        t == crate::fixed::SCALE && in_range(y - x) ==> crate::fixed::spec_lerp(x, y, t) == y,
{
    let d = crate::fixed::clip(y - x);
    if t == 0 {
        assert(d * 0 == 0);
        assert(crate::fixed::tdiv(0, crate::fixed::SCALE as int) == 0);
    }
    if t == crate::fixed::SCALE && in_range(y - x) {
        assert(d == y - x);
        let sc = crate::fixed::SCALE as int;
        if d >= 0 {
            assert(crate::fixed::iabs(d * sc) == sc * d && crate::fixed::iabs(sc) == sc)
                by (nonlinear_arith)
                requires
                    d >= 0,
                    sc > 0,
            ;
            vstd::arithmetic::div_mod::lemma_div_multiples_vanish(d, sc);
        } else {
            assert(crate::fixed::iabs(d * sc) == sc * (-d) && crate::fixed::iabs(sc) == sc)
                by (nonlinear_arith)
                requires
                    d < 0,
                    sc > 0,
            ;
            vstd::arithmetic::div_mod::lemma_div_multiples_vanish(-d, sc);
        }
        assert(crate::fixed::tdiv(d * sc, sc) == d);
    }
}

/// Interpolation endpoints: a constant factor of zero reproduces the
/// start shader's color and a factor of one full unit the end shader's,
/// the latter whenever the two colors are less than the whole
/// representable range apart channel-wise.
pub proof fn lemma_interpolate_endpoints(a: ShaderModel, b: ShaderModel, sa: ShaderState,
    sb: ShaderState, f: FragModel, factor: crate::fixed::Fixed)
    requires
        wf_model(a),
        wf_model(b),
        state_wf(sa),
        state_wf(sb),
    ensures
        ({
            let m = ShaderModel::Interpolate {
                start: Box::new(a),
                end: Box::new(b),
                interpolator: crate::shader::Interpolator::Constant(factor),
            };
            let s = ShaderState::Pair { left: Box::new(sa), right: Box::new(sb) };
            let (sl, ca) = spec_shade(a, sa, f);
            let (sr, cb) = spec_shade(b, sb, f);
            let expected_state = ShaderState::Pair { left: Box::new(sl), right: Box::new(sr) };
            &&& factor@ == 0 ==> spec_shade(m, s, f) == (expected_state, ca)
            &&& factor@ == crate::fixed::SCALE && in_range(cb.r - ca.r) && in_range(cb.g - ca.g)
                && in_range(cb.b - ca.b) ==> spec_shade(m, s, f) == (expected_state, cb)
        }),
{
    lemma_shade_wf(a, sa, f);
    lemma_shade_wf(b, sb, f);
    let (sl, ca) = spec_shade(a, sa, f);
    let (sr, cb) = spec_shade(b, sb, f);
    lemma_lerp_endpoints(ca.r, cb.r, factor@);
    lemma_lerp_endpoints(ca.g, cb.g, factor@);
    lemma_lerp_endpoints(ca.b, cb.b, factor@);
}

/// Positional tiling is periodic: shifting every coordinate by the
/// modulo leaves a `mod_position` shader's evaluation unchanged.
pub proof fn lemma_mod_position_periodic(child: ShaderModel, cs: ShaderState, m: int,
    f: FragModel, g: FragModel)
    requires
        m > 0,
        g.time == f.time,
        g.pos.len() == f.pos.len(),
        forall|i: int| 0 <= i < f.pos.len() ==> g.pos[i] == f.pos[i] + m,
    ensures
        ({
            let node = ShaderModel::ModPosition { shader: Box::new(child), modulo: m };
            let s = ShaderState::Solo { child: Box::new(cs) };
            spec_shade(node, s, f) == spec_shade(node, s, g)
        }),
{
    assert forall|i: int| 0 <= i < f.pos.len() implies g.pos[i] % m == f.pos[i] % m by {
        vstd::arithmetic::div_mod::lemma_mod_add_multiples_vanish(f.pos[i], m);
    }
    assert(crate::shader::mod_pos(f.pos, m) =~= crate::shader::mod_pos(g.pos, m));
}

/// Extrusion ignores the added axis: for a fixed base position and time,
/// the value of the new last coordinate does not affect the result.
pub proof fn lemma_extrude_axis_invariant(child: ShaderModel, cs: ShaderState, f: FragModel,
    y1: int, y2: int)
    ensures
        ({
            let node = ShaderModel::Extrude { shader: Box::new(child) };
            let s = ShaderState::Solo { child: Box::new(cs) };
            spec_shade(node, s, FragModel { pos: f.pos.push(y1), time: f.time }) == spec_shade(
                node,
                s,
                FragModel { pos: f.pos.push(y2), time: f.time },
            )
        }),
{
    let f1 = FragModel { pos: f.pos.push(y1), time: f.time };
    let f2 = FragModel { pos: f.pos.push(y2), time: f.time };
    assert(f1.pos.drop_last() =~= f.pos);
    assert(f2.pos.drop_last() =~= f.pos);
    assert(crate::shader::extrude_frag(f1) == crate::shader::extrude_frag(f2));
}

/// A key is at distance zero from itself.
proof fn lemma_dist2_self(a: Seq<int>, n: nat)
    requires
        n <= a.len(),
    ensures
        crate::shader::dist2_prefix(a, a, n) == 0,
    decreases n,
{
    if n > 0 {
        lemma_dist2_self(a, (n - 1) as nat);
    }
}

/// A lookup over the first `n` entries ignores entries appended after
/// them.
proof fn lemma_best_prefix_push(keys: Seq<Seq<int>>, x: Seq<int>, key: Seq<int>, thr2: int,
    n: nat)
    requires
        n <= keys.len(),
    ensures
        best_prefix(keys.push(x), key, thr2, n) == best_prefix(keys, key, thr2, n),
    decreases n,
{
    if n > 0 {
        lemma_best_prefix_push(keys, x, key, thr2, (n - 1) as nat);
        lemma_best_prefix_bound(keys, key, thr2, (n - 1) as nat);
        assert(keys.push(x)[n - 1] == keys[n - 1]);
        let prev = best_prefix(keys, key, thr2, (n - 1) as nat);
        if prev is Some {
            assert(keys.push(x)[prev->0] == keys[prev->0]);
        }
    }
}

/// Memoization caches repeats: with an exact threshold and no time
/// invalidation, a second evaluation at the same sample point returns
/// the first call's color and leaves the cache untouched.
pub proof fn lemma_memoize_repeat(child: ShaderModel, s0: ShaderState, f: FragModel,
    threshold: Option<int>)
    requires
        crate::shader::thr2_of(threshold) == 0,
        state_wf(s0),
    ensures
        ({
            let node = ShaderModel::Memoize {
                shader: Box::new(child),
                threshold,
                time_invalidates: false,
            };
            let (s1, c1) = spec_shade(node, s0, f);
            let (s2, c2) = spec_shade(node, s1, f);
            s2 == s1 && c2 == c1
        }),
{
    let node = ShaderModel::Memoize { shader: Box::new(child), threshold, time_invalidates: false };
    if s0 is Memo {
        let keys = s0->Memo_keys;
        let colors = s0->Memo_colors;
        let hit = best_prefix(keys, f.pos, 0, keys.len());
        if hit is None {
            let (cs1, c) = spec_shade(child, *s0->Memo_child, f);
            let keys1 = keys.push(f.pos);
            lemma_best_prefix_push(keys, f.pos, f.pos, 0, keys.len());
            lemma_dist2_self(f.pos, f.pos.len());
            assert(crate::shader::key_hit(keys1[keys.len() as int], f.pos, 0));
            assert(best_prefix(keys1, f.pos, 0, keys1.len()) == Some(keys.len() as int));
        }
    }
}

/// Time invalidation is coarse and certain: under `time_invalidates`, a
/// call at a new time clears the cache, re-evaluates the wrapped shader
/// and caches exactly that one fresh color.
pub proof fn lemma_memoize_time_invalidation(child: ShaderModel, s0: ShaderState, f1: FragModel,
    f2: FragModel, threshold: Option<int>)
    requires
        s0 is Memo,
        f2.time != f1.time,
    ensures
        ({
            let node = ShaderModel::Memoize {
                shader: Box::new(child),
                threshold,
                time_invalidates: true,
            };
            let (s1, c1) = spec_shade(node, s0, f1);
            let (cs2, cc) = spec_shade(child, *s1->Memo_child, f2);
            s1 is Memo && s1->Memo_last_time == f1.time && spec_shade(node, s1, f2) == (
            ShaderState::Memo {
                child: Box::new(cs2),
                keys: seq![f2.pos],
                colors: seq![cc],
                last_time: f2.time,
            }, cc)
        }),
{
    let node = ShaderModel::Memoize { shader: Box::new(child), threshold, time_invalidates: true };
    let (s1, c1) = spec_shade(node, s0, f1);
    assert(s1 is Memo && s1->Memo_last_time == f1.time);
}

/// Blurring a constant shader sums that constant once per sample and
/// leaves the state alone.
proof fn lemma_blur_fold_const(c: ColorModel, s: ShaderState, f: FragModel, radius: int, n: nat,
    j: nat)
    ensures
        blur_fold(ShaderModel::Color { color: c }, s, f, radius, n, j) == (
        s,
        (j * c.r, j * c.g, j * c.b),
        ),
    decreases j,
{
    let m = ShaderModel::Color { color: c };
    if j == 0 {
        assert(0 * c.r == 0 && 0 * c.g == 0 && 0 * c.b == 0) by (nonlinear_arith);
    } else {
        lemma_blur_fold_const(c, s, f, radius, n, (j - 1) as nat);
        let jm = (j - 1) as nat;
        let f1 = crate::shader::sample_frag(f, radius, n, jm);
        assert(spec_shade(m, s, f1) == (s, c));
        assert(blur_fold(m, s, f, radius, n, j) == (
        s,
        (jm * c.r + c.r, jm * c.g + c.g, jm * c.b + c.b),
        ));
        assert(jm * c.r + c.r == j * c.r && jm * c.g + c.g == j * c.g && jm * c.b + c.b == j
            * c.b) by (nonlinear_arith)
            requires
                jm == j - 1,
                j >= 1,
        ;
    }
}

/// Powers of a positive base are positive.
proof fn lemma_npow_pos(n: nat, k: nat)
    requires
        n >= 1,
    ensures
        crate::shader::npow(n, k) >= 1,
    decreases k,
{
    if k > 0 {
        lemma_npow_pos(n, (k - 1) as nat);
        assert(n * crate::shader::npow(n, (k - 1) as nat) >= 1) by (nonlinear_arith)
            requires
                n >= 1,
                crate::shader::npow(n, (k - 1) as nat) >= 1,
        ;
    }
}

/// Dividing `t` copies of a channel by `t` gives the channel back.
proof fn lemma_avg_const(x: int, t: int)
    requires
        t >= 1,
    ensures
        crate::fixed::tdiv(t * x, t) == x,
{
    assert(crate::fixed::iabs(t) == t);
    if x >= 0 {
        assert(t * x >= 0 && crate::fixed::iabs(t * x) == t * x) by (nonlinear_arith)
            requires
                t >= 1,
                x >= 0,
        ;
        vstd::arithmetic::div_mod::lemma_div_multiples_vanish(x, t);
        assert(crate::fixed::tdiv(t * x, t) == (t * x) / t);
    } else {
        assert(t * x < 0 && crate::fixed::iabs(t * x) == t * (-x)) by (nonlinear_arith)
            requires
                t >= 1,
                x < 0,
        ;
        vstd::arithmetic::div_mod::lemma_div_multiples_vanish(-x, t);
        assert(crate::fixed::tdiv(t * x, t) == -((t * (-x)) / t));
    }
}

/// Volumetric blur of a constant shader is that constant: averaging a
/// constant color over any grid is a no-op, in any dimension.
pub proof fn lemma_volume_blur_constant(c: ColorModel, s0: ShaderState, f: FragModel, radius: int,
    samples: nat)
    requires
        samples >= 1,
        color_in_range(c),
        s0 is Solo,
    ensures
        ({
            let node = ShaderModel::VolumeBlur {
                shader: Box::new(ShaderModel::Color { color: c }),
                radius,
                samples,
            };
            spec_shade(node, s0, f) == (s0, c)
        }),
{
    let node = ShaderModel::VolumeBlur {
        shader: Box::new(ShaderModel::Color { color: c }),
        radius,
        samples,
    };
    let total = crate::shader::npow(samples, f.pos.len());
    lemma_npow_pos(samples, f.pos.len());
    lemma_blur_fold_const(c, *s0->Solo_child, f, radius, samples, total);
    lemma_avg_const(c.r, total as int);
    lemma_avg_const(c.g, total as int);
    lemma_avg_const(c.b, total as int);
}

} // verus!

//! Executable evaluation of shader trees.
//!
//! `Shader::shade` and its helpers live here; each is proved to follow
//! the spec-level semantics of `spec_shade` exactly.

use vstd::prelude::*;

use crate::color::Color;
use crate::fixed::{clip_i128, iabs, tdiv_i128, Fixed, SCALE};
use crate::fragment::{pos_view, Fragment};
use crate::shader::{best_prefix, blur_fold, cells_prefix, checker_cells, colors_view, digit,
    dist2, dist2_prefix, height, interp_factor, key_hit, keys_view, mod_pos, npow, sample_frag,
    sample_offset, scale_pos, selector_factor, spec_shade, sum_pos, sum_pos_prefix, translate_pos,
    Interpolator, Selector, Shader, MAX_BLUR_TOTAL};

verus! {

/// A copy of a coordinate vector.
fn copy_pos(pos: &Vec<Fixed>) -> (r: Vec<Fixed>)
    ensures
        r@ == pos@,
{
    let mut r: Vec<Fixed> = Vec::new();
    let mut i: usize = 0;
    while i < pos.len()
        invariant
            i <= pos.len(),
            r@.len() == i,
            forall|k: int| 0 <= k < i ==> r@[k] == pos@[k],
        decreases pos.len() - i,
    {
        r.push(pos[i]);
        i = i + 1;
    }
    proof {
        assert(r@ =~= pos@);
    }
    r
}

/// Every coordinate wrapped into `[0, m)`.
fn pos_mod(pos: &Vec<Fixed>, m: Fixed) -> (r: Vec<Fixed>)
    requires
        m@ > 0,
    ensures
        r@.len() == pos@.len(),
        pos_view(r@) == mod_pos(pos_view(pos@), m@),
{
    let mut r: Vec<Fixed> = Vec::new();
    let mut i: usize = 0;
    while i < pos.len()
        invariant
            m@ > 0,
            i <= pos.len(),
            r@.len() == i,
            forall|k: int| 0 <= k < i ==> r@[k]@ == pos_view(pos@)[k] % m@,
        decreases pos.len() - i,
    {
        r.push(pos[i].rem_euclid(m));
        i = i + 1;
    }
    proof {
        assert(pos_view(r@) =~= mod_pos(pos_view(pos@), m@));
    }
    r
}

/// Every coordinate multiplied by `k`.
fn pos_scale(pos: &Vec<Fixed>, k: Fixed) -> (r: Vec<Fixed>)
    ensures
        r@.len() == pos@.len(),
        pos_view(r@) == scale_pos(pos_view(pos@), k@),
{
    let mut r: Vec<Fixed> = Vec::new();
    let mut i: usize = 0;
    while i < pos.len()
        invariant
            i <= pos.len(),
            r@.len() == i,
            forall|j: int| 0 <= j < i ==> r@[j]@ == crate::fixed::spec_mul(pos_view(pos@)[j], k@),
        decreases pos.len() - i,
    {
        r.push(pos[i].mul(k));
        i = i + 1;
    }
    proof {
        assert(pos_view(r@) =~= scale_pos(pos_view(pos@), k@));
    }
    r
}

/// The offset added coordinate-wise.
fn pos_translate(pos: &Vec<Fixed>, off: &Vec<Fixed>) -> (r: Vec<Fixed>)
    ensures
        r@.len() == pos@.len(),
        pos_view(r@) == translate_pos(pos_view(pos@), pos_view(off@)),
{
    let mut r: Vec<Fixed> = Vec::new();
    let mut i: usize = 0;
    while i < pos.len()
        invariant
            i <= pos.len(),
            r@.len() == i,
            forall|j: int|
                0 <= j < i ==> r@[j]@ == translate_pos(pos_view(pos@), pos_view(off@))[j],
        decreases pos.len() - i,
    {
        if i < off.len() {
            r.push(pos[i].add(off[i]));
        } else {
            r.push(pos[i]);
        }
        i = i + 1;
    }
    proof {
        assert(pos_view(r@) =~= translate_pos(pos_view(pos@), pos_view(off@)));
    }
    r
}

/// All coordinates but the last.
fn pos_drop_last(pos: &Vec<Fixed>) -> (r: Vec<Fixed>)
    requires
        pos@.len() > 0,
    ensures
        r@.len() == pos@.len() - 1,
        pos_view(r@) == pos_view(pos@).drop_last(),
{
    let mut r: Vec<Fixed> = Vec::new();
    let mut i: usize = 0;
    while i < pos.len() - 1
        invariant
            pos@.len() > 0,
            i <= pos.len() - 1,
            r@.len() == i,
            forall|k: int| 0 <= k < i ==> r@[k] == pos@[k],
        decreases pos.len() - 1 - i,
    {
        r.push(pos[i]);
        i = i + 1;
    }
    proof {
        assert(pos_view(r@) =~= pos_view(pos@).drop_last());
    }
    r
}

/// Saturating sum of all coordinates.
fn sum_pos_exec(pos: &Vec<Fixed>) -> (r: Fixed)
    ensures
        r@ == sum_pos(pos_view(pos@)),
{
    let mut acc: Fixed = Fixed::zero();
    let mut i: usize = 0;
    while i < pos.len()
        invariant
            i <= pos.len(),
            acc@ == sum_pos_prefix(pos_view(pos@), i as nat),
        decreases pos.len() - i,
    {
        acc = acc.add(pos[i]);
        i = i + 1;
    }
    acc
}

/// The mixing factor of an interpolator at a sample point.
fn factor_of(ip: &Interpolator, frag: &Fragment) -> (t: Fixed)
    ensures
        t@ == interp_factor(*ip, frag@),
{
    match ip {
        Interpolator::Constant(t) => *t,
        Interpolator::PositionSum => sum_pos_exec(&frag.pos),
        Interpolator::Time => frag.time,
    }
}

/// The hue position of a selector at a sample point.
fn selector_of(sel: &Selector, frag: &Fragment) -> (t: Fixed)
    ensures
        t@ == selector_factor(*sel, frag@),
{
    match sel {
        Selector::Time => frag.time,
        Selector::PositionSum => sum_pos_exec(&frag.pos),
    }
}

/// Bounds on small powers: up to three factors of at most `2^16` stay
/// within `MAX_BLUR_TOTAL`.
proof fn lemma_npow_bounds(n: nat, k: nat)
    requires
        1 <= n <= 65536,
        k <= 3,
    ensures
        1 <= npow(n, k) <= MAX_BLUR_TOTAL,
{
    assert(npow(n, 0) == 1);
    assert(npow(n, 1) == n * npow(n, 0));
    assert(npow(n, 2) == n * npow(n, 1));
    assert(npow(n, 3) == n * npow(n, 2));
    assert(n * 1 <= 65536) by (nonlinear_arith)
        requires
            1 <= n <= 65536,
    ;
    assert(npow(n, 2) <= 65536 * 65536 && npow(n, 2) >= 1) by (nonlinear_arith)
        requires
            1 <= n <= 65536,
            npow(n, 2) == n * npow(n, 1),
            1 <= npow(n, 1) <= 65536,
    ;
    assert(npow(n, 3) <= 0x1_0000_0000_0000 && npow(n, 3) >= 1) by (nonlinear_arith)
        requires
            1 <= n <= 65536,
            npow(n, 3) == n * npow(n, 2),
            1 <= npow(n, 2) <= 0x1_0000_0000,
    ;
}

/// The number of grid samples: `n` to the power of the dimension.
fn pow_total(n: u64, k: usize) -> (t: u64)
    requires
        1 <= n <= 65536,
        k <= 3,
    ensures
        t as nat == npow(n as nat, k as nat),
        1 <= t <= MAX_BLUR_TOTAL,
{
    let mut t: u64 = 1;
    let mut i: usize = 0;
    while i < k
        invariant
            1 <= n <= 65536,
            i <= k <= 3,
            t as nat == npow(n as nat, i as nat),
        decreases k - i,
    {
        proof {
            lemma_npow_bounds(n as nat, i as nat);
            lemma_npow_bounds(n as nat, (i + 1) as nat);
            assert(npow(n as nat, (i + 1) as nat) == n as nat * npow(n as nat, i as nat));
        }
        t = t * n;
        i = i + 1;
    }
    proof {
        lemma_npow_bounds(n as nat, k as nat);
    }
    t
}

/// The blur offset of per-axis sample index `d` out of `n`.
fn sample_offset_exec(radius: Fixed, n: u64, d: u64) -> (off: Fixed)
    requires
        1 <= n <= 65536,
        d < n,
    ensures
        off@ == sample_offset(radius@, n as nat, d as nat),
{
    if n <= 1 {
        Fixed { raw: 0 }
    } else {
        proof {
            assert(2 * (radius.raw as int) * (d as int)
                <= 85070591730234615865843651857942052864 && 2 * (radius.raw as int) * (d as int)
                >= -85070591730234615865843651857942052864) by (nonlinear_arith)
                requires
                    i64::MIN <= radius.raw <= i64::MAX,
                    0 <= d <= 65536,
            ;
        }
        let p: i128 = 2 * (radius.raw as i128) * (d as i128);
        let q: i128 = tdiv_i128(p, (n - 1) as i128);
        Fixed { raw: clip_i128(q - radius.raw as i128) }
    }
}

/// Grid sample `j` of a blur around `frag`.
fn sample_fragment(frag: &Fragment, radius: Fixed, n: u64, j: u64) -> (f2: Fragment)
    requires
        frag@.pos.len() <= 3,
        1 <= n <= 65536,
    ensures
        f2@ == sample_frag(frag@, radius@, n as nat, j as nat),
        f2.wf(),
{
    let mut pos: Vec<Fixed> = Vec::new();
    let mut k: usize = 0;
    let mut powk: u64 = 1;
    while k < frag.pos.len()
        invariant
            frag@.pos.len() <= 3,
            1 <= n <= 65536,
            k <= frag.pos.len(),
            powk as nat == npow(n as nat, k as nat),
            pos@.len() == k,
            forall|i: int|
                0 <= i < k ==> pos@[i]@ == crate::fixed::spec_add(
                    frag@.pos[i],
                    sample_offset(radius@, n as nat, digit(j as nat, n as nat, i as nat)),
                ),
        decreases frag.pos.len() - k,
    {
        proof {
            lemma_npow_bounds(n as nat, k as nat);
            lemma_npow_bounds(n as nat, (k + 1) as nat);
            assert(npow(n as nat, (k + 1) as nat) == n as nat * npow(n as nat, k as nat));
        }
        let dg: u64 = (j / powk) % n;
        let off: Fixed = sample_offset_exec(radius, n, dg);
        pos.push(frag.pos[k].add(off));
        powk = powk * n;
        k = k + 1;
    }
    proof {
        assert(pos_view(pos@) =~= sample_frag(frag@, radius@, n as nat, j as nat).pos);
    }
    Fragment { pos, time: frag.time }
}

/// Whether the position's checkerboard cell sum is even.
fn checker_first(pos: &Vec<Fixed>, stride: Fixed) -> (r: bool)
    requires
        stride@ != 0,
        pos@.len() <= 3,
    ensures
        r == (checker_cells(pos_view(pos@), stride@) % 2 == 0),
{
    let mut acc: u128 = 0;
    let mut i: usize = 0;
    while i < pos.len()
        invariant
            stride@ != 0,
            pos@.len() <= 3,
            i <= pos.len(),
            acc as int == cells_prefix(pos_view(pos@), stride@, i as nat),
            acc <= (i as u128) * 0x1_0000_0000_0000_0000,
        decreases pos.len() - i,
    {
        let c: u64 = pos[i].cell_index(stride);
        acc = acc + c as u128;
        i = i + 1;
    }
    acc % 2 == 0
}

/// Squared distances accumulate nonnegative terms.
proof fn lemma_dist2_prefix_nonneg(a: Seq<int>, b: Seq<int>, n: nat)
    ensures
        dist2_prefix(a, b, n) >= 0,
    decreases n,
{
    if n > 0 {
        lemma_dist2_prefix_nonneg(a, b, (n - 1) as nat);
        assert((a[n - 1] - b[n - 1]) * (a[n - 1] - b[n - 1]) >= 0) by (nonlinear_arith);
    }
}

/// A squared distance is at least any one of its terms.
proof fn lemma_dist2_prefix_term(a: Seq<int>, b: Seq<int>, n: nat, k: nat)
    requires
        k < n,
    ensures
        dist2_prefix(a, b, n) >= (a[k as int] - b[k as int]) * (a[k as int] - b[k as int]),
    decreases n,
{
    if k == n - 1 {
        lemma_dist2_prefix_nonneg(a, b, (n - 1) as nat);
    } else {
        lemma_dist2_prefix_term(a, b, (n - 1) as nat, k);
        assert((a[n - 1] - b[n - 1]) * (a[n - 1] - b[n - 1]) >= 0) by (nonlinear_arith);
    }
}

/// The squared distance of a cached key to the looked-up key, if the key
/// matches within the threshold.
fn entry_dist(k: &Vec<Fixed>, key: &Vec<Fixed>, thr: i64) -> (r: Option<u128>)
    requires
        thr >= 0,
        k@.len() <= 3,
    ensures
        match r {
            Some(d2) => key_hit(pos_view(k@), pos_view(key@), (thr as int) * (thr as int)) && (
            d2 as int) == dist2(pos_view(k@), pos_view(key@)),
            None => !key_hit(pos_view(k@), pos_view(key@), (thr as int) * (thr as int)),
        },
{
    if k.len() != key.len() {
        return None;
    }
    let ghost kv = pos_view(k@);
    let ghost keyv = pos_view(key@);
    proof {
        assert((thr as int) * (thr as int) < 0x4000_0000_0000_0000_0000_0000_0000_0000)
            by (nonlinear_arith)
            requires
                0 <= thr <= i64::MAX,
        ;
    }
    let t2: u128 = (thr as u128) * (thr as u128);
    let mut acc: u128 = 0;
    let mut i: usize = 0;
    while i < k.len()
        invariant
            thr >= 0,
            k@.len() == key@.len() <= 3,
            kv == pos_view(k@),
            keyv == pos_view(key@),
            t2 as int == (thr as int) * (thr as int),
            t2 < 0x4000_0000_0000_0000_0000_0000_0000_0000,
            i <= k.len(),
            acc as int == dist2_prefix(kv, keyv, i as nat),
            acc <= (i as u128) * 0x4000_0000_0000_0000_0000_0000_0000_0000,
        decreases k.len() - i,
    {
        let diff: i128 = k[i].raw as i128 - key[i].raw as i128;
        let mag: u128 = if diff < 0 {
            (-diff) as u128
        } else {
            diff as u128
        };
        if mag > thr as u128 {
            proof {
                lemma_dist2_prefix_term(kv, keyv, kv.len(), i as nat);
                assert((kv[i as int] - keyv[i as int]) * (kv[i as int] - keyv[i as int]) > (
                thr as int) * (thr as int)) by (nonlinear_arith)
                    requires
                        iabs(kv[i as int] - keyv[i as int]) == mag as int,
                        mag as int > thr as int >= 0,
                ;
            }
            return None;
        }
        proof {
            assert((kv[i as int] - keyv[i as int]) * (kv[i as int] - keyv[i as int]) == (
            mag as int) * (mag as int)) by (nonlinear_arith)
                requires
                    iabs(kv[i as int] - keyv[i as int]) == mag as int,
            ;
            assert((mag as int) * (mag as int) <= (thr as int) * (thr as int))
                by (nonlinear_arith)
                requires
                    0 <= mag as int <= thr as int,
            ;
        }
        acc = acc + mag * mag;
        i = i + 1;
    }
    if acc <= t2 {
        Some(acc)
    } else {
        None
    }
}

/// The cache slot the lookup returns: the earliest entry at minimal
/// distance within the threshold.
fn find_cache_hit(keys: &Vec<Vec<Fixed>>, key: &Vec<Fixed>, thr: i64) -> (r: Option<usize>)
    requires
        thr >= 0,
        forall|i: int| 0 <= i < keys@.len() ==> keys@[i]@.len() <= 3,
    ensures
        ({
            let b = best_prefix(
                keys_view(keys@),
                pos_view(key@),
                (thr as int) * (thr as int),
                keys@.len(),
            );
            match r {
                Some(i) => b == Some(i as int) && i < keys@.len(),
                None => b is None,
            }
        }),
{
    let ghost kv = keys_view(keys@);
    let ghost keyv = pos_view(key@);
    let ghost t2 = (thr as int) * (thr as int);
    let mut best: Option<usize> = None;
    let mut best_d: u128 = 0;
    let mut i: usize = 0;
    while i < keys.len()
        invariant
            thr >= 0,
            forall|j: int| 0 <= j < keys@.len() ==> keys@[j]@.len() <= 3,
            kv == keys_view(keys@),
            keyv == pos_view(key@),
            t2 == (thr as int) * (thr as int),
            i <= keys.len(),
            ({
                let b = best_prefix(kv, keyv, t2, i as nat);
                match best {
                    Some(bi) => b == Some(bi as int) && bi < i && best_d as int == dist2(
                        kv[bi as int],
                        keyv,
                    ),
                    None => b is None,
                }
            }),
        decreases keys.len() - i,
    {
        match entry_dist(&keys[i], key, thr) {
            Some(d2) => {
                let better: bool = match best {
                    Some(_) => d2 < best_d,
                    None => true,
                };
                if better {
                    best = Some(i);
                    best_d = d2;
                }
            },
            None => {},
        }
        i = i + 1;
    }
    best
}

/// State and channel sums after the first `j` grid samples of a blur.
fn blur_run(node: &mut Shader, frag: &Fragment, radius: Fixed, n: u64, j: u64) -> (acc: (
    i128,
    i128,
    i128,
))
    requires
        old(node).wf(),
        frag@.pos.len() <= 3,
        1 <= n <= 65536,
        j <= MAX_BLUR_TOTAL,
    ensures
        final (node).wf(),
        final (node).structure() == old(node).structure(),
        ({
            let (s2, sums) = blur_fold(
                old(node).structure(),
                old(node).state(),
                frag@,
                radius@,
                n as nat,
                j as nat,
            );
            final (node).state() == s2 && acc.0 as int == sums.0 && acc.1 as int == sums.1
                && acc.2 as int == sums.2
        }),
        iabs(acc.0 as int) <= (j as int) * 0x8000_0000_0000_0000,
        iabs(acc.1 as int) <= (j as int) * 0x8000_0000_0000_0000,
        iabs(acc.2 as int) <= (j as int) * 0x8000_0000_0000_0000,
    decreases height(old(node).structure()), j as nat, 1nat,
{
    if j == 0 {
        (0, 0, 0)
    } else {
        let acc = blur_run(node, frag, radius, n, j - 1);
        let sf = sample_fragment(frag, radius, n, j - 1);
        let c = node.shade(&sf);
        (acc.0 + c.red.raw as i128, acc.1 + c.green.raw as i128, acc.2 + c.blue.raw as i128)
    }
}

impl Shader {
    /// Evaluates the shader at a sample point.
    ///
    /// The color and the new seeds and caches are exactly what the
    /// evaluation semantics `spec_shade` assigns to the tree's structure,
    /// prior state and the sample point; the structure itself never
    /// changes.
    pub fn shade(&mut self, frag: &Fragment) -> (c: Color)
        requires
            old(self).wf(),
            frag.wf(),
        ensures
            final (self).wf(),
            final (self).structure() == old(self).structure(),
            ({
                let (s2, cm) = spec_shade(old(self).structure(), old(self).state(), frag@);
                final (self).state() == s2 && c@ == cm
            }),
        decreases height(old(self).structure()), 0nat, 0nat,
    {
        match self {
            Shader::Off => Color::black(),
            Shader::Color { color } => *color,
            Shader::Interpolate { start, end, interpolator } => {
                let t = factor_of(interpolator, frag);
                let ca = start.shade(frag);
                let cb = end.shade(frag);
                ca.mix(cb, t)
            },
            Shader::Checkerboard { first, second, stride } => {
                if checker_first(&frag.pos, *stride) {
                    first.shade(frag)
                } else {
                    second.shade(frag)
                }
            },
            Shader::ModPosition { shader, modulo } => {
                let f2 = Fragment { pos: pos_mod(&frag.pos, *modulo), time: frag.time };
                shader.shade(&f2)
            },
            Shader::ModTime { shader, modulo } => {
                let f2 = Fragment { pos: copy_pos(&frag.pos), time: frag.time.rem_euclid(*modulo) };
                shader.shade(&f2)
            },
            Shader::ScalePosition { shader, scale } => {
                let f2 = Fragment { pos: pos_scale(&frag.pos, *scale), time: frag.time };
                shader.shade(&f2)
            },
            Shader::ScaleTime { shader, scale } => {
                let f2 = Fragment { pos: copy_pos(&frag.pos), time: frag.time.mul(*scale) };
                shader.shade(&f2)
            },
            Shader::TranslatePosition { shader, offset } => {
                let f2 = Fragment { pos: pos_translate(&frag.pos, offset), time: frag.time };
                shader.shade(&f2)
            },
            Shader::RotateHue { shader, angle } => {
                let c = shader.shade(frag);
                crate::hue::rotate_hue_exec(c, *angle)
            },
            Shader::Add { left, right } => {
                let a = left.shade(frag);
                let b = right.shade(frag);
                a.add(b)
            },
            Shader::Subtract { left, right } => {
                let a = left.shade(frag);
                let b = right.shade(frag);
                a.sub(b)
            },
            Shader::Multiply { left, right } => {
                let a = left.shade(frag);
                let b = right.shade(frag);
                a.mul(b)
            },
            Shader::Divide { left, right } => {
                let a = left.shade(frag);
                let b = right.shade(frag);
                a.div(b)
            },
            Shader::Rainbow { selector } => {
                let t = selector_of(selector, frag);
                crate::hue::rainbow_exec(t)
            },
            Shader::Random { seed } => {
                let d1 = crate::shader::rng_draw(*seed, SCALE as u64);
                let d2 = crate::shader::rng_draw(d1.1, SCALE as u64);
                let d3 = crate::shader::rng_draw(d2.1, SCALE as u64);
                *seed = d3.1;
                Color {
                    red: Fixed { raw: d1.0 as i64 },
                    green: Fixed { raw: d2.0 as i64 },
                    blue: Fixed { raw: d3.0 as i64 },
                }
            },
            Shader::Extrude { shader } => {
                if frag.pos.len() == 0 {
                    let f2 = Fragment { pos: copy_pos(&frag.pos), time: frag.time };
                    shader.shade(&f2)
                } else {
                    let f2 = Fragment { pos: pos_drop_last(&frag.pos), time: frag.time };
                    shader.shade(&f2)
                }
            },
            Shader::VolumeBlur { shader, radius, samples } => {
                let n: u64 = *samples as u64;
                let total: u64 = pow_total(n, frag.pos.len());
                let sums = blur_run(&mut **shader, frag, *radius, n, total);
                Color {
                    red: Fixed { raw: clip_i128(tdiv_i128(sums.0, total as i128)) },
                    green: Fixed { raw: clip_i128(tdiv_i128(sums.1, total as i128)) },
                    blue: Fixed { raw: clip_i128(tdiv_i128(sums.2, total as i128)) },
                }
            },
            Shader::Memoize { shader, threshold, time_invalidates, keys, colors, last_time } => {
                if *time_invalidates && frag.time.raw != last_time.raw {
                    keys.clear();
                    colors.clear();
                    *last_time = frag.time;
                    let c = shader.shade(frag);
                    keys.push(copy_pos(&frag.pos));
                    colors.push(c);
                    proof {
                        assert(keys_view(keys@) =~= seq![frag@.pos]);
                        assert(colors_view(colors@) =~= seq![c@]);
                    }
                    c
                } else {
                    let thr: i64 = match threshold {
                        Some(t) => t.raw,
                        None => 0,
                    };
                    match find_cache_hit(keys, &frag.pos, thr) {
                        Some(i) => colors[i],
                        None => {
                            let ghost k0 = keys@;
                            let ghost c0 = colors@;
                            let c = shader.shade(frag);
                            keys.push(copy_pos(&frag.pos));
                            colors.push(c);
                            proof {
                                assert(keys_view(keys@) =~= keys_view(k0).push(frag@.pos));
                                assert(colors_view(colors@) =~= colors_view(c0).push(c@));
                            }
                            c
                        },
                    }
                }
            },
        }
    }
}

} // verus!

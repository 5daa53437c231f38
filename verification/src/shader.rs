//! The shader combinator tree and its evaluation semantics.
//!
//! A `Shader` is a tree of combinators: constant colors at the leaves,
//! interpolation, patterning, positional transforms, channel arithmetic,
//! blurring and memoization above them. Shading walks the tree for one
//! sample point and yields a color.
//!
//! Two ghost projections describe a tree: its `structure` — the
//! combinators and their parameters, which never change — and its `state`
//! — the random seeds and memoization caches, which evolve as the tree is
//! shaded. The single spec function `spec_shade` is the evaluation
//! semantics: it maps structure, state and sample point to the next state
//! and the resulting color, and `Shader::shade` is proved to follow it
//! exactly.

use vstd::prelude::*;

use crate::color::{add_color, black_color, div_color, mix_color, mul_color, sub_color, Color,
    ColorModel};
use crate::fixed::{clip, iabs, spec_add, spec_mul, tdiv, Fixed, SCALE};
use crate::fragment::{pos_view, FragModel, Fragment};
use crate::hue::{rainbow_color, rotate_hue_color};

verus! {

/// Largest number of blur samples per axis.
pub const MAX_BLUR_SAMPLES: usize = 65536;

/// Largest total number of blur samples: `MAX_BLUR_SAMPLES` cubed.
pub const MAX_BLUR_TOTAL: u64 = 0x1_0000_0000_0000;

/// How an `Interpolate` node derives its mixing factor from the sample
/// point.
#[derive(Clone, Copy, Debug, PartialEq, Eq, Structural)]
pub enum Interpolator {
    /// Always the same factor.
    Constant(Fixed),
    /// The sum of the position's coordinates.
    PositionSum,
    /// The sample time.
    Time,
}

/// How a `Rainbow` node derives its hue position from the sample point.
#[derive(Clone, Copy, Debug, PartialEq, Eq, Structural)]
pub enum Selector {
    /// The sample time.
    Time,
    /// The sum of the position's coordinates.
    PositionSum,
}

/// A shader: a tree of combinators evaluated at sample points.
///
/// Every combinator owns its children outright, so the tree is acyclic by
/// construction. `Random` and `Memoize` nodes carry mutable state — a
/// seed, a cache — which is why shading takes the tree by `&mut`.
#[derive(Debug)]
pub enum Shader {
    /// Constant black.
    Off,
    /// A constant color.
    Color { color: Color },
    /// Mixes two children by an interpolation factor.
    Interpolate { start: Box<Shader>, end: Box<Shader>, interpolator: Interpolator },
    /// Picks a child by the parity of the stride cell the position is in.
    Checkerboard { first: Box<Shader>, second: Box<Shader>, stride: Fixed },
    /// Wraps every position coordinate into `[0, modulo)`.
    ModPosition { shader: Box<Shader>, modulo: Fixed },
    /// Wraps the time into `[0, modulo)`.
    ModTime { shader: Box<Shader>, modulo: Fixed },
    /// Multiplies every position coordinate by a factor.
    ScalePosition { shader: Box<Shader>, scale: Fixed },
    /// Multiplies the time by a factor.
    ScaleTime { shader: Box<Shader>, scale: Fixed },
    /// Adds an offset vector to the position.
    TranslatePosition { shader: Box<Shader>, offset: Vec<Fixed> },
    /// Rotates the hue of the child's color by an angle in degrees.
    RotateHue { shader: Box<Shader>, angle: Fixed },
    /// Channel-wise sum of two children.
    Add { left: Box<Shader>, right: Box<Shader> },
    /// Channel-wise difference of two children.
    Subtract { left: Box<Shader>, right: Box<Shader> },
    /// Channel-wise product of two children.
    Multiply { left: Box<Shader>, right: Box<Shader> },
    /// Channel-wise quotient of two children.
    Divide { left: Box<Shader>, right: Box<Shader> },
    /// A full-saturation color whose hue follows the selector.
    Rainbow { selector: Selector },
    /// A fresh color on every evaluation, from an advancing seed.
    Random { seed: u64 },
    /// Lifts a lower-dimensional child by dropping the last coordinate.
    Extrude { shader: Box<Shader> },
    /// Averages the child over a grid of nearby positions.
    ///
    /// The grid has `samples` positions per axis, so shading costs
    /// `samples` to the power of the dimension child evaluations —
    /// exponential in the dimension by design.
    VolumeBlur { shader: Box<Shader>, radius: Fixed, samples: usize },
    /// Caches the child's colors by approximate position.
    Memoize {
        shader: Box<Shader>,
        threshold: Option<Fixed>,
        time_invalidates: bool,
        keys: Vec<Vec<Fixed>>,
        colors: Vec<Color>,
        last_time: Fixed,
    },
}

/// The unchanging part of a shader: combinators and parameters.
pub ghost enum ShaderModel {
    Off,
    Color { color: ColorModel },
    Interpolate { start: Box<ShaderModel>, end: Box<ShaderModel>, interpolator: Interpolator },
    Checkerboard { first: Box<ShaderModel>, second: Box<ShaderModel>, stride: int },
    ModPosition { shader: Box<ShaderModel>, modulo: int },
    ModTime { shader: Box<ShaderModel>, modulo: int },
    ScalePosition { shader: Box<ShaderModel>, scale: int },
    ScaleTime { shader: Box<ShaderModel>, scale: int },
    TranslatePosition { shader: Box<ShaderModel>, offset: Seq<int> },
    RotateHue { shader: Box<ShaderModel>, angle: int },
    Add { left: Box<ShaderModel>, right: Box<ShaderModel> },
    Subtract { left: Box<ShaderModel>, right: Box<ShaderModel> },
    Multiply { left: Box<ShaderModel>, right: Box<ShaderModel> },
    Divide { left: Box<ShaderModel>, right: Box<ShaderModel> },
    Rainbow { selector: Selector },
    Random,
    Extrude { shader: Box<ShaderModel> },
    VolumeBlur { shader: Box<ShaderModel>, radius: int, samples: nat },
    Memoize { shader: Box<ShaderModel>, threshold: Option<int>, time_invalidates: bool },
}

/// The evolving part of a shader: seeds and caches, one node of state per
/// node of structure.
pub ghost enum ShaderState {
    /// State of a stateless leaf.
    Leaf,
    /// State of a one-child combinator.
    Solo { child: Box<ShaderState> },
    /// State of a two-child combinator.
    Pair { left: Box<ShaderState>, right: Box<ShaderState> },
    /// State of a `Random` node.
    Rng { seed: u64 },
    /// State of a `Memoize` node: cached keys and colors in insertion
    /// order, and the time of the last cache-affecting call.
    Memo {
        child: Box<ShaderState>,
        keys: Seq<Seq<int>>,
        colors: Seq<ColorModel>,
        last_time: int,
    },
}

/// The raw-count views of a sequence of cache keys.
pub open spec fn keys_view(keys: Seq<Vec<Fixed>>) -> Seq<Seq<int>> {
    Seq::new(keys.len(), |i: int| pos_view(keys[i]@))
}

/// The channel views of a sequence of cached colors.
pub open spec fn colors_view(colors: Seq<Color>) -> Seq<ColorModel> {
    Seq::new(colors.len(), |i: int| colors[i]@)
}

/// What `rng_draw` returns: the drawn value and the seed after the draw.
/// The draw is a function of the seed and bound alone.
pub uninterp spec fn rng_next(seed: u64, bound: u64) -> (u64, u64);

/// Relies on `fastrand::Rng`: a generator seeded with `with_seed(seed)`
/// draws `u64(0..=bound)` as a deterministic function of the seed and
/// bound alone, the draw is at most `bound`, and `get_seed` reads the
/// state left behind for the next draw.
#[verifier::external_body]
pub(crate) fn rng_draw(seed: u64, bound: u64) -> (r: (u64, u64))
    ensures
        r == rng_next(seed, bound),
        r.0 <= bound,
{
    let mut rng = fastrand::Rng::with_seed(seed);
    let value = rng.u64(0..=bound);
    (value, rng.get_seed())
}

/// Saturating sum of the first `n` coordinates.
pub open spec fn sum_pos_prefix(pos: Seq<int>, n: nat) -> int
    decreases n,
{
    if n == 0 {
        0
    } else {
        spec_add(sum_pos_prefix(pos, (n - 1) as nat), pos[n - 1])
    }
}

/// Saturating sum of all coordinates.
pub open spec fn sum_pos(pos: Seq<int>) -> int {
    sum_pos_prefix(pos, pos.len())
}

/// The mixing factor an interpolator draws from a sample point.
pub open spec fn interp_factor(ip: Interpolator, f: FragModel) -> int {
    match ip {
        Interpolator::Constant(t) => t@,
        Interpolator::PositionSum => sum_pos(f.pos),
        Interpolator::Time => f.time,
    }
}

/// The hue position a selector draws from a sample point.
pub open spec fn selector_factor(sel: Selector, f: FragModel) -> int {
    match sel {
        Selector::Time => f.time,
        Selector::PositionSum => sum_pos(f.pos),
    }
}

/// Sum over the first `n` coordinates of how many whole strides fit in
/// each coordinate's magnitude.
pub open spec fn cells_prefix(pos: Seq<int>, stride: int, n: nat) -> int
    decreases n,
{
    if n == 0 {
        0
    } else {
        cells_prefix(pos, stride, (n - 1) as nat) + iabs(pos[n - 1]) / iabs(stride)
    }
}

/// The checkerboard cell sum of a position.
pub open spec fn checker_cells(pos: Seq<int>, stride: int) -> int {
    cells_prefix(pos, stride, pos.len())
}

/// Every coordinate wrapped into `[0, m)`.
pub open spec fn mod_pos(pos: Seq<int>, m: int) -> Seq<int> {
    Seq::new(pos.len(), |i: int| pos[i] % m)
}

/// Every coordinate multiplied by `k`.
pub open spec fn scale_pos(pos: Seq<int>, k: int) -> Seq<int> {
    Seq::new(pos.len(), |i: int| spec_mul(pos[i], k))
}

/// The offset added coordinate-wise; coordinates past the offset's length
/// are unchanged.
pub open spec fn translate_pos(pos: Seq<int>, off: Seq<int>) -> Seq<int> {
    Seq::new(
        pos.len(),
        |i: int|
            if i < off.len() {
                spec_add(pos[i], off[i])
            } else {
                pos[i]
            },
    )
}

/// The sample point a child of an `Extrude` node sees: the last
/// coordinate dropped.
pub open spec fn extrude_frag(f: FragModel) -> FragModel {
    if f.pos.len() == 0 {
        f
    } else {
        FragModel { pos: f.pos.drop_last(), time: f.time }
    }
}

/// `n` to the power `k`.
pub open spec fn npow(n: nat, k: nat) -> nat
    decreases k,
{
    if k == 0 {
        1
    } else {
        n * npow(n, (k - 1) as nat)
    }
}

/// Digit `k` of `j` in base `n`.
pub open spec fn digit(j: nat, n: nat, k: nat) -> nat {
    (j / npow(n, k)) % n
}

/// The blur offset of per-axis sample index `d` out of `n`: positions
/// linearly spaced across `[-radius, +radius]`, endpoints included, the
/// center alone when `n` is one.
pub open spec fn sample_offset(radius: int, n: nat, d: nat) -> int {
    if n <= 1 {
        0
    } else {
        clip(tdiv(2 * radius * d, (n - 1) as int) - radius)
    }
}

/// Grid sample `j` of a blur around `f`: each coordinate offset by its
/// base-`n` digit of `j`.
pub open spec fn sample_frag(f: FragModel, radius: int, n: nat, j: nat) -> FragModel {
    FragModel {
        pos: Seq::new(
            f.pos.len(),
            |k: int| spec_add(f.pos[k], sample_offset(radius, n, digit(j, n, k as nat))),
        ),
        time: f.time,
    }
}

/// Squared Euclidean distance over the first `n` coordinates.
pub open spec fn dist2_prefix(a: Seq<int>, b: Seq<int>, n: nat) -> int
    decreases n,
{
    if n == 0 {
        0
    } else {
        dist2_prefix(a, b, (n - 1) as nat) + (a[n - 1] - b[n - 1]) * (a[n - 1] - b[n - 1])
    }
}

/// Squared Euclidean distance of two keys of equal dimension.
pub open spec fn dist2(a: Seq<int>, b: Seq<int>) -> int {
    dist2_prefix(a, b, if a.len() <= b.len() {
        a.len()
    } else {
        b.len()
    })
}

/// Whether a cached key matches the looked-up key within the squared
/// threshold.
pub open spec fn key_hit(k: Seq<int>, key: Seq<int>, thr2: int) -> bool {
    k.len() == key.len() && dist2(k, key) <= thr2
}

/// The cache slot a lookup returns among the first `n` entries: the
/// earliest entry at minimal distance within the threshold.
pub open spec fn best_prefix(keys: Seq<Seq<int>>, key: Seq<int>, thr2: int, n: nat) -> Option<int>
    decreases n,
{
    if n == 0 {
        None
    } else {
        let prev = best_prefix(keys, key, thr2, (n - 1) as nat);
        let i = n - 1;
        if key_hit(keys[i as int], key, thr2) && (prev is None || dist2(keys[i as int], key)
            < dist2(keys[prev->0], key)) {
            Some(i as int)
        } else {
            prev
        }
    }
}

/// The squared distance threshold of a memoization setting: an absent
/// threshold admits exact matches only.
pub open spec fn thr2_of(threshold: Option<int>) -> int {
    match threshold {
        Some(t) => t * t,
        None => 0,
    }
}

/// Height of a structure tree, the termination measure of evaluation.
pub open spec fn height(m: ShaderModel) -> nat
    decreases m,
{
    match m {
        ShaderModel::Interpolate { start, end, .. } => 1 + if height(*start) > height(*end) {
            height(*start)
        } else {
            height(*end)
        },
        ShaderModel::Checkerboard { first, second, .. } => 1 + if height(*first) > height(
            *second,
        ) {
            height(*first)
        } else {
            height(*second)
        },
        ShaderModel::ModPosition { shader, .. } => 1 + height(*shader),
        ShaderModel::ModTime { shader, .. } => 1 + height(*shader),
        ShaderModel::ScalePosition { shader, .. } => 1 + height(*shader),
        ShaderModel::ScaleTime { shader, .. } => 1 + height(*shader),
        ShaderModel::TranslatePosition { shader, .. } => 1 + height(*shader),
        ShaderModel::RotateHue { shader, .. } => 1 + height(*shader),
        ShaderModel::Add { left, right } => 1 + if height(*left) > height(*right) {
            height(*left)
        } else {
            height(*right)
        },
        ShaderModel::Subtract { left, right } => 1 + if height(*left) > height(*right) {
            height(*left)
        } else {
            height(*right)
        },
        ShaderModel::Multiply { left, right } => 1 + if height(*left) > height(*right) {
            height(*left)
        } else {
            height(*right)
        },
        ShaderModel::Divide { left, right } => 1 + if height(*left) > height(*right) {
            height(*left)
        } else {
            height(*right)
        },
        ShaderModel::Extrude { shader } => 1 + height(*shader),
        ShaderModel::VolumeBlur { shader, .. } => 1 + height(*shader),
        ShaderModel::Memoize { shader, .. } => 1 + height(*shader),
        _ => 1,
    }
}

/// The evaluation semantics: from structure, state and sample point to
/// the next state and the color.
///
/// A point with more coordinates than the structure expects is still
/// mapped somewhere — a mismatched structure/state pair yields black and
/// leaves the state alone — but `Shader::shade` only ever evaluates
/// matching pairs.
pub open spec fn spec_shade(m: ShaderModel, s: ShaderState, f: FragModel) -> (ShaderState,
    ColorModel)
    decreases height(m), 0nat, 0nat,
{
    match (m, s) {
        (ShaderModel::Off, _) => (s, black_color()),
        (ShaderModel::Color { color }, _) => (s, color),
        (
            ShaderModel::Interpolate { start, end, interpolator },
            ShaderState::Pair { left, right },
        ) => {
            let t = interp_factor(interpolator, f);
            let (sl, ca) = spec_shade(*start, *left, f);
            let (sr, cb) = spec_shade(*end, *right, f);
            (ShaderState::Pair { left: Box::new(sl), right: Box::new(sr) }, mix_color(ca, cb, t))
        },
        (
            ShaderModel::Checkerboard { first, second, stride },
            ShaderState::Pair { left, right },
        ) => {
            if checker_cells(f.pos, stride) % 2 == 0 {
                let (sl, c) = spec_shade(*first, *left, f);
                (ShaderState::Pair { left: Box::new(sl), right }, c)
            } else {
                let (sr, c) = spec_shade(*second, *right, f);
                (ShaderState::Pair { left, right: Box::new(sr) }, c)
            }
        },
        (ShaderModel::ModPosition { shader, modulo }, ShaderState::Solo { child }) => {
            let (sc, c) = spec_shade(
                *shader,
                *child,
                FragModel { pos: mod_pos(f.pos, modulo), time: f.time },
            );
            (ShaderState::Solo { child: Box::new(sc) }, c)
        },
        (ShaderModel::ModTime { shader, modulo }, ShaderState::Solo { child }) => {
            let (sc, c) = spec_shade(
                *shader,
                *child,
                FragModel { pos: f.pos, time: f.time % modulo },
            );
            (ShaderState::Solo { child: Box::new(sc) }, c)
        },
        (ShaderModel::ScalePosition { shader, scale }, ShaderState::Solo { child }) => {
            let (sc, c) = spec_shade(
                *shader,
                *child,
                FragModel { pos: scale_pos(f.pos, scale), time: f.time },
            );
            (ShaderState::Solo { child: Box::new(sc) }, c)
        },
        (ShaderModel::ScaleTime { shader, scale }, ShaderState::Solo { child }) => {
            let (sc, c) = spec_shade(
                *shader,
                *child,
                FragModel { pos: f.pos, time: spec_mul(f.time, scale) },
            );
            (ShaderState::Solo { child: Box::new(sc) }, c)
        },
        (ShaderModel::TranslatePosition { shader, offset }, ShaderState::Solo { child }) => {
            let (sc, c) = spec_shade(
                *shader,
                *child,
                FragModel { pos: translate_pos(f.pos, offset), time: f.time },
            );
            (ShaderState::Solo { child: Box::new(sc) }, c)
        },
        (ShaderModel::RotateHue { shader, angle }, ShaderState::Solo { child }) => {
            let (sc, c) = spec_shade(*shader, *child, f);
            (ShaderState::Solo { child: Box::new(sc) }, rotate_hue_color(c, angle))
        },
        (ShaderModel::Add { left, right }, ShaderState::Pair { left: sl, right: sr }) => {
            let (tl, ca) = spec_shade(*left, *sl, f);
            let (tr, cb) = spec_shade(*right, *sr, f);
            (ShaderState::Pair { left: Box::new(tl), right: Box::new(tr) }, add_color(ca, cb))
        },
        (ShaderModel::Subtract { left, right }, ShaderState::Pair { left: sl, right: sr }) => {
            let (tl, ca) = spec_shade(*left, *sl, f);
            let (tr, cb) = spec_shade(*right, *sr, f);
            (ShaderState::Pair { left: Box::new(tl), right: Box::new(tr) }, sub_color(ca, cb))
        },
        (ShaderModel::Multiply { left, right }, ShaderState::Pair { left: sl, right: sr }) => {
            let (tl, ca) = spec_shade(*left, *sl, f);
            let (tr, cb) = spec_shade(*right, *sr, f);
            (ShaderState::Pair { left: Box::new(tl), right: Box::new(tr) }, mul_color(ca, cb))
        },
        (ShaderModel::Divide { left, right }, ShaderState::Pair { left: sl, right: sr }) => {
            let (tl, ca) = spec_shade(*left, *sl, f);
            let (tr, cb) = spec_shade(*right, *sr, f);
            (ShaderState::Pair { left: Box::new(tl), right: Box::new(tr) }, div_color(ca, cb))
        },
        (ShaderModel::Rainbow { selector }, _) => (s, rainbow_color(selector_factor(selector, f))),
        (ShaderModel::Random, ShaderState::Rng { seed }) => {
            let (v1, s1) = rng_next(seed, SCALE as u64);
            let (v2, s2) = rng_next(s1, SCALE as u64);
            let (v3, s3) = rng_next(s2, SCALE as u64);
            (
                ShaderState::Rng { seed: s3 },
                ColorModel { r: clip(v1 as int), g: clip(v2 as int), b: clip(v3 as int) },
            )
        },
        (ShaderModel::Extrude { shader }, ShaderState::Solo { child }) => {
            let (sc, c) = spec_shade(*shader, *child, extrude_frag(f));
            (ShaderState::Solo { child: Box::new(sc) }, c)
        },
        (ShaderModel::VolumeBlur { shader, radius, samples }, ShaderState::Solo { child }) => {
            let total = npow(samples, f.pos.len());
            let (sc, sums) = blur_fold(*shader, *child, f, radius, samples, total);
            (
                ShaderState::Solo { child: Box::new(sc) },
                ColorModel {
                    r: clip(tdiv(sums.0, total as int)),
                    g: clip(tdiv(sums.1, total as int)),
                    b: clip(tdiv(sums.2, total as int)),
                },
            )
        },
        (
            ShaderModel::Memoize { shader, threshold, time_invalidates },
            ShaderState::Memo { child, keys, colors, last_time },
        ) => {
            if time_invalidates && f.time != last_time {
                let (sc, c) = spec_shade(*shader, *child, f);
                (
                    ShaderState::Memo {
                        child: Box::new(sc),
                        keys: seq![f.pos],
                        colors: seq![c],
                        last_time: f.time,
                    },
                    c,
                )
            } else {
                let hit = best_prefix(keys, f.pos, thr2_of(threshold), keys.len());
                if hit is Some {
                    (s, colors[hit->0])
                } else {
                    let (sc, c) = spec_shade(*shader, *child, f);
                    (
                        ShaderState::Memo {
                            child: Box::new(sc),
                            keys: keys.push(f.pos),
                            colors: colors.push(c),
                            last_time,
                        },
                        c,
                    )
                }
            }
        },
        _ => (s, black_color()),
    }
}

/// State and channel sums after the first `j` grid samples of a blur.
pub open spec fn blur_fold(m: ShaderModel, s: ShaderState, f: FragModel, radius: int, n: nat,
    j: nat) -> (ShaderState, (int, int, int))
    decreases height(m), j, 1nat,
{
    if j == 0 {
        (s, (0, 0, 0))
    } else {
        let (s1, acc) = blur_fold(m, s, f, radius, n, (j - 1) as nat);
        let (s2, c) = spec_shade(m, s1, sample_frag(f, radius, n, (j - 1) as nat));
        (s2, (acc.0 + c.r, acc.1 + c.g, acc.2 + c.b))
    }
}

impl Shader {
    /// The structure of the tree: combinators and parameters.
    pub open spec fn structure(&self) -> ShaderModel
        decreases self,
    {
        match self {
            Shader::Off => ShaderModel::Off,
            Shader::Color { color } => ShaderModel::Color { color: color@ },
            Shader::Interpolate { start, end, interpolator } => ShaderModel::Interpolate {
                start: Box::new(start.structure()),
                end: Box::new(end.structure()),
                interpolator: *interpolator,
            },
            Shader::Checkerboard { first, second, stride } => ShaderModel::Checkerboard {
                first: Box::new(first.structure()),
                second: Box::new(second.structure()),
                stride: stride@,
            },
            Shader::ModPosition { shader, modulo } => ShaderModel::ModPosition {
                shader: Box::new(shader.structure()),
                modulo: modulo@,
            },
            Shader::ModTime { shader, modulo } => ShaderModel::ModTime {
                shader: Box::new(shader.structure()),
                modulo: modulo@,
            },
            Shader::ScalePosition { shader, scale } => ShaderModel::ScalePosition {
                shader: Box::new(shader.structure()),
                scale: scale@,
            },
            Shader::ScaleTime { shader, scale } => ShaderModel::ScaleTime {
                shader: Box::new(shader.structure()),
                scale: scale@,
            },
            Shader::TranslatePosition { shader, offset } => ShaderModel::TranslatePosition {
                shader: Box::new(shader.structure()),
                offset: pos_view(offset@),
            },
            Shader::RotateHue { shader, angle } => ShaderModel::RotateHue {
                shader: Box::new(shader.structure()),
                angle: angle@,
            },
            Shader::Add { left, right } => ShaderModel::Add {
                left: Box::new(left.structure()),
                right: Box::new(right.structure()),
            },
            Shader::Subtract { left, right } => ShaderModel::Subtract {
                left: Box::new(left.structure()),
                right: Box::new(right.structure()),
            },
            Shader::Multiply { left, right } => ShaderModel::Multiply {
                left: Box::new(left.structure()),
                right: Box::new(right.structure()),
            },
            Shader::Divide { left, right } => ShaderModel::Divide {
                left: Box::new(left.structure()),
                right: Box::new(right.structure()),
            },
            Shader::Rainbow { selector } => ShaderModel::Rainbow { selector: *selector },
            Shader::Random { seed } => ShaderModel::Random,
            Shader::Extrude { shader } => ShaderModel::Extrude {
                shader: Box::new(shader.structure()),
            },
            Shader::VolumeBlur { shader, radius, samples } => ShaderModel::VolumeBlur {
                shader: Box::new(shader.structure()),
                radius: radius@,
                samples: *samples as nat,
            },
            Shader::Memoize { shader, threshold, time_invalidates, .. } => ShaderModel::Memoize {
                shader: Box::new(shader.structure()),
                threshold: match threshold {
                    Some(t) => Some(t@),
                    None => None,
                },
                time_invalidates: *time_invalidates,
            },
        }
    }

    /// The state of the tree: seeds and caches.
    pub open spec fn state(&self) -> ShaderState
        decreases self,
    {
        match self {
            Shader::Off => ShaderState::Leaf,
            Shader::Color { .. } => ShaderState::Leaf,
            Shader::Interpolate { start, end, .. } => ShaderState::Pair {
                left: Box::new(start.state()),
                right: Box::new(end.state()),
            },
            Shader::Checkerboard { first, second, .. } => ShaderState::Pair {
                left: Box::new(first.state()),
                right: Box::new(second.state()),
            },
            Shader::ModPosition { shader, .. } => ShaderState::Solo {
                child: Box::new(shader.state()),
            },
            Shader::ModTime { shader, .. } => ShaderState::Solo {
                child: Box::new(shader.state()),
            },
            Shader::ScalePosition { shader, .. } => ShaderState::Solo {
                child: Box::new(shader.state()),
            },
            Shader::ScaleTime { shader, .. } => ShaderState::Solo {
                child: Box::new(shader.state()),
            },
            Shader::TranslatePosition { shader, .. } => ShaderState::Solo {
                child: Box::new(shader.state()),
            },
            Shader::RotateHue { shader, .. } => ShaderState::Solo {
                child: Box::new(shader.state()),
            },
            Shader::Add { left, right } => ShaderState::Pair {
                left: Box::new(left.state()),
                right: Box::new(right.state()),
            },
            Shader::Subtract { left, right } => ShaderState::Pair {
                left: Box::new(left.state()),
                right: Box::new(right.state()),
            },
            Shader::Multiply { left, right } => ShaderState::Pair {
                left: Box::new(left.state()),
                right: Box::new(right.state()),
            },
            Shader::Divide { left, right } => ShaderState::Pair {
                left: Box::new(left.state()),
                right: Box::new(right.state()),
            },
            Shader::Rainbow { .. } => ShaderState::Leaf,
            Shader::Random { seed } => ShaderState::Rng { seed: *seed },
            Shader::Extrude { shader } => ShaderState::Solo { child: Box::new(shader.state()) },
            Shader::VolumeBlur { shader, .. } => ShaderState::Solo {
                child: Box::new(shader.state()),
            },
            Shader::Memoize { shader, keys, colors, last_time, .. } => ShaderState::Memo {
                child: Box::new(shader.state()),
                keys: keys_view(keys@),
                colors: colors_view(colors@),
                last_time: last_time@,
            },
        }
    }

    /// Well-formedness: parameters in their meaningful ranges, cache
    /// columns aligned, recursively through the tree.
    pub open spec fn wf(&self) -> bool
        decreases self,
    {
        match self {
            Shader::Off => true,
            Shader::Color { .. } => true,
            Shader::Interpolate { start, end, .. } => start.wf() && end.wf(),
            Shader::Checkerboard { first, second, stride } => stride@ != 0 && first.wf()
                && second.wf(),
            Shader::ModPosition { shader, modulo } => modulo@ > 0 && shader.wf(),
            Shader::ModTime { shader, modulo } => modulo@ > 0 && shader.wf(),
            Shader::ScalePosition { shader, .. } => shader.wf(),
            Shader::ScaleTime { shader, .. } => shader.wf(),
            Shader::TranslatePosition { shader, .. } => shader.wf(),
            Shader::RotateHue { shader, .. } => shader.wf(),
            Shader::Add { left, right } => left.wf() && right.wf(),
            Shader::Subtract { left, right } => left.wf() && right.wf(),
            Shader::Multiply { left, right } => left.wf() && right.wf(),
            Shader::Divide { left, right } => left.wf() && right.wf(),
            Shader::Rainbow { .. } => true,
            Shader::Random { .. } => true,
            Shader::Extrude { shader } => shader.wf(),
            Shader::VolumeBlur { shader, samples, .. } => 1 <= *samples && *samples
                <= MAX_BLUR_SAMPLES && shader.wf(),
            Shader::Memoize { shader, threshold, keys, colors, .. } => (match threshold {
                Some(t) => t@ >= 0,
                None => true,
            }) && keys@.len() == colors@.len() && (forall|i: int|
                0 <= i < keys@.len() ==> keys@[i]@.len() <= 3) && shader.wf(),
        }
    }
}

} // verus!

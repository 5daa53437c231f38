//! Constructors for the shader combinators.
//!
//! Each free function builds one combinator node, taking ownership of its
//! children; the contracts pin down exactly which structure and state the
//! new tree carries.

use vstd::prelude::*;

use crate::color::Color;
use crate::fixed::Fixed;
use crate::shader::{Interpolator, Selector, Shader, ShaderModel, ShaderState, MAX_BLUR_SAMPLES};

verus! {

/// Constant black: every vertex is off.
pub fn off() -> (s: Shader)
    ensures
        s.structure() == ShaderModel::Off,
        s.state() == ShaderState::Leaf,
        s.wf(),
{
    Shader::Off
}

/// The constant shader of one color.
pub fn color(c: Color) -> (s: Shader)
    ensures
        s.structure() == (ShaderModel::Color { color: c@ }),
        s.state() == ShaderState::Leaf,
        s.wf(),
{
    Shader::Color { color: c }
}

/// Mixes two shaders by a constant interpolation factor.
///
/// The factor is not clamped to one unit: extrapolation past either end
/// is allowed.
pub fn mix(start: Shader, end: Shader, factor: Fixed) -> (s: Shader)
    requires
        start.wf(),
        end.wf(),
    ensures
        s.structure() == (ShaderModel::Interpolate {
            start: Box::new(start.structure()),
            end: Box::new(end.structure()),
            interpolator: Interpolator::Constant(factor),
        }),
        s.state() == (ShaderState::Pair {
            left: Box::new(start.state()),
            right: Box::new(end.state()),
        }),
        s.wf(),
{
    Shader::Interpolate {
        start: Box::new(start),
        end: Box::new(end),
        interpolator: Interpolator::Constant(factor),
    }
}

/// Mixes two shaders by the sum of the position's coordinates.
pub fn position_gradient(start: Shader, end: Shader) -> (s: Shader)
    requires
        start.wf(),
        end.wf(),
    ensures
        s.structure() == (ShaderModel::Interpolate {
            start: Box::new(start.structure()),
            end: Box::new(end.structure()),
            interpolator: Interpolator::PositionSum,
        }),
        s.state() == (ShaderState::Pair {
            left: Box::new(start.state()),
            right: Box::new(end.state()),
        }),
        s.wf(),
{
    Shader::Interpolate {
        start: Box::new(start),
        end: Box::new(end),
        interpolator: Interpolator::PositionSum,
    }
}

/// Mixes two shaders by the sample time.
pub fn time_gradient(start: Shader, end: Shader) -> (s: Shader)
    requires
        start.wf(),
        end.wf(),
    ensures
        s.structure() == (ShaderModel::Interpolate {
            start: Box::new(start.structure()),
            end: Box::new(end.structure()),
            interpolator: Interpolator::Time,
        }),
        s.state() == (ShaderState::Pair {
            left: Box::new(start.state()),
            right: Box::new(end.state()),
        }),
        s.wf(),
{
    Shader::Interpolate {
        start: Box::new(start),
        end: Box::new(end),
        interpolator: Interpolator::Time,
    }
}

/// Alternates two shaders in a checkerboard of the given stride: the
/// parity of the summed per-axis cell indices picks the child.
pub fn checkerboard(first: Shader, second: Shader, stride: Fixed) -> (s: Shader)
    requires
        first.wf(),
        second.wf(),
        stride@ != 0,
    ensures
        s.structure() == (ShaderModel::Checkerboard {
            first: Box::new(first.structure()),
            second: Box::new(second.structure()),
            stride: stride@,
        }),
        s.state() == (ShaderState::Pair {
            left: Box::new(first.state()),
            right: Box::new(second.state()),
        }),
        s.wf(),
{
    Shader::Checkerboard { first: Box::new(first), second: Box::new(second), stride }
}

/// Tiles a shader by wrapping every position coordinate into
/// `[0, modulo)`.
pub fn mod_position(shader: Shader, modulo: Fixed) -> (s: Shader)
    requires
        shader.wf(),
        modulo@ > 0,
    ensures
        s.structure() == (ShaderModel::ModPosition {
            shader: Box::new(shader.structure()),
            modulo: modulo@,
        }),
        s.state() == (ShaderState::Solo { child: Box::new(shader.state()) }),
        s.wf(),
{
    Shader::ModPosition { shader: Box::new(shader), modulo }
}

/// Loops a shader's animation by wrapping the time into `[0, modulo)`.
pub fn mod_time(shader: Shader, modulo: Fixed) -> (s: Shader)
    requires
        shader.wf(),
        modulo@ > 0,
    ensures
        s.structure() == (ShaderModel::ModTime {
            shader: Box::new(shader.structure()),
            modulo: modulo@,
        }),
        s.state() == (ShaderState::Solo { child: Box::new(shader.state()) }),
        s.wf(),
{
    Shader::ModTime { shader: Box::new(shader), modulo }
}

/// Zooms a shader by multiplying every position coordinate.
pub fn scale_position(shader: Shader, scale: Fixed) -> (s: Shader)
    requires
        shader.wf(),
    ensures
        s.structure() == (ShaderModel::ScalePosition {
            shader: Box::new(shader.structure()),
            scale: scale@,
        }),
        s.state() == (ShaderState::Solo { child: Box::new(shader.state()) }),
        s.wf(),
{
    Shader::ScalePosition { shader: Box::new(shader), scale }
}

/// Speeds a shader up or down by multiplying the time.
pub fn scale_time(shader: Shader, scale: Fixed) -> (s: Shader)
    requires
        shader.wf(),
    ensures
        s.structure() == (ShaderModel::ScaleTime {
            shader: Box::new(shader.structure()),
            scale: scale@,
        }),
        s.state() == (ShaderState::Solo { child: Box::new(shader.state()) }),
        s.wf(),
{
    Shader::ScaleTime { shader: Box::new(shader), scale }
}

/// Pans a shader by adding an offset vector to the position.
pub fn translate_position(shader: Shader, offset: Vec<Fixed>) -> (s: Shader)
    requires
        shader.wf(),
    ensures
        s.structure() == (ShaderModel::TranslatePosition {
            shader: Box::new(shader.structure()),
            offset: crate::fragment::pos_view(offset@),
        }),
        s.state() == (ShaderState::Solo { child: Box::new(shader.state()) }),
        s.wf(),
{
    Shader::TranslatePosition { shader: Box::new(shader), offset }
}

/// Rotates the hue of a shader's colors by an angle in degrees.
pub fn rotate_hue(shader: Shader, angle: Fixed) -> (s: Shader)
    requires
        shader.wf(),
    ensures
        s.structure() == (ShaderModel::RotateHue {
            shader: Box::new(shader.structure()),
            angle: angle@,
        }),
        s.state() == (ShaderState::Solo { child: Box::new(shader.state()) }),
        s.wf(),
{
    Shader::RotateHue { shader: Box::new(shader), angle }
}

/// Channel-wise sum of two shaders.
pub fn add(left: Shader, right: Shader) -> (s: Shader)
    requires
        left.wf(),
        right.wf(),
    ensures
        s.structure() == (ShaderModel::Add {
            left: Box::new(left.structure()),
            right: Box::new(right.structure()),
        }),
        s.state() == (ShaderState::Pair {
            left: Box::new(left.state()),
            right: Box::new(right.state()),
        }),
        s.wf(),
{
    Shader::Add { left: Box::new(left), right: Box::new(right) }
}

/// Channel-wise difference of two shaders.
pub fn subtract(left: Shader, right: Shader) -> (s: Shader)
    requires
        left.wf(),
        right.wf(),
    ensures
        s.structure() == (ShaderModel::Subtract {
            left: Box::new(left.structure()),
            right: Box::new(right.structure()),
        }),
        s.state() == (ShaderState::Pair {
            left: Box::new(left.state()),
            right: Box::new(right.state()),
        }),
        s.wf(),
{
    Shader::Subtract { left: Box::new(left), right: Box::new(right) }
}

/// Channel-wise product of two shaders.
pub fn multiply(left: Shader, right: Shader) -> (s: Shader)
    requires
        left.wf(),
        right.wf(),
    ensures
        s.structure() == (ShaderModel::Multiply {
            left: Box::new(left.structure()),
            right: Box::new(right.structure()),
        }),
        s.state() == (ShaderState::Pair {
            left: Box::new(left.state()),
            right: Box::new(right.state()),
        }),
        s.wf(),
{
    Shader::Multiply { left: Box::new(left), right: Box::new(right) }
}

/// Channel-wise quotient of two shaders. A zero channel in the divisor
/// saturates the channel by the dividend's sign.
pub fn divide(left: Shader, right: Shader) -> (s: Shader)
    requires
        left.wf(),
        right.wf(),
    ensures
        s.structure() == (ShaderModel::Divide {
            left: Box::new(left.structure()),
            right: Box::new(right.structure()),
        }),
        s.state() == (ShaderState::Pair {
            left: Box::new(left.state()),
            right: Box::new(right.state()),
        }),
        s.wf(),
{
    Shader::Divide { left: Box::new(left), right: Box::new(right) }
}

/// A full-saturation, half-lightness color whose hue follows the
/// selector, taken modulo a full circle.
pub fn rainbow(selector: Selector) -> (s: Shader)
    ensures
        s.structure() == (ShaderModel::Rainbow { selector }),
        s.state() == ShaderState::Leaf,
        s.wf(),
{
    Shader::Rainbow { selector }
}

/// A rainbow that advances with time.
pub fn time_rainbow() -> (s: Shader)
    ensures
        s.structure() == (ShaderModel::Rainbow { selector: Selector::Time }),
        s.state() == ShaderState::Leaf,
        s.wf(),
{
    Shader::Rainbow { selector: Selector::Time }
}

/// A rainbow that advances along the position.
pub fn position_rainbow() -> (s: Shader)
    ensures
        s.structure() == (ShaderModel::Rainbow { selector: Selector::PositionSum }),
        s.state() == ShaderState::Leaf,
        s.wf(),
{
    Shader::Rainbow { selector: Selector::PositionSum }
}

/// A uniformly random color on every evaluation, from the default seed.
///
/// Not a pure function of its input: the seed advances on every call, a
/// deliberate exception for noise effects.
pub fn random() -> (s: Shader)
    ensures
        s.structure() == ShaderModel::Random,
        s.state() == (ShaderState::Rng { seed: 0xdeadbeef }),
        s.wf(),
{
    Shader::Random { seed: 0xdeadbeef }
}

/// A random shader with an injected seed, for reproducible runs.
pub fn random_seeded(seed: u64) -> (s: Shader)
    ensures
        s.structure() == ShaderModel::Random,
        s.state() == (ShaderState::Rng { seed }),
        s.wf(),
{
    Shader::Random { seed }
}

/// Lifts a shader one dimension up: the added last coordinate is dropped
/// before delegating, so the pattern repeats identically along the new
/// axis.
pub fn extrude(shader: Shader) -> (s: Shader)
    requires
        shader.wf(),
    ensures
        s.structure() == (ShaderModel::Extrude { shader: Box::new(shader.structure()) }),
        s.state() == (ShaderState::Solo { child: Box::new(shader.state()) }),
        s.wf(),
{
    Shader::Extrude { shader: Box::new(shader) }
}

/// Averages a shader over a grid of `samples` positions per axis spread
/// across `[-radius, +radius]`.
///
/// The grid has `samples` to the power of the dimension points, so the
/// cost of shading grows exponentially with the dimension — a documented
/// property of volumetric blurring, not a defect.
pub fn volume_blur(shader: Shader, radius: Fixed, samples: usize) -> (s: Shader)
    requires
        shader.wf(),
        1 <= samples <= MAX_BLUR_SAMPLES,
    ensures
        s.structure() == (ShaderModel::VolumeBlur {
            shader: Box::new(shader.structure()),
            radius: radius@,
            samples: samples as nat,
        }),
        s.state() == (ShaderState::Solo { child: Box::new(shader.state()) }),
        s.wf(),
{
    Shader::VolumeBlur { shader: Box::new(shader), radius, samples }
}

/// Caches a shader's colors by spatial position.
///
/// A lookup hits when a cached position lies within `distance_threshold`
/// of the requested one by squared Euclidean distance; an absent
/// threshold admits exact repeats only. With `time_invalidates`, a call
/// whose time differs from the previous cache-affecting call clears the
/// whole cache first.
pub fn memoized(
    shader: Shader,
    distance_threshold: Option<Fixed>,
    time_invalidates: bool,
) -> (s: Shader)
    requires
        shader.wf(),
        match distance_threshold {
            Some(t) => t@ >= 0,
            None => true,
        },
    ensures
        s.structure() == (ShaderModel::Memoize {
            shader: Box::new(shader.structure()),
            threshold: match distance_threshold {
                Some(t) => Some(t@),
                None => None,
            },
            time_invalidates,
        }),
        s.state() == (ShaderState::Memo {
            child: Box::new(shader.state()),
            keys: Seq::empty(),
            colors: Seq::empty(),
            last_time: 0,
        }),
        s.wf(),
{
    let s = Shader::Memoize {
        shader: Box::new(shader),
        threshold: distance_threshold,
        time_invalidates,
        keys: Vec::new(),
        colors: Vec::new(),
        last_time: Fixed { raw: 0 },
    };
    proof {
        assert(s.state()->Memo_keys =~= Seq::<Seq<int>>::empty());
        assert(s.state()->Memo_colors =~= Seq::<crate::color::ColorModel>::empty());
    }
    s
}

impl Shader {
    /// Mixes this shader toward another by a constant factor.
    pub fn mix(self, other: Shader, factor: Fixed) -> (s: Shader)
        requires
            self.wf(),
            other.wf(),
        ensures
            s.structure() == (ShaderModel::Interpolate {
                start: Box::new(self.structure()),
                end: Box::new(other.structure()),
                interpolator: Interpolator::Constant(factor),
            }),
            s.state() == (ShaderState::Pair {
                left: Box::new(self.state()),
                right: Box::new(other.state()),
            }),
            s.wf(),
    {
        crate::primitives::mix(self, other, factor)
    }

    /// Alternates this shader with another in a checkerboard.
    pub fn checkerboard(self, other: Shader, stride: Fixed) -> (s: Shader)
        requires
            self.wf(),
            other.wf(),
            stride@ != 0,
        ensures
            s.structure() == (ShaderModel::Checkerboard {
                first: Box::new(self.structure()),
                second: Box::new(other.structure()),
                stride: stride@,
            }),
            s.state() == (ShaderState::Pair {
                left: Box::new(self.state()),
                right: Box::new(other.state()),
            }),
            s.wf(),
    {
        crate::primitives::checkerboard(self, other, stride)
    }

    /// Tiles this shader with the given spatial period.
    pub fn mod_position(self, modulo: Fixed) -> (s: Shader)
        requires
            self.wf(),
            modulo@ > 0,
        ensures
            s.structure() == (ShaderModel::ModPosition {
                shader: Box::new(self.structure()),
                modulo: modulo@,
            }),
            s.state() == (ShaderState::Solo { child: Box::new(self.state()) }),
            s.wf(),
    {
        crate::primitives::mod_position(self, modulo)
    }

    /// Loops this shader's animation with the given time period.
    pub fn mod_time(self, modulo: Fixed) -> (s: Shader)
        requires
            self.wf(),
            modulo@ > 0,
        ensures
            s.structure() == (ShaderModel::ModTime {
                shader: Box::new(self.structure()),
                modulo: modulo@,
            }),
            s.state() == (ShaderState::Solo { child: Box::new(self.state()) }),
            s.wf(),
    {
        crate::primitives::mod_time(self, modulo)
    }

    /// Rotates the hue of this shader's colors.
    pub fn rotate_hue(self, angle: Fixed) -> (s: Shader)
        requires
            self.wf(),
        ensures
            s.structure() == (ShaderModel::RotateHue {
                shader: Box::new(self.structure()),
                angle: angle@,
            }),
            s.state() == (ShaderState::Solo { child: Box::new(self.state()) }),
            s.wf(),
    {
        crate::primitives::rotate_hue(self, angle)
    }

    /// Lifts this shader one dimension up.
    pub fn extrude(self) -> (s: Shader)
        requires
            self.wf(),
        ensures
            s.structure() == (ShaderModel::Extrude { shader: Box::new(self.structure()) }),
            s.state() == (ShaderState::Solo { child: Box::new(self.state()) }),
            s.wf(),
    {
        crate::primitives::extrude(self)
    }

    /// Speeds this shader up or down.
    pub fn scale_time(self, factor: Fixed) -> (s: Shader)
        requires
            self.wf(),
        ensures
            s.structure() == (ShaderModel::ScaleTime {
                shader: Box::new(self.structure()),
                scale: factor@,
            }),
            s.state() == (ShaderState::Solo { child: Box::new(self.state()) }),
            s.wf(),
    {
        crate::primitives::scale_time(self, factor)
    }

    /// Zooms this shader.
    pub fn scale_position(self, scale: Fixed) -> (s: Shader)
        requires
            self.wf(),
        ensures
            s.structure() == (ShaderModel::ScalePosition {
                shader: Box::new(self.structure()),
                scale: scale@,
            }),
            s.state() == (ShaderState::Solo { child: Box::new(self.state()) }),
            s.wf(),
    {
        crate::primitives::scale_position(self, scale)
    }

    /// Pans this shader by an offset vector.
    pub fn translate_position(self, offset: Vec<Fixed>) -> (s: Shader)
        requires
            self.wf(),
        ensures
            s.structure() == (ShaderModel::TranslatePosition {
                shader: Box::new(self.structure()),
                offset: crate::fragment::pos_view(offset@),
            }),
            s.state() == (ShaderState::Solo { child: Box::new(self.state()) }),
            s.wf(),
    {
        crate::primitives::translate_position(self, offset)
    }

    /// Adds another shader channel-wise.
    pub fn add(self, other: Shader) -> (s: Shader)
        requires
            self.wf(),
            other.wf(),
        ensures
            s.structure() == (ShaderModel::Add {
                left: Box::new(self.structure()),
                right: Box::new(other.structure()),
            }),
            s.state() == (ShaderState::Pair {
                left: Box::new(self.state()),
                right: Box::new(other.state()),
            }),
            s.wf(),
    {
        crate::primitives::add(self, other)
    }

    /// Subtracts another shader channel-wise.
    pub fn subtract(self, other: Shader) -> (s: Shader)
        requires
            self.wf(),
            other.wf(),
        ensures
            s.structure() == (ShaderModel::Subtract {
                left: Box::new(self.structure()),
                right: Box::new(other.structure()),
            }),
            s.state() == (ShaderState::Pair {
                left: Box::new(self.state()),
                right: Box::new(other.state()),
            }),
            s.wf(),
    {
        crate::primitives::subtract(self, other)
    }

    /// Multiplies by another shader channel-wise.
    pub fn multiply(self, other: Shader) -> (s: Shader)
        requires
            self.wf(),
            other.wf(),
        ensures
            s.structure() == (ShaderModel::Multiply {
                left: Box::new(self.structure()),
                right: Box::new(other.structure()),
            }),
            s.state() == (ShaderState::Pair {
                left: Box::new(self.state()),
                right: Box::new(other.state()),
            }),
            s.wf(),
    {
        crate::primitives::multiply(self, other)
    }

    /// Divides by another shader channel-wise.
    pub fn divide(self, other: Shader) -> (s: Shader)
        requires
            self.wf(),
            other.wf(),
        ensures
            s.structure() == (ShaderModel::Divide {
                left: Box::new(self.structure()),
                right: Box::new(other.structure()),
            }),
            s.state() == (ShaderState::Pair {
                left: Box::new(self.state()),
                right: Box::new(other.state()),
            }),
            s.wf(),
    {
        crate::primitives::divide(self, other)
    }

    /// Averages this shader over a grid of nearby positions.
    pub fn volume_blur(self, radius: Fixed, num_samples: usize) -> (s: Shader)
        requires
            self.wf(),
            1 <= num_samples <= MAX_BLUR_SAMPLES,
        ensures
            s.structure() == (ShaderModel::VolumeBlur {
                shader: Box::new(self.structure()),
                radius: radius@,
                samples: num_samples as nat,
            }),
            s.state() == (ShaderState::Solo { child: Box::new(self.state()) }),
            s.wf(),
    {
        crate::primitives::volume_blur(self, radius, num_samples)
    }
}

} // verus!

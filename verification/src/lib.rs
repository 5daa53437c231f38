//! A compositional color-shader library for addressable light arrays.
//!
//! A shader is a mapping from a sample point (spatial position plus time) to
//! a color. Small shaders are combined by combinators — interpolation,
//! tiling, positional transforms, channel arithmetic, blurring, spatial
//! memoization — into complex animations. A host can install a finished
//! shader tree behind an opaque handle and drive it frame by frame, and the
//! reload protocol lets a freshly built shader replace the running one
//! without ever leaving the host shaderless.
//!
//! All coordinates, times and color channels are fixed-point numbers with a
//! millionth of a unit of resolution, so every evaluation step has an exact
//! mathematical meaning stated in the contracts.

pub mod color;
mod eval;
pub mod export;
pub mod fixed;
pub mod fragment;
pub mod hue;
pub mod laws;
pub mod point;
pub mod primitives;
pub mod reload;
pub mod shader;

pub use color::Color;
pub use export::{ShaderExport, ShaderRegistry, VisualizationExports};
pub use fixed::Fixed;
pub use fragment::{FragOne, FragThree, FragTwo, Fragment};
pub use point::{Line, Point};
pub use reload::{Config, ErrorMessageEvent, FragType, HostState, SystemFilePicker, Visualization};
pub use shader::{Interpolator, Selector, Shader};

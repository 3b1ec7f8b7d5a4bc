//! Generic numeric primitives for real-time code: ordering helpers, linear
//! interpolation, an angle value with radians-wise arithmetic, and the
//! selection of an item by a drawn position.

pub mod angle;
pub mod math;
pub mod misc;

pub use angle::Angle;
pub use math::{approach, clamp, lerp, max, min};
pub use misc::chose;

//! Mirage-tank compositing: one RGBA image that shows a first picture over a
//! white backdrop and a second picture over a black backdrop.
//!
//! All arithmetic is exact: the light and saturation factors are fixed-point
//! numbers, and every output sample is the correctly rounded value of the
//! compositing formula over the rationals.

pub mod arith;
pub mod error;
pub mod factor;
pub mod pixel;
pub mod blend;
pub mod raster;
pub mod resize;
pub mod compose;
pub mod tank;

pub use error::TankError;
pub use factor::Factor;
pub use pixel::{Rgb, Rgba};
pub use raster::{Image, ImageView, Layout};
pub use compose::Blend;
pub use tank::{can_reconcile, generate, MirageTank, Resize};

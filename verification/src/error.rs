use vstd::prelude::*;

verus! {

/// Why a compositing request was turned down.
#[derive(Clone, Copy, Debug, PartialEq, Eq, Structural)]
pub enum TankError {
    /// The two source images do not have the same width and height once the
    /// resize policy has been taken into account.
    SizeMismatch,
    /// A source image does not hold 8-bit RGB samples.
    UnsupportedFormat,
    /// A factor lies outside the range that the compositor accepts.
    InvalidParameter,
}

} // verus!

//! Immutable 24-bit RGB and 32-bit RGBA color value types with saturating,
//! normalised fixed-point, and interpolating channel arithmetic.

pub mod channel;
pub mod rgb24;
pub mod rgba32;

pub use rgb24::Rgb24;
pub use rgb24::WeightsU16;
pub use rgba32::Rgba32;

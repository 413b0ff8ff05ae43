//! Webview rectangles in Slint logical window coordinates.
//!
//! Every coordinate is carried as the IEEE-754 binary64 bit pattern of the
//! logical-pixel value, so that validity and equality are decided exactly on
//! integers: a coordinate `v: f64` is stored as `v.to_bits()`.
use vstd::prelude::*;
use vstd::std_specs::cmp::PartialEqSpecImpl;

verus! {

/// Bit pattern of the sign bit of a binary64 value.
pub const SIGN_BIT: u64 = 0x8000_0000_0000_0000u64;

/// Bit pattern of positive infinity; every larger magnitude is a NaN.
pub const POSITIVE_INFINITY_BITS: u64 = 0x7FF0_0000_0000_0000u64;

/// The magnitude part of a binary64 bit pattern (the sign bit cleared).
pub open spec fn magnitude(bits: u64) -> u64 {
    bits % SIGN_BIT
}

/// The bit pattern encodes a NaN.
pub open spec fn float_is_nan(bits: u64) -> bool {
    magnitude(bits) > POSITIVE_INFINITY_BITS
}

/// The bit pattern encodes a finite number (neither infinite nor NaN).
pub open spec fn float_is_finite(bits: u64) -> bool {
    magnitude(bits) < POSITIVE_INFINITY_BITS
}

/// The bit pattern encodes a number `v` with `v > 0.0`.
pub open spec fn float_is_positive(bits: u64) -> bool {
    0 < bits && bits <= POSITIVE_INFINITY_BITS
}

/// `a == b` on the binary64 values encoded by the two bit patterns:
/// NaN equals nothing, and `0.0 == -0.0`.
pub open spec fn float_eq(a: u64, b: u64) -> bool {
    &&& !float_is_nan(a)
    &&& !float_is_nan(b)
    &&& (a == b || (magnitude(a) == 0 && magnitude(b) == 0))
}

/// Decides `float_is_finite` on a bit pattern.
pub fn bits_are_finite(bits: u64) -> (r: bool)
    ensures
        r == float_is_finite(bits),
{
    bits % SIGN_BIT < POSITIVE_INFINITY_BITS
}

/// Decides `float_is_positive` on a bit pattern.
pub fn bits_are_positive(bits: u64) -> (r: bool)
    ensures
        r == float_is_positive(bits),
{
    0 < bits && bits <= POSITIVE_INFINITY_BITS
}

/// Decides `float_eq` on two bit patterns.
pub fn bits_float_eq(a: u64, b: u64) -> (r: bool)
    ensures
        r == float_eq(a, b),
{
    let ma = a % SIGN_BIT;
    let mb = b % SIGN_BIT;
    ma <= POSITIVE_INFINITY_BITS && mb <= POSITIVE_INFINITY_BITS && (a == b || (ma == 0 && mb == 0))
}

/// A rectangle in Slint logical window coordinates, each coordinate held as
/// the bit pattern of its binary64 value.
#[derive(Clone, Copy, Debug)]
pub struct WebViewBounds {
    /// Left coordinate in logical pixels (binary64 bits).
    pub x_bits: u64,
    /// Top coordinate in logical pixels (binary64 bits).
    pub y_bits: u64,
    /// Width in logical pixels (binary64 bits).
    pub width_bits: u64,
    /// Height in logical pixels (binary64 bits).
    pub height_bits: u64,
}

/// Default offscreen rectangle used when a native child webview is parked:
/// `(-32000.0, -32000.0, 1.0, 1.0)`.
pub open spec fn park_bounds_default() -> WebViewBounds {
    WebViewBounds {
        x_bits: 0xC0DF_4000_0000_0000u64,
        y_bits: 0xC0DF_4000_0000_0000u64,
        width_bits: 0x3FF0_0000_0000_0000u64,
        height_bits: 0x3FF0_0000_0000_0000u64,
    }
}

/// Returns the default offscreen parking rectangle.
#[verifier::when_used_as_spec(park_bounds_default)]
pub fn default_park_bounds() -> (r: WebViewBounds)
    ensures
        r == park_bounds_default(),
        r.spec_is_valid(),
{
    WebViewBounds {
        x_bits: 0xC0DF_4000_0000_0000u64,
        y_bits: 0xC0DF_4000_0000_0000u64,
        width_bits: 0x3FF0_0000_0000_0000u64,
        height_bits: 0x3FF0_0000_0000_0000u64,
    }
}

/// The default webview rectangle `(300.0, 64.0, 640.0, 480.0)`.
pub open spec fn default_bounds() -> WebViewBounds {
    WebViewBounds {
        x_bits: 0x4072_C000_0000_0000u64,
        y_bits: 0x4050_0000_0000_0000u64,
        width_bits: 0x4084_0000_0000_0000u64,
        height_bits: 0x407E_0000_0000_0000u64,
    }
}

impl WebViewBounds {
    /// Creates bounds from the binary64 bit patterns of the four coordinates.
    pub fn from_bits(x_bits: u64, y_bits: u64, width_bits: u64, height_bits: u64) -> (r: Self)
        ensures
            r == (WebViewBounds { x_bits, y_bits, width_bits, height_bits }),
    {
        WebViewBounds { x_bits, y_bits, width_bits, height_bits }
    }

    /// All coordinates are finite and width and height are positive.
    pub open spec fn spec_is_valid(self) -> bool {
        &&& float_is_finite(self.x_bits)
        &&& float_is_finite(self.y_bits)
        &&& float_is_finite(self.width_bits)
        &&& float_is_finite(self.height_bits)
        &&& float_is_positive(self.width_bits)
        &&& float_is_positive(self.height_bits)
    }

    /// Returns true when all coordinates are finite and the size is positive.
    #[verifier::when_used_as_spec(spec_is_valid)]
    pub fn is_valid(self) -> (r: bool)
        ensures
            r == self.spec_is_valid(),
    {
        bits_are_finite(self.x_bits) && bits_are_finite(self.y_bits) && bits_are_finite(
            self.width_bits,
        ) && bits_are_finite(self.height_bits) && bits_are_positive(self.width_bits)
            && bits_are_positive(self.height_bits)
    }

    /// Coordinate-wise binary64 equality of two rectangles.
    pub open spec fn same_as(self, other: WebViewBounds) -> bool {
        &&& float_eq(self.x_bits, other.x_bits)
        &&& float_eq(self.y_bits, other.y_bits)
        &&& float_eq(self.width_bits, other.width_bits)
        &&& float_eq(self.height_bits, other.height_bits)
    }
}

impl PartialEq for WebViewBounds {
    fn eq(&self, other: &Self) -> (r: bool) {
        bits_float_eq(self.x_bits, other.x_bits) && bits_float_eq(self.y_bits, other.y_bits)
            && bits_float_eq(self.width_bits, other.width_bits) && bits_float_eq(
            self.height_bits,
            other.height_bits,
        )
    }
}

impl PartialEqSpecImpl for WebViewBounds {
    open spec fn obeys_eq_spec() -> bool {
        true
    }

    open spec fn eq_spec(&self, other: &WebViewBounds) -> bool {
        self.same_as(*other)
    }
}

impl Default for WebViewBounds {
    fn default() -> (r: Self)
        ensures
            r == default_bounds(),
    {
        WebViewBounds {
            x_bits: 0x4072_C000_0000_0000u64,
            y_bits: 0x4050_0000_0000_0000u64,
            width_bits: 0x4084_0000_0000_0000u64,
            height_bits: 0x407E_0000_0000_0000u64,
        }
    }
}

} // verus!

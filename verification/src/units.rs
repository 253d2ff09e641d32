//! Lengths, sizes and colours held as the bit patterns of their IEEE-754
//! components, with the equality that the floating-point values have.

use vstd::prelude::*;

verus! {

/// Mask of the exponent bits of a binary64 value.
pub const F64_EXPONENT_MASK: u64 = 0x7FF0_0000_0000_0000;

/// Mask of the fraction bits of a binary64 value.
pub const F64_FRACTION_MASK: u64 = 0x000F_FFFF_FFFF_FFFF;

/// Mask of every bit of a binary64 value but its sign.
pub const F64_MAGNITUDE_MASK: u64 = 0x7FFF_FFFF_FFFF_FFFF;

/// Mask of the exponent bits of a binary32 value.
pub const F32_EXPONENT_MASK: u32 = 0x7F80_0000;

/// Mask of the fraction bits of a binary32 value.
pub const F32_FRACTION_MASK: u32 = 0x007F_FFFF;

/// Mask of every bit of a binary32 value but its sign.
pub const F32_MAGNITUDE_MASK: u32 = 0x7FFF_FFFF;

/// The bits of the binary64 value 100.0.
pub const HUNDRED_PX_BITS: u64 = 0x4059_0000_0000_0000;

/// The binary64 value with these bits is a NaN.
pub open spec fn f64_is_nan(bits: u64) -> bool {
    (bits & F64_EXPONENT_MASK) == F64_EXPONENT_MASK && (bits & F64_FRACTION_MASK) != 0
}

/// The binary64 value with these bits is +0.0 or -0.0.
pub open spec fn f64_is_zero(bits: u64) -> bool {
    (bits & F64_MAGNITUDE_MASK) == 0
}

/// IEEE-754 equality of two binary64 values given by their bits: no NaN equals
/// anything, the two zeros are equal, and otherwise equal values have equal bits.
pub open spec fn f64_eq(a: u64, b: u64) -> bool {
    !f64_is_nan(a) && !f64_is_nan(b) && (a == b || (f64_is_zero(a) && f64_is_zero(b)))
}

/// The binary32 value with these bits is a NaN.
pub open spec fn f32_is_nan(bits: u32) -> bool {
    (bits & F32_EXPONENT_MASK) == F32_EXPONENT_MASK && (bits & F32_FRACTION_MASK) != 0
}

/// The binary32 value with these bits is +0.0 or -0.0.
pub open spec fn f32_is_zero(bits: u32) -> bool {
    (bits & F32_MAGNITUDE_MASK) == 0
}

/// IEEE-754 equality of two binary32 values given by their bits.
pub open spec fn f32_eq(a: u32, b: u32) -> bool {
    !f32_is_nan(a) && !f32_is_nan(b) && (a == b || (f32_is_zero(a) && f32_is_zero(b)))
}

/// Computes `f64_eq`.
pub fn f64_bits_eq(a: u64, b: u64) -> (r: bool)
    ensures
        r == f64_eq(a, b),
{
    let a_nan = (a & F64_EXPONENT_MASK) == F64_EXPONENT_MASK && (a & F64_FRACTION_MASK) != 0;
    let b_nan = (b & F64_EXPONENT_MASK) == F64_EXPONENT_MASK && (b & F64_FRACTION_MASK) != 0;
    let both_zero = (a & F64_MAGNITUDE_MASK) == 0 && (b & F64_MAGNITUDE_MASK) == 0;
    !a_nan && !b_nan && (a == b || both_zero)
}

/// Computes `f32_eq`.
pub fn f32_bits_eq(a: u32, b: u32) -> (r: bool)
    ensures
        r == f32_eq(a, b),
{
    let a_nan = (a & F32_EXPONENT_MASK) == F32_EXPONENT_MASK && (a & F32_FRACTION_MASK) != 0;
    let b_nan = (b & F32_EXPONENT_MASK) == F32_EXPONENT_MASK && (b & F32_FRACTION_MASK) != 0;
    let both_zero = (a & F32_MAGNITUDE_MASK) == 0 && (b & F32_MAGNITUDE_MASK) == 0;
    !a_nan && !b_nan && (a == b || both_zero)
}

/// A length in logical pixels, a binary64 value held as its bits.
#[derive(Clone, Copy, Debug)]
pub struct Length {
    bits: u64,
}

impl View for Length {
    type V = u64;

    closed spec fn view(&self) -> u64 {
        self.bits
    }
}

impl Length {
    /// The length whose binary64 value has these bits.
    pub fn from_bits(bits: u64) -> (r: Length)
        ensures
            r@ == bits,
    {
        Length { bits }
    }

    /// The bits of this length's binary64 value.
    pub fn to_bits(&self) -> (r: u64)
        ensures
            r == self@,
    {
        self.bits
    }

    /// The length of 100 pixels.
    pub fn hundred_px() -> (r: Length)
        ensures
            r@ == HUNDRED_PX_BITS,
    {
        Length { bits: HUNDRED_PX_BITS }
    }

    /// Floating-point equality of two lengths.
    pub fn px_eq(&self, other: &Length) -> (r: bool)
        ensures
            r == f64_eq(self@, other@),
    {
        f64_bits_eq(self.bits, other.bits)
    }
}

/// A two-dimensional size: a width and a height.
#[derive(Clone, Copy, Debug)]
pub struct Size {
    /// The width.
    pub width: Length,
    /// The height.
    pub height: Length,
}

/// Floating-point equality of two sizes given by the bits of their components:
/// both widths equal and both heights equal.
pub open spec fn size_eq(a: (u64, u64), b: (u64, u64)) -> bool {
    f64_eq(a.0, b.0) && f64_eq(a.1, b.1)
}

/// No component of the size is a NaN.
pub open spec fn size_is_number(s: (u64, u64)) -> bool {
    !f64_is_nan(s.0) && !f64_is_nan(s.1)
}

impl View for Size {
    type V = (u64, u64);

    open spec fn view(&self) -> (u64, u64) {
        (self.width@, self.height@)
    }
}

impl Size {
    /// The size with this width and height.
    pub fn new(width: Length, height: Length) -> (r: Size)
        ensures
            r@ == (width@, height@),
    {
        Size { width, height }
    }

    /// The empty size: both components +0.0.
    pub fn zero() -> (r: Size)
        ensures
            r@ == (0u64, 0u64),
    {
        Size { width: Length::from_bits(0), height: Length::from_bits(0) }
    }

    /// Floating-point equality of two sizes.
    pub fn size_eq(&self, other: &Size) -> (r: bool)
        ensures
            r == size_eq(self@, other@),
    {
        self.width.px_eq(&other.width) && self.height.px_eq(&other.height)
    }
}

/// A colour given by its four binary32 components (red, green, blue, alpha),
/// each held as its bits.
#[derive(Clone, Copy, Debug)]
pub struct Color {
    /// The bits of the four components, in the order red, green, blue, alpha.
    pub components: [u32; 4],
}

/// Floating-point equality of two colours: each pair of components is equal.
pub open spec fn color_eq(a: [u32; 4], b: [u32; 4]) -> bool {
    f32_eq(a[0], b[0]) && f32_eq(a[1], b[1]) && f32_eq(a[2], b[2]) && f32_eq(a[3], b[3])
}

/// Equality of two optional colours, as `==` on `Option` compares them.
pub open spec fn opt_color_eq(a: Option<Color>, b: Option<Color>) -> bool {
    match (a, b) {
        (None, None) => true,
        (Some(x), Some(y)) => color_eq(x.components, y.components),
        _ => false,
    }
}

/// Two colours are equal exactly when each of their four components, alpha
/// included, is equal as a floating-point value; a difference in any one
/// component makes them differ.
pub proof fn lemma_color_eq_componentwise(a: [u32; 4], b: [u32; 4])
    ensures
        color_eq(a, b) <==> forall|i: int| 0 <= i < 4 ==> #[trigger] f32_eq(a[i], b[i]),
        forall|i: int| 0 <= i < 4 && !f32_eq(#[trigger] a[i], b[i]) ==> !color_eq(a, b),
{
    if forall|i: int| 0 <= i < 4 ==> #[trigger] f32_eq(a[i], b[i]) {
        assert(f32_eq(a[0], b[0]) && f32_eq(a[1], b[1]) && f32_eq(a[2], b[2]) && f32_eq(a[3], b[3]));
    }
    if color_eq(a, b) {
        assert forall|i: int| 0 <= i < 4 implies #[trigger] f32_eq(a[i], b[i]) by {
            if i == 0 {} else if i == 1 {} else if i == 2 {} else {}
        }
    }
}

impl Color {
    /// The colour whose components have these bits.
    pub fn from_component_bits(components: [u32; 4]) -> (r: Color)
        ensures
            r.components == components,
    {
        Color { components }
    }

    /// Floating-point equality of two colours.
    pub fn color_eq(&self, other: &Color) -> (r: bool)
        ensures
            r == color_eq(self.components, other.components),
    {
        f32_bits_eq(self.components[0], other.components[0])
            && f32_bits_eq(self.components[1], other.components[1])
            && f32_bits_eq(self.components[2], other.components[2])
            && f32_bits_eq(self.components[3], other.components[3])
    }
}

/// Computes `opt_color_eq`.
pub fn opt_color_eq_exec(a: &Option<Color>, b: &Option<Color>) -> (r: bool)
    ensures
        r == opt_color_eq(*a, *b),
{
    match (a, b) {
        (None, None) => true,
        (Some(x), Some(y)) => x.color_eq(y),
        _ => false,
    }
}

} // verus!

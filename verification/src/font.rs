//! Font values: sizes held by their bit pattern, and the toolkit's font
//! identity.

use vstd::prelude::*;

verus! {

/// The toolkit's font identity: family, weight, stretch and style.
#[verifier::external_type_specification]
pub struct ExFont(iced::Font);

/// The toolkit's font families.
#[verifier::external_type_specification]
pub struct ExFamily(iced::font::Family);

/// The toolkit's font weights.
#[verifier::external_type_specification]
pub struct ExWeight(iced::font::Weight);

/// The toolkit's font stretches.
#[verifier::external_type_specification]
pub struct ExStretch(iced::font::Stretch);

/// The toolkit's font styles.
#[verifier::external_type_specification]
pub struct ExStyle(iced::font::Style);

/// A single-precision number, held by its IEEE 754 binary32 bit pattern:
/// one sign bit, eight exponent bits, twenty-three fraction bits.
#[derive(Clone, Copy, Debug, PartialEq, Eq, Structural)]
pub struct Scalar {
    pub bits: u32,
}

impl Scalar {
    /// The pattern of positive infinity: sign clear, exponent all ones,
    /// fraction zero. Every larger pattern is a NaN or has the sign set.
    pub open spec fn infinity_bits() -> u32 {
        0x7F80_0000u32
    }

    /// The number is greater than zero: the pattern is not that of zero,
    /// its sign bit is clear, and it is not a NaN.
    pub open spec fn is_positive(&self) -> bool {
        0 < self.bits && self.bits <= Self::infinity_bits()
    }
}

/// A pattern is that of a number greater than zero exactly when its sign bit
/// is clear, it is not all zero, and it is not a NaN, that is, not an
/// exponent of all ones over a fraction other than zero.
pub proof fn lemma_positive_by_fields(scalar: Scalar)
    ensures
        scalar.is_positive() <==> {
            let sign = scalar.bits >> 31;
            let exponent = (scalar.bits >> 23) & 0xFF;
            let fraction = scalar.bits & 0x007F_FFFF;
            sign == 0 && scalar.bits != 0 && !(exponent == 0xFF && fraction != 0)
        },
{
    let bits = scalar.bits;
    assert((0 < bits && bits <= 0x7F80_0000u32) <==> ((bits >> 31) == 0 && bits != 0 && !(((bits
        >> 23) & 0xFF) == 0xFF && (bits & 0x007F_FFFF) != 0))) by (bit_vector);
}

/// The monospaced font of normal weight, stretch and style.
pub open spec fn monospace_font() -> iced::Font {
    iced::Font {
        family: iced::font::Family::Monospace,
        weight: iced::font::Weight::Normal,
        stretch: iced::font::Stretch::Normal,
        style: iced::font::Style::Normal,
    }
}

/// The constant `iced::Font::MONOSPACE`. The toolkit defines it as its
/// default font, which has normal weight, stretch and style, with the family
/// replaced by `Family::Monospace`; the contract says so and is not proved.
#[verifier::external_body]
pub(crate) fn monospace() -> (font: iced::Font)
    ensures
        font == monospace_font(),
{
    iced::Font::MONOSPACE
}

} // verus!

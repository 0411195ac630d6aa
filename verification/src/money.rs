//! Amounts of money, as exact decimals: an integer mantissa and the number
//! of digits after the decimal point.

use vstd::prelude::*;

verus! {

/// The largest mantissa magnitude a decimal can carry (96 bits).
pub const MAX_MANTISSA: i128 = 0xFFFF_FFFF_FFFF_FFFF_FFFF_FFFF;

/// The largest number of digits after the decimal point.
pub const MAX_SCALE: u32 = 28;

/// Whether `mantissa` and `scale` describe a decimal that can be represented.
pub open spec fn valid_decimal(mantissa: int, scale: int) -> bool {
    &&& 0 <= scale <= MAX_SCALE
    &&& -MAX_MANTISSA <= mantissa <= MAX_MANTISSA
}

/// How `rust_decimal::Decimal` prints the decimal `mantissa * 10^-scale`
/// (with exactly `scale` digits after the point).
pub uninterp spec fn decimal_display(mantissa: int, scale: nat) -> Seq<char>;

/// An exact decimal amount, such as a ride's contribution per passenger.
#[derive(Clone, Copy, Debug)]
pub struct Cost {
    mantissa: i128,
    scale: u32,
}

impl Cost {
    #[verifier::type_invariant]
    spec fn well_formed(self) -> bool {
        valid_decimal(self.mantissa as int, self.scale as int)
    }

    /// The mantissa of the amount.
    pub closed spec fn mantissa_value(self) -> int {
        self.mantissa as int
    }

    /// The number of digits after the decimal point.
    pub closed spec fn scale_value(self) -> nat {
        self.scale as nat
    }

    /// The amount's printed text.
    pub open spec fn display(self) -> Seq<char> {
        decimal_display(self.mantissa_value(), self.scale_value())
    }

    /// The amount `mantissa * 10^-scale`, or `None` where a decimal cannot hold it.
    pub fn new(mantissa: i128, scale: u32) -> (r: Option<Cost>)
        ensures
            r is Some <==> valid_decimal(mantissa as int, scale as int),
            r matches Some(c) ==> c.mantissa_value() == mantissa && c.scale_value() == scale,
    {
        if scale <= MAX_SCALE && -MAX_MANTISSA <= mantissa && mantissa <= MAX_MANTISSA {
            Some(Cost { mantissa, scale })
        } else {
            None
        }
    }

    /// The mantissa of the amount.
    pub fn mantissa(&self) -> (r: i128)
        ensures
            r == self.mantissa_value(),
    {
        self.mantissa
    }

    /// The number of digits after the decimal point.
    pub fn scale(&self) -> (r: u32)
        ensures
            r == self.scale_value(),
    {
        self.scale
    }

    /// The amount printed as a decimal number.
    pub fn to_text(&self) -> (s: String)
        ensures
            s@ == self.display(),
    {
        proof {
            use_type_invariant(self);
        }
        decimal_to_string(self.mantissa, self.scale)
    }
}

/// Prints a decimal through `rust_decimal::Decimal::from_i128_with_scale` and
/// `to_string`. The text is named by `decimal_display`; the crate panics out of
/// the representable range, which `requires` leaves out.
#[verifier::external_body]
fn decimal_to_string(mantissa: i128, scale: u32) -> (s: String)
    requires
        valid_decimal(mantissa as int, scale as int),
    ensures
        s@ == decimal_display(mantissa as int, scale as nat),
{
    rust_decimal::Decimal::from_i128_with_scale(mantissa, scale).to_string()
}

} // verus!

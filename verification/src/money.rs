//! Amounts of money in some currency, and how they are written.
use vstd::prelude::*;

use crate::text::{nat_digits, repeat_seq};

verus! {

/// The largest magnitude of a decimal's digits, 2^96 - 1.
pub const MAX_MANTISSA: i128 = 0xFFFF_FFFF_FFFF_FFFF_FFFF_FFFF;

/// The most decimal places a decimal can have.
pub const MAX_DECIMAL_PLACES: u32 = 28;

/// The digits `rust_decimal` writes for the magnitude `n`: none at all for zero.
pub open spec fn magnitude_digits(n: nat) -> Seq<char> {
    if n == 0 {
        Seq::empty()
    } else {
        nat_digits(n)
    }
}

/// `s`, preceded by zeros up to `width` characters where it is shorter.
pub open spec fn zero_padded(s: Seq<char>, width: nat) -> Seq<char> {
    if s.len() < width {
        repeat_seq(seq!['0'], (width - s.len()) as nat) + s
    } else {
        s
    }
}

/// What `rust_decimal::Decimal`'s `Display` writes for the number `mantissa` × 10^-`scale`: a
/// minus sign for a negative number, then the digits of the magnitude, with `scale` of them
/// (padded with zeros in front) after a decimal point, and a zero before the point where no
/// digit is left for it; a lone zero for zero without decimal places. So 2000 with scale 2 is
/// `20.00`, 5 with scale 3 is `0.005`, and -5 with scale 1 is `-0.5`.
pub open spec fn decimal_text(mantissa: i128, scale: u32) -> Seq<char> {
    let magnitude: nat = if mantissa < 0 { (-mantissa) as nat } else { mantissa as nat };
    let sign = if mantissa < 0 { "-"@ } else { Seq::<char>::empty() };
    let digits = zero_padded(magnitude_digits(magnitude), scale as nat);
    let whole = digits.len() - scale;
    sign + if scale == 0 {
        if magnitude == 0 { "0"@ } else { digits }
    } else {
        (if whole == 0 { "0"@ } else { digits.take(whole) }) + "."@ + digits.skip(whole)
    }
}

/// Writes `Decimal::from_i128_with_scale(mantissa, scale)` with its `Display`, which
/// `decimal_text` states as rust_decimal's `to_str_internal` builds it (without a precision) and
/// `pad_integral` signs it. `from_i128_with_scale` panics outside the range that `requires`
/// states.
#[verifier::external_body]
fn decimal_display(mantissa: i128, scale: u32) -> (res: String)
    requires
        scale <= MAX_DECIMAL_PLACES,
        -MAX_MANTISSA <= mantissa <= MAX_MANTISSA,
    ensures
        res@ == decimal_text(mantissa, scale),
{
    money2::Decimal::from_i128_with_scale(mantissa, scale).to_string()
}

/// An amount of money: `amount` × 10^-`decimal_places` of the currency whose code (such as
/// `USD`) is `currency`.
#[derive(Debug)]
pub struct Money {
    amount: i128,
    decimal_places: u32,
    currency: String,
}

/// A sum of money written out: the amount, a space, the currency's code (as money2's
/// `Display` writes it).
pub open spec fn money_text(m: Money) -> Seq<char> {
    decimal_text(m.spec_amount(), m.spec_decimal_places()) + " "@ + m.spec_currency()
}

impl Money {
    #[verifier::type_invariant]
    spec fn inv(self) -> bool {
        self.decimal_places <= MAX_DECIMAL_PLACES && -MAX_MANTISSA <= self.amount <= MAX_MANTISSA
    }

    /// The digits of the amount.
    pub closed spec fn spec_amount(self) -> i128 {
        self.amount
    }

    /// How many of the digits come after the decimal point.
    pub closed spec fn spec_decimal_places(self) -> u32 {
        self.decimal_places
    }

    /// The code of the currency.
    pub closed spec fn spec_currency(self) -> Seq<char> {
        self.currency@
    }

    /// `amount` × 10^-`decimal_places` of `currency`, as `money2::Money::new` makes it; that
    /// panics when `decimal_places` is over 28, which `requires` leaves out.
    pub fn new(amount: i64, decimal_places: u32, currency: String) -> (res: Money)
        requires
            decimal_places <= MAX_DECIMAL_PLACES,
        ensures
            res.spec_amount() == amount as i128,
            res.spec_decimal_places() == decimal_places,
            res.spec_currency() == currency@,
    {
        Money { amount: amount as i128, decimal_places, currency }
    }

    /// `amount` × 10^-`decimal_places` of `currency`, or `None` where no decimal holds it.
    pub fn from_parts(amount: i128, decimal_places: u32, currency: String) -> (res: Option<Money>)
        ensures
            res is Some <==> (decimal_places <= MAX_DECIMAL_PLACES && -MAX_MANTISSA <= amount
                <= MAX_MANTISSA),
            res matches Some(m) ==> m.spec_amount() == amount && m.spec_decimal_places()
                == decimal_places && m.spec_currency() == currency@,
    {
        if decimal_places <= MAX_DECIMAL_PLACES && -MAX_MANTISSA <= amount && amount <= MAX_MANTISSA {
            Some(Money { amount, decimal_places, currency })
        } else {
            None
        }
    }

    /// The digits of the amount.
    pub fn amount(&self) -> (res: i128)
        ensures
            res == self.spec_amount(),
    {
        self.amount
    }

    /// How many of the digits come after the decimal point.
    pub fn decimal_places(&self) -> (res: u32)
        ensures
            res == self.spec_decimal_places(),
    {
        self.decimal_places
    }

    /// The code of the currency.
    pub fn currency(&self) -> (res: &String)
        ensures
            res@ == self.spec_currency(),
    {
        &self.currency
    }

    /// This sum written out, as money2's `Display` does.
    pub fn display(&self) -> (res: String)
        ensures
            res@ == money_text(*self),
    {
        proof {
            use_type_invariant(self);
        }
        let mut res = decimal_display(self.amount, self.decimal_places);
        res.append(" ");
        res.append(self.currency.as_str());
        res
    }
}

} // verus!

//! Decimal numbers of any size and precision, kept as the text that writes them.

use vstd::prelude::*;
use bigdecimal::BigDecimal;
use std::str::FromStr;

verus! {

/// What a decimal is made of: the digits of an integer, with a minus sign in
/// front if it is negative, and the number of those digits that stand behind
/// the decimal point. A negative scale puts that many zeros behind the digits.
pub ghost struct DecimalParts {
    pub unscaled: Seq<char>,
    pub scale: i64,
}

/// What `BigDecimal::from_str` reads from a text: the unscaled integer, as
/// `BigInt` displays it, and the scale; or `None` where it reports an error.
pub uninterp spec fn decimal_parse(text: Seq<char>) -> Option<DecimalParts>;

/// True for the texts that write a decimal.
pub open spec fn is_decimal(text: Seq<char>) -> bool {
    decimal_parse(text) is Some
}

/// Calls `BigDecimal::from_str` and takes the result apart with
/// `into_bigint_and_exponent`. The contract claims only that the outcome is
/// the one that the parser has for this text.
#[verifier::external_body]
fn read_decimal(text: &str) -> (parts: Option<(String, i64)>)
    ensures
        parts matches Some(p) ==> decimal_parse(text@) == Some(
            DecimalParts { unscaled: p.0@, scale: p.1 },
        ),
        parts is None ==> decimal_parse(text@) is None,
{
    match BigDecimal::from_str(text) {
        Ok(decimal) => {
            let (unscaled, scale) = decimal.into_bigint_and_exponent();
            Some((unscaled.to_string(), scale))
        },
        Err(_) => None,
    }
}

/// A decimal number: a text that writes one, together with what it writes.
///
/// The text is kept as it was given, so that writing the number out again
/// changes nothing about it.
#[derive(Debug)]
pub struct Decimal {
    text: String,
    unscaled: String,
    scale: i64,
}

impl View for Decimal {
    type V = Seq<char>;

    closed spec fn view(&self) -> Seq<char> {
        self.text@
    }
}

impl DeepView for Decimal {
    type V = Seq<char>;

    open spec fn deep_view(&self) -> Seq<char> {
        self@
    }
}

impl Decimal {
    #[verifier::type_invariant]
    spec fn well_formed(self) -> bool {
        decimal_parse(self.text@) == Some(
            DecimalParts { unscaled: self.unscaled@, scale: self.scale },
        )
    }

    /// Reads a decimal from the text that writes it.
    pub fn parse(text: &str) -> (found: Option<Decimal>)
        ensures
            found is Some <==> is_decimal(text@),
            found matches Some(decimal) ==> decimal@ == text@,
    {
        match read_decimal(text) {
            Some(parts) => Some(Decimal { text: text.to_owned(), unscaled: parts.0, scale: parts.1 }),
            None => None,
        }
    }

    /// The text that writes the number.
    pub fn as_str(&self) -> (text: &str)
        ensures
            text@ == self@,
            is_decimal(self@),
    {
        proof {
            use_type_invariant(self);
        }
        self.text.as_str()
    }

    /// The digits of the unscaled integer, behind a minus sign if it is negative.
    pub fn unscaled(&self) -> (digits: &str)
        ensures
            decimal_parse(self@) matches Some(parts) && digits@ == parts.unscaled,
    {
        proof {
            use_type_invariant(self);
        }
        self.unscaled.as_str()
    }

    /// The number of digits behind the decimal point.
    pub fn scale(&self) -> (scale: i64)
        ensures
            decimal_parse(self@) matches Some(parts) && scale == parts.scale,
    {
        proof {
            use_type_invariant(self);
        }
        self.scale
    }
}

impl Clone for Decimal {
    fn clone(&self) -> (same: Decimal)
        ensures
            same@ == self@,
    {
        proof {
            use_type_invariant(self);
        }
        Decimal { text: self.text.clone(), unscaled: self.unscaled.clone(), scale: self.scale }
    }
}

} // verus!

use vstd::prelude::*;
use crate::decimal::{i64_to_decimal, signed_decimal};

verus! {

/// Smallest amount, in hundredths of the currency unit.
pub const MIN_AMOUNT: i64 = 0;

/// Largest amount, in hundredths of the currency unit (one million units).
pub const MAX_AMOUNT: i64 = 100_000_000;

/// Why a value could not become an [`Amount`]; each variant carries the value.
#[derive(Debug, Clone, Copy, PartialEq, Eq, Structural)]
pub enum AmountError {
    MinValue(i64),
    MaxValue(i64),
}

/// The message that describes an amount error.
pub open spec fn amount_error_message(e: AmountError) -> Seq<char> {
    match e {
        AmountError::MinValue(v) => "invalid amount value: "@ + signed_decimal(v as int)
            + ", must be greater than the minimum value "@ + signed_decimal(MIN_AMOUNT as int),
        AmountError::MaxValue(v) => "invalid amount value: "@ + signed_decimal(v as int)
            + ", must be less than the maximum value "@ + signed_decimal(MAX_AMOUNT as int),
    }
}

impl AmountError {
    /// Describes the error, naming the value and the bound it broke.
    pub fn to_string(&self) -> (r: String)
        ensures
            r@ == amount_error_message(*self),
    {
        let (value, text, bound) = match self {
            AmountError::MinValue(v) => (*v, ", must be greater than the minimum value ", MIN_AMOUNT),
            AmountError::MaxValue(v) => (*v, ", must be less than the maximum value ", MAX_AMOUNT),
        };
        let mut message = "invalid amount value: ".to_owned();
        let value_text = i64_to_decimal(value);
        message.append(value_text.as_str());
        message.append(text);
        let bound_text = i64_to_decimal(bound);
        message.append(bound_text.as_str());
        message
    }
}

/// A monetary amount in hundredths of the currency unit, always within
/// `[MIN_AMOUNT, MAX_AMOUNT]`.
#[derive(Debug, Clone, Copy, PartialEq, Eq, Structural)]
pub struct Amount {
    hundredths: i64,
}

/// What constructing an amount from `value` gives.
pub open spec fn amount_result(value: int) -> Result<int, AmountError> {
    if value < MIN_AMOUNT {
        Err(AmountError::MinValue(value as i64))
    } else if value > MAX_AMOUNT {
        Err(AmountError::MaxValue(value as i64))
    } else {
        Ok(value)
    }
}

/// The values in hundredths that a fallible amount operation gives.
pub open spec fn result_view(r: Result<Amount, AmountError>) -> Result<int, AmountError> {
    match r {
        Ok(a) => Ok(a@),
        Err(e) => Err(e),
    }
}

impl View for Amount {
    type V = int;

    closed spec fn view(&self) -> int {
        self.hundredths as int
    }
}

/// Two amounts with the same value are the same amount.
pub proof fn lemma_view_injective(a: Amount, b: Amount)
    requires
        a@ == b@,
    ensures
        a == b,
{
}

impl Amount {
    /// What every amount satisfies; `value` shows it of a given one.
    pub open spec fn in_bounds(&self) -> bool {
        MIN_AMOUNT <= self@ <= MAX_AMOUNT
    }

    #[verifier::type_invariant]
    spec fn in_range(&self) -> bool {
        MIN_AMOUNT <= self.hundredths <= MAX_AMOUNT
    }

    /// The value in hundredths; it always lies within the bounds.
    pub fn value(&self) -> (r: i64)
        ensures
            r == self@,
            MIN_AMOUNT <= r <= MAX_AMOUNT,
    {
        proof {
            use_type_invariant(self);
        }
        self.hundredths
    }

    pub fn new(value: i64) -> (r: Result<Amount, AmountError>)
        ensures
            result_view(r) == amount_result(value as int),
    {
        if value < MIN_AMOUNT {
            Err(AmountError::MinValue(value))
        } else if value > MAX_AMOUNT {
            Err(AmountError::MaxValue(value))
        } else {
            Ok(Amount { hundredths: value })
        }
    }

    /// The amount of zero.
    pub fn zero() -> (r: Amount)
        ensures
            r@ == 0,
    {
        Amount { hundredths: 0 }
    }

    /// The sum, re-checked against the bounds.
    pub fn checked_add(&self, other: &Amount) -> (r: Result<Amount, AmountError>)
        ensures
            result_view(r) == amount_result(self@ + other@),
            r is Ok <==> self@ + other@ <= MAX_AMOUNT,
    {
        let a = self.value();
        let b = other.value();
        Amount::new(a + b)
    }

    /// The difference, re-checked against the bounds.
    pub fn checked_sub(&self, other: &Amount) -> (r: Result<Amount, AmountError>)
        ensures
            result_view(r) == amount_result(self@ - other@),
            r is Ok <==> other@ <= self@,
    {
        let a = self.value();
        let b = other.value();
        Amount::new(a - b)
    }
}

} // verus!

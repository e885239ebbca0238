use vstd::prelude::*;

verus! {

/// The currencies an account or a transaction can be held in.
#[derive(Debug, Clone, Copy, PartialEq, Eq, Structural)]
pub enum Currency {
    RWF,
    USD,
}

/// Why a text could not be read as a currency.
#[derive(Debug, Clone, Copy, PartialEq, Eq, Structural)]
pub enum CurrencyParseError {
    InvalidCurrencyString,
    InvalidCurrencyValue,
}

/// The currency used where none is given.
pub const DEFAULT_CURRENCY: Currency = Currency::RWF;

/// The code that names a currency.
pub open spec fn currency_code(c: Currency) -> Seq<char> {
    match c {
        Currency::RWF => "RWF"@,
        Currency::USD => "USD"@,
    }
}

/// The currency that a code names, if any.
pub open spec fn currency_of_code(s: Seq<char>) -> Result<Currency, CurrencyParseError> {
    if s == "RWF"@ {
        Ok(Currency::RWF)
    } else if s == "USD"@ {
        Ok(Currency::USD)
    } else {
        Err(CurrencyParseError::InvalidCurrencyString)
    }
}

impl Currency {
    pub fn to_string(&self) -> (r: String)
        ensures
            r@ == currency_code(*self),
    {
        match self {
            Currency::RWF => "RWF".to_owned(),
            Currency::USD => "USD".to_owned(),
        }
    }
}

/// Reads a currency code.
pub fn deserialize_currency(currency: &str) -> (r: Result<Currency, CurrencyParseError>)
    ensures
        r == currency_of_code(currency@),
{
    let code = currency.to_owned();
    if code == "RWF".to_owned() {
        Ok(Currency::RWF)
    } else if code == "USD".to_owned() {
        Ok(Currency::USD)
    } else {
        Err(CurrencyParseError::InvalidCurrencyString)
    }
}

impl<'a> TryFrom<&'a str> for Currency {
    type Error = CurrencyParseError;

    fn try_from(currency: &'a str) -> (r: Result<Self, CurrencyParseError>)
        ensures
            r == currency_of_code(currency@),
    {
        deserialize_currency(currency)
    }
}

impl TryFrom<String> for Currency {
    type Error = CurrencyParseError;

    fn try_from(currency: String) -> (r: Result<Self, CurrencyParseError>)
        ensures
            r == currency_of_code(currency@),
    {
        deserialize_currency(currency.as_str())
    }
}

impl<'a> vstd::std_specs::convert::TryFromSpecImpl<&'a str> for Currency {
    open spec fn obeys_try_from_spec() -> bool {
        true
    }

    open spec fn try_from_spec(v: &'a str) -> Result<Currency, CurrencyParseError> {
        currency_of_code(v@)
    }
}

impl vstd::std_specs::convert::TryFromSpecImpl<String> for Currency {
    open spec fn obeys_try_from_spec() -> bool {
        true
    }

    open spec fn try_from_spec(v: String) -> Result<Currency, CurrencyParseError> {
        currency_of_code(v@)
    }
}

} // verus!

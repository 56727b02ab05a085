use vstd::prelude::*;

verus! {

/// A currency supported by the payment processor, identified by its
/// three-letter uppercase code.
#[derive(Clone, Copy, Debug, PartialEq, Eq, Structural)]
pub enum Currency {
    NOK,
    SEK,
    DKK,
    ISK,
    GBP,
    EUR,
}

impl Currency {
    /// The three-letter code of this currency, as it appears on the wire.
    pub open spec fn spec_code(self) -> Seq<char> {
        match self {
            Currency::NOK => "NOK"@,
            Currency::SEK => "SEK"@,
            Currency::DKK => "DKK"@,
            Currency::ISK => "ISK"@,
            Currency::GBP => "GBP"@,
            Currency::EUR => "EUR"@,
        }
    }

    /// The number of decimal places of the currency's minor unit
    /// (2 for a currency whose minor unit is a hundredth, 0 for one
    /// without a sub-unit).
    pub open spec fn spec_minor_unit_exponent(self) -> u32 {
        match self {
            Currency::ISK => 0u32,
            _ => 2u32,
        }
    }

    /// The currency named by a three-letter code, if the code is recognized.
    pub open spec fn spec_from_code(s: Seq<char>) -> Option<Currency> {
        if s == "NOK"@ {
            Some(Currency::NOK)
        } else if s == "SEK"@ {
            Some(Currency::SEK)
        } else if s == "DKK"@ {
            Some(Currency::DKK)
        } else if s == "ISK"@ {
            Some(Currency::ISK)
        } else if s == "GBP"@ {
            Some(Currency::GBP)
        } else if s == "EUR"@ {
            Some(Currency::EUR)
        } else {
            None
        }
    }

    /// Parse a currency from its three-letter uppercase code; any other
    /// string is rejected.
    pub fn try_from(g: &str) -> (r: Result<Currency, ()>)
        ensures
            match r {
                Ok(c) => Self::spec_from_code(g@) == Some(c),
                Err(()) => Self::spec_from_code(g@) is None,
            },
    {
        let code = String::from_str(g);
        if code.eq(&String::from_str("NOK")) {
            Ok(Currency::NOK)
        } else if code.eq(&String::from_str("SEK")) {
            Ok(Currency::SEK)
        } else if code.eq(&String::from_str("DKK")) {
            Ok(Currency::DKK)
        } else if code.eq(&String::from_str("ISK")) {
            Ok(Currency::ISK)
        } else if code.eq(&String::from_str("GBP")) {
            Ok(Currency::GBP)
        } else if code.eq(&String::from_str("EUR")) {
            Ok(Currency::EUR)
        } else {
            Err(())
        }
    }

    /// The wire code of this currency, e.g. for building request bodies.
    pub fn code(&self) -> (r: &'static str)
        ensures
            r@ == self.spec_code(),
    {
        match self {
            Currency::NOK => "NOK",
            Currency::SEK => "SEK",
            Currency::DKK => "DKK",
            Currency::ISK => "ISK",
            Currency::GBP => "GBP",
            Currency::EUR => "EUR",
        }
    }

    /// The exponent used to convert a major-unit amount of this currency
    /// into minor units.
    pub fn minor_unit_exponent(&self) -> (r: u32)
        ensures
            r == self.spec_minor_unit_exponent(),
    {
        match self {
            Currency::ISK => 0,
            _ => 2,
        }
    }
}

} // verus!

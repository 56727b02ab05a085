use vstd::prelude::*;

mod action;
mod amount;
mod browser_info;
mod card_on_file;
mod currency;
mod error;
mod http;
mod json;
mod payment;
mod payment_methods;
pub mod webhook;

pub use action::Action;
pub use action::Scheme;
pub use action::SchemeRedirectData;
pub use amount::Amount;
pub use browser_info::BrowserInfo;
pub use card_on_file::CardOnFile;
pub use currency::Currency;
pub use error::ApiError;
pub use error::ApiErrorV;
pub use error::DecodeError;
pub use error::DecodeErrorV;
pub use error::Error;
pub use error::ErrorV;
pub use http::decode_http_response;
pub use json::obj_get;
pub use json::parse_json;
pub use json::Json;
pub use json::JsonV;
pub use payment::AdditionalData;
pub use payment::RefusalReason;
pub use payment::Response;
pub use payment_methods::applepay_merchant_id;
pub use payment_methods::first_applepay_from;
pub use payment_methods::methods_view;
pub use webhook::Webhook;

verus! {

/// 10 raised to the `e`th power.
pub open spec fn pow10(e: nat) -> nat
    decreases e,
{
    if e == 0 {
        1
    } else {
        10 * pow10((e - 1) as nat)
    }
}

pub(crate) proof fn lemma_pow10_pos(e: nat)
    ensures
        pow10(e) >= 1,
    decreases e,
{
    if e > 0 {
        lemma_pow10_pos((e - 1) as nat);
    }
}

pub(crate) proof fn lemma_pow10_increases(a: nat, b: nat)
    requires
        a <= b,
    ensures
        pow10(a) <= pow10(b),
    decreases b,
{
    if a < b {
        lemma_pow10_increases(a, (b - 1) as nat);
        lemma_pow10_pos((b - 1) as nat);
    }
}

/// An exact decimal number: `mantissa / 10^scale`, negated when
/// `negative` is set. The mantissa fits in 96 bits and the scale is at
/// most 28, the precision of the processor's decimal amounts.
#[derive(Clone, Copy, Debug, PartialEq, Eq, Structural)]
pub struct Decimal {
    pub negative: bool,
    pub mantissa: u128,
    pub scale: u32,
}

impl Decimal {
    /// The mantissa fits in 96 bits and the scale in 28 decimal places.
    pub open spec fn wf(self) -> bool {
        self.mantissa < 79228162514264337593543950336 && self.scale <= 28
    }

    /// Build a decimal from its parts, rejecting a mantissa of 96 bits
    /// or more and a scale beyond 28 places.
    pub fn new(negative: bool, mantissa: u128, scale: u32) -> (r: Result<Decimal, Error>)
        ensures
            match r {
                Ok(d) => d == (Decimal { negative, mantissa, scale }) && d.wf(),
                Err(e) => !(Decimal { negative, mantissa, scale }).wf() && e.deep_view()
                    == ErrorV::ConversionError("mantissa or scale out of range"@),
            },
    {
        if mantissa < 79228162514264337593543950336u128 && scale <= 28 {
            Ok(Decimal { negative, mantissa, scale })
        } else {
            Err(Error::ConversionError(String::from_str("mantissa or scale out of range")))
        }
    }

    /// This decimal written out: a minus sign when negative, the whole
    /// part, and exactly `scale` fraction digits after a point when the
    /// scale is positive.
    pub open spec fn spec_text(self) -> Seq<char> {
        let sign = if self.negative {
            "-"@
        } else {
            Seq::<char>::empty()
        };
        let whole = spec_digits((self.mantissa as nat) / pow10(self.scale as nat));
        if self.scale == 0 {
            sign + whole
        } else {
            sign + whole + "."@ + spec_padded_digits(
                (self.mantissa as nat) % pow10(self.scale as nat),
                self.scale as nat,
            )
        }
    }

    /// Write this decimal out, for diagnostics.
    pub fn to_text(&self) -> (r: String)
        requires
            self.wf(),
        ensures
            r@ == self.spec_text(),
    {
        proof {
            lemma_pow10_pos(self.scale as nat);
        }
        let divisor = pow10_u128(self.scale);
        let mut out = if self.negative {
            String::from_str("-")
        } else {
            String::new()
        };
        let whole = u128_digits(self.mantissa / divisor);
        out.append(whole.as_str());
        if self.scale > 0 {
            out.append(".");
            let frac = u128_padded_digits(self.mantissa % divisor, self.scale);
            out.append(frac.as_str());
        }
        out
    }
}

/// The message of a failed conversion, carrying the offending decimal.
pub open spec fn spec_conversion_failure_text(d: Decimal) -> Seq<char> {
    "could not convert "@ + d.spec_text() + " to u64"@
}

/// The decimal digits of `n`, most significant first, no leading zeros
/// (a single zero for zero).
pub open spec fn spec_digits(n: nat) -> Seq<char>
    decreases n,
{
    if n < 10 {
        seq![spec_digit_char(n)]
    } else {
        spec_digits(n / 10) + seq![spec_digit_char(n % 10)]
    }
}

/// The character of one decimal digit.
pub open spec fn spec_digit_char(d: nat) -> char {
    ((d + 48) as u8) as char
}

/// Exactly `count` decimal digits of `n`, most significant first, padded
/// with leading zeros.
pub open spec fn spec_padded_digits(n: nat, count: nat) -> Seq<char>
    decreases count,
{
    if count == 0 {
        Seq::empty()
    } else {
        spec_padded_digits(n / 10, (count - 1) as nat) + seq![spec_digit_char(n % 10)]
    }
}

fn digit_str(d: u128) -> (r: &'static str)
    requires
        d < 10,
    ensures
        r@ == seq![spec_digit_char(d as nat)],
{
    proof {
        reveal_strlit("0");
        reveal_strlit("1");
        reveal_strlit("2");
        reveal_strlit("3");
        reveal_strlit("4");
        reveal_strlit("5");
        reveal_strlit("6");
        reveal_strlit("7");
        reveal_strlit("8");
        reveal_strlit("9");
    }
    match d {
        0 => "0",
        1 => "1",
        2 => "2",
        3 => "3",
        4 => "4",
        5 => "5",
        6 => "6",
        7 => "7",
        8 => "8",
        _ => "9",
    }
}

fn u128_digits(n: u128) -> (r: String)
    ensures
        r@ == spec_digits(n as nat),
    decreases n,
{
    if n < 10 {
        String::from_str(digit_str(n))
    } else {
        proof {
            assert(n / 10 < n) by (nonlinear_arith)
                requires
                    n >= 10,
            ;
        }
        let mut s = u128_digits(n / 10);
        s.append(digit_str(n % 10));
        s
    }
}

fn u128_padded_digits(n: u128, count: u32) -> (r: String)
    ensures
        r@ == spec_padded_digits(n as nat, count as nat),
    decreases count,
{
    if count == 0 {
        let s = String::new();
        proof {
            assert(s@ =~= Seq::<char>::empty());
        }
        s
    } else {
        let mut s = u128_padded_digits(n / 10, count - 1);
        s.append(digit_str(n % 10));
        s
    }
}

/// The minor-unit value of the decimal `d` in currency `c`: `d` scaled by
/// the currency's exponent, truncated toward zero. `None` when `d` is
/// strictly negative or the scaled value does not fit in 64 bits. A
/// zero with the sign flag set is still zero, not a negative amount.
pub open spec fn spec_minor_units(d: Decimal, c: Currency) -> Option<u64> {
    if d.negative && d.mantissa > 0 {
        None
    } else {
        let scaled = (d.mantissa * pow10(c.spec_minor_unit_exponent() as nat)) as int / (pow10(
            d.scale as nat,
        ) as int);
        if scaled > u64::MAX {
            None
        } else {
            Some(scaled as u64)
        }
    }
}

proof fn lemma_pow10_28()
    ensures
        pow10(28) == 10000000000000000000000000000,
{
    reveal_with_fuel(pow10, 29);
}

pub(crate) proof fn lemma_pow10_20()
    ensures
        pow10(20) == 100000000000000000000,
{
    reveal_with_fuel(pow10, 21);
}

fn pow10_u128(e: u32) -> (r: u128)
    requires
        e <= 28,
    ensures
        r == pow10(e as nat),
{
    proof {
        lemma_pow10_28();
    }
    let mut r: u128 = 1;
    let mut i: u32 = 0;
    while i < e
        invariant
            i <= e,
            e <= 28,
            r == pow10(i as nat),
            pow10(28) == 10000000000000000000000000000,
        decreases e - i,
    {
        proof {
            lemma_pow10_increases((i + 1) as nat, 28);
        }
        r = r * 10;
        i = i + 1;
    }
    r
}

/// Convert a major-unit decimal amount into the integer count of the
/// currency's minor units, exactly: the amount is scaled by the
/// currency's exponent in integer arithmetic and truncated toward zero.
/// A strictly negative amount (a sign-flagged zero is zero), and one
/// whose minor-unit value does not fit in an unsigned 64-bit integer,
/// is a `ConversionError`. The truncation happens before the 64-bit
/// check: a scaled value strictly between `u64::MAX` and `u64::MAX + 1`
/// still converts, to `u64::MAX`.
pub fn convert_decimal_into_minor_units(amount: &Decimal, currency: &Currency) -> (r: Result<
    u64,
    Error,
>)
    requires
        amount.wf(),
    ensures
        match r {
            Ok(v) => spec_minor_units(*amount, *currency) == Some(v),
            Err(e) => spec_minor_units(*amount, *currency) is None && e.deep_view()
                == ErrorV::ConversionError(spec_conversion_failure_text(*amount)),
        },
{
    let exp = currency.minor_unit_exponent();
    let mult = pow10_u128(exp);
    proof {
        lemma_pow10_increases(exp as nat, 2);
        assert(pow10(2) == 100) by {
            reveal_with_fuel(pow10, 3);
        }
        vstd::arithmetic::mul::lemma_mul_upper_bound(
            amount.mantissa as int,
            79228162514264337593543950335,
            mult as int,
            100,
        );
    }
    let product = amount.mantissa * mult;
    let divisor = pow10_u128(amount.scale);
    proof {
        lemma_pow10_pos(amount.scale as nat);
    }
    let q = product / divisor;
    if amount.negative && amount.mantissa > 0 {
        Err(Error::ConversionError(conversion_failure_text(amount)))
    } else if q > u64::MAX as u128 {
        Err(Error::ConversionError(conversion_failure_text(amount)))
    } else {
        Ok(q as u64)
    }
}

fn conversion_failure_text(d: &Decimal) -> (r: String)
    requires
        d.wf(),
    ensures
        r@ == spec_conversion_failure_text(*d),
{
    let mut msg = String::from_str("could not convert ");
    let text = d.to_text();
    msg.append(text.as_str());
    msg.append(" to u64");
    msg
}

/// An integral number `m` of minor units, written as the decimal
/// `m / 10^e` with the currency's own exponent `e`, converts back to
/// exactly `m`: building an amount from whole minor units loses nothing.
pub proof fn lemma_minor_units_round_trip(m: u64, c: Currency)
    ensures
        spec_minor_units(
            Decimal { negative: false, mantissa: m as u128, scale: c.spec_minor_unit_exponent() },
            c,
        ) == Some(m),
{
    let e = c.spec_minor_unit_exponent() as nat;
    lemma_pow10_pos(e);
    vstd::arithmetic::div_mod::lemma_div_by_multiple(m as int, pow10(e) as int);
}

/// A strictly negative amount has no minor-unit value. A zero whose
/// sign flag is set is excluded: it is zero, and converts to zero.
pub proof fn lemma_minor_units_negative_fails(d: Decimal, c: Currency)
    requires
        d.negative,
        d.mantissa > 0,
    ensures
        spec_minor_units(d, c) is None,
{
}

/// An amount whose scaled value, truncated toward zero, exceeds
/// `u64::MAX` has no minor-unit value.
pub proof fn lemma_minor_units_overflow_fails(d: Decimal, c: Currency)
    requires
        (d.mantissa * pow10(c.spec_minor_unit_exponent() as nat)) as int / (pow10(
            d.scale as nat,
        ) as int) > u64::MAX,
    ensures
        spec_minor_units(d, c) is None,
{
}

} // verus!

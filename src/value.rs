use vstd::prelude::*;

use crate::field::{Function, Range};
use crate::parser::ParseError;

verus! {

/// Metric prefix of a unit.
#[derive(Debug, Clone, Copy, PartialEq, Eq, Structural)]
pub enum PrefixUnit {
    Mega,
    Kilo,
    NoPrefix,
    Millis,
    Micro,
    Nano,
}

/// Physical base unit of a reading.
#[derive(Debug, Clone, Copy, PartialEq, Eq, Structural)]
pub enum BaseUnit {
    Ampere,
    Volt,
    Ohm,
    Hearts,
    Farad,
}

/// A prefix paired with a base unit, such as kilo-ohm.
#[derive(Debug, Clone, Copy, PartialEq, Eq, Structural)]
pub struct ValueUnit {
    pub prefix_unit: PrefixUnit,
    pub base_unit: BaseUnit,
}

impl ValueUnit {
    pub fn new(prefix_unit: PrefixUnit, base_unit: BaseUnit) -> (r: Self)
        ensures
            r == (ValueUnit { prefix_unit, base_unit }),
    {
        Self { prefix_unit, base_unit }
    }
}

/// The four digit values of a reading, most significant first.
#[derive(Debug, Clone, Copy, PartialEq, Eq)]
pub struct Digits {
    pub digits: [u8; 4],
}

/// Where the decimal point goes in a four-digit reading: `Zero` puts none,
/// `MinusN` puts it before the last N digits.
#[derive(Debug, Clone, Copy, PartialEq, Eq, Structural)]
pub enum DigitRadix {
    Zero,
    Minus1,
    Minus2,
    Minus3,
}

/// The ASCII character of a decimal digit.
pub open spec fn digit_char(d: nat) -> char {
    ((d + 48) as u8) as char
}

/// The decimal text of a natural number, without leading zeros.
pub open spec fn decimal(n: nat) -> Seq<char>
    decreases n,
{
    if n < 10 {
        seq![digit_char(n)]
    } else {
        decimal(n / 10).push(digit_char(n % 10))
    }
}

/// What decoding one digit byte gives: its value for an ASCII digit.
pub open spec fn decode_digit(c: u8) -> Result<u8, ParseError> {
    if 0x30 <= c <= 0x39 {
        Ok((c - 0x30) as u8)
    } else {
        Err(ParseError::InvalidDigit(c))
    }
}

/// What decoding four digit bytes gives: the first byte, from the left, that
/// is no digit is reported.
pub open spec fn decode_digits(s: Seq<u8>) -> Result<Digits, ParseError>
    recommends
        s.len() == 4,
{
    match decode_digit(s[0]) {
        Err(e) => Err(e),
        Ok(a) => match decode_digit(s[1]) {
            Err(e) => Err(e),
            Ok(b) => match decode_digit(s[2]) {
                Err(e) => Err(e),
                Ok(c) => match decode_digit(s[3]) {
                    Err(e) => Err(e),
                    Ok(d) => Ok(Digits { digits: [a, b, c, d] }),
                },
            },
        },
    }
}

/// The text of the four digit values `d` with the decimal point placed by
/// `radix`: the digits before the point read as one number without leading
/// zeros, each digit after it written out.
pub open spec fn digits_text(d: [u8; 4], radix: DigitRadix) -> Seq<char> {
    let (d0, d1, d2, d3) = (d[0] as nat, d[1] as nat, d[2] as nat, d[3] as nat);
    match radix {
        DigitRadix::Zero => decimal(d0 * 1000 + d1 * 100 + d2 * 10 + d3),
        DigitRadix::Minus1 => decimal(d0 * 100 + d1 * 10 + d2) + seq!['.'] + decimal(d3),
        DigitRadix::Minus2 => decimal(d0 * 10 + d1) + seq!['.'] + decimal(d2) + decimal(d3),
        DigitRadix::Minus3 => decimal(d0) + seq!['.'] + decimal(d1) + decimal(d2) + decimal(d3),
    }
}

/// The text of one digit value.
fn digit_text(d: u8) -> (r: &'static str)
    requires
        d < 10,
    ensures
        r@ == seq![digit_char(d as nat)],
{
    match d {
        0 => {
            proof {
                reveal_strlit("0");
            }
            "0"
        },
        1 => {
            proof {
                reveal_strlit("1");
            }
            "1"
        },
        2 => {
            proof {
                reveal_strlit("2");
            }
            "2"
        },
        3 => {
            proof {
                reveal_strlit("3");
            }
            "3"
        },
        4 => {
            proof {
                reveal_strlit("4");
            }
            "4"
        },
        5 => {
            proof {
                reveal_strlit("5");
            }
            "5"
        },
        6 => {
            proof {
                reveal_strlit("6");
            }
            "6"
        },
        7 => {
            proof {
                reveal_strlit("7");
            }
            "7"
        },
        8 => {
            proof {
                reveal_strlit("8");
            }
            "8"
        },
        _ => {
            proof {
                reveal_strlit("9");
            }
            "9"
        },
    }
}

/// Appends the decimal text of `n` to `s`.
fn append_decimal(s: &mut String, n: usize)
    ensures
        final(s)@ == old(s)@ + decimal(n as nat),
    decreases n,
{
    if n >= 10 {
        append_decimal(s, n / 10);
    }
    s.append(digit_text((n % 10) as u8));
    assert(s@ =~= old(s)@ + decimal(n as nat));
}

/// Appends a decimal point to `s`.
fn append_point(s: &mut String)
    ensures
        final(s)@ == old(s)@ + seq!['.'],
{
    proof {
        reveal_strlit(".");
    }
    s.append(".");
}

impl Digits {
    /// Every digit value is below ten.
    pub open spec fn wf(self) -> bool {
        forall|i: int| 0 <= i < 4 ==> self.digits[i] < 10
    }

    /// The text of the reading with the decimal point placed by `radix`.
    pub open spec fn text(self, radix: DigitRadix) -> Seq<char> {
        digits_text(self.digits, radix)
    }

    /// Decodes one ASCII digit byte into its value.
    pub fn parse_digit(c: u8) -> (r: Result<u8, ParseError>)
        ensures
            r == decode_digit(c),
    {
        if 0x30 <= c && c <= 0x39 {
            Ok(c - 0x30)
        } else {
            Err(ParseError::InvalidDigit(c))
        }
    }

    /// Decodes the four digit bytes that start at `loc`, left to right.
    pub fn parse(input: &[u8], loc: usize) -> (r: Result<Digits, ParseError>)
        requires
            loc + 4 <= input@.len(),
        ensures
            r == decode_digits(input@.subrange(loc as int, loc + 4)),
            r is Ok ==> r->Ok_0.wf(),
    {
        let a = Self::parse_digit(input[loc])?;
        let b = Self::parse_digit(input[loc + 1])?;
        let c = Self::parse_digit(input[loc + 2])?;
        let d = Self::parse_digit(input[loc + 3])?;
        Ok(Digits { digits: [a, b, c, d] })
    }

    /// Renders the reading with the decimal point placed by `radix`.
    pub fn to_value(&self, radix: DigitRadix) -> (r: String)
        ensures
            r@ == self.text(radix),
    {
        let d0 = self.digits[0] as usize;
        let d1 = self.digits[1] as usize;
        let d2 = self.digits[2] as usize;
        let d3 = self.digits[3] as usize;
        let mut s = String::new();
        match radix {
            DigitRadix::Zero => {
                append_decimal(&mut s, d0 * 1000 + d1 * 100 + d2 * 10 + d3);
            },
            DigitRadix::Minus1 => {
                append_decimal(&mut s, d0 * 100 + d1 * 10 + d2);
                append_point(&mut s);
                append_decimal(&mut s, d3);
            },
            DigitRadix::Minus2 => {
                append_decimal(&mut s, d0 * 10 + d1);
                append_point(&mut s);
                append_decimal(&mut s, d2);
                append_decimal(&mut s, d3);
            },
            DigitRadix::Minus3 => {
                append_decimal(&mut s, d0);
                append_point(&mut s);
                append_decimal(&mut s, d1);
                append_decimal(&mut s, d2);
                append_decimal(&mut s, d3);
            },
        }
        assert(s@ =~= self.text(radix));
        s
    }
}

/// A resolved reading: its text and its unit.
#[derive(Debug, Clone, PartialEq)]
pub struct OutputValue {
    pub digits: String,
    pub value_unit: ValueUnit,
}

} // verus!

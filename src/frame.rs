use vstd::prelude::*;

use crate::field::{
    decode_function, decode_range, function_of, range_of, option2_of, status_of, Function, Option2, Range, Status,
};
use crate::parser::ParseError;
use crate::value::{
    decode_digits, BaseUnit, DigitRadix, Digits, OutputValue, PrefixUnit, ValueUnit,
};

verus! {

/// Number of payload bytes in one frame.
pub const OUTPUT_LENGTH: usize = 9;

/// One decoded frame.
#[derive(Debug, Clone, Copy, PartialEq, Eq)]
pub struct Output {
    pub range: Range,
    pub digits: Digits,
    pub function: Function,
    pub status: Status,
    pub option2: Option2,
}

/// What decoding a frame gives. The length is checked first; then the range
/// byte, the four digit bytes from left to right and the function byte, and
/// the first of them that is invalid is reported. The status byte (byte 6) and
/// the second option byte (byte 8) always decode; byte 7 is not read.
pub open spec fn decode_frame(s: Seq<u8>) -> Result<Output, ParseError> {
    if s.len() != OUTPUT_LENGTH {
        Err(ParseError::LengthError { len: s.len() as usize })
    } else {
        match decode_range(s[0]) {
            Err(e) => Err(e),
            Ok(range) => match decode_digits(s.subrange(1, 5)) {
                Err(e) => Err(e),
                Ok(digits) => match decode_function(s[5]) {
                    Err(e) => Err(e),
                    Ok(function) => Ok(
                        Output {
                            range,
                            digits,
                            function,
                            status: status_of(s[6]),
                            option2: option2_of(s[8]),
                        },
                    ),
                },
            },
        }
    }
}

/// A table entry: a decimal placement and a unit.
pub open spec fn scale_entry(radix: DigitRadix, prefix_unit: PrefixUnit, base_unit: BaseUnit) -> Option<
    (DigitRadix, ValueUnit),
> {
    Some((radix, ValueUnit { prefix_unit, base_unit }))
}

/// The decimal placement and unit of each range and function that stand for a
/// physical quantity; `None` for the others (temperature, continuity, diode,
/// the adapter channels, and the pairs that the meter never sends).
pub open spec fn scale_of(range: Range, function: Function) -> Option<(DigitRadix, ValueUnit)> {
    match range {
        Range::Range0 => match function {
            Function::Voltage => scale_entry(DigitRadix::Minus3, PrefixUnit::NoPrefix, BaseUnit::Volt),
            Function::MicroAmpere => scale_entry(DigitRadix::Minus1, PrefixUnit::Micro, BaseUnit::Ampere),
            Function::MilliAmpere => scale_entry(DigitRadix::Minus2, PrefixUnit::Millis, BaseUnit::Ampere),
            Function::AutoAmpere => scale_entry(DigitRadix::Minus3, PrefixUnit::NoPrefix, BaseUnit::Ampere),
            Function::ManualAmpere => scale_entry(DigitRadix::Minus3, PrefixUnit::NoPrefix, BaseUnit::Ampere),
            Function::Ohm => scale_entry(DigitRadix::Minus1, PrefixUnit::NoPrefix, BaseUnit::Ohm),
            Function::Frequency => scale_entry(DigitRadix::Minus3, PrefixUnit::Kilo, BaseUnit::Hearts),
            Function::Capacitor => scale_entry(DigitRadix::Minus3, PrefixUnit::Nano, BaseUnit::Farad),
            _ => None,
        },
        Range::Range1 => match function {
            Function::Voltage => scale_entry(DigitRadix::Minus2, PrefixUnit::NoPrefix, BaseUnit::Volt),
            Function::MicroAmpere => scale_entry(DigitRadix::Zero, PrefixUnit::Micro, BaseUnit::Ampere),
            Function::MilliAmpere => scale_entry(DigitRadix::Minus1, PrefixUnit::Millis, BaseUnit::Ampere),
            Function::AutoAmpere => scale_entry(DigitRadix::Minus2, PrefixUnit::NoPrefix, BaseUnit::Ampere),
            Function::Ohm => scale_entry(DigitRadix::Minus3, PrefixUnit::Kilo, BaseUnit::Ohm),
            Function::Frequency => scale_entry(DigitRadix::Minus2, PrefixUnit::Kilo, BaseUnit::Hearts),
            Function::Capacitor => scale_entry(DigitRadix::Minus2, PrefixUnit::Nano, BaseUnit::Farad),
            _ => None,
        },
        Range::Range2 => match function {
            Function::Voltage => scale_entry(DigitRadix::Minus1, PrefixUnit::NoPrefix, BaseUnit::Volt),
            Function::Ohm => scale_entry(DigitRadix::Minus2, PrefixUnit::Kilo, BaseUnit::Ohm),
            Function::Frequency => scale_entry(DigitRadix::Minus1, PrefixUnit::Kilo, BaseUnit::Hearts),
            Function::Capacitor => scale_entry(DigitRadix::Minus1, PrefixUnit::Nano, BaseUnit::Farad),
            _ => None,
        },
        Range::Range3 => match function {
            Function::Voltage => scale_entry(DigitRadix::Zero, PrefixUnit::NoPrefix, BaseUnit::Volt),
            Function::Ohm => scale_entry(DigitRadix::Minus1, PrefixUnit::Kilo, BaseUnit::Ohm),
            Function::Frequency => scale_entry(DigitRadix::Minus3, PrefixUnit::Mega, BaseUnit::Hearts),
            Function::Capacitor => scale_entry(DigitRadix::Minus3, PrefixUnit::Micro, BaseUnit::Farad),
            _ => None,
        },
        Range::Range4 => match function {
            Function::Voltage => scale_entry(DigitRadix::Minus1, PrefixUnit::Millis, BaseUnit::Volt),
            Function::Ohm => scale_entry(DigitRadix::Minus3, PrefixUnit::Mega, BaseUnit::Ohm),
            Function::Frequency => scale_entry(DigitRadix::Minus2, PrefixUnit::Mega, BaseUnit::Hearts),
            Function::Capacitor => scale_entry(DigitRadix::Minus2, PrefixUnit::Micro, BaseUnit::Farad),
            _ => None,
        },
        Range::Range5 => match function {
            Function::Ohm => scale_entry(DigitRadix::Minus2, PrefixUnit::Mega, BaseUnit::Ohm),
            Function::Capacitor => scale_entry(DigitRadix::Minus2, PrefixUnit::Micro, BaseUnit::Farad),
            _ => None,
        },
        Range::Range6 => match function {
            Function::Capacitor => scale_entry(DigitRadix::Minus3, PrefixUnit::Millis, BaseUnit::Farad),
            _ => None,
        },
    }
}

/// Looks up the decimal placement and unit of a range and function.
fn scale(range: Range, function: Function) -> (r: Option<(DigitRadix, ValueUnit)>)
    ensures
        r == scale_of(range, function),
{
    match range {
        Range::Range0 => match function {
            Function::Voltage => Some((DigitRadix::Minus3, ValueUnit::new(PrefixUnit::NoPrefix, BaseUnit::Volt))),
            Function::MicroAmpere => Some((DigitRadix::Minus1, ValueUnit::new(PrefixUnit::Micro, BaseUnit::Ampere))),
            Function::MilliAmpere => Some((DigitRadix::Minus2, ValueUnit::new(PrefixUnit::Millis, BaseUnit::Ampere))),
            Function::AutoAmpere => Some((DigitRadix::Minus3, ValueUnit::new(PrefixUnit::NoPrefix, BaseUnit::Ampere))),
            Function::ManualAmpere => Some((DigitRadix::Minus3, ValueUnit::new(PrefixUnit::NoPrefix, BaseUnit::Ampere))),
            Function::Ohm => Some((DigitRadix::Minus1, ValueUnit::new(PrefixUnit::NoPrefix, BaseUnit::Ohm))),
            Function::Frequency => Some((DigitRadix::Minus3, ValueUnit::new(PrefixUnit::Kilo, BaseUnit::Hearts))),
            Function::Capacitor => Some((DigitRadix::Minus3, ValueUnit::new(PrefixUnit::Nano, BaseUnit::Farad))),
            _ => None,
        },
        Range::Range1 => match function {
            Function::Voltage => Some((DigitRadix::Minus2, ValueUnit::new(PrefixUnit::NoPrefix, BaseUnit::Volt))),
            Function::MicroAmpere => Some((DigitRadix::Zero, ValueUnit::new(PrefixUnit::Micro, BaseUnit::Ampere))),
            Function::MilliAmpere => Some((DigitRadix::Minus1, ValueUnit::new(PrefixUnit::Millis, BaseUnit::Ampere))),
            Function::AutoAmpere => Some((DigitRadix::Minus2, ValueUnit::new(PrefixUnit::NoPrefix, BaseUnit::Ampere))),
            Function::Ohm => Some((DigitRadix::Minus3, ValueUnit::new(PrefixUnit::Kilo, BaseUnit::Ohm))),
            Function::Frequency => Some((DigitRadix::Minus2, ValueUnit::new(PrefixUnit::Kilo, BaseUnit::Hearts))),
            Function::Capacitor => Some((DigitRadix::Minus2, ValueUnit::new(PrefixUnit::Nano, BaseUnit::Farad))),
            _ => None,
        },
        Range::Range2 => match function {
            Function::Voltage => Some((DigitRadix::Minus1, ValueUnit::new(PrefixUnit::NoPrefix, BaseUnit::Volt))),
            Function::Ohm => Some((DigitRadix::Minus2, ValueUnit::new(PrefixUnit::Kilo, BaseUnit::Ohm))),
            Function::Frequency => Some((DigitRadix::Minus1, ValueUnit::new(PrefixUnit::Kilo, BaseUnit::Hearts))),
            Function::Capacitor => Some((DigitRadix::Minus1, ValueUnit::new(PrefixUnit::Nano, BaseUnit::Farad))),
            _ => None,
        },
        Range::Range3 => match function {
            Function::Voltage => Some((DigitRadix::Zero, ValueUnit::new(PrefixUnit::NoPrefix, BaseUnit::Volt))),
            Function::Ohm => Some((DigitRadix::Minus1, ValueUnit::new(PrefixUnit::Kilo, BaseUnit::Ohm))),
            Function::Frequency => Some((DigitRadix::Minus3, ValueUnit::new(PrefixUnit::Mega, BaseUnit::Hearts))),
            Function::Capacitor => Some((DigitRadix::Minus3, ValueUnit::new(PrefixUnit::Micro, BaseUnit::Farad))),
            _ => None,
        },
        Range::Range4 => match function {
            Function::Voltage => Some((DigitRadix::Minus1, ValueUnit::new(PrefixUnit::Millis, BaseUnit::Volt))),
            Function::Ohm => Some((DigitRadix::Minus3, ValueUnit::new(PrefixUnit::Mega, BaseUnit::Ohm))),
            Function::Frequency => Some((DigitRadix::Minus2, ValueUnit::new(PrefixUnit::Mega, BaseUnit::Hearts))),
            Function::Capacitor => Some((DigitRadix::Minus2, ValueUnit::new(PrefixUnit::Micro, BaseUnit::Farad))),
            _ => None,
        },
        Range::Range5 => match function {
            Function::Ohm => Some((DigitRadix::Minus2, ValueUnit::new(PrefixUnit::Mega, BaseUnit::Ohm))),
            Function::Capacitor => Some((DigitRadix::Minus2, ValueUnit::new(PrefixUnit::Micro, BaseUnit::Farad))),
            _ => None,
        },
        Range::Range6 => match function {
            Function::Capacitor => Some((DigitRadix::Minus3, ValueUnit::new(PrefixUnit::Millis, BaseUnit::Farad))),
            _ => None,
        },
    }
}

impl Output {
    /// Decodes one frame of nine bytes.
    pub fn parse(input: &[u8]) -> (r: Result<Output, ParseError>)
        ensures
            r == decode_frame(input@),
            input@.len() != OUTPUT_LENGTH ==> r == Err::<Output, ParseError>(
                ParseError::LengthError { len: input@.len() as usize },
            ),
            r is Ok ==> r->Ok_0.digits.wf(),
    {
        if input.len() == OUTPUT_LENGTH {
            let range = Range::parse(input[0])?;
            let digits = Digits::parse(input, 1)?;
            let function = Function::parse(input[5])?;
            let status = Status::parse(input[6]);
            // byte 7 (the first option byte) carries nothing that is decoded
            let option2 = Option2::parse(input[8]);
            Ok(Output { range, digits, function, status, option2 })
        } else {
            Err(ParseError::LengthError { len: input.len() })
        }
    }

    /// The reading as a number with its unit, where the range and function
    /// stand for a physical quantity.
    pub fn get_value(&self) -> (r: Option<OutputValue>)
        ensures
            match scale_of(self.range, self.function) {
                None => r is None,
                Some((radix, value_unit)) => r is Some && r->Some_0.digits@ == self.digits.text(
                    radix,
                ) && r->Some_0.value_unit == value_unit,
            },
    {
        match scale(self.range, self.function) {
            None => None,
            Some((radix, value_unit)) => {
                let digits = self.digits.to_value(radix);
                Some(OutputValue { digits, value_unit })
            },
        }
    }
}

/// Whether a byte is an ASCII decimal digit.
pub open spec fn is_digit_byte(c: u8) -> bool {
    0x30 <= c <= 0x39
}

/// A frame whose length is not nine always fails with a length error that
/// carries the actual length, never with another kind of error.
pub proof fn lemma_length_error(s: Seq<u8>)
    requires
        s.len() <= usize::MAX,
        s.len() != OUTPUT_LENGTH,
    ensures
        decode_frame(s) == Err::<Output, ParseError>(ParseError::LengthError { len: s.len() as usize }),
{
}

/// Of several invalid fields in a frame, the first in field order is
/// reported: the range byte, then the digit bytes from left to right, then the
/// function byte.
pub proof fn lemma_first_invalid_field(s: Seq<u8>)
    requires
        s.len() == OUTPUT_LENGTH,
    ensures
        range_of(s[0]) is None ==> decode_frame(s) == Err::<Output, ParseError>(
            ParseError::InvalidRange(s[0]),
        ),
        forall|i: int|
            1 <= i < 5 && range_of(s[0]) is Some && !is_digit_byte(#[trigger] s[i]) && (forall|j: int|
                1 <= j < i ==> is_digit_byte(s[j])) ==> decode_frame(s) == Err::<Output, ParseError>(
                ParseError::InvalidDigit(s[i]),
            ),
        range_of(s[0]) is Some && (forall|j: int| 1 <= j < 5 ==> is_digit_byte(s[j])) && function_of(
            s[5],
        ) is None ==> decode_frame(s) == Err::<Output, ParseError>(ParseError::InvalidFunction(s[5])),
{
    let d = s.subrange(1, 5);
    assert(d[0] == s[1] && d[1] == s[2] && d[2] == s[3] && d[3] == s[4]);
}

} // verus!

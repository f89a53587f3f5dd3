use vstd::prelude::*;

use crate::parser::ParseError;

verus! {

/// Measurement range selected by the meter; picks the decimal placement family.
#[derive(Debug, Clone, Copy, PartialEq, Eq, Structural)]
pub enum Range {
    Range0,
    Range1,
    Range2,
    Range3,
    Range4,
    Range5,
    Range6,
}

/// The range code that a range byte stands for, if any.
pub open spec fn range_of(c: u8) -> Option<Range> {
    match c {
        0x30 => Some(Range::Range0),
        0x31 => Some(Range::Range1),
        0x32 => Some(Range::Range2),
        0x33 => Some(Range::Range3),
        0x34 => Some(Range::Range4),
        0x35 => Some(Range::Range5),
        0x36 => Some(Range::Range6),
        _ => None,
    }
}

/// What decoding a range byte gives.
pub open spec fn decode_range(c: u8) -> Result<Range, ParseError> {
    match range_of(c) {
        Some(range) => Ok(range),
        None => Err(ParseError::InvalidRange(c)),
    }
}

impl Range {
    /// Decodes the range byte of a frame.
    pub fn parse(c: u8) -> (r: Result<Range, ParseError>)
        ensures
            r == decode_range(c),
            r is Ok <==> 0x30 <= c <= 0x36,
    {
        match c {
            0x30 => Ok(Range::Range0),
            0x31 => Ok(Range::Range1),
            0x32 => Ok(Range::Range2),
            0x33 => Ok(Range::Range3),
            0x34 => Ok(Range::Range4),
            0x35 => Ok(Range::Range5),
            0x36 => Ok(Range::Range6),
            _ => Err(ParseError::InvalidRange(c)),
        }
    }
}

/// Kind of measurement the meter is set to.
#[derive(Debug, Clone, Copy, PartialEq, Eq, Structural)]
pub enum Function {
    Voltage,
    MicroAmpere,
    MilliAmpere,
    AutoAmpere,
    ManualAmpere,
    Ohm,
    Continuity,
    Diode,
    Frequency,
    Capacitor,
    Temperature,
    Adp0,
    Adp1,
    Adp2,
    Adp3,
}

/// The function code that a function byte stands for, if any.
pub open spec fn function_of(c: u8) -> Option<Function> {
    match c {
        0x3b => Some(Function::Voltage),
        0x3d => Some(Function::MicroAmpere),
        0x3f => Some(Function::MilliAmpere),
        0x30 => Some(Function::AutoAmpere),
        0x39 => Some(Function::ManualAmpere),
        0x33 => Some(Function::Ohm),
        0x35 => Some(Function::Continuity),
        0x31 => Some(Function::Diode),
        0x32 => Some(Function::Frequency),
        0x36 => Some(Function::Capacitor),
        0x34 => Some(Function::Temperature),
        0x3e => Some(Function::Adp0),
        0x3c => Some(Function::Adp1),
        0x38 => Some(Function::Adp2),
        0x3a => Some(Function::Adp3),
        _ => None,
    }
}

/// What decoding a function byte gives.
pub open spec fn decode_function(c: u8) -> Result<Function, ParseError> {
    match function_of(c) {
        Some(function) => Ok(function),
        None => Err(ParseError::InvalidFunction(c)),
    }
}

impl Function {
    /// Decodes the function byte of a frame.
    pub fn parse(c: u8) -> (r: Result<Function, ParseError>)
        ensures
            r == decode_function(c),
            r is Ok <==> (0x30 <= c <= 0x3f && c != 0x37),
    {
        match c {
            0x3b => Ok(Function::Voltage),
            0x3d => Ok(Function::MicroAmpere),
            0x3f => Ok(Function::MilliAmpere),
            0x30 => Ok(Function::AutoAmpere),
            0x39 => Ok(Function::ManualAmpere),
            0x33 => Ok(Function::Ohm),
            0x35 => Ok(Function::Continuity),
            0x31 => Ok(Function::Diode),
            0x32 => Ok(Function::Frequency),
            0x36 => Ok(Function::Capacitor),
            0x34 => Ok(Function::Temperature),
            0x3e => Ok(Function::Adp0),
            0x3c => Ok(Function::Adp1),
            0x38 => Ok(Function::Adp2),
            0x3a => Ok(Function::Adp3),
            _ => Err(ParseError::InvalidFunction(c)),
        }
    }
}

/// Unit of a temperature reading.
#[derive(Debug, Clone, Copy, PartialEq, Eq, Structural)]
pub enum TemperatureUnit {
    Celsius,
    Fahrenheit,
}

/// Sign of a reading.
#[derive(Debug, Clone, Copy, PartialEq, Eq, Structural)]
pub enum Sign {
    Plus,
    Minus,
}

/// A positive reading.
pub const SIGN_PLUS: Sign = Sign::Plus;

/// A negative reading.
pub const SIGN_MINUS: Sign = Sign::Minus;

/// The sign that a flag for "negative" stands for.
pub open spec fn sign_of(minus: bool) -> Sign {
    if minus {
        Sign::Minus
    } else {
        Sign::Plus
    }
}

impl Sign {
    pub fn is_minus(self) -> (r: bool)
        ensures
            r == (self == Sign::Minus),
    {
        match self {
            Sign::Minus => true,
            Sign::Plus => false,
        }
    }

    pub fn is_not_minus(self) -> (r: bool)
        ensures
            r == (self == Sign::Plus),
    {
        !self.is_minus()
    }

    /// The sign as a factor: -1 for a negative reading, 1 otherwise.
    pub fn signum(self) -> (r: i8)
        ensures
            r == (if self == Sign::Minus { -1i8 } else { 1i8 }),
    {
        if self.is_minus() {
            -1
        } else {
            1
        }
    }
}

impl From<Sign> for i8 {
    /// -1 for a negative reading, 1 otherwise.
    fn from(sign: Sign) -> (r: i8) {
        sign.signum() as i8
    }
}

impl vstd::std_specs::convert::FromSpecImpl<Sign> for i8 {
    open spec fn obeys_from_spec() -> bool {
        true
    }

    open spec fn from_spec(sign: Sign) -> i8 {
        if sign == Sign::Minus {
            -1i8
        } else {
            1i8
        }
    }
}

impl From<Sign> for i16 {
    /// -1 for a negative reading, 1 otherwise.
    fn from(sign: Sign) -> (r: i16) {
        sign.signum() as i16
    }
}

impl vstd::std_specs::convert::FromSpecImpl<Sign> for i16 {
    open spec fn obeys_from_spec() -> bool {
        true
    }

    open spec fn from_spec(sign: Sign) -> i16 {
        if sign == Sign::Minus {
            -1i16
        } else {
            1i16
        }
    }
}

impl From<Sign> for i32 {
    /// -1 for a negative reading, 1 otherwise.
    fn from(sign: Sign) -> (r: i32) {
        sign.signum() as i32
    }
}

impl vstd::std_specs::convert::FromSpecImpl<Sign> for i32 {
    open spec fn obeys_from_spec() -> bool {
        true
    }

    open spec fn from_spec(sign: Sign) -> i32 {
        if sign == Sign::Minus {
            -1i32
        } else {
            1i32
        }
    }
}

impl From<Sign> for i64 {
    /// -1 for a negative reading, 1 otherwise.
    fn from(sign: Sign) -> (r: i64) {
        sign.signum() as i64
    }
}

impl vstd::std_specs::convert::FromSpecImpl<Sign> for i64 {
    open spec fn obeys_from_spec() -> bool {
        true
    }

    open spec fn from_spec(sign: Sign) -> i64 {
        if sign == Sign::Minus {
            -1i64
        } else {
            1i64
        }
    }
}

impl From<Sign> for i128 {
    /// -1 for a negative reading, 1 otherwise.
    fn from(sign: Sign) -> (r: i128) {
        sign.signum() as i128
    }
}

impl vstd::std_specs::convert::FromSpecImpl<Sign> for i128 {
    open spec fn obeys_from_spec() -> bool {
        true
    }

    open spec fn from_spec(sign: Sign) -> i128 {
        if sign == Sign::Minus {
            -1i128
        } else {
            1i128
        }
    }
}

/// Flags of the status byte of a frame.
#[derive(Debug, Clone, Copy, PartialEq, Eq, Structural)]
pub struct Status {
    pub temperature_unit: TemperatureUnit,
    pub sign: Sign,
    pub is_battery_depleted: bool,
    pub is_overflow: bool,
}

/// The flags that a status byte holds: bit 3 selects Celsius, bit 2 a negative
/// sign, bit 1 a depleted battery and bit 0 an overflow.
pub open spec fn status_of(c: u8) -> Status {
    Status {
        temperature_unit: if c & 0x08 != 0 {
            TemperatureUnit::Celsius
        } else {
            TemperatureUnit::Fahrenheit
        },
        sign: sign_of(c & 0x04 != 0),
        is_battery_depleted: c & 0x02 != 0,
        is_overflow: c & 0x01 != 0,
    }
}

impl Status {
    /// Decodes the status byte; every byte is a valid status.
    pub fn parse(c: u8) -> (r: Status)
        ensures
            r == status_of(c),
    {
        Status {
            temperature_unit: if (c & 0x08) != 0 {
                TemperatureUnit::Celsius
            } else {
                TemperatureUnit::Fahrenheit
            },
            sign: if (c & 0x04) != 0 {
                Sign::Minus
            } else {
                Sign::Plus
            },
            is_battery_depleted: (c & 0x02) != 0,
            is_overflow: (c & 0x01) != 0,
        }
    }
}

/// Flags of the second option byte of a frame.
#[derive(Debug, Clone, Copy, PartialEq, Eq, Structural)]
pub struct Option2 {
    pub is_dc: bool,
    pub is_ac: bool,
    pub is_auto: bool,
}

/// The flags that an option byte holds: bit 3 DC, bit 2 AC, bit 1 auto range.
pub open spec fn option2_of(c: u8) -> Option2 {
    Option2 { is_dc: c & 0x08 != 0, is_ac: c & 0x04 != 0, is_auto: c & 0x02 != 0 }
}

impl Option2 {
    /// Decodes the option byte; every byte is a valid option byte.
    pub fn parse(c: u8) -> (r: Option2)
        ensures
            r == option2_of(c),
    {
        Option2 { is_dc: (c & 0x08) != 0, is_ac: (c & 0x04) != 0, is_auto: (c & 0x02) != 0 }
    }
}

} // verus!

//! Decoder for the serial output of ES51986 digital-multimeter chips: frames a
//! byte stream on CR/LF terminators, decodes each nine-byte frame into its
//! fields, and resolves a frame's reading into a decimal text with its unit.

mod field;
mod frame;
pub mod parser;
mod value;

pub use field::{
    decode_function, decode_range, function_of, option2_of, range_of, sign_of, status_of,
    Function, Option2, Range, Sign, Status, TemperatureUnit, SIGN_MINUS, SIGN_PLUS,
};
pub use frame::{
    decode_frame, is_digit_byte, lemma_first_invalid_field, lemma_length_error, scale_entry,
    scale_of, Output, OUTPUT_LENGTH,
};
pub use parser::{
    lemma_chunk_independence, lemma_payload_stays_idle, lemma_run_append,
    lemma_terminator_equivalence, run, run_chunks, step, yielded, ParseError, Parser,
    ParserState, CR, LF,
};
pub use value::{
    decimal, decode_digit, decode_digits, digit_char, digits_text, BaseUnit, DigitRadix, Digits,
    OutputValue, PrefixUnit, ValueUnit,
};

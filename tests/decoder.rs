use es51986::parser::{ParseError, Parser};
use es51986::{
    BaseUnit, DigitRadix, Function, Option2, Output, OutputValue, PrefixUnit, Range, Status,
    TemperatureUnit, ValueUnit, SIGN_MINUS, SIGN_PLUS,
};

fn to_u8(s: &str) -> Vec<u8> {
    s.chars().map(|c| c as u8).collect()
}

#[test]
fn voltage() {
    let inp: Vec<u8> = to_u8("00000;<0:\r\n");
    let results: Vec<Result<Output, ParseError>> = Parser::new().parse(&inp);
    assert_eq!(results.len(), 1);
    let out: &Output = results[0].as_ref().unwrap();
    assert_eq!(out.status, Status { temperature_unit: TemperatureUnit::Celsius, sign: SIGN_MINUS, is_battery_depleted: false, is_overflow: false });
    assert_eq!(out.function, Function::Voltage);
    assert_eq!(out.range, Range::Range0);
    assert_eq!(out.option2, Option2 { is_dc: true, is_ac: false, is_auto: true });
    assert_eq!(out.get_value(), Some(OutputValue { digits: "0.000".to_owned(), value_unit: ValueUnit { prefix_unit: PrefixUnit::NoPrefix, base_unit: BaseUnit::Volt}}));

    let inp: Vec<u8> = to_u8("00002;80:\r\n");
    let results: Vec<Result<Output, ParseError>> = Parser::new().parse(&inp);
    assert_eq!(results.len(), 1);
    let out: &Output = results[0].as_ref().unwrap();
    assert_eq!(out.status, Status { temperature_unit: TemperatureUnit::Celsius, sign: SIGN_PLUS, is_battery_depleted: false, is_overflow: false });
    assert_eq!(out.function, Function::Voltage);
    assert_eq!(out.range, Range::Range0);
    assert_eq!(out.option2, Option2 { is_dc: true, is_ac: false, is_auto: true });
    assert_eq!(out.get_value(), Some(OutputValue { digits: "0.002".to_owned(), value_unit: ValueUnit { prefix_unit: PrefixUnit::NoPrefix, base_unit: BaseUnit::Volt}}));

    let inp: Vec<u8> = to_u8("20989;806\r\n");
    let results: Vec<Result<Output, ParseError>> = Parser::new().parse(&inp);
    assert_eq!(results.len(), 1);
    let out: &Output = results[0].as_ref().unwrap();
    assert_eq!(out.status, Status { temperature_unit: TemperatureUnit::Celsius, sign: SIGN_PLUS, is_battery_depleted: false, is_overflow: false });
    assert_eq!(out.function, Function::Voltage);
    assert_eq!(out.range, Range::Range2);
    assert_eq!(out.option2, Option2 { is_dc: false, is_ac: true, is_auto: true });
    assert_eq!(out.get_value(), Some(OutputValue { digits: "98.9".to_owned(), value_unit: ValueUnit { prefix_unit: PrefixUnit::NoPrefix, base_unit: BaseUnit::Volt}}));
}

#[test]
fn ohm() {
    let inp: Vec<u8> = to_u8("560003902\r\n");
    let results: Vec<Result<Output, ParseError>> = Parser::new().parse(&inp);
    assert_eq!(results.len(), 1);
    let out: &Output = results[0].as_ref().unwrap();
    assert_eq!(out.status, Status { temperature_unit: TemperatureUnit::Celsius, sign: SIGN_PLUS, is_battery_depleted: false, is_overflow: true });
    assert_eq!(out.function, Function::Ohm);
    assert_eq!(out.range, Range::Range5);
    assert_eq!(out.option2, Option2 { is_dc: false, is_ac: false, is_auto: true });
    assert_eq!(out.get_value(), Some(OutputValue { digits: "60.00".to_owned(), value_unit: ValueUnit { prefix_unit: PrefixUnit::Mega, base_unit: BaseUnit::Ohm}}));

    let inp: Vec<u8> = to_u8("109853802\r\n");
    let results: Vec<Result<Output, ParseError>> = Parser::new().parse(&inp);
    assert_eq!(results.len(), 1);
    let out: &Output = results[0].as_ref().unwrap();
    assert_eq!(out.status, Status { temperature_unit: TemperatureUnit::Celsius, sign: SIGN_PLUS, is_battery_depleted: false, is_overflow: false });
    assert_eq!(out.function, Function::Ohm);
    assert_eq!(out.range, Range::Range1);
    assert_eq!(out.option2, Option2 { is_dc: false, is_ac: false, is_auto: true });
    assert_eq!(out.get_value(), Some(OutputValue { digits: "0.985".to_owned(), value_unit: ValueUnit { prefix_unit: PrefixUnit::Kilo, base_unit: BaseUnit::Ohm}}));

    let inp: Vec<u8> = to_u8("000003802\r\n");
    let results: Vec<Result<Output, ParseError>> = Parser::new().parse(&inp);
    assert_eq!(results.len(), 1);
    let out: &Output = results[0].as_ref().unwrap();
    assert_eq!(out.status, Status { temperature_unit: TemperatureUnit::Celsius, sign: SIGN_PLUS, is_battery_depleted: false, is_overflow: false });
    assert_eq!(out.function, Function::Ohm);
    assert_eq!(out.range, Range::Range0);
    assert_eq!(out.option2, Option2 { is_dc: false, is_ac: false, is_auto: true });
    assert_eq!(out.get_value(), Some(OutputValue { digits: "0.0".to_owned(), value_unit: ValueUnit { prefix_unit: PrefixUnit::NoPrefix, base_unit: BaseUnit::Ohm}}));
}

#[test]
fn capasitance() {
    let inp: Vec<u8> = to_u8("660006902\r\n");
    let results: Vec<Result<Output, ParseError>> = Parser::new().parse(&inp);
    assert_eq!(results.len(), 1);
    let out: &Output = results[0].as_ref().unwrap();
    assert_eq!(out.status, Status { temperature_unit: TemperatureUnit::Celsius, sign: SIGN_PLUS, is_battery_depleted: false, is_overflow: true });
    assert_eq!(out.function, Function::Capacitor);
    assert_eq!(out.range, Range::Range6);
    assert_eq!(out.option2, Option2 { is_dc: false, is_ac: false, is_auto: true });
    assert_eq!(out.get_value(), Some(OutputValue { digits: "6.000".to_owned(), value_unit: ValueUnit { prefix_unit: PrefixUnit::Millis, base_unit: BaseUnit::Farad}}));

    let inp: Vec<u8> = to_u8("211656802\r\n");
    let results: Vec<Result<Output, ParseError>> = Parser::new().parse(&inp);
    assert_eq!(results.len(), 1);
    let out: &Output = results[0].as_ref().unwrap();
    assert_eq!(out.status, Status { temperature_unit: TemperatureUnit::Celsius, sign: SIGN_PLUS, is_battery_depleted: false, is_overflow: false });
    assert_eq!(out.function, Function::Capacitor);
    assert_eq!(out.range, Range::Range2);
    assert_eq!(out.option2, Option2 { is_dc: false, is_ac: false, is_auto: true });
    assert_eq!(out.get_value(), Some(OutputValue { digits: "116.5".to_owned(), value_unit: ValueUnit { prefix_unit: PrefixUnit::Nano, base_unit: BaseUnit::Farad}}));

    let inp: Vec<u8> = to_u8("000226802\r\n");
    let results: Vec<Result<Output, ParseError>> = Parser::new().parse(&inp);
    assert_eq!(results.len(), 1);
    let out: &Output = results[0].as_ref().unwrap();
    assert_eq!(out.status, Status { temperature_unit: TemperatureUnit::Celsius, sign: SIGN_PLUS, is_battery_depleted: false, is_overflow: false });
    assert_eq!(out.function, Function::Capacitor);
    assert_eq!(out.range, Range::Range0);
    assert_eq!(out.option2, Option2 { is_dc: false, is_ac: false, is_auto: true });
    assert_eq!(out.get_value(), Some(OutputValue { digits: "0.022".to_owned(), value_unit: ValueUnit { prefix_unit: PrefixUnit::Nano, base_unit: BaseUnit::Farad}}));
}

#[test]
fn frequency() {
    let inp: Vec<u8> = to_u8("000002802\r\n");
    let results: Vec<Result<Output, ParseError>> = Parser::new().parse(&inp);
    assert_eq!(results.len(), 1);
    let out: &Output = results[0].as_ref().unwrap();
    assert_eq!(out.status, Status { temperature_unit: TemperatureUnit::Celsius, sign: SIGN_PLUS, is_battery_depleted: false, is_overflow: false });
    assert_eq!(out.function, Function::Frequency);
    assert_eq!(out.range, Range::Range0);
    assert_eq!(out.option2, Option2 { is_dc: false, is_ac: false, is_auto: true });
    assert_eq!(out.get_value(), Some(OutputValue { digits: "0.000".to_owned(), value_unit: ValueUnit { prefix_unit: PrefixUnit::Kilo, base_unit: BaseUnit::Hearts}}));

    let inp: Vec<u8> = to_u8("210012802\r\n");
    let results: Vec<Result<Output, ParseError>> = Parser::new().parse(&inp);
    assert_eq!(results.len(), 1);
    let out: &Output = results[0].as_ref().unwrap();
    assert_eq!(out.status, Status { temperature_unit: TemperatureUnit::Celsius, sign: SIGN_PLUS, is_battery_depleted: false, is_overflow: false });
    assert_eq!(out.function, Function::Frequency);
    assert_eq!(out.range, Range::Range2);
    assert_eq!(out.option2, Option2 { is_dc: false, is_ac: false, is_auto: true });
    assert_eq!(out.get_value(), Some(OutputValue { digits: "100.1".to_owned(), value_unit: ValueUnit { prefix_unit: PrefixUnit::Kilo, base_unit: BaseUnit::Hearts}}));
}

#[test]
fn lux() {
    let inp: Vec<u8> = to_u8("00136>800\r\n");
    let results: Vec<Result<Output, ParseError>> = Parser::new().parse(&inp);
    assert_eq!(results.len(), 1);
    let out: &Output = results[0].as_ref().unwrap();
    assert_eq!(out.status, Status { temperature_unit: TemperatureUnit::Celsius, sign: SIGN_PLUS, is_battery_depleted: false, is_overflow: false });
    assert_eq!(out.function, Function::Adp0);
    assert_eq!(out.range, Range::Range0);
    assert_eq!(out.option2, Option2 { is_dc: false, is_ac: false, is_auto: false });
    assert_eq!(&out.digits.to_value(DigitRadix::Zero), "136");
    assert_eq!(out.get_value(), None);
}

#[test]
fn sound_level() {
    let inp: Vec<u8> = to_u8("00676<800\r\n");
    let results: Vec<Result<Output, ParseError>> = Parser::new().parse(&inp);
    assert_eq!(results.len(), 1);
    let out: &Output = results[0].as_ref().unwrap();
    assert_eq!(out.status, Status { temperature_unit: TemperatureUnit::Celsius, sign: SIGN_PLUS, is_battery_depleted: false, is_overflow: false });
    assert_eq!(out.function, Function::Adp1);
    assert_eq!(out.range, Range::Range0);
    assert_eq!(out.option2, Option2 { is_dc: false, is_ac: false, is_auto: false });
    assert_eq!(&out.digits.to_value(DigitRadix::Zero), "676");
    assert_eq!(out.get_value(), None);
}

#[test]
fn temperature() {
    let inp: Vec<u8> = to_u8("060004900\r\n");
    let results: Vec<Result<Output, ParseError>> = Parser::new().parse(&inp);
    assert_eq!(results.len(), 1);
    let out: &Output = results[0].as_ref().unwrap();
    assert_eq!(out.status, Status { temperature_unit: TemperatureUnit::Celsius, sign: SIGN_PLUS, is_battery_depleted: false, is_overflow: true });
    assert_eq!(out.function, Function::Temperature);
    assert_eq!(out.range, Range::Range0);
    assert_eq!(out.option2, Option2 { is_dc: false, is_ac: false, is_auto: false });
    assert_eq!(&out.digits.to_value(DigitRadix::Zero), "6000");
    assert_eq!(out.get_value(), None);

    let inp: Vec<u8> = to_u8("000304800\r\n");
    let results: Vec<Result<Output, ParseError>> = Parser::new().parse(&inp);
    assert_eq!(results.len(), 1);
    let out: &Output = results[0].as_ref().unwrap();
    assert_eq!(out.status, Status { temperature_unit: TemperatureUnit::Celsius, sign: SIGN_PLUS, is_battery_depleted: false, is_overflow: false });
    assert_eq!(out.function, Function::Temperature);
    assert_eq!(out.range, Range::Range0);
    assert_eq!(out.option2, Option2 { is_dc: false, is_ac: false, is_auto: false });
    assert_eq!(&out.digits.to_value(DigitRadix::Zero), "30");
    assert_eq!(out.get_value(), None);
}

#[test]
fn m_ampere() {
    let inp: Vec<u8> = to_u8("00002?<0:\r\n");
    let results: Vec<Result<Output, ParseError>> = Parser::new().parse(&inp);
    assert_eq!(results.len(), 1);
    let out: &Output = results[0].as_ref().unwrap();
    assert_eq!(out.status, Status { temperature_unit: TemperatureUnit::Celsius, sign: SIGN_MINUS, is_battery_depleted: false, is_overflow: false });
    assert_eq!(out.function, Function::MilliAmpere);
    assert_eq!(out.range, Range::Range0);
    assert_eq!(out.option2, Option2 { is_dc: true, is_ac: false, is_auto: true });
    assert_eq!(&out.digits.to_value(DigitRadix::Zero), "2");
    assert_eq!(out.get_value(), Some(OutputValue { digits: "0.02".to_owned(), value_unit: ValueUnit { prefix_unit: PrefixUnit::Millis, base_unit: BaseUnit::Ampere}}));
}

#[test]
fn ampere() {
    let inp: Vec<u8> = to_u8("000019808\r\n");
    let results: Vec<Result<Output, ParseError>> = Parser::new().parse(&inp);
    assert_eq!(results.len(), 1);
    let out: &Output = results[0].as_ref().unwrap();
    assert_eq!(out.status, Status { temperature_unit: TemperatureUnit::Celsius, sign: SIGN_PLUS, is_battery_depleted: false, is_overflow: false });
    assert_eq!(out.function, Function::ManualAmpere);
    assert_eq!(out.range, Range::Range0);
    assert_eq!(out.option2, Option2 { is_dc: true, is_ac: false, is_auto: false });
    assert_eq!(&out.digits.to_value(DigitRadix::Zero), "1");
    assert_eq!(out.get_value(), Some(OutputValue { digits: "0.001".to_owned(), value_unit: ValueUnit { prefix_unit: PrefixUnit::NoPrefix, base_unit: BaseUnit::Ampere}}));
}

#[test]
fn only_cr() {
    let inp: Vec<u8> = to_u8("000019808\r000019808\r");
    let results: Vec<Result<Output, ParseError>> = Parser::new().parse(&inp);
    assert_eq!(results.len(), 2);
    let out: &Output = results[0].as_ref().unwrap();
    assert_eq!(out.status, Status { temperature_unit: TemperatureUnit::Celsius, sign: SIGN_PLUS, is_battery_depleted: false, is_overflow: false });
    assert_eq!(out.function, Function::ManualAmpere);
    assert_eq!(out.range, Range::Range0);
    assert_eq!(out.option2, Option2 { is_dc: true, is_ac: false, is_auto: false });
    assert_eq!(&out.digits.to_value(DigitRadix::Zero), "1");
    assert_eq!(out.get_value(), Some(OutputValue { digits: "0.001".to_owned(), value_unit: ValueUnit { prefix_unit: PrefixUnit::NoPrefix, base_unit: BaseUnit::Ampere}}));
    assert_eq!(results[0].as_ref(), results[1].as_ref());
}

#[test]
fn crlf() {
    let inp: Vec<u8> = to_u8("000019808\r\n000019808\r\n");
    let results: Vec<Result<Output, ParseError>> = Parser::new().parse(&inp);
    assert_eq!(results.len(), 2);
    let out: &Output = results[0].as_ref().unwrap();
    assert_eq!(out.status, Status { temperature_unit: TemperatureUnit::Celsius, sign: SIGN_PLUS, is_battery_depleted: false, is_overflow: false });
    assert_eq!(out.function, Function::ManualAmpere);
    assert_eq!(out.range, Range::Range0);
    assert_eq!(out.option2, Option2 { is_dc: true, is_ac: false, is_auto: false });
    assert_eq!(&out.digits.to_value(DigitRadix::Zero), "1");
    assert_eq!(out.get_value(), Some(OutputValue { digits: "0.001".to_owned(), value_unit: ValueUnit { prefix_unit: PrefixUnit::NoPrefix, base_unit: BaseUnit::Ampere}}));
    assert_eq!(results[0].as_ref(), results[1].as_ref());
}

#[test]
fn only_lf() {
    let inp: Vec<u8> = to_u8("000019808\n000019808\n");
    let results: Vec<Result<Output, ParseError>> = Parser::new().parse(&inp);
    assert_eq!(results.len(), 2);
    let out: &Output = results[0].as_ref().unwrap();
    assert_eq!(out.status, Status { temperature_unit: TemperatureUnit::Celsius, sign: SIGN_PLUS, is_battery_depleted: false, is_overflow: false });
    assert_eq!(out.function, Function::ManualAmpere);
    assert_eq!(out.range, Range::Range0);
    assert_eq!(out.option2, Option2 { is_dc: true, is_ac: false, is_auto: false });
    assert_eq!(&out.digits.to_value(DigitRadix::Zero), "1");
    assert_eq!(out.get_value(), Some(OutputValue { digits: "0.001".to_owned(), value_unit: ValueUnit { prefix_unit: PrefixUnit::NoPrefix, base_unit: BaseUnit::Ampere}}));
    assert_eq!(results[0].as_ref(), results[1].as_ref());
}

use presence_detector::config::get_config;
use presence_detector::decimal::NumberError;
use presence_detector::pins::{parse_ftdi_pin, parse_gpio_pin, FtdiPin, FtdiPort, PinError};

#[test]
fn ftdi_pins_of_both_ports() {
    assert_eq!(parse_ftdi_pin("A0"), Ok(FtdiPin { port: FtdiPort::A, line: 0 }));
    assert_eq!(parse_ftdi_pin("A7"), Ok(FtdiPin { port: FtdiPort::A, line: 7 }));
    assert_eq!(parse_ftdi_pin("D3"), Ok(FtdiPin { port: FtdiPort::D, line: 3 }));
    assert_eq!(parse_ftdi_pin("D5xyz"), Ok(FtdiPin { port: FtdiPort::D, line: 5 }));
}

#[test]
fn ftdi_pin_errors() {
    assert_eq!(parse_ftdi_pin(""), Err(PinError::InvalidPort));
    assert_eq!(parse_ftdi_pin("B1"), Err(PinError::InvalidPort));
    assert_eq!(parse_ftdi_pin("a1"), Err(PinError::InvalidPort));
    assert_eq!(parse_ftdi_pin("x"), Err(PinError::InvalidPort));
    assert_eq!(parse_ftdi_pin("A"), Err(PinError::InvalidPin));
    assert_eq!(parse_ftdi_pin("A8"), Err(PinError::InvalidPin));
    assert_eq!(parse_ftdi_pin("Dx"), Err(PinError::InvalidPin));
    assert_eq!(PinError::InvalidPort.message(), "Invalid port");
    assert_eq!(PinError::InvalidPin.message(), "Invalid pin");
    assert_eq!(
        PinError::InvalidNumber(NumberError::InvalidDigit).message(),
        "invalid digit found in string"
    );
}

#[test]
fn development_pin_name_is_c_bus_input_0() {
    let config = get_config();
    assert_eq!(parse_ftdi_pin(&config.pin), Ok(FtdiPin { port: FtdiPort::C, line: 0 }));
    assert_eq!(parse_ftdi_pin("C7"), Ok(FtdiPin { port: FtdiPort::C, line: 7 }));
    assert_eq!(parse_ftdi_pin("C8"), Err(PinError::InvalidPin));
    assert_eq!(parse_ftdi_pin("C"), Err(PinError::InvalidPin));
}

#[test]
fn gpio_pin_numbers() {
    assert_eq!(parse_gpio_pin("4"), Ok(4));
    assert_eq!(parse_gpio_pin("+17"), Ok(17));
    assert_eq!(parse_gpio_pin("255"), Ok(255));
    assert_eq!(parse_gpio_pin("256"), Err(PinError::InvalidNumber(NumberError::PosOverflow)));
    assert_eq!(parse_gpio_pin("GPIO4"), Err(PinError::InvalidNumber(NumberError::InvalidDigit)));
    assert_eq!(parse_gpio_pin(""), Err(PinError::InvalidNumber(NumberError::Empty)));
    for s in ["", "+", "-", "x9", "300x", "9x", "-0", "1000"] {
        let std_message = s.parse::<u8>().unwrap_err().to_string();
        match parse_gpio_pin(s) {
            Err(e) => assert_eq!(e.message(), std_message, "{:?}", s),
            Ok(v) => panic!("{:?} read as {}", s, v),
        }
    }
}

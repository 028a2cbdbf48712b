use vstd::prelude::*;
use vstd::string::*;
use crate::decimal::{number_error_text, parse_unsigned, parse_unsigned_decimal, NumberError};

verus! {

/// A bank of FTDI input lines, named by its letter: `C` is the C bus, whose
/// inputs are `ci0`..`ci7`; `D` is the AD bus, whose inputs are
/// `adi0`..`adi7`; `A` also selects the C-bus inputs `ci0`..`ci7`.
#[derive(Debug, Clone, Copy, PartialEq, Eq)]
pub enum FtdiPort {
    A,
    C,
    D,
}

/// One FTDI input line: its bank and its number from 0 to 7.
#[derive(Debug, Clone, Copy, PartialEq, Eq)]
pub struct FtdiPin {
    pub port: FtdiPort,
    pub line: u8,
}

/// Why a pin name was refused.
#[derive(Debug, Clone, Copy, PartialEq, Eq)]
pub enum PinError {
    /// A GPIO pin name that std's `str::parse::<u8>` refuses, with its reason.
    InvalidNumber(NumberError),
    /// An FTDI pin name whose first character is not `A`, `C` or `D`.
    InvalidPort,
    /// An FTDI pin name whose second character is not a digit from 0 to 7.
    InvalidPin,
}

impl PinError {
    /// The message the sensor reports for this error.
    pub fn message(&self) -> (msg: &'static str)
        ensures
            msg@ == pin_error_text(*self),
    {
        match self {
            PinError::InvalidNumber(e) => e.message(),
            PinError::InvalidPort => "Invalid port",
            PinError::InvalidPin => "Invalid pin",
        }
    }
}

/// The message of each pin error.
pub open spec fn pin_error_text(e: PinError) -> Seq<char> {
    match e {
        PinError::InvalidNumber(e) => number_error_text(e),
        PinError::InvalidPort => "Invalid port"@,
        PinError::InvalidPin => "Invalid pin"@,
    }
}

/// How an FTDI pin name reads: the first character picks the bank (`A`,
/// `C` or `D`), the second the line (`0` to `7`); anything after them is
/// ignored. A bad bank is reported before a bad line.
pub open spec fn ftdi_pin_of(s: Seq<char>) -> Result<FtdiPin, PinError> {
    if s.len() >= 1 && (s[0] == 'A' || s[0] == 'C' || s[0] == 'D') {
        if s.len() >= 2 && '0' <= s[1] && s[1] <= '7' {
            Ok(
                FtdiPin {
                    port: if s[0] == 'A' {
                        FtdiPort::A
                    } else if s[0] == 'C' {
                        FtdiPort::C
                    } else {
                        FtdiPort::D
                    },
                    line: (s[1] as int - '0' as int) as u8,
                },
            )
        } else {
            Err(PinError::InvalidPin)
        }
    } else {
        Err(PinError::InvalidPort)
    }
}

/// Every bank letter `A`, `C` or `D` followed by a digit from `0` to `7`
/// names that bank's input of that number, whatever follows; a name
/// that does not start with one of those letters is a bad bank, and a good
/// bank letter without such a digit after it is a bad line.
pub proof fn lemma_ftdi_pin_names(s: Seq<char>)
    ensures
        s.len() >= 2 && s[0] == 'A' && '0' <= s[1] <= '7' ==> ftdi_pin_of(s) == Ok::<
            FtdiPin,
            PinError,
        >(FtdiPin { port: FtdiPort::A, line: (s[1] as int - '0' as int) as u8 }),
        s.len() >= 2 && s[0] == 'C' && '0' <= s[1] <= '7' ==> ftdi_pin_of(s) == Ok::<
            FtdiPin,
            PinError,
        >(FtdiPin { port: FtdiPort::C, line: (s[1] as int - '0' as int) as u8 }),
        s.len() >= 2 && s[0] == 'D' && '0' <= s[1] <= '7' ==> ftdi_pin_of(s) == Ok::<
            FtdiPin,
            PinError,
        >(FtdiPin { port: FtdiPort::D, line: (s[1] as int - '0' as int) as u8 }),
        s.len() == 0 || (s[0] != 'A' && s[0] != 'C' && s[0] != 'D') ==> ftdi_pin_of(s) == Err::<
            FtdiPin,
            PinError,
        >(PinError::InvalidPort),
        s.len() >= 1 && (s[0] == 'A' || s[0] == 'C' || s[0] == 'D') && !(s.len() >= 2 && '0'
            <= s[1] <= '7') ==> ftdi_pin_of(s) == Err::<FtdiPin, PinError>(PinError::InvalidPin),
{
}

/// Reads the name of an FTDI input line, such as `C0`, `A3` or `D7`.
pub fn parse_ftdi_pin(pin: &str) -> (res: Result<FtdiPin, PinError>)
    ensures
        res == ftdi_pin_of(pin@),
        res matches Ok(p) ==> p.line < 8,
        res matches Ok(p) ==> pin@.len() >= 2 && p.line == pin@[1] as int - '0' as int && (p.port
            == FtdiPort::A <==> pin@[0] == 'A') && (p.port == FtdiPort::C <==> pin@[0] == 'C') && (
        p.port == FtdiPort::D <==> pin@[0] == 'D'),
        pin@.len() >= 2 && (pin@[0] == 'A' || pin@[0] == 'C' || pin@[0] == 'D') && '0' <= pin@[1]
            <= '7' ==> res is Ok,
        pin@.len() == 0 || (pin@[0] != 'A' && pin@[0] != 'C' && pin@[0] != 'D') ==> res == Err::<
            FtdiPin,
            PinError,
        >(PinError::InvalidPort),
{
    let n = pin.unicode_len();
    if n == 0 {
        return Err(PinError::InvalidPort);
    }
    let first = pin.get_char(0);
    let port = if first == 'A' {
        FtdiPort::A
    } else if first == 'C' {
        FtdiPort::C
    } else if first == 'D' {
        FtdiPort::D
    } else {
        return Err(PinError::InvalidPort);
    };
    if n < 2 {
        return Err(PinError::InvalidPin);
    }
    let second = pin.get_char(1);
    if '0' <= second && second <= '7' {
        Ok(FtdiPin { port, line: (second as u32 - '0' as u32) as u8 })
    } else {
        Err(PinError::InvalidPin)
    }
}

/// Reads a GPIO pin number, as `str::parse::<u8>` reads it: an optional
/// `+` and decimal digits, with a value up to 255; std's reason is kept
/// when it refuses the name.
pub fn parse_gpio_pin(pin: &str) -> (res: Result<u8, PinError>)
    ensures
        match parse_unsigned(pin@, 255) {
            Ok(v) => res == Ok::<u8, PinError>(v as u8),
            Err(e) => res == Err::<u8, PinError>(PinError::InvalidNumber(e)),
        },
{
    match parse_unsigned_decimal(pin, 255) {
        Ok(v) => Ok(v as u8),
        Err(e) => Err(PinError::InvalidNumber(e)),
    }
}

} // verus!

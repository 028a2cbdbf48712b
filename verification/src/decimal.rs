use vstd::prelude::*;
use vstd::string::*;

verus! {

/// Whether `c` is one of the ASCII digits `0` to `9`.
pub open spec fn is_digit(c: char) -> bool {
    '0' <= c && c <= '9'
}

/// The numeric value of an ASCII digit.
pub open spec fn digit_value(c: char) -> nat {
    (c as int - '0' as int) as nat
}

/// The character of a digit value below ten.
pub open spec fn digit_char(d: nat) -> char {
    (d + '0' as int) as char
}

proof fn lemma_digit_roundtrip(d: nat)
    requires
        d < 10,
    ensures
        is_digit(digit_char(d)),
        digit_value(digit_char(d)) == d,
{
}

/// The shortest decimal notation of `n` (no sign, no leading zero).
pub open spec fn decimal_chars(n: nat) -> Seq<char>
    decreases n,
{
    if n < 10 {
        seq![digit_char(n)]
    } else {
        decimal_chars(n / 10).push(digit_char(n % 10))
    }
}

/// The digits that follow an optional leading `+`.
pub open spec fn unsigned_digits(s: Seq<char>) -> Seq<char> {
    if s.len() > 0 && s[0] == '+' {
        s.drop_first()
    } else {
        s
    }
}

/// Why std's `str::parse` refuses a string as an unsigned integer
/// (std's `IntErrorKind` cases that an unsigned type can meet).
#[derive(Debug, Clone, Copy, PartialEq, Eq)]
pub enum NumberError {
    /// The string is empty.
    Empty,
    /// The string holds a character that is not a digit where one is due.
    InvalidDigit,
    /// The value does not fit in the target type.
    PosOverflow,
}

/// The message std's `ParseIntError` shows for each kind of error.
pub open spec fn number_error_text(e: NumberError) -> Seq<char> {
    match e {
        NumberError::Empty => "cannot parse integer from empty string"@,
        NumberError::InvalidDigit => "invalid digit found in string"@,
        NumberError::PosOverflow => "number too large to fit in target type"@,
    }
}

impl NumberError {
    /// The message of this error, as std's `ParseIntError` shows it.
    pub fn message(&self) -> (msg: &'static str)
        ensures
            msg@ == number_error_text(*self),
    {
        match self {
            NumberError::Empty => "cannot parse integer from empty string",
            NumberError::InvalidDigit => "invalid digit found in string",
            NumberError::PosOverflow => "number too large to fit in target type",
        }
    }
}

/// Reads the digits `d` from the left onto the value `acc` read so far, as
/// std does: the first character that is not a digit, or the first digit
/// that takes the value beyond `max`, ends the reading with its error.
pub open spec fn scan_digits(d: Seq<char>, acc: nat, max: nat) -> Result<nat, NumberError>
    decreases d.len(),
{
    if d.len() == 0 {
        Ok(acc)
    } else if !is_digit(d[0]) {
        Err(NumberError::InvalidDigit)
    } else if acc * 10 + digit_value(d[0]) > max {
        Err(NumberError::PosOverflow)
    } else {
        scan_digits(d.drop_first(), acc * 10 + digit_value(d[0]), max)
    }
}

/// How std's `str::parse` reads an unsigned integer whose largest value is
/// `max`: an empty string is `Empty`, a lone sign is `InvalidDigit`, and
/// otherwise an optional `+` is followed by digits read from the left.
pub open spec fn parse_unsigned(s: Seq<char>, max: nat) -> Result<nat, NumberError> {
    if s.len() == 0 {
        Err(NumberError::Empty)
    } else if s.len() == 1 && (s[0] == '+' || s[0] == '-') {
        Err(NumberError::InvalidDigit)
    } else {
        scan_digits(unsigned_digits(s), 0, max)
    }
}

proof fn lemma_scan_push(s: Seq<char>, c: char, acc: nat, max: nat)
    ensures
        scan_digits(s.push(c), acc, max) == match scan_digits(s, acc, max) {
            Ok(v) => scan_digits(seq![c], v, max),
            Err(e) => Err(e),
        },
    decreases s.len(),
{
    if s.len() == 0 {
        assert(s.push(c) =~= seq![c]);
    } else {
        assert(s.push(c).drop_first() =~= s.drop_first().push(c));
        assert(s.push(c)[0] == s[0]);
        if is_digit(s[0]) && acc * 10 + digit_value(s[0]) <= max {
            lemma_scan_push(s.drop_first(), c, acc * 10 + digit_value(s[0]), max);
        }
    }
}

proof fn lemma_scan_decimal_chars(n: nat, max: nat)
    requires
        n <= max,
    ensures
        scan_digits(decimal_chars(n), 0, max) == Ok::<nat, NumberError>(n),
        decimal_chars(n).len() > 0,
        is_digit(decimal_chars(n)[0]),
    decreases n,
{
    lemma_digit_roundtrip(n % 10);
    let c = digit_char(n % 10);
    assert(seq![c].drop_first() =~= Seq::<char>::empty());
    assert(seq![c][0] == c);
    if n < 10 {
        assert(decimal_chars(n) == seq![c]);
        assert(scan_digits(seq![c].drop_first(), n, max) == Ok::<nat, NumberError>(n));
    } else {
        assert(scan_digits(seq![c].drop_first(), n, max) == Ok::<nat, NumberError>(n));
        lemma_scan_decimal_chars(n / 10, max);
        lemma_scan_push(decimal_chars(n / 10), c, 0, max);
        assert(n == (n / 10) * 10 + n % 10);
        assert(decimal_chars(n)[0] == decimal_chars(n / 10)[0]);
    }
}

/// Reading back the decimal notation of any number gives that number:
/// for every `n` up to `max`, `parse_unsigned(decimal_chars(n), max)` is `Ok(n)`.
pub proof fn lemma_parse_decimal_roundtrip(n: nat, max: nat)
    requires
        n <= max,
    ensures
        parse_unsigned(decimal_chars(n), max) == Ok::<nat, NumberError>(n),
{
    lemma_scan_decimal_chars(n, max);
    assert(unsigned_digits(decimal_chars(n)) == decimal_chars(n));
}

fn digit_str(d: u32) -> (s: &'static str)
    requires
        d < 10,
    ensures
        s@ == seq![digit_char(d as nat)],
{
    proof {
        reveal_strlit("0");
        reveal_strlit("1");
        reveal_strlit("2");
        reveal_strlit("3");
        reveal_strlit("4");
        reveal_strlit("5");
        reveal_strlit("6");
        reveal_strlit("7");
        reveal_strlit("8");
        reveal_strlit("9");
    }
    match d {
        0 => "0",
        1 => "1",
        2 => "2",
        3 => "3",
        4 => "4",
        5 => "5",
        6 => "6",
        7 => "7",
        8 => "8",
        _ => "9",
    }
}

/// Writes `n` in decimal notation, as `format!("{n}")` does.
pub fn decimal_string(n: u32) -> (s: String)
    ensures
        s@ == decimal_chars(n as nat),
        parse_unsigned(s@, 0xffff_ffff) == Ok::<nat, NumberError>(n as nat),
    decreases n,
{
    proof {
        lemma_parse_decimal_roundtrip(n as nat, 0xffff_ffff);
    }
    if n < 10 {
        String::from_str(digit_str(n))
    } else {
        let head = decimal_string(n / 10);
        let last = digit_str(n % 10);
        let res = head.concat(last);
        assert(res@ =~= decimal_chars(n as nat));
        res
    }
}

/// Reads an unsigned integer no larger than `max`, as std's `str::parse`
/// does for an unsigned integer type whose largest value is `max`, with
/// the same error.
pub fn parse_unsigned_decimal(s: &str, max: u32) -> (res: Result<u32, NumberError>)
    ensures
        match res {
            Ok(v) => parse_unsigned(s@, max as nat) == Ok::<nat, NumberError>(v as nat),
            Err(e) => parse_unsigned(s@, max as nat) == Err::<nat, NumberError>(e),
        },
        res matches Ok(v) ==> v <= max,
{
    let n = s.unicode_len();
    if n == 0 {
        return Err(NumberError::Empty);
    }
    let first = s.get_char(0);
    if n == 1 && (first == '+' || first == '-') {
        return Err(NumberError::InvalidDigit);
    }
    let start: usize = if first == '+' {
        1
    } else {
        0
    };
    assert(unsigned_digits(s@) =~= s@.subrange(start as int, n as int));
    let mut acc: u64 = 0;
    let mut i: usize = start;
    while i < n
        invariant
            start <= i <= n,
            n == s@.len(),
            acc <= max,
            parse_unsigned(s@, max as nat) == scan_digits(s@.subrange(i as int, n as int), acc as nat, max as nat),
        decreases n - i,
    {
        let c = s.get_char(i);
        let ghost rest = s@.subrange(i as int, n as int);
        assert(rest[0] == c);
        assert(rest.drop_first() =~= s@.subrange(i + 1, n as int));
        if !('0' <= c && c <= '9') {
            return Err(NumberError::InvalidDigit);
        }
        let next: u64 = acc * 10 + (c as u32 - '0' as u32) as u64;
        if next > max as u64 {
            return Err(NumberError::PosOverflow);
        }
        acc = next;
        i = i + 1;
    }
    assert(s@.subrange(n as int, n as int) =~= Seq::<char>::empty());
    Ok(acc as u32)
}

} // verus!

//! Integers that travel as decimal strings.

use vstd::prelude::*;
use vstd::string::*;
use vstd::utf8::{encode_utf8, is_ascii_chars, is_ascii_chars_encode_utf8};

verus! {

/// The character of one decimal digit.
pub open spec fn digit_char(digit: int) -> char {
    ((0x30 + digit) as u8) as char
}

/// The digits of `n`, most significant first, without leading zeros.
pub open spec fn decimal_nat(n: nat) -> Seq<char>
    decreases n,
{
    if n < 10 {
        seq![digit_char(n as int)]
    } else {
        decimal_nat(n / 10).push(digit_char((n % 10) as int))
    }
}

/// The decimal text of `n`: a `-` where it is negative, then its digits.
pub open spec fn decimal(n: int) -> Seq<char> {
    if n < 0 {
        seq!['-'] + decimal_nat((-n) as nat)
    } else {
        decimal_nat(n as nat)
    }
}

/// Whether `byte` is an ASCII digit.
pub open spec fn is_digit(byte: u8) -> bool {
    0x30 <= byte <= 0x39
}

/// Whether every byte is an ASCII digit.
pub open spec fn all_digits(bytes: Seq<u8>) -> bool {
    forall|i: int| 0 <= i < bytes.len() ==> is_digit(#[trigger] bytes[i])
}

/// The number that a run of digits writes.
pub open spec fn digits_value(bytes: Seq<u8>) -> nat
    decreases bytes.len(),
{
    if bytes.len() == 0 {
        0
    } else {
        (digits_value(bytes.drop_last()) * 10 + (bytes.last() - 0x30)) as nat
    }
}

/// Whether the text starts with a sign.
pub open spec fn has_sign(bytes: Seq<u8>) -> bool {
    bytes.len() > 0 && (bytes[0] == 0x2B || bytes[0] == 0x2D)
}

/// The text without its sign.
pub open spec fn unsigned_part(bytes: Seq<u8>) -> Seq<u8> {
    if has_sign(bytes) {
        bytes.subrange(1, bytes.len() as int)
    } else {
        bytes
    }
}

/// An optional `+` or `-`, then one digit or more.
pub open spec fn is_numeral(bytes: Seq<u8>) -> bool {
    unsigned_part(bytes).len() > 0 && all_digits(unsigned_part(bytes))
}

/// The number that a numeral writes.
pub open spec fn numeral_value(bytes: Seq<u8>) -> int {
    if bytes.len() > 0 && bytes[0] == 0x2D {
        -(digits_value(unsigned_part(bytes)) as int)
    } else {
        digits_value(unsigned_part(bytes)) as int
    }
}

/// Why a text is not the decimal form of a value of the type asked for.
#[derive(Clone, Copy, Debug, PartialEq, Eq, Structural)]
pub enum DecimalError {
    /// The text is empty.
    Empty,
    /// The text is not an optional sign followed by digits, or has a `-` where
    /// the type has no negative values.
    InvalidDigit,
    /// The number is above the largest value of the type.
    PosOverflow,
    /// The number is below the smallest value of the type.
    NegOverflow,
}

/// What reading `bytes` as an integer between `low` and `high` gives.
/// Where `low` is zero a `-` is no sign.
pub open spec fn read_spec(bytes: Seq<u8>, low: int, high: int) -> Result<int, DecimalError> {
    if bytes.len() == 0 {
        Err(DecimalError::Empty)
    } else if !is_numeral(bytes) || (low == 0 && bytes[0] == 0x2D) {
        Err(DecimalError::InvalidDigit)
    } else if numeral_value(bytes) > high {
        Err(DecimalError::PosOverflow)
    } else if numeral_value(bytes) < low {
        Err(DecimalError::NegOverflow)
    } else {
        Ok(numeral_value(bytes))
    }
}

/// An integer type whose values are written in decimal.
pub trait Decimal: Sized {
    /// The number that the value stands for.
    spec fn number(&self) -> int;

    /// The smallest number of the type.
    spec fn low() -> int;

    /// The largest number of the type.
    spec fn high() -> int;

    /// Writes the value in decimal.
    fn to_decimal(&self) -> (text: String)
        ensures
            text@ == decimal(self.number()),
    ;

    /// Reads a value from its decimal text.
    fn from_decimal(text: &str) -> (result: Result<Self, DecimalError>)
        ensures
            match result {
                Ok(value) => read_spec(text.spec_bytes(), Self::low(), Self::high()) == Ok::<
                    int,
                    DecimalError,
                >(value.number()),
                Err(error) => read_spec(text.spec_bytes(), Self::low(), Self::high()) == Err::<
                    int,
                    DecimalError,
                >(error),
            },
    ;
}

fn digit_of(digit: u8) -> (ch: char)
    requires
        digit < 10,
    ensures
        ch == digit_char(digit as int),
{
    (0x30 + digit) as char
}

fn push_decimal(out: &mut String, n: u64)
    ensures
        final(out)@ == old(out)@ + decimal_nat(n as nat),
    decreases n,
{
    if n >= 10 {
        push_decimal(out, n / 10);
    }
    out.push(digit_of((n % 10) as u8));
    proof {
        if n >= 10 {
            assert(final(out)@ == old(out)@ + decimal_nat(n as nat));
        } else {
            assert(old(out)@.push(digit_char(n as int)) == old(out)@ + seq![digit_char(n as int)]);
        }
    }
}

/// Writes a magnitude with a `-` before it where `negative` holds.
fn signed_text(negative: bool, magnitude: u64) -> (text: String)
    requires
        negative ==> magnitude > 0,
    ensures
        negative ==> text@ == decimal(-(magnitude as int)),
        !negative ==> text@ == decimal(magnitude as int),
{
    let mut text = String::new();
    if negative {
        text.push('-');
        assert(text@ == seq!['-']);
    }
    push_decimal(&mut text, magnitude);
    proof {
        if !negative {
            assert(Seq::<char>::empty() + decimal_nat(magnitude as nat) == decimal_nat(
                magnitude as nat,
            ));
        }
    }
    text
}

/// A magnitude read from digits, or the news that it is above `u64::MAX`.
enum Magnitude {
    Fits(u64),
    TooLarge,
}

proof fn digits_value_grows(bytes: Seq<u8>, i: int)
    requires
        0 <= i < bytes.len(),
        all_digits(bytes),
    ensures
        digits_value(bytes.take(i)) <= digits_value(bytes.take(i + 1)),
        digits_value(bytes.take(i + 1)) == digits_value(bytes.take(i)) * 10 + (bytes[i] - 0x30),
{
    assert(bytes.take(i + 1).drop_last() == bytes.take(i));
    assert(bytes.take(i + 1).last() == bytes[i]);
    assert(is_digit(bytes[i]));
}

proof fn digits_value_monotone(bytes: Seq<u8>, i: int)
    requires
        0 <= i <= bytes.len(),
        all_digits(bytes),
    ensures
        digits_value(bytes.take(i)) <= digits_value(bytes),
    decreases bytes.len() - i,
{
    if i < bytes.len() {
        digits_value_grows(bytes, i);
        digits_value_monotone(bytes, i + 1);
    } else {
        assert(bytes.take(i) == bytes);
    }
}

/// Reads the sign and the magnitude of a numeral.
fn read_numeral(bytes: &[u8]) -> (result: Result<(bool, Magnitude), DecimalError>)
    ensures
        match result {
            Ok((negative, magnitude)) => {
                &&& is_numeral(bytes@)
                &&& negative == (bytes@[0] == 0x2D)
                &&& match magnitude {
                    Magnitude::Fits(value) => value == digits_value(unsigned_part(bytes@)),
                    Magnitude::TooLarge => digits_value(unsigned_part(bytes@)) > u64::MAX,
                }
            },
            Err(error) => {
                &&& !is_numeral(bytes@)
                &&& error == if bytes@.len() == 0 {
                    DecimalError::Empty
                } else {
                    DecimalError::InvalidDigit
                }
            },
        },
{
    if bytes.len() == 0 {
        return Err(DecimalError::Empty);
    }
    let signed = bytes[0] == 0x2B || bytes[0] == 0x2D;
    let negative = bytes[0] == 0x2D;
    let start: usize = if signed {
        1
    } else {
        0
    };
    let ghost digits = unsigned_part(bytes@);
    assert(digits == bytes@.subrange(start as int, bytes@.len() as int));
    if start == bytes.len() {
        return Err(DecimalError::InvalidDigit);
    }
    let mut i: usize = start;
    let mut value: u64 = 0;
    let mut too_large = false;
    while i < bytes.len()
        invariant
            start <= i <= bytes.len(),
            start <= 1,
            digits == unsigned_part(bytes@),
            digits == bytes@.subrange(start as int, bytes@.len() as int),
            all_digits(digits.take(i - start)),
            !too_large ==> value == digits_value(digits.take(i - start)),
            too_large ==> digits_value(digits.take(i - start)) > u64::MAX,
        decreases bytes.len() - i,
    {
        let byte = bytes[i];
        if byte < 0x30 || byte > 0x39 {
            proof {
                assert(digits[i - start] == byte);
                assert(!is_digit(digits[i - start]));
            }
            return Err(DecimalError::InvalidDigit);
        }
        proof {
            assert(digits[i - start] == byte);
            assert forall|k: int| 0 <= k < digits.take(i + 1 - start).len() implies is_digit(
                #[trigger] digits.take(i + 1 - start)[k],
            ) by {
                if k < i - start {
                    assert(digits.take(i - start)[k] == digits.take(i + 1 - start)[k]);
                }
            }
            digits_value_grows(digits.take(i + 1 - start), i - start);
            assert(digits.take(i + 1 - start).take(i - start) == digits.take(i - start));
            assert(digits.take(i + 1 - start).take(i + 1 - start) == digits.take(i + 1 - start));
        }
        let digit: u64 = (byte - 0x30) as u64;
        if !too_large {
            if value > (u64::MAX - digit) / 10 {
                too_large = true;
            } else {
                value = value * 10 + digit;
            }
        }
        i += 1;
    }
    proof {
        assert(digits.take(i - start) == digits);
    }
    if too_large {
        Ok((negative, Magnitude::TooLarge))
    } else {
        Ok((negative, Magnitude::Fits(value)))
    }
}

impl Decimal for u64 {
    open spec fn number(&self) -> int {
        *self as int
    }

    open spec fn low() -> int {
        0
    }

    open spec fn high() -> int {
        u64::MAX as int
    }

    fn to_decimal(&self) -> (text: String) {
        let text = signed_text(false, *self);
        assert(text@ == decimal(*self as int));
        text
    }

    fn from_decimal(text: &str) -> (result: Result<Self, DecimalError>) {
        match read_numeral(text.as_bytes()) {
            Err(error) => Err(error),
            Ok((negative, magnitude)) => {
                if negative {
                    Err(DecimalError::InvalidDigit)
                } else {
                    match magnitude {
                        Magnitude::Fits(value) => Ok(value),
                        Magnitude::TooLarge => Err(DecimalError::PosOverflow),
                    }
                }
            },
        }
    }
}

impl Decimal for i64 {
    open spec fn number(&self) -> int {
        *self as int
    }

    open spec fn low() -> int {
        i64::MIN as int
    }

    open spec fn high() -> int {
        i64::MAX as int
    }

    fn to_decimal(&self) -> (text: String) {
        let n = *self;
        let negative = n < 0;
        let magnitude: u64 = if n == i64::MIN {
            0x8000_0000_0000_0000
        } else if negative {
            (-n) as u64
        } else {
            n as u64
        };
        let text = signed_text(negative, magnitude);
        assert(text@ == decimal(n as int));
        assert(self.number() == n as int);
        text
    }

    fn from_decimal(text: &str) -> (result: Result<Self, DecimalError>) {
        match read_numeral(text.as_bytes()) {
            Err(error) => Err(error),
            Ok((negative, magnitude)) => match magnitude {
                Magnitude::TooLarge => if negative {
                    Err(DecimalError::NegOverflow)
                } else {
                    Err(DecimalError::PosOverflow)
                },
                Magnitude::Fits(value) => if negative {
                    if value > 0x8000_0000_0000_0000 {
                        Err(DecimalError::NegOverflow)
                    } else if value == 0x8000_0000_0000_0000 {
                        Ok(i64::MIN)
                    } else {
                        Ok(-(value as i64))
                    }
                } else {
                    if value > 0x7FFF_FFFF_FFFF_FFFF {
                        Err(DecimalError::PosOverflow)
                    } else {
                        Ok(value as i64)
                    }
                },
            },
        }
    }
}

impl Decimal for i32 {
    open spec fn number(&self) -> int {
        *self as int
    }

    open spec fn low() -> int {
        i32::MIN as int
    }

    open spec fn high() -> int {
        i32::MAX as int
    }

    fn to_decimal(&self) -> (text: String) {
        let n = *self;
        let negative = n < 0;
        let magnitude: u64 = if negative {
            (-(n as i64)) as u64
        } else {
            n as u64
        };
        let text = signed_text(negative, magnitude);
        assert(text@ == decimal(n as int));
        assert(self.number() == n as int);
        text
    }

    fn from_decimal(text: &str) -> (result: Result<Self, DecimalError>) {
        match read_numeral(text.as_bytes()) {
            Err(error) => Err(error),
            Ok((negative, magnitude)) => match magnitude {
                Magnitude::TooLarge => if negative {
                    Err(DecimalError::NegOverflow)
                } else {
                    Err(DecimalError::PosOverflow)
                },
                Magnitude::Fits(value) => if negative {
                    if value > 0x8000_0000 {
                        Err(DecimalError::NegOverflow)
                    } else {
                        Ok((-(value as i64)) as i32)
                    }
                } else {
                    if value > 0x7FFF_FFFF {
                        Err(DecimalError::PosOverflow)
                    } else {
                        Ok(value as i32)
                    }
                },
            },
        }
    }
}

/// The bytes of a text that holds ASCII characters only: one for each character.
pub open spec fn ascii_bytes(text: Seq<char>) -> Seq<u8> {
    Seq::new(text.len(), |i: int| text[i] as u8)
}

proof fn decimal_nat_reads_back(n: nat)
    ensures
        decimal_nat(n).len() >= 1,
        is_ascii_chars(decimal_nat(n)),
        all_digits(ascii_bytes(decimal_nat(n))),
        digits_value(ascii_bytes(decimal_nat(n))) == n,
    decreases n,
{
    let text = decimal_nat(n);
    let bytes = ascii_bytes(text);
    if n < 10 {
        assert(text[0] == digit_char(n as int));
        assert(bytes[0] == 0x30 + n);
        assert(bytes.drop_last() =~= Seq::<u8>::empty());
        assert(digits_value(bytes.drop_last()) == 0);
    } else {
        decimal_nat_reads_back(n / 10);
        let head = decimal_nat(n / 10);
        assert(text == head.push(digit_char((n % 10) as int)));
        assert(bytes.drop_last() =~= ascii_bytes(head));
        assert(bytes.last() == 0x30 + n % 10);
        assert forall|i: int| 0 <= i < bytes.len() implies is_digit(#[trigger] bytes[i]) by {
            if i < head.len() {
                assert(bytes[i] == ascii_bytes(head)[i]);
            }
        }
        assert forall|i: int| 0 <= i < text.len() implies '\0' <= #[trigger] text[i]
            <= '\u{7f}' by {
            if i < head.len() {
                assert(text[i] == head[i]);
            }
        }
    }
}

/// Reading the decimal text of a number gives the number back, for every range
/// that holds the number.
pub proof fn decimal_round_trip(n: int, low: int, high: int)
    requires
        low <= n <= high,
    ensures
        read_spec(encode_utf8(decimal(n)), low, high) == Ok::<int, DecimalError>(n),
{
    let text = decimal(n);
    let magnitude = if n < 0 {
        (-n) as nat
    } else {
        n as nat
    };
    decimal_nat_reads_back(magnitude);
    let digits = decimal_nat(magnitude);
    assert(is_ascii_chars(text)) by {
        if n < 0 {
            assert forall|i: int| 0 <= i < text.len() implies '\0' <= #[trigger] text[i]
                <= '\u{7f}' by {
                if i > 0 {
                    assert(text[i] == digits[i - 1]);
                }
            }
        }
    }
    is_ascii_chars_encode_utf8(text);
    let bytes = encode_utf8(text);
    assert(bytes =~= ascii_bytes(text));
    if n < 0 {
        assert(bytes[0] == 0x2D);
        assert(unsigned_part(bytes) =~= ascii_bytes(digits));
    } else {
        assert(bytes =~= ascii_bytes(digits));
        assert(is_digit(bytes[0]));
        assert(unsigned_part(bytes) == bytes);
    }
}

/// The string that stands for `value` in a JSON body.
pub fn serialize<T: Decimal>(value: &T) -> (text: String)
    ensures
        text@ == decimal(value.number()),
{
    value.to_decimal()
}

/// The value that the string `text` of a JSON body stands for.
pub fn deserialize<T: Decimal>(text: &str) -> (result: Result<T, DecimalError>)
    ensures
        match result {
            Ok(value) => read_spec(text.spec_bytes(), T::low(), T::high()) == Ok::<
                int,
                DecimalError,
            >(value.number()),
            Err(error) => read_spec(text.spec_bytes(), T::low(), T::high()) == Err::<
                int,
                DecimalError,
            >(error),
        },
{
    T::from_decimal(text)
}

} // verus!

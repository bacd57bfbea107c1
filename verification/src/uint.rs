//! A 256-bit unsigned integer that is read leniently from text: in decimal,
//! or in hexadecimal after the prefix `0x`.

use vstd::prelude::*;

verus! {

/// A 256-bit unsigned integer, held as four 64-bit words with the most
/// significant word first, so that the derived order is the order of the
/// numbers.
#[derive(Debug, PartialEq, Eq, PartialOrd, Ord, Hash, Clone, Copy)]
pub struct Uint(pub [u64; 4]);

/// The number that four 64-bit words spell, most significant word first.
pub open spec fn words_value(words: Seq<u64>) -> nat {
    (words[0] * 0x1_0000_0000_0000_0000_0000_0000_0000_0000_0000_0000_0000_0000int + words[1]
        * 0x1_0000_0000_0000_0000_0000_0000_0000_0000int + words[2] * 0x1_0000_0000_0000_0000int
        + words[3]) as nat
}

/// Why a text is not read as an integer, or why an integer is not accepted.
#[derive(Debug, PartialEq, Eq, Clone, Copy)]
pub enum UintError {
    /// After the prefix `0x` there are more than 64 characters, or a
    /// character that is no hexadecimal digit.
    InvalidHex,
    /// A decimal text holds a character that is no decimal digit.
    InvalidDecimalCharacter,
    /// A decimal text spells a number that does not fit in 256 bits.
    DecimalTooLarge,
    /// The integer is zero where zero is not accepted.
    Zero,
}

/// The first number that does not fit in 256 bits.
pub open spec fn limit() -> nat {
    0x1_0000_0000_0000_0000_0000_0000_0000_0000_0000_0000_0000_0000_0000_0000_0000_0000nat
}

/// Whether `c` is one of `0` to `9`.
pub open spec fn is_decimal_digit(c: char) -> bool {
    '0' <= c <= '9'
}

/// Whether `c` is a decimal digit or one of `a` to `f`, in either case.
pub open spec fn is_hex_digit(c: char) -> bool {
    '0' <= c <= '9' || 'a' <= c <= 'f' || 'A' <= c <= 'F'
}

/// The value of a decimal or hexadecimal digit, in either case of letter.
pub open spec fn digit_value(c: char) -> nat {
    if '0' <= c <= '9' {
        (c as u32 - '0' as u32) as nat
    } else if 'a' <= c <= 'f' {
        (c as u32 - 'a' as u32 + 10) as nat
    } else {
        (c as u32 - 'A' as u32 + 10) as nat
    }
}

/// The number that a string of digits spells in the given base.
pub open spec fn digits_value(digits: Seq<char>, base: nat) -> nat
    decreases digits.len(),
{
    if digits.len() == 0 {
        0
    } else {
        base * digits_value(digits.drop_last(), base) + digit_value(digits.last())
    }
}

/// Number of decimal digits at the head of a text.
pub open spec fn decimal_prefix_len(text: Seq<char>) -> nat
    decreases text.len(),
{
    if text.len() > 0 && is_decimal_digit(text[0]) {
        1 + decimal_prefix_len(text.drop_first())
    } else {
        0
    }
}

/// What a decimal text is read as. The digits at its head are read first:
/// where they already spell too large a number the text is too large, whatever
/// follows them; otherwise no other character may follow them.
pub open spec fn decimal_value(text: Seq<char>) -> Result<nat, UintError> {
    let head = text.take(decimal_prefix_len(text) as int);
    if digits_value(head, 10) >= limit() {
        Err(UintError::DecimalTooLarge)
    } else if head.len() < text.len() {
        Err(UintError::InvalidDecimalCharacter)
    } else {
        Ok(digits_value(text, 10))
    }
}

/// Whether a text begins with `0x`.
pub open spec fn has_hex_prefix(text: Seq<char>) -> bool {
    text.len() >= 2 && text[0] == '0' && text[1] == 'x'
}

/// A hexadecimal text without the prefix `0x` that may stand before it.
pub open spec fn hex_digits(text: Seq<char>) -> Seq<char> {
    if has_hex_prefix(text) {
        text.skip(2)
    } else {
        text
    }
}

/// Whether every character of `digits` is a hexadecimal digit.
pub open spec fn all_hex_digits(digits: Seq<char>) -> bool {
    forall|i: int| 0 <= i < digits.len() ==> is_hex_digit(#[trigger] digits[i])
}

/// What a hexadecimal text is read as: at most 64 hexadecimal digits, the
/// most significant first, before which the prefix `0x` may stand.
pub open spec fn hex_value(text: Seq<char>) -> Result<nat, UintError> {
    let digits = hex_digits(text);
    if digits.len() <= 64 && all_hex_digits(digits) {
        Ok(digits_value(digits, 16))
    } else {
        Err(UintError::InvalidHex)
    }
}

/// What a text is read as: nothing at all and a bare `0x` as zero, a text that
/// begins with `0x` as the hexadecimal number after the prefix, any other
/// text as a decimal number.
pub open spec fn lenient_value(text: Seq<char>) -> Result<nat, UintError> {
    if text.len() == 0 {
        Ok(0)
    } else if has_hex_prefix(text) {
        if text.len() == 2 {
            Ok(0)
        } else {
            hex_value(text.skip(2))
        }
    } else {
        decimal_value(text)
    }
}

/// Whether `result` is the reading `expected` of a text.
pub open spec fn reads_as(result: Result<Uint, UintError>, expected: Result<nat, UintError>) -> bool {
    match result {
        Ok(uint) => expected == Ok::<nat, UintError>(uint@),
        Err(e) => expected == Err::<nat, UintError>(e),
    }
}

/// Reads a decimal text.
///
/// Calls `U256::from_dec_str` of the crate `primitive_types`. Trusted: it
/// reads the bytes in order, fails with `InvalidCharacter` at the first byte
/// that is no decimal digit, and with `InvalidLength` as soon as the digits
/// read so far spell a number of more than 256 bits; the words of the number
/// come back least significant first.
#[verifier::external_body]
fn from_dec_str(text: &str) -> (result: Result<Uint, UintError>)
    ensures
        reads_as(result, decimal_value(text@)),
{
    match primitive_types::U256::from_dec_str(text) {
        Ok(number) => Ok(Uint([number.0[3], number.0[2], number.0[1], number.0[0]])),
        Err(uint::FromDecStrErr::InvalidCharacter) => Err(UintError::InvalidDecimalCharacter),
        Err(uint::FromDecStrErr::InvalidLength) => Err(UintError::DecimalTooLarge),
    }
}

/// Reads a hexadecimal text.
///
/// Calls `U256::from_str` of the crate `primitive_types`. Trusted: it skips
/// one prefix `0x` if there is one, fails if more than 64 bytes follow or one
/// of them is no hexadecimal digit, and otherwise gives the number that the
/// digits spell; the words of the number come back least significant first.
#[verifier::external_body]
fn from_hex_str(text: &str) -> (result: Result<Uint, UintError>)
    ensures
        reads_as(result, hex_value(text@)),
{
    match text.parse::<primitive_types::U256>() {
        Ok(number) => Ok(Uint([number.0[3], number.0[2], number.0[1], number.0[0]])),
        Err(_) => Err(UintError::InvalidHex),
    }
}

impl View for Uint {
    type V = nat;

    open spec fn view(&self) -> nat {
        words_value(self.0@)
    }
}

impl Default for Uint {
    fn default() -> (zero: Uint)
        ensures
            zero@ == 0,
    {
        Uint([0, 0, 0, 0])
    }
}

impl Uint {
    /// The integer with the value of `value`.
    pub fn from_u64(value: u64) -> (uint: Uint)
        ensures
            uint@ == value,
    {
        Uint([0, 0, 0, value])
    }

    /// Reads an integer from a text: nothing at all and a bare `0x` are zero,
    /// a text that begins with `0x` is the hexadecimal number after the prefix,
    /// any other text is a decimal number.
    pub fn parse(text: &str) -> (result: Result<Uint, UintError>)
        ensures
            reads_as(result, lenient_value(text@)),
    {
        if text.is_empty() {
            return Ok(Uint([0, 0, 0, 0]));
        }
        let len = text.unicode_len();
        if len >= 2 && text.get_char(0) == '0' && text.get_char(1) == 'x' {
            if len == 2 {
                Ok(Uint([0, 0, 0, 0]))
            } else {
                from_hex_str(text.substring_char(2, len))
            }
        } else {
            from_dec_str(text)
        }
    }

    /// Whether the integer is zero.
    pub fn is_zero(&self) -> (zero: bool)
        ensures
            zero == (self@ == 0),
    {
        self.0[0] == 0 && self.0[1] == 0 && self.0[2] == 0 && self.0[3] == 0
    }

    /// The integer as a `u64`, which it has to fit.
    pub fn to_u64(self) -> (value: u64)
        requires
            self@ <= u64::MAX,
        ensures
            value == self@,
    {
        self.0[3]
    }

    /// The integer as a `usize`: where `usize` is narrower than the integer,
    /// its lowest bits.
    pub fn to_usize(self) -> (value: usize)
        requires
            self@ <= u64::MAX,
        ensures
            value == self@ as usize,
            self@ <= usize::MAX ==> value == self@,
    {
        let low = self.0[3];
        #[verifier::truncate]
        (low as usize)
    }

    /// The integer as a `u8`: its lowest eight bits.
    pub fn to_u8(self) -> (value: u8)
        requires
            self@ <= u64::MAX,
        ensures
            value == self@ % 256,
    {
        let low = self.0[3];
        assert(low as u8 == low % 256) by (bit_vector);
        #[verifier::truncate]
        (low as u8)
    }
}

/// Accepts an integer that is not zero.
pub fn validate_non_zero(value: Uint) -> (result: Result<Uint, UintError>)
    ensures
        value@ != 0 ==> result == Ok::<Uint, UintError>(value),
        value@ == 0 ==> result == Err::<Uint, UintError>(UintError::Zero),
{
    if value.is_zero() {
        return Err(UintError::Zero);
    }
    Ok(value)
}

/// Accepts an integer that is not zero, and the absence of one.
pub fn validate_optional_non_zero(value: Option<Uint>) -> (result: Result<Option<Uint>, UintError>)
    ensures
        result == match value {
            Some(uint) if uint@ == 0 => Err::<Option<Uint>, UintError>(UintError::Zero),
            _ => Ok(value),
        },
{
    if let Some(uint) = value {
        if uint.is_zero() {
            return Err(UintError::Zero);
        }
    }
    Ok(value)
}

/// Integers with the same value have the same words, so the derived `==` is
/// equality of values.
pub proof fn lemma_value_injective(a: Uint, b: Uint)
    requires
        a@ == b@,
    ensures
        a == b,
{
    let x = a.0@;
    let y = b.0@;
    assert(x[0] == y[0] && x[1] == y[1] && x[2] == y[2] && x[3] == y[3]);
    assert(x =~= y);
    assert(a.0 =~= b.0);
}

} // verus!

//! The Ethereum conventions for values inside JSON: `0x`-prefixed hex for
//! byte strings and for quantities.

use vstd::prelude::*;
use vstd::string::StringExecFns;
use vstd::string::StrSliceExecFns;
use crate::account::Address;
use crate::account::Signature;
use crate::json::Json;
use crate::json::JsonView;
use crate::json::items_view;
use crate::json::lemma_array_view;

verus! {

/// The lower-case hex digits, by value.
pub open spec fn lower_digits() -> Seq<char> {
    seq!['0', '1', '2', '3', '4', '5', '6', '7', '8', '9', 'a', 'b', 'c', 'd', 'e', 'f']
}

/// The lower-case hex digit of a value below 16.
pub open spec fn hex_digit(n: int) -> char
    recommends
        0 <= n < 16,
{
    lower_digits()[n]
}

/// The value of a digit in the given radix, as `char::to_digit` gives it:
/// decimal digits, then the letters of either case from ten on.
pub open spec fn digit_of(c: char, radix: int) -> Option<int> {
    let v: int = if '0' <= c <= '9' {
        c as int - '0' as int
    } else if 'a' <= c <= 'z' {
        c as int - 'a' as int + 10
    } else if 'A' <= c <= 'Z' {
        c as int - 'A' as int + 10
    } else {
        36
    };
    if v < radix {
        Some(v)
    } else {
        None
    }
}

/// Whether every character is a digit in the given radix.
pub open spec fn all_digits(s: Seq<char>, radix: int) -> bool {
    forall|i: int| 0 <= i < s.len() ==> (#[trigger] digit_of(s[i], radix)) is Some
}

/// Two hex digits for each byte, lower case, high nibble first.
pub open spec fn hex_encode_spec(bytes: Seq<u8>) -> Seq<char> {
    Seq::new(
        2 * bytes.len(),
        |i: int|
            if i % 2 == 0 {
                hex_digit(bytes[i / 2] as int / 16)
            } else {
                hex_digit(bytes[i / 2] as int % 16)
            },
    )
}

/// The bytes that an even number of hex digits of either case stand for;
/// `None` for an odd length or a character that is no hex digit.
pub open spec fn hex_decode_spec(text: Seq<char>) -> Option<Seq<u8>> {
    if text.len() % 2 == 0 && all_digits(text, 16) {
        Some(
            Seq::new(
                text.len() / 2,
                |i: int|
                    (digit_of(text[2 * i], 16).unwrap() * 16 + digit_of(
                        text[2 * i + 1],
                        16,
                    ).unwrap()) as u8,
            ),
        )
    } else {
        None
    }
}

/// The error of `hex::decode`.
#[verifier::external_type_specification]
#[verifier::external_body]
pub struct ExFromHexError(hex::FromHexError);

/// `hex::encode`: two lower-case hex digits for each byte.
#[verifier::external_body]
fn hex_encode(data: &[u8]) -> (text: String)
    ensures
        text@ == hex_encode_spec(data@),
{
    hex::encode(data)
}

/// `hex::decode`: succeeds on an even number of hex digits of either case,
/// and on nothing else; each pair of digits gives one byte.
#[verifier::external_body]
fn hex_decode(text: &str) -> (r: Result<Vec<u8>, hex::FromHexError>)
    ensures
        match r {
            Ok(bytes) => hex_decode_spec(text@) == Some(bytes@),
            Err(_) => hex_decode_spec(text@) is None,
        },
{
    hex::decode(text)
}

/// Why a string is not the encoding of a value.
#[derive(Clone, Copy, Debug, PartialEq, Eq, Structural)]
pub enum DecodeError {
    /// The string does not start with `0x`.
    MissingPrefix,
    /// What follows the prefix is not an even number of hex digits, or not a
    /// number.
    InvalidDigits,
    /// A fixed-width value has another number of bytes.
    InvalidLength,
    /// The number does not fit in 256 bits.
    Overflow,
}

/// The text after a leading `0x`, where there is one.
pub open spec fn strip_prefix_spec(text: Seq<char>) -> Option<Seq<char>> {
    if text.len() >= 2 && text[0] == '0' && text[1] == 'x' {
        Some(text.subrange(2, text.len() as int))
    } else {
        None
    }
}

/// Splits a leading `0x` off.
pub fn strip_prefix(text: &str) -> (rest: Option<&str>)
    ensures
        match rest {
            Some(r) => strip_prefix_spec(text@) == Some(r@),
            None => strip_prefix_spec(text@) is None,
        },
{
    let len = text.unicode_len();
    if len >= 2 && text.get_char(0) == '0' && text.get_char(1) == 'x' {
        Some(text.substring_char(2, len))
    } else {
        None
    }
}

/// `0x` in front of some text.
pub open spec fn prefixed(text: Seq<char>) -> Seq<char> {
    seq!['0', 'x'] + text
}

/// Puts `0x` in front of some text.
pub fn with_prefix(text: &str) -> (r: String)
    ensures
        r@ == prefixed(text@),
{
    proof {
        reveal_strlit("0x");
    }
    let r = "0x".to_owned().concat(text);
    assert(r@ =~= prefixed(text@));
    r
}

/// The encoding of a byte string: `0x`, then two lower-case hex digits for
/// each byte.
pub open spec fn bytes_encode_spec(bytes: Seq<u8>) -> Seq<char> {
    prefixed(hex_encode_spec(bytes))
}

/// The byte string that a text encodes, or why it encodes none.
pub open spec fn bytes_decode_spec(text: Seq<char>) -> Result<Seq<u8>, DecodeError> {
    match strip_prefix_spec(text) {
        None => Err(DecodeError::MissingPrefix),
        Some(digits) => match hex_decode_spec(digits) {
            None => Err(DecodeError::InvalidDigits),
            Some(bytes) => Ok(bytes),
        },
    }
}

/// Encodes a byte string.
pub fn encode_bytes(bytes: &[u8]) -> (text: String)
    ensures
        text@ == bytes_encode_spec(bytes@),
{
    let digits = hex_encode(bytes);
    with_prefix(digits.as_str())
}

/// Decodes a byte string.
pub fn decode_bytes(text: &str) -> (r: Result<Vec<u8>, DecodeError>)
    ensures
        match r {
            Ok(bytes) => bytes_decode_spec(text@) == Ok::<Seq<u8>, DecodeError>(bytes@),
            Err(e) => bytes_decode_spec(text@) == Err::<Seq<u8>, DecodeError>(e),
        },
{
    match strip_prefix(text) {
        None => Err(DecodeError::MissingPrefix),
        Some(digits) => match hex_decode(digits) {
            Ok(bytes) => Ok(bytes),
            Err(_) => Err(DecodeError::InvalidDigits),
        },
    }
}


/// A byte string that travels as `0x`-prefixed hex.
#[derive(Clone, Debug, Default)]
pub struct Bytes<T>(pub T);

impl Bytes<Vec<u8>> {
    /// The text of the byte string.
    pub fn encode(&self) -> (text: String)
        ensures
            text@ == bytes_encode_spec(self.0@),
    {
        encode_bytes(self.0.as_slice())
    }

    /// The byte string of a text.
    pub fn decode(text: &str) -> (r: Result<Self, DecodeError>)
        ensures
            match r {
                Ok(bytes) => bytes_decode_spec(text@) == Ok::<Seq<u8>, DecodeError>(bytes.0@),
                Err(e) => bytes_decode_spec(text@) == Err::<Seq<u8>, DecodeError>(e),
            },
    {
        match decode_bytes(text) {
            Ok(bytes) => Ok(Bytes(bytes)),
            Err(e) => Err(e),
        }
    }
}

/// The bytes of the given width that a text encodes, or why it encodes
/// none.
pub open spec fn fixed_decode_spec(text: Seq<char>, width: nat) -> Result<Seq<u8>, DecodeError> {
    match bytes_decode_spec(text) {
        Err(e) => Err(e),
        Ok(bytes) => if bytes.len() == width {
            Ok(bytes)
        } else {
            Err(DecodeError::InvalidLength)
        },
    }
}

/// Copies a vector of the right length into an array.
pub fn array_of<const N: usize>(bytes: &Vec<u8>) -> (r: [u8; N])
    requires
        bytes@.len() == N,
    ensures
        r@ == bytes@,
{
    let mut out = [0u8;N];
    let mut i: usize = 0;
    while i < N
        invariant
            i <= N,
            bytes@.len() == N,
            forall|j: int| 0 <= j < i ==> out@[j] == bytes@[j],
        decreases N - i,
    {
        out[i] = bytes[i];
        i += 1;
    }
    assert(out@ =~= bytes@);
    out
}

impl<const N: usize> Bytes<[u8; N]> {
    /// The text of the bytes: `2 * N + 2` characters.
    pub fn encode_fixed(&self) -> (text: String)
        ensures
            text@ == bytes_encode_spec(self.0@),
            text@.len() == 2 * N + 2,
    {
        encode_bytes(self.0.as_slice())
    }

    /// The bytes of a text, which must hold exactly `N` of them.
    pub fn decode_fixed(text: &str) -> (r: Result<Self, DecodeError>)
        ensures
            match r {
                Ok(bytes) => fixed_decode_spec(text@, N as nat) == Ok::<Seq<u8>, DecodeError>(
                    bytes.0@,
                ),
                Err(e) => fixed_decode_spec(text@, N as nat) == Err::<Seq<u8>, DecodeError>(e),
            },
    {
        match decode_bytes(text) {
            Err(e) => Err(e),
            Ok(bytes) => if bytes.len() == N {
                Ok(Bytes(array_of(&bytes)))
            } else {
                Err(DecodeError::InvalidLength)
            },
        }
    }
}

impl Bytes<[u8; 65]> {
    /// The signature as it travels: `r`, then `s`, then `v`.
    pub fn from_signature(signature: Signature) -> (bytes: Self)
        ensures
            bytes.0@ == signature.wire(),
    {
        let mut buffer = [0u8;65];
        let mut i: usize = 0;
        while i < 32
            invariant
                i <= 32,
                forall|j: int| 0 <= j < i ==> buffer@[j] == signature.r@[j],
                forall|j: int| 0 <= j < i ==> buffer@[32 + j] == signature.s@[j],
            decreases 32 - i,
        {
            buffer[i] = signature.r[i];
            buffer[32 + i] = signature.s[i];
            i += 1;
        }
        buffer[64] = signature.v;
        assert(buffer@ =~= signature.wire());
        Bytes(buffer)
    }
}

/// Every lower-case hex digit reads back as its value.
pub proof fn lemma_digit_reads_back(n: int)
    requires
        0 <= n < 16,
    ensures
        digit_of(hex_digit(n), 16) == Some(n),
        hex_digit(n) != '+',
        n != 0 ==> hex_digit(n) != '0',
        n == 0 ==> hex_digit(n) == '0',
{
    let d = lower_digits();
    assert(d[0] == '0' && d[1] == '1' && d[2] == '2' && d[3] == '3');
    assert(d[4] == '4' && d[5] == '5' && d[6] == '6' && d[7] == '7');
    assert(d[8] == '8' && d[9] == '9' && d[10] == 'a' && d[11] == 'b');
    assert(d[12] == 'c' && d[13] == 'd' && d[14] == 'e' && d[15] == 'f');
}

/// Whether a character is one of `0` to `9` and `a` to `f`.
pub open spec fn is_lower_hex(c: char) -> bool {
    ('0' <= c <= '9') || ('a' <= c <= 'f')
}

/// Every lower-case hex digit is one.
pub proof fn lemma_digit_is_lower(n: int)
    requires
        0 <= n < 16,
    ensures
        is_lower_hex(hex_digit(n)),
{
    let d = lower_digits();
    assert(d[0] == '0' && d[1] == '1' && d[2] == '2' && d[3] == '3');
    assert(d[4] == '4' && d[5] == '5' && d[6] == '6' && d[7] == '7');
    assert(d[8] == '8' && d[9] == '9' && d[10] == 'a' && d[11] == 'b');
    assert(d[12] == 'c' && d[13] == 'd' && d[14] == 'e' && d[15] == 'f');
}

/// What was put behind `0x` is what is found there.
pub proof fn lemma_strip_prefixed(text: Seq<char>)
    ensures
        strip_prefix_spec(prefixed(text)) == Some(text),
{
    let p = prefixed(text);
    assert(p.subrange(2, p.len() as int) =~= text);
}

/// The nibble that stands at a place of the hex digits of a byte string.
pub open spec fn nibble_at(bytes: Seq<u8>, i: int) -> int {
    if i % 2 == 0 {
        bytes[i / 2] as int / 16
    } else {
        bytes[i / 2] as int % 16
    }
}

/// Each hex digit of a byte string is lower case and reads back as its
/// nibble.
pub proof fn lemma_hex_char(bytes: Seq<u8>, i: int)
    requires
        0 <= i < 2 * bytes.len(),
    ensures
        hex_encode_spec(bytes)[i] == hex_digit(nibble_at(bytes, i)),
        digit_of(hex_encode_spec(bytes)[i], 16) == Some(nibble_at(bytes, i)),
        is_lower_hex(hex_encode_spec(bytes)[i]),
{
    let n = nibble_at(bytes, i);
    assert(0 <= i / 2 < bytes.len());
    assert(0 <= n < 16);
    lemma_digit_reads_back(n);
    lemma_digit_is_lower(n);
}

/// Decoding the hex digits of a byte string gives the byte string.
pub proof fn lemma_hex_roundtrip(bytes: Seq<u8>)
    ensures
        hex_decode_spec(hex_encode_spec(bytes)) == Some(bytes),
        forall|i: int| 0 <= i < 2 * bytes.len() ==> is_lower_hex(#[trigger] hex_encode_spec(bytes)[i]),
{
    let text = hex_encode_spec(bytes);
    assert forall|i: int| 0 <= i < text.len() implies (#[trigger] digit_of(text[i], 16)) is Some by {
        lemma_hex_char(bytes, i);
    }
    assert forall|i: int| 0 <= i < 2 * bytes.len() implies is_lower_hex(#[trigger] text[i]) by {
        lemma_hex_char(bytes, i);
    }
    assert(all_digits(text, 16));
    let back = hex_decode_spec(text).unwrap();
    assert(back.len() == bytes.len());
    assert forall|i: int| 0 <= i < bytes.len() implies back[i] == bytes[i] by {
        lemma_hex_pair(bytes, i);
    }
    assert(back =~= bytes);
}

/// The two hex digits of a byte read back as the byte.
proof fn lemma_hex_pair(bytes: Seq<u8>, i: int)
    requires
        0 <= i < bytes.len(),
    ensures
        (digit_of(hex_encode_spec(bytes)[2 * i], 16).unwrap() * 16 + digit_of(
            hex_encode_spec(bytes)[2 * i + 1],
            16,
        ).unwrap()) as u8 == bytes[i],
{
    let b = bytes[i] as int;
    lemma_hex_char(bytes, 2 * i);
    lemma_hex_char(bytes, 2 * i + 1);
    assert(nibble_at(bytes, 2 * i) == b / 16);
    assert(nibble_at(bytes, 2 * i + 1) == b % 16);
    assert((b / 16) * 16 + b % 16 == b);
}

/// A byte string of `n` bytes is encoded in `2 * n + 2` characters, lower
/// case after the prefix, and decoding the encoding gives the byte string
/// back, at its own width too.
pub proof fn bytes_roundtrip(bytes: Seq<u8>)
    ensures
        bytes_encode_spec(bytes).len() == 2 * bytes.len() + 2,
        bytes_encode_spec(bytes)[0] == '0',
        bytes_encode_spec(bytes)[1] == 'x',
        forall|i: int|
            2 <= i < 2 * bytes.len() + 2 ==> is_lower_hex(#[trigger] bytes_encode_spec(bytes)[i]),
        bytes_decode_spec(bytes_encode_spec(bytes)) == Ok::<Seq<u8>, DecodeError>(bytes),
        fixed_decode_spec(bytes_encode_spec(bytes), bytes.len()) == Ok::<Seq<u8>, DecodeError>(
            bytes,
        ),
{
    lemma_hex_roundtrip(bytes);
    lemma_strip_prefixed(hex_encode_spec(bytes));
    let text = bytes_encode_spec(bytes);
    assert forall|i: int| 2 <= i < 2 * bytes.len() + 2 implies is_lower_hex(#[trigger] text[i]) by {
        assert(text[i] == hex_encode_spec(bytes)[i - 2]);
    }
}


/// The first number that does not fit in 256 bits.
pub open spec fn limit() -> nat {
    0x1_0000_0000_0000_0000_0000_0000_0000_0000_0000_0000_0000_0000_0000_0000_0000_0000nat
}

/// The weight of the high word of a quantity.
pub open spec fn word() -> nat {
    0x1_0000_0000_0000_0000_0000_0000_0000_0000nat
}

/// An unsigned number of up to 256 bits, as its high and low words.
#[derive(Clone, Copy, Debug, Default, PartialEq, Eq, Structural)]
pub struct Quantity {
    pub hi: u128,
    pub lo: u128,
}

impl View for Quantity {
    type V = nat;

    open spec fn view(&self) -> nat {
        self.hi as nat * word() + self.lo as nat
    }
}

/// The digits of a number in a radix of at most 16, lower case and without
/// leading zeros; `0` for zero.
pub open spec fn digits_of(n: nat, radix: int) -> Seq<char>
    recommends
        2 <= radix <= 16,
    decreases n,
    via digits_of_decreases
{
    if n < radix || radix < 2 {
        seq![hex_digit(n as int)]
    } else {
        digits_of((n as int / radix) as nat, radix).push(hex_digit(n as int % radix))
    }
}

#[via_fn]
proof fn digits_of_decreases(n: nat, radix: int) {
    if !(n < radix || radix < 2) {
        assert(0 <= n as int / radix < n) by (nonlinear_arith)
            requires
                2 <= radix <= n,
        ;
    }
}

/// The digits of a number in lower-case hex.
pub open spec fn hex_digits(n: nat) -> Seq<char> {
    digits_of(n, 16)
}

/// The number that digits stand for in the given radix.
pub open spec fn digits_value(s: Seq<char>, radix: int) -> nat
    decreases s.len(),
{
    if s.len() == 0 {
        0
    } else {
        (digits_value(s.drop_last(), radix) * radix + digit_of(s.last(), radix).unwrap()) as nat
    }
}

/// The number that a text stands for in the given radix: an optional `+`,
/// then one digit or more; `None` for any other text and for a number of more
/// than 256 bits.
pub open spec fn radix_parse(text: Seq<char>, radix: int) -> Option<nat> {
    let digits = if text.len() > 0 && text[0] == '+' {
        text.subrange(1, text.len() as int)
    } else {
        text
    };
    if digits.len() > 0 && all_digits(digits, radix) && digits_value(digits, radix) < limit() {
        Some(digits_value(digits, radix))
    } else {
        None
    }
}

/// The error of the integer parsers of `core`.
#[verifier::external_type_specification]
#[verifier::external_body]
pub struct ExParseIntError(core::num::ParseIntError);

/// `ethnum::U256::from_str_radix`: reads an optional `+` and then digits of
/// the radix, letters of either case; fails on an empty text, on any other
/// character and on a number of more than 256 bits.
#[verifier::external_body]
fn u256_from_str_radix(text: &str, radix: u32) -> (r: Result<Quantity, core::num::ParseIntError>)
    requires
        2 <= radix <= 36,
    ensures
        match r {
            Ok(q) => radix_parse(text@, radix as int) == Some(q@),
            Err(_) => radix_parse(text@, radix as int) is None,
        },
{
    let (hi, lo) = ethnum::U256::from_str_radix(text, radix)?.into_words();
    Ok(Quantity { hi, lo })
}

/// `{:#x}` of `ethnum::U256`: `0x`, then the lower-case hex digits of the
/// number without leading zeros.
#[verifier::external_body]
fn u256_lower_hex(q: Quantity) -> (text: String)
    ensures
        text@ == prefixed(hex_digits(q@)),
{
    format!("{:#x}", ethnum::U256::from_words(q.hi, q.lo))
}

/// `ethnum::U256::checked_add`: the sum, unless it takes more than 256 bits.
#[verifier::external_body]
fn u256_checked_add(a: Quantity, b: Quantity) -> (r: Option<Quantity>)
    ensures
        match r {
            Some(q) => q@ == a@ + b@,
            None => a@ + b@ >= limit(),
        },
{
    let sum = ethnum::U256::from_words(a.hi, a.lo).checked_add(ethnum::U256::from_words(b.hi, b.lo))?;
    let (hi, lo) = sum.into_words();
    Some(Quantity { hi, lo })
}

/// `ethnum::U256::checked_mul`: the product, unless it takes more than 256
/// bits.
#[verifier::external_body]
fn u256_checked_mul(a: Quantity, b: Quantity) -> (r: Option<Quantity>)
    ensures
        match r {
            Some(q) => q@ == a@ * b@,
            None => a@ * b@ >= limit(),
        },
{
    let product = ethnum::U256::from_words(a.hi, a.lo).checked_mul(ethnum::U256::from_words(b.hi, b.lo))?;
    let (hi, lo) = product.into_words();
    Some(Quantity { hi, lo })
}

/// The encoding of a quantity: `0x`, then its hex digits.
pub open spec fn quantity_encode_spec(n: nat) -> Seq<char> {
    prefixed(hex_digits(n))
}

/// The quantity that a text encodes, or why it encodes none.
pub open spec fn quantity_decode_spec(text: Seq<char>) -> Result<nat, DecodeError> {
    match strip_prefix_spec(text) {
        None => Err(DecodeError::MissingPrefix),
        Some(digits) => match radix_parse(digits, 16) {
            None => Err(DecodeError::InvalidDigits),
            Some(n) => Ok(n),
        },
    }
}

impl Quantity {
    /// The quantity of a number that fits in a word.
    pub fn new(value: u128) -> (q: Quantity)
        ensures
            q@ == value,
    {
        Quantity { hi: 0, lo: value }
    }

    /// Every quantity is below the limit of 256 bits.
    pub proof fn lemma_bounded(self)
        ensures
            self@ < limit(),
    {
        assert(self.hi as nat * word() <= (word() - 1) * word()) by (nonlinear_arith)
            requires
                self.hi as nat <= word() - 1,
        ;
        assert(word() * word() == limit());
    }

    /// Two quantities of the same number are the same.
    pub proof fn lemma_view_injective(self, other: Quantity)
        requires
            self@ == other@,
        ensures
            self == other,
    {
        assert(self.hi == other.hi) by (nonlinear_arith)
            requires
                self.hi as nat * word() + self.lo as nat == other.hi as nat * word()
                    + other.lo as nat,
                self.lo < word(),
                other.lo < word(),
                word() > 0,
        ;
    }

    /// The text of the quantity.
    pub fn encode(&self) -> (text: String)
        ensures
            text@ == quantity_encode_spec(self@),
    {
        u256_lower_hex(*self)
    }

    /// The quantity of a text.
    pub fn decode(text: &str) -> (r: Result<Quantity, DecodeError>)
        ensures
            match r {
                Ok(q) => quantity_decode_spec(text@) == Ok::<nat, DecodeError>(q@),
                Err(e) => quantity_decode_spec(text@) == Err::<nat, DecodeError>(e),
            },
    {
        match strip_prefix(text) {
            None => Err(DecodeError::MissingPrefix),
            Some(digits) => match u256_from_str_radix(digits, 16) {
                Ok(q) => Ok(q),
                Err(_) => Err(DecodeError::InvalidDigits),
            },
        }
    }

    /// The quantity that a text stands for in a radix from 2 to 36: an
    /// optional `+` and digits, letters of either case.
    pub fn from_str_radix(text: &str, radix: u32) -> (r: Result<Quantity, DecodeError>)
        requires
            2 <= radix <= 36,
        ensures
            match r {
                Ok(q) => radix_parse(text@, radix as int) == Some(q@),
                Err(e) => e == DecodeError::InvalidDigits && radix_parse(text@, radix as int)
                    is None,
            },
    {
        match u256_from_str_radix(text, radix) {
            Ok(q) => Ok(q),
            Err(_) => Err(DecodeError::InvalidDigits),
        }
    }

    /// The sum of two quantities, where it fits in 256 bits.
    pub fn checked_add(self, other: Quantity) -> (r: Option<Quantity>)
        ensures
            match r {
                Some(q) => q@ == self@ + other@,
                None => self@ + other@ >= limit(),
            },
    {
        u256_checked_add(self, other)
    }

    /// The product of two quantities, where it fits in 256 bits.
    pub fn checked_mul(self, other: Quantity) -> (r: Option<Quantity>)
        ensures
            match r {
                Some(q) => q@ == self@ * other@,
                None => self@ * other@ >= limit(),
            },
    {
        u256_checked_mul(self, other)
    }
}

/// What holds of the digits of every number in a radix from 2 to 16: there
/// is at least one, all are lower-case digits of the radix, the first is `0`
/// only for zero, none is a sign, and they stand for the number.
pub proof fn lemma_digits_of(n: nat, radix: int)
    requires
        2 <= radix <= 16,
    ensures
        digits_of(n, radix).len() >= 1,
        all_digits(digits_of(n, radix), radix),
        forall|i: int|
            0 <= i < digits_of(n, radix).len() ==> is_lower_hex(#[trigger] digits_of(n, radix)[i]),
        digits_value(digits_of(n, radix), radix) == n,
        n != 0 ==> digits_of(n, radix)[0] != '0',
        n == 0 ==> digits_of(n, radix) == seq!['0'],
    decreases n,
{
    let s = digits_of(n, radix);
    if n < radix {
        lemma_digit_reads_back(n as int);
        lemma_digit_is_lower(n as int);
        assert(s.drop_last() =~= Seq::<char>::empty());
        assert(digits_value(s.drop_last(), radix) == 0);
        assert(s.last() == hex_digit(n as int));
        if n == 0 {
            assert(s =~= seq!['0']);
        }
    } else {
        let q = (n as int / radix) as nat;
        let r = n as int % radix;
        assert(0 < q < n && 0 <= r < radix && q * radix + r == n) by (nonlinear_arith)
            requires
                q == n as int / radix,
                r == n as int % radix,
                2 <= radix <= n,
        ;
        let head = digits_of(q, radix);
        lemma_digits_of(q, radix);
        lemma_digit_reads_back(r);
        lemma_digit_is_lower(r);
        assert(s.drop_last() =~= head);
        assert(s.last() == hex_digit(r));
        assert(s[0] == head[0]);
        assert forall|i: int| 0 <= i < s.len() implies (#[trigger] digit_of(s[i], radix)) is Some
            && is_lower_hex(s[i]) by {
            if i < head.len() {
                assert(s[i] == head[i]);
            }
        }
    }
}

/// What holds of the hex digits of every number.
pub proof fn lemma_hex_digits(n: nat)
    ensures
        hex_digits(n).len() >= 1,
        all_digits(hex_digits(n), 16),
        forall|i: int| 0 <= i < hex_digits(n).len() ==> is_lower_hex(#[trigger] hex_digits(n)[i]),
        digits_value(hex_digits(n), 16) == n,
        hex_digits(n)[0] != '+',
        n != 0 ==> hex_digits(n)[0] != '0',
        n == 0 ==> hex_digits(n) == seq!['0'],
{
    lemma_digits_of(n, 16);
    assert(is_lower_hex(hex_digits(n)[0]));
}

/// Whether a text is `0x0`, or `0x` and then lower-case hex digits of which
/// the first is not `0`.
pub open spec fn canonical_quantity(text: Seq<char>) -> bool {
    &&& text.len() >= 3
    &&& text[0] == '0'
    &&& text[1] == 'x'
    &&& forall|i: int| 2 <= i < text.len() ==> is_lower_hex(#[trigger] text[i])
    &&& (text.len() == 3 || text[2] != '0')
}

/// The encoding of a quantity is canonical, and decoding it gives the
/// quantity back.
pub proof fn quantity_roundtrip(q: Quantity)
    ensures
        canonical_quantity(quantity_encode_spec(q@)),
        quantity_decode_spec(quantity_encode_spec(q@)) == Ok::<nat, DecodeError>(q@),
{
    let digits = hex_digits(q@);
    let text = quantity_encode_spec(q@);
    q.lemma_bounded();
    lemma_hex_digits(q@);
    lemma_strip_prefixed(digits);
    assert forall|i: int| 2 <= i < text.len() implies is_lower_hex(#[trigger] text[i]) by {
        assert(text[i] == digits[i - 2]);
    }
    assert(text[2] == digits[0]);
    if text.len() != 3 {
        assert(digits.len() != 1);
        assert(q@ != 0);
    }
}


/// No parameters: what a call without any sends as its list.
pub type NoParameters = [(); 0];

/// A value that travels as the text it is written with.
#[derive(Clone, Copy, Debug)]
pub struct Str<T>(pub T);

impl Str<Address> {
    /// The text of the address: `0x` and 40 lower-case hex digits.
    pub fn encode(&self) -> (text: String)
        ensures
            text@ == bytes_encode_spec(self.0@),
    {
        encode_bytes(self.0.0.as_slice())
    }

    /// The address of a text: `0x` and 40 hex digits of either case.
    pub fn decode(text: &str) -> (r: Result<Self, DecodeError>)
        ensures
            match r {
                Ok(address) => fixed_decode_spec(text@, 20) == Ok::<Seq<u8>, DecodeError>(
                    address.0@,
                ),
                Err(e) => fixed_decode_spec(text@, 20) == Err::<Seq<u8>, DecodeError>(e),
            },
    {
        match Bytes::<[u8; 20]>::decode_fixed(text) {
            Ok(bytes) => Ok(Str(Address(bytes.0))),
            Err(e) => Err(e),
        }
    }
}

/// The texts of a list of addresses, in its order.
pub open spec fn addresses_json(addresses: Seq<Address>) -> JsonView {
    JsonView::Array(
        Seq::new(addresses.len(), |i: int| JsonView::String(bytes_encode_spec(addresses[i]@))),
    )
}

/// A list of addresses that travels as a list of their texts.
#[derive(Debug)]
pub struct Addresses<'a>(pub &'a [Address]);

impl<'a> Addresses<'a> {
    /// The JSON array of the texts of the addresses, in their order.
    pub fn to_json(&self) -> (json: Json)
        ensures
            json@ == addresses_json(self.0@),
    {
        let mut items: Vec<Json> = Vec::new();
        let mut i: usize = 0;
        while i < self.0.len()
            invariant
                i <= self.0@.len(),
                items@.len() == i,
                forall|j: int|
                    0 <= j < i ==> items@[j]@ == JsonView::String(
                        bytes_encode_spec(self.0@[j]@),
                    ),
            decreases self.0@.len() - i,
        {
            items.push(Json::String(Str(self.0[i]).encode()));
            i += 1;
        }
        proof {
            lemma_array_view(items);
            assert(items_view(items@) =~= addresses_json(self.0@)->Array_0);
        }
        Json::Array(items)
    }
}

} // verus!

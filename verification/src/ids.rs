//! Unique identifiers for entities and access tokens.
//!
//! Entities are identified by *ids* of the form `<tag>_<raw>` where `<tag>`
//! indicates the type of the entity and `<raw>` is a *raw id* taking one of
//! the following forms:
//!
//! - [`FlatRawId`]: Base 58 numeric string.
//! - [`DatedRawId`]: Base 58 numeric string with a datetime prefix.
//!
//! Ids carry a type prefix, so that one sees at once what type of entity is
//! identified, and they cannot be guessed. They can be randomly generated or
//! derived from a sequence of bytes, e.g., a hash, using a variation of the
//! NTRU Prime encoding. The same schema is used for secret ids, e.g., access
//! tokens; what is shown of a secret id never includes the raw id.

use crate::ids::encoding::encode;
use crate::ids::encoding::encoded;
use crate::ids::errors::InvalidIdError;
use crate::ids::tag::bytes_eq;
use crate::ids::tag::Tag;
use crate::text::string_push;
use vstd::prelude::*;
use vstd::slice::slice_subrange;
use vstd::string::StrSliceExecFns;
use vstd::string::StringExecFns;
use vstd::string::StringSliceAdditionalSpecFns;
use vstd::utf8::encode_utf8;
use vstd::utf8::encode_utf8_valid_utf8;
use vstd::utf8::is_char_boundary_iff_not_is_continuation_byte;
use vstd::utf8::is_char_boundary_start_end_of_seq;

pub mod encoding;
pub mod any;
pub mod errors;
pub mod ids;
pub mod tag;

verus! {

/// Base 58 alphabet for ids.
pub const ALPHABET_BASE58: [char; 58] = [
    '1', '2', '3', '4', '5', '6', '7', '8', '9', 'A', 'B', 'C', 'D', 'E', 'F', 'G', 'H', 'J', 'K',
    'L', 'M', 'N', 'P', 'Q', 'R', 'S', 'T', 'U', 'V', 'W', 'X', 'Y', 'Z', 'a', 'b', 'c', 'd', 'e',
    'f', 'g', 'h', 'i', 'j', 'k', 'm', 'n', 'o', 'p', 'q', 'r', 's', 't', 'u', 'v', 'w', 'x', 'y',
    'z',
];

/// Base 36 alphabet.
pub const ALPHABET_BASE36: [char; 36] = [
    '0', '1', '2', '3', '4', '5', '6', '7', '8', '9', 'a', 'b', 'c', 'd', 'e', 'f', 'g', 'h', 'i',
    'j', 'k', 'l', 'm', 'n', 'o', 'p', 'q', 'r', 's', 't', 'u', 'v', 'w', 'x', 'y', 'z',
];

/// Numeric base of ids (`58`).
pub const BASE: u32 = 58;

/// Limit parameter of the NTRU Prime encoding.
pub const LIMIT: u32 = 0xFFFF;

/// Whether a character is a base 58 digit: a digit or letter of ASCII other
/// than `0`, `I`, `O` and `l`, which are easily mistaken for one another.
pub open spec fn is_base58(c: char) -> bool {
    ('1' <= c <= '9') || ('A' <= c <= 'Z' && c != 'I' && c != 'O') || ('a' <= c <= 'z' && c != 'l')
}

/// Whether a byte is the ASCII code of a base 58 digit.
pub open spec fn is_base58_byte(b: u8) -> bool {
    (0x31 <= b <= 0x39) || (0x41 <= b <= 0x5A && b != 0x49 && b != 0x4F) || (0x61 <= b <= 0x7A
        && b != 0x6C)
}

/// Whether a byte is the ASCII code of a decimal digit.
pub open spec fn is_digit_byte(b: u8) -> bool {
    0x30 <= b <= 0x39
}

/// Check whether a character is a base 58 digit.
pub fn is_base58_digit(c: char) -> (is_digit: bool)
    ensures
        is_digit == is_base58(c),
{
    ('1' <= c && c <= '9') || ('A' <= c && c <= 'Z' && c != 'I' && c != 'O') || ('a' <= c && c
        <= 'z' && c != 'l')
}

/// Every character of the base 58 alphabet is a base 58 digit: an id that is
/// generated or derived from bytes is accepted when it is parsed.
pub proof fn lemma_alphabet_is_base58(index: int)
    requires
        0 <= index < 58,
    ensures
        is_base58(ALPHABET_BASE58@[index]),
{
    assert(ALPHABET_BASE58@ =~= seq![
        '1', '2', '3', '4', '5', '6', '7', '8', '9', 'A', 'B', 'C', 'D', 'E', 'F', 'G', 'H', 'J',
        'K', 'L', 'M', 'N', 'P', 'Q', 'R', 'S', 'T', 'U', 'V', 'W', 'X', 'Y', 'Z', 'a', 'b', 'c',
        'd', 'e', 'f', 'g', 'h', 'i', 'j', 'k', 'm', 'n', 'o', 'p', 'q', 'r', 's', 't', 'u', 'v',
        'w', 'x', 'y', 'z',
    ]);
}

/// Whether every byte is the code of a base 58 digit.
pub open spec fn all_base58(bytes: Seq<u8>) -> bool {
    forall|i: int| 0 <= i < bytes.len() ==> is_base58_byte(#[trigger] bytes[i])
}

/// Whether every byte is the code of a decimal digit.
pub open spec fn all_digits(bytes: Seq<u8>) -> bool {
    forall|i: int| 0 <= i < bytes.len() ==> is_digit_byte(#[trigger] bytes[i])
}

/// Whether `at` is the first place at which the byte occurs.
pub open spec fn is_first_index(bytes: Seq<u8>, byte: u8, at: int) -> bool {
    &&& 0 <= at < bytes.len()
    &&& bytes[at] == byte
    &&& forall|i: int| 0 <= i < at ==> bytes[i] != byte
}

/// Whether `at` is the last place at which the byte occurs.
pub open spec fn is_last_index(bytes: Seq<u8>, byte: u8, at: int) -> bool {
    &&& 0 <= at < bytes.len()
    &&& bytes[at] == byte
    &&& forall|i: int| at < i < bytes.len() ==> bytes[i] != byte
}

/// The first place at which the byte occurs, if it occurs.
pub open spec fn first_index(bytes: Seq<u8>, byte: u8) -> Option<int> {
    if exists|at: int| is_first_index(bytes, byte, at) {
        Some(choose|at: int| is_first_index(bytes, byte, at))
    } else {
        None
    }
}

/// The last place at which the byte occurs, if it occurs.
pub open spec fn last_index(bytes: Seq<u8>, byte: u8) -> Option<int> {
    if exists|at: int| is_last_index(bytes, byte, at) {
        Some(choose|at: int| is_last_index(bytes, byte, at))
    } else {
        None
    }
}

/// Checks that every byte is the code of a base 58 digit.
fn check_all_base58(bytes: &[u8]) -> (all: bool)
    ensures
        all == all_base58(bytes@),
{
    let mut i: usize = 0;
    while i < bytes.len()
        invariant
            i <= bytes@.len(),
            forall|j: int| 0 <= j < i ==> is_base58_byte(#[trigger] bytes@[j]),
        decreases bytes@.len() - i,
    {
        let b = bytes[i];
        if !((0x31 <= b && b <= 0x39) || (0x41 <= b && b <= 0x5A && b != 0x49 && b != 0x4F) || (
        0x61 <= b && b <= 0x7A && b != 0x6C)) {
            return false;
        }
        i += 1;
    }
    true
}

/// Checks that every byte is the code of a decimal digit.
fn check_all_digits(bytes: &[u8]) -> (all: bool)
    ensures
        all == all_digits(bytes@),
{
    let mut i: usize = 0;
    while i < bytes.len()
        invariant
            i <= bytes@.len(),
            forall|j: int| 0 <= j < i ==> is_digit_byte(#[trigger] bytes@[j]),
        decreases bytes@.len() - i,
    {
        let b = bytes[i];
        if !(0x30 <= b && b <= 0x39) {
            return false;
        }
        i += 1;
    }
    true
}

/// Finds the first place at which the byte occurs.
pub fn find_first(bytes: &[u8], byte: u8) -> (found: Option<usize>)
    ensures
        match found {
            Some(at) => first_index(bytes@, byte) == Some(at as int) && at < bytes@.len(),
            None => first_index(bytes@, byte) is None,
        },
{
    let mut i: usize = 0;
    while i < bytes.len()
        invariant
            i <= bytes@.len(),
            forall|j: int| 0 <= j < i ==> bytes@[j] != byte,
        decreases bytes@.len() - i,
    {
        if bytes[i] == byte {
            assert(is_first_index(bytes@, byte, i as int));
            assert(forall|at: int| is_first_index(bytes@, byte, at) ==> at == i);
            return Some(i);
        }
        i += 1;
    }
    assert(forall|at: int| !is_first_index(bytes@, byte, at));
    None
}

/// Finds the last place at which the byte occurs.
pub fn find_last(bytes: &[u8], byte: u8) -> (found: Option<usize>)
    ensures
        match found {
            Some(at) => last_index(bytes@, byte) == Some(at as int) && at < bytes@.len(),
            None => last_index(bytes@, byte) is None,
        },
{
    let mut i: usize = bytes.len();
    while i > 0
        invariant
            i <= bytes@.len(),
            forall|j: int| i <= j < bytes@.len() ==> bytes@[j] != byte,
        decreases i,
    {
        i -= 1;
        if bytes[i] == byte {
            assert(is_last_index(bytes@, byte, i as int));
            assert(forall|at: int| is_last_index(bytes@, byte, at) ==> at == i);
            return Some(i);
        }
    }
    assert(forall|at: int| !is_last_index(bytes@, byte, at));
    None
}

/// `rand::rng()` and `Rng::random_range`: a number below the bound, drawn
/// uniformly from the generator of the thread. Nothing but the range is known
/// of it. The outside function panics on an empty range, so the bound is
/// positive.
#[verifier::external_body]
fn random_below(bound: u32) -> (drawn: u32)
    requires
        bound > 0,
    ensures
        drawn < bound,
{
    rand::Rng::random_range(&mut rand::rng(), 0..bound)
}

/// Whether every character is a base 58 digit.
pub open spec fn all_base58_chars(chars: Seq<char>) -> bool {
    forall|i: int| 0 <= i < chars.len() ==> is_base58(#[trigger] chars[i])
}

/// The number of bytes that the characters take as UTF-8.
pub open spec fn byte_len(chars: Seq<char>) -> nat {
    encode_utf8(chars).len()
}

/// Fill the given string up to the given size in bytes with randomly
/// generated base 58 digits, each drawn uniformly. A string that is as long
/// or longer stays as it is.
pub fn fill_random_base58_digits(str: &mut String, size: usize)
    ensures
        final(str)@.len() == old(str)@.len() + if size > byte_len(old(str)@) {
            size - byte_len(old(str)@)
        } else {
            0
        },
        final(str)@.take(old(str)@.len() as int) == old(str)@,
        all_base58_chars(final(str)@.skip(old(str)@.len() as int)),
{
    let len = str.as_str().as_bytes().len();
    let mut missing: usize = if size > len {
        size - len
    } else {
        0
    };
    let ghost wanted = missing;
    assert(str@.take(str@.len() as int) =~= str@);
    while missing > 0
        invariant
            missing <= wanted,
            wanted == if size > byte_len(old(str)@) {
                size - byte_len(old(str)@)
            } else {
                0
            },
            str@.len() == old(str)@.len() + wanted - missing,
            str@.take(old(str)@.len() as int) == old(str)@,
            all_base58_chars(str@.skip(old(str)@.len() as int)),
        decreases missing,
    {
        let digit = random_below(BASE);
        let ghost before = str@;
        proof {
            lemma_alphabet_is_base58(digit as int);
        }
        string_push(str, ALPHABET_BASE58[digit as usize]);
        assert(str@.take(old(str)@.len() as int) =~= before.take(old(str)@.len() as int));
        assert(str@.skip(old(str)@.len() as int) =~= before.skip(old(str)@.len() as int).push(
            ALPHABET_BASE58@[digit as int],
        ));
        missing -= 1;
    }
}

/// Raw id without a tag.
#[derive(Debug, PartialEq, Eq, Hash)]
pub struct RawId {
    str: String,
}

impl View for RawId {
    type V = Seq<char>;

    closed spec fn view(&self) -> Seq<char> {
        self.str@
    }
}

impl RawId {
    /// Create a raw id from the given string.
    pub fn new(str: &str) -> (raw: Self)
        ensures
            raw@ == str@,
    {
        Self { str: str.to_owned() }
    }

    /// String representation of the raw id.
    pub fn as_str(&self) -> (str: &str)
        ensures
            str@ == self@,
    {
        self.str.as_str()
    }
}

/// `jiff::Timestamp`: a point in time. Nothing is known of a value but that
/// it can be handed on.
#[verifier::external_type_specification]
#[verifier::external_body]
pub struct ExTimestamp(jiff::Timestamp);

/// `TryFrom<SystemTime>` of `jiff::Timestamp` on the time of the system
/// clock: the current time, unless it lies outside of what a timestamp can
/// hold.
#[verifier::external_body]
fn timestamp_now() -> (now: Option<jiff::Timestamp>) {
    jiff::Timestamp::try_from(std::time::SystemTime::now()).ok()
}

/// `jiff::fmt::strtime::format`: the timestamp written out as the format
/// says, unless the format cannot be applied.
#[verifier::external_body]
fn timestamp_format(format: &str, timestamp: jiff::Timestamp) -> (text: Option<String>) {
    jiff::fmt::strtime::format(format, timestamp).ok()
}

/// Why a string is no dated raw id, or `None` where it is one.
///
/// A dated raw id is a date of eight decimal digits, a time of four decimal
/// digits and a number in base 58, with `-` between them. The string is cut
/// at its last `-`, and what stands before at its first.
pub open spec fn dated_refusal(bytes: Seq<u8>) -> Option<Seq<char>> {
    match last_index(bytes, 0x2D) {
        None => Some("missing '-' separator in dated raw id"@),
        Some(last) => {
            let datetime = bytes.take(last);
            let suffix = bytes.skip(last + 1);
            match first_index(datetime, 0x2D) {
                None => Some("missing '-' separator in dated raw id"@),
                Some(first) => {
                    let date = datetime.take(first);
                    let time = datetime.skip(first + 1);
                    if date.len() != 8 {
                        Some("invalid date length"@)
                    } else if time.len() != 4 {
                        Some("invalid time length"@)
                    } else if !all_digits(date) {
                        Some("invalid character in date"@)
                    } else if !all_digits(time) {
                        Some("invalid character in time"@)
                    } else if !all_base58(suffix) {
                        Some("invalid digit in raw id"@)
                    } else {
                        None
                    }
                },
            }
        },
    }
}

/// Checks whether the bytes are those of a dated raw id, and says why where
/// they are not.
pub fn check_dated(bytes: &[u8]) -> (refusal: Option<&'static str>)
    ensures
        match dated_refusal(bytes@) {
            Some(reason) => refusal is Some && refusal->0@ == reason,
            None => refusal is None,
        },
{
    let len = bytes.len();
    let last = match find_last(bytes, 0x2D) {
        Some(last) => last,
        None => {
            return Some("missing '-' separator in dated raw id");
        },
    };
    let datetime = slice_subrange(bytes, 0, last);
    let suffix = slice_subrange(bytes, last + 1, len);
    assert(datetime@ =~= bytes@.take(last as int));
    assert(suffix@ =~= bytes@.skip(last + 1));
    let first = match find_first(datetime, 0x2D) {
        Some(first) => first,
        None => {
            return Some("missing '-' separator in dated raw id");
        },
    };
    let date = slice_subrange(datetime, 0, first);
    let time = slice_subrange(datetime, first + 1, datetime.len());
    assert(date@ =~= datetime@.take(first as int));
    assert(time@ =~= datetime@.skip(first + 1));
    if date.len() != 8 {
        return Some("invalid date length");
    }
    if time.len() != 4 {
        return Some("invalid time length");
    }
    if !check_all_digits(date) {
        return Some("invalid character in date");
    }
    if !check_all_digits(time) {
        return Some("invalid character in time");
    }
    if check_all_base58(suffix) {
        None
    } else {
        Some("invalid digit in raw id")
    }
}

/// Why a string is no flat raw id, or `None` where it is one: a flat raw id
/// is made of base 58 digits only.
pub open spec fn flat_refusal(bytes: Seq<u8>) -> Option<Seq<char>> {
    if all_base58(bytes) {
        None
    } else {
        Some("invalid digit in raw id"@)
    }
}

/// Checks whether the bytes are those of a flat raw id, and says why where
/// they are not.
pub fn check_flat(bytes: &[u8]) -> (refusal: Option<&'static str>)
    ensures
        match flat_refusal(bytes@) {
            Some(reason) => refusal is Some && refusal->0@ == reason,
            None => refusal is None,
        },
{
    if check_all_base58(bytes) {
        None
    } else {
        Some("invalid digit in raw id")
    }
}

/// Whether a raw id is the given date and time, then `-`, then base 58
/// digits only.
pub open spec fn generated_at(id: Seq<char>, datetime: Seq<char>) -> bool {
    &&& id.len() > datetime.len()
    &&& id.take(datetime.len() as int + 1) == datetime.push('-')
    &&& all_base58_chars(id.skip(datetime.len() as int + 1))
}

/// The number of base 58 digits that fill a text up to a size in bytes:
/// what the text lacks of the size, and none where it is as long or longer.
pub open spec fn fill_len(text: Seq<char>, size: usize) -> nat {
    if size > byte_len(text) {
        (size - byte_len(text)) as nat
    } else {
        0
    }
}

/// Whether a raw id is the given date and time, then `-`, then as many base
/// 58 digits as fill it up to the given size in bytes.
pub open spec fn generated_to(id: Seq<char>, datetime: Seq<char>, size: usize) -> bool {
    &&& generated_at(id, datetime)
    &&& id.len() == datetime.len() + 1 + fill_len(datetime.push('-'), size)
}

/// Whether a raw id is some text, then `-`, then as many base 58 digits as
/// fill it up to the given size in bytes.
pub open spec fn is_generated_to(id: Seq<char>, size: usize) -> bool {
    exists|datetime: Seq<char>| generated_to(id, datetime, size)
}

/// Dated raw id without a tag.
#[derive(Debug, PartialEq, Eq, Hash)]
pub struct DatedRawId {
    /// Underlying raw id.
    raw: RawId,
}

impl View for DatedRawId {
    type V = Seq<char>;

    closed spec fn view(&self) -> Seq<char> {
        self.raw@
    }
}

impl DatedRawId {
    /// Create a new dated raw id without checking its validity.
    pub fn from_raw_unchecked(raw: RawId) -> (id: Self)
        ensures
            id@ == raw@,
    {
        Self { raw }
    }

    /// A dated raw id that starts with the given date and time, followed by
    /// `-` and random base 58 digits up to the given size in bytes.
    pub fn generate_at(datetime: &str, size: usize) -> (id: Self)
        ensures
            generated_to(id@, datetime@, size),
    {
        let mut str = String::from_str(datetime);
        string_push(&mut str, '-');
        fill_random_base58_digits(&mut str, size);
        Self::from_raw_unchecked(RawId::new(str.as_str()))
    }

    /// Generate a random dated raw id with the given size and current date:
    /// the date and time as the clock of the system shows them, then `-`,
    /// then random base 58 digits up to the size. There is none where the
    /// clock shows no time that can be written as a date.
    pub fn generate(size: usize) -> (id: Option<Self>)
        ensures
            id is Some ==> is_generated_to(id->0@, size),
    {
        let now = match timestamp_now() {
            Some(now) => now,
            None => {
                return None;
            },
        };
        let datetime = match timestamp_format("%Y%m%d-%H%M", now) {
            Some(datetime) => datetime,
            None => {
                return None;
            },
        };
        let id = Self::generate_at(datetime.as_str(), size);
        let ghost witness = datetime@;
        assert(generated_to(id@, witness, size));
        Some(id)
    }

    /// String representation of the dated raw id.
    pub fn as_str(&self) -> (str: &str)
        ensures
            str@ == self@,
    {
        self.raw.as_str()
    }

    /// The underlying raw id.
    pub fn as_raw(&self) -> (raw: &RawId)
        ensures
            raw@ == self@,
    {
        &self.raw
    }

    /// The underlying raw id.
    pub fn into_raw(self) -> (raw: RawId)
        ensures
            raw@ == self@,
    {
        self.raw
    }

    /// Parse a dated raw id.
    pub fn from_str(s: &str) -> (parsed: Result<Self, InvalidIdError>)
        ensures
            match dated_refusal(s.spec_bytes()) {
                Some(reason) => parsed is Err && parsed->Err_0.reason_text() == reason,
                None => parsed is Ok && parsed->Ok_0@ == s@,
            },
    {
        match check_dated(s.as_bytes()) {
            Some(reason) => Err(InvalidIdError::new(reason)),
            None => Ok(Self { raw: RawId::new(s) }),
        }
    }
}

/// Flat raw id without a tag.
#[derive(Debug, PartialEq, Eq, Hash)]
pub struct FlatRawId {
    /// Underlying raw id.
    raw: RawId,
}

impl View for FlatRawId {
    type V = Seq<char>;

    closed spec fn view(&self) -> Seq<char> {
        self.raw@
    }
}

impl FlatRawId {
    /// Create a new flat raw id without checking its validity.
    pub fn from_raw_unchecked(raw: RawId) -> (id: Self)
        ensures
            id@ == raw@,
    {
        Self { raw }
    }

    /// Create a raw id from the given bytes: their encoding in base 58.
    pub fn from_bytes(bytes: &[u8]) -> (id: Self)
        ensures
            id@ == encoded(ALPHABET_BASE58@, LIMIT as nat, bytes@),
    {
        let mut str = String::new();
        encode(&mut str, ALPHABET_BASE58.as_slice(), LIMIT, bytes);
        Self::from_raw_unchecked(RawId::new(str.as_str()))
    }

    /// Generate a random raw id with the given size.
    pub fn generate(size: usize) -> (id: Self)
        ensures
            id@.len() == size,
            all_base58_chars(id@),
    {
        let mut str = String::new();
        assert(encode_utf8(Seq::<char>::empty()) =~= Seq::<u8>::empty());
        fill_random_base58_digits(&mut str, size);
        assert(str@.skip(0) =~= str@);
        Self::from_raw_unchecked(RawId::new(str.as_str()))
    }

    /// String representation of the raw id.
    pub fn as_str(&self) -> (str: &str)
        ensures
            str@ == self@,
    {
        self.raw.as_str()
    }

    /// The underlying raw id.
    pub fn as_raw(&self) -> (raw: &RawId)
        ensures
            raw@ == self@,
    {
        &self.raw
    }

    /// The underlying raw id.
    pub fn into_raw(self) -> (raw: RawId)
        ensures
            raw@ == self@,
    {
        self.raw
    }

    /// Parse a flat raw id: a string of base 58 digits.
    pub fn from_str(s: &str) -> (parsed: Result<Self, InvalidIdError>)
        ensures
            match flat_refusal(s.spec_bytes()) {
                Some(reason) => parsed is Err && parsed->Err_0.reason_text() == reason,
                None => parsed is Ok && parsed->Ok_0@ == s@,
            },
    {
        match check_flat(s.as_bytes()) {
            Some(reason) => Err(InvalidIdError::new(reason)),
            None => Ok(Self { raw: RawId::new(s) }),
        }
    }
}

/// The digest that SHA-256 gives for the data: 32 bytes.
pub uninterp spec fn sha256_digest(data: Seq<u8>) -> Seq<u8>;

/// The digest that SHA-512/256 gives for the data: 32 bytes.
pub uninterp spec fn sha512_256_digest(data: Seq<u8>) -> Seq<u8>;

/// `Digest::digest` of `sha2::Sha256`: the SHA-256 digest of the data.
#[verifier::external_body]
pub(crate) fn sha256(data: &[u8]) -> (digest: [u8; 32])
    ensures
        digest@ == sha256_digest(data@),
{
    <sha2::Sha256 as sha2::Digest>::digest(data).into()
}

/// `Digest::digest` of `sha2::Sha512_256`: the SHA-512/256 digest of the
/// data.
#[verifier::external_body]
pub(crate) fn sha512_256(data: &[u8]) -> (digest: [u8; 32])
    ensures
        digest@ == sha512_256_digest(data@),
{
    <sha2::Sha512_256 as sha2::Digest>::digest(data).into()
}

/// The string form of an id: its tag, `_`, and its raw id.
pub open spec fn id_text(tag: Tag, raw: Seq<char>) -> Seq<char> {
    tag.text() + "_"@ + raw
}

/// The string form of an id as it is shown: the raw id of a secret is left
/// out.
pub open spec fn shown_text(tag: Tag, raw: Seq<char>) -> Seq<char> {
    if tag.spec_is_secret() {
        tag.text() + "_"@ + "<redacted>"@
    } else {
        tag.text() + "_"@ + raw
    }
}

/// The base 36 fingerprint of an id: the SHA-256 digest of its string form,
/// encoded in base 36.
pub open spec fn fingerprint_text(tag: Tag, raw: Seq<char>) -> Seq<char> {
    encoded(
        ALPHABET_BASE36@,
        LIMIT as nat,
        sha256_digest(encode_utf8(tag.text()) + encode_utf8("_"@) + encode_utf8(raw)),
    )
}

/// Writes out the string form of an id.
pub fn stringify_id(tag: Tag, raw: &RawId) -> (text: String)
    ensures
        text@ == id_text(tag, raw@),
{
    let mut string = String::from_str(tag.as_str());
    string.append("_");
    string.append(raw.as_str());
    string
}

/// Writes out the string form of an id as it is shown: without the raw id
/// where the id is a secret.
pub fn show_id(tag: Tag, raw: &RawId) -> (text: String)
    ensures
        text@ == shown_text(tag, raw@),
{
    let mut string = String::from_str(tag.as_str());
    string.append("_");
    if tag.is_secret() {
        string.append("<redacted>");
    } else {
        string.append(raw.as_str());
    }
    string
}

/// Appends a copy of the bytes.
fn append_bytes(data: &mut Vec<u8>, bytes: &[u8])
    ensures
        final(data)@ == old(data)@ + bytes@,
{
    let mut i: usize = 0;
    while i < bytes.len()
        invariant
            i <= bytes@.len(),
            data@ == old(data)@ + bytes@.take(i as int),
        decreases bytes@.len() - i,
    {
        data.push(bytes[i]);
        assert(bytes@.take(i + 1) =~= bytes@.take(i as int).push(bytes@[i as int]));
        i += 1;
    }
    assert(bytes@.take(bytes@.len() as int) =~= bytes@);
}

/// Tagged id.
pub trait Id {
    /// Tag of the id.
    spec fn tag_of(&self) -> Tag;

    /// Raw id, as a sequence of characters.
    spec fn raw_of(&self) -> Seq<char>;

    /// Tag of the id.
    fn tag(&self) -> (tag: Tag)
        ensures
            tag == self.tag_of(),
    ;

    /// Raw id.
    fn raw(&self) -> (raw: &RawId)
        ensures
            raw@ == self.raw_of(),
    ;

    /// Convert the id to a string.
    fn stringify(&self) -> (text: String)
        ensures
            text@ == id_text(self.tag_of(), self.raw_of()),
    ;

    /// Compute a base 36 *fingerprint* of the id.
    fn base36_fingerprint(&self) -> (fingerprint: String)
        ensures
            fingerprint@ == fingerprint_text(self.tag_of(), self.raw_of()),
    {
        let mut data: Vec<u8> = Vec::new();
        append_bytes(&mut data, self.tag().as_str().as_bytes());
        append_bytes(&mut data, "_".as_bytes());
        append_bytes(&mut data, self.raw().as_str().as_bytes());
        let digest = sha256(data.as_slice());
        let mut out = String::new();
        encode(&mut out, ALPHABET_BASE36.as_slice(), LIMIT, digest.as_slice());
        assert(out@ =~= fingerprint_text(self.tag_of(), self.raw_of()));
        out
    }
}

/// Concrete id type.
pub trait ConcreteId: Id {
    /// Type of the underlying raw id.
    type Type;
}

/// Marker trait for public ids.
pub trait PublicId: ConcreteId {

}

/// Marker trait for secret ids.
pub trait SecretId: ConcreteId {

}

/// Random generation of ids.
pub trait Generate: Sized {
    /// What holds of every id of the kind that is generated: it has the
    /// size of the kind and is made of base 58 digits, behind the date and
    /// time where the kind has them.
    spec fn generated(&self) -> bool;

    /// Generate a random id. There is none where the kind of id starts with
    /// the date and the clock of the system shows no time that can be written
    /// as one.
    fn generate() -> (id: Option<Self>)
        ensures
            id is Some ==> id->0.generated(),
    ;
}

/// Whether the bytes start with the prefix.
pub open spec fn has_prefix(bytes: Seq<u8>, prefix: Seq<u8>) -> bool {
    prefix.len() <= bytes.len() && bytes.take(prefix.len() as int) == prefix
}

/// Why a string is no raw id of the given form, or `None` where it is one.
pub open spec fn raw_refusal(bytes: Seq<u8>, dated: bool) -> Option<Seq<char>> {
    if dated {
        dated_refusal(bytes)
    } else {
        flat_refusal(bytes)
    }
}

/// Why a string is no id of one kind, or `None` where it is one. The id
/// starts with the prefix of the kind, the rest is a raw id of the form of
/// the kind, and that raw id has the size of the kind.
pub open spec fn tagged_refusal(
    bytes: Seq<u8>,
    prefix: Seq<u8>,
    dated: bool,
    size: usize,
    invalid_prefix: Seq<char>,
    invalid_size: Seq<char>,
) -> Option<Seq<char>> {
    if !has_prefix(bytes, prefix) {
        Some(invalid_prefix)
    } else {
        match raw_refusal(bytes.skip(prefix.len() as int), dated) {
            Some(reason) => Some(reason),
            None => if bytes.len() - prefix.len() != size {
                Some(invalid_size)
            } else {
                None
            },
        }
    }
}

/// Checks whether the bytes start with the prefix.
pub fn starts_with(bytes: &[u8], prefix: &[u8]) -> (starts: bool)
    ensures
        starts == has_prefix(bytes@, prefix@),
{
    if prefix.len() > bytes.len() {
        return false;
    }
    let head = slice_subrange(bytes, 0, prefix.len());
    assert(head@ =~= bytes@.take(prefix@.len() as int));
    bytes_eq(head, prefix)
}

/// A raw id that was checked is made of ASCII only, so that it starts at a
/// character boundary wherever it stands in a string.
pub proof fn lemma_checked_raw_starts_char(bytes: Seq<u8>, dated: bool)
    requires
        raw_refusal(bytes, dated) is None,
        bytes.len() > 0,
    ensures
        bytes[0] < 0x80,
{
    if dated {
        let last = last_index(bytes, 0x2D)->0;
        assert(is_last_index(bytes, 0x2D, last));
        let datetime = bytes.take(last);
        let first = first_index(datetime, 0x2D)->0;
        assert(is_first_index(datetime, 0x2D, first));
        let date = datetime.take(first);
        assert(date.len() == 8);
        assert(is_digit_byte(date[0]));
        assert(date[0] == bytes[0]);
    } else {
        assert(is_base58_byte(bytes[0]));
    }
}

/// Parse what follows the prefix of a kind of id as the raw id of that kind.
pub fn parse_tagged(
    s: &str,
    prefix: &str,
    dated: bool,
    size: usize,
    invalid_prefix: &'static str,
    invalid_size: &'static str,
) -> (parsed: Result<RawId, InvalidIdError>)
    ensures
        match tagged_refusal(
            s.spec_bytes(),
            prefix.spec_bytes(),
            dated,
            size,
            invalid_prefix@,
            invalid_size@,
        ) {
            Some(reason) => parsed is Err && parsed->Err_0.reason_text() == reason,
            None => parsed is Ok && encode_utf8(parsed->Ok_0@) == s.spec_bytes().skip(
                prefix.spec_bytes().len() as int,
            ),
        },
{
    let bytes = s.as_bytes();
    let prefix_bytes = prefix.as_bytes();
    if !starts_with(bytes, prefix_bytes) {
        return Err(InvalidIdError::new(invalid_prefix));
    }
    let mid = prefix_bytes.len();
    let raw_bytes = slice_subrange(bytes, mid, bytes.len());
    assert(raw_bytes@ =~= bytes@.skip(mid as int));
    let refusal = if dated {
        check_dated(raw_bytes)
    } else {
        check_flat(raw_bytes)
    };
    match refusal {
        Some(reason) => {
            return Err(InvalidIdError::new(reason));
        },
        None => {},
    }
    if raw_bytes.len() != size {
        return Err(InvalidIdError::new(invalid_size));
    }
    proof {
        encode_utf8_valid_utf8(s@);
        if mid < bytes@.len() {
            lemma_checked_raw_starts_char(raw_bytes@, dated);
            is_char_boundary_iff_not_is_continuation_byte(bytes@, mid as int);
        } else {
            is_char_boundary_start_end_of_seq(bytes@);
        }
    }
    let (_, raw) = s.split_at(mid);
    assert(raw.spec_bytes() =~= bytes@.skip(mid as int));
    Ok(RawId::new(raw))
}

} // verus!

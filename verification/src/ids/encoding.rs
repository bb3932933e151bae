//! Recursive variant of the NTRU Prime encoding for arbitrary bases.
//!
//! A sequence of bytes is split in halves down to single bytes. Each part
//! stands for a number below a base: a byte for itself below 256, and two
//! parts together for the first plus the second times the base of the first,
//! below the product of the bases. Whenever a base reaches the limit, digits
//! are given out, least significant first, until it is below the limit
//! again. What is left in the end is given out in the same way. The
//! encoding works through its input by recursion and allocates nothing.

use crate::text::string_push;
use vstd::prelude::*;
use vstd::slice::slice_subrange;

verus! {

/// `a` divided by `b`, rounded up.
pub open spec fn div_ceil(a: nat, b: nat) -> nat
    recommends
        b > 0,
{
    if a % b == 0 {
        a / b
    } else {
        a / b + 1
    }
}

/// A part of the input as the encoder carries it: the digits given out so
/// far, and the number that is left, which is below the base.
pub ghost struct Carry {
    /// The digits given out so far, in order.
    pub digits: Seq<nat>,
    /// The number that is left.
    pub digit: nat,
    /// The base that the number is below.
    pub base: nat,
}

/// Dividing a base of at least two by a radix of at least two, rounded up,
/// gives less than the base and at least one. The number carried stays below
/// the base.
pub proof fn lemma_div_ceil(digit: nat, base: nat, radix: nat)
    requires
        base >= 2,
        radix >= 2,
    ensures
        1 <= div_ceil(base, radix) < base,
        digit < base ==> digit / radix < div_ceil(base, radix),
        digit % radix < radix,
{
    assert(1 <= div_ceil(base, radix) < base) by (nonlinear_arith)
        requires
            base >= 2,
            radix >= 2,
            div_ceil(base, radix) == if base % radix == 0 {
                base / radix
            } else {
                base / radix + 1
            },
    ;
    assert(digit < base ==> digit / radix < div_ceil(base, radix)) by (nonlinear_arith)
        requires
            base >= 2,
            radix >= 2,
            div_ceil(base, radix) == if base % radix == 0 {
                base / radix
            } else {
                base / radix + 1
            },
    ;
    assert(digit % radix < radix) by (nonlinear_arith)
        requires
            radix >= 2,
    ;
}

/// Gives out digits to the given radix, least significant first, until the
/// base is below `stop`.
pub open spec fn reduce(carry: Carry, radix: nat, stop: nat) -> Carry
    decreases carry.base,
    when radix >= 2 && stop >= 2
    via reduce_decreases
{
    if carry.base >= stop {
        reduce(
            Carry {
                digits: carry.digits.push(carry.digit % radix),
                digit: carry.digit / radix,
                base: div_ceil(carry.base, radix),
            },
            radix,
            stop,
        )
    } else {
        carry
    }
}

#[via_fn]
proof fn reduce_decreases(carry: Carry, radix: nat, stop: nat) {
    if carry.base >= stop {
        lemma_div_ceil(carry.digit, carry.base, radix);
    }
}

/// What the encoder carries after a run of bytes.
pub open spec fn carry_of(bytes: Seq<u8>, radix: nat, limit: nat) -> Carry
    decreases bytes.len(),
{
    if bytes.len() == 0 {
        Carry { digits: Seq::empty(), digit: 0, base: 0 }
    } else if bytes.len() == 1 {
        Carry { digits: Seq::empty(), digit: bytes[0] as nat, base: 256 }
    } else {
        let mid = bytes.len() / 2;
        let first = carry_of(bytes.take(mid as int), radix, limit);
        let second = carry_of(bytes.skip(mid as int), radix, limit);
        reduce(
            Carry {
                digits: first.digits + second.digits,
                digit: first.digit + second.digit * first.base,
                base: first.base * second.base,
            },
            radix,
            limit,
        )
    }
}

/// The digits that encode the bytes to the given radix.
pub open spec fn encoded_digits(bytes: Seq<u8>, radix: nat, limit: nat) -> Seq<nat> {
    reduce(carry_of(bytes, radix, limit), radix, 2).digits
}

/// The characters of the alphabet that stand for the digits.
pub open spec fn digit_chars(alphabet: Seq<char>, digits: Seq<nat>) -> Seq<char> {
    digits.map_values(|digit: nat| alphabet[digit as int])
}

/// The encoding of the bytes in the given alphabet: every digit as the
/// character that the alphabet has at its place.
pub open spec fn encoded(alphabet: Seq<char>, limit: nat, bytes: Seq<u8>) -> Seq<char> {
    digit_chars(alphabet, encoded_digits(bytes, alphabet.len(), limit))
}

/// Whether the number carried is below the base, the base is small enough
/// for two bases to be multiplied, and every digit given out is below the
/// radix.
pub open spec fn carry_fits(carry: Carry, radix: nat) -> bool {
    &&& carry.digit < carry.base
    &&& 1 <= carry.base <= 0xFFFF
    &&& forall|i: int| 0 <= i < carry.digits.len() ==> #[trigger] carry.digits[i] < radix
}

proof fn lemma_reduce_fits(carry: Carry, radix: nat, stop: nat)
    requires
        radix >= 2,
        2 <= stop <= 0x1_0000,
        carry.digit < carry.base,
        carry.base >= 1,
        forall|i: int| 0 <= i < carry.digits.len() ==> #[trigger] carry.digits[i] < radix,
    ensures
        reduce(carry, radix, stop).digit < reduce(carry, radix, stop).base,
        1 <= reduce(carry, radix, stop).base < stop,
        reduce(carry, radix, stop).base <= carry.base,
        forall|i: int|
            0 <= i < reduce(carry, radix, stop).digits.len() ==> #[trigger] reduce(
                carry,
                radix,
                stop,
            ).digits[i] < radix,
    decreases carry.base,
{
    if carry.base >= stop {
        lemma_div_ceil(carry.digit, carry.base, radix);
        let next = Carry {
            digits: carry.digits.push(carry.digit % radix),
            digit: carry.digit / radix,
            base: div_ceil(carry.base, radix),
        };
        lemma_reduce_fits(next, radix, stop);
    }
}

/// Whatever the bytes, what the encoder carries between its steps fits into
/// 32-bit arithmetic, and every digit it gives out is below the radix.
pub proof fn lemma_carry_fits(bytes: Seq<u8>, radix: nat, limit: nat)
    requires
        radix >= 2,
        2 <= limit <= 0x1_0000,
        bytes.len() > 0,
    ensures
        carry_fits(carry_of(bytes, radix, limit), radix),
    decreases bytes.len(),
{
    if bytes.len() > 1 {
        let mid = bytes.len() / 2;
        lemma_carry_fits(bytes.take(mid as int), radix, limit);
        lemma_carry_fits(bytes.skip(mid as int), radix, limit);
        let first = carry_of(bytes.take(mid as int), radix, limit);
        let second = carry_of(bytes.skip(mid as int), radix, limit);
        let joined = Carry {
            digits: first.digits + second.digits,
            digit: first.digit + second.digit * first.base,
            base: first.base * second.base,
        };
        assert(joined.digit < joined.base && joined.base >= 1 && joined.base <= 0xFFFF * 0xFFFF)
            by (nonlinear_arith)
            requires
                first.digit < first.base,
                second.digit < second.base,
                1 <= first.base <= 0xFFFF,
                1 <= second.base <= 0xFFFF,
                joined.digit == first.digit + second.digit * first.base,
                joined.base == first.base * second.base,
        ;
        lemma_reduce_fits(joined, radix, limit);
    }
}

/// Every digit of the encoding is below the radix, so that the alphabet has
/// a character for it.
pub proof fn lemma_encoded_digits_fit(bytes: Seq<u8>, radix: nat, limit: nat)
    requires
        radix >= 2,
        2 <= limit <= 0x1_0000,
    ensures
        forall|i: int|
            0 <= i < encoded_digits(bytes, radix, limit).len() ==> #[trigger] encoded_digits(
                bytes,
                radix,
                limit,
            )[i] < radix,
{
    if bytes.len() > 0 {
        lemma_carry_fits(bytes, radix, limit);
        lemma_reduce_fits(carry_of(bytes, radix, limit), radix, 2);
    }
}

/// Gives out digits until the base is below `stop`.
fn emit_digits(
    out: &mut String,
    alphabet: &[char],
    digit: u32,
    base: u32,
    stop: u32,
    Ghost(digits): Ghost<Seq<nat>>,
) -> (left: (u32, u32))
    requires
        2 <= alphabet@.len() <= u32::MAX,
        2 <= stop <= 0x1_0000,
        digit < base || base == 0,
        forall|i: int| 0 <= i < digits.len() ==> #[trigger] digits[i] < alphabet@.len(),
    ensures
        ({
            let reduced = reduce(
                Carry { digits, digit: digit as nat, base: base as nat },
                alphabet@.len() as nat,
                stop as nat,
            );
            &&& left.0 == reduced.digit
            &&& left.1 == reduced.base
            &&& final(out)@ == old(out)@ + digit_chars(
                alphabet@,
                reduced.digits.skip(digits.len() as int),
            )
            &&& digits.len() <= reduced.digits.len()
            &&& reduced.digits.take(digits.len() as int) == digits
        }),
{
    let alphabet_base = alphabet.len() as u32;
    let mut digit = digit;
    let mut base = base;
    let ghost radix = alphabet@.len() as nat;
    let ghost target = reduce(
        Carry { digits, digit: digit as nat, base: base as nat },
        radix,
        stop as nat,
    );
    let ghost emitted = digits;
    assert(digit_chars(alphabet@, emitted.skip(digits.len() as int)) =~= Seq::<char>::empty());
    assert(emitted.take(digits.len() as int) =~= digits);
    while base >= stop
        invariant
            radix == alphabet@.len(),
            alphabet_base == radix,
            2 <= radix <= u32::MAX,
            2 <= stop <= 0x1_0000,
            digit < base || base == 0,
            digits.len() <= emitted.len(),
            emitted.take(digits.len() as int) == digits,
            forall|i: int| 0 <= i < emitted.len() ==> #[trigger] emitted[i] < radix,
            target == reduce(
                Carry { digits: emitted, digit: digit as nat, base: base as nat },
                radix,
                stop as nat,
            ),
            out@ == old(out)@ + digit_chars(alphabet@, emitted.skip(digits.len() as int)),
        decreases base,
    {
        proof {
            lemma_div_ceil(digit as nat, base as nat, radix);
        }
        let ghost before = emitted;
        string_push(out, alphabet[(digit % alphabet_base) as usize]);
        proof {
            emitted = emitted.push((digit % alphabet_base) as nat);
            assert(emitted.skip(digits.len() as int) =~= before.skip(digits.len() as int).push(
                (digit % alphabet_base) as nat,
            ));
            assert(digit_chars(alphabet@, emitted.skip(digits.len() as int)) =~= digit_chars(
                alphabet@,
                before.skip(digits.len() as int),
            ).push(alphabet@[(digit % alphabet_base) as int]));
            assert(emitted.take(digits.len() as int) =~= before.take(digits.len() as int));
        }
        digit = digit / alphabet_base;
        base = if base % alphabet_base == 0 {
            base / alphabet_base
        } else {
            base / alphabet_base + 1
        };
    }
    (digit, base)
}

/// Encodes a run of bytes and gives out the digits that are due.
fn encode_rec(out: &mut String, alphabet: &[char], limit: u32, bytes: &[u8]) -> (left: (u32, u32))
    requires
        2 <= alphabet@.len() <= u32::MAX,
        2 <= limit <= 0x1_0000,
    ensures
        ({
            let carry = carry_of(bytes@, alphabet@.len() as nat, limit as nat);
            &&& left.0 == carry.digit
            &&& left.1 == carry.base
            &&& final(out)@ == old(out)@ + digit_chars(alphabet@, carry.digits)
        }),
    decreases bytes@.len(),
{
    let ghost radix = alphabet@.len() as nat;
    if bytes.len() == 0 {
        assert(digit_chars(alphabet@, Seq::<nat>::empty()) =~= Seq::<char>::empty());
        (0, 0)
    } else if bytes.len() == 1 {
        assert(digit_chars(alphabet@, Seq::<nat>::empty()) =~= Seq::<char>::empty());
        (bytes[0] as u32, 256)
    } else {
        let mid = bytes.len() / 2;
        let first_bytes = slice_subrange(bytes, 0, mid);
        let second_bytes = slice_subrange(bytes, mid, bytes.len());
        assert(first_bytes@ =~= bytes@.take(mid as int));
        assert(second_bytes@ =~= bytes@.skip(mid as int));
        let (first_digit, first_base) = encode_rec(out, alphabet, limit, first_bytes);
        let (second_digit, second_base) = encode_rec(out, alphabet, limit, second_bytes);
        let ghost first = carry_of(first_bytes@, radix, limit as nat);
        let ghost second = carry_of(second_bytes@, radix, limit as nat);
        proof {
            lemma_carry_fits(first_bytes@, radix, limit as nat);
            lemma_carry_fits(second_bytes@, radix, limit as nat);
            assert(first.digit + second.digit * first.base < first.base * second.base
                && first.base * second.base <= 0xFFFF * 0xFFFF) by (nonlinear_arith)
                requires
                    first.digit < first.base,
                    second.digit < second.base,
                    1 <= first.base <= 0xFFFF,
                    1 <= second.base <= 0xFFFF,
            ;
            assert(second.digit * first.base <= 0xFFFF * 0xFFFF) by (nonlinear_arith)
                requires
                    second.digit < second.base,
                    1 <= first.base <= 0xFFFF,
                    1 <= second.base <= 0xFFFF,
            ;
            assert(digit_chars(alphabet@, first.digits + second.digits) =~= digit_chars(
                alphabet@,
                first.digits,
            ) + digit_chars(alphabet@, second.digits));
        }
        let base = first_base * second_base;
        let digit = first_digit + second_digit * first_base;
        let ghost joined = first.digits + second.digits;
        let ghost before = out@;
        let left = emit_digits(out, alphabet, digit, base, limit, Ghost(joined));
        proof {
            let reduced = reduce(
                Carry { digits: joined, digit: digit as nat, base: base as nat },
                radix,
                limit as nat,
            );
            assert(reduced.digits =~= joined + reduced.digits.skip(joined.len() as int));
            assert(digit_chars(alphabet@, reduced.digits) =~= digit_chars(alphabet@, joined)
                + digit_chars(alphabet@, reduced.digits.skip(joined.len() as int)));
        }
        left
    }
}

/// Encode the given bytes into the given string using the given alphabet.
///
/// The alphabet has at least two characters, and the limit is between 2 and
/// 65536, so that the numbers carried fit into 32 bits.
pub fn encode(out: &mut String, alphabet: &[char], limit: u32, bytes: &[u8])
    requires
        2 <= alphabet@.len() <= u32::MAX,
        2 <= limit <= 0x1_0000,
    ensures
        final(out)@ == old(out)@ + encoded(alphabet@, limit as nat, bytes@),
{
    let ghost radix = alphabet@.len() as nat;
    let ghost carry = carry_of(bytes@, radix, limit as nat);
    let (digit, base) = encode_rec(out, alphabet, limit, bytes);
    proof {
        if bytes@.len() > 0 {
            lemma_carry_fits(bytes@, radix, limit as nat);
        }
    }
    let _ = emit_digits(out, alphabet, digit, base, 2, Ghost(carry.digits));
    proof {
        let reduced = reduce(carry, radix, 2);
        assert(reduced.digits =~= carry.digits + reduced.digits.skip(carry.digits.len() as int));
        assert(digit_chars(alphabet@, reduced.digits) =~= digit_chars(alphabet@, carry.digits)
            + digit_chars(alphabet@, reduced.digits.skip(carry.digits.len() as int)));
    }
}

} // verus!

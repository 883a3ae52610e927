//! Conversion between binary data and ASCII hexadecimal text.

use vstd::arithmetic::div_mod::{
    lemma_fundamental_div_mod, lemma_mod_multiples_vanish, lemma_small_mod,
};
use vstd::prelude::*;

verus! {

/// Whether `c` is an ASCII hexadecimal digit, in either case.
pub open spec fn is_hex_digit(c: u8) -> bool {
    (0x30 <= c <= 0x39) || (0x41 <= c <= 0x46) || (0x61 <= c <= 0x66)
}

/// The number a hexadecimal digit stands for.
pub open spec fn digit_value(c: u8) -> nat
    recommends
        is_hex_digit(c),
{
    if c <= 0x39 {
        (c - 0x30) as nat
    } else if c <= 0x46 {
        (c - 0x41 + 10) as nat
    } else {
        (c - 0x61 + 10) as nat
    }
}

/// The upper-case digit that stands for `n`.
pub open spec fn digit_char(n: nat) -> u8
    recommends
        n < 16,
{
    if n < 10 {
        (0x30 + n) as u8
    } else {
        (0x41 + n - 10) as u8
    }
}

/// The hexadecimal text of `bytes`: two upper-case digits per byte, the
/// high nibble first.
pub open spec fn hex_text(bytes: Seq<u8>) -> Seq<u8> {
    Seq::new(
        2 * bytes.len(),
        |i: int|
            if i % 2 == 0 {
                digit_char((bytes[i / 2] / 16) as nat)
            } else {
                digit_char((bytes[i / 2] % 16) as nat)
            },
    )
}

/// Whether every byte of `text` is a hexadecimal digit.
pub open spec fn all_hex(text: Seq<u8>) -> bool {
    forall|i: int| 0 <= i < text.len() ==> is_hex_digit(#[trigger] text[i])
}

/// How many hexadecimal digits `text` starts with, counting no more than
/// `limit` of them.
pub open spec fn digit_run(text: Seq<u8>, limit: nat) -> nat
    decreases limit,
{
    if limit == 0 || text.len() == 0 || !is_hex_digit(text[0]) {
        0
    } else {
        1 + digit_run(text.drop_first(), (limit - 1) as nat)
    }
}

/// The number written by `digits` in base sixteen, most significant digit
/// first.
pub open spec fn digits_value(digits: Seq<u8>) -> nat
    decreases digits.len(),
{
    if digits.len() == 0 {
        0
    } else {
        16 * digits_value(digits.drop_last()) + digit_value(digits.last())
    }
}

/// The number written by `bytes` in base 256, most significant byte first.
pub open spec fn big_endian_value(bytes: Seq<u8>) -> nat
    decreases bytes.len(),
{
    if bytes.len() == 0 {
        0
    } else {
        256 * big_endian_value(bytes.drop_last()) + bytes.last() as nat
    }
}

/// What decoding `text` with a limit of `max_digits` yields: the value of
/// its leading run of digits, reduced to 64 bits.
pub open spec fn decoded(text: Seq<u8>, max_digits: nat) -> nat {
    digits_value(text.take(digit_run(text, max_digits) as int)) % 0x1_0000_0000_0000_0000
}

/// The bytes that a text of digit pairs stands for: each pair of digits
/// read as one number.
pub open spec fn byte_pairs(text: Seq<u8>) -> Seq<u8> {
    Seq::new(text.len() / 2, |i: int| decoded(text.subrange(2 * i, 2 * i + 2), 2) as u8)
}

/// The value of `c` as a hexadecimal digit, if it is one.
pub fn hex_digit(c: u8) -> (value: Option<u8>)
    ensures
        is_hex_digit(c) ==> value == Some(digit_value(c) as u8),
        !is_hex_digit(c) ==> value.is_none(),
{
    if 0x30 <= c && c <= 0x39 {
        Some(c - 0x30)
    } else if 0x41 <= c && c <= 0x46 {
        Some(c - 0x41 + 10)
    } else if 0x61 <= c && c <= 0x66 {
        Some(c - 0x61 + 10)
    } else {
        None
    }
}

/// The upper-case digit for the nibble `n`.
fn nibble_char(n: u8) -> (c: u8)
    requires
        n < 16,
    ensures
        c == digit_char(n as nat),
        is_hex_digit(c),
        digit_value(c) == n,
{
    if n < 10 {
        0x30 + n
    } else {
        0x41 + (n - 10)
    }
}

/// Encodes `bytes` as hexadecimal text, two digits per byte.
pub fn encode(bytes: &[u8]) -> (text: Vec<u8>)
    ensures
        text@ == hex_text(bytes@),
{
    let mut text: Vec<u8> = Vec::new();
    let mut i: usize = 0;
    while i < bytes.len()
        invariant
            i <= bytes.len(),
            text@.len() == 2 * i,
            forall|j: int| 0 <= j < text@.len() ==> text@[j] == hex_text(bytes@)[j],
        decreases bytes.len() - i,
    {
        let b: u8 = bytes[i];
        text.push(nibble_char(b / 16));
        text.push(nibble_char(b % 16));
        i += 1;
    }
    assert(text@ =~= hex_text(bytes@));
    text
}

/// A text whose first `n` bytes are digits, and which ends, reaches the
/// limit or holds another byte there, has a digit run of exactly `n`.
pub proof fn lemma_digit_run(text: Seq<u8>, limit: nat, n: nat)
    requires
        n <= limit,
        n <= text.len(),
        forall|i: int| 0 <= i < n ==> is_hex_digit(#[trigger] text[i]),
        n == limit || n == text.len() || !is_hex_digit(text[n as int]),
    ensures
        digit_run(text, limit) == n,
    decreases n,
{
    if n > 0 {
        let rest = text.drop_first();
        assert forall|i: int| 0 <= i < n - 1 implies is_hex_digit(#[trigger] rest[i]) by {
            assert(rest[i] == text[i + 1]);
        }
        assert(is_hex_digit(text[0]));
        lemma_digit_run(rest, (limit - 1) as nat, (n - 1) as nat);
    }
}

/// Shifting one more digit into an accumulator that is kept to 64 bits
/// loses nothing that the reduction would not lose anyway.
proof fn lemma_shift_in(acc: nat, digit: nat)
    ensures
        (16 * (acc % 0x1_0000_0000_0000_0000) + digit) % 0x1_0000_0000_0000_0000 == (16 * acc
            + digit) % 0x1_0000_0000_0000_0000,
{
    let m: int = 0x1_0000_0000_0000_0000;
    let q: int = acc as int / m;
    let r: int = acc as int % m;
    lemma_fundamental_div_mod(acc as int, m);
    assert(16 * acc + digit == m * (16 * q) + (16 * r + digit)) by (nonlinear_arith)
        requires
            acc == m * q + r,
    ;
    lemma_mod_multiples_vanish(16 * q, 16 * r + digit, m);
}

/// Decodes hexadecimal text into a number.
///
/// Reads digits from the left until `max_digits` of them are taken, the
/// text ends, or a byte that is no digit is met. The digits read are
/// accumulated into 64 bits, so that of more than sixteen digits the last
/// sixteen count. A text that starts with no digit decodes to zero.
pub fn decode(text: &[u8], max_digits: usize) -> (value: u64)
    ensures
        value == decoded(text@, max_digits as nat),
{
    let mut value: u64 = 0;
    let mut i: usize = 0;
    assert(text@.take(0) =~= Seq::<u8>::empty());
    while i < max_digits && i < text.len()
        invariant
            i <= max_digits,
            i <= text.len(),
            forall|j: int| 0 <= j < i ==> is_hex_digit(#[trigger] text@[j]),
            value == digits_value(text@.take(i as int)) % 0x1_0000_0000_0000_0000,
        ensures
            i <= max_digits,
            i <= text.len(),
            forall|j: int| 0 <= j < i ==> is_hex_digit(#[trigger] text@[j]),
            value == digits_value(text@.take(i as int)) % 0x1_0000_0000_0000_0000,
            i == max_digits || i == text.len() || !is_hex_digit(text@[i as int]),
        decreases text.len() - i,
    {
        match hex_digit(text[i]) {
            None => {
                break ;
            },
            Some(d) => {
                let wide: u64 = d as u64;
                let next: u64 = (value << 4) | wide;
                proof {
                    let before = text@.take(i as int);
                    let after = text@.take(i + 1);
                    assert(after.drop_last() =~= before);
                    assert(after.last() == text@[i as int]);
                    assert(next == (16 * value + wide) % 0x1_0000_0000_0000_0000) by (bit_vector)
                        requires
                            next == (value << 4) | wide,
                            wide < 16,
                    ;
                    lemma_shift_in(digits_value(before), wide as nat);
                }
                value = next;
                i += 1;
            },
        }
    }
    proof {
        lemma_digit_run(text@, max_digits as nat, i as nat);
    }
    value
}

/// The digits that `hex_text` writes are digits, and two of them are
/// written for each byte.
pub proof fn lemma_hex_text_is_hex(bytes: Seq<u8>)
    ensures
        hex_text(bytes).len() == 2 * bytes.len(),
        all_hex(hex_text(bytes)),
{
}

/// The text of a byte string reads, as one base-sixteen number, as the
/// big-endian value of the bytes.
pub proof fn lemma_hex_text_value(bytes: Seq<u8>)
    ensures
        digits_value(hex_text(bytes)) == big_endian_value(bytes),
    decreases bytes.len(),
{
    if bytes.len() > 0 {
        let text = hex_text(bytes);
        let front = bytes.drop_last();
        lemma_hex_text_value(front);
        assert(text.drop_last().drop_last() =~= hex_text(front));
        let last: u8 = bytes.last();
        let high: nat = (last / 16) as nat;
        let low: nat = (last % 16) as nat;
        assert(text.last() == digit_char(low));
        assert(text.drop_last().last() == digit_char(high));
        assert(digit_value(digit_char(low)) == low);
        assert(digit_value(digit_char(high)) == high);
        assert(16 * high + low == last);
        let inner = text.drop_last();
        assert(digits_value(inner) == 16 * digits_value(inner.drop_last()) + high);
        assert(digits_value(text) == 16 * digits_value(inner) + low);
    }
}

/// The big-endian value of at most eight bytes fits in 64 bits.
pub proof fn lemma_big_endian_fits(bytes: Seq<u8>)
    requires
        bytes.len() <= 8,
    ensures
        bytes.len() == 0 ==> big_endian_value(bytes) < 0x1,
        bytes.len() == 1 ==> big_endian_value(bytes) < 0x100,
        bytes.len() == 2 ==> big_endian_value(bytes) < 0x1_0000,
        bytes.len() == 3 ==> big_endian_value(bytes) < 0x100_0000,
        bytes.len() == 4 ==> big_endian_value(bytes) < 0x1_0000_0000,
        bytes.len() == 5 ==> big_endian_value(bytes) < 0x100_0000_0000,
        bytes.len() == 6 ==> big_endian_value(bytes) < 0x1_0000_0000_0000,
        bytes.len() == 7 ==> big_endian_value(bytes) < 0x100_0000_0000_0000,
        big_endian_value(bytes) < 0x1_0000_0000_0000_0000,
    decreases bytes.len(),
{
    if bytes.len() > 0 {
        lemma_big_endian_fits(bytes.drop_last());
    }
}

/// Round trip: decoding the text that `encode` writes for `bytes`, with
/// every digit admitted, gives the big-endian value of `bytes` reduced to
/// 64 bits, which for up to eight bytes is that value itself.
pub proof fn lemma_round_trip(bytes: Seq<u8>)
    ensures
        decoded(hex_text(bytes), 2 * bytes.len()) == big_endian_value(bytes)
            % 0x1_0000_0000_0000_0000,
        bytes.len() <= 8 ==> decoded(hex_text(bytes), 2 * bytes.len()) == big_endian_value(bytes),
{
    let text = hex_text(bytes);
    lemma_hex_text_is_hex(bytes);
    lemma_digit_run(text, 2 * bytes.len(), 2 * bytes.len());
    assert(text.take(text.len() as int) =~= text);
    lemma_hex_text_value(bytes);
    if bytes.len() <= 8 {
        lemma_big_endian_fits(bytes);
        lemma_small_mod(big_endian_value(bytes), 0x1_0000_0000_0000_0000);
    }
}

/// A text with nothing in it decodes to zero, whatever the limit.
pub proof fn lemma_decode_empty(max_digits: nat)
    ensures
        decoded(Seq::<u8>::empty(), max_digits) == 0,
{
    let text = Seq::<u8>::empty();
    assert(digit_run(text, max_digits) == 0);
    assert(text.take(0) =~= text);
}

/// A text that starts with a byte that is no digit decodes to zero.
pub proof fn lemma_decode_no_digit(text: Seq<u8>, max_digits: nat)
    requires
        text.len() > 0,
        !is_hex_digit(text[0]),
    ensures
        decoded(text, max_digits) == 0,
{
    assert(digit_run(text, max_digits) == 0);
    assert(text.take(0).len() == 0);
}

/// The leading run of digits is no longer than the limit or the text, and
/// holds digits only.
pub proof fn lemma_digit_run_bounds(text: Seq<u8>, limit: nat)
    ensures
        digit_run(text, limit) <= limit,
        digit_run(text, limit) <= text.len(),
        all_hex(text.take(digit_run(text, limit) as int)),
    decreases limit,
{
    if limit == 0 || text.len() == 0 || !is_hex_digit(text[0]) {
    } else {
        let rest = text.drop_first();
        lemma_digit_run_bounds(rest, (limit - 1) as nat);
        let run = digit_run(text, limit);
        let inner = rest.take(run - 1);
        assert forall|i: int| 0 <= i < run implies is_hex_digit(
            #[trigger] text.take(run as int)[i],
        ) by {
            if i > 0 {
                assert(text.take(run as int)[i] == inner[i - 1]);
            }
        }
    }
}

/// Up to eight digits write a number below sixteen to the power of their
/// count.
pub proof fn lemma_digits_fit(digits: Seq<u8>)
    requires
        all_hex(digits),
        digits.len() <= 8,
    ensures
        digits.len() == 0 ==> digits_value(digits) < 0x1,
        digits.len() == 1 ==> digits_value(digits) < 0x10,
        digits.len() == 2 ==> digits_value(digits) < 0x100,
        digits.len() == 3 ==> digits_value(digits) < 0x1000,
        digits.len() == 4 ==> digits_value(digits) < 0x1_0000,
        digits.len() == 5 ==> digits_value(digits) < 0x10_0000,
        digits.len() == 6 ==> digits_value(digits) < 0x100_0000,
        digits.len() == 7 ==> digits_value(digits) < 0x1000_0000,
        digits_value(digits) < 0x1_0000_0000,
    decreases digits.len(),
{
    if digits.len() > 0 {
        let front = digits.drop_last();
        assert forall|i: int| 0 <= i < front.len() implies is_hex_digit(#[trigger] front[i]) by {
            assert(front[i] == digits[i]);
        }
        lemma_digits_fit(front);
        assert(is_hex_digit(digits.last()));
    }
}

/// Decoding with a limit of two digits gives a number that fits a byte,
/// and with a limit of up to eight digits one that fits 32 bits.
pub proof fn lemma_decoded_fits(text: Seq<u8>, max_digits: nat)
    requires
        max_digits <= 8,
    ensures
        max_digits <= 2 ==> decoded(text, max_digits) < 0x100,
        decoded(text, max_digits) < 0x1_0000_0000,
        decoded(text, max_digits) == digits_value(text.take(digit_run(text, max_digits) as int)),
{
    lemma_digit_run_bounds(text, max_digits);
    let digits = text.take(digit_run(text, max_digits) as int);
    lemma_digits_fit(digits);
    lemma_small_mod(digits_value(digits), 0x1_0000_0000_0000_0000);
}

/// Reads a text of digit pairs as bytes, one byte for each full pair.
///
/// A pair that does not start with two digits reads as `decode` reads it.
pub fn decode_bytes(text: &[u8]) -> (bytes: Vec<u8>)
    ensures
        bytes@ == byte_pairs(text@),
{
    let mut bytes: Vec<u8> = Vec::new();
    let count: usize = text.len() / 2;
    let mut i: usize = 0;
    while i < count
        invariant
            i <= count,
            count == text@.len() / 2,
            text@.len() <= usize::MAX,
            bytes@.len() == i,
            forall|j: int| 0 <= j < i ==> bytes@[j] == byte_pairs(text@)[j],
        decreases count - i,
    {
        let pair = vstd::slice::slice_subrange(text, 2 * i, 2 * i + 2);
        let value: u64 = decode(pair, 2);
        proof {
            lemma_decoded_fits(pair@, 2);
            assert(pair@ == text@.subrange(2 * i, 2 * i + 2));
        }
        bytes.push(value as u8);
        i += 1;
    }
    assert(bytes@ =~= byte_pairs(text@));
    bytes
}

/// The digit pairs of a hexadecimal text stand for the bytes it was
/// written from.
pub proof fn lemma_byte_pairs_of_hex_text(bytes: Seq<u8>)
    ensures
        byte_pairs(hex_text(bytes)) == bytes,
{
    let text = hex_text(bytes);
    assert forall|i: int| 0 <= i < bytes.len() implies #[trigger] byte_pairs(text)[i]
        == bytes[i] by {
        let pair = text.subrange(2 * i, 2 * i + 2);
        let one = seq![bytes[i]];
        assert(pair =~= hex_text(one));
        lemma_round_trip(one);
        assert(one.drop_last() =~= Seq::<u8>::empty());
        assert(big_endian_value(one) == 256 * big_endian_value(one.drop_last()) + bytes[i]);
        assert(big_endian_value(Seq::<u8>::empty()) == 0);
    }
    assert(byte_pairs(text) =~= bytes);
}

} // verus!

//! The canonical text form: fixed-length Crockford Base32, delegated to the
//! `ulid` crate's codec.
//!
//! The alphabet is `0123456789ABCDEFGHJKMNPQRSTVWXYZ` (the ambiguous letters
//! I, L, O and U are excluded). Encoding writes 26 characters, five bits per
//! character, most significant first; the first character carries only the
//! top three bits of the value. Decoding accepts lowercase letters as well
//! and folds five bits per character, so bits shifted past the top of the
//! 128-bit accumulator are discarded.

use vstd::prelude::*;

verus! {

/// Length of the canonical text encoding, in characters.
pub const ULID_LEN: usize = 26;

/// A typed failure of text decoding.
#[derive(Debug, Eq, Hash, Clone, Copy, PartialEq, Structural)]
pub enum DecodeError {
    /// The input is not exactly the fixed encoded length.
    InvalidLength,
    /// The input holds a character outside the codec's alphabet.
    InvalidChar,
}

/// The character that encodes a five-bit digit: position `d` of the alphabet.
pub open spec fn b32_char(d: int) -> char {
    if d == 0 { '0' } else if d == 1 { '1' } else if d == 2 { '2' } else if d == 3 { '3' }
    else if d == 4 { '4' } else if d == 5 { '5' } else if d == 6 { '6' } else if d == 7 { '7' }
    else if d == 8 { '8' } else if d == 9 { '9' } else if d == 10 { 'A' } else if d == 11 { 'B' }
    else if d == 12 { 'C' } else if d == 13 { 'D' } else if d == 14 { 'E' } else if d == 15 { 'F' }
    else if d == 16 { 'G' } else if d == 17 { 'H' } else if d == 18 { 'J' } else if d == 19 { 'K' }
    else if d == 20 { 'M' } else if d == 21 { 'N' } else if d == 22 { 'P' } else if d == 23 { 'Q' }
    else if d == 24 { 'R' } else if d == 25 { 'S' } else if d == 26 { 'T' } else if d == 27 { 'V' }
    else if d == 28 { 'W' } else if d == 29 { 'X' } else if d == 30 { 'Y' } else { 'Z' }
}

/// The digit value of an uppercase letter's code point, or -1 when the
/// letter is outside the alphabet (I, L, O and U are excluded).
pub open spec fn b32_letter_value(u: int) -> int {
    if 65 <= u && u <= 72 { u - 55 }        // 'A' to 'H'
    else if u == 74 || u == 75 { u - 56 }   // 'J', 'K'
    else if u == 77 || u == 78 { u - 57 }   // 'M', 'N'
    else if 80 <= u && u <= 84 { u - 58 }   // 'P' to 'T'
    else if 86 <= u && u <= 90 { u - 59 }   // 'V' to 'Z'
    else { -1 }
}

/// The digit value the decoder assigns to a character: digits and letters of
/// the alphabet, lowercase accepted, or -1 for any other character.
pub open spec fn b32_value(c: char) -> int {
    let u = c as u32;
    if 48 <= u && u <= 57 {
        u - 48
    } else if 97 <= u && u <= 122 {
        b32_letter_value(u - 32)
    } else {
        b32_letter_value(u as int)
    }
}

/// The last `n` characters of the encoding of `v`: the low `5 * n` bits,
/// five bits per character, most significant first.
pub open spec fn encode_rec(v: u128, n: int) -> Seq<char>
    decreases n,
{
    if n <= 0 {
        Seq::empty()
    } else {
        encode_rec(v >> 5, n - 1).push(b32_char((v & 0x1F) as int))
    }
}

/// The canonical 26-character encoding of a 128-bit value.
pub open spec fn encoding_of(v: u128) -> Seq<char> {
    encode_rec(v, 26)
}

/// The accumulator after decoding the first `k` characters: five bits per
/// character, folded in from the left, the top bits wrapping off.
pub open spec fn decoded_prefix(s: Seq<char>, k: int) -> u128
    recommends
        0 <= k <= s.len(),
    decreases k,
{
    if k <= 0 {
        0u128
    } else {
        (decoded_prefix(s, k - 1) << 5) | (b32_value(s[k - 1]) as u128)
    }
}

/// The 128-bit value decoded from a full string of alphabet characters.
pub open spec fn decoded_of(s: Seq<char>) -> u128 {
    decoded_prefix(s, s.len() as int)
}

/// Whether a string is accepted by the decoder: exactly 26 characters, each
/// of the (case-insensitive) alphabet.
pub open spec fn valid_b32(s: Seq<char>) -> bool {
    s.len() == 26 && forall|i: int| 0 <= i < 26 ==> b32_value(#[trigger] s[i]) >= 0
}

/// Whether every character is ASCII, so that characters and bytes coincide.
pub open spec fn is_ascii_seq(s: Seq<char>) -> bool {
    forall|i: int| 0 <= i < s.len() ==> (#[trigger] s[i] as u32) < 128
}

/// A mask of the low `5 * n` bits (capped at the full 128-bit width).
pub open spec fn low_mask(n: int) -> u128 {
    if n <= 0 { 0u128 }
    else if n == 1 { 0x1F }
    else if n == 2 { 0x3FF }
    else if n == 3 { 0x7FFF }
    else if n == 4 { 0xFFFFF }
    else if n == 5 { 0x1FFFFFF }
    else if n == 6 { 0x3FFFFFFF }
    else if n == 7 { 0x7FFFFFFFF }
    else if n == 8 { 0xFFFFFFFFFF }
    else if n == 9 { 0x1FFFFFFFFFFF }
    else if n == 10 { 0x3FFFFFFFFFFFF }
    else if n == 11 { 0x7FFFFFFFFFFFFF }
    else if n == 12 { 0xFFFFFFFFFFFFFFF }
    else if n == 13 { 0x1FFFFFFFFFFFFFFFF }
    else if n == 14 { 0x3FFFFFFFFFFFFFFFFF }
    else if n == 15 { 0x7FFFFFFFFFFFFFFFFFF }
    else if n == 16 { 0xFFFFFFFFFFFFFFFFFFFF }
    else if n == 17 { 0x1FFFFFFFFFFFFFFFFFFFFF }
    else if n == 18 { 0x3FFFFFFFFFFFFFFFFFFFFFF }
    else if n == 19 { 0x7FFFFFFFFFFFFFFFFFFFFFFF }
    else if n == 20 { 0xFFFFFFFFFFFFFFFFFFFFFFFFF }
    else if n == 21 { 0x1FFFFFFFFFFFFFFFFFFFFFFFFFF }
    else if n == 22 { 0x3FFFFFFFFFFFFFFFFFFFFFFFFFFF }
    else if n == 23 { 0x7FFFFFFFFFFFFFFFFFFFFFFFFFFFF }
    else if n == 24 { 0xFFFFFFFFFFFFFFFFFFFFFFFFFFFFFF }
    else if n == 25 { 0x1FFFFFFFFFFFFFFFFFFFFFFFFFFFFFFF }
    else { 0xFFFFFFFFFFFFFFFFFFFFFFFFFFFFFFFF }
}

/// Each mask is the previous one shifted up five bits with five new low bits
/// set.
proof fn lemma_low_mask_step(n: int)
    requires
        1 <= n <= 26,
    ensures
        low_mask(n) == (low_mask(n - 1) << 5) | 0x1F,
{
    assert({
        &&& (0x0u128 << 5) | 0x1F == 0x1Fu128
        &&& (0x1Fu128 << 5) | 0x1F == 0x3FFu128
        &&& (0x3FFu128 << 5) | 0x1F == 0x7FFFu128
        &&& (0x7FFFu128 << 5) | 0x1F == 0xFFFFFu128
        &&& (0xFFFFFu128 << 5) | 0x1F == 0x1FFFFFFu128
        &&& (0x1FFFFFFu128 << 5) | 0x1F == 0x3FFFFFFFu128
        &&& (0x3FFFFFFFu128 << 5) | 0x1F == 0x7FFFFFFFFu128
        &&& (0x7FFFFFFFFu128 << 5) | 0x1F == 0xFFFFFFFFFFu128
        &&& (0xFFFFFFFFFFu128 << 5) | 0x1F == 0x1FFFFFFFFFFFu128
        &&& (0x1FFFFFFFFFFFu128 << 5) | 0x1F == 0x3FFFFFFFFFFFFu128
        &&& (0x3FFFFFFFFFFFFu128 << 5) | 0x1F == 0x7FFFFFFFFFFFFFu128
        &&& (0x7FFFFFFFFFFFFFu128 << 5) | 0x1F == 0xFFFFFFFFFFFFFFFu128
        &&& (0xFFFFFFFFFFFFFFFu128 << 5) | 0x1F == 0x1FFFFFFFFFFFFFFFFu128
        &&& (0x1FFFFFFFFFFFFFFFFu128 << 5) | 0x1F == 0x3FFFFFFFFFFFFFFFFFu128
        &&& (0x3FFFFFFFFFFFFFFFFFu128 << 5) | 0x1F == 0x7FFFFFFFFFFFFFFFFFFu128
        &&& (0x7FFFFFFFFFFFFFFFFFFu128 << 5) | 0x1F == 0xFFFFFFFFFFFFFFFFFFFFu128
        &&& (0xFFFFFFFFFFFFFFFFFFFFu128 << 5) | 0x1F == 0x1FFFFFFFFFFFFFFFFFFFFFu128
        &&& (0x1FFFFFFFFFFFFFFFFFFFFFu128 << 5) | 0x1F == 0x3FFFFFFFFFFFFFFFFFFFFFFu128
        &&& (0x3FFFFFFFFFFFFFFFFFFFFFFu128 << 5) | 0x1F == 0x7FFFFFFFFFFFFFFFFFFFFFFFu128
        &&& (0x7FFFFFFFFFFFFFFFFFFFFFFFu128 << 5) | 0x1F == 0xFFFFFFFFFFFFFFFFFFFFFFFFFu128
        &&& (0xFFFFFFFFFFFFFFFFFFFFFFFFFu128 << 5) | 0x1F == 0x1FFFFFFFFFFFFFFFFFFFFFFFFFFu128
        &&& (0x1FFFFFFFFFFFFFFFFFFFFFFFFFFu128 << 5) | 0x1F == 0x3FFFFFFFFFFFFFFFFFFFFFFFFFFFu128
        &&& (0x3FFFFFFFFFFFFFFFFFFFFFFFFFFFu128 << 5) | 0x1F == 0x7FFFFFFFFFFFFFFFFFFFFFFFFFFFFu128
        &&& (0x7FFFFFFFFFFFFFFFFFFFFFFFFFFFFu128 << 5) | 0x1F == 0xFFFFFFFFFFFFFFFFFFFFFFFFFFFFFFu128
        &&& (0xFFFFFFFFFFFFFFFFFFFFFFFFFFFFFFu128 << 5) | 0x1F == 0x1FFFFFFFFFFFFFFFFFFFFFFFFFFFFFFFu128
        &&& (0x1FFFFFFFFFFFFFFFFFFFFFFFFFFFFFFFu128 << 5) | 0x1F == 0xFFFFFFFFFFFFFFFFFFFFFFFFFFFFFFFFu128
    }) by (bit_vector);
}

/// Relies on `ulid::Ulid::to_string`, whose Crockford Base32 encoding writes
/// 26 characters, five bits per character from the low end of the value into
/// the right end of the string.
#[verifier::external_body]
pub(crate) fn encode_u128(v: u128) -> (r: String)
    ensures
        r@ == encoding_of(v),
{
    ulid::Ulid(v).to_string()
}

/// Relies on `ulid::Ulid::from_string`, whose decoder accepts exactly the
/// strings of 26 alphabet characters (case-insensitive), folding five bits
/// per character and discarding bits shifted past the top; any other input
/// is rejected with a length or character error. The error classification is
/// stated for ASCII inputs, where characters and bytes coincide.
#[verifier::external_body]
pub(crate) fn decode_str(encoded: &str) -> (r: Result<u128, DecodeError>)
    ensures
        r is Ok <==> valid_b32(encoded@),
        r matches Ok(u) ==> u == decoded_of(encoded@),
        is_ascii_seq(encoded@) ==> (r == Err::<u128, DecodeError>(DecodeError::InvalidLength)
            <==> encoded@.len() != 26),
{
    match ulid::Ulid::from_string(encoded) {
        Ok(u) => Ok(u.0),
        Err(ulid::DecodeError::InvalidLength) => Err(DecodeError::InvalidLength),
        Err(ulid::DecodeError::InvalidChar) => Err(DecodeError::InvalidChar),
    }
}

/// Decoding the character that encodes a digit gives back the digit.
pub proof fn lemma_b32_char_value(d: int)
    requires
        0 <= d < 32,
    ensures
        b32_value(b32_char(d)) == d,
{
}

/// Two strings that agree on their first `k` characters decode to the same
/// accumulator after `k` characters.
proof fn lemma_decoded_prefix_agree(s1: Seq<char>, s2: Seq<char>, k: int)
    requires
        0 <= k,
        k <= s1.len(),
        k <= s2.len(),
        forall|i: int| 0 <= i < k ==> s1[i] == s2[i],
    ensures
        decoded_prefix(s1, k) == decoded_prefix(s2, k),
    decreases k,
{
    if k > 0 {
        lemma_decoded_prefix_agree(s1, s2, k - 1);
    }
}

/// The last `n` characters of an encoding are `n` alphabet characters that
/// decode back to the low `5 * n` bits of the value.
proof fn lemma_encode_rec(v: u128, n: int)
    requires
        0 <= n <= 26,
    ensures
        encode_rec(v, n).len() == n,
        forall|i: int| 0 <= i < n ==> b32_value(#[trigger] encode_rec(v, n)[i]) >= 0,
        decoded_prefix(encode_rec(v, n), n) == v & low_mask(n),
    decreases n,
{
    if n > 0 {
        lemma_encode_rec(v >> 5, n - 1);
        let s = encode_rec(v >> 5, n - 1);
        assert(0 <= (v & 0x1F) < 32) by (bit_vector);
        let c = b32_char((v & 0x1F) as int);
        lemma_b32_char_value((v & 0x1F) as int);
        let whole = s.push(c);
        assert(encode_rec(v, n) == whole);
        assert(whole[n - 1] == c);
        assert(forall|i: int| 0 <= i < n - 1 ==> whole[i] == s[i]);
        lemma_decoded_prefix_agree(whole, s, n - 1);
        let m1 = low_mask(n - 1);
        let m = low_mask(n);
        lemma_low_mask_step(n);
        assert((((v >> 5) & m1) << 5) | (v & 0x1F) == v & m) by (bit_vector)
            requires
                m == (m1 << 5) | 0x1Fu128,
        ;
        assert(decoded_prefix(whole, n) == (decoded_prefix(whole, n - 1) << 5) | (b32_value(
            whole[n - 1],
        ) as u128));
        assert(decoded_prefix(whole, n) == v & m);
    } else {
        assert(v & 0u128 == 0u128) by (bit_vector);
    }
}

/// Strict lexicographic order of two equal-length strings: they differ
/// somewhere, and at the first difference the left one has the smaller
/// character.
pub open spec fn lex_lt(a: Seq<char>, b: Seq<char>) -> bool
    recommends
        a.len() == b.len(),
    decreases a.len(),
{
    if a.len() == 0 || b.len() == 0 {
        false
    } else {
        lex_lt(a.drop_last(), b.drop_last()) || (a.drop_last() == b.drop_last() && a.last()
            < b.last())
    }
}

/// The alphabet is in ascending character order: a greater digit is encoded
/// by a greater character.
pub proof fn lemma_b32_char_monotone(d1: int, d2: int)
    requires
        0 <= d1 < d2 < 32,
    ensures
        b32_char(d1) < b32_char(d2),
{
}

/// The last `n` characters of an encoding depend only on the low `5 * n`
/// bits of the value.
proof fn lemma_encode_rec_congruence(u: u128, v: u128, n: int)
    requires
        0 <= n <= 26,
        u & low_mask(n) == v & low_mask(n),
    ensures
        encode_rec(u, n) == encode_rec(v, n),
    decreases n,
{
    if n > 0 {
        let m1 = low_mask(n - 1);
        let m = low_mask(n);
        lemma_low_mask_step(n);
        assert((u >> 5) & m1 == (v >> 5) & m1 && u & 0x1F == v & 0x1F) by (bit_vector)
            requires
                m == (m1 << 5) | 0x1Fu128,
                u & m == v & m,
        ;
        lemma_encode_rec_congruence(u >> 5, v >> 5, n - 1);
    }
}

/// Among the low `5 * n` bits, a smaller value encodes to a lexicographically
/// smaller string of `n` characters.
proof fn lemma_encode_rec_order(u: u128, v: u128, n: int)
    requires
        0 <= n <= 26,
        u & low_mask(n) < v & low_mask(n),
    ensures
        lex_lt(encode_rec(u, n), encode_rec(v, n)),
    decreases n,
{
    if n == 0 {
        assert(u & 0u128 == 0 && v & 0u128 == 0) by (bit_vector);
    } else {
        let m1 = low_mask(n - 1);
        let m = low_mask(n);
        lemma_low_mask_step(n);
        let su = encode_rec(u >> 5, n - 1);
        let sv = encode_rec(v >> 5, n - 1);
        let cu = b32_char((u & 0x1F) as int);
        let cv = b32_char((v & 0x1F) as int);
        assert(encode_rec(u, n) == su.push(cu));
        assert(encode_rec(v, n) == sv.push(cv));
        assert(su.push(cu).drop_last() =~= su);
        assert(sv.push(cv).drop_last() =~= sv);
        assert(((u >> 5) & m1 < (v >> 5) & m1) || ((u >> 5) & m1 == (v >> 5) & m1 && (u & 0x1F)
            < (v & 0x1F))) by (bit_vector)
            requires
                m == (m1 << 5) | 0x1Fu128,
                u & m < v & m,
        ;
        if (u >> 5) & m1 < (v >> 5) & m1 {
            lemma_encode_rec_order(u >> 5, v >> 5, n - 1);
        } else {
            lemma_encode_rec_congruence(u >> 5, v >> 5, n - 1);
            assert(0 <= (u & 0x1F) < 32 && 0 <= (v & 0x1F) < 32) by (bit_vector);
            lemma_b32_char_monotone((u & 0x1F) as int, (v & 0x1F) as int);
        }
    }
}

/// The text form sorts like the value: a smaller 128-bit value encodes to a
/// lexicographically smaller string.
pub proof fn lemma_text_ordering(u: u128, v: u128)
    requires
        u < v,
    ensures
        lex_lt(encoding_of(u), encoding_of(v)),
{
    assert(u & 0xFFFF_FFFF_FFFF_FFFF_FFFF_FFFF_FFFF_FFFFu128 == u
        && v & 0xFFFF_FFFF_FFFF_FFFF_FFFF_FFFF_FFFF_FFFFu128 == v) by (bit_vector);
    lemma_encode_rec_order(u, v, 26);
}

/// Round-trip through the text form: the canonical encoding of a value is a
/// valid string, and decoding it reproduces the value.
pub proof fn lemma_text_roundtrip(v: u128)
    ensures
        valid_b32(encoding_of(v)),
        decoded_of(encoding_of(v)) == v,
{
    lemma_encode_rec(v, 26);
    assert(v & 0xFFFF_FFFF_FFFF_FFFF_FFFF_FFFF_FFFF_FFFFu128 == v) by (bit_vector);
}

} // verus!

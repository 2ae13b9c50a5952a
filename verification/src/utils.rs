//! The Internet checksum and the textual forms of byte strings.
use vstd::prelude::*;
use crate::codec::{be16, join, u16_be};
use crate::text::{decimal_list, hex_list, push_decimal_list, push_hex_list};

verus! {

/// The 16-bit word that starts at byte `i` of `span`, most significant byte
/// first. Where the span ends after that byte, the missing low byte counts as
/// zero.
pub open spec fn word_at(span: Seq<u8>, i: int) -> nat
    recommends
        0 <= i < span.len(),
{
    if i + 1 < span.len() {
        (span[i] as nat) * 256 + span[i + 1] as nat
    } else {
        (span[i] as nat) * 256
    }
}

/// Adds whatever lies above bit 15 back into the low 16 bits, until nothing
/// lies above bit 15.
pub open spec fn fold_carry(sum: nat) -> nat
    decreases sum,
{
    if sum <= 0xffff {
        sum
    } else {
        fold_carry(sum % 0x10000 + sum / 0x10000)
    }
}

/// The one's-complement sum of the first `words` 16-bit words of `span`:
/// the carry is folded back after each addition.
pub open spec fn folded_sum(span: Seq<u8>, words: nat) -> nat
    decreases words,
{
    if words == 0 {
        0
    } else {
        fold_carry(folded_sum(span, (words - 1) as nat) + word_at(span, 2 * (words - 1)))
    }
}

/// The number of 16-bit words that `span` holds, a lone last byte counted as
/// one.
pub open spec fn word_count(span: Seq<u8>) -> nat {
    (span.len() + 1) / 2
}

/// The Internet checksum of `span`: the one's complement of the
/// one's-complement sum of its 16-bit words.
pub open spec fn checksum16(span: Seq<u8>) -> int {
    0xffff - folded_sum(span, word_count(span))
}

/// A folded sum always fits in 16 bits.
pub proof fn lemma_folded_sum_bound(span: Seq<u8>, words: nat)
    ensures
        folded_sum(span, words) <= 0xffff,
    decreases words,
{
    if words > 0 {
        lemma_folded_sum_bound(span, (words - 1) as nat);
        let s = folded_sum(span, (words - 1) as nat) + word_at(span, 2 * (words - 1));
        lemma_fold_once(s);
    }
}

/// After one addition of a word to a 16-bit sum, a single fold is enough.
pub proof fn lemma_fold_once(sum: nat)
    requires
        sum <= 0xffff + 0xffff,
    ensures
        fold_carry(sum) <= 0xffff,
        sum > 0xffff ==> fold_carry(sum) == sum - 0xffff,
        sum <= 0xffff ==> fold_carry(sum) == sum,
{
    if sum > 0xffff {
        let once = sum % 0x10000 + sum / 0x10000;
        assert(once == sum - 0xffff);
        assert(fold_carry(once) == once);
    }
}

/// The plain sum of the first `words` 16-bit words of `span`, nothing
/// folded.
pub open spec fn word_total(span: Seq<u8>, words: nat) -> nat
    decreases words,
{
    if words == 0 {
        0
    } else {
        word_total(span, (words - 1) as nat) + word_at(span, 2 * (words - 1))
    }
}

/// A sum brought down to 16 bits with end-around carry: zero stays zero, and
/// any other sum becomes the number from 1 to 0xffff that differs from it by a
/// multiple of 0xffff.
pub open spec fn end_around(total: nat) -> nat {
    if total == 0 {
        0
    } else {
        ((total - 1) % 0xffff + 1) as nat
    }
}

/// Adding a word to a sum that was brought down, and folding, is the same as
/// adding the word first and bringing the sum down afterwards.
pub proof fn lemma_fold_after_end_around(total: nat, word: nat)
    requires
        word <= 0xffff,
    ensures
        fold_carry(end_around(total) + word) == end_around(total + word),
{
    let low = end_around(total);
    assert(low <= 0xffff);
    lemma_fold_once(low + word);
    if total > 0 {
        let q = (total - 1) / 0xffff;
        assert(total - 1 == 0xffff * q + (low - 1));
        if low + word <= 0xffff {
            assert(total + word - 1 == 0xffff * q + (low + word - 1));
            assert((total + word - 1) % 0xffff == low + word - 1);
        } else {
            assert(total + word - 1 == 0xffff * (q + 1) + (low + word - 1 - 0xffff));
            assert((total + word - 1) % 0xffff == low + word - 1 - 0xffff);
        }
    }
}

/// Folding the carry back after each addition gives the plain sum of the
/// words, brought down to 16 bits with end-around carry. So the order of the
/// words does not matter to the checksum.
pub proof fn lemma_folded_sum_is_end_around_total(span: Seq<u8>, words: nat)
    ensures
        folded_sum(span, words) == end_around(word_total(span, words)),
    decreases words,
{
    if words > 0 {
        let before = (words - 1) as nat;
        lemma_folded_sum_is_end_around_total(span, before);
        lemma_fold_after_end_around(word_total(span, before), word_at(span, 2 * (words - 1)));
    }
}

/// `span` with the two bytes at `field` set to zero.
pub open spec fn with_field_cleared(span: Seq<u8>, field: int) -> Seq<u8>
    recommends
        0 <= field,
        field + 2 <= span.len(),
{
    span.update(field, 0u8).update(field + 1, 0u8)
}

/// Clearing a 16-bit field at an even offset takes the number in that field
/// off the plain sum, once the sum reaches the field.
pub proof fn lemma_word_total_without_field(span: Seq<u8>, field: int, words: nat)
    requires
        0 <= field,
        field % 2 == 0,
        field + 2 <= span.len(),
        2 * words <= span.len() + 1,
    ensures
        word_total(span, words) == word_total(with_field_cleared(span, field), words) + (if field
            < 2 * words {
            be16(span, field)
        } else {
            0
        }),
    decreases words,
{
    if words > 0 {
        let before = (words - 1) as nat;
        lemma_word_total_without_field(span, field, before);
        let cleared = with_field_cleared(span, field);
        let at: int = 2 * (words - 1);
        if at == field {
            assert(word_at(cleared, at) == 0);
            assert(word_at(span, at) == be16(span, field));
        } else {
            assert(cleared[at] == span[at]);
            if at + 1 < span.len() {
                assert(cleared[at + 1] == span[at + 1]);
            }
            assert(word_at(cleared, at) == word_at(span, at));
        }
    }
}

/// The rule by which a receiver checks a header: where the checksum field,
/// at an even offset, holds the checksum that the span has with that field
/// cleared, the words of the span as it stands sum to all ones, and its
/// checksum is zero.
pub proof fn lemma_intact_span_has_checksum_zero(span: Seq<u8>, field: int)
    requires
        0 <= field,
        field % 2 == 0,
        field + 2 <= span.len(),
        be16(span, field) == checksum16(with_field_cleared(span, field)),
    ensures
        folded_sum(span, word_count(span)) == 0xffff,
        checksum16(span) == 0,
{
    let cleared = with_field_cleared(span, field);
    let words = word_count(span);
    assert(word_count(cleared) == words);
    lemma_word_total_without_field(span, field, words);
    lemma_folded_sum_is_end_around_total(span, words);
    lemma_folded_sum_is_end_around_total(cleared, words);
    let total_cleared = word_total(cleared, words);
    let total = word_total(span, words);
    assert(total == total_cleared + 0xffff - end_around(total_cleared));
    if total_cleared > 0 {
        let q = (total_cleared - 1) / 0xffff;
        assert(total - 1 == 0xffff * q + 0xfffe);
        assert((total - 1) % 0xffff == 0xfffe);
    }
}

/// Folds the carry of one addition back into the low 16 bits.
fn fold(sum: u32) -> (r: u32)
    requires
        sum <= 0xffff + 0xffff,
    ensures
        r == fold_carry(sum as nat),
        r <= 0xffff,
{
    proof {
        lemma_fold_once(sum as nat);
    }
    if sum > 0xffff {
        assert((sum & 0xffff) + (sum >> 16) == sum - 0xffff) by (bit_vector)
            requires
                0xffff < sum <= 0x1fffe,
        ;
        (sum & 0xffff) + (sum >> 16)
    } else {
        sum
    }
}

/// Computes the Internet checksum of `header`.
pub fn calculate_checksum(header: &[u8]) -> (r: u16)
    ensures
        r == checksum16(header@),
{
    let len: usize = header.len();
    let mut sum: u32 = 0;
    let mut i: usize = 0;
    let ghost mut words: nat = 0;
    while len - i >= 2
        invariant
            len == header@.len(),
            i == 2 * words,
            i <= len,
            sum == folded_sum(header@, words),
            sum <= 0xffff,
        decreases len - i,
    {
        let word: u32 = u16_be(header, i) as u32;
        assert(word == word_at(header@, i as int));
        sum = fold(sum + word);
        proof {
            words = words + 1;
        }
        i += 2;
    }
    if i < len {
        let word: u32 = join(header[i], 0) as u32;
        assert(word == word_at(header@, i as int));
        sum = fold(sum + word);
        proof {
            words = words + 1;
        }
    }
    assert(words == word_count(header@));
    let low: u16 = sum as u16;
    assert(!low == 0xffff - low) by (bit_vector);
    !low
}

/// The bytes as two hexadecimal digits each, with a space between them.
pub open spec fn hex_string(bytes: Seq<u8>) -> Seq<char> {
    hex_list(bytes, " "@)
}

/// The bytes as decimal numbers, with a dot between them: the usual form of
/// an IPv4 address.
pub open spec fn ip_string(bytes: Seq<u8>) -> Seq<char> {
    decimal_list(bytes, "."@)
}

/// The bytes as two hexadecimal digits each, with a colon between them: the
/// usual form of a hardware address.
pub open spec fn mac_string(bytes: Seq<u8>) -> Seq<char> {
    hex_list(bytes, ":"@)
}

/// Converts a byte slice to hexadecimal text, the bytes separated by spaces.
pub fn to_hex_string(bytes: &[u8]) -> (r: String)
    ensures
        r@ == hex_string(bytes@),
{
    let mut out = String::new();
    push_hex_list(&mut out, bytes, " ");
    assert(out@ =~= hex_string(bytes@));
    out
}

/// Converts a byte slice to dotted decimal text.
pub fn to_ip_string(bytes: &[u8]) -> (r: String)
    ensures
        r@ == ip_string(bytes@),
{
    let mut out = String::new();
    push_decimal_list(&mut out, bytes, ".");
    assert(out@ =~= ip_string(bytes@));
    out
}

/// Converts a byte slice to hexadecimal text, the bytes separated by colons.
pub fn to_mac_string(bytes: &[u8]) -> (r: String)
    ensures
        r@ == mac_string(bytes@),
{
    let mut out = String::new();
    push_hex_list(&mut out, bytes, ":");
    assert(out@ =~= mac_string(bytes@));
    out
}

} // verus!

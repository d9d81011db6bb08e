//! The Internet checksum: the ones'-complement sum of the big-endian 16-bit
//! words of a message, with the word that holds the checksum left out.

use vstd::prelude::*;

verus! {

/// The longest message whose words cannot overflow a 32-bit sum: 65536 words
/// of at most `0xffff` each.
pub const MAX_CHECKSUM_LEN: usize = 131072;

/// The 16-bit word at word index `i` of `data`, read big-endian. A last odd
/// byte is the high byte of a word whose low byte is zero; past the end every
/// word is zero.
pub open spec fn word_at(data: Seq<u8>, i: int) -> nat {
    if 0 <= i && 2 * i + 1 < data.len() {
        (data[2 * i] * 256 + data[2 * i + 1]) as nat
    } else if 0 <= i && 2 * i < data.len() {
        (data[2 * i] * 256) as nat
    } else {
        0
    }
}

/// The number of 16-bit words that `data` holds, a last odd byte counted as
/// one.
pub open spec fn word_count(data: Seq<u8>) -> nat {
    ((data.len() + 1) / 2) as nat
}

/// The sum of the first `n` words of `data`, the word at index `skipword`
/// left out.
pub open spec fn word_sum(data: Seq<u8>, skipword: int, n: nat) -> nat
    decreases n,
{
    if n == 0 {
        0
    } else {
        word_sum(data, skipword, (n - 1) as nat) + if n - 1 == skipword {
            0
        } else {
            word_at(data, n - 1)
        }
    }
}

/// Adds what a sum holds above its low 16 bits back onto them, until nothing
/// is left above.
pub open spec fn fold_carries(sum: nat) -> nat
    decreases sum,
{
    if sum < 0x1_0000 {
        sum
    } else {
        fold_carries(sum / 0x1_0000 + sum % 0x1_0000)
    }
}

/// The Internet checksum of `data`: the ones' complement of the folded sum of
/// its words, the word at index `skipword` counted as zero. The folded sum
/// fits in 16 bits (`lemma_fold_carries_bound`), so nothing is cut off.
pub open spec fn internet_checksum(data: Seq<u8>, skipword: int) -> u16 {
    (0xffff - fold_carries(word_sum(data, skipword, word_count(data)))) as u16
}

/// The Internet checksum over all of `data`, no word left out.
pub open spec fn checksum_of_all(data: Seq<u8>) -> u16 {
    internet_checksum(data, -1)
}

/// `a` and `b` are of one length and differ at most in the two bytes of the
/// word at index `word`.
pub open spec fn same_but_word(a: Seq<u8>, b: Seq<u8>, word: int) -> bool {
    &&& a.len() == b.len()
    &&& forall|i: int| 0 <= i < a.len() && i != 2 * word && i != 2 * word + 1 ==> a[i] == b[i]
}

/// `data` with the two bytes of the word at index `word` set to zero.
pub open spec fn with_zero_word(data: Seq<u8>, word: int) -> Seq<u8> {
    data.update(2 * word, 0u8).update(2 * word + 1, 0u8)
}

/// A folded sum fits in 16 bits.
pub proof fn lemma_fold_carries_bound(sum: nat)
    ensures
        fold_carries(sum) <= 0xffff,
    decreases sum,
{
    if sum >= 0x1_0000 {
        lemma_fold_carries_bound(sum / 0x1_0000 + sum % 0x1_0000);
    }
}

/// What the skipped word holds has no part in the sum.
pub proof fn lemma_word_sum_ignores_skipped_word(a: Seq<u8>, b: Seq<u8>, skipword: int, n: nat)
    requires
        same_but_word(a, b, skipword),
    ensures
        word_sum(a, skipword, n) == word_sum(b, skipword, n),
    decreases n,
{
    if n > 0 {
        lemma_word_sum_ignores_skipped_word(a, b, skipword, (n - 1) as nat);
    }
}

/// What the skipped word holds has no part in the checksum: two messages
/// that differ only there have the same checksum.
pub proof fn lemma_checksum_ignores_skipped_word(a: Seq<u8>, b: Seq<u8>, skipword: int)
    requires
        same_but_word(a, b, skipword),
    ensures
        internet_checksum(a, skipword) == internet_checksum(b, skipword),
{
    lemma_word_sum_ignores_skipped_word(a, b, skipword, word_count(a));
}

/// A word that is zero adds nothing, whether it is left out or not.
proof fn lemma_word_sum_of_zero_word(data: Seq<u8>, word: int, n: nat)
    requires
        word_at(data, word) == 0,
    ensures
        word_sum(data, word, n) == word_sum(data, -1, n),
    decreases n,
{
    if n > 0 {
        lemma_word_sum_of_zero_word(data, word, (n - 1) as nat);
    }
}

/// To leave a word out of the checksum is to compute the checksum over all
/// of the message with that word set to zero.
pub proof fn lemma_skipping_is_zeroing(data: Seq<u8>, skipword: int)
    requires
        0 <= skipword,
        2 * skipword + 1 < data.len(),
    ensures
        internet_checksum(data, skipword) == checksum_of_all(with_zero_word(data, skipword)),
{
    let zeroed = with_zero_word(data, skipword);
    lemma_checksum_ignores_skipped_word(data, zeroed, skipword);
    lemma_word_sum_of_zero_word(zeroed, skipword, word_count(zeroed));
}

/// The checksum of `data` as `pnet::packet::util::checksum` computes it. That
/// function sums the big-endian words in 32 bits, leaves out the word at
/// index `skipword`, folds the carries and complements; of an empty message
/// it returns 0. The length is bounded so that its 32-bit sum cannot
/// overflow.
#[verifier::external_body]
pub(crate) fn checksum(data: &[u8], skipword: usize) -> (sum: u16)
    requires
        data@.len() <= MAX_CHECKSUM_LEN,
    ensures
        sum == if data@.len() == 0 {
            0u16
        } else {
            internet_checksum(data@, skipword as int)
        },
{
    pnet::packet::util::checksum(data, skipword)
}

} // verus!

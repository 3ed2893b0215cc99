//! The Internet checksum: the 16-bit ones-complement of the ones-complement
//! sum of a buffer read as big-endian 16-bit words.

use vstd::prelude::*;

verus! {

/// What the byte `byte` at offset `i` contributes to its 16-bit word: the
/// high byte of a word sits at the even offset.
pub open spec fn byte_term(byte: u8, i: int) -> nat {
    if i % 2 == 0 {
        (byte as nat) * 256
    } else {
        byte as nat
    }
}

/// The plain sum of the big-endian 16-bit words of `bytes`. A trailing odd
/// byte counts as the high byte of a word whose low byte is zero.
pub open spec fn word_sum(bytes: Seq<u8>) -> nat
    decreases bytes.len(),
{
    if bytes.len() == 0 {
        0
    } else {
        word_sum(bytes.drop_last()) + byte_term(bytes.last(), bytes.len() - 1)
    }
}

/// Folds a sum into 16 bits by adding the carries back in until none is left.
pub open spec fn fold_carries(sum: nat) -> nat
    decreases sum,
{
    if sum < 0x1_0000 {
        sum
    } else {
        fold_carries(sum / 0x1_0000 + sum % 0x1_0000)
    }
}

/// The checksum of `bytes`: the complement of the folded word sum.
pub open spec fn checksum_of(bytes: Seq<u8>) -> u16 {
    (0xffff - fold_carries(word_sum(bytes))) as u16
}

/// `bytes` with the two bytes at `at` and `at + 1` replaced by the big-endian
/// form of `value`.
pub open spec fn with_word(bytes: Seq<u8>, at: int, value: u16) -> Seq<u8> {
    bytes.update(at, (value / 256) as u8).update(at + 1, (value % 256) as u8)
}

/// Folding has a closed form: zero stays zero, and every other sum lands on
/// its residue modulo 65535 taken in the range 1 to 65535.
pub proof fn lemma_fold_closed_form(sum: nat)
    ensures
        fold_carries(sum) == if sum == 0 {
            0
        } else {
            (sum - 1) % 65535 + 1
        },
        fold_carries(sum) <= 0xffff,
    decreases sum,
{
    if sum >= 0x1_0000 {
        let q = sum / 0x1_0000;
        let r = sum % 0x1_0000;
        let t = (q + r) as nat;
        lemma_fold_closed_form(t);
        assert(sum - 1 == 65535 * q + (t - 1));
        assert((sum - 1) % 65535 == (t - 1) % 65535) by {
            vstd::arithmetic::div_mod::lemma_mod_multiples_vanish(q as int, t - 1, 65535);
        }
    }
}

/// Folding may happen at any time: a sum folded before a term is added folds
/// to the same value as the whole sum.
proof fn lemma_fold_absorbs(sum: nat, term: nat)
    ensures
        fold_carries(fold_carries(sum) + term) == fold_carries(sum + term),
{
    lemma_fold_closed_form(sum);
    lemma_fold_closed_form(sum + term);
    lemma_fold_closed_form(fold_carries(sum) + term);
    if sum > 0 {
        let f = fold_carries(sum);
        let k = (sum - 1) / 65535;
        assert(sum - 1 == 65535 * k + (f - 1));
        assert(sum + term - 1 == 65535 * k + (f + term - 1));
        assert((sum + term - 1) % 65535 == (f + term - 1) % 65535) by {
            vstd::arithmetic::div_mod::lemma_mod_multiples_vanish(k as int, f + term - 1, 65535);
        }
    }
}

/// Replacing one byte moves the word sum by the difference of the two bytes,
/// each taken at the byte's place in its word.
proof fn lemma_word_sum_update(bytes: Seq<u8>, at: int, value: u8)
    requires
        0 <= at < bytes.len(),
    ensures
        word_sum(bytes.update(at, value)) + byte_term(bytes[at], at) == word_sum(bytes)
            + byte_term(value, at),
    decreases bytes.len(),
{
    let changed = bytes.update(at, value);
    if at == bytes.len() - 1 {
        assert(changed.drop_last() =~= bytes.drop_last());
    } else {
        assert(changed.drop_last() =~= bytes.drop_last().update(at, value));
        lemma_word_sum_update(bytes.drop_last(), at, value);
    }
}

/// A buffer that carries its own checksum sums to zero: when the checksum of
/// a buffer whose checksum field is zero is written into that field, the
/// checksum of the result is zero.
pub proof fn lemma_checksum_verifies(bytes: Seq<u8>, at: int)
    requires
        0 <= at,
        at + 1 < bytes.len(),
        at % 2 == 0,
        bytes[at] == 0,
        bytes[at + 1] == 0,
    ensures
        checksum_of(with_word(bytes, at, checksum_of(bytes))) == 0,
        fold_carries(word_sum(with_word(bytes, at, checksum_of(bytes)))) == 0xffff,
{
    let sum = word_sum(bytes);
    let c = checksum_of(bytes);
    lemma_fold_closed_form(sum);
    let hi = (c / 256) as u8;
    let lo = (c % 256) as u8;
    let first = bytes.update(at, hi);
    lemma_word_sum_update(bytes, at, hi);
    lemma_word_sum_update(first, at + 1, lo);
    let sealed = with_word(bytes, at, c);
    assert(word_sum(sealed) == sum + c);
    lemma_fold_closed_form(sum + c as nat);
    if sum > 0 {
        let k = (sum - 1) / 65535;
        assert(sum + c - 1 == 65535 * k + 65534);
        assert((sum + c - 1) % 65535 == 65534) by {
            vstd::arithmetic::div_mod::lemma_mod_multiples_vanish(k as int, 65534, 65535);
        }
    }
}

/// Computes the Internet checksum of `data`.
pub fn internet_checksum(data: &[u8]) -> (sum: u16)
    ensures
        sum == checksum_of(data@),
{
    let mut acc: u32 = 0;
    let mut i: usize = 0;
    while i < data.len()
        invariant
            i <= data.len(),
            acc == fold_carries(word_sum(data@.take(i as int))),
            acc <= 0xffff,
        decreases data.len() - i,
    {
        let byte: u32 = data[i] as u32;
        let term: u32 = if i % 2 == 0 {
            byte * 256
        } else {
            byte
        };
        let ghost before = word_sum(data@.take(i as int));
        proof {
            assert(data@.take(i + 1).drop_last() =~= data@.take(i as int));
            assert(word_sum(data@.take(i + 1)) == before + term);
            lemma_fold_absorbs(before, term as nat);
            lemma_fold_closed_form(before + term as nat);
        }
        acc = acc + term;
        if acc > 0xffff {
            // one end-around carry is enough: the sum stays below twice 65536
            assert(fold_carries(acc as nat) == fold_carries((acc / 0x1_0000 + acc % 0x1_0000) as nat));
            acc = acc / 0x1_0000 + acc % 0x1_0000;
            assert(fold_carries(acc as nat) == acc);
        }
        i = i + 1;
    }
    proof {
        assert(data@.take(data.len() as int) =~= data@);
    }
    (0xffff - acc) as u16
}

} // verus!

//! The binary distance ledger: a flat little-endian encoding of one
//! 64-bit value per pair followed by a single trailing mean, with no
//! header and no delimiters. A consumer recovers the pair count from
//! the byte length alone.

use vstd::bytes::lemma_auto_spec_u64_to_from_le_bytes;
use vstd::bytes::spec_u64_to_le_bytes;
use vstd::bytes::u64_to_le_bytes;
use vstd::prelude::*;

verus! {

/// The little-endian concatenation of a sequence of 64-bit values.
pub open spec fn le_bytes_of(values: Seq<u64>) -> Seq<u8>
    decreases values.len(),
{
    if values.len() == 0 {
        Seq::empty()
    } else {
        le_bytes_of(values.drop_last()) + spec_u64_to_le_bytes(values.last())
    }
}

/// The full ledger: every distance in order, then the mean, each as
/// eight little-endian bytes.
pub open spec fn ledger_bytes_of(distances: Seq<u64>, mean: u64) -> Seq<u8> {
    le_bytes_of(distances) + spec_u64_to_le_bytes(mean)
}

/// The encoding of `n` values takes exactly `8 * n` bytes.
pub proof fn lemma_le_bytes_of_len(values: Seq<u64>)
    ensures
        le_bytes_of(values).len() == 8 * values.len(),
    decreases values.len(),
{
    lemma_auto_spec_u64_to_from_le_bytes();
    if values.len() > 0 {
        lemma_le_bytes_of_len(values.drop_last());
    }
}

/// The ledger of `n` distances holds exactly `n + 1` values, hence
/// `8 * (n + 1)` bytes.
pub proof fn lemma_ledger_len(distances: Seq<u64>, mean: u64)
    ensures
        ledger_bytes_of(distances, mean).len() == 8 * (distances.len() + 1),
{
    lemma_auto_spec_u64_to_from_le_bytes();
    lemma_le_bytes_of_len(distances);
}

/// Value `i` of an encoded sequence stands at byte offset `8 * i`.
pub proof fn lemma_le_bytes_of_value_at(values: Seq<u64>, i: int)
    requires
        0 <= i < values.len(),
    ensures
        le_bytes_of(values).subrange(8 * i, 8 * i + 8) == spec_u64_to_le_bytes(values[i]),
    decreases values.len(),
{
    lemma_auto_spec_u64_to_from_le_bytes();
    lemma_le_bytes_of_len(values.drop_last());
    if i == values.len() - 1 {
        assert(le_bytes_of(values).subrange(8 * i, 8 * i + 8) =~= spec_u64_to_le_bytes(
            values.last(),
        ));
    } else {
        lemma_le_bytes_of_value_at(values.drop_last(), i);
        assert(le_bytes_of(values).subrange(8 * i, 8 * i + 8) =~= le_bytes_of(
            values.drop_last(),
        ).subrange(8 * i, 8 * i + 8));
    }
}

/// Distance `i` is associated with pair `i` by position alone: it is
/// the `i`-th 64-bit value of the ledger.
pub proof fn lemma_ledger_distance_at(distances: Seq<u64>, mean: u64, i: int)
    requires
        0 <= i < distances.len(),
    ensures
        ledger_bytes_of(distances, mean).subrange(8 * i, 8 * i + 8) == spec_u64_to_le_bytes(
            distances[i],
        ),
        vstd::bytes::spec_u64_from_le_bytes(
            ledger_bytes_of(distances, mean).subrange(8 * i, 8 * i + 8),
        ) == distances[i],
{
    lemma_auto_spec_u64_to_from_le_bytes();
    lemma_le_bytes_of_len(distances);
    lemma_le_bytes_of_value_at(distances, i);
    assert(ledger_bytes_of(distances, mean).subrange(8 * i, 8 * i + 8) =~= le_bytes_of(
        distances,
    ).subrange(8 * i, 8 * i + 8));
}

/// The mean carries no tag: it is recognized as the last 64-bit value
/// of the ledger.
pub proof fn lemma_ledger_mean_is_last(distances: Seq<u64>, mean: u64)
    ensures
        ledger_bytes_of(distances, mean).subrange(
            8 * distances.len() as int,
            8 * distances.len() as int + 8,
        ) == spec_u64_to_le_bytes(mean),
        vstd::bytes::spec_u64_from_le_bytes(
            ledger_bytes_of(distances, mean).subrange(
                8 * distances.len() as int,
                8 * distances.len() as int + 8,
            ),
        ) == mean,
{
    lemma_auto_spec_u64_to_from_le_bytes();
    lemma_le_bytes_of_len(distances);
    assert(ledger_bytes_of(distances, mean).subrange(
        8 * distances.len() as int,
        8 * distances.len() as int + 8,
    ) =~= spec_u64_to_le_bytes(mean));
}

/// Encodes the distances and the trailing mean as the binary ledger.
pub fn encode_ledger(distances: &Vec<u64>, mean: u64) -> (r: Vec<u8>)
    ensures
        r@ == ledger_bytes_of(distances@, mean),
        r@.len() == 8 * (distances@.len() + 1),
{
    proof {
        lemma_auto_spec_u64_to_from_le_bytes();
    }
    let mut out: Vec<u8> = Vec::new();
    let mut i: usize = 0;
    while i < distances.len()
        invariant
            0 <= i <= distances@.len(),
            out@ == le_bytes_of(distances@.take(i as int)),
        decreases distances@.len() - i,
    {
        let ghost pre = distances@.take(i as int);
        let ghost cur = distances@.take(i + 1);
        proof {
            lemma_auto_spec_u64_to_from_le_bytes();
            assert(cur.drop_last() =~= pre);
            assert(cur.last() == distances@[i as int]);
        }
        let mut word: Vec<u8> = u64_to_le_bytes(distances[i]);
        out.append(&mut word);
        i += 1;
    }
    proof {
        assert(distances@.take(distances@.len() as int) =~= distances@);
    }
    let mut tail: Vec<u8> = u64_to_le_bytes(mean);
    out.append(&mut tail);
    proof {
        lemma_ledger_len(distances@, mean);
    }
    out
}

} // verus!

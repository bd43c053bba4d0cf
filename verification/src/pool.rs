//! The ring of capture buffers.

use vstd::prelude::*;

verus! {

/// Number of buffers in the ring.
pub const BUFFER_POOL_SIZE: usize = 3;

/// How many steps around the ring `slot` is ahead of `from`.
pub open spec fn steps_ahead(from: int, slot: int, len: int) -> int {
    if slot >= from { slot - from } else { slot - from + len }
}

/// `slot` is the next buffer to use: of those that the encoder is done with, the
/// first one around the ring, starting at `from`.
pub open spec fn is_next_free(consumed: Seq<bool>, from: int, slot: int) -> bool {
    &&& 0 <= slot < consumed.len()
    &&& consumed[slot]
    &&& forall|j: int|
        0 <= j < consumed.len() && #[trigger] consumed[j] ==> steps_ahead(
            from,
            slot,
            consumed.len() as int,
        ) <= steps_ahead(from, j, consumed.len() as int)
}

/// The encoder is done with every buffer.
pub open spec fn all_consumed(consumed: Seq<bool>) -> bool {
    forall|j: int| 0 <= j < consumed.len() ==> #[trigger] consumed[j]
}

/// The encoder still reads every buffer.
pub open spec fn none_consumed(consumed: Seq<bool>) -> bool {
    forall|j: int| 0 <= j < consumed.len() ==> !#[trigger] consumed[j]
}

/// Whether the encoder is done with every buffer.
pub fn is_unused(consumed: &Vec<bool>) -> (r: bool)
    ensures
        r == all_consumed(consumed@),
{
    let mut i: usize = 0;
    while i < consumed.len()
        invariant
            i <= consumed.len(),
            forall|j: int| 0 <= j < i ==> #[trigger] consumed@[j],
        decreases consumed.len() - i,
    {
        if !consumed[i] {
            return false;
        }
        i = i + 1;
    }
    true
}

/// The next buffer to use, starting at `from`; none if the encoder still reads
/// them all.
pub fn next_free(consumed: &Vec<bool>, from: usize) -> (r: Option<usize>)
    requires
        consumed@.len() <= BUFFER_POOL_SIZE,
        consumed@.len() > 0 ==> from < consumed@.len(),
    ensures
        match r {
            Some(slot) => is_next_free(consumed@, from as int, slot as int),
            None => none_consumed(consumed@),
        },
{
    let len: usize = consumed.len();
    let mut offset: usize = 0;
    while offset < len
        invariant
            len == consumed@.len(),
            len <= BUFFER_POOL_SIZE,
            offset <= len,
            len > 0 ==> from < len,
            forall|j: int|
                0 <= j < len && steps_ahead(from as int, j, len as int) < offset ==> !#[trigger] consumed@[j],
        decreases len - offset,
    {
        let index: usize = (from + offset) % len;
        assert(index == (if from + offset < len { from + offset } else { from + offset - len })) by {
            if from + offset < len {
                vstd::arithmetic::div_mod::lemma_small_mod((from + offset) as nat, len as nat);
            } else {
                vstd::arithmetic::div_mod::lemma_fundamental_div_mod_converse(
                    from + offset,
                    len as int,
                    1,
                    from + offset - len,
                );
            }
        }
        if consumed[index] {
            return Some(index);
        }
        offset = offset + 1;
    }
    None
}

/// At most one buffer is the next to use, and the encoder is done with it.
pub proof fn law_next_buffer_is_unique(consumed: Seq<bool>, from: int, i: int, j: int)
    requires
        0 <= from < consumed.len(),
        is_next_free(consumed, from, i),
    ensures
        consumed[i],
        is_next_free(consumed, from, j) ==> i == j,
        !none_consumed(consumed),
{
}

/// The ring is fair: a search that starts behind the buffer used last comes to
/// that buffer only when the encoder reads all others.
pub proof fn law_last_buffer_comes_last(consumed: Seq<bool>, last: int, j: int)
    requires
        0 <= last < consumed.len(),
        is_next_free(consumed, if last + 1 < consumed.len() { last + 1 } else { 0 }, last),
        0 <= j < consumed.len(),
        j != last,
    ensures
        !consumed[j],
{
}

/// The next buffer to use is one that the encoder is done with, and every buffer
/// from the starting point up to it, around the ring, is still being read.
pub proof fn law_the_first_free_buffer_is_next(consumed: Seq<bool>, from: int, slot: int, j: int)
    requires
        0 <= from < consumed.len(),
        is_next_free(consumed, from, slot),
    ensures
        0 <= slot < consumed.len(),
        consumed[slot],
        from <= j < slot ==> !consumed[j],
        slot < from && (from <= j < consumed.len() || 0 <= j < slot) ==> !consumed[j],
{
}

/// Both tests look at every buffer.
pub proof fn law_every_buffer_counts(consumed: Seq<bool>, j: int)
    requires
        0 <= j < consumed.len(),
    ensures
        all_consumed(consumed) ==> consumed[j],
        none_consumed(consumed) ==> !consumed[j],
        (forall|k: int| 0 <= k < consumed.len() ==> consumed[k]) ==> all_consumed(consumed),
        (forall|k: int| 0 <= k < consumed.len() ==> !consumed[k]) ==> none_consumed(consumed),
{
}

} // verus!

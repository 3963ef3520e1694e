//! The mathematical model of the ring: what a bounded history of a byte
//! stream holds, and how a store with a moving head keeps it.

use vstd::prelude::*;

verus! {

/// `n` zero bytes.
pub open spec fn zeros(n: nat) -> Seq<u8> {
    Seq::new(n, |i: int| 0u8)
}

/// The newest `n` bytes of `s`: all of `s` where it is no longer than `n`.
pub open spec fn newest(s: Seq<u8>, n: nat) -> Seq<u8> {
    if s.len() <= n {
        s
    } else {
        s.subrange(s.len() - n, s.len() as int)
    }
}

/// A history of fixed length after `bytes` were appended to the stream: the
/// oldest bytes leave, so that the length stays what it was.
pub open spec fn history_after(history: Seq<u8>, bytes: Seq<u8>) -> Seq<u8> {
    newest(history + bytes, history.len())
}

/// The store read in the order in which it was written: from `head` to the
/// end, then from the start up to `head`.
pub open spec fn chronological(store: Seq<u8>, head: int) -> Seq<u8> {
    store.subrange(head, store.len() as int) + store.subrange(0, head)
}

/// How far position `i` of a store of `len` bytes lies after `head`, going
/// round the end of the store.
pub open spec fn distance_from(head: int, i: int, len: int) -> int {
    if i >= head {
        i - head
    } else {
        i - head + len
    }
}

/// The store after a write of `bytes` that starts at `head`: the newest
/// bytes of the write, as many as the store can take, lie from `head` on and
/// wrap to position 0; every other position keeps its byte.
pub open spec fn store_after(store: Seq<u8>, head: int, bytes: Seq<u8>) -> Seq<u8> {
    let kept = newest(bytes, store.len());
    Seq::new(
        store.len(),
        |i: int|
            if distance_from(head, i, store.len() as int) < kept.len() {
                kept[distance_from(head, i, store.len() as int)]
            } else {
                store[i]
            },
    )
}

/// The head after a write of `written` bytes into a store of `len` bytes.
pub open spec fn head_after(head: int, written: int, len: int) -> int {
    (head + if written > len { len } else { written }) % len
}

/// The history after each of `writes` was appended in turn.
pub open spec fn history_after_all(history: Seq<u8>, writes: Seq<Seq<u8>>) -> Seq<u8>
    decreases writes.len(),
{
    if writes.len() == 0 {
        history
    } else {
        history_after(history_after_all(history, writes.drop_last()), writes.last())
    }
}

/// A write into the store appends to the history: reading the store after
/// the write from its new head gives the old history followed by the bytes
/// written, cut to the store's length.
pub proof fn lemma_store_tracks_history(store: Seq<u8>, head: int, bytes: Seq<u8>)
    requires
        0 <= head < store.len(),
    ensures
        chronological(
            store_after(store, head, bytes),
            head_after(head, bytes.len() as int, store.len() as int),
        ) == history_after(chronological(store, head), bytes),
{
    lemma_wrap_once(head + newest(bytes, store.len()).len(), store.len() as int);
}

/// A position less than twice the length wraps round the end at most once.
pub proof fn lemma_wrap_once(x: int, len: int)
    requires
        0 <= x < 2 * len,
    ensures
        x % len == if x >= len { x - len } else { x },
{
    if x >= len {
        vstd::arithmetic::div_mod::lemma_small_mod((x - len) as nat, len as nat);
        vstd::arithmetic::div_mod::lemma_mod_sub_multiples_vanish(x, len);
    } else {
        vstd::arithmetic::div_mod::lemma_small_mod(x as nat, len as nat);
    }
}

/// The bytes of `writes` in one piece end with the last write.
proof fn lemma_flatten_ends_with_last(writes: Seq<Seq<u8>>)
    requires
        writes.len() > 0,
    ensures
        writes.flatten() == writes.drop_last().flatten() + writes.last(),
{
    writes.lemma_flatten_and_flatten_alt_are_equivalent();
    writes.drop_last().lemma_flatten_and_flatten_alt_are_equivalent();
}

/// However a stream is cut into writes, the history after them is the
/// newest part of the history before them followed by the whole stream.
pub proof fn law_history_follows_stream(history: Seq<u8>, writes: Seq<Seq<u8>>)
    ensures
        history_after_all(history, writes) == newest(history + writes.flatten(), history.len()),
    decreases writes.len(),
{
    if writes.len() > 0 {
        law_history_follows_stream(history, writes.drop_last());
        lemma_flatten_ends_with_last(writes);
    }
}

/// While no more than `h` bytes were written to a fresh ring of `h` bytes,
/// its history is every write in order, with zero bytes in front of them up
/// to the length `h`.
pub proof fn law_short_stream_is_zero_padded(h: nat, writes: Seq<Seq<u8>>)
    requires
        writes.flatten().len() <= h,
    ensures
        history_after_all(zeros(h), writes) == zeros((h - writes.flatten().len()) as nat)
            + writes.flatten(),
{
    law_history_follows_stream(zeros(h), writes);
}

/// Once `h` bytes or more were written to a ring of `h` bytes, its history is
/// the last `h` bytes written, in the order in which they were written.
pub proof fn law_long_stream_keeps_newest(history: Seq<u8>, writes: Seq<Seq<u8>>)
    requires
        writes.flatten().len() >= history.len(),
    ensures
        history_after_all(history, writes) == writes.flatten().subrange(
            writes.flatten().len() - history.len(),
            writes.flatten().len() as int,
        ),
{
    law_history_follows_stream(history, writes);
}

/// The history does not show where one write ended and the next began: two
/// runs of writes that carry the same stream leave the same history.
pub proof fn law_chunking_is_invisible(history: Seq<u8>, a: Seq<Seq<u8>>, b: Seq<Seq<u8>>)
    requires
        a.flatten() == b.flatten(),
    ensures
        history_after_all(history, a) == history_after_all(history, b),
{
    law_history_follows_stream(history, a);
    law_history_follows_stream(history, b);
}

/// A write that is at least as long as the ring leaves nothing of what the
/// ring held: the history is the write's own last bytes, and every position
/// of the store holds one of them.
pub proof fn law_oversized_write_overwrites_all(store: Seq<u8>, head: int, bytes: Seq<u8>)
    requires
        0 <= head < store.len(),
        bytes.len() >= store.len(),
    ensures
        history_after(chronological(store, head), bytes) == newest(bytes, store.len()),
        forall|i: int|
            0 <= i < store.len() ==> #[trigger] store_after(store, head, bytes)[i] == newest(
                bytes,
                store.len(),
            )[distance_from(head, i, store.len() as int)],
{
}

/// The two pieces in which a history is replayed, the bytes from the head on
/// and then the bytes before the head, make up the history, and that is as
/// long as the store.
pub proof fn law_replay_pieces_make_the_history(store: Seq<u8>, head: int)
    requires
        0 <= head <= store.len(),
    ensures
        store.subrange(head, store.len() as int) + store.subrange(0, head) == chronological(
            store,
            head,
        ),
        chronological(store, head).len() == store.len(),
{
}

/// A ring that was never written to replays as many zero bytes as it is long.
pub proof fn law_fresh_ring_replays_zeros(h: nat)
    ensures
        chronological(zeros(h), 0) == zeros(h),
        chronological(zeros(h), 0).len() == h,
{
}

} // verus!

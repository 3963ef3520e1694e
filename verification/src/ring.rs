//! The ring: a store of fixed size that keeps the newest bytes of a stream.

use vstd::prelude::*;
use vstd::slice::slice_subrange;
use crate::history::{
    chronological, head_after, history_after, lemma_store_tracks_history, lemma_wrap_once,
    store_after, zeros,
};

verus! {

/// What a [`RingBuffer`] holds, as plain mathematics.
pub struct RingView {
    /// The bytes of the store by position.
    pub store: Seq<u8>,
    /// The position that the next write starts at.
    pub head: int,
}

impl RingView {
    /// The retained bytes, oldest first.
    pub open spec fn history(self) -> Seq<u8> {
        chronological(self.store, self.head)
    }
}

/// A circular store of the last `H` bytes written. Bytes that were never
/// written read as zero.
pub struct RingBuffer<const H: usize> {
    store: [u8; H],
    head: usize,
}

impl<const H: usize> View for RingBuffer<H> {
    type V = RingView;

    closed spec fn view(&self) -> RingView {
        RingView { store: self.store@, head: self.head as int }
    }
}

/// Copies `count` bytes of `src`, from position `from` on, over the bytes of
/// `store` from position `at` on.
fn copy_bytes<const H: usize>(store: &mut [u8; H], at: usize, src: &[u8], from: usize, count: usize)
    requires
        at + count <= H,
        from + count <= src.len(),
    ensures
        final(store)@ == Seq::new(
            H as nat,
            |i: int|
                if at <= i < at + count {
                    src@[from + (i - at)]
                } else {
                    old(store)@[i]
                },
        ),
    no_unwind
{
    let mut done: usize = 0;
    while done < count
        invariant
            done <= count,
            at + count <= H,
            from + count <= src.len(),
            store@ == Seq::new(
                H as nat,
                |i: int|
                    if at <= i < at + done {
                        src@[from + (i - at)]
                    } else {
                        old(store)@[i]
                    },
            ),
        decreases count - done,
    {
        store[at + done] = src[from + done];
        done += 1;
    }
}

impl<const H: usize> RingBuffer<H> {
    #[verifier::type_invariant]
    spec fn well_formed(self) -> bool {
        self.head == 0 || self.head < H
    }

    /// Creates a ring of `H` zero bytes with its head at position 0.
    pub fn new() -> (ring: RingBuffer<H>)
        ensures
            ring@.store == zeros(H as nat),
            ring@.head == 0,
            ring@.history() == zeros(H as nat),
    {
        RingBuffer { store: [0u8; H], head: 0 }
    }

    /// The position that the next write starts at.
    pub fn head(&self) -> (head: usize)
        ensures
            head == self@.head,
            head == 0 || head < H,
    {
        proof {
            use_type_invariant(self);
        }
        self.head
    }

    /// The bytes of the store by position.
    pub fn data(&self) -> (store: &[u8; H])
        ensures
            store@ == self@.store,
            store@.len() == H,
    {
        &self.store
    }

    /// Writes `data` at the head, going round the end of the store, and
    /// moves the head behind what was written. Of a write longer than the
    /// store only the last `H` bytes are kept.
    pub fn write(&mut self, data: &[u8])
        requires
            H > 0,
        ensures
            final(self)@.store == store_after(old(self)@.store, old(self)@.head, data@),
            final(self)@.head == head_after(old(self)@.head, data@.len() as int, H as int),
            final(self)@.history() == history_after(old(self)@.history(), data@),
            data@.len() >= H ==> final(self)@.history() == data@.subrange(
                data@.len() - H,
                data@.len() as int,
            ),
    {
        proof {
            use_type_invariant(&*self);
            lemma_store_tracks_history(self.store@, self.head as int, data@);
        }
        let skipped: usize = if data.len() > H {
            data.len() - H
        } else {
            0
        };
        let kept: usize = data.len() - skipped;
        let remainder: usize = H - self.head;
        let to_write: usize = if remainder < kept {
            remainder
        } else {
            kept
        };
        copy_bytes(&mut self.store, self.head, data, skipped, to_write);
        if kept > remainder {
            copy_bytes(&mut self.store, 0, data, skipped + to_write, kept - remainder);
        }
        proof {
            lemma_wrap_once(self.head + kept, H as int);
        }
        self.head = if kept >= remainder {
            kept - remainder
        } else {
            self.head + kept
        };
    }

    /// The two stretches of the store that make up the history: the bytes
    /// from the head to the end, which are the older ones, and the bytes from
    /// the start up to the head.
    pub fn segments(&self) -> (parts: (&[u8], &[u8]))
        ensures
            parts.0@ == self@.store.subrange(self@.head, H as int),
            parts.1@ == self@.store.subrange(0, self@.head),
            parts.0@ + parts.1@ == self@.history(),
    {
        proof {
            use_type_invariant(self);
        }
        let older = slice_subrange(self.store.as_slice(), self.head, H);
        let newer = slice_subrange(self.store.as_slice(), 0, self.head);
        (older, newer)
    }

    /// The history in one piece: `H` bytes, oldest first.
    pub fn snapshot(&self) -> (bytes: Vec<u8>)
        ensures
            bytes@ == self@.history(),
            bytes@.len() == H,
    {
        proof {
            use_type_invariant(self);
        }
        let mut bytes: Vec<u8> = Vec::with_capacity(H);
        let mut i: usize = self.head;
        while i < H
            invariant
                self.head <= i <= H,
                bytes@ == self.store@.subrange(self.head as int, i as int),
            decreases H - i,
        {
            bytes.push(self.store[i]);
            i += 1;
        }
        let mut j: usize = 0;
        while j < self.head
            invariant
                j <= self.head <= H,
                bytes@ == self.store@.subrange(self.head as int, H as int) + self.store@.subrange(
                    0,
                    j as int,
                ),
            decreases self.head - j,
        {
            bytes.push(self.store[j]);
            j += 1;
        }
        bytes
    }
}

} // verus!

//! Fixed-capacity, per-frame-number ordered buffer of update batches.
//!
//! The buffer decouples "when a message about frame N arrives" from "when
//! frame N is simulated": messages may arrive early (buffered within the
//! window for later) or late (stale, tolerated without corrupting state
//! already advanced past them). One slot exists per retained frame number,
//! contiguously from `offset()`; `advance` is the single mutation point
//! coupling the buffer to the simulation tick.

use vstd::prelude::*;

verus! {

/// Updates scheduled for one simulation frame, in arrival order.
pub struct FrameUpdates<T> {
    pub frame_number: u64,
    pub updates: Vec<T>,
}

/// Why an insertion was refused. Scheduling an update further ahead than
/// the window can hold indicates a logic or configuration defect upstream,
/// and is the only condition this core surfaces as a hard error.
#[derive(Clone, Copy, PartialEq, Eq, Structural, Debug)]
pub enum InsertError {
    OutOfWindow,
}

/// The frame ring buffer: a window of `window()` contiguous frames starting
/// at `offset()`, each slot holding the updates buffered for that frame.
pub struct FramedUpdates<T> {
    frame_offset: u64,
    frames: Vec<FrameUpdates<T>>,
}

impl<T> FramedUpdates<T> {
    /// Frame number of the oldest retained slot.
    pub closed spec fn offset(self) -> u64 {
        self.frame_offset
    }

    /// The buffered update batches, oldest frame first.
    pub closed spec fn slots(self) -> Seq<Seq<T>> {
        self.frames@.map(|i: int, f: FrameUpdates<T>| f.updates@)
    }

    /// Number of retained slots (the configured window size).
    pub open spec fn window(self) -> int {
        self.slots().len() as int
    }

    /// The frame number recorded at slot `i`.
    pub closed spec fn slot_frame(self, i: int) -> u64 {
        self.frames@[i].frame_number
    }

    /// The slots are contiguous: slot `i` always holds frame `offset() + i`,
    /// with no gaps; the window never shrinks below one slot, and the
    /// retained frame numbers fit the frame counter.
    pub open spec fn well_formed(self) -> bool {
        &&& 1 <= self.window()
        &&& self.offset() + self.window() <= u64::MAX
        &&& forall|i: int|
            0 <= i < self.window() ==> #[trigger] self.slot_frame(i) == self.offset() + i
    }

    /// An empty buffer of `window` slots for frames `0 .. window`.
    pub fn new(window: usize) -> (r: Self)
        requires
            1 <= window,
            window <= u64::MAX,
        ensures
            r.well_formed(),
            r.offset() == 0,
            r.window() == window,
            forall|i: int| 0 <= i < window ==> #[trigger] r.slots()[i].len() == 0,
    {
        let mut frames: Vec<FrameUpdates<T>> = Vec::with_capacity(window);
        let mut i: usize = 0;
        while i < window
            invariant
                i <= window,
                window <= u64::MAX,
                frames@.len() == i,
                forall|j: int|
                    0 <= j < i ==> (#[trigger] frames@[j]).frame_number == j
                        && frames@[j].updates@.len() == 0,
            decreases window - i,
        {
            frames.push(FrameUpdates { frame_number: i as u64, updates: Vec::new() });
            i = i + 1;
        }
        let r = FramedUpdates { frame_offset: 0, frames };
        proof {
            assert(forall|j: int|
                0 <= j < r.window() ==> #[trigger] r.slots()[j] == r.frames@[j].updates@);
        }
        r
    }

    /// The frame the simulation will consume next: the oldest retained one.
    pub fn current_frame_number(&self) -> (r: u64)
        ensures
            r == self.offset(),
    {
        self.frame_offset
    }

    /// Buffers `update` at the slot for `frame_number`, preserving arrival
    /// order within the slot.
    ///
    /// An update for a frame older than the window is dropped silently:
    /// stale data for an already-simulated frame cannot retroactively affect
    /// a running simulation, and such arrivals are expected under lossy,
    /// reordered delivery. An update for a frame at or past the window's end
    /// is refused with `OutOfWindow` and the buffer is left unchanged.
    pub fn insert(&mut self, frame_number: u64, update: T) -> (r: Result<(), InsertError>)
        requires
            old(self).well_formed(),
        ensures
            final(self).well_formed(),
            final(self).offset() == old(self).offset(),
            final(self).window() == old(self).window(),
            frame_number < old(self).offset() ==> r is Ok && final(self).slots() =~= old(
                self,
            ).slots(),
            frame_number >= old(self).offset() + old(self).window() ==> r === Err(
                InsertError::OutOfWindow,
            ) && final(self).slots() =~= old(self).slots(),
            old(self).offset() <= frame_number < old(self).offset() + old(self).window() ==> r
                is Ok && final(self).slots() =~= old(self).slots().update(
                frame_number - old(self).offset(),
                old(self).slots()[frame_number - old(self).offset()].push(update),
            ),
    {
        if frame_number < self.frame_offset {
            return Ok(());
        }
        let idx_wide = frame_number - self.frame_offset;
        if idx_wide >= self.frames.len() as u64 {
            return Err(InsertError::OutOfWindow);
        }
        let idx = idx_wide as usize;
        let mut slot = self.frames.remove(idx);
        slot.updates.push(update);
        self.frames.insert(idx, slot);
        proof {
            assert(self.frames@ =~= old(self).frames@.update(
                idx as int,
                FrameUpdates { frame_number: slot.frame_number, updates: slot.updates },
            ));
            assert(self.slots() =~= old(self).slots().update(
                idx as int,
                old(self).slots()[idx as int].push(update),
            ));
            assert forall|i: int| 0 <= i < self.window() implies #[trigger] self.slot_frame(i)
                == self.offset() + i by {
                assert(old(self).slot_frame(i) == old(self).offset() + i);
            }
        }
        Ok(())
    }

    /// Takes ownership of the oldest slot's updates, evicts that slot and
    /// appends a fresh empty slot at the tail, moving the window forward by
    /// one frame. Called exactly once per simulated frame.
    pub fn advance(&mut self) -> (r: Vec<T>)
        requires
            old(self).well_formed(),
            old(self).offset() + old(self).window() < u64::MAX,
        ensures
            final(self).well_formed(),
            final(self).offset() == old(self).offset() + 1,
            final(self).window() == old(self).window(),
            r@ =~= old(self).slots()[0],
            final(self).slots() =~= old(self).slots().drop_first().push(Seq::<T>::empty()),
    {
        let oldest = self.frames.remove(0);
        let tail_frame = self.frame_offset + self.frames.len() as u64 + 1;
        self.frames.push(FrameUpdates { frame_number: tail_frame, updates: Vec::new() });
        self.frame_offset = self.frame_offset + 1;
        proof {
            assert(self.slots() =~= old(self).slots().drop_first().push(Seq::<T>::empty()));
            assert forall|i: int| 0 <= i < self.window() implies #[trigger] self.slot_frame(i)
                == self.offset() + i by {
                if i < self.window() - 1 {
                    assert(old(self).slot_frame(i + 1) == old(self).offset() + i + 1);
                }
            }
        }
        oldest.updates
    }
}

/// Law: `advance` called `n` times moves `offset` forward by exactly `n`.
///
/// `offsets` lists the buffer's `offset()` before each call and after the
/// last one; each consecutive pair relates as `advance`'s contract says
/// (the offset grows by one per call), so the final offset exceeds the
/// initial one by the number of calls. Which batch each call returns is
/// pinned by `advance`'s own `ensures`: the slot that was oldest
/// immediately before that call.
pub proof fn lemma_advance_offsets(offsets: Seq<int>)
    requires
        offsets.len() >= 1,
        forall|k: int|
            0 <= k < offsets.len() - 1 ==> (#[trigger] offsets[k + 1]) == offsets[k] + 1,
    ensures
        offsets.last() == offsets[0] + offsets.len() - 1,
    decreases offsets.len(),
{
    if offsets.len() > 1 {
        let front = offsets.drop_last();
        assert forall|k: int| 0 <= k < front.len() - 1 implies (#[trigger] front[k + 1])
            == front[k] + 1 by {
            assert(offsets[k + 1] == offsets[k] + 1);
        }
        lemma_advance_offsets(front);
        let n = offsets.len() as int;
        assert(offsets[(n - 2) + 1] == offsets[n - 2] + 1);
    }
}

} // verus!

//! The frame resource ring: one slot per frame in flight, each owning a
//! fence (modelled by what the CPU knows of its state) and cycled by a
//! cursor. The fence discipline — wait before reuse, reset only after a
//! successful acquire, one submission per reset — is enforced by the
//! contracts of the methods, so a caller cannot reuse a slot whose
//! submitted work has not been waited on.

use vstd::prelude::*;

verus! {

/// What the CPU knows about a slot's fence.
///
/// - `Signaled`: the fence is known signaled; a wait returns at once.
/// - `Unsignaled`: the fence was reset and nothing was submitted against
///   it yet; waiting now would block forever.
/// - `Pending`: work was submitted that will signal the fence; a wait
///   blocks until that work completes.
#[derive(Clone, Copy, Debug, PartialEq, Eq, Structural)]
pub enum FenceState {
    Signaled,
    Unsignaled,
    Pending,
}

/// The synchronization state of one ring slot.
#[derive(Clone, Copy, Debug, PartialEq, Eq, Structural)]
pub struct SyncObjects {
    pub fence: FenceState,
}

/// The ring of per-frame synchronization slots and its cursor.
#[derive(Clone, Debug)]
pub struct InFlightFrames {
    pub slots: Vec<SyncObjects>,
    pub current_frame: usize,
}

impl InFlightFrames {
    pub open spec fn wf(self) -> bool {
        &&& self.slots@.len() >= 1
        &&& self.current_frame < self.slots@.len()
    }

    pub open spec fn ring_size(self) -> nat {
        self.slots@.len()
    }

    /// Fences are created pre-signaled, so the first wait on any slot
    /// never blocks.
    pub fn new(ring_size: usize) -> (r: InFlightFrames)
        requires
            ring_size >= 1,
        ensures
            r.wf(),
            r.slots@.len() == ring_size,
            r.current_frame == 0,
            forall|k: int| 0 <= k < ring_size ==> r.slots@[k].fence == FenceState::Signaled,
    {
        let mut slots: Vec<SyncObjects> = Vec::new();
        let mut i: usize = 0;
        while i < ring_size
            invariant
                i <= ring_size,
                slots@.len() == i,
                forall|k: int| 0 <= k < i ==> slots@[k].fence == FenceState::Signaled,
            decreases ring_size - i,
        {
            slots.push(SyncObjects { fence: FenceState::Signaled });
            i = i + 1;
        }
        InFlightFrames { slots, current_frame: 0 }
    }

    /// Advances the cursor by exactly one, wrapping at the ring size.
    pub fn advance(&mut self)
        requires
            old(self).wf(),
        ensures
            final(self).wf(),
            final(self).slots == old(self).slots,
            final(self).current_frame == (old(self).current_frame + 1) as int
                % old(self).slots@.len() as int,
    {
        let n = self.slots.len();
        self.current_frame = (self.current_frame + 1) % n;
    }

    /// Blocks until the fence of slot `i` is signaled. The slot must not
    /// be in the reset-but-unsubmitted state, in which the wait could
    /// never return.
    pub fn wait_fence(&mut self, i: usize)
        requires
            old(self).wf(),
            i < old(self).slots@.len(),
            old(self).slots@[i as int].fence != FenceState::Unsignaled,
        ensures
            final(self).wf(),
            final(self).current_frame == old(self).current_frame,
            final(self).slots@ == old(self).slots@.update(
                i as int,
                SyncObjects { fence: FenceState::Signaled },
            ),
    {
        self.slots.set(i, SyncObjects { fence: FenceState::Signaled });
    }

    /// Resets the fence of slot `i`. Allowed only when the fence is known
    /// signaled: resetting a pending fence would lose the only record of
    /// work still executing.
    pub fn reset_fence(&mut self, i: usize)
        requires
            old(self).wf(),
            i < old(self).slots@.len(),
            old(self).slots@[i as int].fence == FenceState::Signaled,
        ensures
            final(self).wf(),
            final(self).current_frame == old(self).current_frame,
            final(self).slots@ == old(self).slots@.update(
                i as int,
                SyncObjects { fence: FenceState::Unsignaled },
            ),
    {
        self.slots.set(i, SyncObjects { fence: FenceState::Unsignaled });
    }

    /// Records that work signalling slot `i`'s fence was submitted. The
    /// fence must have been reset first, so one reset backs one submit.
    pub fn mark_submitted(&mut self, i: usize)
        requires
            old(self).wf(),
            i < old(self).slots@.len(),
            old(self).slots@[i as int].fence == FenceState::Unsignaled,
        ensures
            final(self).wf(),
            final(self).current_frame == old(self).current_frame,
            final(self).slots@ == old(self).slots@.update(
                i as int,
                SyncObjects { fence: FenceState::Pending },
            ),
    {
        self.slots.set(i, SyncObjects { fence: FenceState::Pending });
    }
}

} // verus!

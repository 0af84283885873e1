//! Traces of the calls a frame loop issues, and the discipline every
//! trace of the orchestrator obeys. The discipline is a small automaton
//! over trace events; the driver proves its traces are accepted, and the
//! lemmas here derive the safety properties from acceptance alone:
//! no slot is re-recorded before its fence wait, the render content is
//! recorded exactly once per acquired frame, nothing is issued while
//! the window has zero area, and out-of-date recovery performs exactly
//! one rebuild.

use vstd::prelude::*;

use crate::extent::Extent2D;

verus! {

/// One call the frame loop issued, as the application would see it.
#[derive(Clone, Copy, Debug, PartialEq, Eq, Structural)]
pub enum Event {
    /// A window size was reported.
    Observe { extent: Extent2D },
    /// The swapchain and its attachments were destroyed and recreated.
    Rebuild { extent: Extent2D },
    /// The wait on a slot's fence completed.
    FenceWait { slot: usize },
    /// A slot's fence was reset.
    FenceReset { slot: usize },
    /// An image was acquired using the slot's semaphore.
    Acquire { slot: usize, image_index: u32 },
    /// The acquire call reported the chain out of date.
    AcquireOutOfDate { slot: usize },
    /// The slot's command buffer was recorded.
    Record { slot: usize },
    /// The slot's command buffer was submitted, signalling its fence.
    Submit { slot: usize },
    /// The image was presented.
    Present { slot: usize, image_index: u32, suboptimal: bool },
    /// The present call reported the chain out of date.
    PresentOutOfDate { slot: usize },
}

/// Where the current render cycle stands, as the trace shows it: an
/// acquire arms the recording of its slot, the one record disarms it,
/// and the submit consumes the record.
#[verifier::ext_equal]
pub ghost enum CyclePhase {
    Rest,
    Acquired { slot: usize },
    Recorded { slot: usize },
}

/// The abstract state the discipline tracks: which slots have submitted
/// work not yet waited on, whether the swapchain must be rebuilt before
/// any further GPU work, whether the last reported extent had zero area,
/// and where the current render cycle stands.
#[verifier::ext_equal]
pub ghost struct LoopModel {
    pub pending: Seq<bool>,
    pub dirty: bool,
    pub zero: bool,
    pub cycle: CyclePhase,
}

/// One step of the discipline: `None` means the event is not allowed in
/// this state. GPU work is allowed only with a clean chain and a drawable
/// window; recording or submitting a slot requires its fence waited; the
/// render content is recorded exactly once per acquire — an acquire arms
/// it, the record disarms it, and the submit requires the record; a
/// rebuild requires a dirty chain and a drawable window.
pub open spec fn evolve(m: LoopModel, e: Event) -> Option<LoopModel> {
    match e {
        Event::Observe { extent } => if m.cycle is Rest {
            Some(LoopModel { dirty: true, zero: extent.spec_is_zero_area(), ..m })
        } else {
            None
        },
        Event::Rebuild { .. } => if m.dirty && !m.zero && m.cycle is Rest {
            Some(LoopModel { dirty: false, ..m })
        } else {
            None
        },
        Event::FenceWait { slot } => if (slot as int) < m.pending.len() && !m.dirty && !m.zero
            && m.cycle is Rest {
            Some(LoopModel { pending: m.pending.update(slot as int, false), ..m })
        } else {
            None
        },
        Event::FenceReset { slot } => if (slot as int) < m.pending.len() && !m.dirty && !m.zero
            && !m.pending[slot as int] && m.cycle == (CyclePhase::Acquired { slot }) {
            Some(m)
        } else {
            None
        },
        Event::Acquire { slot, .. } => if (slot as int) < m.pending.len() && !m.dirty && !m.zero
            && m.cycle is Rest {
            Some(LoopModel { cycle: CyclePhase::Acquired { slot }, ..m })
        } else {
            None
        },
        Event::AcquireOutOfDate { .. } => if !m.dirty && !m.zero && m.cycle is Rest {
            Some(LoopModel { dirty: true, ..m })
        } else {
            None
        },
        Event::Record { slot } => if (slot as int) < m.pending.len() && !m.dirty && !m.zero
            && !m.pending[slot as int] && m.cycle == (CyclePhase::Acquired { slot }) {
            Some(LoopModel { cycle: CyclePhase::Recorded { slot }, ..m })
        } else {
            None
        },
        Event::Submit { slot } => if (slot as int) < m.pending.len() && !m.dirty && !m.zero
            && !m.pending[slot as int] && m.cycle == (CyclePhase::Recorded { slot }) {
            Some(
                LoopModel {
                    pending: m.pending.update(slot as int, true),
                    cycle: CyclePhase::Rest,
                    ..m
                },
            )
        } else {
            None
        },
        Event::Present { slot, suboptimal, .. } => if (slot as int) < m.pending.len() && !m.dirty
            && !m.zero && m.pending[slot as int] && m.cycle is Rest {
            Some(LoopModel { dirty: suboptimal, ..m })
        } else {
            None
        },
        Event::PresentOutOfDate { slot } => if (slot as int) < m.pending.len() && !m.dirty
            && !m.zero && m.pending[slot as int] && m.cycle is Rest {
            Some(LoopModel { dirty: true, ..m })
        } else {
            None
        },
    }
}

/// The discipline run over a whole trace.
pub open spec fn run_model(m0: LoopModel, t: Seq<Event>) -> Option<LoopModel>
    decreases t.len(),
{
    if t.len() == 0 {
        Some(m0)
    } else {
        match run_model(m0, t.drop_last()) {
            Some(m) => evolve(m, t.last()),
            None => None,
        }
    }
}

pub proof fn lemma_run_model_push(m0: LoopModel, t: Seq<Event>, e: Event)
    ensures
        run_model(m0, t.push(e)) == (match run_model(m0, t) {
            Some(m) => evolve(m, e),
            None => None::<LoopModel>,
        }),
{
    assert(t.push(e).drop_last() =~= t);
    assert(t.push(e).last() == e);
}

/// Every prefix of an accepted trace is accepted.
pub proof fn lemma_run_model_prefix(m0: LoopModel, t: Seq<Event>, i: int)
    requires
        run_model(m0, t) is Some,
        0 <= i <= t.len(),
    ensures
        run_model(m0, t.take(i)) is Some,
    decreases t.len() - i,
{
    if i == t.len() {
        assert(t.take(i) =~= t);
    } else {
        lemma_run_model_prefix(m0, t, i + 1);
        assert(t.take(i + 1).drop_last() =~= t.take(i));
        assert(t.take(i + 1).len() == i + 1);
    }
}

/// Acceptance after `i + 1` events is acceptance after `i` events
/// followed by one step on the event at `i`.
pub proof fn lemma_run_model_at(m0: LoopModel, t: Seq<Event>, i: int)
    requires
        0 <= i < t.len(),
    ensures
        run_model(m0, t.take(i + 1)) == (match run_model(m0, t.take(i)) {
            Some(m) => evolve(m, t[i]),
            None => None::<LoopModel>,
        }),
{
    assert(t.take(i + 1) =~= t.take(i).push(t[i]));
    lemma_run_model_push(m0, t.take(i), t[i]);
}

/// After a submit on slot `s`, the slot stays pending until a fence wait
/// on `s`.
proof fn lemma_pending_persists(m0: LoopModel, t: Seq<Event>, j: int, m: int, s: usize)
    requires
        run_model(m0, t) is Some,
        0 <= j < m <= t.len(),
        t[j] == (Event::Submit { slot: s }),
        forall|i: int| j < i < m ==> t[i] != (Event::FenceWait { slot: s }),
    ensures
        run_model(m0, t.take(m)) matches Some(mm) && (s as int) < mm.pending.len()
            && mm.pending[s as int] == true,
    decreases m,
{
    lemma_run_model_prefix(m0, t, m);
    if m == j + 1 {
        lemma_run_model_prefix(m0, t, j);
        lemma_run_model_at(m0, t, j);
    } else {
        lemma_pending_persists(m0, t, j, m - 1, s);
        lemma_run_model_at(m0, t, m - 1);
        let mprev = run_model(m0, t.take(m - 1))->Some_0;
        let mcur = run_model(m0, t.take(m))->Some_0;
        match t[m - 1] {
            Event::FenceWait { slot } => {
                assert(mcur.pending == mprev.pending.update(slot as int, false));
            },
            Event::Submit { slot } => {
                assert(mcur.pending == mprev.pending.update(slot as int, true));
            },
            _ => {
                assert(mcur.pending == mprev.pending);
            },
        }
    }
}

/// A dirty chain stays dirty until a rebuild.
proof fn lemma_dirty_persists(m0: LoopModel, t: Seq<Event>, p: int, m: int)
    requires
        run_model(m0, t) is Some,
        0 <= p <= m <= t.len(),
        run_model(m0, t.take(p)) matches Some(mp) && mp.dirty,
        forall|i: int| p <= i < m ==> !(t[i] is Rebuild),
    ensures
        run_model(m0, t.take(m)) matches Some(mm) && mm.dirty,
    decreases m - p,
{
    lemma_run_model_prefix(m0, t, m);
    if p < m {
        lemma_dirty_persists(m0, t, p, m - 1);
        lemma_run_model_at(m0, t, m - 1);
    }
}

/// A clean chain stays clean until something reports it dirty.
proof fn lemma_clean_persists(m0: LoopModel, t: Seq<Event>, p: int, m: int)
    requires
        run_model(m0, t) is Some,
        0 <= p <= m <= t.len(),
        run_model(m0, t.take(p)) matches Some(mp) && !mp.dirty,
        forall|i: int| p <= i < m ==> !(t[i] is Observe) && !(t[i] is AcquireOutOfDate) && !(t[i]
            is PresentOutOfDate) && !(t[i] matches Event::Present { suboptimal, .. } && suboptimal),
    ensures
        run_model(m0, t.take(m)) matches Some(mm) && !mm.dirty,
    decreases m - p,
{
    lemma_run_model_prefix(m0, t, m);
    if p < m {
        lemma_clean_persists(m0, t, p, m - 1);
        lemma_run_model_at(m0, t, m - 1);
    }
}

/// A zero-area window stays in force until the next size report.
proof fn lemma_zero_persists(m0: LoopModel, t: Seq<Event>, p: int, m: int)
    requires
        run_model(m0, t) is Some,
        0 <= p <= m <= t.len(),
        run_model(m0, t.take(p)) matches Some(mp) && mp.zero,
        forall|i: int| p <= i < m ==> !(t[i] is Observe),
    ensures
        run_model(m0, t.take(m)) matches Some(mm) && mm.zero,
    decreases m - p,
{
    lemma_run_model_prefix(m0, t, m);
    if p < m {
        lemma_zero_persists(m0, t, p, m - 1);
        lemma_run_model_at(m0, t, m - 1);
    }
}

/// Ring safety: in an accepted trace, a slot that was submitted is never
/// recorded or submitted again before a fence wait on that slot
/// completed in between.
pub proof fn lemma_ring_safety(m0: LoopModel, t: Seq<Event>, j: int, k: int, s: usize)
    requires
        run_model(m0, t) is Some,
        0 <= j < k < t.len(),
        t[j] == (Event::Submit { slot: s }),
        t[k] == (Event::Record { slot: s }) || t[k] == (Event::Submit { slot: s }),
    ensures
        exists|i: int| j < i < k && t[i] == (Event::FenceWait { slot: s }),
{
    if !(exists|i: int| j < i < k && t[i] == (Event::FenceWait { slot: s })) {
        lemma_pending_persists(m0, t, j, k, s);
        lemma_run_model_prefix(m0, t, k + 1);
        lemma_run_model_at(m0, t, k);
        assert(false);
    }
}

/// Minimized no-op: once a zero-area extent is reported, an accepted
/// trace issues nothing at all — no acquire, submit, present, wait or
/// rebuild — before the next size report. Whatever event stands at `k`,
/// a size report stands between the zero-area report and it (or is it).
pub proof fn lemma_minimized_noop(m0: LoopModel, t: Seq<Event>, j: int, k: int)
    requires
        run_model(m0, t) is Some,
        0 <= j < k < t.len(),
        t[j] matches Event::Observe { extent } && extent.spec_is_zero_area(),
    ensures
        exists|i: int| j < i <= k && t[i] is Observe,
{
    if !(exists|i: int| j < i <= k && t[i] is Observe) {
        lemma_run_model_prefix(m0, t, j);
        lemma_run_model_prefix(m0, t, j + 1);
        lemma_run_model_at(m0, t, j);
        lemma_zero_persists(m0, t, j + 1, k);
        lemma_run_model_prefix(m0, t, k + 1);
        lemma_run_model_at(m0, t, k);
        assert(false);
    }
}

/// Out-of-date recovery, first half: after an acquire reports the chain
/// out of date, an accepted trace issues no further call — in particular
/// it records nothing for the aborted frame and acquires nothing — until
/// a rebuild; only size reports may pass.
pub proof fn lemma_out_of_date_blocks(m0: LoopModel, t: Seq<Event>, j: int, k: int)
    requires
        run_model(m0, t) is Some,
        0 <= j < k < t.len(),
        t[j] is AcquireOutOfDate,
        !(t[k] is Observe),
        !(t[k] is Rebuild),
    ensures
        exists|i: int| j < i < k && t[i] is Rebuild,
{
    if !(exists|i: int| j < i < k && t[i] is Rebuild) {
        lemma_run_model_prefix(m0, t, j);
        lemma_run_model_prefix(m0, t, j + 1);
        lemma_run_model_at(m0, t, j);
        lemma_dirty_persists(m0, t, j + 1, k);
        lemma_run_model_prefix(m0, t, k + 1);
        lemma_run_model_at(m0, t, k);
        assert(false);
    }
}

/// A disarmed cycle stays disarmed until an acquire.
proof fn lemma_not_acquired_persists(m0: LoopModel, t: Seq<Event>, p: int, m: int)
    requires
        run_model(m0, t) is Some,
        0 <= p <= m <= t.len(),
        run_model(m0, t.take(p)) matches Some(mp) && !(mp.cycle is Acquired),
        forall|i: int| p <= i < m ==> !(t[i] is Acquire),
    ensures
        run_model(m0, t.take(m)) matches Some(mm) && !(mm.cycle is Acquired),
    decreases m - p,
{
    lemma_run_model_prefix(m0, t, m);
    if p < m {
        lemma_not_acquired_persists(m0, t, p, m - 1);
        lemma_run_model_at(m0, t, m - 1);
    }
}

/// The render content runs at most once per acquire: between two record
/// events stands a fresh acquire.
pub proof fn lemma_record_needs_fresh_acquire(m0: LoopModel, t: Seq<Event>, j: int, k: int)
    requires
        run_model(m0, t) is Some,
        0 <= j < k < t.len(),
        t[j] is Record,
        t[k] is Record,
    ensures
        exists|i: int| j < i < k && t[i] is Acquire,
{
    if !(exists|i: int| j < i < k && t[i] is Acquire) {
        lemma_run_model_prefix(m0, t, j);
        lemma_run_model_prefix(m0, t, j + 1);
        lemma_run_model_at(m0, t, j);
        lemma_not_acquired_persists(m0, t, j + 1, k);
        lemma_run_model_prefix(m0, t, k + 1);
        lemma_run_model_at(m0, t, k);
        assert(false);
    }
}

/// The render content runs at least once per submitted frame — and
/// immediately before the submit: a submit on a slot is directly preceded
/// by the record of that slot.
pub proof fn lemma_submit_follows_record(m0: LoopModel, t: Seq<Event>, k: int)
    requires
        run_model(m0, t) is Some,
        m0.cycle is Rest,
        0 <= k < t.len(),
        t[k] matches Event::Submit { slot },
    ensures
        1 <= k,
        t[k - 1] == (Event::Record { slot: t[k]->Submit_slot }),
{
    lemma_run_model_prefix(m0, t, k + 1);
    lemma_run_model_prefix(m0, t, k);
    lemma_run_model_at(m0, t, k);
    assert(t.take(0) =~= Seq::<Event>::empty());
    if k >= 1 {
        lemma_run_model_prefix(m0, t, k - 1);
        lemma_run_model_at(m0, t, k - 1);
    }
}

/// Out-of-date recovery, second half: one rebuild is enough. A second
/// rebuild cannot occur in an accepted trace unless something made the
/// chain dirty again in between — a size report, an out-of-date signal,
/// or a suboptimal present.
pub proof fn lemma_rebuild_needs_cause(m0: LoopModel, t: Seq<Event>, m1: int, m2: int)
    requires
        run_model(m0, t) is Some,
        0 <= m1 < m2 < t.len(),
        t[m1] is Rebuild,
        t[m2] is Rebuild,
    ensures
        exists|i: int|
            m1 < i < m2 && (t[i] is Observe || t[i] is AcquireOutOfDate || t[i]
                is PresentOutOfDate || (t[i] matches Event::Present { suboptimal, .. }
                && suboptimal)),
{
    if !(exists|i: int|
        m1 < i < m2 && (t[i] is Observe || t[i] is AcquireOutOfDate || t[i] is PresentOutOfDate
            || (t[i] matches Event::Present { suboptimal, .. } && suboptimal))) {
        lemma_run_model_prefix(m0, t, m1);
        lemma_run_model_prefix(m0, t, m1 + 1);
        lemma_run_model_at(m0, t, m1);
        lemma_clean_persists(m0, t, m1 + 1, m2);
        lemma_run_model_prefix(m0, t, m2 + 1);
        lemma_run_model_at(m0, t, m2);
        assert(false);
    }
}

} // verus!

//! A verified driver for the orchestrator against a scripted presentation
//! backend: one scripted outcome per tick for acquire and present, and an
//! optional size report at the tick's start. The driver returns the trace
//! of calls it issued. Its contract pins that trace completely — it equals
//! the tick-by-tick fold [`spec_run`] of the script — and proves the trace
//! accepted by the frame-loop discipline of [`crate::trace`], so the
//! safety lemmas there hold of every run.

use vstd::prelude::*;

use crate::extent::Extent2D;
use crate::orchestrator::{AcquireResult, CycleStep, Orchestrator, PresentResult, TickAction};
use crate::ring::SyncObjects;
use crate::swapchain::{spec_planned_config, SurfaceFormat, SwapchainSupportDetails};
use crate::trace::{run_model, lemma_run_model_push, CyclePhase, Event, LoopModel};

verus! {

/// What the scripted backend answers to the acquire call of one tick.
#[derive(Clone, Copy, Debug, PartialEq, Eq, Structural)]
pub enum ScriptAcquire {
    Image { index: u32 },
    OutOfDate,
}

/// What the scripted backend answers to the present call of one tick.
#[derive(Clone, Copy, Debug, PartialEq, Eq, Structural)]
pub enum ScriptPresent {
    Presented { suboptimal: bool },
    OutOfDate,
}

/// One scripted tick: an optional window-size report, and the backend's
/// answers should the tick acquire and present.
#[derive(Clone, Copy, Debug, PartialEq, Eq, Structural)]
pub struct ScriptTick {
    pub resize: Option<Extent2D>,
    pub acquire: ScriptAcquire,
    pub present: ScriptPresent,
}

/// The abstraction of an orchestrator state that the frame-loop
/// discipline tracks.
pub open spec fn model_of(o: Orchestrator) -> LoopModel {
    LoopModel {
        pending: o.ring.slots@.map_values(|s: SyncObjects| s.fence is Pending),
        dirty: !(o.phase is Running),
        zero: o.window_extent.spec_is_zero_area(),
        cycle: match o.step {
            CycleStep::Acquired { .. } => CyclePhase::Acquired { slot: o.ring.current_frame },
            CycleStep::Recorded { .. } => CyclePhase::Recorded { slot: o.ring.current_frame },
            _ => CyclePhase::Rest,
        },
    }
}

/// The part of an orchestrator state that decides what a tick does and
/// what the trace shows: the per-slot pending bits, the dirty flag, the
/// stored window size, and the ring cursor.
#[verifier::ext_equal]
pub ghost struct DriverState {
    pub pending: Seq<bool>,
    pub dirty: bool,
    pub extent: Extent2D,
    pub cursor: int,
}

/// The driver-relevant abstraction of an orchestrator between ticks.
pub open spec fn state_of(o: Orchestrator) -> DriverState {
    DriverState {
        pending: o.ring.slots@.map_values(|s: SyncObjects| s.fence is Pending),
        dirty: !(o.phase is Running),
        extent: o.window_extent,
        cursor: o.ring.current_frame as int,
    }
}

/// What one scripted tick does: the successor state and the exact events
/// the tick appends to the trace. A size report is stored and marks the
/// chain dirty; a dirty chain with a zero-area window idles; a dirty
/// chain with a drawable window rebuilds; otherwise the tick runs one
/// render cycle on the cursor's slot — wait, acquire, reset, one record,
/// submit, present — aborted after the acquire when the backend reports
/// the chain out of date.
pub open spec fn tick_step(
    s: DriverState,
    details: SwapchainSupportDetails,
    requested: Option<SurfaceFormat>,
    vsync: bool,
    t: ScriptTick,
) -> (DriverState, Seq<Event>) {
    let s1 = match t.resize {
        Some(e) => DriverState { dirty: true, extent: e, ..s },
        None => s,
    };
    let obs: Seq<Event> = match t.resize {
        Some(e) => seq![Event::Observe { extent: e }],
        None => Seq::empty(),
    };
    if s1.dirty {
        if s1.extent.spec_is_zero_area() {
            (s1, obs)
        } else {
            let cfg = spec_planned_config(
                details.formats@,
                details.present_modes@,
                details.capabilities,
                s1.extent,
                requested,
                vsync,
            );
            (DriverState { dirty: false, ..s1 }, obs + seq![Event::Rebuild { extent: cfg.extent }])
        }
    } else {
        let slot = s1.cursor as usize;
        match t.acquire {
            ScriptAcquire::OutOfDate => (
                DriverState { pending: s1.pending.update(s1.cursor, false), dirty: true, ..s1 },
                obs + seq![Event::FenceWait { slot }, Event::AcquireOutOfDate { slot }],
            ),
            ScriptAcquire::Image { index } => {
                let advanced = DriverState {
                    pending: s1.pending.update(s1.cursor, true),
                    cursor: (s1.cursor + 1) % (s1.pending.len() as int),
                    ..s1
                };
                match t.present {
                    ScriptPresent::Presented { suboptimal } => (
                        DriverState { dirty: suboptimal, ..advanced },
                        obs + seq![
                            Event::FenceWait { slot },
                            Event::Acquire { slot, image_index: index },
                            Event::FenceReset { slot },
                            Event::Record { slot },
                            Event::Submit { slot },
                            Event::Present { slot, image_index: index, suboptimal },
                        ],
                    ),
                    ScriptPresent::OutOfDate => (
                        DriverState { dirty: true, ..advanced },
                        obs + seq![
                            Event::FenceWait { slot },
                            Event::Acquire { slot, image_index: index },
                            Event::FenceReset { slot },
                            Event::Record { slot },
                            Event::Submit { slot },
                            Event::PresentOutOfDate { slot },
                        ],
                    ),
                }
            },
        }
    }
}

/// The whole scripted run, one tick at a time: the final state and the
/// concatenation of every tick's events.
pub open spec fn spec_run(
    s: DriverState,
    details: SwapchainSupportDetails,
    requested: Option<SurfaceFormat>,
    vsync: bool,
    script: Seq<ScriptTick>,
) -> (DriverState, Seq<Event>)
    decreases script.len(),
{
    if script.len() == 0 {
        (s, Seq::empty())
    } else {
        let prev = spec_run(s, details, requested, vsync, script.drop_last());
        let step = tick_step(prev.0, details, requested, vsync, script.last());
        (step.0, prev.1 + step.1)
    }
}

pub proof fn lemma_spec_run_push(
    s: DriverState,
    details: SwapchainSupportDetails,
    requested: Option<SurfaceFormat>,
    vsync: bool,
    script: Seq<ScriptTick>,
    t: ScriptTick,
)
    ensures
        spec_run(s, details, requested, vsync, script.push(t)) == ({
            let prev = spec_run(s, details, requested, vsync, script);
            let step = tick_step(prev.0, details, requested, vsync, t);
            (step.0, prev.1 + step.1)
        }),
{
    assert(script.push(t).drop_last() =~= script);
    assert(script.push(t).last() == t);
}

/// Runs the orchestrator for one tick per script entry, performing the
/// scripted backend outcomes, and returns the final state with the trace
/// of calls issued. The trace and the final state are exactly what
/// [`spec_run`] computes from the script, and the trace is accepted by
/// the frame-loop discipline, which is what makes the trace lemmas apply
/// to it.
#[verifier::rlimit(100)]
pub fn run_script(
    orch: Orchestrator,
    details: &SwapchainSupportDetails,
    script: &Vec<ScriptTick>,
) -> (r: (Orchestrator, Vec<Event>))
    requires
        orch.wf(),
        orch.step == CycleStep::Idle,
        !(orch.phase is Exiting),
        details.wf(),
        details.formats@.len() > 0,
        details.present_modes@.len() > 0,
    ensures
        r.0.wf(),
        r.0.step == CycleStep::Idle,
        !(r.0.phase is Exiting),
        run_model(model_of(orch), r.1@) == Some(model_of(r.0)),
        state_of(r.0) == spec_run(
            state_of(orch),
            *details,
            orch.format_override,
            orch.vsync,
            script@,
        ).0,
        r.1@ == spec_run(state_of(orch), *details, orch.format_override, orch.vsync, script@).1,
{
    let ghost m0 = model_of(orch);
    let ghost d0 = state_of(orch);
    let ghost fo = orch.format_override;
    let ghost vs = orch.vsync;
    let mut o = orch;
    let mut trace: Vec<Event> = Vec::new();
    let mut i: usize = 0;
    proof {
        assert(script@.take(0) =~= Seq::<ScriptTick>::empty());
    }
    while i < script.len()
        invariant
            o.wf(),
            o.step == CycleStep::Idle,
            !(o.phase is Exiting),
            o.format_override == fo,
            o.vsync == vs,
            details.wf(),
            details.formats@.len() > 0,
            details.present_modes@.len() > 0,
            i <= script@.len(),
            run_model(m0, trace@) == Some(model_of(o)),
            state_of(o) == spec_run(d0, *details, fo, vs, script@.take(i as int)).0,
            trace@ == spec_run(d0, *details, fo, vs, script@.take(i as int)).1,
        decreases script@.len() - i,
    {
        let tick = script[i];
        let ghost tk = script@[i as int];
        let ghost s_pre = state_of(o);
        let ghost tr_pre = trace@;
        let ghost stp = tick_step(s_pre, *details, fo, vs, tk);

        if let Some(e) = tick.resize {
            let ghost t_prev = trace@;
            let ghost m_prev = model_of(o);
            o.observe_extent(e);
            trace.push(Event::Observe { extent: e });
            proof {
                lemma_run_model_push(m0, t_prev, Event::Observe { extent: e });
                assert(model_of(o) =~= (LoopModel {
                    dirty: true,
                    zero: e.spec_is_zero_area(),
                    ..m_prev
                }));
            }
        }
        let ghost s1 = (match tk.resize {
            Some(e) => DriverState { dirty: true, extent: e, ..s_pre },
            None => s_pre,
        });
        proof {
            assert(state_of(o) =~= s1);
        }

        let ghost m_tick = model_of(o);
        let action = o.begin_tick();
        proof {
            assert(model_of(o) =~= m_tick);
            assert(state_of(o) =~= s1);
        }
        match action {
            TickAction::Idle => {
                proof {
                    assert(stp.0 =~= s1);
                    assert(trace@ =~= tr_pre + stp.1);
                }
            },
            TickAction::ShutDown => {},
            TickAction::Rebuild => {
                let ghost t_prev = trace@;
                let ghost m_prev = model_of(o);
                match o.complete_rebuild(details) {
                    Ok(cfg) => {
                        trace.push(Event::Rebuild { extent: cfg.extent });
                        proof {
                            lemma_run_model_push(m0, t_prev, Event::Rebuild { extent: cfg.extent });
                            assert(model_of(o) =~= (LoopModel { dirty: false, ..m_prev }));
                            assert(state_of(o) =~= stp.0);
                            assert(trace@ =~= tr_pre + stp.1);
                        }
                    },
                    Err(_) => {},
                }
            },
            TickAction::BeginCycle { slot } => {
                proof {
                    assert(s1.cursor as usize == slot);
                }
                let ghost t_prev = trace@;
                let ghost m_prev = model_of(o);
                o.on_fence_waited();
                trace.push(Event::FenceWait { slot });
                proof {
                    lemma_run_model_push(m0, t_prev, Event::FenceWait { slot });
                    assert(model_of(o).pending =~= m_prev.pending.update(slot as int, false));
                    assert(model_of(o) =~= (LoopModel {
                        pending: m_prev.pending.update(slot as int, false),
                        ..m_prev
                    }));
                }
                match tick.acquire {
                    ScriptAcquire::Image { index } => {
                        let ghost t_prev = trace@;
                        let ghost m_prev = model_of(o);
                        let _ = o.on_acquired(AcquireResult::Image { index, suboptimal: false });
                        trace.push(Event::Acquire { slot, image_index: index });
                        trace.push(Event::FenceReset { slot });
                        proof {
                            lemma_run_model_push(m0, t_prev, Event::Acquire {
                                slot,
                                image_index: index,
                            });
                            lemma_run_model_push(
                                m0,
                                t_prev.push(Event::Acquire { slot, image_index: index }),
                                Event::FenceReset { slot },
                            );
                            assert(model_of(o).pending =~= m_prev.pending);
                            assert(model_of(o) =~= (LoopModel {
                                cycle: CyclePhase::Acquired { slot },
                                ..m_prev
                            }));
                            assert(trace@ == t_prev.push(Event::Acquire {
                                slot,
                                image_index: index,
                            }).push(Event::FenceReset { slot }));
                        }
                        let ghost t_prev = trace@;
                        let ghost m_prev = model_of(o);
                        o.on_recorded();
                        trace.push(Event::Record { slot });
                        proof {
                            lemma_run_model_push(m0, t_prev, Event::Record { slot });
                            assert(model_of(o).pending =~= m_prev.pending);
                            assert(model_of(o) =~= (LoopModel {
                                cycle: CyclePhase::Recorded { slot },
                                ..m_prev
                            }));
                        }
                        let ghost t_prev = trace@;
                        let ghost m_prev = model_of(o);
                        let _ = o.on_submitted(true);
                        trace.push(Event::Submit { slot });
                        proof {
                            lemma_run_model_push(m0, t_prev, Event::Submit { slot });
                            assert(model_of(o).pending =~= m_prev.pending.update(
                                slot as int,
                                true,
                            ));
                            assert(model_of(o) =~= (LoopModel {
                                pending: m_prev.pending.update(slot as int, true),
                                cycle: CyclePhase::Rest,
                                ..m_prev
                            }));
                        }
                        let ghost t_prev = trace@;
                        let ghost m_prev = model_of(o);
                        match tick.present {
                            ScriptPresent::Presented { suboptimal } => {
                                let _ = o.on_presented(PresentResult::Presented { suboptimal });
                                trace.push(Event::Present {
                                    slot,
                                    image_index: index,
                                    suboptimal,
                                });
                                proof {
                                    lemma_run_model_push(m0, t_prev, Event::Present {
                                        slot,
                                        image_index: index,
                                        suboptimal,
                                    });
                                    assert(model_of(o).pending =~= m_prev.pending);
                                    assert(model_of(o) =~= (LoopModel {
                                        dirty: suboptimal,
                                        ..m_prev
                                    }));
                                }
                            },
                            ScriptPresent::OutOfDate => {
                                let _ = o.on_presented(PresentResult::OutOfDate);
                                trace.push(Event::PresentOutOfDate { slot });
                                proof {
                                    lemma_run_model_push(m0, t_prev, Event::PresentOutOfDate {
                                        slot,
                                    });
                                    assert(model_of(o).pending =~= m_prev.pending);
                                    assert(model_of(o) =~= (LoopModel { dirty: true, ..m_prev }));
                                }
                            },
                        }
                        proof {
                            assert(state_of(o).pending =~= s1.pending.update(s1.cursor, true));
                            assert(state_of(o) =~= stp.0);
                            assert(trace@ =~= tr_pre + stp.1);
                        }
                    },
                    ScriptAcquire::OutOfDate => {
                        let ghost t_prev = trace@;
                        let ghost m_prev = model_of(o);
                        let _ = o.on_acquired(AcquireResult::OutOfDate);
                        trace.push(Event::AcquireOutOfDate { slot });
                        proof {
                            lemma_run_model_push(m0, t_prev, Event::AcquireOutOfDate { slot });
                            assert(model_of(o).pending =~= m_prev.pending);
                            assert(model_of(o) =~= (LoopModel { dirty: true, ..m_prev }));
                            assert(state_of(o).pending =~= s1.pending.update(s1.cursor, false));
                            assert(state_of(o) =~= stp.0);
                            assert(trace@ =~= tr_pre + stp.1);
                        }
                    },
                }
            },
        }
        proof {
            lemma_spec_run_push(d0, *details, fo, vs, script@.take(i as int), tk);
            assert(script@.take(i as int + 1) =~= script@.take(i as int).push(tk));
            assert(state_of(o) == spec_run(d0, *details, fo, vs, script@.take(i as int + 1)).0);
            assert(trace@ == spec_run(d0, *details, fo, vs, script@.take(i as int + 1)).1);
        }
        i = i + 1;
    }
    proof {
        assert(script@.take(script@.len() as int) =~= script@);
    }
    (o, trace)
}

} // verus!

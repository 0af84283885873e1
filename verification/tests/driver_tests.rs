use frame_loop::driver::{run_script, ScriptAcquire, ScriptPresent, ScriptTick};
use frame_loop::extent::Extent2D;
use frame_loop::orchestrator::Orchestrator;
use frame_loop::swapchain::{
    PresentMode, SurfaceCapabilities, SurfaceFormat, SwapchainSupportDetails,
};
use frame_loop::trace::Event;

fn details() -> SwapchainSupportDetails {
    SwapchainSupportDetails {
        capabilities: SurfaceCapabilities {
            min_image_count: 2,
            max_image_count: 3,
            current_extent: Extent2D { width: u32::MAX, height: u32::MAX },
            min_extent: Extent2D { width: 1, height: 1 },
            max_extent: Extent2D { width: 8192, height: 8192 },
        },
        formats: vec![SurfaceFormat { format: 50, color_space: 0 }],
        present_modes: vec![PresentMode::Fifo],
    }
}

fn orchestrator(extent: Extent2D) -> Orchestrator {
    Orchestrator::new(2, extent, Vec::new(), None, true)
}

fn plain_tick() -> ScriptTick {
    ScriptTick {
        resize: None,
        acquire: ScriptAcquire::Image { index: 0 },
        present: ScriptPresent::Presented { suboptimal: false },
    }
}

fn is_acquire(e: &Event) -> bool {
    matches!(e, Event::Acquire { .. } | Event::AcquireOutOfDate { .. })
}

fn is_submit(e: &Event) -> bool {
    matches!(e, Event::Submit { .. })
}

fn is_present(e: &Event) -> bool {
    matches!(e, Event::Present { .. } | Event::PresentOutOfDate { .. })
}

fn is_gpu_call(e: &Event) -> bool {
    !matches!(e, Event::Observe { .. })
}

#[test]
fn five_frames_on_a_ring_of_two() {
    // Ring size 2, five frames, no resize, no errors: exactly five
    // acquires, five submits, five presents; the cursor runs 0,1,0,1,0;
    // and each submit is preceded by a fence wait on its slot.
    let script = vec![plain_tick(); 6];
    let (o, trace) = run_script(orchestrator(Extent2D { width: 800, height: 600 }), &details(),
        &script);

    // The first tick only rebuilds the missing chain; five frames follow.
    assert_eq!(trace.iter().filter(|e| matches!(e, Event::Rebuild { .. })).count(), 1);
    assert_eq!(trace.iter().filter(|e| is_acquire(e)).count(), 5);
    assert_eq!(trace.iter().filter(|e| is_submit(e)).count(), 5);
    assert_eq!(trace.iter().filter(|e| is_present(e)).count(), 5);

    let submit_slots: Vec<usize> = trace
        .iter()
        .filter_map(|e| match e {
            Event::Submit { slot } => Some(*slot),
            _ => None,
        })
        .collect();
    assert_eq!(submit_slots, vec![0, 1, 0, 1, 0]);
    assert_eq!(o.ring.current_frame, 1);

    // The render content runs exactly once per cycle: every submit is
    // immediately preceded by the one record of its slot, and records and
    // acquires come one for one.
    assert_eq!(trace.iter().filter(|e| matches!(e, Event::Record { .. })).count(), 5);
    for (k, e) in trace.iter().enumerate() {
        if let Event::Submit { slot } = e {
            assert_eq!(trace[k - 1], Event::Record { slot: *slot });
        }
    }

    // Fence wait before each submit that reuses a slot: between any two
    // submits on the same slot there is a fence wait on that slot.
    for (j, ej) in trace.iter().enumerate() {
        if let Event::Submit { slot: s } = ej {
            for (k, ek) in trace.iter().enumerate().skip(j + 1) {
                if let Event::Submit { slot: s2 } = ek {
                    if s2 == s {
                        let waited = trace[j + 1..k]
                            .iter()
                            .any(|e| matches!(e, Event::FenceWait { slot } if slot == s));
                        assert!(waited, "slot reused without a fence wait");
                    }
                }
            }
        }
    }
}

#[test]
fn minimized_ticks_issue_nothing() {
    // While the reported extent is zero-area, no acquire, submit or
    // present is issued, however many ticks elapse.
    let mut script = vec![ScriptTick {
        resize: Some(Extent2D { width: 0, height: 0 }),
        ..plain_tick()
    }];
    for _ in 0..10 {
        script.push(plain_tick());
    }
    let (_, trace) = run_script(orchestrator(Extent2D { width: 800, height: 600 }), &details(),
        &script);
    let zero_at = trace
        .iter()
        .position(|e| matches!(e, Event::Observe { extent } if extent.width == 0))
        .unwrap();
    assert!(trace[zero_at + 1..].iter().all(|e| !is_gpu_call(e)));
}

#[test]
fn minimize_then_restore_rebuilds_once() {
    // 800x600 -> 0x0 -> 1024x768: idle while minimized, then exactly one
    // rebuild before normal ticks resume.
    let mut script = vec![plain_tick(); 3];
    script.push(ScriptTick { resize: Some(Extent2D { width: 0, height: 0 }), ..plain_tick() });
    script.push(plain_tick());
    script.push(plain_tick());
    script.push(ScriptTick {
        resize: Some(Extent2D { width: 1024, height: 768 }),
        ..plain_tick()
    });
    script.push(plain_tick());
    script.push(plain_tick());
    let (o, trace) = run_script(orchestrator(Extent2D { width: 800, height: 600 }), &details(),
        &script);

    let zero_at = trace
        .iter()
        .position(|e| matches!(e, Event::Observe { extent } if extent.width == 0))
        .unwrap();
    let restore_at = trace
        .iter()
        .position(|e| matches!(e, Event::Observe { extent } if extent.width == 1024))
        .unwrap();
    // Nothing at all between the zero-area report and the restore.
    assert_eq!(restore_at, zero_at + 1);
    // Exactly one rebuild after the restore, at the new extent, then
    // frames again.
    let after = &trace[restore_at + 1..];
    assert_eq!(after.iter().filter(|e| matches!(e, Event::Rebuild { .. })).count(), 1);
    assert!(matches!(after[0], Event::Rebuild { extent } if extent.width == 1024));
    assert_eq!(after.iter().filter(|e| is_acquire(e)).count(), 2);
    assert_eq!(o.swapchain.unwrap().extent, Extent2D { width: 1024, height: 768 });
}

#[test]
fn out_of_date_on_third_acquire_recovers_with_one_rebuild() {
    // The backend reports out-of-date on the third acquire: nothing is
    // recorded for the aborted frame, and exactly one rebuild stands
    // between the third and the fourth acquire.
    let mut script = vec![plain_tick(); 3];
    script.push(ScriptTick { acquire: ScriptAcquire::OutOfDate, ..plain_tick() });
    script.push(plain_tick());
    script.push(plain_tick());
    let (_, trace) = run_script(orchestrator(Extent2D { width: 800, height: 600 }), &details(),
        &script);

    let acquire_positions: Vec<usize> = trace
        .iter()
        .enumerate()
        .filter_map(|(i, e)| if is_acquire(e) { Some(i) } else { None })
        .collect();
    assert_eq!(acquire_positions.len(), 4);
    let third = acquire_positions[2];
    let fourth = acquire_positions[3];
    assert!(matches!(trace[third], Event::AcquireOutOfDate { .. }));
    let between = &trace[third + 1..fourth];
    assert_eq!(between.iter().filter(|e| matches!(e, Event::Rebuild { .. })).count(), 1);
    assert!(between.iter().all(|e| !matches!(e, Event::Record { .. })));
    assert!(between.iter().all(|e| !is_submit(e)));
    assert!(between.iter().all(|e| !is_present(e)));
}

#[test]
fn suboptimal_present_triggers_one_rebuild() {
    let mut script = vec![plain_tick()];
    script.push(ScriptTick {
        present: ScriptPresent::Presented { suboptimal: true },
        ..plain_tick()
    });
    script.push(plain_tick());
    script.push(plain_tick());
    let (_, trace) = run_script(orchestrator(Extent2D { width: 800, height: 600 }), &details(),
        &script);
    assert_eq!(trace.iter().filter(|e| matches!(e, Event::Rebuild { .. })).count(), 2);
    assert_eq!(trace.iter().filter(|e| is_present(e)).count(), 2);
}

#[test]
fn out_of_date_present_still_advances_cursor() {
    let mut script = vec![plain_tick()];
    script.push(ScriptTick { present: ScriptPresent::OutOfDate, ..plain_tick() });
    let (o, trace) = run_script(orchestrator(Extent2D { width: 800, height: 600 }), &details(),
        &script);
    assert!(matches!(trace.last().unwrap(), Event::PresentOutOfDate { .. }));
    // The frame was submitted, so the cursor moved past its slot.
    assert_eq!(o.ring.current_frame, 1);
}

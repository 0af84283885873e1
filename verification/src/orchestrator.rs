//! The frame orchestrator: the state machine that drives
//! acquire, record, submit, present and cursor advance, pauses while the
//! window is minimized, and tears the swapchain down and rebuilds it when
//! it is out of date or the window was resized.
//!
//! The orchestrator makes every decision; the surrounding application
//! performs the GPU and window calls it asks for and reports each outcome
//! back. Recoverable outcomes (out of date, suboptimal, zero-area window)
//! become state transitions; any other failure is fatal and is reported
//! with the stage that failed.

use vstd::prelude::*;

use crate::attachments::{spec_rebuilt_attachments, rebuild_attachments, AttachmentConfig,
    AttachmentDesc};
use crate::extent::Extent2D;
use crate::ring::{FenceState, InFlightFrames, SyncObjects};
use crate::swapchain::{plan_swapchain, spec_planned_config, SurfaceFormat, SwapchainConfig,
    SwapchainCreateError, SwapchainSupportDetails};

verus! {

/// The recoverable render-cycle outcome: the swapchain must be rebuilt
/// before the next acquire.
#[derive(Clone, Copy, Debug, PartialEq, Eq, Structural)]
pub enum RenderError {
    DirtySwapchain,
}

/// The stage whose driver call failed beyond recovery. A failure to
/// create the swapchain is reported separately, as
/// [`SwapchainCreateError`].
#[derive(Clone, Copy, Debug, PartialEq, Eq, Structural)]
pub enum FatalStage {
    Acquire,
    Submit,
    Present,
}

/// The top-level state of the orchestrator.
#[derive(Clone, Copy, Debug, PartialEq, Eq, Structural)]
pub enum Phase {
    Running,
    SwapchainDirty,
    Minimized,
    Exiting,
}

/// Where the current render cycle stands. `Idle` means no cycle is in
/// progress; the other steps occur in order within one tick.
#[derive(Clone, Copy, Debug, PartialEq, Eq, Structural)]
pub enum CycleStep {
    Idle,
    WaitingFence,
    Waited,
    Acquired { image_index: u32 },
    Recorded { image_index: u32 },
    Submitted { image_index: u32 },
}

/// What the application must do at the top of a tick.
#[derive(Clone, Copy, Debug, PartialEq, Eq, Structural)]
pub enum TickAction {
    /// The window is minimized: issue no GPU call, only keep polling.
    Idle,
    /// Wait for the device to go idle, destroy the size-dependent
    /// resources and the swapchain, then report the fresh surface support
    /// so the rebuild can be planned.
    Rebuild,
    /// Begin a render cycle on the given ring slot: wait on its fence.
    BeginCycle { slot: usize },
    /// Wait for the device to go idle and release everything.
    ShutDown,
}

/// What the presentation engine's acquire call came back with.
#[derive(Clone, Copy, Debug, PartialEq, Eq, Structural)]
pub enum AcquireResult {
    Image { index: u32, suboptimal: bool },
    OutOfDate,
    DeviceError,
}

/// What the present call came back with.
#[derive(Clone, Copy, Debug, PartialEq, Eq, Structural)]
pub enum PresentResult {
    Presented { suboptimal: bool },
    OutOfDate,
    DeviceError,
}

/// The frame orchestrator's whole state.
#[derive(Clone, Debug)]
pub struct Orchestrator {
    pub phase: Phase,
    pub step: CycleStep,
    pub ring: InFlightFrames,
    pub swapchain: Option<SwapchainConfig>,
    pub attachments: Vec<AttachmentConfig>,
    pub attachment_descs: Vec<AttachmentDesc>,
    pub window_extent: Extent2D,
    pub format_override: Option<SurfaceFormat>,
    pub vsync: bool,
}

impl Orchestrator {
    /// The fence discipline: away from the current slot no fence is ever
    /// left reset without a submission backing it, and the current slot's
    /// fence state follows the cycle step.
    pub open spec fn fence_inv(self) -> bool {
        &&& forall|k: int|
            0 <= k < self.ring.slots@.len() && k != self.ring.current_frame
                ==> self.ring.slots@[k].fence != FenceState::Unsignaled
        &&& match self.step {
            CycleStep::Idle | CycleStep::WaitingFence => self.ring.slots@[
                self.ring.current_frame as int
            ].fence != FenceState::Unsignaled,
            CycleStep::Waited => self.ring.slots@[self.ring.current_frame as int].fence
                == FenceState::Signaled,
            CycleStep::Acquired { .. } | CycleStep::Recorded { .. } => self.ring.slots@[
                self.ring.current_frame as int
            ].fence == FenceState::Unsignaled,
            CycleStep::Submitted { .. } => self.ring.slots@[self.ring.current_frame as int].fence
                == FenceState::Pending,
        }
    }

    pub open spec fn wf(self) -> bool {
        &&& self.ring.wf()
        &&& self.phase is Running ==> self.swapchain is Some
            && !self.window_extent.spec_is_zero_area()
        &&& self.step !is Idle ==> self.phase is Running
        &&& self.phase !is Exiting ==> self.fence_inv()
    }

    /// How observing a window size changes the state: the size is stored,
    /// and a running orchestrator is marked dirty so the resize is acted
    /// on at the top of the next tick.
    pub open spec fn observe_rel(pre: Self, e: Extent2D, post: Self) -> bool {
        &&& post.phase == (match pre.phase {
            Phase::Running => Phase::SwapchainDirty,
            p => p,
        })
        &&& post.window_extent == e
        &&& post.step == pre.step
        &&& post.ring == pre.ring
        &&& post.swapchain == pre.swapchain
        &&& post.attachments == pre.attachments
        &&& post.attachment_descs == pre.attachment_descs
        &&& post.format_override == pre.format_override
        &&& post.vsync == pre.vsync
    }

    /// How a successful rebuild changes the state: the new configuration
    /// is a pure function of the reported support, the stored window size
    /// and the settings; the attachments are rebuilt at the new extent;
    /// the ring is untouched.
    pub open spec fn rebuild_rel(
        pre: Self,
        details: SwapchainSupportDetails,
        post: Self,
        cfg: SwapchainConfig,
    ) -> bool {
        &&& cfg == spec_planned_config(
            details.formats@,
            details.present_modes@,
            details.capabilities,
            pre.window_extent,
            pre.format_override,
            pre.vsync,
        )
        &&& post.phase is Running
        &&& post.step == pre.step
        &&& post.ring == pre.ring
        &&& post.swapchain == Some(cfg)
        &&& post.attachments@ == spec_rebuilt_attachments(pre.attachment_descs@, cfg.extent)
        &&& post.attachment_descs == pre.attachment_descs
        &&& post.window_extent == pre.window_extent
        &&& post.format_override == pre.format_override
        &&& post.vsync == pre.vsync
    }

    /// A fresh orchestrator: no swapchain yet (the first tick asks for a
    /// rebuild), ring fences pre-signaled, cursor at slot zero.
    pub fn new(
        ring_size: usize,
        window_extent: Extent2D,
        attachment_descs: Vec<AttachmentDesc>,
        format_override: Option<SurfaceFormat>,
        vsync: bool,
    ) -> (r: Orchestrator)
        requires
            ring_size >= 1,
        ensures
            r.wf(),
            r.phase == Phase::SwapchainDirty,
            r.step == CycleStep::Idle,
            r.ring.slots@.len() == ring_size,
            r.ring.current_frame == 0,
            forall|k: int| 0 <= k < ring_size ==> r.ring.slots@[k].fence == FenceState::Signaled,
            r.swapchain is None,
            r.attachments@.len() == 0,
            r.attachment_descs == attachment_descs,
            r.window_extent == window_extent,
            r.format_override == format_override,
            r.vsync == vsync,
    {
        Orchestrator {
            phase: Phase::SwapchainDirty,
            step: CycleStep::Idle,
            ring: InFlightFrames::new(ring_size),
            swapchain: None,
            attachments: Vec::new(),
            attachment_descs,
            window_extent,
            format_override,
            vsync,
        }
    }

    /// Records a reported window size. A resize is only acted on at the
    /// top of the next tick, so this may only be called between cycles.
    pub fn observe_extent(&mut self, e: Extent2D)
        requires
            old(self).wf(),
            old(self).step == CycleStep::Idle,
        ensures
            final(self).wf(),
            final(self).step == CycleStep::Idle,
            Self::observe_rel(*old(self), e, *final(self)),
    {
        self.window_extent = e;
        if let Phase::Running = self.phase {
            self.phase = Phase::SwapchainDirty;
        }
    }

    /// Records that the application wants to quit; the next tick asks for
    /// shutdown.
    pub fn request_exit(&mut self)
        requires
            old(self).wf(),
            old(self).step == CycleStep::Idle,
        ensures
            final(self).wf(),
            *final(self) == (Orchestrator { phase: Phase::Exiting, ..*old(self) }),
    {
        self.phase = Phase::Exiting;
    }

    /// The decision at the top of a tick: shut down when exiting; stay
    /// idle while the window has zero area; rebuild when the swapchain is
    /// dirty; otherwise begin a render cycle on the current ring slot.
    pub fn begin_tick(&mut self) -> (a: TickAction)
        requires
            old(self).wf(),
            old(self).step == CycleStep::Idle,
        ensures
            final(self).wf(),
            old(self).phase is Exiting ==> a == TickAction::ShutDown && *final(self) == *old(self),
            old(self).phase is Running ==> a == (TickAction::BeginCycle {
                slot: old(self).ring.current_frame,
            }) && *final(self) == (Orchestrator { step: CycleStep::WaitingFence, ..*old(self) }),
            (old(self).phase is SwapchainDirty || old(self).phase is Minimized)
                && old(self).window_extent.spec_is_zero_area()
                ==> a == TickAction::Idle
                    && *final(self) == (Orchestrator { phase: Phase::Minimized, ..*old(self) }),
            (old(self).phase is SwapchainDirty || old(self).phase is Minimized)
                && !old(self).window_extent.spec_is_zero_area()
                ==> a == TickAction::Rebuild
                    && *final(self) == (Orchestrator { phase: Phase::SwapchainDirty, ..*old(self) }),
    {
        match self.phase {
            Phase::Exiting => TickAction::ShutDown,
            Phase::Running => {
                self.step = CycleStep::WaitingFence;
                TickAction::BeginCycle { slot: self.ring.current_frame }
            },
            Phase::SwapchainDirty | Phase::Minimized => {
                if self.window_extent.is_zero_area() {
                    self.phase = Phase::Minimized;
                    TickAction::Idle
                } else {
                    self.phase = Phase::SwapchainDirty;
                    TickAction::Rebuild
                }
            },
        }
    }

    /// Plans the swapchain to recreate after the application tore the old
    /// one down. Succeeds exactly when the surface reports at least one
    /// format and one present mode; on success the orchestrator runs
    /// again, on failure (a broken surface) it is fatal and the
    /// orchestrator exits.
    pub fn complete_rebuild(&mut self, details: &SwapchainSupportDetails) -> (r: Result<
        SwapchainConfig,
        SwapchainCreateError,
    >)
        requires
            old(self).wf(),
            old(self).phase == Phase::SwapchainDirty,
            old(self).step == CycleStep::Idle,
            !old(self).window_extent.spec_is_zero_area(),
            details.wf(),
        ensures
            final(self).wf(),
            final(self).step == CycleStep::Idle,
            r is Ok <==> (details.formats@.len() > 0 && details.present_modes@.len() > 0),
            r matches Ok(cfg) ==> Self::rebuild_rel(*old(self), *details, *final(self), cfg),
            r is Err ==> *final(self) == (Orchestrator { phase: Phase::Exiting, ..*old(self) }),
            r matches Err(e) ==> (e == SwapchainCreateError::NoSurfaceFormats <==> details.formats@.len() == 0),
    {
        match plan_swapchain(details, self.window_extent, self.format_override, self.vsync) {
            Ok(cfg) => {
                self.swapchain = Some(cfg);
                self.attachments = rebuild_attachments(&self.attachment_descs, cfg.extent);
                self.phase = Phase::Running;
                Ok(cfg)
            },
            Err(e) => {
                self.phase = Phase::Exiting;
                Err(e)
            },
        }
    }

    /// Records that the wait on the current slot's fence returned: the
    /// slot's previously submitted work, if any, is complete, and its
    /// command buffer may be reused.
    pub fn on_fence_waited(&mut self)
        requires
            old(self).wf(),
            old(self).step == CycleStep::WaitingFence,
        ensures
            final(self).wf(),
            final(self).step == CycleStep::Waited,
            final(self).phase == old(self).phase,
            final(self).ring.current_frame == old(self).ring.current_frame,
            final(self).ring.slots@ == old(self).ring.slots@.update(
                old(self).ring.current_frame as int,
                SyncObjects { fence: FenceState::Signaled },
            ),
            final(self).swapchain == old(self).swapchain,
            final(self).attachments == old(self).attachments,
            final(self).attachment_descs == old(self).attachment_descs,
            final(self).window_extent == old(self).window_extent,
            final(self).format_override == old(self).format_override,
            final(self).vsync == old(self).vsync,
    {
        let cur = self.ring.current_frame;
        self.ring.wait_fence(cur);
        self.step = CycleStep::Waited;
    }

    /// Handles the acquire outcome. On success the slot's fence is reset
    /// (only now, so a failed acquire never leaves a wait with nothing to
    /// signal it) and the tick proceeds to record and submit: the result
    /// is `Ok(true)`. On out-of-date the cycle is abandoned with nothing
    /// recorded, the fence stays signaled, the cursor stays put, and the
    /// swapchain is marked dirty: the result is `Ok(false)`. Any other
    /// failure is fatal at the acquire stage.
    pub fn on_acquired(&mut self, r: AcquireResult) -> (out: Result<bool, FatalStage>)
        requires
            old(self).wf(),
            old(self).step == CycleStep::Waited,
        ensures
            final(self).wf(),
            r matches AcquireResult::Image { index, .. } ==> out == Ok::<bool, FatalStage>(true)
                && *final(self) == (Orchestrator {
                step: CycleStep::Acquired { image_index: index },
                ring: InFlightFrames {
                    slots: final(self).ring.slots,
                    current_frame: old(self).ring.current_frame,
                },
                ..*old(self)
            }) && final(self).ring.slots@ == old(self).ring.slots@.update(
                old(self).ring.current_frame as int,
                SyncObjects { fence: FenceState::Unsignaled },
            ),
            r is OutOfDate ==> out == Ok::<bool, FatalStage>(false)
                && *final(self) == (Orchestrator {
                phase: Phase::SwapchainDirty,
                step: CycleStep::Idle,
                ..*old(self)
            }),
            r is DeviceError ==> out == Err::<bool, FatalStage>(FatalStage::Acquire)
                && *final(self) == (Orchestrator {
                phase: Phase::Exiting,
                step: CycleStep::Idle,
                ..*old(self)
            }),
    {
        match r {
            AcquireResult::Image { index, suboptimal: _ } => {
                let cur = self.ring.current_frame;
                self.ring.reset_fence(cur);
                self.step = CycleStep::Acquired { image_index: index };
                Ok(true)
            },
            AcquireResult::OutOfDate => {
                self.phase = Phase::SwapchainDirty;
                self.step = CycleStep::Idle;
                Ok(false)
            },
            AcquireResult::DeviceError => {
                self.phase = Phase::Exiting;
                self.step = CycleStep::Idle;
                Err(FatalStage::Acquire)
            },
        }
    }

    /// Records that the slot's command buffer was recorded by the render
    /// content, which is invoked exactly once per render cycle: only an
    /// acquire arms recording, and recording disarms it.
    pub fn on_recorded(&mut self)
        requires
            old(self).wf(),
            old(self).step is Acquired,
        ensures
            final(self).wf(),
            *final(self) == (Orchestrator {
                step: CycleStep::Recorded { image_index: old(self).step->Acquired_image_index },
                ..*old(self)
            }),
    {
        let idx = match self.step {
            CycleStep::Acquired { image_index } => image_index,
            _ => 0,
        };
        self.step = CycleStep::Recorded { image_index: idx };
    }

    /// Records the outcome of the queue submission of the freshly recorded
    /// command buffer, with the slot's fence as its signal fence. A failed
    /// submission is fatal at the submit stage.
    pub fn on_submitted(&mut self, success: bool) -> (out: Result<(), FatalStage>)
        requires
            old(self).wf(),
            old(self).step is Recorded,
        ensures
            final(self).wf(),
            success ==> out == Ok::<(), FatalStage>(()) && *final(self) == (Orchestrator {
                step: CycleStep::Submitted { image_index: old(self).step->Recorded_image_index },
                ring: InFlightFrames {
                    slots: final(self).ring.slots,
                    current_frame: old(self).ring.current_frame,
                },
                ..*old(self)
            }) && final(self).ring.slots@ == old(self).ring.slots@.update(
                old(self).ring.current_frame as int,
                SyncObjects { fence: FenceState::Pending },
            ),
            !success ==> out == Err::<(), FatalStage>(FatalStage::Submit)
                && *final(self) == (Orchestrator {
                phase: Phase::Exiting,
                step: CycleStep::Idle,
                ..*old(self)
            }),
    {
        if success {
            let idx = match self.step {
                CycleStep::Recorded { image_index } => image_index,
                _ => 0,
            };
            let cur = self.ring.current_frame;
            self.ring.mark_submitted(cur);
            self.step = CycleStep::Submitted { image_index: idx };
            Ok(())
        } else {
            self.phase = Phase::Exiting;
            self.step = CycleStep::Idle;
            Err(FatalStage::Submit)
        }
    }

    /// Handles the present outcome and ends the cycle. The cursor advances
    /// by exactly one in every case, because advancement is gated by
    /// submission alone, not by presentation success. Out-of-date and
    /// suboptimal chains mark the swapchain dirty — the submitted frame's
    /// fence stays pending and is waited on when its slot comes around
    /// again. Any other failure is fatal at the present stage.
    pub fn on_presented(&mut self, r: PresentResult) -> (out: Result<
        Result<(), RenderError>,
        FatalStage,
    >)
        requires
            old(self).wf(),
            old(self).step is Submitted,
        ensures
            final(self).wf(),
            final(self).step == CycleStep::Idle,
            final(self).ring.slots == old(self).ring.slots,
            final(self).ring.current_frame == (old(self).ring.current_frame + 1) as int % (
            old(self).ring.slots@.len() as int),
            final(self).swapchain == old(self).swapchain,
            final(self).attachments == old(self).attachments,
            final(self).attachment_descs == old(self).attachment_descs,
            final(self).window_extent == old(self).window_extent,
            final(self).format_override == old(self).format_override,
            final(self).vsync == old(self).vsync,
            r == (PresentResult::Presented { suboptimal: false }) ==> out == Ok::<
                Result<(), RenderError>,
                FatalStage,
            >(Ok(())) && final(self).phase == old(self).phase,
            r == (PresentResult::Presented { suboptimal: true }) || r is OutOfDate ==> out == Ok::<
                Result<(), RenderError>,
                FatalStage,
            >(Err(RenderError::DirtySwapchain)) && final(self).phase == Phase::SwapchainDirty,
            r is DeviceError ==> out == Err::<Result<(), RenderError>, FatalStage>(
                FatalStage::Present,
            ) && final(self).phase == Phase::Exiting,
    {
        self.step = CycleStep::Idle;
        self.ring.advance();
        match r {
            PresentResult::Presented { suboptimal } => {
                if suboptimal {
                    self.phase = Phase::SwapchainDirty;
                    Ok(Err(RenderError::DirtySwapchain))
                } else {
                    Ok(Ok(()))
                }
            },
            PresentResult::OutOfDate => {
                self.phase = Phase::SwapchainDirty;
                Ok(Err(RenderError::DirtySwapchain))
            },
            PresentResult::DeviceError => {
                self.phase = Phase::Exiting;
                Err(FatalStage::Present)
            },
        }
    }
}

/// Rebuilding twice in a row at the same window size, from the same
/// reported surface support, yields a swapchain and attachments identical
/// in configuration to the single rebuild: the outcome depends on the
/// inputs alone, never on the chain being replaced.
pub proof fn lemma_resize_idempotent(
    s0: Orchestrator,
    d: SwapchainSupportDetails,
    s1: Orchestrator,
    c1: SwapchainConfig,
    s2: Orchestrator,
    s3: Orchestrator,
    c2: SwapchainConfig,
)
    requires
        Orchestrator::rebuild_rel(s0, d, s1, c1),
        Orchestrator::observe_rel(s1, s1.window_extent, s2),
        Orchestrator::rebuild_rel(s2, d, s3, c2),
    ensures
        c2 == c1,
        s3.swapchain == s1.swapchain,
        s3.attachments@ == s1.attachments@,
{
}

} // verus!

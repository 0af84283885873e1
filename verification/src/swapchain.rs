//! Swapchain configuration policy: given the support the surface reports,
//! the drawable window size and the user's settings, decide the surface
//! format, present mode, image count and extent of the chain to create.
//!
//! The values here are plain data standing for their Vulkan counterparts:
//! a format and a color space are carried as the raw numeric identifiers
//! the driver reports, so the policy itself is ordinary verified logic.

use vstd::prelude::*;

use crate::extent::{spec_clamp_u32, clamp_u32, Extent2D};

verus! {

/// A surface format paired with its color space, by raw identifier.
#[derive(Clone, Copy, Debug, PartialEq, Eq, Structural)]
pub struct SurfaceFormat {
    pub format: u32,
    pub color_space: u32,
}

/// The presentation modes the policy distinguishes.
#[derive(Clone, Copy, Debug, PartialEq, Eq, Structural)]
pub enum PresentMode {
    Immediate,
    Mailbox,
    Fifo,
    FifoRelaxed,
}

/// The surface capabilities that the configuration policy reads.
/// `max_image_count == 0` means the surface imposes no upper bound.
/// A `current_extent` width of `u32::MAX` means the surface lets the
/// application pick the extent within `[min_extent, max_extent]`.
#[derive(Clone, Copy, Debug, PartialEq, Eq, Structural)]
pub struct SurfaceCapabilities {
    pub min_image_count: u32,
    pub max_image_count: u32,
    pub current_extent: Extent2D,
    pub min_extent: Extent2D,
    pub max_extent: Extent2D,
}

impl SurfaceCapabilities {
    /// What a driver is obliged to report: a sensible image-count range
    /// and a non-empty extent range.
    pub open spec fn wf(self) -> bool {
        &&& (self.max_image_count == 0 || self.min_image_count <= self.max_image_count)
        &&& self.min_extent.width <= self.max_extent.width
        &&& self.min_extent.height <= self.max_extent.height
    }
}

/// Everything the surface reports about what it supports.
#[derive(Clone, Debug)]
pub struct SwapchainSupportDetails {
    pub capabilities: SurfaceCapabilities,
    pub formats: Vec<SurfaceFormat>,
    pub present_modes: Vec<PresentMode>,
}

impl SwapchainSupportDetails {
    pub open spec fn wf(self) -> bool {
        self.capabilities.wf()
    }
}

/// The configuration a swapchain is created with.
#[derive(Clone, Copy, Debug, PartialEq, Eq, Structural)]
pub struct SwapchainConfig {
    pub format: SurfaceFormat,
    pub present_mode: PresentMode,
    pub image_count: u32,
    pub extent: Extent2D,
}

/// A surface that reports no formats or no present modes is broken;
/// creation fails fatally rather than guessing.
#[derive(Clone, Copy, Debug, PartialEq, Eq, Structural)]
pub enum SwapchainCreateError {
    NoSurfaceFormats,
    NoPresentModes,
}

/// The format the policy picks: the requested override when the surface
/// supports it, otherwise the first supported format. The explicit
/// fallback keeps an unsupported override from silently creating a chain
/// in the wrong format.
pub open spec fn spec_chosen_format(
    formats: Seq<SurfaceFormat>,
    requested: Option<SurfaceFormat>,
) -> SurfaceFormat
    recommends
        formats.len() > 0,
{
    match requested {
        Option::Some(r) => if formats.contains(r) {
            r
        } else {
            formats[0]
        },
        Option::None => formats[0],
    }
}

/// Picks the surface format, or reports a broken surface.
pub fn choose_surface_format(
    formats: &Vec<SurfaceFormat>,
    requested: Option<SurfaceFormat>,
) -> (r: Result<SurfaceFormat, SwapchainCreateError>)
    ensures
        r is Err <==> formats@.len() == 0,
        r matches Err(e) ==> e == SwapchainCreateError::NoSurfaceFormats,
        r matches Ok(f) ==> f == spec_chosen_format(formats@, requested),
{
    if formats.len() == 0 {
        return Err(SwapchainCreateError::NoSurfaceFormats);
    }
    if let Some(want) = requested {
        let mut i: usize = 0;
        while i < formats.len()
            invariant
                requested == Some(want),
                formats@.len() > 0,
                i <= formats@.len(),
                forall|k: int| 0 <= k < i ==> formats@[k] != want,
            decreases formats@.len() - i,
        {
            if formats[i] == want {
                assert(formats@.contains(want));
                return Ok(want);
            }
            i = i + 1;
        }
        assert(!formats@.contains(want));
        Ok(formats[0])
    } else {
        Ok(formats[0])
    }
}

/// The present mode the policy picks: first-in-first-out when vsync is
/// requested (always available), otherwise a non-blocking mode when the
/// surface offers one, with first-in-first-out as the last resort.
pub open spec fn spec_chosen_present_mode(modes: Seq<PresentMode>, vsync: bool) -> PresentMode {
    if vsync {
        PresentMode::Fifo
    } else if modes.contains(PresentMode::Mailbox) {
        PresentMode::Mailbox
    } else if modes.contains(PresentMode::Immediate) {
        PresentMode::Immediate
    } else {
        PresentMode::Fifo
    }
}

fn modes_contain(modes: &Vec<PresentMode>, want: PresentMode) -> (r: bool)
    ensures
        r == modes@.contains(want),
{
    let mut i: usize = 0;
    while i < modes.len()
        invariant
            i <= modes@.len(),
            forall|k: int| 0 <= k < i ==> modes@[k] != want,
        decreases modes@.len() - i,
    {
        if modes[i] == want {
            assert(modes@.contains(want));
            return true;
        }
        i = i + 1;
    }
    assert(!modes@.contains(want));
    false
}

/// Picks the present mode, or reports a broken surface.
pub fn choose_present_mode(
    modes: &Vec<PresentMode>,
    vsync: bool,
) -> (r: Result<PresentMode, SwapchainCreateError>)
    ensures
        r is Err <==> modes@.len() == 0,
        r matches Err(e) ==> e == SwapchainCreateError::NoPresentModes,
        r matches Ok(m) ==> m == spec_chosen_present_mode(modes@, vsync),
{
    if modes.len() == 0 {
        return Err(SwapchainCreateError::NoPresentModes);
    }
    if vsync {
        Ok(PresentMode::Fifo)
    } else if modes_contain(modes, PresentMode::Mailbox) {
        Ok(PresentMode::Mailbox)
    } else if modes_contain(modes, PresentMode::Immediate) {
        Ok(PresentMode::Immediate)
    } else {
        Ok(PresentMode::Fifo)
    }
}

/// The image count the policy asks for: one more than the minimum, so the
/// driver never blocks on the application, clamped to the reported maximum
/// (zero meaning unbounded).
pub open spec fn spec_chosen_image_count(caps: SurfaceCapabilities) -> u32
    recommends
        caps.wf(),
{
    let desired: u32 = if caps.min_image_count == u32::MAX {
        u32::MAX
    } else {
        (caps.min_image_count + 1) as u32
    };
    if caps.max_image_count != 0 && desired > caps.max_image_count {
        caps.max_image_count
    } else {
        desired
    }
}

pub fn choose_image_count(caps: &SurfaceCapabilities) -> (r: u32)
    requires
        caps.wf(),
    ensures
        r == spec_chosen_image_count(*caps),
        r >= caps.min_image_count,
        caps.max_image_count != 0 ==> r <= caps.max_image_count,
{
    let desired: u32 = if caps.min_image_count == u32::MAX {
        u32::MAX
    } else {
        caps.min_image_count + 1
    };
    if caps.max_image_count != 0 && desired > caps.max_image_count {
        caps.max_image_count
    } else {
        desired
    }
}

/// The extent the chain is created at: the surface's fixed extent when it
/// reports one, otherwise the window size clamped into the supported range.
pub open spec fn spec_chosen_extent(caps: SurfaceCapabilities, window: Extent2D) -> Extent2D
    recommends
        caps.wf(),
{
    if caps.current_extent.width != u32::MAX {
        caps.current_extent
    } else {
        Extent2D {
            width: spec_clamp_u32(window.width, caps.min_extent.width, caps.max_extent.width),
            height: spec_clamp_u32(window.height, caps.min_extent.height, caps.max_extent.height),
        }
    }
}

pub fn choose_extent(caps: &SurfaceCapabilities, window: Extent2D) -> (r: Extent2D)
    requires
        caps.wf(),
    ensures
        r == spec_chosen_extent(*caps, window),
{
    if caps.current_extent.width != u32::MAX {
        caps.current_extent
    } else {
        Extent2D {
            width: clamp_u32(window.width, caps.min_extent.width, caps.max_extent.width),
            height: clamp_u32(window.height, caps.min_extent.height, caps.max_extent.height),
        }
    }
}

/// The whole configuration, as a function of the support details, the
/// window size and the settings alone.
pub open spec fn spec_planned_config(
    formats: Seq<SurfaceFormat>,
    modes: Seq<PresentMode>,
    caps: SurfaceCapabilities,
    window: Extent2D,
    requested: Option<SurfaceFormat>,
    vsync: bool,
) -> SwapchainConfig {
    SwapchainConfig {
        format: spec_chosen_format(formats, requested),
        present_mode: spec_chosen_present_mode(modes, vsync),
        image_count: spec_chosen_image_count(caps),
        extent: spec_chosen_extent(caps, window),
    }
}

/// Plans the swapchain to create. Succeeds exactly when the surface
/// reports at least one format and one present mode; a missing format is
/// reported ahead of a missing present mode.
pub fn plan_swapchain(
    details: &SwapchainSupportDetails,
    window: Extent2D,
    requested: Option<SurfaceFormat>,
    vsync: bool,
) -> (r: Result<SwapchainConfig, SwapchainCreateError>)
    requires
        details.wf(),
    ensures
        r is Ok <==> (details.formats@.len() > 0 && details.present_modes@.len() > 0),
        r matches Ok(c) ==> c == spec_planned_config(
            details.formats@,
            details.present_modes@,
            details.capabilities,
            window,
            requested,
            vsync,
        ),
        r matches Err(e) ==> (e == SwapchainCreateError::NoSurfaceFormats <==> details.formats@.len() == 0),
        r matches Err(e) ==> (e == SwapchainCreateError::NoPresentModes <==> details.formats@.len() > 0),
{
    let format = choose_surface_format(&details.formats, requested)?;
    let present_mode = choose_present_mode(&details.present_modes, vsync)?;
    let image_count = choose_image_count(&details.capabilities);
    let extent = choose_extent(&details.capabilities, window);
    Ok(SwapchainConfig { format, present_mode, image_count, extent })
}

} // verus!

//! Size-dependent attachments (depth buffer, offscreen color targets):
//! their fixed descriptions, and the rebuild that resizes every one of
//! them to the new swapchain extent after a resize.

use vstd::prelude::*;

use crate::extent::Extent2D;

verus! {

/// The size-independent description of an attachment: format, usage and
/// sample count, by raw identifier.
#[derive(Clone, Copy, Debug, PartialEq, Eq, Structural)]
pub struct AttachmentDesc {
    pub format: u32,
    pub usage: u32,
    pub sample_count: u32,
}

/// One attachment as actually built: its description at a concrete extent.
#[derive(Clone, Copy, Debug, PartialEq, Eq, Structural)]
pub struct AttachmentConfig {
    pub desc: AttachmentDesc,
    pub extent: Extent2D,
}

/// Image-usage bits (by their standard numeric values) that the scene
/// targets combine.
pub const SAMPLED_USAGE: u32 = 0x4;
pub const COLOR_ATTACHMENT_USAGE: u32 = 0x10;
pub const DEPTH_STENCIL_ATTACHMENT_USAGE: u32 = 0x20;
pub const TRANSIENT_ATTACHMENT_USAGE: u32 = 0x40;

/// The fixed format of the offscreen scene color target: a four-channel
/// 32-bit float format, by its standard numeric value.
pub const SCENE_COLOR_FORMAT: u32 = 109;

/// The description of the scene color target at a given sample count: a
/// single-sampled target is sampled by later passes, a multisampled one
/// is transient and resolved within the pass.
pub fn scene_color_desc(sample_count: u32) -> (d: AttachmentDesc)
    ensures
        d.format == SCENE_COLOR_FORMAT,
        d.sample_count == sample_count,
        d.usage == if sample_count == 1 {
            COLOR_ATTACHMENT_USAGE | SAMPLED_USAGE
        } else {
            COLOR_ATTACHMENT_USAGE | TRANSIENT_ATTACHMENT_USAGE
        },
{
    let usage: u32 = if sample_count == 1 {
        COLOR_ATTACHMENT_USAGE | SAMPLED_USAGE
    } else {
        COLOR_ATTACHMENT_USAGE | TRANSIENT_ATTACHMENT_USAGE
    };
    AttachmentDesc { format: SCENE_COLOR_FORMAT, usage, sample_count }
}

/// The description of the scene depth target, at the depth format found
/// at startup: multisampled depth is transient, never stored.
pub fn scene_depth_desc(depth_format: u32, sample_count: u32) -> (d: AttachmentDesc)
    ensures
        d.format == depth_format,
        d.sample_count == sample_count,
        d.usage == if sample_count == 1 {
            DEPTH_STENCIL_ATTACHMENT_USAGE
        } else {
            DEPTH_STENCIL_ATTACHMENT_USAGE | TRANSIENT_ATTACHMENT_USAGE
        },
{
    let usage: u32 = if sample_count == 1 {
        DEPTH_STENCIL_ATTACHMENT_USAGE
    } else {
        DEPTH_STENCIL_ATTACHMENT_USAGE | TRANSIENT_ATTACHMENT_USAGE
    };
    AttachmentDesc { format: depth_format, usage, sample_count }
}

/// Whether a scene target is created with a sampler: only a single-sampled
/// target is read by later passes.
pub fn scene_target_has_sampler(sample_count: u32) -> (r: bool)
    ensures
        r == (sample_count == 1),
{
    sample_count == 1
}

/// What a rebuild at `extent` produces from the given descriptions.
pub open spec fn spec_rebuilt_attachments(descs: Seq<AttachmentDesc>, extent: Extent2D) -> Seq<
    AttachmentConfig,
> {
    descs.map_values(|d: AttachmentDesc| AttachmentConfig { desc: d, extent })
}

/// Rebuilds every attachment at the new extent, keeping each description
/// unchanged and in order.
pub fn rebuild_attachments(descs: &Vec<AttachmentDesc>, extent: Extent2D) -> (out: Vec<
    AttachmentConfig,
>)
    ensures
        out@ == spec_rebuilt_attachments(descs@, extent),
{
    let mut out: Vec<AttachmentConfig> = Vec::new();
    let mut i: usize = 0;
    while i < descs.len()
        invariant
            i <= descs@.len(),
            out@.len() == i,
            forall|k: int| 0 <= k < i ==> out@[k] == (AttachmentConfig {
                desc: descs@[k],
                extent,
            }),
        decreases descs@.len() - i,
    {
        out.push(AttachmentConfig { desc: descs[i], extent });
        i = i + 1;
    }
    proof {
        assert(out@ =~= spec_rebuilt_attachments(descs@, extent));
    }
    out
}

} // verus!

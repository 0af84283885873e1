use frame_loop::attachments::{
    rebuild_attachments, scene_color_desc, scene_depth_desc, scene_target_has_sampler,
    AttachmentConfig, AttachmentDesc,
};
use frame_loop::extent::Extent2D;

#[test]
fn scene_color_usage_follows_sample_count() {
    // Single-sampled: color attachment that later passes sample (0x14);
    // multisampled: color attachment resolved in-pass, transient (0x50).
    let single = scene_color_desc(1);
    assert_eq!(single.format, 109);
    assert_eq!(single.usage, 0x14);
    assert_eq!(single.sample_count, 1);
    let multi = scene_color_desc(4);
    assert_eq!(multi.usage, 0x50);
    assert_eq!(multi.sample_count, 4);
}

#[test]
fn scene_depth_usage_follows_sample_count() {
    let single = scene_depth_desc(126, 1);
    assert_eq!(single.format, 126);
    assert_eq!(single.usage, 0x20);
    let multi = scene_depth_desc(126, 4);
    assert_eq!(multi.usage, 0x60);
}

#[test]
fn only_single_sampled_targets_get_samplers() {
    assert!(scene_target_has_sampler(1));
    assert!(!scene_target_has_sampler(4));
    assert!(!scene_target_has_sampler(8));
}

#[test]
fn rebuild_resizes_every_attachment() {
    let descs = vec![
        AttachmentDesc { format: 126, usage: 32, sample_count: 4 },
        AttachmentDesc { format: 109, usage: 16, sample_count: 4 },
    ];
    let out = rebuild_attachments(&descs, Extent2D { width: 1024, height: 768 });
    assert_eq!(
        out,
        vec![
            AttachmentConfig {
                desc: AttachmentDesc { format: 126, usage: 32, sample_count: 4 },
                extent: Extent2D { width: 1024, height: 768 },
            },
            AttachmentConfig {
                desc: AttachmentDesc { format: 109, usage: 16, sample_count: 4 },
                extent: Extent2D { width: 1024, height: 768 },
            },
        ]
    );
}

#[test]
fn rebuild_of_nothing_is_nothing() {
    let out = rebuild_attachments(&Vec::new(), Extent2D { width: 1, height: 1 });
    assert!(out.is_empty());
}

use frame_loop::extent::Extent2D;
use frame_loop::swapchain::{
    choose_extent, choose_image_count, choose_present_mode, choose_surface_format, plan_swapchain,
    PresentMode, SurfaceCapabilities, SurfaceFormat, SwapchainCreateError, SwapchainSupportDetails,
};

fn caps_free_extent() -> SurfaceCapabilities {
    SurfaceCapabilities {
        min_image_count: 2,
        max_image_count: 8,
        current_extent: Extent2D { width: u32::MAX, height: u32::MAX },
        min_extent: Extent2D { width: 1, height: 1 },
        max_extent: Extent2D { width: 4096, height: 4096 },
    }
}

fn fmt(format: u32) -> SurfaceFormat {
    SurfaceFormat { format, color_space: 0 }
}

#[test]
fn format_defaults_to_first_supported() {
    let formats = vec![fmt(44), fmt(50), fmt(97)];
    let r = choose_surface_format(&formats, None).unwrap();
    assert_eq!(r, fmt(44));
}

#[test]
fn format_override_honored_when_supported() {
    let formats = vec![fmt(44), fmt(97)];
    let r = choose_surface_format(&formats, Some(fmt(97))).unwrap();
    assert_eq!(r, fmt(97));
}

#[test]
fn format_override_falls_back_when_unsupported() {
    let formats = vec![fmt(44), fmt(50)];
    let r = choose_surface_format(&formats, Some(fmt(97))).unwrap();
    assert_eq!(r, fmt(44));
}

#[test]
fn format_empty_surface_is_fatal() {
    let formats: Vec<SurfaceFormat> = Vec::new();
    let r = choose_surface_format(&formats, None);
    assert_eq!(r, Err(SwapchainCreateError::NoSurfaceFormats));
}

#[test]
fn present_mode_vsync_is_fifo() {
    let modes = vec![PresentMode::Mailbox, PresentMode::Immediate, PresentMode::Fifo];
    assert_eq!(choose_present_mode(&modes, true).unwrap(), PresentMode::Fifo);
}

#[test]
fn present_mode_prefers_mailbox_without_vsync() {
    let modes = vec![PresentMode::Fifo, PresentMode::Immediate, PresentMode::Mailbox];
    assert_eq!(choose_present_mode(&modes, false).unwrap(), PresentMode::Mailbox);
}

#[test]
fn present_mode_takes_immediate_without_mailbox() {
    let modes = vec![PresentMode::Fifo, PresentMode::Immediate];
    assert_eq!(choose_present_mode(&modes, false).unwrap(), PresentMode::Immediate);
}

#[test]
fn present_mode_fifo_is_last_resort() {
    let modes = vec![PresentMode::Fifo, PresentMode::FifoRelaxed];
    assert_eq!(choose_present_mode(&modes, false).unwrap(), PresentMode::Fifo);
}

#[test]
fn present_mode_empty_surface_is_fatal() {
    let modes: Vec<PresentMode> = Vec::new();
    assert_eq!(choose_present_mode(&modes, false), Err(SwapchainCreateError::NoPresentModes));
}

#[test]
fn image_count_is_min_plus_one() {
    let caps = caps_free_extent();
    assert_eq!(choose_image_count(&caps), 3);
}

#[test]
fn image_count_clamped_to_max() {
    let mut caps = caps_free_extent();
    caps.min_image_count = 4;
    caps.max_image_count = 4;
    assert_eq!(choose_image_count(&caps), 4);
}

#[test]
fn image_count_unbounded_when_max_is_zero() {
    let mut caps = caps_free_extent();
    caps.min_image_count = 7;
    caps.max_image_count = 0;
    assert_eq!(choose_image_count(&caps), 8);
}

#[test]
fn extent_uses_surface_fixed_extent() {
    let mut caps = caps_free_extent();
    caps.current_extent = Extent2D { width: 1280, height: 720 };
    let e = choose_extent(&caps, Extent2D { width: 800, height: 600 });
    assert_eq!(e, Extent2D { width: 1280, height: 720 });
}

#[test]
fn extent_clamps_window_size() {
    let caps = caps_free_extent();
    let e = choose_extent(&caps, Extent2D { width: 9000, height: 0 });
    assert_eq!(e, Extent2D { width: 4096, height: 1 });
}

#[test]
fn plan_combines_all_choices() {
    let details = SwapchainSupportDetails {
        capabilities: caps_free_extent(),
        formats: vec![fmt(44), fmt(97)],
        present_modes: vec![PresentMode::Fifo, PresentMode::Mailbox],
    };
    let c = plan_swapchain(&details, Extent2D { width: 800, height: 600 }, Some(fmt(97)), false)
        .unwrap();
    assert_eq!(c.format, fmt(97));
    assert_eq!(c.present_mode, PresentMode::Mailbox);
    assert_eq!(c.image_count, 3);
    assert_eq!(c.extent, Extent2D { width: 800, height: 600 });
}

#[test]
fn plan_reports_missing_formats_first() {
    let details = SwapchainSupportDetails {
        capabilities: caps_free_extent(),
        formats: Vec::new(),
        present_modes: Vec::new(),
    };
    let r = plan_swapchain(&details, Extent2D { width: 800, height: 600 }, None, true);
    assert_eq!(r, Err(SwapchainCreateError::NoSurfaceFormats));
}

#[test]
fn plan_reports_missing_present_modes() {
    let details = SwapchainSupportDetails {
        capabilities: caps_free_extent(),
        formats: vec![fmt(44)],
        present_modes: Vec::new(),
    };
    let r = plan_swapchain(&details, Extent2D { width: 800, height: 600 }, None, true);
    assert_eq!(r, Err(SwapchainCreateError::NoPresentModes));
}

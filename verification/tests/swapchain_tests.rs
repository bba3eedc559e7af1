use hexthing::swapchain::{
    derive_extent, select_format, select_format_index, ChannelKind, Extent2D, PixelFormat,
    SurfaceCaps, SwapchainState, RGBA8_SRGB_CODE,
};

fn caps_with_current(width: u32, height: u32) -> SurfaceCaps {
    SurfaceCaps {
        image_count_min: 2,
        image_count_max: 8,
        current_extent: Some(Extent2D { width, height }),
        extent_min: Extent2D { width: 1, height: 1 },
        extent_max: Extent2D { width: 4096, height: 4096 },
    }
}

#[test]
fn no_reported_formats_fall_back_to_default() {
    let f = select_format(&None);
    assert_eq!(f, PixelFormat { code: RGBA8_SRGB_CODE, channel: ChannelKind::Srgb });
    assert_eq!(select_format_index(&None), None);
}

#[test]
fn first_srgb_format_wins() {
    let formats = vec![
        PixelFormat { code: 37, channel: ChannelKind::Unorm },
        PixelFormat { code: 43, channel: ChannelKind::Srgb },
        PixelFormat { code: 50, channel: ChannelKind::Srgb },
    ];
    let f = select_format(&Some(formats.clone()));
    assert_eq!(f, PixelFormat { code: 43, channel: ChannelKind::Srgb });
    assert_eq!(select_format_index(&Some(formats)), Some(1));
}

#[test]
fn without_srgb_the_first_reported_format_wins() {
    let formats = vec![
        PixelFormat { code: 37, channel: ChannelKind::Unorm },
        PixelFormat { code: 44, channel: ChannelKind::Uint },
    ];
    let f = select_format(&Some(formats.clone()));
    assert_eq!(f, PixelFormat { code: 37, channel: ChannelKind::Unorm });
    assert_eq!(select_format_index(&Some(formats)), Some(0));
}

#[test]
fn current_extent_is_taken_as_is() {
    let caps = caps_with_current(768, 768);
    let e = derive_extent(&caps, Extent2D { width: 100, height: 100 });
    assert_eq!(e, Extent2D { width: 768, height: 768 });
}

#[test]
fn minimized_surface_yields_zero_extent() {
    let caps = caps_with_current(0, 0);
    let e = derive_extent(&caps, Extent2D { width: 768, height: 768 });
    assert_eq!(e, Extent2D { width: 0, height: 0 });
}

#[test]
fn default_extent_is_clamped_into_the_supported_range() {
    let caps = SurfaceCaps {
        image_count_min: 2,
        image_count_max: 8,
        current_extent: None,
        extent_min: Extent2D { width: 100, height: 100 },
        extent_max: Extent2D { width: 1000, height: 1000 },
    };
    let inside = derive_extent(&caps, Extent2D { width: 768, height: 768 });
    assert_eq!(inside, Extent2D { width: 768, height: 768 });
    let low = derive_extent(&caps, Extent2D { width: 10, height: 10 });
    assert_eq!(low, Extent2D { width: 100, height: 100 });
    let high = derive_extent(&caps, Extent2D { width: 5000, height: 5000 });
    assert_eq!(high, Extent2D { width: 999, height: 999 });
}

#[test]
fn swapchain_requests_the_minimum_image_count() {
    let caps = caps_with_current(768, 768);
    let s = SwapchainState::new(&caps, &None, Extent2D { width: 768, height: 768 });
    assert_eq!(s.requested_image_count, 2);
    assert_eq!(s.extent, Extent2D { width: 768, height: 768 });
    assert_eq!(s.format.code, RGBA8_SRGB_CODE);
}

#[test]
fn recreation_with_unchanged_surface_is_idempotent() {
    let caps = caps_with_current(768, 768);
    let formats = Some(vec![
        PixelFormat { code: 50, channel: ChannelKind::Unorm },
        PixelFormat { code: 43, channel: ChannelKind::Srgb },
    ]);
    let first = SwapchainState::new(&caps, &formats, Extent2D { width: 768, height: 768 });
    let second = SwapchainState::new(&caps, &formats, Extent2D { width: 768, height: 768 });
    assert_eq!(first.extent, second.extent);
    assert_eq!(first.format, second.format);
    assert_eq!(first, second);
}

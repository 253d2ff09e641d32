use std::sync::Arc;

use xilem_lite::gpu::{
    target_texture_desc, CompositeAlphaMode, Features, PresentMode, TextureFormat,
    COPY_DST_BIT, RENDER_ATTACHMENT_BIT, STORAGE_BINDING_BIT, TEXTURE_BINDING_BIT,
};
use xilem_lite::render::{RenderContext, WgpuLimits};
use xilem_lite::surface::{
    create_surface_message, device_or_error, plan_render_surface, premultiplied_fallback, select_alpha_mode, select_surface_format,
    BlitterKind, RenderSurfaceError, FRAME_LATENCY,
};

#[test]
fn requested_features_are_intersected_with_adapter_features() {
    let supported = Features::clear_texture();
    let options_features = Features::timestamp_query();

    let requested_features = Features::clear_texture().union(&options_features);
    let required_features = supported.intersection(&requested_features);
    assert_eq!(required_features, Features::clear_texture());
}

#[test]
fn feature_bits_match_the_gpu_library() {
    assert_eq!(
        Features::clear_texture().features_wgpu,
        wgpu::Features::CLEAR_TEXTURE.bits().0[0]
    );
    assert_eq!(
        Features::timestamp_query().features_webgpu,
        wgpu::Features::TIMESTAMP_QUERY.bits().0[1]
    );
    assert_eq!(Features::clear_texture().features_webgpu, 0);
    assert_eq!(Features::timestamp_query().features_wgpu, 0);
}

#[test]
fn required_features_add_clear_texture_and_drop_unsupported() {
    let mut ctx: RenderContext<(), u32> = RenderContext::new(());
    assert!(ctx.add_wgpu_features(Features::timestamp_query()));
    // The adapter supports both features that are asked for.
    let both = Features::clear_texture().union(&Features::timestamp_query());
    assert_eq!(ctx.required_features(both), both);
    // The adapter supports neither.
    assert_eq!(ctx.required_features(Features::empty()), Features::empty());
    // The adapter supports more than what is asked for.
    let extra = Features { features_wgpu: 0b1 | Features::clear_texture().features_wgpu, features_webgpu: 0 };
    assert_eq!(ctx.required_features(extra), Features::clear_texture());
}

#[test]
fn device_options_lock_once_a_device_exists() {
    let mut ctx: RenderContext<&str, &str> = RenderContext::new("instance");
    assert_eq!(ctx.device_count(), 0);
    assert!(ctx.set_wgpu_device_options(Features::timestamp_query(), WgpuLimits::Adapter));
    assert!(ctx.add_wgpu_features(Features::clear_texture()));
    assert!(ctx.set_wgpu_limits(WgpuLimits::Default));
    let both = Features::clear_texture().union(&Features::timestamp_query());
    assert_eq!(ctx.required_features(both), both);

    assert_eq!(ctx.add_device("first"), 0);
    assert!(!ctx.set_wgpu_device_options(Features::empty(), WgpuLimits::Adapter));
    assert!(!ctx.add_wgpu_features(Features::empty()));
    assert!(!ctx.set_wgpu_limits(WgpuLimits::Adapter));
    // Nothing changed by the refused calls.
    assert_eq!(ctx.required_features(both), both);
    assert_eq!(*ctx.instance(), "instance");
}

#[test]
fn devices_are_appended_with_stable_indices() {
    let mut ctx: RenderContext<(), &str> = RenderContext::new(());
    assert_eq!(ctx.find_device(None), None);
    assert_eq!(ctx.add_device("a"), 0);
    assert_eq!(ctx.add_device("b"), 1);
    assert_eq!(ctx.add_device("c"), 2);
    assert_eq!(ctx.device_count(), 3);
    assert_eq!(*ctx.device(0), "a");
    assert_eq!(*ctx.device(1), "b");
    assert_eq!(*ctx.device(2), "c");
}

#[test]
fn find_device_takes_the_first_compatible() {
    let mut ctx: RenderContext<(), u8> = RenderContext::new(());
    ctx.add_device(10);
    ctx.add_device(20);
    ctx.add_device(30);
    assert_eq!(ctx.find_device(None), Some(0));
    assert_eq!(ctx.find_device(Some(&vec![false, true, true])), Some(1));
    assert_eq!(ctx.find_device(Some(&vec![true, true, true])), Some(0));
    assert_eq!(ctx.find_device(Some(&vec![false, false, true])), Some(2));
    assert_eq!(ctx.find_device(Some(&vec![false, false, false])), None);
}

#[test]
fn required_limits_follow_the_strategy() {
    let adapter = wgpu::Limits { max_bind_groups: 7, ..wgpu::Limits::default() };
    let custom = wgpu::Limits { max_bind_groups: 3, ..wgpu::Limits::default() };

    let ctx: RenderContext<(), ()> = RenderContext::new(());
    assert_eq!(ctx.required_limits(adapter.clone()), wgpu::Limits::default());

    let mut ctx: RenderContext<(), ()> = RenderContext::new(());
    ctx.set_wgpu_limits(WgpuLimits::Adapter);
    assert_eq!(ctx.required_limits(adapter.clone()), adapter);

    let mut ctx: RenderContext<(), ()> = RenderContext::new(());
    ctx.set_wgpu_limits(WgpuLimits::Custom(Box::new(custom.clone())));
    assert_eq!(ctx.required_limits(adapter.clone()), custom);
}

#[test]
fn surface_format_is_the_first_usable_one() {
    assert_eq!(select_surface_format(&vec![TextureFormat::Other, TextureFormat::Bgra8Unorm, TextureFormat::Rgba8Unorm]).ok(), Some(TextureFormat::Bgra8Unorm));
    assert_eq!(select_surface_format(&vec![TextureFormat::Rgba8Unorm, TextureFormat::Bgra8Unorm]).ok(), Some(TextureFormat::Rgba8Unorm));
    assert!(matches!(
        select_surface_format(&vec![TextureFormat::Other, TextureFormat::Other]),
        Err(RenderSurfaceError::UnsupportedSurfaceFormat)
    ));
    assert!(matches!(
        select_surface_format(&vec![]),
        Err(RenderSurfaceError::UnsupportedSurfaceFormat)
    ));
}

#[test]
fn alpha_mode_prefers_post_then_pre_multiplied() {
    assert_eq!(
        select_alpha_mode(&vec![CompositeAlphaMode::Opaque, CompositeAlphaMode::PreMultiplied, CompositeAlphaMode::PostMultiplied], true),
        (CompositeAlphaMode::PostMultiplied, BlitterKind::Plain)
    );
    assert_eq!(
        select_alpha_mode(&vec![CompositeAlphaMode::Opaque, CompositeAlphaMode::PreMultiplied], false),
        (CompositeAlphaMode::PreMultiplied, BlitterKind::Premultiplied)
    );
    assert_eq!(select_alpha_mode(&vec![CompositeAlphaMode::Opaque, CompositeAlphaMode::Inherit], false), (CompositeAlphaMode::Auto, BlitterKind::Plain));
    assert_eq!(select_alpha_mode(&vec![CompositeAlphaMode::Opaque], true), (CompositeAlphaMode::Auto, BlitterKind::Premultiplied));
}

#[test]
fn premultiplied_fallback_only_for_amd_on_windows() {
    assert!(premultiplied_fallback(true, "AMD Radeon RX 7900"));
    assert!(premultiplied_fallback(true, "Some AMD card"));
    assert!(!premultiplied_fallback(false, "AMD Radeon RX 7900"));
    assert!(!premultiplied_fallback(true, "NVIDIA GeForce"));
    assert!(!premultiplied_fallback(true, "amd lowercase"));
    assert!(!premultiplied_fallback(true, ""));
}

#[test]
fn render_surface_plan_and_updates() {
    let plan = plan_render_surface(
        &vec![TextureFormat::Other, TextureFormat::Rgba8Unorm],
        &vec![CompositeAlphaMode::Opaque, CompositeAlphaMode::PreMultiplied],
        false,
        800,
        600,
        PresentMode::AutoVsync,
        1,
    );
    let mut state = match plan {
        Ok(s) => s,
        Err(_) => panic!("a usable format was offered"),
    };
    assert_eq!(state.format, TextureFormat::Rgba8Unorm);
    assert_eq!(state.config.format, TextureFormat::Rgba8Unorm);
    assert_eq!(state.config.alpha_mode, CompositeAlphaMode::PreMultiplied);
    assert_eq!(state.blitter, BlitterKind::Premultiplied);
    assert_eq!(state.config.usage.bits, RENDER_ATTACHMENT_BIT);
    assert_eq!(state.config.usage.bits, wgpu::TextureUsages::RENDER_ATTACHMENT.bits());
    assert_eq!((state.config.width, state.config.height), (800, 600));
    assert_eq!(state.config.present_mode, PresentMode::AutoVsync);
    assert_eq!(state.config.desired_maximum_frame_latency, FRAME_LATENCY);
    assert_eq!(FRAME_LATENCY, 2);
    assert_eq!(state.dev_id, 1);
    assert!(!state.resizing);

    state.resize(1024, 768);
    assert_eq!((state.config.width, state.config.height), (1024, 768));
    assert_eq!(state.config.present_mode, PresentMode::AutoVsync);

    state.set_present_mode(PresentMode::Mailbox);
    assert_eq!(state.config.present_mode, PresentMode::Mailbox);
    assert_eq!((state.config.width, state.config.height), (1024, 768));

    assert!(state.set_resizing(true));
    assert!(state.resizing);
    assert!(!state.set_resizing(true));
    assert!(state.set_resizing(false));
    assert!(!state.resizing);

    assert!(matches!(
        plan_render_surface(&vec![TextureFormat::Other], &vec![], false, 1, 1, PresentMode::Fifo, 0),
        Err(RenderSurfaceError::UnsupportedSurfaceFormat)
    ));
}

#[test]
fn error_messages() {
    assert_eq!(
        RenderSurfaceError::NoCompatibleDevice.describe(),
        "no compatible WGPU device found"
    );
    assert_eq!(
        RenderSurfaceError::UnsupportedSurfaceFormat.describe(),
        "unsupported surface format"
    );
}

#[test]
fn target_texture_supports_both_render_paths() {
    let desc = target_texture_desc(640, 480);
    assert_eq!((desc.width, desc.height), (640, 480));
    assert_eq!(desc.depth_or_array_layers, 1);
    assert_eq!(desc.mip_level_count, 1);
    assert_eq!(desc.sample_count, 1);
    assert_eq!(desc.dimension, xilem_lite::gpu::TextureDimension::D2);
    assert_eq!(desc.format, TextureFormat::Rgba8Unorm);
    assert_eq!(
        desc.usage.bits,
        STORAGE_BINDING_BIT | TEXTURE_BINDING_BIT | COPY_DST_BIT | RENDER_ATTACHMENT_BIT
    );
    let usages = wgpu::TextureUsages::STORAGE_BINDING
        | wgpu::TextureUsages::TEXTURE_BINDING
        | wgpu::TextureUsages::COPY_DST
        | wgpu::TextureUsages::RENDER_ATTACHMENT;
    assert_eq!(desc.usage.bits, usages.bits());
    let _ = Arc::new(0u8);
}

#[test]
fn limits_strategy_default_and_clone() {
    assert!(matches!(WgpuLimits::default(), WgpuLimits::Default));
    let custom = WgpuLimits::Custom(Box::new(wgpu::Limits { max_bind_groups: 2, ..wgpu::Limits::default() }));
    match custom.clone() {
        WgpuLimits::Custom(l) => assert_eq!(l.max_bind_groups, 2),
        _ => panic!("the clone keeps the strategy"),
    }
}

#[test]
fn created_devices_are_appended_and_failures_change_nothing() {
    let mut ctx: RenderContext<(), &str> = RenderContext::new(());
    assert_eq!(ctx.find_device(None), None);
    assert_eq!(ctx.add_created_device(None), None);
    assert_eq!(ctx.device_count(), 0);
    assert_eq!(ctx.add_created_device(Some("gpu")), Some(0));
    assert_eq!(ctx.find_device(None), Some(0));
    assert_eq!(ctx.find_device(Some(&vec![false])), None);
    assert_eq!(ctx.add_created_device(Some("other")), Some(1));
    assert_eq!(*ctx.device(0), "gpu");
    assert_eq!(*ctx.device(1), "other");
}

#[test]
fn surface_creation_message_carries_the_platform_text() {
    assert_eq!(create_surface_message("no display"), "creating surface failed: no display");
    assert_eq!(create_surface_message(""), "creating surface failed: ");
}

#[test]
fn missing_device_is_an_error() {
    assert!(matches!(device_or_error(Some(3)), Ok(3)));
    assert!(matches!(device_or_error(None), Err(RenderSurfaceError::NoCompatibleDevice)));
}

#[test]
fn settle_device_reuses_or_records() {
    let mut ctx: RenderContext<(), &str> = RenderContext::new(());
    // Nothing to reuse and creation failed.
    assert_eq!(ctx.settle_device(None, None), None);
    assert_eq!(ctx.device_count(), 0);
    // Nothing to reuse: the created device is recorded.
    assert_eq!(ctx.settle_device(None, Some("a")), Some(0));
    // A device is found: the created one is not used.
    assert_eq!(ctx.settle_device(None, Some("b")), Some(0));
    assert_eq!(ctx.device_count(), 1);
    // No compatible device: the created one is appended.
    assert_eq!(ctx.settle_device(Some(&vec![false]), Some("c")), Some(1));
    assert_eq!(ctx.settle_device(Some(&vec![false, true]), Some("d")), Some(1));
    assert_eq!(ctx.device_count(), 2);
    assert_eq!(*ctx.device(1), "c");
}

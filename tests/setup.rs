use voxel_renderer::device::{
    find_suitable_physical_device, DeviceReport, DeviceSelection, QueueFamilyReport,
};
use voxel_renderer::diagnostics::{compose_message, format_message, log_level, LogLevel, MessageSeverity, MessageTypes};
use voxel_renderer::error::SetupError;
use voxel_renderer::instance::{
    context_config, minimum_api_version, required_device_extensions, WINDOW_HEIGHT, WINDOW_WIDTH,
};
use voxel_renderer::lifecycle::{teardown_order, Lifecycle, LifecycleError, Resource};
use voxel_renderer::swapchain::{
    choose_extent, choose_image_count, choose_pre_transform, choose_present_mode,
    choose_swapchain_settings, image_view_plans, Extent2D, PresentMode, SurfaceCapabilities,
    SurfaceFormat, Swizzle, EXTENT_UNDEFINED, TRANSFORM_IDENTITY,
};

fn names(v: &[&str]) -> Vec<String> {
    v.iter().map(|s| s.to_string()).collect()
}

fn family(graphics: bool, present: bool) -> QueueFamilyReport {
    QueueFamilyReport { graphics, present }
}

fn caps(min: u32, max: u32, width: u32, height: u32) -> SurfaceCapabilities {
    SurfaceCapabilities {
        min_image_count: min,
        max_image_count: max,
        current_extent: Extent2D { width, height },
        supported_transforms: TRANSFORM_IDENTITY,
        current_transform: TRANSFORM_IDENTITY,
    }
}

#[test]
fn selector_rejects_device_missing_second_extension() {
    let required = names(&["ext_a", "ext_b"]);
    let devices = vec![DeviceReport {
        extensions: Some(names(&["ext_a", "ext_c"])),
        queue_families: vec![family(true, true)],
    }];
    assert_eq!(
        find_suitable_physical_device(&devices, &required),
        Err(SetupError::NoSuitableDevice)
    );
}

#[test]
fn selector_skips_to_device_with_every_extension() {
    let required = names(&["ext_a", "ext_b"]);
    let devices = vec![
        DeviceReport {
            extensions: Some(names(&["ext_a"])),
            queue_families: vec![family(true, true)],
        },
        DeviceReport { extensions: None, queue_families: vec![family(true, true)] },
        DeviceReport {
            extensions: Some(names(&["ext_b", "ext_x", "ext_a"])),
            queue_families: vec![family(true, false), family(false, true), family(true, true), family(true, true)],
        },
    ];
    assert_eq!(
        find_suitable_physical_device(&devices, &required),
        Ok(DeviceSelection { device_index: 2, queue_family_index: 2 })
    );
}

#[test]
fn selector_needs_graphics_and_present_on_one_family() {
    let required = names(&["ext_a"]);
    let devices = vec![
        DeviceReport {
            extensions: Some(names(&["ext_a"])),
            queue_families: vec![family(true, false), family(false, true)],
        },
        DeviceReport { extensions: Some(names(&["ext_a"])), queue_families: vec![family(true, true)] },
    ];
    assert_eq!(
        find_suitable_physical_device(&devices, &required),
        Ok(DeviceSelection { device_index: 1, queue_family_index: 0 })
    );
}

#[test]
fn selector_fails_on_empty_device_list() {
    let devices: Vec<DeviceReport> = Vec::new();
    assert_eq!(
        find_suitable_physical_device(&devices, &required_device_extensions()),
        Err(SetupError::NoSuitableDevice)
    );
}

#[test]
fn image_count_unbounded_adds_one() {
    assert_eq!(choose_image_count(&caps(2, 0, 10, 10)), 3);
    assert_eq!(choose_image_count(&caps(7, 0, 10, 10)), 8);
}

#[test]
fn image_count_clamped_to_maximum() {
    assert_eq!(choose_image_count(&caps(3, 3, 10, 10)), 3);
    assert_eq!(choose_image_count(&caps(2, 8, 10, 10)), 3);
}

#[test]
fn extent_undefined_uses_window_size() {
    let window = Extent2D { width: WINDOW_WIDTH, height: WINDOW_HEIGHT };
    let c = caps(2, 0, EXTENT_UNDEFINED, EXTENT_UNDEFINED);
    assert_eq!(choose_extent(&c, window), Extent2D { width: 800, height: 600 });
    let c = caps(2, 0, 1920, 1080);
    assert_eq!(choose_extent(&c, window), Extent2D { width: 1920, height: 1080 });
}

#[test]
fn present_mode_prefers_mailbox_anywhere() {
    let modes = vec![PresentMode::Fifo, PresentMode::Immediate, PresentMode::Mailbox];
    assert_eq!(choose_present_mode(&modes), Ok(PresentMode::Mailbox));
    let modes = vec![PresentMode::Mailbox, PresentMode::Fifo];
    assert_eq!(choose_present_mode(&modes), Ok(PresentMode::Mailbox));
}

#[test]
fn present_mode_falls_back_to_first() {
    let modes = vec![PresentMode::Other(1000361000), PresentMode::Fifo];
    assert_eq!(choose_present_mode(&modes), Ok(PresentMode::Other(1000361000)));
    let modes: Vec<PresentMode> = Vec::new();
    assert_eq!(choose_present_mode(&modes), Err(SetupError::NoPresentModeAvailable));
}

#[test]
fn pre_transform_prefers_identity() {
    let mut c = caps(2, 0, 10, 10);
    c.supported_transforms = 0b1011;
    c.current_transform = 0b10;
    assert_eq!(choose_pre_transform(&c), TRANSFORM_IDENTITY);
    c.supported_transforms = 0b1010;
    assert_eq!(choose_pre_transform(&c), 0b10);
}

#[test]
fn settings_report_missing_lists() {
    let c = caps(2, 0, 10, 10);
    let window = Extent2D { width: 800, height: 600 };
    let fmts = vec![SurfaceFormat { format: 50, color_space: 0 }];
    let none_fmts: Vec<SurfaceFormat> = Vec::new();
    let none_modes: Vec<PresentMode> = Vec::new();
    assert_eq!(
        choose_swapchain_settings(&c, &none_fmts, &none_modes, window),
        Err(SetupError::NoPresentModeAvailable)
    );
    assert_eq!(
        choose_swapchain_settings(&c, &fmts, &none_modes, window),
        Err(SetupError::NoPresentModeAvailable)
    );
    assert_eq!(
        choose_swapchain_settings(&c, &none_fmts, &vec![PresentMode::Fifo], window),
        Err(SetupError::NoFormatsAvailable)
    );
}

#[test]
fn end_to_end_swapchain_settings_and_views() {
    let c = caps(2, 0, 1024, 768);
    let fmts = vec![SurfaceFormat { format: 50, color_space: 0 }];
    let modes = vec![PresentMode::Fifo];
    let s = choose_swapchain_settings(&c, &fmts, &modes, Extent2D { width: 800, height: 600 })
        .unwrap();
    assert_eq!(s.image_count, 3);
    assert_eq!(s.extent, Extent2D { width: 1024, height: 768 });
    assert_eq!(s.present_mode, PresentMode::Fifo);
    assert_eq!(s.format, SurfaceFormat { format: 50, color_space: 0 });
    let images: Vec<u64> = vec![11, 12, 13];
    let views = image_view_plans(&images, s.format);
    assert_eq!(views.len(), 3);
    for (v, img) in views.iter().zip(images.iter()) {
        assert_eq!(v.image, *img);
        assert_eq!(v.format, 50);
        assert_eq!(v.red, Swizzle::Identity);
        assert_eq!(v.alpha, Swizzle::One);
    }
}

#[test]
fn teardown_in_reverse_creation_order() {
    let mut l = Lifecycle::new();
    for r in [Resource::Context, Resource::Diagnostics, Resource::Surface, Resource::LogicalDevice, Resource::Swapchain] {
        assert_eq!(l.create(r), Ok(()));
    }
    for r in teardown_order() {
        assert_eq!(l.destroy(r), Ok(()));
    }
    assert_eq!(l.live(), 0);
    assert_eq!(
        l.destroyed(),
        vec![Resource::Swapchain, Resource::LogicalDevice, Resource::Surface, Resource::Diagnostics, Resource::Context]
    );
}

#[test]
fn teardown_out_of_order_rejected() {
    let mut l = Lifecycle::new();
    assert_eq!(l.create(Resource::Surface), Err(LifecycleError::OutOfOrder));
    for r in [Resource::Context, Resource::Diagnostics, Resource::Surface, Resource::LogicalDevice, Resource::Swapchain] {
        assert_eq!(l.create(r), Ok(()));
    }
    assert_eq!(l.destroy(Resource::Context), Err(LifecycleError::OutOfOrder));
    assert_eq!(l.destroy(Resource::LogicalDevice), Err(LifecycleError::OutOfOrder));
    assert_eq!(l.destroy(Resource::Swapchain), Ok(()));
    assert_eq!(l.destroy(Resource::Surface), Err(LifecycleError::OutOfOrder));
    assert_eq!(l.live(), 4);
    assert_eq!(l.destroyed(), vec![Resource::Swapchain]);
}

#[test]
fn context_config_with_and_without_diagnostics() {
    let platform = names(&["VK_KHR_surface", "VK_KHR_xlib_surface"]);
    let c = context_config(&platform, true);
    assert_eq!(c.api_version, 4202658);
    assert_eq!(c.application_name, "VoxelVoxel");
    assert_eq!(c.layers, names(&["VK_LAYER_KHRONOS_validation"]));
    assert_eq!(
        c.extensions,
        names(&["VK_KHR_surface", "VK_KHR_xlib_surface", "VK_EXT_debug_utils"])
    );
    let c = context_config(&platform, false);
    assert!(c.layers.is_empty());
    assert_eq!(c.extensions, platform);
    assert_eq!(minimum_api_version(), (1 << 22) | (2 << 12) | 162);
}

#[test]
fn device_extension_list() {
    assert_eq!(
        required_device_extensions(),
        names(&[
            "VK_KHR_ray_tracing_pipeline",
            "VK_KHR_spirv_1_4",
            "VK_KHR_acceleration_structure",
            "VK_KHR_deferred_host_operations",
            "VK_KHR_swapchain",
        ])
    );
}

#[test]
fn message_line_with_and_without_body() {
    let t = MessageTypes { general: true, validation: true, performance: false, device_address_binding: false };
    assert_eq!(format_message(t, "VUID-x", "bad \"thing\""), "GV__ | \"VUID-x\" | \"bad \\\"thing\\\"\"");
    let t = MessageTypes { general: false, validation: false, performance: true, device_address_binding: true };
    assert_eq!(format_message(t, "id", "body"), "__P | \"id\"");
}

#[test]
fn severity_routing() {
    let s = |error, warning, info, verbose| MessageSeverity { error, warning, info, verbose };
    assert_eq!(log_level(s(true, true, false, false)), LogLevel::Error);
    assert_eq!(log_level(s(false, true, true, false)), LogLevel::Warn);
    assert_eq!(log_level(s(false, false, true, true)), LogLevel::Info);
    assert_eq!(log_level(s(false, false, false, true)), LogLevel::Debug);
    assert_eq!(log_level(s(false, false, false, false)), LogLevel::Trace);
}

#[test]
fn compose_uses_given_quoted_texts() {
    let t = MessageTypes { general: false, validation: true, performance: true, device_address_binding: false };
    assert_eq!(compose_message(t, "<id>", "<body>"), "_VP_ | <id> | <body>");
    let t = MessageTypes { general: true, validation: true, performance: true, device_address_binding: true };
    assert_eq!(compose_message(t, "<id>", "<body>"), "GVP | <id>");
}

use beans_engine::vulkan::{
    all_offered, choose_depth_format, choose_min_image_count, choose_present_mode, choose_queue_families,
    choose_surface_format, choose_swapchain_extent, depth_format_candidates, device_suitable,
    draw_arguments, layout_transition, make_api_version, mip_regions, offers_required_extensions,
    pick_physical_device, queue_requests, queue_sharing, severity_name, spirv_words,
    validation_message, DeviceReport, Extent2D, FrameCounters, LayoutBarrier, MipRegion,
    QueueFamilies, QueueRequest, QueueSource, SurfaceFormat,
};

fn extensions() -> Vec<String> {
    ["VK_KHR_swapchain", "VK_KHR_spirv_1_4", "VK_KHR_synchronization2", "VK_KHR_create_renderpass2"]
        .iter()
        .map(|s| String::from(*s))
        .collect()
}

fn good_device() -> DeviceReport {
    DeviceReport {
        api_version: make_api_version(0, 1, 4, 0),
        queue_flags: vec![0b1, 0b10],
        presentation: vec![false, true],
        extensions: extensions(),
        timeline_semaphore: 1,
        synchronization2: 1,
        dynamic_rendering: 1,
        extended_dynamic_state: 1,
    }
}

#[test]
fn api_versions_pack() {
    assert_eq!(make_api_version(0, 1, 4, 0), 0x404000);
    assert_eq!(make_api_version(0, 1, 3, 281), (1 << 22) | (3 << 12) | 281);
}

#[test]
fn severities_are_named() {
    assert_eq!(severity_name(0x1000), "error");
    assert_eq!(severity_name(0x100), "warning");
    assert_eq!(severity_name(0x10), "info");
    assert_eq!(severity_name(0x1), "verbose");
    assert_eq!(severity_name(0x1100), "verbose");
    assert_eq!(severity_name(0), "error");
    assert_eq!(validation_message(0x100, "oops"), "validation layer: type warning msg: oops");
}

#[test]
fn present_mode_prefers_mailbox() {
    assert_eq!(choose_present_mode(&vec![0, 2, 1]), 1);
    assert_eq!(choose_present_mode(&vec![0, 3]), 2);
    assert_eq!(choose_present_mode(&Vec::new()), 2);
}

#[test]
fn surface_format_prefers_srgb() {
    let a = SurfaceFormat { format: 44, color_space: 0 };
    let b = SurfaceFormat { format: 50, color_space: 0 };
    let c = SurfaceFormat { format: 50, color_space: 1 };
    assert_eq!(choose_surface_format(&vec![a, c, b]), b);
    assert_eq!(choose_surface_format(&vec![c, a]), c);
}

#[test]
fn extent_follows_surface_or_window() {
    let min = Extent2D { width: 100, height: 100 };
    let max = Extent2D { width: 800, height: 600 };
    let current = Extent2D { width: 640, height: 480 };
    let window = Extent2D { width: 1000, height: 50 };
    assert_eq!(choose_swapchain_extent(current, window, min, max), current);
    let unset = Extent2D { width: u32::MAX, height: u32::MAX };
    assert_eq!(choose_swapchain_extent(unset, window, min, max), Extent2D { width: 800, height: 100 });
}

#[test]
fn image_count_is_three_within_limits() {
    assert_eq!(choose_min_image_count(2, 0), 3);
    assert_eq!(choose_min_image_count(2, 2), 2);
    assert_eq!(choose_min_image_count(4, 8), 4);
    assert_eq!(choose_min_image_count(1, 3), 3);
}

#[test]
fn suitable_devices() {
    assert!(device_suitable(&good_device()));
    assert!(offers_required_extensions(&extensions()));
    let mut old = good_device();
    old.api_version = make_api_version(0, 1, 3, 0);
    assert!(!device_suitable(&old));
    let mut no_present = good_device();
    no_present.presentation = vec![false, false];
    assert!(!device_suitable(&no_present));
    let mut no_compute = good_device();
    no_compute.queue_flags = vec![0b1, 0b100];
    assert!(!device_suitable(&no_compute));
    let mut missing = good_device();
    missing.extensions.pop();
    assert!(!device_suitable(&missing));
    let mut no_feature = good_device();
    no_feature.dynamic_rendering = 0;
    assert!(!device_suitable(&no_feature));
    assert_eq!(pick_physical_device(&vec![old, good_device()]), 1);
    assert!(!device_suitable(&no_feature));
    assert_eq!(pick_physical_device(&vec![no_feature, good_device(), good_device()]), 1);
}

#[test]
fn queue_families_prefer_separate_compute() {
    let q = choose_queue_families(&vec![0b11, 0b10, 0b1], &vec![false, true, true]).unwrap();
    assert_eq!(q, QueueFamilies { present: 1, graphics: 0, compute: 1 });
    let shared = choose_queue_families(&vec![0b11], &vec![true]).unwrap();
    assert_eq!(shared, QueueFamilies { present: 0, graphics: 0, compute: 0 });
    assert_eq!(choose_queue_families(&vec![0b10], &vec![true]), None);
    assert_eq!(choose_queue_families(&vec![0b11], &vec![false]), None);
}

#[test]
fn queue_requests_skip_shared_families() {
    let shared = QueueFamilies { present: 0, graphics: 0, compute: 0 };
    assert_eq!(queue_requests(shared), vec![QueueRequest { family: 0, high_priority: true }]);
    let split = QueueFamilies { present: 1, graphics: 0, compute: 1 };
    assert_eq!(
        queue_requests(split),
        vec![
            QueueRequest { family: 1, high_priority: true },
            QueueRequest { family: 0, high_priority: true },
            QueueRequest { family: 1, high_priority: false },
        ]
    );
    assert_eq!(queue_sharing(split), (QueueSource::Own, QueueSource::Present));
    let separate = QueueFamilies { present: 0, graphics: 0, compute: 2 };
    assert_eq!(queue_sharing(separate), (QueueSource::Present, QueueSource::Own));
    let graphics_compute = QueueFamilies { present: 1, graphics: 0, compute: 0 };
    assert_eq!(queue_sharing(graphics_compute), (QueueSource::Own, QueueSource::Graphics));
}

#[test]
fn depth_format_is_the_first_supported() {
    assert_eq!(depth_format_candidates(), vec![126, 130, 129]);
    assert_eq!(choose_depth_format(&vec![(126, 0), (130, 0x200), (129, 0x200)]), Some(130));
    assert_eq!(choose_depth_format(&vec![(126, 0x1ff), (130, 0), (129, 0)]), None);
}

#[test]
fn layout_transitions() {
    assert_eq!(
        layout_transition(0, 7),
        Ok(LayoutBarrier { src_access: 0, dst_access: 0x1000, src_stage: 1, dst_stage: 0x1000 })
    );
    assert_eq!(
        layout_transition(7, 5),
        Ok(LayoutBarrier { src_access: 0x1000, dst_access: 0x20, src_stage: 0x1000, dst_stage: 0x80 })
    );
    assert_eq!(layout_transition(5, 7), Err(String::from("unsupported layout transition!")));
}

#[test]
fn mip_levels_halve() {
    let r = mip_regions(5, 2, 3, &vec![0, 40, 60]);
    assert_eq!(
        r,
        vec![
            MipRegion { offset: 0, level: 0, width: 5, height: 2 },
            MipRegion { offset: 40, level: 1, width: 2, height: 1 },
            MipRegion { offset: 60, level: 2, width: 1, height: 1 },
        ]
    );
}

#[test]
fn shader_words_are_little_endian() {
    assert_eq!(spirv_words(&vec![0x03, 0x02, 0x23, 0x07, 0xff, 0x01]), vec![0x07230203]);
    assert_eq!(spirv_words(&vec![1, 2, 3]), Vec::<u32>::new());
}

#[test]
fn frames_alternate_and_timeline_grows() {
    let mut f = FrameCounters::new();
    assert_eq!(f.advance_timeline(), (0, 1));
    f.next_frame();
    assert_eq!(f.current_frame, 1);
    assert_eq!(f.advance_timeline(), (1, 2));
    f.next_frame();
    assert_eq!(f.current_frame, 0);
    assert_eq!(f.timeline_value, 2);
}

#[test]
fn draw_uses_first_index_value() {
    assert_eq!(draw_arguments(&vec![5, 6, 7]), Some((3, 5)));
    assert_eq!(draw_arguments(&Vec::new()), None);
}

#[test]
fn required_layers_must_all_be_offered() {
    let available = vec![String::from("VK_LAYER_KHRONOS_validation"), String::from("VK_LAYER_other")];
    assert!(all_offered(&vec![String::from("VK_LAYER_KHRONOS_validation")], &available));
    assert!(all_offered(&Vec::new(), &Vec::new()));
    assert!(!all_offered(&vec![String::from("VK_LAYER_missing")], &available));
}

use wurmple::deletion_queue::{DeletionCommand, DeletionQueue};
use wurmple::device::{
    check_device_extensions, is_device_suitable, pick_physical_device, select_device,
    DeviceSelection, PhysicalDeviceInfo, QueueFamilyIndices, QueueFamilySupport,
};
use wurmple::error::EngineError;
use wurmple::frame::{
    advance_frame, blit_region, checked_image_index, dispatch_group_count, plan_frame_submission,
    record_draw_commands, FrameLoop, ImageLayout, Offset3D, PipelineStage, RenderCommand,
    SemaphoreRole,
};
use wurmple::instance::check_validation_layers;
use wurmple::swapchain::{
    pick_memory_type, plan_swapchain, Extent2D, SharingMode, SurfaceCapabilities, SurfaceFormat,
    SwapchainSupportDetails, COLOR_SPACE_SRGB_NONLINEAR, FORMAT_B8G8R8A8_SRGB, PRESENT_MODE_FIFO,
};
use wurmple::MAX_FRAMES;

fn capabilities(min_count: u32, max_count: u32, current: (u32, u32)) -> SurfaceCapabilities {
    SurfaceCapabilities {
        min_image_count: min_count,
        max_image_count: max_count,
        current_extent: Extent2D { width: current.0, height: current.1 },
        min_image_extent: Extent2D { width: 16, height: 16 },
        max_image_extent: Extent2D { width: 4096, height: 4096 },
    }
}

fn details_with(capabilities: SurfaceCapabilities) -> SwapchainSupportDetails {
    SwapchainSupportDetails {
        capabilities,
        formats: vec![SurfaceFormat {
            format: FORMAT_B8G8R8A8_SRGB,
            color_space: COLOR_SPACE_SRGB_NONLINEAR,
        }],
        present_modes: vec![PRESENT_MODE_FIFO],
    }
}

fn family(graphics: bool, present: bool) -> QueueFamilySupport {
    QueueFamilySupport { supports_graphics: graphics, supports_present: present }
}

fn suitable_device() -> PhysicalDeviceInfo {
    PhysicalDeviceInfo {
        families: vec![family(true, true)],
        extension_names: vec![String::from("VK_KHR_swapchain")],
        swapchain_support: details_with(capabilities(2, 8, (640, 480))),
    }
}

// Frame ring: with two slots the sequence of slots is 0, 1, 0, 1, ...

#[test]
fn frame_ring_of_two_alternates() {
    assert_eq!(MAX_FRAMES, 2);
    let mut slot = 0usize;
    let mut seen = Vec::new();
    for _ in 0..5 {
        seen.push(slot);
        slot = advance_frame(slot, MAX_FRAMES);
    }
    assert_eq!(seen, vec![0, 1, 0, 1, 0]);
}

#[test]
fn frame_ring_of_three_cycles_in_order() {
    let mut slot = 0usize;
    let mut seen = Vec::new();
    for _ in 0..7 {
        seen.push(slot);
        slot = advance_frame(slot, 3);
    }
    assert_eq!(seen, vec![0, 1, 2, 0, 1, 2, 0]);
}

#[test]
fn frame_ring_of_one_stays_at_zero() {
    assert_eq!(advance_frame(0, 1), 0);
}

#[test]
fn frame_loop_advances_once_per_frame() {
    let mut frame_loop = FrameLoop::new(MAX_FRAMES);
    assert_eq!(frame_loop.current_frame, 0);
    frame_loop.advance();
    assert_eq!(frame_loop.current_frame, 1);
    frame_loop.advance();
    assert_eq!(frame_loop.current_frame, 0);
}

// Queue-family search: first graphics-capable and first present-capable
// family, set exactly when one exists.

#[test]
fn queue_families_found_when_present() {
    let families = vec![family(false, true), family(true, false)];
    let indices = QueueFamilyIndices::find_queue_family_indices(&families);
    assert_eq!(indices.graphics_q_idx, Some(1));
    assert_eq!(indices.presentation_q_idx, Some(0));
    assert!(indices.is_complete());
}

#[test]
fn queue_families_first_match_wins() {
    let families = vec![family(true, true), family(true, true)];
    let indices = QueueFamilyIndices::find_queue_family_indices(&families);
    assert_eq!(indices.graphics_q_idx, Some(0));
    assert_eq!(indices.presentation_q_idx, Some(0));
}

#[test]
fn queue_families_unset_when_absent() {
    let families = vec![family(false, true)];
    let indices = QueueFamilyIndices::find_queue_family_indices(&families);
    assert_eq!(indices.graphics_q_idx, None);
    assert_eq!(indices.presentation_q_idx, Some(0));
    assert!(!indices.is_complete());

    let none = QueueFamilyIndices::find_queue_family_indices(&Vec::new());
    assert_eq!(none.graphics_q_idx, None);
    assert_eq!(none.presentation_q_idx, None);
}

#[test]
fn suitable_device_has_complete_indices() {
    let device = suitable_device();
    assert!(is_device_suitable(&device));
    let indices = QueueFamilyIndices::find_queue_family_indices(&device.families);
    assert!(indices.graphics_q_idx.is_some());
    assert!(indices.presentation_q_idx.is_some());
}

#[test]
fn device_without_graphics_family_rejected() {
    let mut device = suitable_device();
    device.families = vec![family(false, true)];
    assert!(!is_device_suitable(&device));
    let indices = QueueFamilyIndices::find_queue_family_indices(&device.families);
    assert_eq!(indices.graphics_q_idx, None);
}

#[test]
fn device_without_present_family_rejected() {
    let mut device = suitable_device();
    device.families = vec![family(true, false)];
    assert!(!is_device_suitable(&device));
    let indices = QueueFamilyIndices::find_queue_family_indices(&device.families);
    assert_eq!(indices.presentation_q_idx, None);
}

#[test]
fn device_without_swapchain_extension_rejected() {
    let mut device = suitable_device();
    device.extension_names = vec![String::from("VK_KHR_portability_subset")];
    assert!(!is_device_suitable(&device));
}

#[test]
fn device_with_inadequate_surface_rejected() {
    let mut device = suitable_device();
    device.swapchain_support.formats = Vec::new();
    assert!(!is_device_suitable(&device));
}

#[test]
fn pick_physical_device_takes_first_suitable() {
    let mut unsuitable = suitable_device();
    unsuitable.extension_names = Vec::new();
    let devices = vec![unsuitable, suitable_device(), suitable_device()];
    assert_eq!(pick_physical_device(&devices), Some(1));
}

#[test]
fn pick_physical_device_none_when_unsuitable() {
    let mut unsuitable = suitable_device();
    unsuitable.extension_names = Vec::new();
    let devices = vec![unsuitable];
    assert_eq!(pick_physical_device(&devices), None);
    assert_eq!(pick_physical_device(&Vec::new()), None);
}

#[test]
fn select_device_reports_no_suitable_device() {
    let result = select_device(&Vec::new());
    assert_eq!(result, Err(EngineError::NoSuitableDevice));
    assert_eq!(
        EngineError::NoSuitableDevice.describe(),
        "no suitable physical device"
    );
}

#[test]
fn select_device_returns_selection_with_indices() {
    let devices = vec![suitable_device()];
    let selection = select_device(&devices).unwrap();
    assert_eq!(
        selection,
        DeviceSelection {
            device_index: 0,
            indices: QueueFamilyIndices {
                graphics_q_idx: Some(0),
                presentation_q_idx: Some(0),
            },
        }
    );
}

// Extension and layer name checks.

#[test]
fn device_extensions_checked_by_name() {
    let available = vec![
        String::from("VK_KHR_portability_subset"),
        String::from("VK_KHR_swapchain"),
    ];
    assert!(check_device_extensions(&available));
    assert!(!check_device_extensions(&vec![String::from("VK_KHR_portability_subset")]));
    assert!(!check_device_extensions(&Vec::new()));
}

#[test]
fn validation_layers_checked_by_name() {
    let layers = vec![
        String::from("VK_LAYER_LUNARG_api_dump"),
        String::from("VK_LAYER_KHRONOS_validation"),
    ];
    assert!(check_validation_layers(layers));
    assert!(!check_validation_layers(vec![String::from("VK_LAYER_LUNARG_api_dump")]));
    assert!(!check_validation_layers(Vec::new()));
}

// Image-count selection: min + 1, clamped down to a nonzero maximum.

#[test]
fn image_count_min_one_unbounded_gives_two() {
    let details = details_with(capabilities(1, 0, (640, 480)));
    assert_eq!(details.choose_image_count(), 2);
}

#[test]
fn image_count_clamped_to_maximum() {
    let details = details_with(capabilities(2, 2, (640, 480)));
    assert_eq!(details.choose_image_count(), 2);
}

#[test]
fn image_count_min_three_max_eight_gives_four() {
    let details = details_with(capabilities(3, 8, (640, 480)));
    assert_eq!(details.choose_image_count(), 4);
}

// Extent selection: the reported extent verbatim, unless the undefined
// sentinel is reported, in which case the window size clamped into range.

#[test]
fn extent_uses_reported_extent_verbatim() {
    let details = details_with(capabilities(2, 8, (640, 480)));
    let extent = details.choose_swapchain_extent(Extent2D { width: 9999, height: 1 });
    assert_eq!(extent, Extent2D { width: 640, height: 480 });
}

#[test]
fn extent_sentinel_clamps_window_size() {
    let details = details_with(capabilities(2, 8, (u32::MAX, u32::MAX)));
    let extent = details.choose_swapchain_extent(Extent2D { width: 5000, height: 4 });
    assert_eq!(extent, Extent2D { width: 4096, height: 16 });
    let within = details.choose_swapchain_extent(Extent2D { width: 1280, height: 720 });
    assert_eq!(within, Extent2D { width: 1280, height: 720 });
}

#[test]
fn extent_partial_sentinel_is_not_the_sentinel() {
    let details = details_with(capabilities(2, 8, (u32::MAX, 480)));
    let extent = details.choose_swapchain_extent(Extent2D { width: 1280, height: 720 });
    assert_eq!(extent, Extent2D { width: u32::MAX, height: 480 });
    let details = details_with(capabilities(2, 8, (640, u32::MAX)));
    let extent = details.choose_swapchain_extent(Extent2D { width: 1280, height: 720 });
    assert_eq!(extent, Extent2D { width: 640, height: u32::MAX });
}

// Format and present-mode selection: exact match or nothing.

#[test]
fn format_selected_only_on_exact_match() {
    let mut details = details_with(capabilities(2, 8, (640, 480)));
    details.formats = vec![
        SurfaceFormat { format: 44, color_space: COLOR_SPACE_SRGB_NONLINEAR },
        SurfaceFormat { format: FORMAT_B8G8R8A8_SRGB, color_space: COLOR_SPACE_SRGB_NONLINEAR },
    ];
    assert_eq!(
        details.choose_swapchain_format(),
        Some(SurfaceFormat {
            format: FORMAT_B8G8R8A8_SRGB,
            color_space: COLOR_SPACE_SRGB_NONLINEAR,
        })
    );
    details.formats = vec![SurfaceFormat { format: 44, color_space: 0 }];
    assert_eq!(details.choose_swapchain_format(), None);
}

#[test]
fn present_mode_fifo_or_nothing() {
    let mut details = details_with(capabilities(2, 8, (640, 480)));
    details.present_modes = vec![0, 1, PRESENT_MODE_FIFO];
    assert_eq!(details.choose_swapchain_present_mode(), Some(PRESENT_MODE_FIFO));
    details.present_modes = vec![0, 1];
    assert_eq!(details.choose_swapchain_present_mode(), None);
}

#[test]
fn adequacy_needs_formats_and_modes() {
    let details = details_with(capabilities(2, 8, (640, 480)));
    assert!(details.is_swapchain_adequate());
    let mut no_formats = details.clone();
    no_formats.formats = Vec::new();
    assert!(!no_formats.is_swapchain_adequate());
    let mut no_modes = details;
    no_modes.present_modes = Vec::new();
    assert!(!no_modes.is_swapchain_adequate());
}

// The full swapchain plan.

#[test]
fn swapchain_plan_collects_all_parameters() {
    let details = details_with(capabilities(2, 8, (640, 480)));
    let indices = QueueFamilyIndices { graphics_q_idx: Some(0), presentation_q_idx: Some(0) };
    let plan = plan_swapchain(&details, &indices, Extent2D { width: 1280, height: 720 }).unwrap();
    assert_eq!(plan.format.format, FORMAT_B8G8R8A8_SRGB);
    assert_eq!(plan.format.color_space, COLOR_SPACE_SRGB_NONLINEAR);
    assert_eq!(plan.present_mode, PRESENT_MODE_FIFO);
    assert_eq!(plan.extent, Extent2D { width: 640, height: 480 });
    assert_eq!(plan.image_count, 3);
    assert_eq!(plan.sharing_mode, SharingMode::Exclusive);
    assert_eq!(plan.graphics_q_idx, 0);
    assert_eq!(plan.presentation_q_idx, 0);
}

#[test]
fn swapchain_plan_concurrent_when_families_differ() {
    let details = details_with(capabilities(2, 8, (640, 480)));
    let indices = QueueFamilyIndices { graphics_q_idx: Some(1), presentation_q_idx: Some(0) };
    let plan = plan_swapchain(&details, &indices, Extent2D { width: 1280, height: 720 }).unwrap();
    assert_eq!(plan.sharing_mode, SharingMode::Concurrent);
}

#[test]
fn swapchain_plan_missing_format() {
    let mut details = details_with(capabilities(2, 8, (640, 480)));
    details.formats = vec![SurfaceFormat { format: 44, color_space: 0 }];
    let indices = QueueFamilyIndices { graphics_q_idx: Some(0), presentation_q_idx: Some(0) };
    let result = plan_swapchain(&details, &indices, Extent2D { width: 1280, height: 720 });
    assert_eq!(result, Err(EngineError::MissingSurfaceFormat));
    assert_eq!(
        EngineError::MissingSurfaceFormat.describe(),
        "surface format not supported"
    );
}

#[test]
fn swapchain_plan_missing_present_mode() {
    let mut details = details_with(capabilities(2, 8, (640, 480)));
    details.present_modes = vec![0];
    let indices = QueueFamilyIndices { graphics_q_idx: Some(0), presentation_q_idx: Some(0) };
    let result = plan_swapchain(&details, &indices, Extent2D { width: 1280, height: 720 });
    assert_eq!(result, Err(EngineError::MissingPresentMode));
    assert_eq!(
        EngineError::MissingPresentMode.describe(),
        "present mode not supported"
    );
}

// Memory-type selection for the offscreen target's allocation.

#[test]
fn memory_type_first_allowed_device_local_wins() {
    let is_device_local = vec![false, true, true];
    assert_eq!(pick_memory_type(0b111, &is_device_local), Some(1));
    assert_eq!(pick_memory_type(0b101, &is_device_local), Some(2));
}

#[test]
fn memory_type_none_when_no_type_qualifies() {
    let is_device_local = vec![false, true];
    assert_eq!(pick_memory_type(0b01, &is_device_local), None);
    assert_eq!(pick_memory_type(0, &is_device_local), None);
    assert_eq!(pick_memory_type(u32::MAX, &Vec::new()), None);
    assert_eq!(pick_memory_type(u32::MAX, &vec![false; 32]), None);
}

#[test]
fn memory_type_highest_bit_reachable() {
    let mut is_device_local = vec![false; 32];
    is_device_local[31] = true;
    assert_eq!(pick_memory_type(1u32 << 31, &is_device_local), Some(31));
}

// Per-frame submission wiring.

#[test]
fn submission_wires_slot_semaphores_and_fence() {
    let submission = plan_frame_submission(1, 2);
    assert_eq!(submission.wait_semaphore, SemaphoreRole::ImageAcquired { slot: 1 });
    assert_eq!(submission.wait_stage, PipelineStage::AllCommands);
    assert_eq!(submission.signal_semaphore, SemaphoreRole::RenderComplete { slot: 1 });
    assert_eq!(submission.signal_fence_slot, 1);
    assert_eq!(submission.present_wait_semaphore, submission.signal_semaphore);
    assert_eq!(submission.present_image_index, 2);
}

// Deletion queue: LIFO drain, each command exactly once, deterministic.

#[test]
fn deletion_queue_drains_in_reverse_enqueue_order() {
    let mut queue = DeletionQueue::new();
    assert_eq!(queue.len(), 0);
    queue.enqueue(DeletionCommand::DestroyImageView(11));
    queue.enqueue(DeletionCommand::DestroyShaderModule(22));
    queue.enqueue(DeletionCommand::DestroyPipeline(33));
    assert_eq!(queue.len(), 3);
    let drained = queue.drain();
    assert_eq!(
        drained,
        vec![
            DeletionCommand::DestroyPipeline(33),
            DeletionCommand::DestroyShaderModule(22),
            DeletionCommand::DestroyImageView(11),
        ]
    );
    assert_eq!(queue.len(), 0);
    assert_eq!(queue.drain(), Vec::new());
}

#[test]
fn deletion_queue_drain_runs_each_exactly_once() {
    let mut queue = DeletionQueue::new();
    let commands = vec![
        DeletionCommand::DestroyDescriptorPool(1),
        DeletionCommand::DestroyDescriptorSetLayout(2),
        DeletionCommand::DestroyPipelineLayout(3),
        DeletionCommand::DestroyPipelineLayout(3),
    ];
    for command in &commands {
        queue.enqueue(*command);
    }
    let mut drained = queue.drain();
    drained.reverse();
    assert_eq!(drained, commands);
}

// Per-frame command recording.

#[test]
fn draw_commands_recorded_in_order() {
    let offscreen = Extent2D { width: 100, height: 50 };
    let swapchain_extent = Extent2D { width: 640, height: 480 };
    let commands = record_draw_commands(offscreen, swapchain_extent);
    assert_eq!(commands.len(), 6);
    assert_eq!(
        commands[0],
        RenderCommand::TransitionOffscreen {
            old_layout: ImageLayout::Undefined,
            new_layout: ImageLayout::General,
        }
    );
    assert_eq!(
        commands[1],
        RenderCommand::DispatchBackground { group_count_x: 7, group_count_y: 4 }
    );
    assert_eq!(
        commands[2],
        RenderCommand::TransitionOffscreen {
            old_layout: ImageLayout::General,
            new_layout: ImageLayout::TransferSrc,
        }
    );
    assert_eq!(
        commands[3],
        RenderCommand::TransitionPresentable {
            old_layout: ImageLayout::Undefined,
            new_layout: ImageLayout::TransferDst,
        }
    );
    assert_eq!(
        commands[4],
        RenderCommand::BlitOffscreenToPresentable {
            region: blit_region(offscreen, swapchain_extent),
        }
    );
    assert_eq!(
        commands[5],
        RenderCommand::TransitionPresentable {
            old_layout: ImageLayout::TransferDst,
            new_layout: ImageLayout::PresentSrc,
        }
    );
}

#[test]
fn blit_region_covers_both_images() {
    let region = blit_region(
        Extent2D { width: 100, height: 50 },
        Extent2D { width: 640, height: 480 },
    );
    assert_eq!(region.src_min, Offset3D { x: 0, y: 0, z: 0 });
    assert_eq!(region.src_max, Offset3D { x: 100, y: 50, z: 1 });
    assert_eq!(region.dst_min, Offset3D { x: 0, y: 0, z: 0 });
    assert_eq!(region.dst_max, Offset3D { x: 640, y: 480, z: 1 });
}

#[test]
fn dispatch_groups_round_up() {
    assert_eq!(dispatch_group_count(0), 0);
    assert_eq!(dispatch_group_count(1), 1);
    assert_eq!(dispatch_group_count(16), 1);
    assert_eq!(dispatch_group_count(17), 2);
    assert_eq!(dispatch_group_count(1280), 80);
}

// Synthetic smoke run: 120 redraw ticks of CPU-side bookkeeping with no
// resize — the frame slot stays in range and rotates, every synthetic
// acquired index passes the range check, and the deletion queue drained at
// shutdown hands out every recorded command exactly once.

#[test]
fn synthetic_120_tick_run_stays_in_range() {
    let image_count = 3u32;
    let mut frame_loop = FrameLoop::new(MAX_FRAMES);
    let mut deletion_queue = DeletionQueue::new();
    deletion_queue.enqueue(DeletionCommand::DestroyImageView(7));
    deletion_queue.enqueue(DeletionCommand::DestroyDescriptorSetLayout(8));
    deletion_queue.enqueue(DeletionCommand::DestroyDescriptorPool(9));
    deletion_queue.enqueue(DeletionCommand::DestroyShaderModule(10));
    deletion_queue.enqueue(DeletionCommand::DestroyPipelineLayout(11));
    deletion_queue.enqueue(DeletionCommand::DestroyPipeline(12));

    let mut expected_slot = 0usize;
    for tick in 0..120u32 {
        assert!(frame_loop.current_frame < MAX_FRAMES);
        assert_eq!(frame_loop.current_frame, expected_slot);
        let acquired = tick % image_count;
        let checked = checked_image_index(acquired, image_count);
        assert_eq!(checked, Some(acquired));
        let commands = record_draw_commands(
            Extent2D { width: 1280, height: 720 },
            Extent2D { width: 1280, height: 720 },
        );
        assert_eq!(commands.len(), 6);
        frame_loop.advance();
        expected_slot = (expected_slot + 1) % MAX_FRAMES;
    }

    let drained = deletion_queue.drain();
    assert_eq!(drained.len(), 6);
    assert_eq!(drained[0], DeletionCommand::DestroyPipeline(12));
    assert_eq!(drained[5], DeletionCommand::DestroyImageView(7));
    assert_eq!(deletion_queue.len(), 0);
}

#[test]
fn acquired_index_checked_against_image_count() {
    assert_eq!(checked_image_index(0, 3), Some(0));
    assert_eq!(checked_image_index(2, 3), Some(2));
    assert_eq!(checked_image_index(3, 3), None);
    assert_eq!(checked_image_index(0, 0), None);
}

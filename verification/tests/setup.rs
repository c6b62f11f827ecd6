use mini_engine::application::App;
use mini_engine::device::{DeviceCandidate, DeviceClass, DeviceData, DeviceInitError, QueueFamily};
use mini_engine::frame_loop::{Action, CompletionToken, Event, FrameScheduler, Phase};
use mini_engine::framebuffer::Acquisition;
use mini_engine::model::{Model, VertexData};
use mini_engine::render_pass::RenderPassLayout;
use mini_engine::render_system::{CullMode, RenderSystem};
use mini_engine::resources::{CompositeAlpha, SurfaceInfo, SwapchainConfig, VulkanResources};

fn usable(class: DeviceClass) -> DeviceCandidate {
    DeviceCandidate {
        class,
        khr_swapchain: true,
        queue_families: vec![
            QueueFamily { graphics: false, surface_support: Some(true) },
            QueueFamily { graphics: true, surface_support: Some(true) },
        ],
    }
}

fn surface(min_image_count: u32, alphas: Vec<CompositeAlpha>) -> SurfaceInfo {
    SurfaceInfo { min_image_count, format_count: 2, composite_alphas: alphas }
}

#[test]
fn swapchain_takes_the_first_format_and_compositing() {
    let info = surface(2, vec![CompositeAlpha::PreMultiplied, CompositeAlpha::Opaque]);
    assert_eq!(
        SwapchainConfig::new(&info, [1024, 768]),
        Ok(SwapchainConfig {
            min_image_count: 2,
            image_format: 0,
            image_extent: [1024, 768],
            composite_alpha: CompositeAlpha::PreMultiplied,
        })
    );
}

#[test]
fn swapchain_needs_a_format() {
    let info = SurfaceInfo {
        min_image_count: 2,
        format_count: 0,
        composite_alphas: vec![CompositeAlpha::Opaque],
    };
    assert_eq!(SwapchainConfig::new(&info, [1, 1]), Err(DeviceInitError::NoSurfaceFormat));
}

#[test]
fn swapchain_needs_a_compositing() {
    let info = surface(2, Vec::new());
    assert_eq!(SwapchainConfig::new(&info, [1, 1]), Err(DeviceInitError::NoCompositeAlpha));
    let neither = SurfaceInfo { min_image_count: 2, format_count: 0, composite_alphas: Vec::new() };
    assert_eq!(SwapchainConfig::new(&neither, [1, 1]), Err(DeviceInitError::NoSurfaceFormat));
}

#[test]
fn resources_are_set_up_for_the_chosen_device() {
    let candidates = vec![usable(DeviceClass::IntegratedGpu), usable(DeviceClass::DiscreteGpu)];
    let surfaces = vec![
        surface(2, vec![CompositeAlpha::Opaque]),
        surface(3, vec![CompositeAlpha::Inherit, CompositeAlpha::Opaque]),
    ];
    let resources = VulkanResources::new(&candidates, &surfaces, [1024, 768], true).unwrap();
    assert_eq!(resources.device, DeviceData { physical_device: 1, queue_family_index: 1 });
    assert_eq!(
        resources.swapchain,
        SwapchainConfig {
            min_image_count: 3,
            image_format: 0,
            image_extent: [1024, 768],
            composite_alpha: CompositeAlpha::Inherit,
        }
    );
    assert_eq!(resources.render_pass, RenderPassLayout::deferred());
    assert_eq!(resources.render_system, RenderSystem::new(&RenderPassLayout::deferred(), true));
    assert_eq!(resources.render_system.pipeline.cull_mode, CullMode::Front);
}

#[test]
fn setup_fails_without_a_suitable_device() {
    let mut candidate = usable(DeviceClass::DiscreteGpu);
    candidate.khr_swapchain = false;
    let surfaces = vec![surface(2, vec![CompositeAlpha::Opaque])];
    assert_eq!(
        VulkanResources::new(&vec![candidate], &surfaces, [1024, 768], false),
        Err(DeviceInitError::NoSuitableDevice)
    );
}

#[test]
fn setup_fails_when_the_chosen_surface_offers_nothing() {
    let candidates = vec![usable(DeviceClass::DiscreteGpu), usable(DeviceClass::IntegratedGpu)];
    let surfaces = vec![surface(2, Vec::new()), surface(2, vec![CompositeAlpha::Opaque])];
    assert_eq!(
        VulkanResources::new(&candidates, &surfaces, [1024, 768], false),
        Err(DeviceInitError::NoCompositeAlpha)
    );
}

#[test]
fn new_app_has_its_title_and_size_and_no_models() {
    let app = App::new("Vulkan App", 1024, 768);
    assert_eq!(app.window_title, "Vulkan App");
    assert_eq!(app.window_size, (1024, 768));
    assert!(app.vulkan_resources.is_none());
    assert!(app.scene.is_empty());
}

#[test]
fn add_model_appends_to_the_scene() {
    let mut app = App::new("Vulkan App", 1024, 768);
    let first = Model::new(vec![VertexData { position: [1, 2, 3], normal: [4, 5, 6] }], vec![0]);
    let second = Model::new(Vec::new(), Vec::new());
    app.add_model(first.clone());
    app.add_model(second.clone());
    assert_eq!(app.scene, vec![first, second]);
}

#[test]
fn build_sets_the_resources_up_at_the_window_size() {
    let mut app = App::new("Vulkan App", 1024, 768);
    let candidates = vec![usable(DeviceClass::DiscreteGpu)];
    let surfaces = vec![surface(2, vec![CompositeAlpha::Opaque])];
    assert_eq!(app.build(&candidates, &surfaces, false), Ok(()));
    let expected = VulkanResources::new(&candidates, &surfaces, [1024, 768], false).unwrap();
    assert_eq!(app.vulkan_resources, Some(expected));
}

#[test]
fn failed_build_leaves_the_app_unbuilt() {
    let mut app = App::new("Vulkan App", 1024, 768);
    assert_eq!(app.build(&Vec::new(), &Vec::new(), false), Err(DeviceInitError::NoSuitableDevice));
    assert!(app.vulkan_resources.is_none());
}

#[test]
fn run_drives_the_frame_loop() {
    let mut app = App::new("Vulkan App", 1024, 768);
    let candidates = vec![usable(DeviceClass::DiscreteGpu)];
    let surfaces = vec![surface(2, vec![CompositeAlpha::Opaque])];
    app.build(&candidates, &surfaces, false).unwrap();
    let before = app.vulkan_resources.clone().unwrap();
    let events = vec![
        Event::Resized,
        Event::RedrawRequested { extent: [1024, 768] },
        Event::Acquired { acquisition: Acquisition::Ready { image_index: 1, suboptimal: false } },
        Event::Recorded,
        Event::CloseRequested,
    ];
    let actions = app.run(&events);
    assert_eq!(
        actions,
        vec![
            Action::CleanupFinished,
            Action::RecreateSwapchain { extent: [1024, 768] },
            Action::AcquireImage,
            Action::Record { image_index: 1 },
            Action::Submit { image_index: 1, wait_for: CompletionToken::Fresh },
            Action::Exit,
        ]
    );
    let after = app.vulkan_resources.unwrap();
    assert_eq!(
        after.render_system.scheduler,
        FrameScheduler {
            phase: Phase::Submitted,
            recreate_swapchain: false,
            token: CompletionToken::Fresh,
            image_index: 1,
        }
    );
    assert_eq!(after.device, before.device);
    assert_eq!(after.swapchain, before.swapchain);
    assert_eq!(after.render_system.pipeline, before.render_system.pipeline);
}

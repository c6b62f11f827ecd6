//! What is set up once, before the first frame: the device and its queue family, the
//! swapchain's configuration, the render pass and the render system.

use crate::device::{candidates_wf, is_first_suitable, is_selected, DeviceCandidate, DeviceData, DeviceInitError};
use crate::frame_loop::FrameScheduler;
use crate::render_pass::{deferred_render_pass, RenderPassLayout};
use crate::render_system::{geometry_pipeline, mix_pipeline, RenderSystem};
use crate::uniform::identity_matrix;
use vstd::prelude::*;

verus! {

/// How the presented image is composited with what is behind the window.
#[derive(Clone, Copy, Debug, PartialEq, Eq, Structural)]
pub enum CompositeAlpha {
    Opaque,
    PreMultiplied,
    PostMultiplied,
    Inherit,
}

/// What the surface offers to one device.
#[derive(Clone, Debug, PartialEq, Eq)]
pub struct SurfaceInfo {
    /// The least number of images that a swapchain must have.
    pub min_image_count: u32,
    /// The number of image formats that the surface offers, in its order of preference.
    pub format_count: usize,
    /// The ways of compositing that the surface supports, in the order in which they are
    /// listed.
    pub composite_alphas: Vec<CompositeAlpha>,
}

/// The swapchain to create. Its images can be used in every way that the surface supports.
#[derive(Clone, Copy, Debug, PartialEq, Eq)]
pub struct SwapchainConfig {
    pub min_image_count: u32,
    /// The image format, by its place among those that the surface offers.
    pub image_format: usize,
    pub image_extent: [u32; 2],
    pub composite_alpha: CompositeAlpha,
}

/// What was set up.
#[derive(Clone, Debug, PartialEq, Eq)]
pub struct VulkanResources {
    pub device: DeviceData,
    pub swapchain: SwapchainConfig,
    pub render_pass: RenderPassLayout,
    pub render_system: RenderSystem,
}

impl SurfaceInfo {
    /// The swapchain for this surface at `image_extent`: as few images as the surface
    /// allows, the format and the compositing that it lists first. There is none if the
    /// surface offers no format or no compositing.
    pub open spec fn swapchain(&self, image_extent: [u32; 2]) -> Result<SwapchainConfig, DeviceInitError> {
        if self.format_count == 0 {
            Err(DeviceInitError::NoSurfaceFormat)
        } else if self.composite_alphas@.len() == 0 {
            Err(DeviceInitError::NoCompositeAlpha)
        } else {
            Ok(
                SwapchainConfig {
                    min_image_count: self.min_image_count,
                    image_format: 0,
                    image_extent,
                    composite_alpha: self.composite_alphas@[0],
                },
            )
        }
    }
}

impl SwapchainConfig {
    /// The swapchain to create for `surface` at `image_extent`.
    pub fn new(surface: &SurfaceInfo, image_extent: [u32; 2]) -> (config: Result<
        SwapchainConfig,
        DeviceInitError,
    >)
        ensures
            config == surface.swapchain(image_extent),
    {
        if surface.format_count == 0 {
            Err(DeviceInitError::NoSurfaceFormat)
        } else if surface.composite_alphas.len() == 0 {
            Err(DeviceInitError::NoCompositeAlpha)
        } else {
            Ok(
                SwapchainConfig {
                    min_image_count: surface.min_image_count,
                    image_format: 0,
                    image_extent,
                    composite_alpha: surface.composite_alphas[0],
                },
            )
        }
    }
}

impl VulkanResources {
    /// `self` is what is set up for the device `physical_device` of `candidates`, of which
    /// `surface` is the surface as that device sees it.
    pub open spec fn is_setup_for(
        &self,
        candidates: Seq<DeviceCandidate>,
        surface: SurfaceInfo,
        window_extent: [u32; 2],
        flipped: bool,
    ) -> bool {
        &&& is_selected(candidates, self.device.physical_device as int)
        &&& is_first_suitable(
            candidates[self.device.physical_device as int].queue_families@,
            self.device.queue_family_index as int,
        )
        &&& Ok::<SwapchainConfig, DeviceInitError>(self.swapchain) == surface.swapchain(window_extent)
        &&& self.render_pass@ == deferred_render_pass()
        &&& self.render_system.pipeline == geometry_pipeline(deferred_render_pass(), flipped)
        &&& self.render_system.deferred_mix_pipeline == mix_pipeline(deferred_render_pass())
        &&& self.render_system.scheduler == FrameScheduler::initial()
        &&& self.render_system.view_matrix == identity_matrix()
        &&& self.render_system.projection_matrix == identity_matrix()
        &&& self.render_system.frame == 0
    }

    /// Sets up what is needed before the first frame. `candidates` are the machine's
    /// devices, `surfaces` holds for each of them, in the same order, what the surface
    /// offers to it. The device is chosen as `DeviceData::new` says; the swapchain is that of
    /// the chosen device's surface at the window's extent; the render pass is that of
    /// deferred shading; the render system is new, for a projection that flips an axis or
    /// not. It fails if no device qualifies, or else if the chosen device's surface offers no
    /// format, or else no compositing.
    pub fn new(
        candidates: &Vec<DeviceCandidate>,
        surfaces: &Vec<SurfaceInfo>,
        window_extent: [u32; 2],
        flipped: bool,
    ) -> (resources: Result<VulkanResources, DeviceInitError>)
        requires
            candidates_wf(candidates@),
            surfaces@.len() == candidates@.len(),
        ensures
            match resources {
                Ok(resources) => resources.is_setup_for(
                    candidates@,
                    surfaces@[resources.device.physical_device as int],
                    window_extent,
                    flipped,
                ),
                Err(DeviceInitError::NoSuitableDevice) => forall|i: int|
                    0 <= i < candidates@.len() ==> !(#[trigger] candidates@[i]).qualifies(),
                Err(error) => exists|chosen: int|
                    is_selected(candidates@, chosen) && (#[trigger] surfaces@[chosen]).swapchain(
                        window_extent,
                    ) == Err::<SwapchainConfig, DeviceInitError>(error),
            },
    {
        let device = match DeviceData::new(candidates) {
            Ok(device) => device,
            Err(error) => {
                return Err(error);
            },
        };
        let swapchain = match SwapchainConfig::new(&surfaces[device.physical_device], window_extent) {
            Ok(swapchain) => swapchain,
            Err(error) => {
                return Err(error);
            },
        };
        let render_pass = RenderSystem::get_render_pass();
        let render_system = RenderSystem::new(&render_pass, flipped);
        Ok(VulkanResources { device, swapchain, render_pass, render_system })
    }
}

} // verus!

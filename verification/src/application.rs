//! The application: its window's title and size, its scene, and what was set up for it.

use crate::device::{candidates_wf, is_selected, DeviceCandidate, DeviceInitError};
use crate::frame_loop::{Action, Event, FrameScheduler};
use crate::render_system::RenderSystem;
use crate::model::Model;
use crate::resources::{SurfaceInfo, SwapchainConfig, VulkanResources};
use vstd::prelude::*;

verus! {

/// The application.
#[derive(Debug, PartialEq, Eq)]
pub struct App {
    pub window_title: String,
    pub window_size: (u32, u32),
    /// What was set up, once the application is built.
    pub vulkan_resources: Option<VulkanResources>,
    pub scene: Vec<Model>,
}

impl App {
    /// The application is built: its resources are set up.
    pub open spec fn is_built(&self) -> bool {
        self.vulkan_resources is Some
    }

    /// The state of the frame loop of an application that is built.
    pub open spec fn scheduler(&self) -> FrameScheduler {
        self.vulkan_resources->0.render_system.scheduler
    }

    /// The application with its frame loop in the state `scheduler`, and all else as it is.
    pub open spec fn with_scheduler(self, scheduler: FrameScheduler) -> App {
        match self.vulkan_resources {
            Some(resources) => App {
                vulkan_resources: Some(
                    VulkanResources {
                        render_system: RenderSystem { scheduler, ..resources.render_system },
                        ..resources
                    },
                ),
                ..self
            },
            None => self,
        }
    }

    /// The window's size as an extent.
    pub open spec fn window_extent(&self) -> [u32; 2] {
        [self.window_size.0, self.window_size.1]
    }

    /// An application with a window of this title and size. It has no models, and it is
    /// not built.
    pub fn new(title: &str, width: u32, height: u32) -> (app: App)
        ensures
            app.window_title@ == title@,
            app.window_size == (width, height),
            app.vulkan_resources is None,
            app.scene@.len() == 0,
    {
        App {
            window_title: title.to_owned(),
            window_size: (width, height),
            vulkan_resources: None,
            scene: Vec::new(),
        }
    }

    /// Sets up the resources for the window at its size, as `VulkanResources::new` says,
    /// and keeps them. It fails if no device qualifies, or else if the surface offers the
    /// chosen device no format or no compositing; the application then stays as it is.
    pub fn build(
        &mut self,
        candidates: &Vec<DeviceCandidate>,
        surfaces: &Vec<SurfaceInfo>,
        flipped: bool,
    ) -> (built: Result<(), DeviceInitError>)
        requires
            candidates_wf(candidates@),
            surfaces@.len() == candidates@.len(),
        ensures
            final(self).window_title == old(self).window_title,
            final(self).window_size == old(self).window_size,
            final(self).scene == old(self).scene,
            match built {
                Ok(_) => final(self).vulkan_resources matches Some(resources)
                    && resources.is_setup_for(
                    candidates@,
                    surfaces@[resources.device.physical_device as int],
                    old(self).window_extent(),
                    flipped,
                ),
                Err(error) => {
                    &&& final(self).vulkan_resources == old(self).vulkan_resources
                    &&& error == DeviceInitError::NoSuitableDevice ==> forall|i: int|
                        0 <= i < candidates@.len() ==> !(#[trigger] candidates@[i]).qualifies()
                    &&& error != DeviceInitError::NoSuitableDevice ==> exists|chosen: int|
                        is_selected(candidates@, chosen) && (#[trigger] surfaces@[chosen]).swapchain(
                            old(self).window_extent(),
                        ) == Err::<SwapchainConfig, DeviceInitError>(error)
                },
            },
    {
        let extent = [self.window_size.0, self.window_size.1];
        match VulkanResources::new(candidates, surfaces, extent, flipped) {
            Ok(resources) => {
                self.vulkan_resources = Some(resources);
                Ok(())
            },
            Err(error) => Err(error),
        }
    }

    /// Adds `model` behind the models of the scene.
    pub fn add_model(&mut self, model: Model)
        ensures
            final(self).scene@ == old(self).scene@.push(model),
            final(self).window_title == old(self).window_title,
            final(self).window_size == old(self).window_size,
            final(self).vulkan_resources == old(self).vulkan_resources,
    {
        self.scene.push(model);
    }

    /// Runs the frame loop over `events`, in order, and returns everything to do, in order.
    /// The application must be built.
    pub fn run(&mut self, events: &Vec<Event>) -> (actions: Vec<Action>)
        requires
            old(self).is_built(),
        ensures
            actions@ == old(self).scheduler().run(events@).1,
            *final(self) == old(self).with_scheduler(old(self).scheduler().run(events@).0),
    {
        match &mut self.vulkan_resources {
            Some(resources) => resources.render_system.scheduler.handle_all(events),
            None => Vec::new(),
        }
    }
}

} // verus!

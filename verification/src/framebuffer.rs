//! The swapchain and what is sized by it: the G-buffer images and one framebuffer for each
//! swapchain image. All of them are replaced together when the window is resized.

use crate::render_pass::{deferred_render_pass, ImageFormat, RenderPassLayout, RenderPassView};
use vstd::prelude::*;

verus! {

/// The rectangle of the target that is drawn into. The depth range is always 0 to 1.
#[derive(Clone, Copy, Debug, PartialEq, Eq)]
pub struct Viewport {
    pub offset: [u32; 2],
    pub extent: [u32; 2],
}

/// What an image may be used for.
#[derive(Clone, Copy, Debug, PartialEq, Eq, Structural)]
pub struct ImageUsage {
    pub color_attachment: bool,
    pub depth_stencil_attachment: bool,
    pub input_attachment: bool,
    pub transient_attachment: bool,
}

/// A two-dimensional image to create.
#[derive(Clone, Copy, Debug, PartialEq, Eq)]
pub struct ImageDesc {
    pub extent: [u32; 2],
    pub format: ImageFormat,
    pub usage: ImageUsage,
}

/// The images that the geometry subpass fills, and the depth buffer.
#[derive(Clone, Copy, Debug, PartialEq, Eq)]
pub struct GBuffer {
    pub normal: ImageDesc,
    pub position: ImageDesc,
    pub color: ImageDesc,
    pub depth: ImageDesc,
}

/// An image that a framebuffer binds.
#[derive(Clone, Copy, Debug, PartialEq, Eq, Structural)]
pub enum AttachmentView {
    /// The swapchain image with this index.
    SwapchainImage { index: u32 },
    Normals,
    Positions,
    Color,
    Depth,
}

/// The render targets of one swapchain image: that image, and the shared G-buffer.
#[derive(Clone, Copy, Debug, PartialEq, Eq)]
pub struct Framebuffer {
    pub extent: [u32; 2],
    /// The index of the swapchain image.
    pub image_index: u32,
}

/// What came of asking the swapchain for its next image.
#[derive(Clone, Copy, Debug, PartialEq, Eq, Structural)]
pub enum AcquireOutcome {
    /// An image was acquired. `suboptimal`: it can be drawn and presented, but the swapchain
    /// no longer matches the surface exactly.
    Image { image_index: u32, suboptimal: bool },
    /// The swapchain is out of date and cannot be used.
    OutOfDate,
    /// No image was acquired, for any other reason.
    Failed,
}

/// What an acquisition means for the tick.
#[derive(Clone, Copy, Debug, PartialEq, Eq, Structural)]
pub enum Acquisition {
    /// Draw into the framebuffer of this image. `suboptimal`: rebuild before the next tick.
    Ready { image_index: u32, suboptimal: bool },
    /// Nothing can be drawn until the swapchain is rebuilt.
    Stale,
    /// Nothing can be drawn in this tick; the next tick tries again.
    Failed,
}

/// The swapchain's images by number and size, the render pass, and what is built for them.
#[derive(Clone, Debug, PartialEq, Eq)]
pub struct FramebufferData {
    pub image_extent: [u32; 2],
    pub image_count: u32,
    pub render_pass: RenderPassLayout,
    pub gbuffer: Option<GBuffer>,
    pub framebuffers: Option<Vec<Framebuffer>>,
}

/// An extent with a zero dimension: nothing can be drawn into it.
pub open spec fn extent_is_empty(extent: [u32; 2]) -> bool {
    extent[0] == 0 || extent[1] == 0
}

/// The usage of a G-buffer image: written as colour, then read as input, never stored.
pub open spec fn gbuffer_usage() -> ImageUsage {
    ImageUsage {
        color_attachment: true,
        depth_stencil_attachment: false,
        input_attachment: true,
        transient_attachment: true,
    }
}

/// The usage of the depth buffer.
pub open spec fn depth_usage() -> ImageUsage {
    ImageUsage {
        color_attachment: false,
        depth_stencil_attachment: true,
        input_attachment: false,
        transient_attachment: true,
    }
}

/// The G-buffer for a swapchain of size `extent`: every image has that size, and the
/// format of its attachment in the render pass.
pub open spec fn gbuffer_for(extent: [u32; 2]) -> GBuffer {
    GBuffer {
        normal: ImageDesc {
            extent,
            format: ImageFormat::R16G16B16A16Sfloat,
            usage: gbuffer_usage(),
        },
        position: ImageDesc {
            extent,
            format: ImageFormat::R32G32B32A32Sfloat,
            usage: gbuffer_usage(),
        },
        color: ImageDesc {
            extent,
            format: ImageFormat::A2B10G10R10UnormPack32,
            usage: gbuffer_usage(),
        },
        depth: ImageDesc { extent, format: ImageFormat::D16Unorm, usage: depth_usage() },
    }
}

/// What the framebuffer of swapchain image `index` binds, in the order of the render pass.
pub open spec fn framebuffer_attachments(index: u32) -> Seq<AttachmentView> {
    seq![
        AttachmentView::SwapchainImage { index },
        AttachmentView::Normals,
        AttachmentView::Positions,
        AttachmentView::Color,
        AttachmentView::Depth,
    ]
}

/// The framebuffers of `image_count` swapchain images of size `extent`, in the order of the
/// images.
pub open spec fn framebuffer_set(image_count: u32, extent: [u32; 2]) -> Seq<Framebuffer> {
    Seq::new(image_count as nat, |i: int| Framebuffer { extent, image_index: i as u32 })
}

/// The viewport, made to cover `extent`.
pub open spec fn covering(viewport: Viewport, extent: [u32; 2]) -> Viewport {
    Viewport { offset: viewport.offset, extent }
}

impl Framebuffer {
    /// What the framebuffer binds, in the order of the render pass's attachments.
    pub fn attachments(&self) -> (views: Vec<AttachmentView>)
        ensures
            views@ == framebuffer_attachments(self.image_index),
    {
        let mut views: Vec<AttachmentView> = Vec::new();
        views.push(AttachmentView::SwapchainImage { index: self.image_index });
        views.push(AttachmentView::Normals);
        views.push(AttachmentView::Positions);
        views.push(AttachmentView::Color);
        views.push(AttachmentView::Depth);
        assert(views@ =~= framebuffer_attachments(self.image_index));
        views
    }
}

/// Makes the viewport cover `extent`, and builds one framebuffer of that size for each of
/// `image_count` swapchain images.
pub fn resize_framebuffer(image_count: u32, extent: [u32; 2], viewport: &mut Viewport) -> (framebuffers:
    Vec<Framebuffer>)
    ensures
        *final(viewport) == covering(*old(viewport), extent),
        framebuffers@ == framebuffer_set(image_count, extent),
{
    viewport.extent = extent;
    let mut framebuffers: Vec<Framebuffer> = Vec::new();
    let mut index: u32 = 0;
    while index < image_count
        invariant
            index <= image_count,
            framebuffers@ == framebuffer_set(index, extent),
        decreases image_count - index,
    {
        framebuffers.push(Framebuffer { extent, image_index: index });
        index += 1;
        assert(framebuffers@ =~= framebuffer_set(index, extent));
    }
    framebuffers
}

/// The swapchain and what is built for it, as a mathematical value.
pub struct FramebufferView {
    pub image_extent: [u32; 2],
    pub image_count: u32,
    pub render_pass: RenderPassView,
    pub gbuffer: Option<GBuffer>,
    pub framebuffers: Option<Seq<Framebuffer>>,
}

impl View for FramebufferData {
    type V = FramebufferView;

    open spec fn view(&self) -> FramebufferView {
        FramebufferView {
            image_extent: self.image_extent,
            image_count: self.image_count,
            render_pass: self.render_pass@,
            gbuffer: self.gbuffer,
            framebuffers: match self.framebuffers {
                Some(framebuffers) => Some(framebuffers@),
                None => None,
            },
        }
    }
}

impl FramebufferView {
    /// What is built matches the swapchain: the G-buffer images have the size of the
    /// swapchain's images, and there is one framebuffer for each swapchain image, of that
    /// size too.
    pub open spec fn wf(self) -> bool {
        &&& self.render_pass == deferred_render_pass()
        &&& self.gbuffer is Some <==> self.framebuffers is Some
        &&& self.gbuffer matches Some(gbuffer) ==> gbuffer == gbuffer_for(self.image_extent)
        &&& self.framebuffers matches Some(framebuffers) ==> framebuffers == framebuffer_set(
            self.image_count,
            self.image_extent,
        )
    }

    /// The number of framebuffers that are built.
    pub open spec fn framebuffer_count(self) -> nat {
        match self.framebuffers {
            Some(framebuffers) => framebuffers.len(),
            None => 0,
        }
    }

    /// Whether a framebuffer is built for swapchain image `image_index`.
    pub open spec fn has_framebuffer(self, image_index: u32) -> bool {
        image_index < self.framebuffer_count()
    }

    /// The state for a swapchain of `image_count` images of size `image_extent`, with
    /// nothing built for it.
    pub open spec fn unbuilt(image_extent: [u32; 2], image_count: u32) -> FramebufferView {
        FramebufferView {
            image_extent,
            image_count,
            render_pass: deferred_render_pass(),
            gbuffer: None,
            framebuffers: None,
        }
    }

    /// The state after the swapchain was created anew with `image_count` images of size
    /// `image_extent`, and everything that is sized by it was rebuilt with it: the G-buffer
    /// images have the new size, and there is one framebuffer of the new size for each of
    /// the new images. The render pass stays.
    pub open spec fn recreate_swapchain(self, image_extent: [u32; 2], image_count: u32) -> FramebufferView {
        FramebufferView {
            image_extent,
            image_count,
            gbuffer: Some(gbuffer_for(image_extent)),
            framebuffers: Some(framebuffer_set(image_count, image_extent)),
            ..self
        }
    }

    /// The state after the G-buffer and the framebuffers were built for the swapchain.
    pub open spec fn update_sizes(self) -> FramebufferView {
        FramebufferView {
            gbuffer: Some(gbuffer_for(self.image_extent)),
            framebuffers: Some(framebuffer_set(self.image_count, self.image_extent)),
            ..self
        }
    }

    /// What an acquisition means: an image that has a framebuffer is ready to be drawn into,
    /// suboptimal or not; an out-of-date swapchain is stale, and so is an image for which
    /// no framebuffer is built; any other failure only costs the tick.
    pub open spec fn acquisition(self, outcome: AcquireOutcome) -> Acquisition {
        match outcome {
            AcquireOutcome::Image { image_index, suboptimal } => if self.has_framebuffer(image_index) {
                Acquisition::Ready { image_index, suboptimal }
            } else {
                Acquisition::Stale
            },
            AcquireOutcome::OutOfDate => Acquisition::Stale,
            AcquireOutcome::Failed => Acquisition::Failed,
        }
    }
}

impl FramebufferData {
    /// The state for a swapchain of `image_count` images of size `image_extent`. Nothing is
    /// built for it yet.
    pub fn new(image_extent: [u32; 2], image_count: u32) -> (data: FramebufferData)
        ensures
            data@ == FramebufferView::unbuilt(image_extent, image_count),
            data@.wf(),
    {
        FramebufferData {
            image_extent,
            image_count,
            render_pass: RenderPassLayout::deferred(),
            gbuffer: None,
            framebuffers: None,
        }
    }

    /// The size of the swapchain's images.
    pub fn extent(&self) -> (extent: [u32; 2])
        ensures
            extent == self@.image_extent,
    {
        self.image_extent
    }

    /// The framebuffer of swapchain image `index`. It must have been built.
    pub fn get_framebuffer(&self, index: usize) -> (framebuffer: Framebuffer)
        requires
            index < self@.framebuffer_count(),
        ensures
            framebuffer == self@.framebuffers->0[index as int],
    {
        match &self.framebuffers {
            Some(framebuffers) => framebuffers[index],
            None => Framebuffer { extent: self.image_extent, image_index: 0 },
        }
    }

    /// Takes over a swapchain that was created anew with `image_count` images of size
    /// `image_extent`, which has no zero dimension, and rebuilds with it all that is sized
    /// by it: the G-buffer, the framebuffers, one for each image, and the viewport, which
    /// covers the new extent. What was built for the old swapchain is replaced.
    pub fn recreate_swapchain(
        &mut self,
        image_extent: [u32; 2],
        image_count: u32,
        viewport: &mut Viewport,
    )
        requires
            !extent_is_empty(image_extent),
        ensures
            final(self)@ == old(self)@.recreate_swapchain(image_extent, image_count),
            *final(viewport) == covering(*old(viewport), image_extent),
    {
        self.image_extent = image_extent;
        self.image_count = image_count;
        self.update_sizes(viewport);
    }

    /// Builds the G-buffer and the framebuffers for the swapchain as it is now, and makes
    /// the viewport cover its images.
    pub fn update_sizes(&mut self, viewport: &mut Viewport)
        ensures
            final(self)@ == old(self)@.update_sizes(),
            *final(viewport) == covering(*old(viewport), old(self)@.image_extent),
    {
        let extent = self.image_extent;
        let usage = ImageUsage {
            color_attachment: true,
            depth_stencil_attachment: false,
            input_attachment: true,
            transient_attachment: true,
        };
        let depth_usage = ImageUsage {
            color_attachment: false,
            depth_stencil_attachment: true,
            input_attachment: false,
            transient_attachment: true,
        };
        self.gbuffer = Some(
            GBuffer {
                normal: ImageDesc { extent, format: ImageFormat::R16G16B16A16Sfloat, usage },
                position: ImageDesc { extent, format: ImageFormat::R32G32B32A32Sfloat, usage },
                color: ImageDesc { extent, format: ImageFormat::A2B10G10R10UnormPack32, usage },
                depth: ImageDesc { extent, format: ImageFormat::D16Unorm, usage: depth_usage },
            },
        );
        self.framebuffers = Some(resize_framebuffer(self.image_count, extent, viewport));
    }

    /// Reads what came of asking the swapchain for its next image.
    pub fn acquire_next_image(&self, outcome: AcquireOutcome) -> (acquisition: Acquisition)
        ensures
            acquisition == self@.acquisition(outcome),
    {
        match outcome {
            AcquireOutcome::Image { image_index, suboptimal } => {
                let built = match &self.framebuffers {
                    Some(framebuffers) => (image_index as usize) < framebuffers.len(),
                    None => false,
                };
                if built {
                    Acquisition::Ready { image_index, suboptimal }
                } else {
                    Acquisition::Stale
                }
            },
            AcquireOutcome::OutOfDate => Acquisition::Stale,
            AcquireOutcome::Failed => Acquisition::Failed,
        }
    }
}

/// Recreating the swapchain and updating the sizes give a well-formed state, and
/// recreating is taking over the new swapchain and updating the sizes for it.
pub proof fn rebuild_keeps_well_formed(before: FramebufferView, extent: [u32; 2], image_count: u32)
    requires
        before.render_pass == deferred_render_pass(),
    ensures
        before.recreate_swapchain(extent, image_count).wf(),
        before.update_sizes().wf(),
        before.recreate_swapchain(extent, image_count) == (FramebufferView {
            image_extent: extent,
            image_count,
            ..before
        }).update_sizes(),
{
}

/// In a well-formed state the framebuffers stand in the order of the swapchain's images:
/// the framebuffer with the index of an image is the one of that image, at the size of the
/// swapchain's images.
pub proof fn framebuffers_follow_the_images(state: FramebufferView, image_index: u32)
    requires
        state.wf(),
        state.has_framebuffer(image_index),
    ensures
        image_index < state.image_count,
        state.framebuffers->0[image_index as int] == (Framebuffer {
            extent: state.image_extent,
            image_index,
        }),
{
}

/// After a resize to an extent without a zero dimension, that is after the swapchain was
/// recreated, there is one framebuffer for each swapchain image, in the order of the
/// images, every framebuffer and every G-buffer image has the new extent, and the viewport
/// covers the new extent. This holds whatever was built before.
pub proof fn resize_rebuilds_for_the_new_extent(
    before: FramebufferView,
    viewport: Viewport,
    extent: [u32; 2],
    image_count: u32,
)
    requires
        !extent_is_empty(extent),
    ensures
        ({
            let after = before.recreate_swapchain(extent, image_count);
            &&& after.image_extent == extent
            &&& after.framebuffers is Some
            &&& after.framebuffer_count() == after.image_count == image_count
            &&& covering(viewport, extent).extent == extent
            &&& forall|i: int|
                0 <= i < image_count ==> {
                    &&& (#[trigger] after.framebuffers->0[i]).extent == extent
                    &&& after.framebuffers->0[i].image_index == i
                    &&& after.has_framebuffer(i as u32)
                }
            &&& after.gbuffer is Some
            &&& after.gbuffer->0.normal.extent == extent
            &&& after.gbuffer->0.position.extent == extent
            &&& after.gbuffer->0.color.extent == extent
            &&& after.gbuffer->0.depth.extent == extent
            &&& after.render_pass == before.render_pass
        }),
{
}

} // verus!

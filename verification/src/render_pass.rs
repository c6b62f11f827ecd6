//! The render pass of deferred shading: five attachments shared by two subpasses. The
//! geometry subpass writes the G-buffers; the mix subpass reads them and writes the image
//! that is presented.

use vstd::prelude::*;

verus! {

/// The pixel format of an attachment.
#[derive(Clone, Copy, Debug, PartialEq, Eq, Structural)]
pub enum ImageFormat {
    /// The format of the swapchain's own images, whatever the surface offers.
    Swapchain,
    R16G16B16A16Sfloat,
    R32G32B32A32Sfloat,
    A2B10G10R10UnormPack32,
    D16Unorm,
}

/// What happens to an attachment's content when the render pass begins.
#[derive(Clone, Copy, Debug, PartialEq, Eq, Structural)]
pub enum LoadOp {
    Clear,
    Load,
    DontCare,
}

/// What happens to an attachment's content when the render pass ends.
#[derive(Clone, Copy, Debug, PartialEq, Eq, Structural)]
pub enum StoreOp {
    Store,
    DontCare,
}

/// One attachment of a render pass.
#[derive(Clone, Copy, Debug, PartialEq, Eq, Structural)]
pub struct AttachmentDesc {
    pub format: ImageFormat,
    pub samples: u32,
    pub load_op: LoadOp,
    pub store_op: StoreOp,
}

/// One subpass: the attachments it writes as colour, the one it uses for depth, and those
/// it reads as input, each by its index in the render pass.
#[derive(Clone, Debug, PartialEq, Eq)]
pub struct SubpassDesc {
    pub color: Vec<u32>,
    pub depth_stencil: Option<u32>,
    pub input: Vec<u32>,
}

/// A render pass: its attachments, and its subpasses in order.
#[derive(Clone, Debug, PartialEq, Eq)]
pub struct RenderPassLayout {
    pub attachments: Vec<AttachmentDesc>,
    pub subpasses: Vec<SubpassDesc>,
}

/// The index of the attachment that is presented.
pub const FINAL_COLOR: u32 = 0;

/// The index of the G-buffer of surface normals.
pub const NORMALS: u32 = 1;

/// The index of the G-buffer of positions.
pub const POSITIONS: u32 = 2;

/// The index of the G-buffer of surface colour (albedo).
pub const COLOR: u32 = 3;

/// The index of the depth attachment.
pub const DEPTH: u32 = 4;

/// The index of the geometry subpass.
pub const GEOMETRY_SUBPASS: u32 = 0;

/// The index of the mix subpass.
pub const MIX_SUBPASS: u32 = 1;

/// A subpass as a mathematical value.
pub struct SubpassView {
    pub color: Seq<u32>,
    pub depth_stencil: Option<u32>,
    pub input: Seq<u32>,
}

/// A render pass as a mathematical value.
pub struct RenderPassView {
    pub attachments: Seq<AttachmentDesc>,
    pub subpasses: Seq<SubpassView>,
}

impl View for SubpassDesc {
    type V = SubpassView;

    open spec fn view(&self) -> SubpassView {
        SubpassView { color: self.color@, depth_stencil: self.depth_stencil, input: self.input@ }
    }
}

impl View for RenderPassLayout {
    type V = RenderPassView;

    open spec fn view(&self) -> RenderPassView {
        RenderPassView {
            attachments: self.attachments@,
            subpasses: Seq::new(self.subpasses@.len(), |i: int| self.subpasses@[i]@),
        }
    }
}

/// The format holds depth, not colour.
pub open spec fn is_depth_format(format: ImageFormat) -> bool {
    format == ImageFormat::D16Unorm
}

impl ImageFormat {
    /// Whether the format holds depth, not colour.
    pub fn is_depth(&self) -> (depth: bool)
        ensures
            depth == is_depth_format(*self),
    {
        match self {
            ImageFormat::D16Unorm => true,
            _ => false,
        }
    }
}

impl SubpassView {
    /// The subpass writes `attachment`, as colour or as depth.
    pub open spec fn writes(self, attachment: u32) -> bool {
        self.color.contains(attachment) || self.depth_stencil == Some(attachment)
    }
}

impl RenderPassView {
    /// Whether subpass `k` only names attachments that exist, writes colour to colour
    /// formats and depth to a depth format, reads nothing that it writes itself, and reads
    /// only what an earlier subpass has written.
    pub open spec fn subpass_wf(self, k: int) -> bool {
        let subpass = self.subpasses[k];
        &&& subpass.color.len() <= u32::MAX
        &&& forall|i: int|
            0 <= i < subpass.color.len() ==> {
                &&& (#[trigger] subpass.color[i]) < self.attachments.len()
                &&& !is_depth_format(self.attachments[subpass.color[i] as int].format)
            }
        &&& subpass.depth_stencil matches Some(depth) ==> {
            &&& depth < self.attachments.len()
            &&& is_depth_format(self.attachments[depth as int].format)
        }
        &&& forall|i: int|
            0 <= i < subpass.input.len() ==> {
                &&& (#[trigger] subpass.input[i]) < self.attachments.len()
                &&& !subpass.writes(subpass.input[i])
                &&& exists|j: int| 0 <= j < k && (#[trigger] self.subpasses[j]).writes(subpass.input[i])
            }
    }

    /// Every subpass is well formed.
    pub open spec fn wf(self) -> bool {
        forall|k: int| 0 <= k < self.subpasses.len() ==> self.subpass_wf(k)
    }
}

/// The attachments of deferred shading, in the order of their indices.
pub open spec fn deferred_attachments() -> Seq<AttachmentDesc> {
    seq![
        AttachmentDesc {
            format: ImageFormat::Swapchain,
            samples: 1,
            load_op: LoadOp::Clear,
            store_op: StoreOp::Store,
        },
        AttachmentDesc {
            format: ImageFormat::R16G16B16A16Sfloat,
            samples: 1,
            load_op: LoadOp::Clear,
            store_op: StoreOp::DontCare,
        },
        AttachmentDesc {
            format: ImageFormat::R32G32B32A32Sfloat,
            samples: 1,
            load_op: LoadOp::Clear,
            store_op: StoreOp::DontCare,
        },
        AttachmentDesc {
            format: ImageFormat::A2B10G10R10UnormPack32,
            samples: 1,
            load_op: LoadOp::Clear,
            store_op: StoreOp::DontCare,
        },
        AttachmentDesc {
            format: ImageFormat::D16Unorm,
            samples: 1,
            load_op: LoadOp::Clear,
            store_op: StoreOp::DontCare,
        },
    ]
}

/// The geometry subpass: it writes normals, positions and colour, tests depth, reads nothing.
pub open spec fn geometry_subpass() -> SubpassView {
    SubpassView {
        color: seq![NORMALS, POSITIONS, COLOR],
        depth_stencil: Some(DEPTH),
        input: Seq::empty(),
    }
}

/// The mix subpass: it reads normals, positions and colour, and writes the final colour
/// without a depth test.
pub open spec fn mix_subpass() -> SubpassView {
    SubpassView {
        color: seq![FINAL_COLOR],
        depth_stencil: None,
        input: seq![NORMALS, POSITIONS, COLOR],
    }
}

/// The render pass of deferred shading.
pub open spec fn deferred_render_pass() -> RenderPassView {
    RenderPassView {
        attachments: deferred_attachments(),
        subpasses: seq![geometry_subpass(), mix_subpass()],
    }
}

/// The render pass of deferred shading is well formed, and what the mix subpass reads is
/// exactly what the geometry subpass writes as colour.
pub proof fn deferred_render_pass_is_well_formed()
    ensures
        deferred_render_pass().wf(),
        deferred_render_pass().subpasses[1].input == deferred_render_pass().subpasses[0].color,
{
    let pass = deferred_render_pass();
    let geometry = pass.subpasses[0];
    let mix = pass.subpasses[1];
    assert(pass.subpass_wf(0));
    assert(geometry.color[0] == NORMALS && geometry.color[1] == POSITIONS && geometry.color[2]
        == COLOR);
    assert(pass.subpass_wf(1)) by {
        assert forall|i: int| 0 <= i < mix.input.len() implies {
            &&& (#[trigger] mix.input[i]) < pass.attachments.len()
            &&& !mix.writes(mix.input[i])
            &&& exists|j: int| 0 <= j < 1 && (#[trigger] pass.subpasses[j]).writes(mix.input[i])
        } by {
            assert(geometry.color[i] == mix.input[i]);
            assert(pass.subpasses[0].writes(mix.input[i]));
        }
    }
}

impl RenderPassLayout {
    /// The render pass of deferred shading, built.
    pub fn deferred() -> (layout: RenderPassLayout)
        ensures
            layout@ == deferred_render_pass(),
    {
        let mut attachments: Vec<AttachmentDesc> = Vec::new();
        attachments.push(
            AttachmentDesc {
                format: ImageFormat::Swapchain,
                samples: 1,
                load_op: LoadOp::Clear,
                store_op: StoreOp::Store,
            },
        );
        attachments.push(
            AttachmentDesc {
                format: ImageFormat::R16G16B16A16Sfloat,
                samples: 1,
                load_op: LoadOp::Clear,
                store_op: StoreOp::DontCare,
            },
        );
        attachments.push(
            AttachmentDesc {
                format: ImageFormat::R32G32B32A32Sfloat,
                samples: 1,
                load_op: LoadOp::Clear,
                store_op: StoreOp::DontCare,
            },
        );
        attachments.push(
            AttachmentDesc {
                format: ImageFormat::A2B10G10R10UnormPack32,
                samples: 1,
                load_op: LoadOp::Clear,
                store_op: StoreOp::DontCare,
            },
        );
        attachments.push(
            AttachmentDesc {
                format: ImageFormat::D16Unorm,
                samples: 1,
                load_op: LoadOp::Clear,
                store_op: StoreOp::DontCare,
            },
        );
        let mut written: Vec<u32> = Vec::new();
        written.push(NORMALS);
        written.push(POSITIONS);
        written.push(COLOR);
        let mut read: Vec<u32> = Vec::new();
        read.push(NORMALS);
        read.push(POSITIONS);
        read.push(COLOR);
        let mut presented: Vec<u32> = Vec::new();
        presented.push(FINAL_COLOR);
        let geometry = SubpassDesc { color: written, depth_stencil: Some(DEPTH), input: Vec::new() };
        let mix = SubpassDesc { color: presented, depth_stencil: None, input: read };
        assert(geometry@.color =~= geometry_subpass().color);
        assert(geometry@.input =~= geometry_subpass().input);
        assert(mix@.color =~= mix_subpass().color);
        assert(mix@.input =~= mix_subpass().input);
        let mut subpasses: Vec<SubpassDesc> = Vec::new();
        subpasses.push(geometry);
        subpasses.push(mix);
        let layout = RenderPassLayout { attachments, subpasses };
        assert(layout@.attachments =~= deferred_attachments());
        assert(layout@.subpasses =~= deferred_render_pass().subpasses);
        layout
    }

    /// The number of colour attachments that subpass `subpass` writes.
    pub fn num_color_attachments(&self, subpass: u32) -> (count: u32)
        requires
            subpass < self@.subpasses.len(),
            self@.subpasses[subpass as int].color.len() <= u32::MAX,
        ensures
            count == self@.subpasses[subpass as int].color.len(),
    {
        self.subpasses[subpass as usize].color.len() as u32
    }
}

} // verus!

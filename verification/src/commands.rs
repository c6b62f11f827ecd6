//! The commands of a frame, as plain values, and the rules that a recorded frame obeys.

use crate::framebuffer::Viewport;
use crate::render_pass::{is_depth_format, AttachmentDesc, RenderPassLayout};
use vstd::prelude::*;

verus! {

/// One of the two graphics pipelines.
#[derive(Clone, Copy, Debug, PartialEq, Eq, Structural)]
pub enum PipelineKind {
    /// Writes the G-buffers, in the first subpass.
    Geometry,
    /// Reads the G-buffers and writes the final colour, in the second subpass.
    Mix,
}

/// The values that the attachments are cleared to when the render pass begins: every colour
/// attachment to `color` (red, green, blue, alpha), the depth attachment to `depth`. Each
/// number is given as the IEEE 754 bits of a single-precision number.
#[derive(Clone, Copy, Debug, PartialEq, Eq)]
pub struct ClearValues {
    pub color: [u32; 4],
    pub depth: u32,
}

/// The value that one attachment is cleared to.
#[derive(Clone, Copy, Debug, PartialEq, Eq)]
pub enum ClearValue {
    /// Red, green, blue and alpha, for a colour attachment.
    Color([u32; 4]),
    Depth(u32),
}

/// What a descriptor set binds.
#[derive(Clone, Copy, Debug, PartialEq, Eq, Structural)]
pub enum DescriptorBinding {
    /// The uniform data in this slot of the uniform arena.
    Uniforms { slot: usize },
    /// The three G-buffer images, as input attachments.
    GBuffer,
}

/// One command of a command buffer.
#[derive(Clone, Copy, Debug, PartialEq, Eq)]
pub enum Command {
    BeginRenderPass { framebuffer: u32, clear_values: ClearValues },
    SetViewport { viewport: Viewport },
    BindPipelineGraphics { pipeline: PipelineKind },
    BindDescriptorSets { pipeline: PipelineKind, first_set: u32, set: DescriptorBinding },
    BindVertexBuffers { first_binding: u32, buffer: u64 },
    BindIndexBuffer { buffer: u64 },
    Draw { vertex_count: u32, instance_count: u32, first_vertex: u32, first_instance: u32 },
    DrawIndexed {
        index_count: u32,
        instance_count: u32,
        first_index: u32,
        vertex_offset: i32,
        first_instance: u32,
    },
    NextSubpass,
    EndRenderPass,
}

/// The commands of one frame, in the order in which they were recorded.
#[derive(Clone, Debug, PartialEq, Eq)]
pub struct CommandBuffer {
    pub commands: Vec<Command>,
}

impl View for CommandBuffer {
    type V = Seq<Command>;

    open spec fn view(&self) -> Seq<Command> {
        self.commands@
    }
}

/// The value that each of `attachments` is cleared to, in their order: the depth for an
/// attachment of a depth format, the colour for every other.
pub open spec fn attachment_clear_values(attachments: Seq<AttachmentDesc>, values: ClearValues) -> Seq<
    ClearValue,
> {
    Seq::new(
        attachments.len(),
        |i: int|
            if is_depth_format(attachments[i].format) {
                ClearValue::Depth(values.depth)
            } else {
                ClearValue::Color(values.color)
            },
    )
}

impl ClearValues {
    /// The value that each attachment of `render_pass` is cleared to, in the order of the
    /// attachments.
    pub fn for_attachments(&self, render_pass: &RenderPassLayout) -> (cleared: Vec<ClearValue>)
        ensures
            cleared@ == attachment_clear_values(render_pass@.attachments, *self),
    {
        let mut cleared: Vec<ClearValue> = Vec::new();
        let mut i: usize = 0;
        while i < render_pass.attachments.len()
            invariant
                i <= render_pass.attachments@.len(),
                cleared@ == attachment_clear_values(render_pass@.attachments, *self).take(i as int),
            decreases render_pass.attachments@.len() - i,
        {
            let value = if render_pass.attachments[i].format.is_depth() {
                ClearValue::Depth(self.depth)
            } else {
                ClearValue::Color(self.color)
            };
            cleared.push(value);
            proof {
                let all = attachment_clear_values(render_pass@.attachments, *self);
                assert(all.take(i + 1) =~= all.take(i as int).push(all[i as int]));
            }
            i += 1;
        }
        proof {
            let all = attachment_clear_values(render_pass@.attachments, *self);
            assert(all.take(i as int) =~= all);
        }
        cleared
    }
}

impl CommandBuffer {
    /// A command buffer without commands.
    pub fn new() -> (buffer: CommandBuffer)
        ensures
            buffer@ == Seq::<Command>::empty(),
    {
        CommandBuffer { commands: Vec::new() }
    }

    /// Records `command` behind the others.
    pub fn push(&mut self, command: Command)
        ensures
            final(self)@ == old(self)@.push(command),
    {
        self.commands.push(command);
    }

    /// The number of commands.
    pub fn len(&self) -> (len: usize)
        ensures
            len == self@.len(),
    {
        self.commands.len()
    }
}

/// The command draws.
pub open spec fn is_draw(command: Command) -> bool {
    command is Draw || command is DrawIndexed
}

/// The number of vertices of the quad that the mix pass draws over the whole target.
pub const QUAD_VERTICES: u32 = 6;

/// The draw of the mix pass: six vertices that the vertex stage makes up, one instance.
pub open spec fn quad_draw() -> Command {
    Command::Draw { vertex_count: QUAD_VERTICES, instance_count: 1, first_vertex: 0, first_instance: 0 }
}

/// How far a recording has come, and what it has drawn.
pub struct Recording {
    /// The render pass has begun.
    pub begun: bool,
    /// The render pass has ended.
    pub ended: bool,
    /// The index of the current subpass.
    pub subpass: nat,
    /// The viewport, which the pipelines leave open, has been set.
    pub viewport_set: bool,
    /// The pipeline that is bound in the current subpass.
    pub pipeline: Option<PipelineKind>,
    pub vertex_buffer_bound: bool,
    pub index_buffer_bound: bool,
    /// The G-buffer images are bound as inputs.
    pub gbuffer_bound: bool,
    /// The number of draws in the geometry subpass.
    pub geometry_draws: nat,
    /// The draws in the mix subpass.
    pub mix_draws: Seq<Command>,
}

impl Recording {
    /// Before the first command.
    pub open spec fn start() -> Recording {
        Recording {
            begun: false,
            ended: false,
            subpass: 0,
            viewport_set: false,
            pipeline: None,
            vertex_buffer_bound: false,
            index_buffer_bound: false,
            gbuffer_bound: false,
            geometry_draws: 0,
            mix_draws: Seq::empty(),
        }
    }

    /// The render pass is open: begun and not yet ended.
    pub open spec fn open(self) -> bool {
        self.begun && !self.ended
    }

    /// A draw can be recorded: a pipeline is bound and the viewport is set; the geometry
    /// pipeline has a vertex buffer, the mix pipeline has the G-buffer for its input.
    pub open spec fn can_draw(self) -> bool {
        &&& self.open()
        &&& self.viewport_set
        &&& match self.pipeline {
            Some(PipelineKind::Geometry) => self.vertex_buffer_bound,
            Some(PipelineKind::Mix) => self.gbuffer_bound,
            None => false,
        }
    }

    /// The recording with one more draw counted, in the current subpass.
    pub open spec fn drawn(self, command: Command) -> Recording {
        if self.subpass == 0 {
            Recording { geometry_draws: self.geometry_draws + 1, ..self }
        } else {
            Recording { mix_draws: self.mix_draws.push(command), ..self }
        }
    }

    /// The recording after `command`, or `None` where the command may not follow.
    pub open spec fn step(self, command: Command) -> Option<Recording> {
        match command {
            Command::BeginRenderPass { .. } => if !self.begun {
                Some(Recording { begun: true, ..self })
            } else {
                None
            },
            Command::SetViewport { .. } => if self.open() {
                Some(Recording { viewport_set: true, ..self })
            } else {
                None
            },
            Command::BindPipelineGraphics { pipeline } => if self.open() && self.subpass == (match pipeline {
                PipelineKind::Geometry => 0nat,
                PipelineKind::Mix => 1nat,
            }) {
                Some(Recording { pipeline: Some(pipeline), ..self })
            } else {
                None
            },
            Command::BindDescriptorSets { pipeline, first_set, set } => if self.open()
                && self.pipeline == Some(pipeline) {
                match (pipeline, set) {
                    (PipelineKind::Geometry, DescriptorBinding::Uniforms { .. }) => Some(self),
                    (PipelineKind::Mix, DescriptorBinding::GBuffer) => Some(
                        Recording { gbuffer_bound: true, ..self },
                    ),
                    _ => None,
                }
            } else {
                None
            },
            Command::BindVertexBuffers { .. } => if self.open() {
                Some(Recording { vertex_buffer_bound: true, ..self })
            } else {
                None
            },
            Command::BindIndexBuffer { .. } => if self.open() {
                Some(Recording { index_buffer_bound: true, ..self })
            } else {
                None
            },
            Command::Draw { .. } => if self.can_draw() {
                Some(self.drawn(command))
            } else {
                None
            },
            Command::DrawIndexed { .. } => if self.can_draw() && self.index_buffer_bound {
                Some(self.drawn(command))
            } else {
                None
            },
            Command::NextSubpass => if self.open() && self.subpass == 0 {
                Some(Recording { subpass: 1, pipeline: None, ..self })
            } else {
                None
            },
            Command::EndRenderPass => if self.open() && self.subpass == 1 {
                Some(Recording { ended: true, ..self })
            } else {
                None
            },
        }
    }

    /// The recording after `commands`, or `None` where one of them may not follow.
    pub open spec fn run(self, commands: Seq<Command>) -> Option<Recording>
        decreases commands.len(),
    {
        if commands.len() == 0 {
            Some(self)
        } else {
            match self.step(commands[0]) {
                Some(next) => next.run(commands.drop_first()),
                None => None,
            }
        }
    }
}

/// `commands` are a whole frame: from the first command on each may follow the one before,
/// and the render pass has ended, after its second subpass.
pub open spec fn is_valid_frame(commands: Seq<Command>) -> bool {
    Recording::start().run(commands) matches Some(end) && end.ended
}

/// Running two runs of commands one after the other is running them as one.
pub proof fn run_concat(start: Recording, first: Seq<Command>, second: Seq<Command>)
    ensures
        start.run(first + second) == match start.run(first) {
            Some(middle) => middle.run(second),
            None => None,
        },
    decreases first.len(),
{
    if first.len() == 0 {
        assert(first + second =~= second);
    } else {
        assert((first + second)[0] == first[0]);
        assert((first + second).drop_first() =~= first.drop_first() + second);
        match start.step(first[0]) {
            Some(next) => run_concat(next, first.drop_first(), second),
            None => {},
        }
    }
}

} // verus!

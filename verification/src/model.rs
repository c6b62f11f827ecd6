//! A renderable: its geometry, its transform, and the GPU buffers that it has once it is
//! built.

use crate::commands::{is_draw, Command, CommandBuffer, DescriptorBinding, PipelineKind};
use crate::uniform::{identity, identity_matrix, Matrix};
use vstd::prelude::*;

verus! {

/// One vertex: a position, and a normal or a colour. Each number is given as the IEEE 754
/// bits of a single-precision number.
#[derive(Clone, Copy, Debug, PartialEq, Eq)]
pub struct VertexData {
    pub position: [u32; 3],
    pub normal: [u32; 3],
}

/// The GPU buffers that were allocated for a model, each by the handle under which the
/// caller keeps it.
#[derive(Clone, Copy, Debug, PartialEq, Eq, Structural)]
pub struct ModelBuffers {
    pub vertex_buffer: u64,
    /// The index buffer, for a model that has indices.
    pub index_buffer: Option<u64>,
    /// The buffer that the uniform data of each frame is allocated from.
    pub matrix_buffer: u64,
}

/// The buffers that a model needs: one for this many vertices, one that the uniform data
/// of each frame is allocated from, and, for a model that has indices, one for this many
/// indices.
#[derive(Clone, Copy, Debug, PartialEq, Eq, Structural)]
pub struct BufferRequest {
    pub vertex_count: u32,
    pub index_count: Option<u32>,
}

/// Why a model has no GPU buffers.
#[derive(Clone, Copy, Debug, PartialEq, Eq, Structural)]
pub enum BufferAllocationError {
    /// The device could not allocate a buffer.
    Device,
    /// The model has no vertices, so there is nothing to put into a vertex buffer.
    NoVertices,
    /// The model has more vertices or indices than one draw can count.
    GeometryTooLarge,
    /// The model has indices, but no index buffer was allocated for them.
    MissingIndexBuffer,
}

/// The descriptor set of a model for one frame: it binds the uniform data in a slot of the
/// uniform arena.
#[derive(Clone, Copy, Debug, PartialEq, Eq, Structural)]
pub struct DescriptorSet {
    pub uniform_slot: usize,
}

/// Whether a model has its GPU buffers.
#[derive(Clone, Copy, Debug, PartialEq, Eq, Structural)]
pub enum GpuState {
    /// Only the geometry in memory exists.
    Unbuilt,
    /// The buffers exist, and hold this many vertices and indices.
    Built { buffers: ModelBuffers, vertex_count: u32, index_count: u32 },
}

/// A renderable.
#[derive(Clone, Debug, PartialEq, Eq)]
pub struct Model {
    pub vertices: Vec<VertexData>,
    /// The indices of the vertices to draw, in order. Empty: the vertices are drawn as they
    /// stand.
    pub indices: Vec<u32>,
    pub gpu: GpuState,
    /// The transform from the model's space to the world's.
    pub transform: Matrix,
    /// The descriptor set for the frame that is recorded next, once the scene was updated.
    pub descriptor_set: Option<DescriptorSet>,
}

/// A model as a mathematical value.
pub struct ModelView {
    pub vertices: Seq<VertexData>,
    pub indices: Seq<u32>,
    pub gpu: GpuState,
    pub transform: Matrix,
    pub descriptor_set: Option<DescriptorSet>,
}

impl View for Model {
    type V = ModelView;

    open spec fn view(&self) -> ModelView {
        ModelView {
            vertices: self.vertices@,
            indices: self.indices@,
            gpu: self.gpu,
            transform: self.transform,
            descriptor_set: self.descriptor_set,
        }
    }
}

/// The models of a scene as mathematical values.
pub open spec fn scene_view(scene: Seq<Model>) -> Seq<ModelView> {
    Seq::new(scene.len(), |i: int| scene[i]@)
}

impl ModelView {
    /// The model has its GPU buffers.
    pub open spec fn is_built(self) -> bool {
        self.gpu is Built
    }

    /// The buffers that the model needs, or why it cannot have any: a model without
    /// vertices has nothing to put into a vertex buffer, and one draw cannot count more
    /// vertices or indices than 32 bits hold.
    pub open spec fn buffer_request(self) -> Result<BufferRequest, BufferAllocationError> {
        if self.vertices.len() == 0 {
            Err(BufferAllocationError::NoVertices)
        } else if self.vertices.len() > u32::MAX || self.indices.len() > u32::MAX {
            Err(BufferAllocationError::GeometryTooLarge)
        } else {
            Ok(
                BufferRequest {
                    vertex_count: self.vertices.len() as u32,
                    index_count: if self.indices.len() > 0 {
                        Some(self.indices.len() as u32)
                    } else {
                        None
                    },
                },
            )
        }
    }

    /// Why the model cannot be built with what was allocated, if it cannot. A model that is
    /// built already needs nothing. Otherwise the geometry is looked at first, as
    /// `buffer_request` says. Then the allocation must have succeeded, and must hold an
    /// index buffer if the model has indices.
    pub open spec fn build_error(
        self,
        allocation: Result<ModelBuffers, BufferAllocationError>,
    ) -> Option<BufferAllocationError> {
        if self.is_built() {
            None
        } else {
            match (self.buffer_request(), allocation) {
                (Err(error), _) => Some(error),
                (Ok(_), Err(error)) => Some(error),
                (Ok(request), Ok(buffers)) => if request.index_count is Some
                    && buffers.index_buffer is None {
                    Some(BufferAllocationError::MissingIndexBuffer)
                } else {
                    None
                },
            }
        }
    }

    /// The model after it was built with what was allocated. It changes only if it was not
    /// built and nothing stands against it. The index buffer is kept only for a model that
    /// has indices.
    pub open spec fn build(self, allocation: Result<ModelBuffers, BufferAllocationError>) -> ModelView {
        match allocation {
            Ok(buffers) if !self.is_built() && self.build_error(allocation) is None => ModelView {
                gpu: GpuState::Built {
                    buffers: ModelBuffers {
                        index_buffer: if self.indices.len() > 0 {
                            buffers.index_buffer
                        } else {
                            None
                        },
                        ..buffers
                    },
                    vertex_count: self.vertices.len() as u32,
                    index_count: self.indices.len() as u32,
                },
                ..self
            },
            _ => self,
        }
    }

    /// What a built model's state says of its buffers is true of its geometry: the vertex
    /// buffer holds all its vertices, of which there is one at least, and it has an index
    /// buffer exactly if it has indices, which holds all of them. A model that is not built
    /// is well formed.
    pub open spec fn wf(self) -> bool {
        match self.gpu {
            GpuState::Built { buffers, vertex_count, index_count } => {
                &&& 1 <= self.vertices.len() == vertex_count
                &&& self.indices.len() == index_count
                &&& buffers.index_buffer is Some <==> self.indices.len() > 0
            },
            GpuState::Unbuilt => true,
        }
    }

    /// The commands that bind the model's descriptor set, if it has one.
    pub open spec fn descriptor_commands(self, pipeline: PipelineKind) -> Seq<Command> {
        match self.descriptor_set {
            Some(set) => seq![
                Command::BindDescriptorSets {
                    pipeline,
                    first_set: 0,
                    set: DescriptorBinding::Uniforms { slot: set.uniform_slot },
                },
            ],
            None => Seq::empty(),
        }
    }

    /// The commands that bind the model's buffers and draw it once: by its indices where it
    /// has an index buffer, else by its vertices.
    pub open spec fn buffer_commands(self) -> Seq<Command> {
        match self.gpu {
            GpuState::Built { buffers, vertex_count, index_count } => match buffers.index_buffer {
                Some(index_buffer) => seq![
                    Command::BindVertexBuffers { first_binding: 0, buffer: buffers.vertex_buffer },
                    Command::BindIndexBuffer { buffer: index_buffer },
                    Command::DrawIndexed {
                        index_count,
                        instance_count: 1,
                        first_index: 0,
                        vertex_offset: 0,
                        first_instance: 0,
                    },
                ],
                None => seq![
                    Command::BindVertexBuffers { first_binding: 0, buffer: buffers.vertex_buffer },
                    Command::Draw {
                        vertex_count,
                        instance_count: 1,
                        first_vertex: 0,
                        first_instance: 0,
                    },
                ],
            },
            GpuState::Unbuilt => Seq::empty(),
        }
    }

    /// The commands that draw the model: bind its descriptor set if it has one, bind its
    /// buffers, draw once. A model that is not built has none.
    pub open spec fn draw_commands(self, pipeline: PipelineKind) -> Seq<Command> {
        if self.is_built() {
            self.descriptor_commands(pipeline) + self.buffer_commands()
        } else {
            Seq::empty()
        }
    }
}

impl Model {
    /// A model with this geometry. It is not built, it has the identity for its transform
    /// and no descriptor set.
    pub fn new(vertices: Vec<VertexData>, indices: Vec<u32>) -> (model: Model)
        ensures
            model@.vertices == vertices@,
            model@.indices == indices@,
            model@.gpu == GpuState::Unbuilt,
            model@.transform == identity_matrix(),
            model@.descriptor_set is None,
    {
        Model {
            vertices,
            indices,
            gpu: GpuState::Unbuilt,
            transform: identity(),
            descriptor_set: None,
        }
    }

    /// The buffers to allocate for the model, or why it cannot be built.
    pub fn buffer_request(&self) -> (request: Result<BufferRequest, BufferAllocationError>)
        ensures
            request == self@.buffer_request(),
    {
        if self.vertices.len() == 0 {
            Err(BufferAllocationError::NoVertices)
        } else if self.vertices.len() > u32::MAX as usize || self.indices.len() > u32::MAX as usize {
            Err(BufferAllocationError::GeometryTooLarge)
        } else {
            Ok(
                BufferRequest {
                    vertex_count: self.vertices.len() as u32,
                    index_count: if self.indices.len() > 0 {
                        Some(self.indices.len() as u32)
                    } else {
                        None
                    },
                },
            )
        }
    }

    /// Takes over the buffers that were allocated for the model as `buffer_request` asked,
    /// or the reason why there are none. The model is built by this once, and only if its
    /// geometry can be drawn and every buffer that it needs was allocated. A model that is
    /// not built is not drawn. A well-formed model stays well formed.
    pub fn build(&mut self, allocation: Result<ModelBuffers, BufferAllocationError>) -> (built: Result<
        (),
        BufferAllocationError,
    >)
        ensures
            final(self)@ == old(self)@.build(allocation),
            built == match old(self)@.build_error(allocation) {
                Some(error) => Err::<(), BufferAllocationError>(error),
                None => Ok(()),
            },
            old(self)@.wf() ==> final(self)@.wf(),
    {
        if self.is_built() {
            return Ok(());
        }
        let request = match self.buffer_request() {
            Ok(request) => request,
            Err(error) => {
                return Err(error);
            },
        };
        match allocation {
            Ok(buffers) => {
                let index_buffer = match request.index_count {
                    Some(_) => {
                        if buffers.index_buffer.is_none() {
                            return Err(BufferAllocationError::MissingIndexBuffer);
                        }
                        buffers.index_buffer
                    },
                    None => None,
                };
                self.gpu = GpuState::Built {
                    buffers: ModelBuffers {
                        vertex_buffer: buffers.vertex_buffer,
                        index_buffer,
                        matrix_buffer: buffers.matrix_buffer,
                    },
                    vertex_count: request.vertex_count,
                    index_count: self.indices.len() as u32,
                };
                Ok(())
            },
            Err(error) => Err(error),
        }
    }

    /// Whether the model has its GPU buffers.
    pub fn is_built(&self) -> (built: bool)
        ensures
            built == self@.is_built(),
    {
        match self.gpu {
            GpuState::Built { .. } => true,
            GpuState::Unbuilt => false,
        }
    }

    /// Records the commands that draw the model with `pipeline`. For a model that is not
    /// built nothing is recorded.
    pub fn draw(&self, cmd_buffer: &mut CommandBuffer, pipeline: PipelineKind)
        ensures
            final(cmd_buffer)@ == old(cmd_buffer)@ + self@.draw_commands(pipeline),
    {
        match self.gpu {
            GpuState::Built { buffers, vertex_count, index_count } => {
                match self.descriptor_set {
                    Some(set) => {
                        cmd_buffer.push(
                            Command::BindDescriptorSets {
                                pipeline,
                                first_set: 0,
                                set: DescriptorBinding::Uniforms { slot: set.uniform_slot },
                            },
                        );
                    },
                    None => {},
                }
                cmd_buffer.push(
                    Command::BindVertexBuffers { first_binding: 0, buffer: buffers.vertex_buffer },
                );
                match buffers.index_buffer {
                    Some(index_buffer) => {
                        cmd_buffer.push(Command::BindIndexBuffer { buffer: index_buffer });
                        cmd_buffer.push(
                            Command::DrawIndexed {
                                index_count,
                                instance_count: 1,
                                first_index: 0,
                                vertex_offset: 0,
                                first_instance: 0,
                            },
                        );
                    },
                    None => {
                        cmd_buffer.push(
                            Command::Draw {
                                vertex_count,
                                instance_count: 1,
                                first_vertex: 0,
                                first_instance: 0,
                            },
                        );
                    },
                }
                assert(cmd_buffer@ =~= old(cmd_buffer)@ + self@.draw_commands(pipeline));
            },
            GpuState::Unbuilt => {
                assert(cmd_buffer@ =~= old(cmd_buffer)@ + self@.draw_commands(pipeline));
            },
        }
    }
}

/// Building gives a well-formed model, and a model that is well formed stays so whatever is
/// handed to `build`.
pub proof fn build_keeps_well_formed(
    model: ModelView,
    allocation: Result<ModelBuffers, BufferAllocationError>,
)
    ensures
        !model.is_built() ==> model.build(allocation).wf(),
        model.wf() ==> model.build(allocation).wf(),
        model.build(allocation).is_built() <==> model.is_built() || model.build_error(allocation)
            is None,
{
}

/// A model that is not built records nothing when it is drawn.
pub proof fn unbuilt_model_draws_nothing(model: ModelView, pipeline: PipelineKind)
    requires
        !model.is_built(),
    ensures
        model.draw_commands(pipeline) == Seq::<Command>::empty(),
{
}

/// A built, well-formed model with indices is drawn by exactly one draw, an indexed draw
/// of all its indices, once, from the first index on; before it the vertex buffer is bound
/// at binding 0, and then the index buffer. Only the binding of its descriptor set, if it
/// has one, comes before these.
pub proof fn indexed_model_draws_its_indices(model: ModelView, pipeline: PipelineKind)
    requires
        model.wf(),
        model.is_built(),
        model.indices.len() >= 1,
    ensures
        model.gpu->buffers.index_buffer is Some,
        model.draw_commands(pipeline) == model.descriptor_commands(pipeline) + seq![
            Command::BindVertexBuffers {
                first_binding: 0,
                buffer: model.gpu->buffers.vertex_buffer,
            },
            Command::BindIndexBuffer { buffer: model.gpu->buffers.index_buffer->0 },
            Command::DrawIndexed {
                index_count: model.indices.len() as u32,
                instance_count: 1,
                first_index: 0,
                vertex_offset: 0,
                first_instance: 0,
            },
        ],
        model.descriptor_commands(pipeline).len() <= 1,
        forall|i: int|
            0 <= i < model.descriptor_commands(pipeline).len() ==> !is_draw(
                #[trigger] model.descriptor_commands(pipeline)[i],
            ),
{
}

/// A built, well-formed model without indices is drawn by exactly one draw of all its
/// vertices, once, from the first vertex on, after its vertex buffer is bound at binding 0.
pub proof fn plain_model_draws_its_vertices(model: ModelView, pipeline: PipelineKind)
    requires
        model.wf(),
        model.is_built(),
        model.indices.len() == 0,
    ensures
        model.draw_commands(pipeline) == model.descriptor_commands(pipeline) + seq![
            Command::BindVertexBuffers {
                first_binding: 0,
                buffer: model.gpu->buffers.vertex_buffer,
            },
            Command::Draw {
                vertex_count: model.vertices.len() as u32,
                instance_count: 1,
                first_vertex: 0,
                first_instance: 0,
            },
        ],
{
}

} // verus!

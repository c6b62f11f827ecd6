//! The two pipelines of deferred shading, and what is done with them in every frame: the
//! scene is updated, and the commands that draw it are recorded.

use crate::commands::{
    attachment_clear_values, is_valid_frame, quad_draw, run_concat, ClearValue, ClearValues,
    Command, CommandBuffer, DescriptorBinding, PipelineKind, Recording, QUAD_VERTICES,
};
use crate::frame_loop::{Event, FrameScheduler};
use crate::framebuffer::{FramebufferData, Viewport};
use crate::model::{DescriptorSet, Model, ModelView, scene_view};
use crate::render_pass::{RenderPassLayout, RenderPassView, deferred_render_pass, GEOMETRY_SUBPASS, MIX_SUBPASS};
use crate::uniform::{
    allocated, first_free, first_free_is_first, identity, identity_matrix, Matrix, UniformArena,
    UniformData, UniformEntry, ONE_BITS,
};
use vstd::prelude::*;

verus! {

/// Which faces are not drawn.
#[derive(Clone, Copy, Debug, PartialEq, Eq, Structural)]
pub enum CullMode {
    /// Every face is drawn.
    Disabled,
    Front,
    Back,
}

/// What a pipeline reads from vertex buffers.
#[derive(Clone, Copy, Debug, PartialEq, Eq, Structural)]
pub enum VertexInput {
    /// Nothing: the vertex stage makes the vertices up.
    Generated,
    /// One buffer of vertices, each a position and a normal.
    PositionNormal,
}

/// A graphics pipeline to create. Its layout follows from its shaders.
#[derive(Clone, Copy, Debug, PartialEq, Eq, Structural)]
pub struct PipelineConfig {
    /// Which pair of shaders it runs.
    pub kind: PipelineKind,
    /// The subpass that it is used in.
    pub subpass: u32,
    pub vertex_input: VertexInput,
    pub cull_mode: CullMode,
    /// Whether depth is tested and written.
    pub depth_test: bool,
    /// The number of colour attachments, each blended by default.
    pub color_blend_attachments: u32,
    /// The viewport is left open, and set for every frame.
    pub dynamic_viewport: bool,
}

/// What moved in a tick for one model: its new transform, and the matrix that brings its
/// normals to the world, the transpose of the inverse of the transform.
#[derive(Clone, Copy, Debug, PartialEq, Eq)]
pub struct Motion {
    pub transform: Matrix,
    pub normal: Matrix,
}

/// The pipelines, the frame loop's state, and the camera's matrices of the last update.
#[derive(Clone, Debug, PartialEq, Eq)]
pub struct RenderSystem {
    /// The pipeline of the geometry pass.
    pub pipeline: PipelineConfig,
    pub deferred_mix_pipeline: PipelineConfig,
    pub scheduler: FrameScheduler,
    pub view_matrix: Matrix,
    pub projection_matrix: Matrix,
    /// The number of the frame that is updated next.
    pub frame: u64,
}

/// The pipeline of the geometry pass: depth is tested, and the back faces are culled, or
/// the front faces where the projection flips an axis and with it the winding.
pub open spec fn geometry_pipeline(render_pass: RenderPassView, flipped: bool) -> PipelineConfig {
    PipelineConfig {
        kind: PipelineKind::Geometry,
        subpass: GEOMETRY_SUBPASS,
        vertex_input: VertexInput::PositionNormal,
        cull_mode: if flipped {
            CullMode::Front
        } else {
            CullMode::Back
        },
        depth_test: true,
        color_blend_attachments: render_pass.subpasses[GEOMETRY_SUBPASS as int].color.len() as u32,
        dynamic_viewport: true,
    }
}

/// The pipeline of the mix pass: no vertex buffer, no depth test.
pub open spec fn mix_pipeline(render_pass: RenderPassView) -> PipelineConfig {
    PipelineConfig {
        kind: PipelineKind::Mix,
        subpass: MIX_SUBPASS,
        vertex_input: VertexInput::Generated,
        cull_mode: CullMode::Back,
        depth_test: false,
        color_blend_attachments: render_pass.subpasses[MIX_SUBPASS as int].color.len() as u32,
        dynamic_viewport: true,
    }
}

/// The frame after `frame`. The last number that 64 bits hold is its own successor.
pub open spec fn next_frame(frame: u64) -> u64 {
    if frame < u64::MAX {
        (frame + 1) as u64
    } else {
        frame
    }
}

/// The uniform data of a model for a frame.
pub open spec fn uniform_data(motion: Motion, view: Matrix, projection: Matrix) -> UniformData {
    UniformData { model: motion.transform, view, projection, normal: motion.normal }
}

/// A model after the update: it has its new transform, and, if it is built, a descriptor
/// set that binds the uniform data in `slot`.
pub open spec fn updated_model(model: ModelView, motion: Motion, slot: int) -> ModelView {
    ModelView {
        transform: motion.transform,
        descriptor_set: if model.is_built() {
            Some(DescriptorSet { uniform_slot: slot as usize })
        } else {
            model.descriptor_set
        },
        ..model
    }
}

/// The first `count` models of the scene after the update, and the arena's slots after it.
/// The models are taken in order. For each that is built, its uniform data is written for
/// `frame` into the first slot that is free by then.
pub open spec fn updated_scene(
    scene: Seq<ModelView>,
    motions: Seq<Motion>,
    view: Matrix,
    projection: Matrix,
    frame: u64,
    slots: Seq<Option<UniformEntry>>,
    count: nat,
) -> (Seq<ModelView>, Seq<Option<UniformEntry>>)
    decreases count,
{
    if count == 0 {
        (Seq::empty(), slots)
    } else {
        let (models, slots) = updated_scene(
            scene,
            motions,
            view,
            projection,
            frame,
            slots,
            (count - 1) as nat,
        );
        let model = scene[count - 1];
        let motion = motions[count - 1];
        (
            models.push(updated_model(model, motion, first_free(slots))),
            if model.is_built() {
                allocated(slots, frame, uniform_data(motion, view, projection))
            } else {
                slots
            },
        )
    }
}

/// What the attachments are cleared to: colour to opaque black, depth to 1.
pub open spec fn frame_clear_values() -> ClearValues {
    ClearValues { color: [0u32, 0u32, 0u32, ONE_BITS], depth: ONE_BITS }
}

/// The commands that open a frame: the render pass begins on the framebuffer of the
/// acquired image, and the viewport is set.
pub open spec fn begin_commands(image_index: u32, viewport: Viewport) -> Seq<Command> {
    seq![
        Command::BeginRenderPass { framebuffer: image_index, clear_values: frame_clear_values() },
        Command::SetViewport { viewport },
    ]
}

/// The commands that draw the built models of `scene`, in order.
pub open spec fn scene_draws(scene: Seq<ModelView>) -> Seq<Command>
    decreases scene.len(),
{
    if scene.len() == 0 {
        Seq::empty()
    } else {
        scene_draws(scene.drop_last()) + scene.last().draw_commands(PipelineKind::Geometry)
    }
}

/// The commands of the geometry subpass: its pipeline is bound, and the models are drawn.
pub open spec fn geometry_commands(scene: Seq<ModelView>) -> Seq<Command> {
    seq![Command::BindPipelineGraphics { pipeline: PipelineKind::Geometry }] + scene_draws(scene)
}

/// The commands of the mix subpass and the end of the frame: the next subpass begins, its
/// pipeline and the G-buffer are bound, the quad is drawn, and the render pass ends.
pub open spec fn mix_commands() -> Seq<Command> {
    seq![
        Command::NextSubpass,
        Command::BindPipelineGraphics { pipeline: PipelineKind::Mix },
        Command::BindDescriptorSets {
            pipeline: PipelineKind::Mix,
            first_set: 0,
            set: DescriptorBinding::GBuffer,
        },
        quad_draw(),
        Command::EndRenderPass,
    ]
}

/// The commands of a whole frame.
pub open spec fn frame_commands(scene: Seq<ModelView>, image_index: u32, viewport: Viewport) -> Seq<
    Command,
> {
    begin_commands(image_index, viewport) + geometry_commands(scene) + mix_commands()
}

/// The number of models of `scene` that are built.
pub open spec fn built_count(scene: Seq<ModelView>) -> nat
    decreases scene.len(),
{
    if scene.len() == 0 {
        0
    } else {
        built_count(scene.drop_last()) + if scene.last().is_built() {
            1nat
        } else {
            0nat
        }
    }
}

impl RenderSystem {
    /// The render pass of deferred shading.
    pub fn get_render_pass() -> (render_pass: RenderPassLayout)
        ensures
            render_pass@ == deferred_render_pass(),
    {
        RenderPassLayout::deferred()
    }

    /// The render system for `render_pass`, which must have the two subpasses, each with a
    /// number of colour attachments that 32 bits hold. `flipped`: the projection flips an
    /// axis. The frame loop is idle, the camera's matrices are the identity, and the first
    /// frame has the number 0.
    pub fn new(render_pass: &RenderPassLayout, flipped: bool) -> (system: RenderSystem)
        requires
            render_pass@.subpasses.len() >= 2,
            render_pass@.subpasses[GEOMETRY_SUBPASS as int].color.len() <= u32::MAX,
            render_pass@.subpasses[MIX_SUBPASS as int].color.len() <= u32::MAX,
        ensures
            system.pipeline == geometry_pipeline(render_pass@, flipped),
            system.deferred_mix_pipeline == mix_pipeline(render_pass@),
            system.scheduler == FrameScheduler::initial(),
            system.view_matrix == identity_matrix(),
            system.projection_matrix == identity_matrix(),
            system.frame == 0,
    {
        proof {
            assert(render_pass@.subpasses[0] == render_pass.subpasses@[0]@);
            assert(render_pass@.subpasses[1] == render_pass.subpasses@[1]@);
        }
        let pipeline = PipelineConfig {
            kind: PipelineKind::Geometry,
            subpass: GEOMETRY_SUBPASS,
            vertex_input: VertexInput::PositionNormal,
            cull_mode: if flipped {
                CullMode::Front
            } else {
                CullMode::Back
            },
            depth_test: true,
            color_blend_attachments: render_pass.num_color_attachments(GEOMETRY_SUBPASS),
            dynamic_viewport: true,
        };
        let deferred_mix_pipeline = PipelineConfig {
            kind: PipelineKind::Mix,
            subpass: MIX_SUBPASS,
            vertex_input: VertexInput::Generated,
            cull_mode: CullMode::Back,
            depth_test: false,
            color_blend_attachments: render_pass.num_color_attachments(MIX_SUBPASS),
            dynamic_viewport: true,
        };
        RenderSystem {
            pipeline,
            deferred_mix_pipeline,
            scheduler: FrameScheduler::new(),
            view_matrix: identity(),
            projection_matrix: identity(),
            frame: 0,
        }
    }

    /// Asks for the swapchain to be recreated before the next image is acquired.
    pub fn resize(&mut self)
        ensures
            final(self).scheduler == old(self).scheduler.step(Event::Resized).0,
            final(self).pipeline == old(self).pipeline,
            final(self).deferred_mix_pipeline == old(self).deferred_mix_pipeline,
            final(self).view_matrix == old(self).view_matrix,
            final(self).projection_matrix == old(self).projection_matrix,
            final(self).frame == old(self).frame,
    {
        self.scheduler.resize();
    }

    /// Updates the scene for the next frame, and returns the number of that frame. `view`
    /// and `projection` are the camera's matrices, `motions` holds for each model, in the
    /// order of the scene, what moved. Every model gets its new transform. Every built
    /// model gets a slot of the arena that is free, in which its uniform data is written
    /// for this frame, and a descriptor set that binds that slot; what earlier frames have
    /// in the arena stays as it is.
    pub fn update(
        &mut self,
        view: Matrix,
        projection: Matrix,
        motions: &Vec<Motion>,
        scene: &mut Vec<Model>,
        arena: &mut UniformArena,
    ) -> (frame: u64)
        requires
            motions@.len() == old(scene)@.len(),
        ensures
            frame == old(self).frame,
            final(scene)@.len() == old(scene)@.len(),
            (scene_view(final(scene)@), final(arena)@) == updated_scene(
                scene_view(old(scene)@),
                motions@,
                view,
                projection,
                old(self).frame,
                old(arena)@,
                old(scene)@.len(),
            ),
            final(self).view_matrix == view,
            final(self).projection_matrix == projection,
            final(self).frame == next_frame(old(self).frame),
            final(self).pipeline == old(self).pipeline,
            final(self).deferred_mix_pipeline == old(self).deferred_mix_pipeline,
            final(self).scheduler == old(self).scheduler,
    {
        self.view_matrix = view;
        self.projection_matrix = projection;
        let frame = self.frame;
        let mut i: usize = 0;
        while i < scene.len()
            invariant
                i <= scene@.len(),
                scene@.len() == old(scene)@.len(),
                motions@.len() == scene@.len(),
                (scene_view(scene@).take(i as int), arena@) == updated_scene(
                    scene_view(old(scene)@),
                    motions@,
                    view,
                    projection,
                    frame,
                    old(arena)@,
                    i as nat,
                ),
                forall|j: int| i <= j < scene@.len() ==> (#[trigger] scene@[j])@ == old(scene)@[j]@,
            decreases scene@.len() - i,
        {
            let motion = motions[i];
            let ghost before = scene@;
            let ghost slots = arena@;
            let ghost done = scene_view(scene@).take(i as int);
            let model = &mut scene[i];
            model.transform = motion.transform;
            if model.is_built() {
                let data = UniformData {
                    model: motion.transform,
                    view,
                    projection,
                    normal: motion.normal,
                };
                let slot = arena.allocate(frame, data);
                model.descriptor_set = Some(DescriptorSet { uniform_slot: slot });
            }
            proof {
                assert(scene@[i as int]@ == updated_model(
                    scene_view(old(scene)@)[i as int],
                    motion,
                    first_free(slots),
                ));
                assert(scene_view(scene@).take(i + 1) =~= done.push(scene@[i as int]@)) by {
                    assert forall|j: int| 0 <= j < i implies scene_view(scene@)[j] == done[j] by {
                        assert(scene@[j] == before[j]);
                    }
                }
                assert forall|j: int| i + 1 <= j < scene@.len() implies (#[trigger] scene@[j])@
                    == old(scene)@[j]@ by {
                    assert(scene@[j] == before[j]);
                }
            }
            i += 1;
        }
        assert(scene_view(scene@).take(i as int) =~= scene_view(scene@));
        if self.frame < u64::MAX {
            self.frame = self.frame + 1;
        }
        frame
    }

    /// Records the geometry subpass: binds its pipeline once, and then draws every built
    /// model of the scene, in order. Neither the scene nor the render system changes.
    pub fn render_scene_elements(&self, scene: &Vec<Model>, cmd_buffer: &mut CommandBuffer)
        ensures
            final(cmd_buffer)@ == old(cmd_buffer)@ + geometry_commands(scene_view(scene@)),
    {
        cmd_buffer.push(Command::BindPipelineGraphics { pipeline: PipelineKind::Geometry });
        let ghost start = cmd_buffer@;
        let mut i: usize = 0;
        while i < scene.len()
            invariant
                i <= scene@.len(),
                cmd_buffer@ == start + scene_draws(scene_view(scene@).take(i as int)),
            decreases scene@.len() - i,
        {
            let ghost recorded = cmd_buffer@;
            if scene[i].is_built() {
                scene[i].draw(cmd_buffer, PipelineKind::Geometry);
            }
            proof {
                let models = scene_view(scene@);
                assert(models.take(i + 1).drop_last() =~= models.take(i as int));
                assert(models.take(i + 1).last() == scene@[i as int]@);
                assert(cmd_buffer@ =~= start + scene_draws(models.take(i + 1)));
            }
            i += 1;
        }
        assert(scene_view(scene@).take(i as int) =~= scene_view(scene@));
        assert(cmd_buffer@ =~= old(cmd_buffer)@ + geometry_commands(scene_view(scene@)));
    }

    /// Records the commands of one frame, which draws `scene` into the framebuffer that is
    /// built for the swapchain image `image_index`. That framebuffer must have been built.
    pub fn render(
        &self,
        scene: &Vec<Model>,
        framebuffer: &FramebufferData,
        viewport: Viewport,
        image_index: usize,
    ) -> (cmd_buffer: CommandBuffer)
        requires
            image_index < framebuffer@.framebuffer_count(),
        ensures
            cmd_buffer@ == frame_commands(
                scene_view(scene@),
                framebuffer@.framebuffers->0[image_index as int].image_index,
                viewport,
            ),
    {
        let target = framebuffer.get_framebuffer(image_index);
        let mut cmd_buffer = CommandBuffer::new();
        cmd_buffer.push(
            Command::BeginRenderPass {
                framebuffer: target.image_index,
                clear_values: ClearValues { color: [0, 0, 0, ONE_BITS], depth: ONE_BITS },
            },
        );
        cmd_buffer.push(Command::SetViewport { viewport });
        assert(cmd_buffer@ =~= begin_commands(target.image_index, viewport));
        self.render_scene_elements(scene, &mut cmd_buffer);
        cmd_buffer.push(Command::NextSubpass);
        cmd_buffer.push(Command::BindPipelineGraphics { pipeline: PipelineKind::Mix });
        cmd_buffer.push(
            Command::BindDescriptorSets {
                pipeline: PipelineKind::Mix,
                first_set: 0,
                set: DescriptorBinding::GBuffer,
            },
        );
        cmd_buffer.push(
            Command::Draw {
                vertex_count: QUAD_VERTICES,
                instance_count: 1,
                first_vertex: 0,
                first_instance: 0,
            },
        );
        cmd_buffer.push(Command::EndRenderPass);
        assert(cmd_buffer@ =~= frame_commands(scene_view(scene@), target.image_index, viewport));
        cmd_buffer
    }
}

/// After an update, `model` has a descriptor set whose slot was free in the slots `before`,
/// or was added behind them, and holds `entry` in the slots `after`.
pub open spec fn holds_fresh_slot(
    model: ModelView,
    before: Seq<Option<UniformEntry>>,
    after: Seq<Option<UniformEntry>>,
    entry: UniformEntry,
) -> bool {
    &&& model.descriptor_set matches Some(set)
    &&& set.uniform_slot < after.len()
    &&& set.uniform_slot < before.len() ==> before[set.uniform_slot as int] is None
    &&& after[set.uniform_slot as int] == Some(entry)
}

/// What an update does to the first `count` models and to the arena, whose slots a `usize`
/// can count afterwards:
/// - the scene keeps its length, and every model its geometry and its buffers, so that a
///   well-formed model stays well formed;
/// - every model has its new transform;
/// - a model that is not built keeps its descriptor set;
/// - every built model has a descriptor set of a slot that was free before the update, and
///   that slot holds the model's uniform data for this frame;
/// - no two built models share a slot;
/// - every slot that was in use before the update holds what it held: nothing that an
///   earlier frame wrote is overwritten.
pub proof fn update_writes_fresh_slots(
    scene: Seq<ModelView>,
    motions: Seq<Motion>,
    view: Matrix,
    projection: Matrix,
    frame: u64,
    slots: Seq<Option<UniformEntry>>,
    count: nat,
)
    requires
        count <= scene.len(),
        count <= motions.len(),
        updated_scene(scene, motions, view, projection, frame, slots, count).1.len() <= usize::MAX,
    ensures
        ({
            let (models, after) = updated_scene(
                scene,
                motions,
                view,
                projection,
                frame,
                slots,
                count,
            );
            &&& models.len() == count
            &&& slots.len() <= after.len()
            &&& forall|s: int|
                0 <= s < slots.len() && (#[trigger] slots[s]) is Some ==> after[s] == slots[s]
            &&& forall|i: int|
                0 <= i < count ==> {
                    &&& (#[trigger] models[i]).vertices == scene[i].vertices
                    &&& models[i].indices == scene[i].indices
                    &&& models[i].gpu == scene[i].gpu
                    &&& models[i].transform == motions[i].transform
                    &&& scene[i].wf() ==> models[i].wf()
                    &&& !scene[i].is_built() ==> models[i].descriptor_set
                        == scene[i].descriptor_set
                    &&& scene[i].is_built() ==> holds_fresh_slot(
                        models[i],
                        slots,
                        after,
                        UniformEntry { frame, data: uniform_data(motions[i], view, projection) },
                    )
                }
            &&& forall|i: int, j: int|
                0 <= i < j < count && scene[i].is_built() && scene[j].is_built() ==> (
                #[trigger] models[i]).descriptor_set != (#[trigger] models[j]).descriptor_set
        }),
    decreases count,
{
    if count > 0 {
        let last = (count - 1) as nat;
        let (earlier, middle) = updated_scene(scene, motions, view, projection, frame, slots, last);
        let (models, after) = updated_scene(scene, motions, view, projection, frame, slots, count);
        let model = scene[last as int];
        let motion = motions[last as int];
        let slot = first_free(middle);
        first_free_is_first(middle);
        assert(middle.len() <= after.len());
        update_writes_fresh_slots(scene, motions, view, projection, frame, slots, last);
        assert(models == earlier.push(updated_model(model, motion, slot)));
        assert forall|i: int| 0 <= i < last implies models[i] == earlier[i] by {}
        if model.is_built() {
            let entry = UniformEntry { frame, data: uniform_data(motion, view, projection) };
            assert(after == allocated(middle, frame, uniform_data(motion, view, projection)));
            assert(slot < after.len());
            assert(slot as usize == slot);
            assert(after[slot] == Some(entry));
            assert forall|s: int| 0 <= s < slots.len() && (#[trigger] slots[s]) is Some implies after[s]
                == slots[s] by {
                assert(middle[s] == slots[s]);
            }
            assert(slot < slots.len() ==> slots[slot] is None) by {
                if slot < slots.len() && slots[slot] is Some {
                    assert(middle[slot] == slots[slot]);
                }
            }
            assert(holds_fresh_slot(models[last as int], slots, after, entry));
            assert forall|i: int| 0 <= i < last && scene[i].is_built() implies holds_fresh_slot(
                #[trigger] models[i],
                slots,
                after,
                UniformEntry { frame, data: uniform_data(motions[i], view, projection) },
            ) && models[i].descriptor_set != models[last as int].descriptor_set by {
                let before = UniformEntry { frame, data: uniform_data(motions[i], view, projection) };
                assert(holds_fresh_slot(earlier[i], slots, middle, before));
                let used = earlier[i].descriptor_set->0.uniform_slot;
                assert(middle[used as int] is Some);
                assert(used != slot);
            }
        } else {
            assert(after == middle);
        }
    }
}

/// The update that `RenderSystem::update` performs keeps what every frame in flight has
/// written: a slot that holds an entry before the update holds the same entry after it.
pub proof fn update_keeps_frames_in_flight(
    scene: Seq<ModelView>,
    motions: Seq<Motion>,
    view: Matrix,
    projection: Matrix,
    frame: u64,
    slots: Seq<Option<UniformEntry>>,
    slot: int,
    entry: UniformEntry,
)
    requires
        motions.len() == scene.len(),
        updated_scene(scene, motions, view, projection, frame, slots, scene.len()).1.len()
            <= usize::MAX,
        0 <= slot < slots.len(),
        slots[slot] == Some(entry),
    ensures
        updated_scene(scene, motions, view, projection, frame, slots, scene.len()).1[slot] == Some(
            entry,
        ),
{
    update_writes_fresh_slots(scene, motions, view, projection, frame, slots, scene.len());
}

/// The recording is in the geometry subpass and ready for the models: the render pass is
/// open, the viewport is set, and the geometry pipeline is bound.
pub open spec fn in_geometry_subpass(recording: Recording) -> bool {
    &&& recording.open()
    &&& recording.viewport_set
    &&& recording.subpass == 0
    &&& recording.pipeline == Some(PipelineKind::Geometry)
}

/// `end` is `start` after `draws` more draws in the geometry subpass: but for the count
/// and the buffers that are bound, nothing has changed.
pub open spec fn after_geometry_draws(start: Recording, end: Recording, draws: nat) -> bool {
    &&& in_geometry_subpass(end)
    &&& end.geometry_draws == start.geometry_draws + draws
    &&& end.mix_draws == start.mix_draws
    &&& end.gbuffer_bound == start.gbuffer_bound
}

/// The commands of a built model may follow in the geometry subpass, and draw once.
pub proof fn model_draws_once(start: Recording, model: ModelView)
    requires
        in_geometry_subpass(start),
        model.is_built(),
    ensures
        start.run(model.draw_commands(PipelineKind::Geometry)) matches Some(end)
            && after_geometry_draws(start, end, 1),
{
    let bind = model.descriptor_commands(PipelineKind::Geometry);
    let draw = model.buffer_commands();
    run_concat(start, bind, draw);
    reveal_with_fuel(Recording::run, 4);
    let bound = start.run(bind);
    assert(bound == Some(start)) by {
        if bind.len() > 0 {
            assert(bind.drop_first() =~= Seq::<Command>::empty());
        }
    }
    assert(draw.drop_first().drop_first().len() <= 1);
    if draw.len() == 2 {
        assert(draw.drop_first().drop_first() =~= Seq::<Command>::empty());
    } else {
        assert(draw.drop_first().drop_first().drop_first() =~= Seq::<Command>::empty());
    }
}

/// The commands that draw a scene may follow in the geometry subpass, and draw once for
/// each model that is built.
pub proof fn scene_draws_once_per_built_model(start: Recording, scene: Seq<ModelView>)
    requires
        in_geometry_subpass(start),
    ensures
        start.run(scene_draws(scene)) matches Some(end) && after_geometry_draws(
            start,
            end,
            built_count(scene),
        ),
    decreases scene.len(),
{
    if scene.len() > 0 {
        let earlier = scene.drop_last();
        scene_draws_once_per_built_model(start, earlier);
        let middle = start.run(scene_draws(earlier))->0;
        let last = scene.last().draw_commands(PipelineKind::Geometry);
        run_concat(start, scene_draws(earlier), last);
        if scene.last().is_built() {
            model_draws_once(middle, scene.last());
        }
    }
}

/// The number of commands among `commands` that bind a graphics pipeline.
pub open spec fn count_pipeline_binds(commands: Seq<Command>) -> nat
    decreases commands.len(),
{
    if commands.len() == 0 {
        0
    } else {
        count_pipeline_binds(commands.drop_last()) + if commands.last() is BindPipelineGraphics {
            1nat
        } else {
            0nat
        }
    }
}

/// Counting the binds of pipelines in two runs of commands is counting them in both together.
pub proof fn count_pipeline_binds_concat(first: Seq<Command>, second: Seq<Command>)
    ensures
        count_pipeline_binds(first + second) == count_pipeline_binds(first) + count_pipeline_binds(
            second,
        ),
    decreases second.len(),
{
    if second.len() == 0 {
        assert(first + second =~= first);
    } else {
        assert((first + second).drop_last() =~= first + second.drop_last());
        count_pipeline_binds_concat(first, second.drop_last());
    }
}

/// Drawing a model binds no pipeline.
pub proof fn model_binds_no_pipeline(model: ModelView, pipeline: PipelineKind)
    ensures
        count_pipeline_binds(model.draw_commands(pipeline)) == 0,
{
    let bind = model.descriptor_commands(pipeline);
    let draw = model.buffer_commands();
    reveal_with_fuel(count_pipeline_binds, 4);
    count_pipeline_binds_concat(bind, draw);
    if bind.len() > 0 {
        assert(bind.drop_last() =~= Seq::<Command>::empty());
    }
    if draw.len() == 2 {
        assert(draw.drop_last().drop_last() =~= Seq::<Command>::empty());
    } else if draw.len() == 3 {
        assert(draw.drop_last().drop_last().drop_last() =~= Seq::<Command>::empty());
    }
}

/// Drawing a scene binds no pipeline.
pub proof fn scene_draws_bind_no_pipeline(scene: Seq<ModelView>)
    ensures
        count_pipeline_binds(scene_draws(scene)) == 0,
    decreases scene.len(),
{
    if scene.len() > 0 {
        scene_draws_bind_no_pipeline(scene.drop_last());
        model_binds_no_pipeline(scene.last(), PipelineKind::Geometry);
        count_pipeline_binds_concat(
            scene_draws(scene.drop_last()),
            scene.last().draw_commands(PipelineKind::Geometry),
        );
    }
}

/// The geometry subpass binds its pipeline exactly once, before anything else, and then
/// draws exactly once for each built model of the scene: for a scene of N models that are
/// all built, N times. It may follow wherever the render pass is open in its first subpass
/// with the viewport set.
pub proof fn geometry_subpass_draws_once_per_model(start: Recording, scene: Seq<ModelView>)
    requires
        start.open(),
        start.viewport_set,
        start.subpass == 0,
    ensures
        geometry_commands(scene)[0] == (Command::BindPipelineGraphics {
            pipeline: PipelineKind::Geometry,
        }),
        count_pipeline_binds(geometry_commands(scene)) == 1,
        start.run(geometry_commands(scene)) matches Some(end) && end.geometry_draws
            == start.geometry_draws + built_count(scene) && end.mix_draws == start.mix_draws,
        (forall|i: int| 0 <= i < scene.len() ==> (#[trigger] scene[i]).is_built()) ==> built_count(
            scene,
        ) == scene.len(),
{
    let bind = seq![Command::BindPipelineGraphics { pipeline: PipelineKind::Geometry }];
    reveal_with_fuel(count_pipeline_binds, 2);
    reveal_with_fuel(Recording::run, 2);
    assert(bind.drop_last() =~= Seq::<Command>::empty());
    assert(bind.drop_first() =~= Seq::<Command>::empty());
    count_pipeline_binds_concat(bind, scene_draws(scene));
    scene_draws_bind_no_pipeline(scene);
    run_concat(start, bind, scene_draws(scene));
    let bound = start.run(bind)->0;
    assert(start.run(bind) is Some);
    scene_draws_once_per_built_model(bound, scene);
    if forall|i: int| 0 <= i < scene.len() ==> (#[trigger] scene[i]).is_built() {
        built_scene_is_drawn_whole(scene);
    }
}

/// The commands of a frame are a whole frame of two subpasses, whatever the scene holds:
/// the geometry subpass draws exactly once for each model that is built, and the mix subpass
/// draws exactly once, the quad of six vertices. With no built model the geometry subpass
/// only clears.
pub proof fn frame_draws_built_models_and_the_quad(
    scene: Seq<ModelView>,
    image_index: u32,
    viewport: Viewport,
)
    ensures
        is_valid_frame(frame_commands(scene, image_index, viewport)),
        ({
            let end = Recording::start().run(frame_commands(scene, image_index, viewport))->0;
            &&& end.subpass == 1
            &&& end.geometry_draws == built_count(scene)
            &&& end.mix_draws == seq![quad_draw()]
        }),
{
    let begin = begin_commands(image_index, viewport);
    let geometry = geometry_commands(scene);
    let mix = mix_commands();
    let start = Recording::start();
    reveal_with_fuel(Recording::run, 6);
    run_concat(start, begin + geometry, mix);
    run_concat(start, begin, geometry);
    assert(begin.drop_first().drop_first() =~= Seq::<Command>::empty());
    let begun = start.run(begin)->0;
    assert(start.run(begin) is Some);
    let bind = seq![Command::BindPipelineGraphics { pipeline: PipelineKind::Geometry }];
    run_concat(begun, bind, scene_draws(scene));
    assert(bind.drop_first() =~= Seq::<Command>::empty());
    let bound = begun.run(bind)->0;
    assert(begun.run(bind) is Some);
    scene_draws_once_per_built_model(bound, scene);
    let drawn = bound.run(scene_draws(scene))->0;
    assert(mix.drop_first().drop_first().drop_first().drop_first().drop_first() =~= Seq::<
        Command,
    >::empty());
    let end = drawn.run(mix);
    assert(end is Some);
    assert(end->0.mix_draws =~= seq![quad_draw()]);
}

/// When a frame begins, the five attachments of deferred shading are cleared in their
/// order: the final colour and the three G-buffer images to opaque black, the depth to 1.
pub proof fn frame_clears_every_attachment()
    ensures
        attachment_clear_values(deferred_render_pass().attachments, frame_clear_values()) == seq![
            ClearValue::Color([0u32, 0u32, 0u32, ONE_BITS]),
            ClearValue::Color([0u32, 0u32, 0u32, ONE_BITS]),
            ClearValue::Color([0u32, 0u32, 0u32, ONE_BITS]),
            ClearValue::Color([0u32, 0u32, 0u32, ONE_BITS]),
            ClearValue::Depth(ONE_BITS),
        ],
{
    let cleared = attachment_clear_values(
        deferred_render_pass().attachments,
        frame_clear_values(),
    );
    assert(cleared.len() == 5);
    assert(cleared =~= seq![
        ClearValue::Color([0u32, 0u32, 0u32, ONE_BITS]),
        ClearValue::Color([0u32, 0u32, 0u32, ONE_BITS]),
        ClearValue::Color([0u32, 0u32, 0u32, ONE_BITS]),
        ClearValue::Color([0u32, 0u32, 0u32, ONE_BITS]),
        ClearValue::Depth(ONE_BITS),
    ]);
}

/// A scene of models that are all built is drawn with as many geometry draws as it has
/// models.
pub proof fn built_scene_is_drawn_whole(scene: Seq<ModelView>)
    requires
        forall|i: int| 0 <= i < scene.len() ==> (#[trigger] scene[i]).is_built(),
    ensures
        built_count(scene) == scene.len(),
    decreases scene.len(),
{
    if scene.len() > 0 {
        let earlier = scene.drop_last();
        assert forall|i: int| 0 <= i < earlier.len() implies (#[trigger] earlier[i]).is_built() by {
            assert(earlier[i] == scene[i]);
        }
        built_scene_is_drawn_whole(earlier);
    }
}

} // verus!

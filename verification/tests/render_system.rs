use mini_engine::commands::{
    ClearValue, ClearValues, Command, CommandBuffer, DescriptorBinding, PipelineKind,
    QUAD_VERTICES,
};
use mini_engine::frame_loop::{CompletionToken, FrameScheduler, Phase};
use mini_engine::framebuffer::{FramebufferData, Viewport};
use mini_engine::model::{
    BufferAllocationError, DescriptorSet, Model, ModelBuffers, VertexData,
};
use mini_engine::render_pass::{
    AttachmentDesc, ImageFormat, LoadOp, RenderPassLayout, StoreOp, SubpassDesc,
};
use mini_engine::render_system::{CullMode, Motion, PipelineConfig, RenderSystem, VertexInput};
use mini_engine::uniform::{identity, Matrix, UniformArena, UniformData, UniformEntry};

fn vertex(x: f32) -> VertexData {
    VertexData { position: [x.to_bits(); 3], normal: [0; 3] }
}

fn built(vertices: usize, indices: usize, first_handle: u64) -> Model {
    let mut model = Model::new(
        (0..vertices).map(|i| vertex(i as f32)).collect(),
        (0..indices as u32).collect(),
    );
    let buffers = ModelBuffers {
        vertex_buffer: first_handle,
        index_buffer: Some(first_handle + 1),
        matrix_buffer: first_handle + 2,
    };
    model.build(Ok(buffers)).unwrap();
    model
}

fn unbuilt() -> Model {
    let mut model = Model::new(vec![vertex(1.0)], vec![0]);
    assert!(model.build(Err(BufferAllocationError::Device)).is_err());
    model
}

fn system() -> RenderSystem {
    RenderSystem::new(&RenderSystem::get_render_pass(), false)
}

fn targets(images: u32) -> (FramebufferData, Viewport) {
    let mut data = FramebufferData::new([1024, 768], images);
    let mut viewport = Viewport { offset: [0, 0], extent: [0, 0] };
    data.update_sizes(&mut viewport);
    (data, viewport)
}

fn matrix(seed: u32) -> Matrix {
    [[(seed as f32).to_bits(); 4]; 4]
}

fn is_draw(command: &Command) -> bool {
    matches!(command, Command::Draw { .. } | Command::DrawIndexed { .. })
}

fn split_subpasses(commands: &CommandBuffer) -> (Vec<Command>, Vec<Command>) {
    let at = commands.commands.iter().position(|c| *c == Command::NextSubpass).unwrap();
    (commands.commands[..at].to_vec(), commands.commands[at + 1..].to_vec())
}

const QUAD: Command =
    Command::Draw { vertex_count: 6, instance_count: 1, first_vertex: 0, first_instance: 0 };

#[test]
fn render_pass_is_the_deferred_one() {
    assert_eq!(RenderSystem::get_render_pass(), RenderPassLayout::deferred());
}

#[test]
fn new_render_system_has_the_two_pipelines() {
    let system = system();
    assert_eq!(
        system.pipeline,
        PipelineConfig {
            kind: PipelineKind::Geometry,
            subpass: 0,
            vertex_input: VertexInput::PositionNormal,
            cull_mode: CullMode::Back,
            depth_test: true,
            color_blend_attachments: 3,
            dynamic_viewport: true,
        }
    );
    assert_eq!(
        system.deferred_mix_pipeline,
        PipelineConfig {
            kind: PipelineKind::Mix,
            subpass: 1,
            vertex_input: VertexInput::Generated,
            cull_mode: CullMode::Back,
            depth_test: false,
            color_blend_attachments: 1,
            dynamic_viewport: true,
        }
    );
    assert_eq!(system.view_matrix, identity());
    assert_eq!(system.projection_matrix, identity());
    assert_eq!(system.frame, 0);
    assert_eq!(
        system.scheduler,
        FrameScheduler {
            phase: Phase::Idle,
            recreate_swapchain: false,
            token: CompletionToken::Fresh,
            image_index: 0,
        }
    );
}

#[test]
fn flipped_projection_culls_front_faces() {
    let system = RenderSystem::new(&RenderSystem::get_render_pass(), true);
    assert_eq!(system.pipeline.cull_mode, CullMode::Front);
    assert_eq!(system.deferred_mix_pipeline.cull_mode, CullMode::Back);
}

#[test]
fn resize_asks_for_a_rebuild() {
    let mut system = system();
    let before = system.clone();
    system.resize();
    assert!(system.scheduler.recreate_swapchain);
    assert_eq!(system.scheduler.phase, Phase::Idle);
    assert_eq!(system.pipeline, before.pipeline);
    assert_eq!(system.frame, before.frame);
}

#[test]
fn empty_scene_yields_a_two_subpass_frame_with_one_quad_draw() {
    let (data, viewport) = targets(2);
    let commands = system().render(&Vec::new(), &data, viewport, 1);
    assert_eq!(
        commands.commands,
        vec![
            Command::BeginRenderPass {
                framebuffer: 1,
                clear_values: ClearValues {
                    color: [0, 0, 0, 1f32.to_bits()],
                    depth: 1f32.to_bits(),
                },
            },
            Command::SetViewport { viewport: Viewport { offset: [0, 0], extent: [1024, 768] } },
            Command::BindPipelineGraphics { pipeline: PipelineKind::Geometry },
            Command::NextSubpass,
            Command::BindPipelineGraphics { pipeline: PipelineKind::Mix },
            Command::BindDescriptorSets {
                pipeline: PipelineKind::Mix,
                first_set: 0,
                set: DescriptorBinding::GBuffer,
            },
            QUAD,
            Command::EndRenderPass,
        ]
    );
}

#[test]
fn quad_has_six_vertices() {
    assert_eq!(QUAD_VERTICES, 6);
}

#[test]
fn attachments_are_cleared_to_opaque_black_and_depth_one() {
    let (data, viewport) = targets(1);
    let commands = system().render(&Vec::new(), &data, viewport, 0);
    match commands.commands[0] {
        Command::BeginRenderPass { framebuffer, clear_values } => {
            assert_eq!(framebuffer, 0);
            let colour: Vec<f32> = clear_values.color.iter().map(|b| f32::from_bits(*b)).collect();
            assert_eq!(colour, vec![0.0, 0.0, 0.0, 1.0]);
            assert_eq!(f32::from_bits(clear_values.depth), 1.0);
        },
        other => panic!("the frame begins with {:?}", other),
    }
}

#[test]
fn each_built_model_is_drawn_once_and_the_quad_once() {
    let (data, viewport) = targets(3);
    for n in 0..6 {
        let scene: Vec<Model> = (0..n).map(|i| built(3 + i, 3 * i, 10 * i as u64)).collect();
        let commands = system().render(&scene, &data, viewport, 2);
        let (geometry, mix) = split_subpasses(&commands);
        assert_eq!(geometry.iter().filter(|c| is_draw(c)).count(), n);
        let mix_draws: Vec<Command> = mix.iter().filter(|c| is_draw(c)).cloned().collect();
        assert_eq!(mix_draws, vec![QUAD]);
        assert_eq!(
            commands.commands.iter().filter(|c| **c == Command::NextSubpass).count(),
            1
        );
        assert_eq!(*commands.commands.last().unwrap(), Command::EndRenderPass);
    }
}

#[test]
fn models_that_are_not_built_are_left_out() {
    let (data, viewport) = targets(1);
    let scene = vec![built(3, 3, 0), unbuilt(), built(4, 0, 10), unbuilt()];
    let commands = system().render(&scene, &data, viewport, 0);
    let (geometry, _) = split_subpasses(&commands);
    assert_eq!(geometry.iter().filter(|c| is_draw(c)).count(), 2);
}

#[test]
fn frame_records_the_models_in_order() {
    let (data, viewport) = targets(2);
    let mut first = built(4, 6, 100);
    first.descriptor_set = Some(DescriptorSet { uniform_slot: 0 });
    let second = built(3, 0, 200);
    let commands = system().render(&vec![first, second], &data, viewport, 0);
    let (geometry, mix) = split_subpasses(&commands);
    assert_eq!(
        geometry[2..].to_vec(),
        vec![
            Command::BindPipelineGraphics { pipeline: PipelineKind::Geometry },
            Command::BindDescriptorSets {
                pipeline: PipelineKind::Geometry,
                first_set: 0,
                set: DescriptorBinding::Uniforms { slot: 0 },
            },
            Command::BindVertexBuffers { first_binding: 0, buffer: 100 },
            Command::BindIndexBuffer { buffer: 101 },
            Command::DrawIndexed {
                index_count: 6,
                instance_count: 1,
                first_index: 0,
                vertex_offset: 0,
                first_instance: 0,
            },
            Command::BindVertexBuffers { first_binding: 0, buffer: 200 },
            Command::Draw { vertex_count: 3, instance_count: 1, first_vertex: 0, first_instance: 0 },
        ]
    );
    assert_eq!(mix.len(), 4);
}

#[test]
fn update_gives_each_built_model_fresh_uniform_data() {
    let mut system = system();
    let mut arena = UniformArena::new();
    let mut scene = vec![built(3, 3, 0), unbuilt(), built(3, 0, 10)];
    let motions = vec![
        Motion { transform: matrix(1), normal: matrix(2) },
        Motion { transform: matrix(3), normal: matrix(4) },
        Motion { transform: matrix(5), normal: matrix(6) },
    ];
    let frame = system.update(matrix(7), matrix(8), &motions, &mut scene, &mut arena);
    assert_eq!(frame, 0);
    assert_eq!(system.frame, 1);
    assert_eq!(system.view_matrix, matrix(7));
    assert_eq!(system.projection_matrix, matrix(8));
    assert_eq!(scene[0].transform, matrix(1));
    assert_eq!(scene[1].transform, matrix(3));
    assert_eq!(scene[2].transform, matrix(5));
    assert_eq!(scene[0].descriptor_set, Some(DescriptorSet { uniform_slot: 0 }));
    assert_eq!(scene[1].descriptor_set, None);
    assert_eq!(scene[2].descriptor_set, Some(DescriptorSet { uniform_slot: 1 }));
    assert_eq!(arena.len(), 2);
    assert_eq!(
        arena.read(0),
        Some(UniformEntry {
            frame: 0,
            data: UniformData {
                model: matrix(1),
                view: matrix(7),
                projection: matrix(8),
                normal: matrix(2),
            },
        })
    );
    assert_eq!(
        arena.read(1),
        Some(UniformEntry {
            frame: 0,
            data: UniformData {
                model: matrix(5),
                view: matrix(7),
                projection: matrix(8),
                normal: matrix(6),
            },
        })
    );
}

#[test]
fn update_never_overwrites_a_frame_in_flight() {
    let mut system = system();
    let mut arena = UniformArena::new();
    let mut scene = vec![built(3, 3, 0), built(3, 0, 10)];
    let first = vec![
        Motion { transform: matrix(1), normal: matrix(2) },
        Motion { transform: matrix(3), normal: matrix(4) },
    ];
    let second = vec![
        Motion { transform: matrix(11), normal: matrix(12) },
        Motion { transform: matrix(13), normal: matrix(14) },
    ];
    let frame = system.update(matrix(7), matrix(8), &first, &mut scene, &mut arena);
    let in_flight: Vec<usize> =
        scene.iter().map(|m| m.descriptor_set.unwrap().uniform_slot).collect();
    let written: Vec<Option<UniformEntry>> = in_flight.iter().map(|s| arena.read(*s)).collect();
    let next = system.update(matrix(9), matrix(10), &second, &mut scene, &mut arena);
    assert_eq!((frame, next), (0, 1));
    for (slot, entry) in in_flight.iter().zip(&written) {
        assert_eq!(arena.read(*slot), *entry);
    }
    for model in &scene {
        assert!(!in_flight.contains(&model.descriptor_set.unwrap().uniform_slot));
    }
    arena.release(frame);
    for slot in &in_flight {
        assert_eq!(arena.read(*slot), None);
    }
    system.update(matrix(9), matrix(10), &first, &mut scene, &mut arena);
    let reused: Vec<usize> =
        scene.iter().map(|m| m.descriptor_set.unwrap().uniform_slot).collect();
    assert_eq!(reused, in_flight);
}

#[test]
fn frame_number_stops_at_the_last_number() {
    let mut system = system();
    system.frame = u64::MAX - 1;
    let mut arena = UniformArena::new();
    let mut scene = Vec::new();
    assert_eq!(system.update(identity(), identity(), &Vec::new(), &mut scene, &mut arena), u64::MAX - 1);
    assert_eq!(system.frame, u64::MAX);
    assert_eq!(system.update(identity(), identity(), &Vec::new(), &mut scene, &mut arena), u64::MAX);
    assert_eq!(system.frame, u64::MAX);
}

#[test]
fn each_attachment_gets_its_clear_value() {
    let values = ClearValues { color: [0, 0, 0, 1f32.to_bits()], depth: 1f32.to_bits() };
    let cleared = values.for_attachments(&RenderSystem::get_render_pass());
    let black = ClearValue::Color([0, 0, 0, 1f32.to_bits()]);
    assert_eq!(cleared, vec![black, black, black, black, ClearValue::Depth(1f32.to_bits())]);
}

#[test]
fn clear_values_follow_the_formats_of_the_attachments() {
    let attachment = |format| AttachmentDesc {
        format,
        samples: 1,
        load_op: LoadOp::Clear,
        store_op: StoreOp::DontCare,
    };
    let layout = RenderPassLayout {
        attachments: vec![attachment(ImageFormat::D16Unorm), attachment(ImageFormat::Swapchain)],
        subpasses: Vec::new(),
    };
    let values = ClearValues { color: [1, 2, 3, 4], depth: 5 };
    assert_eq!(
        values.for_attachments(&layout),
        vec![ClearValue::Depth(5), ClearValue::Color([1, 2, 3, 4])]
    );
    let none = RenderPassLayout { attachments: Vec::new(), subpasses: Vec::new() };
    assert_eq!(values.for_attachments(&none), Vec::new());
}

#[test]
fn render_system_needs_only_the_colour_counts_of_two_subpasses() {
    let reads_unwritten = RenderPassLayout {
        attachments: RenderPassLayout::deferred().attachments,
        subpasses: vec![
            SubpassDesc { color: vec![1, 2], depth_stencil: None, input: Vec::new() },
            SubpassDesc { color: vec![0], depth_stencil: None, input: vec![3] },
        ],
    };
    let system = RenderSystem::new(&reads_unwritten, false);
    assert_eq!(system.pipeline.color_blend_attachments, 2);
    assert_eq!(system.deferred_mix_pipeline.color_blend_attachments, 1);
}

#[test]
fn geometry_subpass_binds_once_and_draws_each_model_in_order() {
    let system = system();
    for n in 0..5usize {
        let scene: Vec<Model> = (0..n).map(|i| built(3, 3 + i, 10 * i as u64)).collect();
        let mut commands = CommandBuffer::new();
        let before = scene.clone();
        system.render_scene_elements(&scene, &mut commands);
        assert_eq!(scene, before);
        assert_eq!(
            commands.commands[0],
            Command::BindPipelineGraphics { pipeline: PipelineKind::Geometry }
        );
        let binds = commands
            .commands
            .iter()
            .filter(|c| matches!(c, Command::BindPipelineGraphics { .. }))
            .count();
        assert_eq!(binds, 1);
        let draws: Vec<Command> = commands.commands.iter().filter(|c| is_draw(c)).cloned().collect();
        let expected: Vec<Command> = (0..n)
            .map(|i| Command::DrawIndexed {
                index_count: (3 + i) as u32,
                instance_count: 1,
                first_index: 0,
                vertex_offset: 0,
                first_instance: 0,
            })
            .collect();
        assert_eq!(draws, expected);
    }
}

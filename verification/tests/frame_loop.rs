use render_engine::descriptor::{StoreOp, TextureUsages};
use render_engine::engine::{Engine, Extent3d, LoadOp, ShaderSource};
use render_engine::format::{IndexFormat, VertexFormat};
use render_engine::frame::{encode_pass, Action, Command, Event, FrameLoop, WindowEvent};
use render_engine::layout::{LayoutError, VertexAttribute};
use render_engine::scene::ConfigError;
use render_engine::surface::SurfaceConfig;

const COLOUR_LAYOUT: [VertexFormat; 2] = [VertexFormat::Float32x3, VertexFormat::Float32x3];
const TEXTURE_LAYOUT: [VertexFormat; 2] = [VertexFormat::Float32x3, VertexFormat::Float32x2];
const BAD_LAYOUT: [VertexFormat; 1] = [VertexFormat::Float64x3];
const COLOUR_VERTICES: [u8; 72] = [0; 72];
const TEXTURE_VERTICES: [u8; 60] = [0; 60];
const INDICES: [u8; 6] = [0, 0, 1, 0, 2, 0];
const WIDE_INDICES: [u8; 16] = [0; 16];

fn grey() -> LoadOp {
    LoadOp::Clear(0.3f64.to_bits(), 0.3f64.to_bits(), 0.3f64.to_bits(), 1.0f64.to_bits())
}

fn config(width: u32, height: u32) -> SurfaceConfig {
    SurfaceConfig {
        usage: TextureUsages {
            copy_src: false,
            copy_dst: false,
            texture_binding: false,
            storage_binding: false,
            render_attachment: true,
        },
        format: 2,
        width,
        height,
        present_mode: 0,
        alpha_mode: 0,
        desired_maximum_frame_latency: 1,
    }
}

fn own(event: WindowEvent) -> Event {
    Event::WindowEvent { own_window: true, event }
}

fn foreign(event: WindowEvent) -> Event {
    Event::WindowEvent { own_window: false, event }
}

fn draw(end_index: usize) -> Command {
    Command::DrawIndexed {
        first_index: 0,
        end_index,
        base_vertex: 0,
        first_instance: 0,
        end_instance: 1,
    }
}

fn begin(load_op: LoadOp) -> Command {
    Command::BeginRenderPass { load_op, store_op: StoreOp::Store }
}

fn one_triangle<'l>() -> Engine<'l> {
    let mut engine = Engine::new(1200.0f64.to_bits(), 800.0f64.to_bits());
    let shader = engine.add_shader(ShaderSource::Wgsl(String::from("// colour")));
    let layout = engine.add_vertex_attributes(&COLOUR_LAYOUT);
    let triangle = engine.add_mesh(&COLOUR_VERTICES, layout, &INDICES, IndexFormat::Uint16, vec![]);
    engine.add_render_pass(shader, grey(), triangle);
    engine
}

fn two_triangles<'l>() -> Engine<'l> {
    let mut engine = one_triangle();
    let tree = engine.add_texture(vec![7; 16], Extent3d {
        width: 2,
        height: 2,
        depth_or_array_layers: 1,
    });
    let shader = engine.add_shader(ShaderSource::Wgsl(String::from("// texture")));
    let layout = engine.add_vertex_attributes(&TEXTURE_LAYOUT);
    let triangle =
        engine.add_mesh(&TEXTURE_VERTICES, layout, &INDICES, IndexFormat::Uint16, vec![tree]);
    engine.add_render_pass(shader, LoadOp::Load, triangle);
    engine
}

fn commands_of(action: Action) -> Vec<Command> {
    match action {
        Action::Render(commands) => commands,
        other => panic!("no frame was drawn: {:?}", other),
    }
}

#[test]
fn one_triangle_on_grey() {
    let mut frame_loop = FrameLoop::new(one_triangle(), config(1200, 800)).unwrap();
    assert_eq!(frame_loop.scene().vertex_layouts.len(), 1);
    assert_eq!(frame_loop.scene().vertex_layouts[0].stride, 24);
    assert_eq!(
        frame_loop.scene().vertex_layouts[0].attributes,
        vec![
            VertexAttribute { offset: 0, shader_location: 0, format: VertexFormat::Float32x3 },
            VertexAttribute { offset: 12, shader_location: 1, format: VertexFormat::Float32x3 },
        ]
    );
    let action = frame_loop.handle_event(own(WindowEvent::RedrawRequested));
    assert_eq!(
        action,
        Action::Render(vec![
            Command::AcquireFrame,
            Command::BeginEncoding,
            begin(grey()),
            Command::SetPipeline { pipeline: 0 },
            Command::SetVertexBuffer { slot: 0, mesh: 0 },
            Command::SetIndexBuffer { mesh: 0, format: IndexFormat::Uint16 },
            draw(3),
            Command::EndRenderPass,
            Command::Submit,
            Command::Present,
        ])
    );
}

#[test]
fn clear_colour_is_the_declared_one() {
    let mut frame_loop = FrameLoop::new(one_triangle(), config(1200, 800)).unwrap();
    let commands = commands_of(frame_loop.handle_event(own(WindowEvent::RedrawRequested)));
    match commands[2] {
        Command::BeginRenderPass { load_op: LoadOp::Clear(r, g, b, a), store_op } => {
            assert_eq!(f64::from_bits(r), 0.3);
            assert_eq!(f64::from_bits(g), 0.3);
            assert_eq!(f64::from_bits(b), 0.3);
            assert_eq!(f64::from_bits(a), 1.0);
            assert_eq!(store_op, StoreOp::Store);
        }
        other => panic!("the pass does not clear: {:?}", other),
    }
}

#[test]
fn passes_are_recorded_in_the_order_of_declaration() {
    let mut frame_loop = FrameLoop::new(two_triangles(), config(1200, 800)).unwrap();
    let commands = commands_of(frame_loop.handle_event(own(WindowEvent::RedrawRequested)));
    assert_eq!(
        commands,
        vec![
            Command::AcquireFrame,
            Command::BeginEncoding,
            begin(grey()),
            Command::SetPipeline { pipeline: 0 },
            Command::SetVertexBuffer { slot: 0, mesh: 0 },
            Command::SetIndexBuffer { mesh: 0, format: IndexFormat::Uint16 },
            draw(3),
            Command::EndRenderPass,
            begin(LoadOp::Load),
            Command::SetPipeline { pipeline: 1 },
            Command::SetBindGroup { index: 0, texture: 0 },
            Command::SetVertexBuffer { slot: 0, mesh: 1 },
            Command::SetIndexBuffer { mesh: 1, format: IndexFormat::Uint16 },
            draw(3),
            Command::EndRenderPass,
            Command::Submit,
            Command::Present,
        ]
    );
}

#[test]
fn loading_pass_does_not_clear() {
    let mut frame_loop = FrameLoop::new(two_triangles(), config(1200, 800)).unwrap();
    let commands = commands_of(frame_loop.handle_event(own(WindowEvent::RedrawRequested)));
    let begins: Vec<&Command> = commands
        .iter()
        .filter(|command| matches!(command, Command::BeginRenderPass { .. }))
        .collect();
    assert_eq!(begins, vec![&begin(grey()), &begin(LoadOp::Load)]);
}

#[test]
fn declaration_order_decides_not_the_handles() {
    let mut engine = Engine::new(0, 0);
    let shader = engine.add_shader(ShaderSource::Wgsl(String::new()));
    let layout = engine.add_vertex_attributes(&COLOUR_LAYOUT);
    let first = engine.add_mesh(&COLOUR_VERTICES, layout, &INDICES, IndexFormat::Uint16, vec![]);
    let second =
        engine.add_mesh(&COLOUR_VERTICES, layout, &WIDE_INDICES, IndexFormat::Uint16, vec![]);
    engine.add_render_pass(shader, LoadOp::Load, second);
    engine.add_render_pass(shader, LoadOp::Load, first);
    let scene = engine.materialize(2).unwrap();
    let meshes: Vec<usize> = scene
        .encode_frame()
        .iter()
        .filter_map(|command| match command {
            Command::SetVertexBuffer { mesh, .. } => Some(*mesh),
            _ => None,
        })
        .collect();
    assert_eq!(meshes, vec![second, first]);
}

#[test]
fn binding_sets_are_bound_at_consecutive_slots() {
    let mut engine = Engine::new(0, 0);
    for _ in 0..4 {
        engine.add_texture(vec![0; 4], Extent3d { width: 1, height: 1, depth_or_array_layers: 1 });
    }
    let shader = engine.add_shader(ShaderSource::Wgsl(String::new()));
    let layout = engine.add_vertex_attributes(&TEXTURE_LAYOUT);
    let mesh =
        engine.add_mesh(&TEXTURE_VERTICES, layout, &INDICES, IndexFormat::Uint16, vec![3, 1, 1, 0]);
    engine.add_render_pass(shader, LoadOp::Load, mesh);
    let scene = engine.materialize(2).unwrap();
    assert_eq!(
        scene.encode_frame(),
        vec![
            Command::AcquireFrame,
            Command::BeginEncoding,
            begin(LoadOp::Load),
            Command::SetPipeline { pipeline: 0 },
            Command::SetBindGroup { index: 0, texture: 3 },
            Command::SetBindGroup { index: 1, texture: 1 },
            Command::SetBindGroup { index: 2, texture: 1 },
            Command::SetBindGroup { index: 3, texture: 0 },
            Command::SetVertexBuffer { slot: 0, mesh: 0 },
            Command::SetIndexBuffer { mesh: 0, format: IndexFormat::Uint16 },
            draw(3),
            Command::EndRenderPass,
            Command::Submit,
            Command::Present,
        ]
    );
}

#[test]
fn mesh_without_textures_binds_no_binding_set() {
    let scene = one_triangle().materialize(2).unwrap();
    assert!(scene.passes[0].bind_groups.is_empty());
    let bound = scene
        .encode_frame()
        .iter()
        .filter(|command| matches!(command, Command::SetBindGroup { .. }))
        .count();
    assert_eq!(bound, 0);
}

#[test]
fn index_buffer_is_bound_in_the_format_of_the_mesh() {
    let mut engine = Engine::new(0, 0);
    let shader = engine.add_shader(ShaderSource::Wgsl(String::new()));
    let layout = engine.add_vertex_attributes(&COLOUR_LAYOUT);
    let mesh =
        engine.add_mesh(&COLOUR_VERTICES, layout, &WIDE_INDICES, IndexFormat::Uint32, vec![]);
    engine.add_render_pass(shader, LoadOp::Load, mesh);
    let commands = engine.materialize(2).unwrap().encode_frame();
    assert_eq!(commands[5], Command::SetIndexBuffer { mesh: 0, format: IndexFormat::Uint32 });
    assert_eq!(commands[6], draw(4));
}

#[test]
fn frame_without_passes_is_still_presented() {
    let scene = Engine::new(0, 0).materialize(2).unwrap();
    assert_eq!(
        scene.encode_frame(),
        vec![Command::AcquireFrame, Command::BeginEncoding, Command::Submit, Command::Present]
    );
}

#[test]
fn encode_pass_appends_to_what_is_recorded() {
    let scene = two_triangles().materialize(2).unwrap();
    let mut commands = vec![Command::BeginEncoding];
    encode_pass(&scene.passes[1], 9, &mut commands);
    assert_eq!(
        commands,
        vec![
            Command::BeginEncoding,
            begin(LoadOp::Load),
            Command::SetPipeline { pipeline: 9 },
            Command::SetBindGroup { index: 0, texture: 0 },
            Command::SetVertexBuffer { slot: 0, mesh: 1 },
            Command::SetIndexBuffer { mesh: 1, format: IndexFormat::Uint16 },
            draw(3),
            Command::EndRenderPass,
        ]
    );
}

#[test]
fn every_frame_is_the_same() {
    let mut frame_loop = FrameLoop::new(two_triangles(), config(1200, 800)).unwrap();
    let first = frame_loop.handle_event(own(WindowEvent::RedrawRequested));
    let _ = frame_loop.handle_event(own(WindowEvent::Resized(10, 20)));
    let second = frame_loop.handle_event(own(WindowEvent::RedrawRequested));
    assert_eq!(first, second);
}

#[test]
fn resize_stores_the_new_size_and_configures() {
    let mut frame_loop = FrameLoop::new(two_triangles(), config(1200, 800)).unwrap();
    let action = frame_loop.handle_event(own(WindowEvent::Resized(640, 480)));
    assert_eq!(action, Action::Configure(config(640, 480)));
    assert_eq!(frame_loop.config(), config(640, 480));
}

#[test]
fn resize_to_nothing_is_stored_too() {
    let mut frame_loop = FrameLoop::new(one_triangle(), config(1200, 800)).unwrap();
    let action = frame_loop.handle_event(own(WindowEvent::Resized(0, 0)));
    assert_eq!(action, Action::Configure(config(0, 0)));
    let action = frame_loop.handle_event(own(WindowEvent::Resized(u32::MAX, 1)));
    assert_eq!(action, Action::Configure(config(u32::MAX, 1)));
}

#[test]
fn resize_leaves_registry_and_scene_alone() {
    let mut frame_loop = FrameLoop::new(two_triangles(), config(1200, 800)).unwrap();
    let scene = frame_loop.scene().clone();
    let _ = frame_loop.handle_event(own(WindowEvent::Resized(640, 480)));
    let _ = frame_loop.handle_event(own(WindowEvent::Resized(1, 1)));
    assert_eq!(frame_loop.scene(), &scene);
    assert_eq!(frame_loop.registry().texture_count(), 1);
    assert_eq!(frame_loop.registry().shader_count(), 2);
    assert_eq!(frame_loop.registry().vertex_attributes_count(), 2);
    assert_eq!(frame_loop.registry().mesh_count(), 2);
    assert_eq!(frame_loop.registry().render_pass_count(), 2);
    assert_eq!(frame_loop.registry().texture(0).unwrap().data, vec![7; 16]);
    assert_eq!(frame_loop.registry().mesh(1).unwrap().texture_ids, vec![0]);
    assert_eq!(frame_loop.registry().vertex_attributes(1), Some(&TEXTURE_LAYOUT[..]));
    assert_eq!(
        frame_loop.registry().shader(1),
        Some(&ShaderSource::Wgsl(String::from("// texture")))
    );
}

#[test]
fn close_request_leaves_the_loop() {
    let mut frame_loop = FrameLoop::new(one_triangle(), config(1200, 800)).unwrap();
    assert_eq!(frame_loop.handle_event(own(WindowEvent::CloseRequested)), Action::Exit);
    assert_eq!(frame_loop.config(), config(1200, 800));
}

#[test]
fn other_events_are_ignored() {
    let mut frame_loop = FrameLoop::new(one_triangle(), config(1200, 800)).unwrap();
    assert_eq!(frame_loop.handle_event(Event::Other), Action::Nothing);
    assert_eq!(frame_loop.handle_event(own(WindowEvent::Other)), Action::Nothing);
    assert_eq!(frame_loop.config(), config(1200, 800));
}

#[test]
fn events_of_other_windows_are_ignored() {
    let mut frame_loop = FrameLoop::new(one_triangle(), config(1200, 800)).unwrap();
    assert_eq!(frame_loop.handle_event(foreign(WindowEvent::Resized(1, 2))), Action::Nothing);
    assert_eq!(frame_loop.handle_event(foreign(WindowEvent::RedrawRequested)), Action::Nothing);
    assert_eq!(frame_loop.handle_event(foreign(WindowEvent::CloseRequested)), Action::Nothing);
    assert_eq!(frame_loop.handle_event(foreign(WindowEvent::Other)), Action::Nothing);
    assert_eq!(frame_loop.config(), config(1200, 800));
}

#[test]
fn frame_loop_keeps_registry_and_configuration() {
    let frame_loop = FrameLoop::new(two_triangles(), config(3, 4)).unwrap();
    assert_eq!(frame_loop.config(), config(3, 4));
    assert_eq!(Ok(frame_loop.scene().clone()), frame_loop.registry().materialize(2));
}

#[test]
fn frame_loop_does_not_start_on_a_faulty_registry() {
    let mut engine = one_triangle();
    engine.add_render_pass(0, LoadOp::Load, 1);
    match FrameLoop::new(engine, config(1, 1)) {
        Err(error) => assert_eq!(error, ConfigError::UnknownMesh { render_pass: 1 }),
        Ok(_) => panic!("the registry names an unregistered mesh"),
    }
    let mut engine = one_triangle();
    engine.add_vertex_attributes(&BAD_LAYOUT);
    match FrameLoop::new(engine, config(1, 1)) {
        Err(error) => assert_eq!(
            error,
            ConfigError::Layout {
                layout: 1,
                error: LayoutError::UnsupportedFormat { attribute: 0 }
            }
        ),
        Ok(_) => panic!("the registry holds a layout that cannot be built"),
    }
}

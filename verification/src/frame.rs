//! The frame loop: what each window event leads to, and the commands that
//! redraw the scene.

use crate::descriptor::StoreOp;
use crate::engine::{Engine, EngineView, LoadOp};
use crate::format::IndexFormat;
use crate::scene::{ConfigError, PassPlan, Scene};
use crate::surface::SurfaceConfig;
use vstd::prelude::*;

verus! {

/// One step of drawing a frame. Pipelines are named by the position of their
/// render pass, binding sets by the handle of their texture, buffers by the
/// handle of their mesh.
#[derive(Clone, Copy, Debug, PartialEq, Eq, Structural)]
pub enum Command {
    /// Acquire the next frame buffer of the surface and make a view of it.
    AcquireFrame,
    /// Open the recording of commands.
    BeginEncoding,
    /// Begin a render pass whose one colour target is the view of the frame.
    BeginRenderPass { load_op: LoadOp, store_op: StoreOp },
    SetPipeline { pipeline: usize },
    SetBindGroup { index: usize, texture: usize },
    /// Bind the whole vertex buffer of a mesh.
    SetVertexBuffer { slot: u32, mesh: usize },
    /// Bind the whole index buffer of a mesh.
    SetIndexBuffer { mesh: usize, format: IndexFormat },
    /// Draw the indices from `first_index` up to `end_index`, for the
    /// instances from `first_instance` up to `end_instance`.
    DrawIndexed {
        first_index: usize,
        end_index: usize,
        base_vertex: i32,
        first_instance: u32,
        end_instance: u32,
    },
    EndRenderPass,
    /// Close the recording and submit it to the queue.
    Submit,
    /// Present the acquired frame.
    Present,
}

/// What the window system tells about a window.
#[derive(Clone, Copy, Debug, PartialEq, Eq, Structural)]
pub enum WindowEvent {
    /// The window has this width and height now, in pixels.
    Resized(u32, u32),
    RedrawRequested,
    CloseRequested,
    /// Anything else.
    Other,
}

/// What the window system tells.
#[derive(Clone, Copy, Debug, PartialEq, Eq, Structural)]
pub enum Event {
    /// Something about a window; `own_window` says whether it is the window
    /// of the frame loop.
    WindowEvent { own_window: bool, event: WindowEvent },
    /// Anything else.
    Other,
}

/// What is to be done about an event.
#[derive(Clone, Debug, PartialEq, Eq)]
pub enum Action {
    /// Configure the surface anew.
    Configure(SurfaceConfig),
    /// Carry out these commands, in order.
    Render(Vec<Command>),
    /// Leave the loop.
    Exit,
    Nothing,
}

/// The state of the frame loop: the registry, closed for good, the scene
/// materialized from it, and the configuration of the surface. Registry and
/// scene never change, and the scene is always that of the registry for the
/// format of the surface.
#[derive(Debug)]
pub struct FrameLoop<'l> {
    registry: Engine<'l>,
    scene: Scene,
    config: SurfaceConfig,
}

/// The state of the frame loop as mathematical values.
pub struct FrameLoopView {
    pub registry: EngineView,
    pub scene: Scene,
    pub config: SurfaceConfig,
}

impl<'l> View for FrameLoop<'l> {
    type V = FrameLoopView;

    closed spec fn view(&self) -> FrameLoopView {
        FrameLoopView { registry: self.registry@, scene: self.scene, config: self.config }
    }
}

impl FrameLoopView {
    /// The scene is that of the registry, for the format of the surface, and
    /// none of its handles points nowhere.
    pub open spec fn is_materialized(self) -> bool {
        &&& self.registry.is_valid()
        &&& self.scene.describes(self.registry, self.config.format)
        &&& self.scene.is_closed(self.registry.shaders.len())
    }
}

/// The commands that bind the binding sets of the given textures: the first
/// at index 0, the next at index 1, and so on.
pub open spec fn bind_commands(textures: Seq<usize>) -> Seq<Command> {
    Seq::new(
        textures.len(),
        |index: int| Command::SetBindGroup { index: index as usize, texture: textures[index] },
    )
}

/// The commands of one render pass, whose pipeline is `pipeline`: begin with
/// the pass's load operation, bind the pipeline, the binding sets, the vertex
/// buffer at slot 0 and the index buffer in the format of the mesh, and draw
/// all indices once.
pub open spec fn pass_commands(pass: PassPlan, pipeline: int) -> Seq<Command> {
    seq![
        Command::BeginRenderPass { load_op: pass.load_op, store_op: StoreOp::Store },
        Command::SetPipeline { pipeline: pipeline as usize },
    ] + bind_commands(pass.bind_groups@) + seq![
        Command::SetVertexBuffer { slot: 0, mesh: pass.mesh },
        Command::SetIndexBuffer { mesh: pass.mesh, format: pass.index_format },
        Command::DrawIndexed {
            first_index: 0,
            end_index: pass.num_indices,
            base_vertex: 0,
            first_instance: 0,
            end_instance: 1,
        },
        Command::EndRenderPass,
    ]
}

/// The commands of the first `n` render passes, one pass after the other in
/// the order of declaration.
pub open spec fn passes_commands(passes: Seq<PassPlan>, n: int) -> Seq<Command>
    decreases n,
{
    if n <= 0 {
        Seq::empty()
    } else {
        passes_commands(passes, n - 1) + pass_commands(passes[n - 1], n - 1)
    }
}

/// The commands of one frame: acquire the frame, open the recording, record
/// every render pass, submit, present.
pub open spec fn frame_commands(passes: Seq<PassPlan>) -> Seq<Command> {
    seq![Command::AcquireFrame, Command::BeginEncoding] + passes_commands(
        passes,
        passes.len() as int,
    ) + seq![Command::Submit, Command::Present]
}

/// Where the commands of render pass `p` begin among the commands of all
/// passes.
pub open spec fn pass_start(passes: Seq<PassPlan>, p: int) -> int {
    passes_commands(passes, p).len() as int
}

/// A render pass is six commands and one more for each binding set. The
/// binding sets are bound between the pipeline and the vertex buffer, the
/// `k`-th texture of the pass at index `k`; no other command of the pass
/// binds a binding set.
pub proof fn lemma_pass_binds_its_textures(pass: PassPlan, pipeline: int)
    ensures
        pass_commands(pass, pipeline).len() == 6 + pass.bind_groups@.len(),
        forall|k: int|
            0 <= k < pass.bind_groups@.len() ==> #[trigger] pass_commands(pass, pipeline)[2 + k]
                == (Command::SetBindGroup { index: k as usize, texture: pass.bind_groups@[k] }),
        forall|i: int|
            0 <= i < pass_commands(pass, pipeline).len() && (#[trigger] pass_commands(
                pass,
                pipeline,
            )[i]) is SetBindGroup ==> 2 <= i < 2 + pass.bind_groups@.len(),
{
}

/// A pass whose mesh has no textures has a pipeline without binding set
/// layouts, and binds no binding set when it is recorded.
pub proof fn lemma_untextured_pass_binds_nothing(
    registry: EngineView,
    plan: PassPlan,
    p: int,
)
    requires
        plan.describes(registry, p, plan.target_format),
        registry.meshes[registry.render_passes[p].mesh_id as int].texture_ids.len() == 0,
    ensures
        plan.bind_groups@.len() == 0,
        forall|i: int|
            0 <= i < pass_commands(plan, p).len() ==> !((#[trigger] pass_commands(plan, p)[i])
                is SetBindGroup),
{
    lemma_pass_binds_its_textures(plan, p);
}

/// The commands of the first `n` passes are the beginning of the commands of
/// the first `m`, for `n` up to `m`.
proof fn lemma_passes_commands_prefix(passes: Seq<PassPlan>, n: int, m: int)
    requires
        0 <= n <= m,
    ensures
        pass_start(passes, n) <= pass_start(passes, m),
        passes_commands(passes, m).take(pass_start(passes, n)) == passes_commands(
            passes,
            n,
        ),
    decreases m - n,
{
    if n < m {
        lemma_passes_commands_prefix(passes, n, m - 1);
        assert(passes_commands(passes, m).take(pass_start(passes, n)) =~= passes_commands(
            passes,
            m - 1,
        ).take(pass_start(passes, n)));
    } else {
        assert(passes_commands(passes, m).take(pass_start(passes, n)) =~= passes_commands(
            passes,
            n,
        ));
    }
}

/// Render passes are recorded in the order of their declaration: in the
/// commands of a frame, the commands of pass `p` stand together, after the
/// two opening commands and the commands of all passes before `p`, and
/// before the commands of every later pass `q`.
pub proof fn lemma_passes_in_order(passes: Seq<PassPlan>, p: int, q: int)
    requires
        0 <= p < q < passes.len(),
    ensures
        pass_start(passes, p + 1) == pass_start(passes, p) + pass_commands(passes[p], p).len(),
        pass_start(passes, p + 1) <= pass_start(passes, q),
        2 + pass_start(passes, q + 1) + 2 <= frame_commands(passes).len(),
        frame_commands(passes).subrange(
            2 + pass_start(passes, p),
            2 + pass_start(passes, p + 1),
        ) == pass_commands(passes[p], p),
        frame_commands(passes).subrange(
            2 + pass_start(passes, q),
            2 + pass_start(passes, q + 1),
        ) == pass_commands(passes[q], q),
{
    let all = passes_commands(passes, passes.len() as int);
    lemma_passes_commands_prefix(passes, p + 1, q);
    lemma_passes_commands_prefix(passes, q + 1, passes.len() as int);
    lemma_passes_commands_prefix(passes, p + 1, passes.len() as int);
    lemma_passes_commands_prefix(passes, p, p + 1);
    lemma_passes_commands_prefix(passes, q, q + 1);
    assert(all.take(pass_start(passes, p + 1)).subrange(
        pass_start(passes, p),
        pass_start(passes, p + 1),
    ) =~= pass_commands(passes[p], p));
    assert(all.take(pass_start(passes, q + 1)).subrange(
        pass_start(passes, q),
        pass_start(passes, q + 1),
    ) =~= pass_commands(passes[q], q));
    assert(frame_commands(passes).subrange(
        2 + pass_start(passes, p),
        2 + pass_start(passes, p + 1),
    ) =~= all.take(pass_start(passes, p + 1)).subrange(
        pass_start(passes, p),
        pass_start(passes, p + 1),
    ));
    assert(frame_commands(passes).subrange(
        2 + pass_start(passes, q),
        2 + pass_start(passes, q + 1),
    ) =~= all.take(pass_start(passes, q + 1)).subrange(
        pass_start(passes, q),
        pass_start(passes, q + 1),
    ));
}

/// What a render target shows, as far as commands tell: the colour it was
/// last cleared to, if it was cleared, and the pipelines that have drawn onto
/// it since, the first at the bottom. `pipeline` is the pipeline that is
/// bound in the pass that is being recorded.
pub struct Target {
    pub background: Option<(u64, u64, u64, u64)>,
    pub drawn: Seq<usize>,
    pub pipeline: Option<usize>,
}

/// What one command does to the target. Beginning a pass that clears leaves
/// the clear colour and nothing drawn; beginning a pass that loads leaves the
/// target as it is; a draw puts the output of the bound pipeline on top.
pub open spec fn apply(target: Target, command: Command) -> Target {
    match command {
        Command::BeginRenderPass { load_op: LoadOp::Clear(r, g, b, a), .. } => Target {
            background: Some((r, g, b, a)),
            drawn: Seq::empty(),
            pipeline: None,
        },
        Command::BeginRenderPass { load_op: LoadOp::Load, .. } => Target {
            pipeline: None,
            ..target
        },
        Command::SetPipeline { pipeline } => Target { pipeline: Some(pipeline), ..target },
        Command::DrawIndexed { .. } => match target.pipeline {
            Some(pipeline) => Target { drawn: target.drawn.push(pipeline), ..target },
            None => target,
        },
        _ => target,
    }
}

/// What a list of commands does to the target, one command after the other.
pub open spec fn run(target: Target, commands: Seq<Command>) -> Target
    decreases commands.len(),
{
    if commands.len() == 0 {
        target
    } else {
        apply(run(target, commands.drop_last()), commands.last())
    }
}

/// The target once the first `n` render passes of a frame are recorded.
pub open spec fn target_after(start: Target, passes: Seq<PassPlan>, n: int) -> Target {
    run(start, seq![Command::AcquireFrame, Command::BeginEncoding] + passes_commands(passes, n))
}

/// Running one more command.
proof fn lemma_run_push(target: Target, commands: Seq<Command>, command: Command)
    ensures
        run(target, commands.push(command)) == apply(run(target, commands), command),
{
    assert(commands.push(command).drop_last() =~= commands);
}

/// Running two lists one after the other is running their concatenation.
proof fn lemma_run_concat(target: Target, first: Seq<Command>, second: Seq<Command>)
    ensures
        run(target, first + second) == run(run(target, first), second),
    decreases second.len(),
{
    if second.len() == 0 {
        assert(first + second =~= first);
    } else {
        lemma_run_concat(target, first, second.drop_last());
        assert((first + second).drop_last() =~= first + second.drop_last());
    }
}

/// Binding binding sets does nothing to the target.
proof fn lemma_run_binds(target: Target, textures: Seq<usize>)
    ensures
        run(target, bind_commands(textures)) == target,
    decreases textures.len(),
{
    if textures.len() > 0 {
        lemma_run_binds(target, textures.drop_last());
        assert(bind_commands(textures).drop_last() =~= bind_commands(textures.drop_last()));
    }
}

/// What recording one render pass does to the target: the output of the
/// pass's pipeline comes on top of what the target showed if the pass loads,
/// and on top of the clear colour alone if the pass clears.
pub proof fn lemma_run_pass(target: Target, pass: PassPlan, pipeline: int)
    requires
        0 <= pipeline <= usize::MAX,
    ensures
        run(target, pass_commands(pass, pipeline)) == (match pass.load_op {
            LoadOp::Clear(r, g, b, a) => Target {
                background: Some((r, g, b, a)),
                drawn: seq![pipeline as usize],
                pipeline: Some(pipeline as usize),
            },
            LoadOp::Load => Target {
                background: target.background,
                drawn: target.drawn.push(pipeline as usize),
                pipeline: Some(pipeline as usize),
            },
        }),
{
    let begin = Command::BeginRenderPass { load_op: pass.load_op, store_op: StoreOp::Store };
    let set_pipeline = Command::SetPipeline { pipeline: pipeline as usize };
    let vertices = Command::SetVertexBuffer { slot: 0, mesh: pass.mesh };
    let indices = Command::SetIndexBuffer { mesh: pass.mesh, format: pass.index_format };
    let draw = Command::DrawIndexed {
        first_index: 0,
        end_index: pass.num_indices,
        base_vertex: 0,
        first_instance: 0,
        end_instance: 1,
    };
    let head = Seq::<Command>::empty().push(begin).push(set_pipeline);
    let tail = Seq::<Command>::empty().push(vertices).push(indices).push(draw).push(
        Command::EndRenderPass,
    );
    let binds = bind_commands(pass.bind_groups@);
    assert(pass_commands(pass, pipeline) =~= head + binds + tail);
    lemma_run_concat(target, head + binds, tail);
    lemma_run_concat(target, head, binds);
    lemma_run_push(target, Seq::empty(), begin);
    lemma_run_push(target, Seq::<Command>::empty().push(begin), set_pipeline);
    let bound = run(target, head);
    lemma_run_binds(bound, pass.bind_groups@);
    lemma_run_push(bound, Seq::empty(), vertices);
    lemma_run_push(bound, Seq::<Command>::empty().push(vertices), indices);
    lemma_run_push(bound, Seq::<Command>::empty().push(vertices).push(indices), draw);
    lemma_run_push(
        bound,
        Seq::<Command>::empty().push(vertices).push(indices).push(draw),
        Command::EndRenderPass,
    );
    assert(Seq::<usize>::empty().push(pipeline as usize) =~= seq![pipeline as usize]);
}

/// A pass that loads never erases what earlier passes of the frame have
/// drawn. Once pass `p` of a frame is recorded, the target shows the output
/// of `p` on top; beneath it, if `p` loads, all that the target showed before
/// `p`, with its background; and if `p` clears, the clear colour of `p` and
/// nothing else.
pub proof fn lemma_load_preserves_earlier_passes(start: Target, passes: Seq<PassPlan>, p: int)
    requires
        0 <= p < passes.len(),
        passes.len() <= usize::MAX,
    ensures
        target_after(start, passes, p + 1).drawn.last() == p,
        passes[p].load_op is Load ==> {
            &&& target_after(start, passes, p + 1).drawn == target_after(start, passes, p).drawn.push(
                p as usize,
            )
            &&& target_after(start, passes, p + 1).background == target_after(
                start,
                passes,
                p,
            ).background
        },
        passes[p].load_op matches LoadOp::Clear(r, g, b, a) ==> {
            &&& target_after(start, passes, p + 1).drawn == seq![p as usize]
            &&& target_after(start, passes, p + 1).background == Some((r, g, b, a))
        },
{
    let prologue = seq![Command::AcquireFrame, Command::BeginEncoding];
    let before = prologue + passes_commands(passes, p);
    assert(prologue + passes_commands(passes, p + 1) =~= before + pass_commands(passes[p], p));
    lemma_run_concat(start, before, pass_commands(passes[p], p));
    lemma_run_pass(run(start, before), passes[p], p);
}

/// The output of a pass stays visible beneath the passes that load after
/// it. If every pass after `a` up to `b` loads, then once `b` is recorded the
/// target still shows all that it showed when `a` was recorded, the output of
/// `a` on top of that, with the same background, and over it the outputs of
/// the passes after `a` up to `b`, that of `b` on top.
pub proof fn lemma_earlier_pass_stays_beneath(
    start: Target,
    passes: Seq<PassPlan>,
    a: int,
    b: int,
)
    requires
        0 <= a <= b < passes.len(),
        passes.len() <= usize::MAX,
        forall|k: int| a < k <= b ==> (#[trigger] passes[k]).load_op is Load,
    ensures
        target_after(start, passes, a + 1).drawn.last() == a,
        target_after(start, passes, b + 1).drawn.last() == b,
        target_after(start, passes, b + 1).background == target_after(
            start,
            passes,
            a + 1,
        ).background,
        target_after(start, passes, b + 1).drawn.len() == target_after(
            start,
            passes,
            a + 1,
        ).drawn.len() + (b - a),
        target_after(start, passes, b + 1).drawn.take(
            target_after(start, passes, a + 1).drawn.len() as int,
        ) == target_after(start, passes, a + 1).drawn,
        forall|k: int|
            a < k <= b ==> #[trigger] target_after(start, passes, b + 1).drawn[target_after(
                start,
                passes,
                a + 1,
            ).drawn.len() + (k - a - 1)] == k,
    decreases b - a,
{
    let after_a = target_after(start, passes, a + 1).drawn;
    lemma_load_preserves_earlier_passes(start, passes, a);
    if a < b {
        lemma_earlier_pass_stays_beneath(start, passes, a, b - 1);
        lemma_load_preserves_earlier_passes(start, passes, b);
        let before_b = target_after(start, passes, b).drawn;
        assert(before_b.push(b as usize).take(after_a.len() as int) =~= before_b.take(
            after_a.len() as int,
        ));
    } else {
        assert(after_a.take(after_a.len() as int) =~= after_a);
    }
}

/// Submitting and presenting do nothing to the target: what a whole frame
/// leaves on it is what its render passes leave.
pub proof fn lemma_frame_shows_its_passes(start: Target, passes: Seq<PassPlan>)
    ensures
        run(start, frame_commands(passes)) == target_after(start, passes, passes.len() as int),
{
    let recorded = seq![Command::AcquireFrame, Command::BeginEncoding] + passes_commands(
        passes,
        passes.len() as int,
    );
    assert(frame_commands(passes) =~= recorded.push(Command::Submit).push(Command::Present));
    lemma_run_push(start, recorded, Command::Submit);
    lemma_run_push(start, recorded.push(Command::Submit), Command::Present);
}

/// Records one render pass at the end of `commands`.
pub fn encode_pass(pass: &PassPlan, pipeline: usize, commands: &mut Vec<Command>)
    ensures
        final(commands)@ == old(commands)@ + pass_commands(*pass, pipeline as int),
{
    commands.push(Command::BeginRenderPass { load_op: pass.load_op, store_op: StoreOp::Store });
    commands.push(Command::SetPipeline { pipeline });
    let ghost before = commands@;
    let mut slot: usize = 0;
    while slot < pass.bind_groups.len()
        invariant
            slot <= pass.bind_groups.len(),
            commands@ == before + bind_commands(pass.bind_groups@).take(slot as int),
        decreases pass.bind_groups.len() - slot,
    {
        commands.push(Command::SetBindGroup { index: slot, texture: pass.bind_groups[slot] });
        assert(bind_commands(pass.bind_groups@).take(slot + 1) =~= bind_commands(
            pass.bind_groups@,
        ).take(slot as int).push(bind_commands(pass.bind_groups@)[slot as int]));
        slot += 1;
    }
    assert(bind_commands(pass.bind_groups@).take(pass.bind_groups@.len() as int)
        =~= bind_commands(pass.bind_groups@));
    commands.push(Command::SetVertexBuffer { slot: 0, mesh: pass.mesh });
    commands.push(Command::SetIndexBuffer { mesh: pass.mesh, format: pass.index_format });
    commands.push(
        Command::DrawIndexed {
            first_index: 0,
            end_index: pass.num_indices,
            base_vertex: 0,
            first_instance: 0,
            end_instance: 1,
        },
    );
    commands.push(Command::EndRenderPass);
    assert(commands@ =~= old(commands)@ + pass_commands(*pass, pipeline as int));
}

impl Scene {
    /// The commands that draw one frame of the scene.
    pub fn encode_frame(&self) -> (commands: Vec<Command>)
        ensures
            commands@ == frame_commands(self.passes@),
    {
        let mut commands: Vec<Command> = Vec::new();
        commands.push(Command::AcquireFrame);
        commands.push(Command::BeginEncoding);
        let ghost prologue = commands@;
        let mut p: usize = 0;
        while p < self.passes.len()
            invariant
                p <= self.passes.len(),
                commands@ == prologue + passes_commands(self.passes@, p as int),
            decreases self.passes.len() - p,
        {
            encode_pass(&self.passes[p], p, &mut commands);
            assert(commands@ =~= prologue + passes_commands(self.passes@, p + 1));
            p += 1;
        }
        commands.push(Command::Submit);
        commands.push(Command::Present);
        assert(commands@ =~= frame_commands(self.passes@));
        commands
    }
}

impl<'l> FrameLoop<'l> {
    #[verifier::type_invariant]
    spec fn materialized(self) -> bool {
        self@.is_materialized()
    }

    /// Closes the registry and materializes its scene, once and for all, for
    /// a surface that was configured with `config`: every pipeline targets
    /// the format of `config`. This succeeds exactly where the registry
    /// describes a scene; where it does not, the error is that of
    /// [`Engine::materialize`].
    pub fn new(registry: Engine<'l>, config: SurfaceConfig) -> (result: Result<
        FrameLoop<'l>,
        ConfigError,
    >)
        ensures
            result is Ok <==> registry@.is_valid(),
            match result {
                Ok(frame_loop) => {
                    &&& frame_loop@.registry == registry@
                    &&& frame_loop@.config == config
                    &&& frame_loop@.is_materialized()
                },
                Err(error) => registry@.reports(error),
            },
    {
        match registry.materialize(config.format) {
            Ok(scene) => Ok(FrameLoop { registry, scene, config }),
            Err(error) => Err(error),
        }
    }

    /// The registry. It can be read, and no more be added to.
    pub fn registry(&self) -> (registry: &Engine<'l>)
        ensures
            registry@ == self@.registry,
            self@.is_materialized(),
    {
        proof {
            use_type_invariant(self);
        }
        &self.registry
    }

    /// The scene of the registry, for the format of the surface.
    pub fn scene(&self) -> (scene: &Scene)
        ensures
            *scene == self@.scene,
            self@.is_materialized(),
    {
        proof {
            use_type_invariant(self);
        }
        &self.scene
    }

    /// The configuration that the surface has.
    pub fn config(&self) -> (config: SurfaceConfig)
        ensures
            config == self@.config,
    {
        self.config
    }

    /// Takes one event and says what is to be done about it.
    ///
    /// Only events about the loop's own window count. When the window was
    /// resized, the new width and height are stored in the configuration,
    /// nothing else in it changes, and the surface is to be configured with
    /// it. When a redraw is asked for, the frame is to be drawn. When the
    /// window is asked to close, the loop is to be left. Every other event is
    /// ignored. No event changes the registry or the scene.
    pub fn handle_event(&mut self, event: Event) -> (action: Action)
        ensures
            final(self)@.registry == old(self)@.registry,
            final(self)@.scene == old(self)@.scene,
            final(self)@.is_materialized(),
            match event {
                Event::WindowEvent { own_window: true, event: WindowEvent::Resized(width, height) } => {
                    &&& final(self)@.config == (SurfaceConfig {
                        width,
                        height,
                        ..old(self)@.config
                    })
                    &&& action == Action::Configure(final(self)@.config)
                },
                Event::WindowEvent { own_window: true, event: WindowEvent::RedrawRequested } => {
                    &&& final(self)@.config == old(self)@.config
                    &&& action matches Action::Render(commands)
                    &&& commands@ == frame_commands(old(self)@.scene.passes@)
                },
                Event::WindowEvent { own_window: true, event: WindowEvent::CloseRequested } => {
                    &&& final(self)@.config == old(self)@.config
                    &&& action == Action::Exit
                },
                _ => {
                    &&& final(self)@.config == old(self)@.config
                    &&& action == Action::Nothing
                },
            },
    {
        proof {
            use_type_invariant(&*self);
        }
        match event {
            Event::WindowEvent { own_window: true, event } => {
                match event {
                    WindowEvent::Resized(width, height) => {
                        self.config.width = width;
                        self.config.height = height;
                        Action::Configure(self.config)
                    },
                    WindowEvent::RedrawRequested => Action::Render(self.scene.encode_frame()),
                    WindowEvent::CloseRequested => Action::Exit,
                    WindowEvent::Other => Action::Nothing,
                }
            },
            _ => Action::Nothing,
        }
    }
}

} // verus!

//! The shader-program lifecycle as a state machine.
//!
//! A `ProgramBuilder` walks one program from nothing to a linked, resolved
//! `ShaderProgram`, or to a failure with every object released again. It
//! never performs a driver call: each step hands back the commands to replay
//! and `pending` says which outcome the builder is waiting for next.

use vstd::prelude::*;
use vstd::string::StringExecFns;
use crate::rendering::geometry::{lemma_geometry_account, GeometryBuffer, GeometryView};
use crate::rendering::gl_utils::{
    check_link,
    compiled,
    create_shader,
    create_shader_from_string,
    is_contract_name,
    is_contract_uniform,
    linked,
    resolve,
    resolved,
    GpuError,
    GpuErrorView,
    UniformHandle,
    UniformPolicy,
};
use crate::rendering::gpu::{
    apply,
    lemma_run_concat,
    lemma_run_push,
    lemma_run_short,
    run,
    GpuCommand,
    GpuModel,
    GpuObject,
    ShaderStage,
    UniformValue,
};
use crate::shadertoy::shadertoy_engine::{assembled_source, ShaderToyEngine};

verus! {

/// Where a stage's GLSL comes from.
pub enum ShaderSource {
    /// Read whole from the file at this path.
    File(String),
    /// Given in memory.
    Inline(String),
    /// A `mainImage` snippet read from the file at this path, to be wrapped
    /// into a complete fragment shader.
    Toy(String),
}

pub enum ShaderSourceView {
    File(Seq<char>),
    Inline(Seq<char>),
    Toy(Seq<char>),
}

impl View for ShaderSource {
    type V = ShaderSourceView;

    open spec fn view(&self) -> ShaderSourceView {
        match *self {
            ShaderSource::File(path) => ShaderSourceView::File(path@),
            ShaderSource::Inline(text) => ShaderSourceView::Inline(text@),
            ShaderSource::Toy(path) => ShaderSourceView::Toy(path@),
        }
    }
}

impl ShaderSourceView {
    /// The file behind the source, if it has one.
    pub open spec fn path(self) -> Option<Seq<char>> {
        match self {
            ShaderSourceView::File(path) => Some(path),
            ShaderSourceView::Inline(_) => None,
            ShaderSourceView::Toy(path) => Some(path),
        }
    }

    /// The GLSL to compile, given what the file held.
    pub open spec fn expand(self, contents: Seq<char>) -> Seq<char> {
        match self {
            ShaderSourceView::Toy(_) => assembled_source(Some(contents)),
            _ => contents,
        }
    }
}

/// A uniform a program is expected to expose, and what its absence means.
/// Only names of the shared uniform contract can be strict.
pub struct UniformSpec {
    name: String,
    policy: UniformPolicy,
}

pub struct UniformSpecView {
    pub name: Seq<char>,
    pub policy: UniformPolicy,
}

impl View for UniformSpec {
    type V = UniformSpecView;

    closed spec fn view(&self) -> UniformSpecView {
        UniformSpecView { name: self.name@, policy: self.policy }
    }
}

impl UniformSpec {
    #[verifier::type_invariant]
    spec fn within_contract(&self) -> bool {
        self.policy is Strict ==> is_contract_uniform(self.name@)
    }

    /// A uniform whose absence is an error. Only a name of the shared
    /// contract can be demanded; any other name is refused.
    pub fn strict(name: String) -> (spec: Option<UniformSpec>)
        ensures
            spec is Some <==> is_contract_uniform(name@),
            spec matches Some(s) ==> s@ == (UniformSpecView {
                name: name@,
                policy: UniformPolicy::Strict,
            }),
    {
        if is_contract_name(&name) {
            Some(UniformSpec { name, policy: UniformPolicy::Strict })
        } else {
            None
        }
    }

    /// A uniform whose absence is tolerated.
    pub fn permissive(name: String) -> (spec: UniformSpec)
        ensures
            spec@ == (UniformSpecView { name: name@, policy: UniformPolicy::Permissive }),
    {
        UniformSpec { name, policy: UniformPolicy::Permissive }
    }

    pub fn name(&self) -> (name: &String)
        ensures
            name@ == self@.name,
    {
        &self.name
    }

    /// The policy of this uniform. A strict uniform is always one of the
    /// shared contract: nothing outside the contract can be required.
    pub fn policy(&self) -> (policy: UniformPolicy)
        ensures
            policy == self@.policy,
            policy is Strict ==> is_contract_uniform(self@.name),
    {
        proof {
            use_type_invariant(self);
        }
        self.policy
    }
}

/// What a program is made of: its two stages and the uniforms it exposes.
pub struct ProgramConfig {
    pub vertex: ShaderSource,
    pub fragment: ShaderSource,
    pub uniforms: Vec<UniformSpec>,
}

pub struct ProgramConfigView {
    pub vertex: ShaderSourceView,
    pub fragment: ShaderSourceView,
    pub uniforms: Seq<UniformSpecView>,
}

impl View for ProgramConfig {
    type V = ProgramConfigView;

    open spec fn view(&self) -> ProgramConfigView {
        ProgramConfigView {
            vertex: self.vertex@,
            fragment: self.fragment@,
            uniforms: Seq::new(self.uniforms@.len(), |i: int| self.uniforms@[i]@),
        }
    }
}

impl ProgramConfig {
    /// A program of two stages that exposes no uniform yet.
    pub fn new(vertex: ShaderSource, fragment: ShaderSource) -> (config: ProgramConfig)
        ensures
            config@ == (ProgramConfigView {
                vertex: vertex@,
                fragment: fragment@,
                uniforms: Seq::empty(),
            }),
    {
        let config = ProgramConfig { vertex, fragment, uniforms: Vec::new() };
        assert(config@.uniforms =~= Seq::empty());
        config
    }

    /// Adds a uniform after those already listed.
    pub fn expose(&mut self, uniform: UniformSpec)
        ensures
            final(self)@ == (ProgramConfigView {
                uniforms: old(self)@.uniforms.push(uniform@),
                ..old(self)@
            }),
    {
        self.uniforms.push(uniform);
        assert(self@.uniforms =~= old(self)@.uniforms.push(uniform@));
    }

    /// Adds a uniform whose absence is an error, where `name` belongs to
    /// the shared contract; any other name is refused and nothing changes.
    pub fn expose_strict(&mut self, name: &str) -> (accepted: bool)
        ensures
            accepted == is_contract_uniform(name@),
            accepted ==> final(self)@ == (ProgramConfigView {
                uniforms: old(self)@.uniforms.push(
                    UniformSpecView { name: name@, policy: UniformPolicy::Strict },
                ),
                ..old(self)@
            }),
            !accepted ==> final(self)@ == old(self)@,
    {
        match UniformSpec::strict(String::from_str(name)) {
            Some(uniform) => {
                self.expose(uniform);
                true
            },
            None => false,
        }
    }

    /// Adds a uniform whose absence is tolerated.
    pub fn expose_permissive(&mut self, name: &str)
        ensures
            final(self)@ == (ProgramConfigView {
                uniforms: old(self)@.uniforms.push(
                    UniformSpecView { name: name@, policy: UniformPolicy::Permissive },
                ),
                ..old(self)@
            }),
    {
        self.expose(UniformSpec::permissive(String::from_str(name)));
    }
}

impl ProgramConfigView {
    /// No uniform outside the shared contract is required: whatever is not
    /// part of the contract is resolved permissively.
    pub open spec fn within_contract(self) -> bool {
        forall|i: int|
            0 <= i < self.uniforms.len() ==> ((#[trigger] self.uniforms[i]).policy is Strict
                ==> is_contract_uniform(self.uniforms[i].name))
    }

    pub open spec fn source(self, stage: ShaderStage) -> ShaderSourceView {
        match stage {
            ShaderStage::Vertex => self.vertex,
            ShaderStage::Fragment => self.fragment,
        }
    }
}

#[derive(Clone, Copy, Debug, PartialEq, Eq, Structural)]
pub enum BuildPhase {
    /// Nothing exists yet.
    Created,
    /// Waiting for the contents of the stage's file.
    Sourcing(ShaderStage),
    /// Waiting for the stage's compile status.
    Compiling(ShaderStage),
    /// Waiting for the link status.
    Linking,
    /// Waiting for the location of the next uniform.
    Resolving,
    /// Linked and resolved; only the program object is left.
    Ready,
    /// Given up; nothing is left.
    Failed,
}

/// What the builder waits for.
#[derive(Clone, Copy, Debug, PartialEq, Eq, Structural)]
pub enum BuildRequest {
    /// Call `start`.
    Start,
    /// Read the stage's file and report its contents, or that it is missing.
    ReadSource(ShaderStage),
    /// Report the stage's compile status and, on failure, the info log.
    CompileStatus(ShaderStage),
    /// Report the link status and, on failure, the info log.
    LinkStatus,
    /// Report the location of the uniform with this index, if it has one.
    UniformLocation(usize),
    /// Nothing more: call `finish`.
    Done,
}

/// An outcome reported back to the builder.
pub enum BuildEvent {
    Source(Option<String>),
    Compiled { ok: bool, log: String },
    Linked { ok: bool, log: String },
    Uniform(Option<u32>),
}

pub enum BuildEventView {
    Source(Option<Seq<char>>),
    Compiled { ok: bool, log: Seq<char> },
    Linked { ok: bool, log: Seq<char> },
    Uniform(Option<u32>),
}

impl View for BuildEvent {
    type V = BuildEventView;

    open spec fn view(&self) -> BuildEventView {
        match *self {
            BuildEvent::Source(contents) => BuildEventView::Source(
                match contents {
                    Some(text) => Some(text@),
                    None => None,
                },
            ),
            BuildEvent::Compiled { ok, log } => BuildEventView::Compiled { ok, log: log@ },
            BuildEvent::Linked { ok, log } => BuildEventView::Linked { ok, log: log@ },
            BuildEvent::Uniform(found) => BuildEventView::Uniform(found),
        }
    }
}

/// The builder as a plain value.
pub struct BuilderView {
    pub config: ProgramConfigView,
    pub phase: BuildPhase,
    pub vertex_text: Seq<char>,
    pub fragment_text: Seq<char>,
    pub handles: Seq<UniformHandle>,
    pub error: Option<GpuErrorView>,
}

impl BuilderView {
    /// The builder as `ProgramBuilder::new` leaves it.
    pub open spec fn initial(config: ProgramConfigView) -> BuilderView {
        BuilderView {
            config,
            phase: BuildPhase::Created,
            vertex_text: Seq::empty(),
            fragment_text: Seq::empty(),
            handles: Seq::empty(),
            error: None,
        }
    }

    pub open spec fn text(self, stage: ShaderStage) -> Seq<char> {
        match stage {
            ShaderStage::Vertex => self.vertex_text,
            ShaderStage::Fragment => self.fragment_text,
        }
    }

    pub open spec fn with_text(self, stage: ShaderStage, text: Seq<char>) -> BuilderView {
        match stage {
            ShaderStage::Vertex => BuilderView { vertex_text: text, ..self },
            ShaderStage::Fragment => BuilderView { fragment_text: text, ..self },
        }
    }

    /// What the builder waits for.
    pub open spec fn pending(self) -> BuildRequest {
        match self.phase {
            BuildPhase::Created => BuildRequest::Start,
            BuildPhase::Sourcing(stage) => BuildRequest::ReadSource(stage),
            BuildPhase::Compiling(stage) => BuildRequest::CompileStatus(stage),
            BuildPhase::Linking => BuildRequest::LinkStatus,
            BuildPhase::Resolving => if self.handles.len() <= usize::MAX {
                BuildRequest::UniformLocation(self.handles.len() as usize)
            } else {
                BuildRequest::Done
            },
            BuildPhase::Ready => BuildRequest::Done,
            BuildPhase::Failed => BuildRequest::Done,
        }
    }

    /// Create the stage's shader from `text` and compile it.
    pub open spec fn begin_compile(self, stage: ShaderStage, text: Seq<char>) -> (
        BuilderView,
        Seq<GpuCommand>,
    ) {
        (
            BuilderView { phase: BuildPhase::Compiling(stage), ..self.with_text(stage, text) },
            seq![
                GpuCommand::Create(GpuObject::Shader(stage)),
                GpuCommand::UploadSource(stage),
                GpuCommand::Compile(stage),
            ],
        )
    }

    /// Turn to a stage: compile it at once where its source is in memory,
    /// otherwise wait for its file.
    pub open spec fn enter_stage(self, stage: ShaderStage) -> (BuilderView, Seq<GpuCommand>) {
        match self.config.source(stage) {
            ShaderSourceView::Inline(text) => self.begin_compile(stage, text),
            _ => (BuilderView { phase: BuildPhase::Sourcing(stage), ..self }, Seq::empty()),
        }
    }

    /// Give up with `error`, releasing whatever the phase holds.
    pub open spec fn fail(self, error: GpuErrorView) -> (BuilderView, Seq<GpuCommand>) {
        (
            BuilderView { phase: BuildPhase::Failed, error: Some(error), ..self },
            unwind(self.phase),
        )
    }

    /// The phase once `count` uniforms are resolved.
    pub open spec fn phase_after(self, count: nat) -> BuildPhase {
        if count < self.config.uniforms.len() {
            BuildPhase::Resolving
        } else {
            BuildPhase::Ready
        }
    }

    /// The first step: create the program and turn to the vertex stage.
    pub open spec fn start(self) -> (BuilderView, Seq<GpuCommand>) {
        if self.phase is Created {
            let (next, commands) = self.enter_stage(ShaderStage::Vertex);
            (next, seq![GpuCommand::Create(GpuObject::Program)] + commands)
        } else {
            (self, Seq::empty())
        }
    }

    /// The step taken on `event`. An event the phase does not wait for
    /// changes nothing.
    pub open spec fn step(self, event: BuildEventView) -> (BuilderView, Seq<GpuCommand>) {
        match (self.phase, event) {
            (BuildPhase::Sourcing(stage), BuildEventView::Source(Some(contents))) => {
                self.begin_compile(stage, self.config.source(stage).expand(contents))
            },
            (BuildPhase::Sourcing(stage), BuildEventView::Source(None)) => {
                match self.config.source(stage).path() {
                    Some(path) => self.fail(GpuErrorView::AssetNotFound { path }),
                    None => self.fail(GpuErrorView::AssetNotFound { path: Seq::empty() }),
                }
            },
            (BuildPhase::Compiling(stage), BuildEventView::Compiled { ok, log }) => {
                match compiled(stage, self.config.source(stage).path(), ok, log) {
                    Ok(attach) => match stage {
                        ShaderStage::Vertex => {
                            let (next, commands) = self.enter_stage(ShaderStage::Fragment);
                            (next, seq![attach] + commands)
                        },
                        ShaderStage::Fragment => (
                            BuilderView { phase: BuildPhase::Linking, ..self },
                            seq![attach, GpuCommand::Link],
                        ),
                    },
                    Err(error) => self.fail(error),
                }
            },
            (BuildPhase::Linking, BuildEventView::Linked { ok, log }) => {
                match linked(ok, log) {
                    Ok(_) => (
                        BuilderView { phase: self.phase_after(self.handles.len()), ..self },
                        release_shaders(),
                    ),
                    Err(error) => self.fail(error),
                }
            },
            (BuildPhase::Resolving, BuildEventView::Uniform(found)) => {
                let index = self.handles.len() as int;
                if index < self.config.uniforms.len() {
                    let uniform = self.config.uniforms[index];
                    match resolved(found, uniform.name, uniform.policy) {
                        Ok(handle) => (
                            BuilderView {
                                phase: self.phase_after(self.handles.len() + 1),
                                handles: self.handles.push(handle),
                                ..self
                            },
                            Seq::empty(),
                        ),
                        Err(error) => self.fail(error),
                    }
                } else {
                    (BuilderView { phase: BuildPhase::Ready, ..self }, Seq::empty())
                }
            },
            _ => (self, Seq::empty()),
        }
    }
}

/// Detach and delete both shaders: what follows a link, whatever its status.
pub open spec fn release_shaders() -> Seq<GpuCommand> {
    seq![
        GpuCommand::Detach(ShaderStage::Vertex),
        GpuCommand::Delete(GpuObject::Shader(ShaderStage::Vertex)),
        GpuCommand::Detach(ShaderStage::Fragment),
        GpuCommand::Delete(GpuObject::Shader(ShaderStage::Fragment)),
    ]
}

/// The commands that release everything a phase holds.
pub open spec fn unwind(phase: BuildPhase) -> Seq<GpuCommand> {
    match phase {
        BuildPhase::Created | BuildPhase::Failed => Seq::empty(),
        BuildPhase::Sourcing(ShaderStage::Vertex) => seq![GpuCommand::Delete(GpuObject::Program)],
        BuildPhase::Sourcing(ShaderStage::Fragment) => seq![
            GpuCommand::Detach(ShaderStage::Vertex),
            GpuCommand::Delete(GpuObject::Shader(ShaderStage::Vertex)),
            GpuCommand::Delete(GpuObject::Program),
        ],
        BuildPhase::Compiling(ShaderStage::Vertex) => seq![
            GpuCommand::Delete(GpuObject::Shader(ShaderStage::Vertex)),
            GpuCommand::Delete(GpuObject::Program),
        ],
        BuildPhase::Compiling(ShaderStage::Fragment) => seq![
            GpuCommand::Delete(GpuObject::Shader(ShaderStage::Fragment)),
            GpuCommand::Detach(ShaderStage::Vertex),
            GpuCommand::Delete(GpuObject::Shader(ShaderStage::Vertex)),
            GpuCommand::Delete(GpuObject::Program),
        ],
        BuildPhase::Linking => release_shaders().push(GpuCommand::Delete(GpuObject::Program)),
        BuildPhase::Resolving | BuildPhase::Ready => seq![GpuCommand::Delete(GpuObject::Program)],
    }
}

/// The objects that exist while the builder is in a phase.
pub open spec fn phase_model(phase: BuildPhase) -> GpuModel {
    let program = GpuObject::Program;
    let vertex = GpuObject::Shader(ShaderStage::Vertex);
    let fragment = GpuObject::Shader(ShaderStage::Fragment);
    match phase {
        BuildPhase::Created | BuildPhase::Failed => GpuModel::empty(),
        BuildPhase::Sourcing(ShaderStage::Vertex) => GpuModel {
            live: set![program],
            attached: Set::empty(),
        },
        BuildPhase::Compiling(ShaderStage::Vertex) => GpuModel {
            live: set![program, vertex],
            attached: Set::empty(),
        },
        BuildPhase::Sourcing(ShaderStage::Fragment) => GpuModel {
            live: set![program, vertex],
            attached: set![ShaderStage::Vertex],
        },
        BuildPhase::Compiling(ShaderStage::Fragment) => GpuModel {
            live: set![program, vertex, fragment],
            attached: set![ShaderStage::Vertex],
        },
        BuildPhase::Linking => GpuModel {
            live: set![program, vertex, fragment],
            attached: set![ShaderStage::Vertex, ShaderStage::Fragment],
        },
        BuildPhase::Resolving | BuildPhase::Ready => GpuModel {
            live: set![program],
            attached: Set::empty(),
        },
    }
}

/// A linked program with its uniforms resolved, in the order its
/// configuration lists them. Only a build that reached `Ready` yields one.
pub struct ShaderProgram {
    handles: Vec<UniformHandle>,
}

impl View for ShaderProgram {
    type V = Seq<UniformHandle>;

    closed spec fn view(&self) -> Seq<UniformHandle> {
        self.handles@
    }
}

/// The writes that reach the GPU when `values` are written to `handles`,
/// position by position: a write to a location is issued, a write to a
/// no-op handle is discarded, and so is a value without a handle.
pub open spec fn bound_writes(handles: Seq<UniformHandle>, values: Seq<UniformValue>) -> Seq<
    GpuCommand,
>
    decreases values.len(),
{
    if values.len() == 0 {
        Seq::empty()
    } else {
        let rest = bound_writes(handles, values.drop_last());
        let last = values.len() - 1;
        if last < handles.len() {
            match handles[last] {
                UniformHandle::Location(location) => rest.push(
                    GpuCommand::SetUniform { location, value: values.last() },
                ),
                UniformHandle::NoOp => rest,
            }
        } else {
            rest
        }
    }
}

/// One frame's commands: select the program and the vertex array, write
/// the uniforms, draw, and unbind.
pub open spec fn paint_commands(
    handles: Seq<UniformHandle>,
    values: Seq<UniformValue>,
    draw: GpuCommand,
) -> Seq<GpuCommand> {
    seq![GpuCommand::UseProgram, GpuCommand::BindVertexArray(true)] + bound_writes(
        handles,
        values,
    ) + seq![draw, GpuCommand::BindVertexArray(false)]
}

impl ShaderProgram {
    /// The resolved uniforms, in configuration order.
    pub fn handles(&self) -> (handles: &Vec<UniformHandle>)
        ensures
            handles@ == self@,
    {
        &self.handles
    }

    /// Appends the writes of `values` that reach the GPU.
    pub fn write_uniforms(&self, values: &Vec<UniformValue>, commands: &mut Vec<GpuCommand>)
        ensures
            final(commands)@ == old(commands)@ + bound_writes(self@, values@),
    {
        let mut i: usize = 0;
        assert(values@.take(0) =~= Seq::empty());
        assert(commands@ =~= old(commands)@ + bound_writes(self@, values@.take(0)));
        while i < values.len()
            invariant
                i <= values.len(),
                commands@ == old(commands)@ + bound_writes(self@, values@.take(i as int)),
            decreases values.len() - i,
        {
            let ghost before = commands@;
            if i < self.handles.len() {
                match self.handles[i] {
                    UniformHandle::Location(location) => {
                        commands.push(GpuCommand::SetUniform { location, value: values[i] });
                    },
                    UniformHandle::NoOp => {},
                }
            }
            proof {
                let next = values@.take(i + 1);
                assert(next.drop_last() =~= values@.take(i as int));
                assert(next.last() == values@[i as int]);
                assert(commands@ =~= old(commands)@ + bound_writes(self@, next));
            }
            i += 1;
        }
        assert(values@.take(i as int) =~= values@);
    }

    /// One frame's commands for this program: the uniform `values` in
    /// configuration order, then `draw`.
    pub fn paint(&self, values: &Vec<UniformValue>, draw: GpuCommand) -> (commands: Vec<
        GpuCommand,
    >)
        ensures
            commands@ == paint_commands(self@, values@, draw),
    {
        let mut commands: Vec<GpuCommand> = Vec::new();
        commands.push(GpuCommand::UseProgram);
        commands.push(GpuCommand::BindVertexArray(true));
        let ghost head = commands@;
        self.write_uniforms(values, &mut commands);
        let ghost body = commands@;
        commands.push(draw);
        commands.push(GpuCommand::BindVertexArray(false));
        assert(commands@ =~= paint_commands(self@, values@, draw));
        commands
    }
}

/// The handles of a build's program, if the build succeeded.
pub open spec fn built_handles(built: Result<ShaderProgram, GpuError>) -> Option<
    Seq<UniformHandle>,
> {
    match built {
        Ok(program) => Some(program@),
        Err(_) => None,
    }
}

/// The result of a finished build as a plain value.
pub open spec fn outcome_view(outcome: Option<Result<ShaderProgram, GpuError>>) -> Option<
    Result<Seq<UniformHandle>, GpuErrorView>,
> {
    match outcome {
        Some(Ok(program)) => Some(Ok(program@)),
        Some(Err(error)) => Some(Err(error@)),
        None => None,
    }
}

pub struct ProgramBuilder {
    config: ProgramConfig,
    phase: BuildPhase,
    vertex_text: String,
    fragment_text: String,
    handles: Vec<UniformHandle>,
    error: Option<GpuError>,
}

impl View for ProgramBuilder {
    type V = BuilderView;

    closed spec fn view(&self) -> BuilderView {
        BuilderView {
            config: self.config@,
            phase: self.phase,
            vertex_text: self.vertex_text@,
            fragment_text: self.fragment_text@,
            handles: self.handles@,
            error: match self.error {
                Some(error) => Some(error@),
                None => None,
            },
        }
    }
}

fn push_unwind(phase: BuildPhase, commands: &mut Vec<GpuCommand>)
    ensures
        final(commands)@ == old(commands)@ + unwind(phase),
{
    let program = GpuCommand::Delete(GpuObject::Program);
    let drop_vertex = GpuCommand::Delete(GpuObject::Shader(ShaderStage::Vertex));
    let drop_fragment = GpuCommand::Delete(GpuObject::Shader(ShaderStage::Fragment));
    let detach_vertex = GpuCommand::Detach(ShaderStage::Vertex);
    let detach_fragment = GpuCommand::Detach(ShaderStage::Fragment);
    match phase {
        BuildPhase::Created | BuildPhase::Failed => {},
        BuildPhase::Sourcing(ShaderStage::Vertex) | BuildPhase::Resolving | BuildPhase::Ready => {
            commands.push(program);
        },
        BuildPhase::Sourcing(ShaderStage::Fragment) => {
            commands.push(detach_vertex);
            commands.push(drop_vertex);
            commands.push(program);
        },
        BuildPhase::Compiling(ShaderStage::Vertex) => {
            commands.push(drop_vertex);
            commands.push(program);
        },
        BuildPhase::Compiling(ShaderStage::Fragment) => {
            commands.push(drop_fragment);
            commands.push(detach_vertex);
            commands.push(drop_vertex);
            commands.push(program);
        },
        BuildPhase::Linking => {
            commands.push(detach_vertex);
            commands.push(drop_vertex);
            commands.push(detach_fragment);
            commands.push(drop_fragment);
            commands.push(program);
        },
    }
    assert(commands@ =~= old(commands)@ + unwind(phase));
}

impl ProgramBuilder {
    /// A builder for `config` that has not touched the GPU yet.
    pub fn new(config: ProgramConfig) -> (builder: ProgramBuilder)
        ensures
            builder@ == BuilderView::initial(config@),
            coherent(builder@),
    {
        ProgramBuilder {
            config,
            phase: BuildPhase::Created,
            vertex_text: String::new(),
            fragment_text: String::new(),
            handles: Vec::new(),
            error: None,
        }
    }

    pub fn phase(&self) -> (phase: BuildPhase)
        ensures
            phase == self@.phase,
    {
        self.phase
    }

    /// What the builder waits for.
    pub fn pending(&self) -> (request: BuildRequest)
        ensures
            request == self@.pending(),
    {
        match self.phase {
            BuildPhase::Created => BuildRequest::Start,
            BuildPhase::Sourcing(stage) => BuildRequest::ReadSource(stage),
            BuildPhase::Compiling(stage) => BuildRequest::CompileStatus(stage),
            BuildPhase::Linking => BuildRequest::LinkStatus,
            BuildPhase::Resolving => BuildRequest::UniformLocation(self.handles.len()),
            BuildPhase::Ready => BuildRequest::Done,
            BuildPhase::Failed => BuildRequest::Done,
        }
    }

    /// The GLSL that `UploadSource` hands to the stage's shader.
    pub fn source_text(&self, stage: ShaderStage) -> (text: &String)
        ensures
            text@ == self@.text(stage),
    {
        match stage {
            ShaderStage::Vertex => &self.vertex_text,
            ShaderStage::Fragment => &self.fragment_text,
        }
    }

    /// The file to read for the stage, if its source lives in one.
    pub fn source_path(&self, stage: ShaderStage) -> (path: Option<&String>)
        ensures
            match path {
                Some(p) => self@.config.source(stage).path() == Some(p@),
                None => self@.config.source(stage).path() is None,
            },
    {
        let source = match stage {
            ShaderStage::Vertex => &self.config.vertex,
            ShaderStage::Fragment => &self.config.fragment,
        };
        match source {
            ShaderSource::File(path) => Some(path),
            ShaderSource::Inline(_) => None,
            ShaderSource::Toy(path) => Some(path),
        }
    }

    /// The name of the uniform with this index, if the program has that many.
    pub fn uniform_name(&self, index: usize) -> (name: Option<&String>)
        ensures
            match name {
                Some(n) => index < self@.config.uniforms.len() && n@
                    == self@.config.uniforms[index as int].name,
                None => index >= self@.config.uniforms.len(),
            },
    {
        if index < self.config.uniforms.len() {
            Some(self.config.uniforms[index].name())
        } else {
            None
        }
    }

    fn begin_compile(&mut self, stage: ShaderStage, text: String, commands: &mut Vec<GpuCommand>)
        ensures
            final(self)@ == old(self)@.begin_compile(stage, text@).0,
            final(commands)@ == old(commands)@ + old(self)@.begin_compile(stage, text@).1,
    {
        match stage {
            ShaderStage::Vertex => {
                self.vertex_text = text;
            },
            ShaderStage::Fragment => {
                self.fragment_text = text;
            },
        }
        self.phase = BuildPhase::Compiling(stage);
        commands.push(GpuCommand::Create(GpuObject::Shader(stage)));
        commands.push(GpuCommand::UploadSource(stage));
        commands.push(GpuCommand::Compile(stage));
        assert(commands@ =~= old(commands)@ + old(self)@.begin_compile(stage, text@).1);
    }

    fn enter_stage(&mut self, stage: ShaderStage, commands: &mut Vec<GpuCommand>)
        ensures
            final(self)@ == old(self)@.enter_stage(stage).0,
            final(commands)@ == old(commands)@ + old(self)@.enter_stage(stage).1,
    {
        let inline = {
            let source = match stage {
                ShaderStage::Vertex => &self.config.vertex,
                ShaderStage::Fragment => &self.config.fragment,
            };
            match source {
                ShaderSource::Inline(text) => Some(text.clone()),
                _ => None,
            }
        };
        match inline {
            Some(text) => {
                self.begin_compile(stage, text, commands);
            },
            None => {
                self.phase = BuildPhase::Sourcing(stage);
                assert(commands@ =~= old(commands)@ + Seq::<GpuCommand>::empty());
            },
        }
    }

    fn fail(&mut self, error: GpuError, commands: &mut Vec<GpuCommand>)
        ensures
            final(self)@ == old(self)@.fail(error@).0,
            final(commands)@ == old(commands)@ + old(self)@.fail(error@).1,
    {
        push_unwind(self.phase, commands);
        self.phase = BuildPhase::Failed;
        self.error = Some(error);
    }

    /// The GLSL to compile for the stage, given what its file held.
    fn expand(&self, stage: ShaderStage, contents: String) -> (text: String)
        ensures
            text@ == self@.config.source(stage).expand(contents@),
    {
        let source = match stage {
            ShaderStage::Vertex => &self.config.vertex,
            ShaderStage::Fragment => &self.config.fragment,
        };
        match source {
            ShaderSource::Toy(_) => ShaderToyEngine::get_stoy(Some(contents)),
            _ => contents,
        }
    }

    /// The first step: create the program and turn to the vertex stage.
    /// Called in any phase but `Created`, it changes nothing.
    pub fn start(&mut self) -> (commands: Vec<GpuCommand>)
        ensures
            (final(self)@, commands@) == old(self)@.start(),
            run(commands@, phase_model(old(self)@.phase)) == Some(phase_model(final(self)@.phase)),
            coherent(old(self)@) ==> coherent(final(self)@),
    {
        proof {
            lemma_step_keeps_account(self@, BuildEventView::Uniform(None));
            if coherent(self@) {
                lemma_steps_keep_coherence(self@, BuildEventView::Uniform(None));
            }
        }
        let mut commands: Vec<GpuCommand> = Vec::new();
        match self.phase {
            BuildPhase::Created => {
                commands.push(GpuCommand::Create(GpuObject::Program));
                assert(commands@ =~= seq![GpuCommand::Create(GpuObject::Program)]);
                self.enter_stage(ShaderStage::Vertex, &mut commands);
            },
            _ => {},
        }
        assert(commands@ =~= old(self)@.start().1);
        commands
    }

    /// Takes the step that `event` calls for and returns the commands to
    /// replay before answering the next request. An event the builder does
    /// not wait for changes nothing and yields no command.
    pub fn advance(&mut self, event: BuildEvent) -> (commands: Vec<GpuCommand>)
        ensures
            (final(self)@, commands@) == old(self)@.step(event@),
            run(commands@, phase_model(old(self)@.phase)) == Some(phase_model(final(self)@.phase)),
            final(self)@.error != old(self)@.error ==> (final(self)@.error matches Some(
                GpuErrorView::UniformNotFound { name },
            ) ==> is_contract_uniform(name)),
            coherent(old(self)@) ==> coherent(final(self)@),
    {
        proof {
            lemma_step_keeps_account(self@, event@);
            if coherent(self@) {
                lemma_steps_keep_coherence(self@, event@);
            }
        }
        let mut commands: Vec<GpuCommand> = Vec::new();
        match self.phase {
            BuildPhase::Sourcing(stage) => {
                match event {
                    BuildEvent::Source(Some(contents)) => {
                        let text = self.expand(stage, contents);
                        self.begin_compile(stage, text, &mut commands);
                    },
                    BuildEvent::Source(None) => {
                        let path = match self.source_path(stage) {
                            Some(path) => path.clone(),
                            None => String::new(),
                        };
                        self.fail(GpuError::AssetNotFound { path }, &mut commands);
                    },
                    _ => {},
                }
            },
            BuildPhase::Compiling(stage) => {
                match event {
                    BuildEvent::Compiled { ok, log } => {
                        let judged = match self.source_path(stage) {
                            Some(path) => create_shader(stage, path, ok, log),
                            None => create_shader_from_string(stage, ok, log),
                        };
                        match judged {
                            Ok(attach) => {
                                commands.push(attach);
                                match stage {
                                    ShaderStage::Vertex => {
                                        assert(commands@ =~= seq![attach]);
                                        self.enter_stage(ShaderStage::Fragment, &mut commands);
                                    },
                                    ShaderStage::Fragment => {
                                        commands.push(GpuCommand::Link);
                                        self.phase = BuildPhase::Linking;
                                    },
                                }
                            },
                            Err(error) => {
                                self.fail(error, &mut commands);
                            },
                        }
                    },
                    _ => {},
                }
            },
            BuildPhase::Linking => {
                match event {
                    BuildEvent::Linked { ok, log } => {
                        match check_link(ok, log) {
                            Ok(_) => {
                                commands.push(GpuCommand::Detach(ShaderStage::Vertex));
                                commands.push(
                                    GpuCommand::Delete(GpuObject::Shader(ShaderStage::Vertex)),
                                );
                                commands.push(GpuCommand::Detach(ShaderStage::Fragment));
                                commands.push(
                                    GpuCommand::Delete(GpuObject::Shader(ShaderStage::Fragment)),
                                );
                                self.phase = if self.handles.len() < self.config.uniforms.len() {
                                    BuildPhase::Resolving
                                } else {
                                    BuildPhase::Ready
                                };
                            },
                            Err(error) => {
                                self.fail(error, &mut commands);
                            },
                        }
                    },
                    _ => {},
                }
            },
            BuildPhase::Resolving => {
                match event {
                    BuildEvent::Uniform(found) => {
                        let index = self.handles.len();
                        if index < self.config.uniforms.len() {
                            let result = {
                                let uniform = &self.config.uniforms[index];
                                resolve(found, uniform.name(), uniform.policy())
                            };
                            match result {
                                Ok(handle) => {
                                    self.handles.push(handle);
                                    self.phase = if self.handles.len()
                                        < self.config.uniforms.len() {
                                        BuildPhase::Resolving
                                    } else {
                                        BuildPhase::Ready
                                    };
                                },
                                Err(error) => {
                                    self.fail(error, &mut commands);
                                },
                            }
                        } else {
                            self.phase = BuildPhase::Ready;
                        }
                    },
                    _ => {},
                }
            },
            _ => {},
        }
        assert(commands@ =~= old(self)@.step(event@).1);
        commands
    }

    /// The outcome of a finished build: the program where the builder is
    /// `Ready`, the error where it `Failed`, and nothing before that.
    pub fn finish(self) -> (outcome: Option<Result<ShaderProgram, GpuError>>)
        ensures
            outcome_view(outcome) == match self@.phase {
                BuildPhase::Ready => Some(Ok(self@.handles)),
                BuildPhase::Failed => match self@.error {
                    Some(error) => Some(Err(error)),
                    None => None,
                },
                _ => None,
            },
            coherent(self@) ==> (outcome is Some <==> self@.phase is Ready || self@.phase
                is Failed),
            coherent(self@) ==> (outcome matches Some(Ok(program)) ==> program@.len()
                == self@.config.uniforms.len()),
    {
        match self.phase {
            BuildPhase::Ready => Some(Ok(ShaderProgram { handles: self.handles })),
            BuildPhase::Failed => match self.error {
                Some(error) => Some(Err(error)),
                None => None,
            },
            _ => None,
        }
    }
}

/// A linked program together with the geometry it draws.
pub struct Drawable {
    program: ShaderProgram,
    geometry: GeometryBuffer,
}

pub struct DrawableView {
    pub handles: Seq<UniformHandle>,
    pub geometry: GeometryView,
}

impl DrawableView {
    /// Release the program, then the vertex array and its buffers.
    pub open spec fn destroy_commands(self) -> Seq<GpuCommand> {
        seq![GpuCommand::Delete(GpuObject::Program)] + self.geometry.destroy_commands()
    }

    /// The objects that exist once the geometry is on the GPU.
    pub open spec fn model(self) -> GpuModel {
        GpuModel {
            live: phase_model(BuildPhase::Ready).live.union(self.geometry.objects()),
            attached: Set::empty(),
        }
    }
}

impl View for Drawable {
    type V = DrawableView;

    closed spec fn view(&self) -> DrawableView {
        DrawableView { handles: self.program@, geometry: self.geometry@ }
    }
}

impl Drawable {
    pub fn new(program: ShaderProgram, geometry: GeometryBuffer) -> (drawable: Drawable)
        ensures
            drawable@ == (DrawableView { handles: program@, geometry: geometry@ }),
    {
        Drawable { program, geometry }
    }

    pub fn program(&self) -> (program: &ShaderProgram)
        ensures
            program@ == self@.handles,
    {
        &self.program
    }

    pub fn geometry(&self) -> (geometry: &GeometryBuffer)
        ensures
            geometry@ == self@.geometry,
    {
        &self.geometry
    }

    /// The commands that put the geometry on the GPU, to replay once the
    /// program is built.
    pub fn create_commands(&self) -> (commands: Vec<GpuCommand>)
        ensures
            commands@ == self@.geometry.create_commands(),
    {
        self.geometry.create_commands()
    }

    /// One frame's commands, writing `values` in configuration order.
    pub fn paint(&self, values: &Vec<UniformValue>) -> (commands: Vec<GpuCommand>)
        ensures
            commands@ == paint_commands(self@.handles, values@, self@.geometry.draw()),
    {
        self.program.paint(values, self.geometry.draw_command())
    }

    /// The commands that release everything the drawable owns.
    pub fn destroy(&self) -> (commands: Vec<GpuCommand>)
        ensures
            commands@ == self@.destroy_commands(),
    {
        let mut commands: Vec<GpuCommand> = Vec::new();
        commands.push(GpuCommand::Delete(GpuObject::Program));
        let mut rest = self.geometry.destroy_commands();
        commands.append(&mut rest);
        assert(commands@ =~= self@.destroy_commands());
        commands
    }
}

/// The life of a drawable keeps the account. From a program that was just
/// built, creating the geometry adds the geometry's objects; every frame
/// leaves the objects as they are; destroying releases them all, so that
/// nothing is left on the GPU.
pub proof fn lemma_drawable_lifecycle(drawable: DrawableView, values: Seq<UniformValue>)
    ensures
        run(drawable.geometry.create_commands(), phase_model(BuildPhase::Ready)) == Some(
            drawable.model(),
        ),
        run(
            paint_commands(drawable.handles, values, drawable.geometry.draw()),
            drawable.model(),
        ) == Some(drawable.model()),
        run(drawable.destroy_commands(), drawable.model()) == Some(GpuModel::empty()),
{
    let ready = phase_model(BuildPhase::Ready);
    let model = drawable.model();
    lemma_geometry_account(drawable.geometry, ready);
    assert(model =~= GpuModel { live: ready.live.union(drawable.geometry.objects()), ..ready });
    lemma_paint_keeps_model(drawable.handles, values, drawable.geometry.draw(), model);

    let delete = GpuCommand::Delete(GpuObject::Program);
    let without = GpuModel { live: drawable.geometry.objects(), attached: Set::empty() };
    lemma_run_short(delete, delete, delete, delete, delete, model);
    assert(apply(delete, model).unwrap() =~= without);
    lemma_geometry_account(drawable.geometry, GpuModel::empty());
    assert(without =~= GpuModel {
        live: GpuModel::empty().live.union(drawable.geometry.objects()),
        ..GpuModel::empty()
    });
    lemma_run_concat(seq![delete], drawable.geometry.destroy_commands(), model);
}

/// Unwinding a phase releases every object the phase holds, in an order the
/// driver accepts: shaders are detached before they are deleted, and the
/// program goes last.
pub proof fn lemma_unwind_releases_all(phase: BuildPhase)
    ensures
        run(unwind(phase), phase_model(phase)) == Some(GpuModel::empty()),
{
    let program = GpuCommand::Delete(GpuObject::Program);
    let drop_vertex = GpuCommand::Delete(GpuObject::Shader(ShaderStage::Vertex));
    let drop_fragment = GpuCommand::Delete(GpuObject::Shader(ShaderStage::Fragment));
    let detach_vertex = GpuCommand::Detach(ShaderStage::Vertex);
    let detach_fragment = GpuCommand::Detach(ShaderStage::Fragment);
    let start = phase_model(phase);
    match phase {
        BuildPhase::Created | BuildPhase::Failed => {
            lemma_run_short(program, program, program, program, program, start);
        },
        BuildPhase::Sourcing(ShaderStage::Vertex) | BuildPhase::Resolving | BuildPhase::Ready => {
            lemma_run_short(program, program, program, program, program, start);
            assert(apply(program, start).unwrap() =~= GpuModel::empty());
        },
        BuildPhase::Sourcing(ShaderStage::Fragment) => {
            lemma_run_short(detach_vertex, drop_vertex, program, program, program, start);
            let m1 = apply(detach_vertex, start).unwrap();
            assert(m1.attached =~= Set::empty());
            let m2 = apply(drop_vertex, m1).unwrap();
            assert(apply(program, m2).unwrap() =~= GpuModel::empty());
        },
        BuildPhase::Compiling(ShaderStage::Vertex) => {
            lemma_run_short(drop_vertex, program, program, program, program, start);
            let m1 = apply(drop_vertex, start).unwrap();
            assert(apply(program, m1).unwrap() =~= GpuModel::empty());
        },
        BuildPhase::Compiling(ShaderStage::Fragment) => {
            lemma_run_short(drop_fragment, detach_vertex, drop_vertex, program, program, start);
            let m1 = apply(drop_fragment, start).unwrap();
            let m2 = apply(detach_vertex, m1).unwrap();
            assert(m2.attached =~= Set::empty());
            let m3 = apply(drop_vertex, m2).unwrap();
            assert(apply(program, m3).unwrap() =~= GpuModel::empty());
        },
        BuildPhase::Linking => {
            lemma_run_short(
                detach_vertex,
                drop_vertex,
                detach_fragment,
                drop_fragment,
                program,
                start,
            );
            let m1 = apply(detach_vertex, start).unwrap();
            let m2 = apply(drop_vertex, m1).unwrap();
            let m3 = apply(detach_fragment, m2).unwrap();
            assert(m3.attached =~= Set::empty());
            let m4 = apply(drop_fragment, m3).unwrap();
            assert(apply(program, m4).unwrap() =~= GpuModel::empty());
            assert(unwind(phase) =~= seq![
                detach_vertex,
                drop_vertex,
                detach_fragment,
                drop_fragment,
                program,
            ]);
        },
    }
}

proof fn lemma_begin_compile_account(state: BuilderView, stage: ShaderStage, text: Seq<char>)
    requires
        state.phase == BuildPhase::Sourcing(stage),
    ensures
        run(state.begin_compile(stage, text).1, phase_model(state.phase)) == Some(
            phase_model(BuildPhase::Compiling(stage)),
        ),
{
    let create = GpuCommand::Create(GpuObject::Shader(stage));
    let upload = GpuCommand::UploadSource(stage);
    let compile = GpuCommand::Compile(stage);
    let start = phase_model(state.phase);
    lemma_run_short(create, upload, compile, compile, compile, start);
    assert(apply(create, start).unwrap() =~= phase_model(BuildPhase::Compiling(stage)));
}

proof fn lemma_enter_stage_account(state: BuilderView, stage: ShaderStage)
    ensures
        run(state.enter_stage(stage).1, phase_model(BuildPhase::Sourcing(stage))) == Some(
            phase_model(state.enter_stage(stage).0.phase),
        ),
{
    match state.config.source(stage) {
        ShaderSourceView::Inline(text) => {
            lemma_begin_compile_account(
                BuilderView { phase: BuildPhase::Sourcing(stage), ..state },
                stage,
                text,
            );
        },
        _ => {},
    }
}

/// Every step keeps the account: replaying its commands on the objects of
/// the phase it leaves gives exactly the objects of the phase it enters. No
/// step misuses an object, shaders never outlive the link, and a failed
/// build leaves nothing behind.
pub proof fn lemma_step_keeps_account(state: BuilderView, event: BuildEventView)
    ensures
        run(state.step(event).1, phase_model(state.phase)) == Some(
            phase_model(state.step(event).0.phase),
        ),
        run(state.start().1, phase_model(state.phase)) == Some(
            phase_model(state.start().0.phase),
        ),
        state.step(event).0.phase is Failed ==> phase_model(state.step(event).0.phase)
            == GpuModel::empty(),
        state.step(event).0.phase is Ready || state.step(event).0.phase is Resolving ==> !phase_model(
            state.step(event).0.phase,
        ).live.contains(GpuObject::Shader(ShaderStage::Vertex)) && !phase_model(
            state.step(event).0.phase,
        ).live.contains(GpuObject::Shader(ShaderStage::Fragment)),
{
    let start = phase_model(state.phase);
    lemma_unwind_releases_all(state.phase);
    if state.phase is Created {
        let create = GpuCommand::Create(GpuObject::Program);
        let (next, commands) = state.enter_stage(ShaderStage::Vertex);
        lemma_run_short(create, create, create, create, create, start);
        lemma_run_concat(seq![create], commands, start);
        lemma_enter_stage_account(state, ShaderStage::Vertex);
        assert(apply(create, start).unwrap() =~= phase_model(
            BuildPhase::Sourcing(ShaderStage::Vertex),
        ));
    }
    match (state.phase, event) {
        (BuildPhase::Sourcing(stage), BuildEventView::Source(Some(contents))) => {
            lemma_begin_compile_account(
                state,
                stage,
                state.config.source(stage).expand(contents),
            );
        },
        (BuildPhase::Compiling(stage), BuildEventView::Compiled { ok, log }) => {
            if ok {
                let attach = GpuCommand::Attach(stage);
                match stage {
                    ShaderStage::Vertex => {
                        let (next, commands) = state.enter_stage(ShaderStage::Fragment);
                        lemma_run_short(attach, attach, attach, attach, attach, start);
                        lemma_run_concat(seq![attach], commands, start);
                        lemma_enter_stage_account(state, ShaderStage::Fragment);
                        assert(apply(attach, start).unwrap() =~= phase_model(
                            BuildPhase::Sourcing(ShaderStage::Fragment),
                        ));
                    },
                    ShaderStage::Fragment => {
                        lemma_run_short(attach, GpuCommand::Link, attach, attach, attach, start);
                        assert(apply(attach, start).unwrap() =~= phase_model(BuildPhase::Linking));
                    },
                }
            }
        },
        (BuildPhase::Linking, BuildEventView::Linked { ok, log }) => {
            if ok {
                let drop_vertex = GpuCommand::Delete(GpuObject::Shader(ShaderStage::Vertex));
                let drop_fragment = GpuCommand::Delete(GpuObject::Shader(ShaderStage::Fragment));
                let detach_vertex = GpuCommand::Detach(ShaderStage::Vertex);
                let detach_fragment = GpuCommand::Detach(ShaderStage::Fragment);
                lemma_run_short(
                    detach_vertex,
                    drop_vertex,
                    detach_fragment,
                    drop_fragment,
                    drop_fragment,
                    start,
                );
                let m1 = apply(detach_vertex, start).unwrap();
                let m2 = apply(drop_vertex, m1).unwrap();
                let m3 = apply(detach_fragment, m2).unwrap();
                let m4 = apply(drop_fragment, m3).unwrap();
                assert(m4 =~= phase_model(BuildPhase::Ready));
            }
        },
        _ => {},
    }
}

/// A build fails exactly on a bad outcome, and the error names it: a missing
/// file, a rejected shader with the driver's log, a failed link with the
/// driver's log, or a strict uniform the linked program lacks. A uniform
/// resolved permissively never fails a build.
pub proof fn lemma_failure_causes(state: BuilderView, event: BuildEventView)
    requires
        !(state.phase is Failed),
    ensures
        state.step(event).0.phase is Failed <==> match (state.phase, event) {
            (BuildPhase::Sourcing(_), BuildEventView::Source(None)) => true,
            (BuildPhase::Compiling(_), BuildEventView::Compiled { ok, .. }) => !ok,
            (BuildPhase::Linking, BuildEventView::Linked { ok, .. }) => !ok,
            (BuildPhase::Resolving, BuildEventView::Uniform(None)) => state.handles.len()
                < state.config.uniforms.len()
                && state.config.uniforms[state.handles.len() as int].policy is Strict,
            _ => false,
        },
        state.step(event).0.phase is Failed ==> state.step(event).0.error == match (
            state.phase,
            event,
        ) {
            (BuildPhase::Sourcing(stage), _) => Some(
                GpuErrorView::AssetNotFound {
                    path: match state.config.source(stage).path() {
                        Some(path) => path,
                        None => Seq::empty(),
                    },
                },
            ),
            (BuildPhase::Compiling(stage), BuildEventView::Compiled { log, .. }) => Some(
                GpuErrorView::CompileError { stage, log, file: state.config.source(stage).path() },
            ),
            (BuildPhase::Linking, BuildEventView::Linked { log, .. }) => Some(
                GpuErrorView::LinkError { log },
            ),
            (BuildPhase::Resolving, _) => Some(
                GpuErrorView::UniformNotFound {
                    name: state.config.uniforms[state.handles.len() as int].name,
                },
            ),
            _ => None,
        },
        !(state.step(event).0.phase is Failed) ==> state.step(event).0.error == state.error,
{
}

/// The steps still ahead of a phase, counting one per outcome awaited.
pub open spec fn steps_ahead(state: BuilderView) -> nat {
    let unresolved = if state.handles.len() < state.config.uniforms.len() {
        (state.config.uniforms.len() - state.handles.len()) as nat
    } else {
        0
    };
    match state.phase {
        BuildPhase::Created => unresolved + 6,
        BuildPhase::Sourcing(ShaderStage::Vertex) => unresolved + 5,
        BuildPhase::Compiling(ShaderStage::Vertex) => unresolved + 4,
        BuildPhase::Sourcing(ShaderStage::Fragment) => unresolved + 3,
        BuildPhase::Compiling(ShaderStage::Fragment) => unresolved + 2,
        BuildPhase::Linking => unresolved + 1,
        BuildPhase::Resolving => if unresolved == 0 {
            1
        } else {
            unresolved
        },
        BuildPhase::Ready | BuildPhase::Failed => 0,
    }
}

/// The event is of the kind the phase waits for.
pub open spec fn answers(state: BuilderView, event: BuildEventView) -> bool {
    match (state.phase, event) {
        (BuildPhase::Sourcing(_), BuildEventView::Source(_)) => true,
        (BuildPhase::Compiling(_), BuildEventView::Compiled { .. }) => true,
        (BuildPhase::Linking, BuildEventView::Linked { .. }) => true,
        (BuildPhase::Resolving, BuildEventView::Uniform(_)) => true,
        _ => false,
    }
}

/// A build always comes to an end: answering what the builder waits for
/// brings it strictly closer to its end, and a builder with no step ahead
/// is ready or has failed.
pub proof fn lemma_build_progresses(state: BuilderView, event: BuildEventView)
    requires
        answers(state, event),
    ensures
        steps_ahead(state.step(event).0) < steps_ahead(state),
        steps_ahead(state.start().0) < steps_ahead(state) || !(state.phase is Created),
        steps_ahead(state.step(event).0) == 0 <==> state.step(event).0.phase is Ready
            || state.step(event).0.phase is Failed,
{
}

/// The builder's record fits its phase: no handle before the link, fewer
/// than the program's uniforms while resolving, one for every uniform once
/// the builder is ready, and an error where it has failed.
pub open spec fn coherent(state: BuilderView) -> bool {
    match state.phase {
        BuildPhase::Resolving => state.handles.len() < state.config.uniforms.len(),
        BuildPhase::Ready => state.handles.len() == state.config.uniforms.len(),
        BuildPhase::Failed => state.error is Some,
        _ => state.handles.len() == 0,
    }
}

/// A builder stays coherent from its first step to its last, and never
/// changes the program it builds: the program a build yields has exactly
/// one handle for every uniform of its configuration, in order.
pub proof fn lemma_steps_keep_coherence(state: BuilderView, event: BuildEventView)
    requires
        coherent(state),
    ensures
        coherent(BuilderView::initial(state.config)),
        coherent(state.start().0),
        coherent(state.step(event).0),
        state.start().0.config == state.config,
        state.step(event).0.config == state.config,
{
}

/// Writing uniforms creates and releases nothing, and is in order as long
/// as the program exists.
pub proof fn lemma_writes_keep_model(
    handles: Seq<UniformHandle>,
    values: Seq<UniformValue>,
    model: GpuModel,
)
    requires
        model.live.contains(GpuObject::Program),
    ensures
        run(bound_writes(handles, values), model) == Some(model),
    decreases values.len(),
{
    if values.len() > 0 {
        lemma_writes_keep_model(handles, values.drop_last(), model);
        let rest = bound_writes(handles, values.drop_last());
        let last = values.len() - 1;
        if last < handles.len() {
            match handles[last] {
                UniformHandle::Location(location) => {
                    lemma_run_push(
                        rest,
                        GpuCommand::SetUniform { location, value: values.last() },
                        model,
                    );
                },
                UniformHandle::NoOp => {},
            }
        }
    }
}

/// Painting leaves the GPU's objects as they were: a frame neither leaks
/// nor releases anything, and is in order whenever the program and the
/// vertex array exist and the draw call is a draw call.
pub proof fn lemma_paint_keeps_model(
    handles: Seq<UniformHandle>,
    values: Seq<UniformValue>,
    draw: GpuCommand,
    model: GpuModel,
)
    requires
        model.live.contains(GpuObject::Program),
        model.live.contains(GpuObject::VertexArray),
        draw is DrawElements || draw is DrawArrays,
    ensures
        run(paint_commands(handles, values, draw), model) == Some(model),
{
    let head = seq![GpuCommand::UseProgram, GpuCommand::BindVertexArray(true)];
    let body = bound_writes(handles, values);
    let tail = seq![draw, GpuCommand::BindVertexArray(false)];
    lemma_run_short(
        GpuCommand::UseProgram,
        GpuCommand::BindVertexArray(true),
        draw,
        draw,
        draw,
        model,
    );
    lemma_run_short(draw, GpuCommand::BindVertexArray(false), draw, draw, draw, model);
    lemma_writes_keep_model(handles, values, model);
    lemma_run_concat(head, body, model);
    lemma_run_concat(head + body, tail, model);
}

/// A write aimed at a no-op handle never reaches the GPU: every write that
/// does carries the location of the handle at its value's position.
pub proof fn lemma_writes_go_to_locations(
    handles: Seq<UniformHandle>,
    values: Seq<UniformValue>,
    k: int,
)
    requires
        0 <= k < bound_writes(handles, values).len(),
    ensures
        exists|i: int|
            0 <= i < values.len() && i < handles.len() && handles[i] is Location
                && #[trigger] bound_writes(handles, values)[k] == (GpuCommand::SetUniform {
                location: handles[i]->0,
                value: values[i],
            }),
    decreases values.len(),
{
    let rest = bound_writes(handles, values.drop_last());
    let last = values.len() - 1;
    if k < rest.len() {
        lemma_writes_go_to_locations(handles, values.drop_last(), k);
        let i = choose|i: int|
            0 <= i < values.drop_last().len() && i < handles.len() && handles[i] is Location
                && #[trigger] bound_writes(handles, values.drop_last())[k] == (
            GpuCommand::SetUniform { location: handles[i]->0, value: values.drop_last()[i] });
        assert(bound_writes(handles, values)[k] == (GpuCommand::SetUniform {
            location: handles[i]->0,
            value: values[i],
        }));
    } else {
        assert(bound_writes(handles, values)[k] == (GpuCommand::SetUniform {
            location: handles[last]->0,
            value: values[last],
        }));
    }
}

/// Destroying twice is a misuse: once a drawable's objects are released,
/// the same commands find nothing to release.
pub proof fn lemma_second_destroy_is_misuse(drawable: DrawableView)
    ensures
        run(drawable.destroy_commands(), GpuModel::empty()) is None,
{
    let delete = GpuCommand::Delete(GpuObject::Program);
    lemma_run_short(delete, delete, delete, delete, delete, GpuModel::empty());
    lemma_run_concat(seq![delete], drawable.geometry.destroy_commands(), GpuModel::empty());
}

/// Nothing outside the shared uniform contract is ever required: where a
/// build of a program within the contract fails over a uniform, the uniform
/// is one of the contract. Every other uniform is resolved permissively and
/// cannot fail the build.
pub proof fn lemma_only_contract_uniforms_are_required(
    state: BuilderView,
    event: BuildEventView,
)
    requires
        state.config.within_contract(),
        !(state.phase is Failed),
    ensures
        state.step(event).0.phase is Failed ==> (state.step(event).0.error matches Some(
            GpuErrorView::UniformNotFound { name },
        ) ==> is_contract_uniform(name)),
        state.step(event).0.config == state.config,
{
    lemma_failure_causes(state, event);
}

/// The event reports a good outcome: the file was read, the shader
/// compiled, the program linked, the uniform was found.
pub open spec fn good(event: BuildEventView) -> bool {
    match event {
        BuildEventView::Source(contents) => contents is Some,
        BuildEventView::Compiled { ok, .. } => ok,
        BuildEventView::Linked { ok, .. } => ok,
        BuildEventView::Uniform(found) => found is Some,
    }
}

/// The builder after taking the events in turn.
pub open spec fn driven(state: BuilderView, events: Seq<BuildEventView>) -> BuilderView
    decreases events.len(),
{
    if events.len() == 0 {
        state
    } else {
        driven(state.step(events[0]).0, events.skip(1))
    }
}

/// Every event answers what the builder waits for when it arrives, and
/// reports a good outcome.
pub open spec fn all_good(state: BuilderView, events: Seq<BuildEventView>) -> bool
    decreases events.len(),
{
    events.len() == 0 || (answers(state, events[0]) && good(events[0]) && all_good(
        state.step(events[0]).0,
        events.skip(1),
    ))
}

/// Success is owed: a build whose outcomes are all good never fails, and
/// once it has been given as many outcomes as it had steps ahead, it is
/// ready.
pub proof fn lemma_good_builds_succeed(state: BuilderView, events: Seq<BuildEventView>)
    requires
        !(state.phase is Failed),
        all_good(state, events),
    ensures
        !(driven(state, events).phase is Failed),
        steps_ahead(driven(state, events)) + events.len() <= steps_ahead(state) || driven(
            state,
            events,
        ).phase is Ready,
        events.len() >= steps_ahead(state) && !(state.phase is Created) ==> driven(
            state,
            events,
        ).phase is Ready,
    decreases events.len(),
{
    if events.len() > 0 {
        let next = state.step(events[0]).0;
        lemma_failure_causes(state, events[0]);
        lemma_build_progresses(state, events[0]);
        lemma_good_builds_succeed(next, events.skip(1));
        if next.phase is Ready {
            // Nothing answers a ready builder, so no event is left.
            reveal_with_fuel(all_good, 2);
            assert(events.skip(1).len() == 0);
        }
    }
}

/// A program whose uniforms are all permissive cannot fail over a uniform:
/// whatever the driver finds, resolving goes on.
pub proof fn lemma_permissive_uniforms_never_fail(state: BuilderView, found: Option<u32>)
    requires
        state.phase is Resolving,
        forall|i: int|
            0 <= i < state.config.uniforms.len() ==> (#[trigger] state.config.uniforms[i]).policy
                is Permissive,
    ensures
        !(state.step(BuildEventView::Uniform(found)).0.phase is Failed),
{
}

} // verus!

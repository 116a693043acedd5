//! GPU commands and an abstract account of the objects they create and release.
//!
//! The library never talks to a graphics driver. It emits `GpuCommand`s, which
//! a host replays against a real context, one driver call per command. The
//! objects of one demo instance are named by `GpuObject`; `GpuModel` records
//! which of them exist, and `run` says what a command list does to that record
//! (or that the list misuses an object).

use vstd::prelude::*;

verus! {

/// One fixed-point unit: scalars handed to shaders are integers scaled by this.
pub const FIXED_ONE: i64 = 1_000_000_000;

#[derive(Clone, Copy, Debug, PartialEq, Eq, Structural)]
pub enum ShaderStage {
    Vertex,
    Fragment,
}

#[derive(Clone, Copy, Debug, PartialEq, Eq, Structural)]
pub enum BufferKind {
    Vertex,
    Index,
}

/// The GPU objects one demo instance can own.
#[derive(Clone, Copy, Debug, PartialEq, Eq, Structural)]
pub enum GpuObject {
    Program,
    Shader(ShaderStage),
    VertexArray,
    Buffer(BufferKind),
    Framebuffer,
    Renderbuffer,
}

/// A value written to a uniform. Scalars are fixed-point, scaled by `FIXED_ONE`.
#[derive(Clone, Copy, Debug, PartialEq, Eq, Structural)]
pub enum UniformValue {
    Int(i32),
    Scalar(i64),
    Pair(i64, i64),
    Triple(i64, i64, i64),
    IdentityMatrix3,
}

#[derive(Clone, Copy, Debug, PartialEq, Eq, Structural)]
pub enum GpuCommand {
    Create(GpuObject),
    Delete(GpuObject),
    /// Hand the stage's source text to its shader object.
    UploadSource(ShaderStage),
    Compile(ShaderStage),
    Attach(ShaderStage),
    Detach(ShaderStage),
    Link,
    UseProgram,
    BindVertexArray(bool),
    BindBuffer(BufferKind),
    /// Copy the geometry's data of this kind into the bound buffer.
    UploadBuffer(BufferKind),
    AttribPointer { location: u32, components: i32, stride: i32, offset: i32 },
    EnableAttrib(u32),
    SetUniform { location: u32, value: UniformValue },
    DrawElements { count: i32 },
    DrawArrays { first: i32, count: i32 },
    ClearColor { red: u8, green: u8, blue: u8, alpha: u8 },
    Clear,
    BindRenderbuffer(bool),
    RenderbufferStorage { width: i32, height: i32 },
}

/// Which objects exist, and which shaders are attached to the program.
#[verifier::ext_equal]
pub struct GpuModel {
    pub live: Set<GpuObject>,
    pub attached: Set<ShaderStage>,
}

impl GpuModel {
    pub open spec fn empty() -> GpuModel {
        GpuModel { live: Set::empty(), attached: Set::empty() }
    }

    pub open spec fn with_live(self, object: GpuObject) -> GpuModel {
        GpuModel { live: self.live.insert(object), ..self }
    }

    pub open spec fn without_live(self, object: GpuObject) -> GpuModel {
        GpuModel { live: self.live.remove(object), ..self }
    }
}

/// The model after one command, or `None` where the command misuses an object:
/// creating what exists, touching what does not, deleting a shader that is
/// still attached or a program that still has shaders attached.
pub open spec fn apply(command: GpuCommand, model: GpuModel) -> Option<GpuModel> {
    match command {
        GpuCommand::Create(object) => if model.live.contains(object) {
            None
        } else {
            Some(model.with_live(object))
        },
        GpuCommand::Delete(object) => {
            let held = match object {
                GpuObject::Shader(stage) => model.attached.contains(stage),
                GpuObject::Program => !(model.attached =~= Set::empty()),
                _ => false,
            };
            if model.live.contains(object) && !held {
                Some(model.without_live(object))
            } else {
                None
            }
        },
        GpuCommand::UploadSource(stage) | GpuCommand::Compile(stage) => if model.live.contains(
            GpuObject::Shader(stage),
        ) {
            Some(model)
        } else {
            None
        },
        GpuCommand::Attach(stage) => if model.live.contains(GpuObject::Program)
            && model.live.contains(GpuObject::Shader(stage)) && !model.attached.contains(stage) {
            Some(GpuModel { attached: model.attached.insert(stage), ..model })
        } else {
            None
        },
        GpuCommand::Detach(stage) => if model.attached.contains(stage) {
            Some(GpuModel { attached: model.attached.remove(stage), ..model })
        } else {
            None
        },
        GpuCommand::Link | GpuCommand::UseProgram | GpuCommand::SetUniform { .. } => if model.live.contains(
            GpuObject::Program,
        ) {
            Some(model)
        } else {
            None
        },
        GpuCommand::BindVertexArray(bound) => if !bound || model.live.contains(
            GpuObject::VertexArray,
        ) {
            Some(model)
        } else {
            None
        },
        GpuCommand::BindBuffer(kind) | GpuCommand::UploadBuffer(kind) => if model.live.contains(
            GpuObject::Buffer(kind),
        ) {
            Some(model)
        } else {
            None
        },
        GpuCommand::BindRenderbuffer(bound) => if !bound || model.live.contains(
            GpuObject::Renderbuffer,
        ) {
            Some(model)
        } else {
            None
        },
        _ => Some(model),
    }
}

/// The model after a whole command list, replayed front to back.
pub open spec fn run(commands: Seq<GpuCommand>, model: GpuModel) -> Option<GpuModel>
    decreases commands.len(),
{
    if commands.len() == 0 {
        Some(model)
    } else {
        match run(commands.drop_last(), model) {
            Some(before) => apply(commands.last(), before),
            None => None,
        }
    }
}

/// Replaying a list with one more command is replaying the list, then the command.
pub proof fn lemma_run_push(commands: Seq<GpuCommand>, command: GpuCommand, model: GpuModel)
    ensures
        run(commands.push(command), model) == match run(commands, model) {
            Some(before) => apply(command, before),
            None => None,
        },
{
    assert(commands.push(command).drop_last() =~= commands);
}

/// Replaying two lists back to back is replaying their concatenation.
pub proof fn lemma_run_concat(first: Seq<GpuCommand>, second: Seq<GpuCommand>, model: GpuModel)
    ensures
        run(first + second, model) == match run(first, model) {
            Some(middle) => run(second, middle),
            None => None,
        },
    decreases second.len(),
{
    if second.len() == 0 {
        assert(first + second =~= first);
    } else {
        lemma_run_concat(first, second.drop_last(), model);
        assert((first + second).drop_last() =~= first + second.drop_last());
    }
}

/// The model after one more command, where there still is a model.
pub open spec fn then(model: Option<GpuModel>, command: GpuCommand) -> Option<GpuModel> {
    match model {
        Some(before) => apply(command, before),
        None => None,
    }
}

/// Replaying a short list written out in full is applying its commands in turn.
pub proof fn lemma_run_short(
    a: GpuCommand,
    b: GpuCommand,
    c: GpuCommand,
    d: GpuCommand,
    e: GpuCommand,
    model: GpuModel,
)
    ensures
        run(Seq::empty(), model) == Some(model),
        run(seq![a], model) == apply(a, model),
        run(seq![a, b], model) == then(apply(a, model), b),
        run(seq![a, b, c], model) == then(then(apply(a, model), b), c),
        run(seq![a, b, c, d], model) == then(then(then(apply(a, model), b), c), d),
        run(seq![a, b, c, d, e], model) == then(then(then(then(apply(a, model), b), c), d), e),
{
    lemma_run_push(Seq::empty(), a, model);
    lemma_run_push(seq![a], b, model);
    lemma_run_push(seq![a, b], c, model);
    lemma_run_push(seq![a, b, c], d, model);
    lemma_run_push(seq![a, b, c, d], e, model);
    assert(seq![a] =~= Seq::empty().push(a));
    assert(seq![a, b] =~= seq![a].push(b));
    assert(seq![a, b, c] =~= seq![a, b].push(c));
    assert(seq![a, b, c, d] =~= seq![a, b, c].push(d));
    assert(seq![a, b, c, d, e] =~= seq![a, b, c, d].push(e));
}

} // verus!

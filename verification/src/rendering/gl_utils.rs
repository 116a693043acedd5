//! Shader compile outcomes, uniform resolution and the errors both can raise.

use vstd::prelude::*;
use vstd::string::StringExecFns;
use crate::rendering::gpu::{GpuCommand, ShaderStage};

verus! {

/// Why a demo could not be brought up.
#[derive(Debug, PartialEq, Eq)]
pub enum GpuError {
    /// A shader file is missing.
    AssetNotFound { path: String },
    /// The driver rejected a shader; `file` is set for sources read from a file.
    CompileError { stage: ShaderStage, log: String, file: Option<String> },
    /// The driver could not link the program.
    LinkError { log: String },
    /// A uniform that must exist is absent from the linked program.
    UniformNotFound { name: String },
}

pub enum GpuErrorView {
    AssetNotFound { path: Seq<char> },
    CompileError { stage: ShaderStage, log: Seq<char>, file: Option<Seq<char>> },
    LinkError { log: Seq<char> },
    UniformNotFound { name: Seq<char> },
}

impl View for GpuError {
    type V = GpuErrorView;

    open spec fn view(&self) -> GpuErrorView {
        match *self {
            GpuError::AssetNotFound { path } => GpuErrorView::AssetNotFound { path: path@ },
            GpuError::CompileError { stage, log, file } => GpuErrorView::CompileError {
                stage,
                log: log@,
                file: match file {
                    Some(p) => Some(p@),
                    None => None,
                },
            },
            GpuError::LinkError { log } => GpuErrorView::LinkError { log: log@ },
            GpuError::UniformNotFound { name } => GpuErrorView::UniformNotFound { name: name@ },
        }
    }
}

/// What to do when a uniform is absent from the linked program.
#[derive(Clone, Copy, Debug, PartialEq, Eq, Structural)]
pub enum UniformPolicy {
    /// Absence is an error: the shader is authored in lock-step with the code.
    Strict,
    /// Absence is tolerated: the shader may not reference the uniform at all.
    Permissive,
}

/// A resolved uniform: a location in the linked program, or a handle that
/// swallows every write.
#[derive(Clone, Copy, Debug, PartialEq, Eq, Structural)]
pub enum UniformHandle {
    Location(u32),
    NoOp,
}

/// The per-frame uniform names shared between the shaders and the code.
pub open spec fn is_frame_uniform(name: Seq<char>) -> bool {
    ||| name == "u_window_width"@
    ||| name == "u_window_height"@
    ||| name == "u_iterations"@
    ||| name == "u_zoom_iterations"@
    ||| name == "u_black_and_white"@
    ||| name == "u_color_palette"@
    ||| name == "u_zoomCenter"@
    ||| name == "u_zoomSize"@
}

/// The uniform names every ShaderToy wrapper declares.
pub open spec fn is_toy_uniform(name: Seq<char>) -> bool {
    ||| name == "iResolution"@
    ||| name == "iGlobalTime"@
    ||| name == "iTimeDelta"@
    ||| name == "iFrame"@
    ||| name == "iFrameRate"@
    ||| name == "iChannelTime"@
    ||| name == "iChannelResolution"@
    ||| name == "iMouse"@
    ||| name == "iDate"@
    ||| name == "iChannel0"@
    ||| name == "iChannel1"@
    ||| name == "iChannel2"@
    ||| name == "iChannel3"@
}

/// The shared uniform contract: the names a shader may be required to declare.
pub open spec fn is_contract_uniform(name: Seq<char>) -> bool {
    is_frame_uniform(name) || is_toy_uniform(name)
}

fn name_is(name: &String, literal: &str) -> (same: bool)
    ensures
        same == (name@ == literal@),
{
    let other = String::from_str(literal);
    *name == other
}

/// Whether `name` belongs to the shared uniform contract.
pub fn is_contract_name(name: &String) -> (known: bool)
    ensures
        known == is_contract_uniform(name@),
{
    name_is(name, "u_window_width") || name_is(name, "u_window_height") || name_is(
        name,
        "u_iterations",
    ) || name_is(name, "u_zoom_iterations") || name_is(name, "u_black_and_white") || name_is(
        name,
        "u_color_palette",
    ) || name_is(name, "u_zoomCenter") || name_is(name, "u_zoomSize") || name_is(
        name,
        "iResolution",
    ) || name_is(name, "iGlobalTime") || name_is(name, "iTimeDelta") || name_is(name, "iFrame")
        || name_is(name, "iFrameRate") || name_is(name, "iChannelTime") || name_is(
        name,
        "iChannelResolution",
    ) || name_is(name, "iMouse") || name_is(name, "iDate") || name_is(name, "iChannel0")
        || name_is(name, "iChannel1") || name_is(name, "iChannel2") || name_is(name, "iChannel3")
}

/// What resolving a uniform yields, given what the driver found.
pub open spec fn resolved(found: Option<u32>, name: Seq<char>, policy: UniformPolicy) -> Result<
    UniformHandle,
    GpuErrorView,
> {
    match found {
        Some(location) => Ok(UniformHandle::Location(location)),
        None => match policy {
            UniformPolicy::Strict => Err(GpuErrorView::UniformNotFound { name }),
            UniformPolicy::Permissive => Ok(UniformHandle::NoOp),
        },
    }
}

/// The view of a resolution result.
pub open spec fn handle_view(result: Result<UniformHandle, GpuError>) -> Result<
    UniformHandle,
    GpuErrorView,
> {
    match result {
        Ok(handle) => Ok(handle),
        Err(error) => Err(error@),
    }
}

/// Resolves the uniform `name` from the location the driver reported, if any.
pub fn resolve(found: Option<u32>, name: &String, policy: UniformPolicy) -> (result: Result<
    UniformHandle,
    GpuError,
>)
    ensures
        handle_view(result) == resolved(found, name@, policy),
{
    match found {
        Some(location) => Ok(UniformHandle::Location(location)),
        None => match policy {
            UniformPolicy::Strict => Err(GpuError::UniformNotFound { name: name.clone() }),
            UniformPolicy::Permissive => Ok(UniformHandle::NoOp),
        },
    }
}

/// Strict resolution: a uniform the driver did not find is an error.
pub fn get_uniform(found: Option<u32>, var_name: &String) -> (result: Result<
    UniformHandle,
    GpuError,
>)
    ensures
        handle_view(result) == resolved(found, var_name@, UniformPolicy::Strict),
        result is Ok <==> found is Some,
{
    resolve(found, var_name, UniformPolicy::Strict)
}

/// Permissive resolution: a uniform the driver did not find becomes a no-op handle.
pub fn get_uniform_no_warning(found: Option<u32>, uniform_name: &String) -> (handle: UniformHandle)
    ensures
        Ok::<UniformHandle, GpuErrorView>(handle) == resolved(
            found,
            uniform_name@,
            UniformPolicy::Permissive,
        ),
        handle == match found {
            Some(location) => UniformHandle::Location(location),
            None => UniformHandle::NoOp,
        },
{
    match found {
        Some(location) => UniformHandle::Location(location),
        None => UniformHandle::NoOp,
    }
}

/// What compiling a stage yields: the command that attaches the shader, or
/// a compile error carrying the driver's log and the source's path, if any.
pub open spec fn compiled(
    stage: ShaderStage,
    path: Option<Seq<char>>,
    ok: bool,
    log: Seq<char>,
) -> Result<GpuCommand, GpuErrorView> {
    if ok {
        Ok(GpuCommand::Attach(stage))
    } else {
        Err(GpuErrorView::CompileError { stage, log, file: path })
    }
}

/// The view of a compile result.
pub open spec fn command_view(result: Result<GpuCommand, GpuError>) -> Result<
    GpuCommand,
    GpuErrorView,
> {
    match result {
        Ok(command) => Ok(command),
        Err(error) => Err(error@),
    }
}

/// Judges the compilation of a shader whose source was read from `shader_filepath`.
pub fn create_shader(
    shader_type: ShaderStage,
    shader_filepath: &String,
    compile_status: bool,
    info_log: String,
) -> (result: Result<GpuCommand, GpuError>)
    ensures
        command_view(result) == compiled(
            shader_type,
            Some(shader_filepath@),
            compile_status,
            info_log@,
        ),
{
    if compile_status {
        Ok(GpuCommand::Attach(shader_type))
    } else {
        Err(
            GpuError::CompileError {
                stage: shader_type,
                log: info_log,
                file: Some(shader_filepath.clone()),
            },
        )
    }
}

/// Judges the compilation of a shader whose source was given in memory.
pub fn create_shader_from_string(
    shader_type: ShaderStage,
    compile_status: bool,
    info_log: String,
) -> (result: Result<GpuCommand, GpuError>)
    ensures
        command_view(result) == compiled(shader_type, None, compile_status, info_log@),
{
    if compile_status {
        Ok(GpuCommand::Attach(shader_type))
    } else {
        Err(GpuError::CompileError { stage: shader_type, log: info_log, file: None })
    }
}

/// What linking yields: nothing, or a link error carrying the driver's log.
pub open spec fn linked(ok: bool, log: Seq<char>) -> Result<(), GpuErrorView> {
    if ok {
        Ok(())
    } else {
        Err(GpuErrorView::LinkError { log })
    }
}

/// Judges the link of a program.
pub fn check_link(link_status: bool, info_log: String) -> (result: Result<(), GpuError>)
    ensures
        match result {
            Ok(_) => linked(link_status, info_log@) == Ok::<(), GpuErrorView>(()),
            Err(error) => linked(link_status, info_log@) == Err::<(), GpuErrorView>(error@),
        },
{
    if link_status {
        Ok(())
    } else {
        Err(GpuError::LinkError { log: info_log })
    }
}

/// The stage's kind as the graphics API numbers it.
pub fn stage_kind(stage: ShaderStage) -> (kind: u32)
    ensures
        kind == match stage {
            ShaderStage::Vertex => 0x8B31u32,
            ShaderStage::Fragment => 0x8B30u32,
        },
{
    match stage {
        ShaderStage::Vertex => 0x8B31,
        ShaderStage::Fragment => 0x8B30,
    }
}

} // verus!

//! Shader stages, as the driver has compiled them.

use vstd::prelude::*;
use vstd::string::StringExecFns;

use crate::command::GlCommand;
use crate::gl_const::{fragment_shader_code, vertex_shader_code};
use crate::renderable::RenderContext;

verus! {

/// What is reported when a stage of the given kind does not compile: the
/// name of the stage and the driver's own words.
pub open spec fn compile_failure(kind: u32, info_log: Seq<char>) -> Seq<char> {
    if kind == 0x8B31 {
        "Vertex shader error "@ + info_log
    } else {
        "Fragment shader error "@ + info_log
    }
}

/// A shader stage that compiled.
///
/// Stages are linked into a program; once the program is linked they can be
/// given up.
#[derive(Debug)]
pub struct GlShader {
    id: u32,
}

impl GlShader {
    /// The driver's name of the shader.
    pub closed spec fn name(&self) -> u32 {
        self.id
    }

    /// The shader `id` of the given kind, for which the driver has reported
    /// `compile_status` and `info_log` after compiling its source. A status
    /// of 0 means that the source did not compile.
    pub fn from_source(id: u32, kind: u32, compile_status: i32, info_log: &str) -> (r: Result<
        Self,
        String,
    >)
        ensures
            compile_status == 0 ==> r is Err && r->Err_0@ == compile_failure(kind, info_log@),
            compile_status != 0 ==> r is Ok && r->Ok_0.name() == id,
    {
        if compile_status == 0 {
            let mut message = if kind == vertex_shader_code() {
                String::from_str("Vertex shader error ")
            } else {
                String::from_str("Fragment shader error ")
            };
            message.append(info_log);
            Err(message)
        } else {
            Ok(GlShader { id })
        }
    }

    /// The driver's code for the vertex stage.
    pub fn vertex_kind() -> (r: u32)
        ensures
            r == 0x8B31,
    {
        vertex_shader_code()
    }

    /// The driver's code for the fragment stage.
    pub fn fragment_kind() -> (r: u32)
        ensures
            r == 0x8B30,
    {
        fragment_shader_code()
    }

    /// A vertex shader from what the driver reported after compiling it.
    pub fn from_vert_source(id: u32, compile_status: i32, info_log: &str) -> (r: Result<
        Self,
        String,
    >)
        ensures
            compile_status == 0 ==> r is Err && r->Err_0@ == "Vertex shader error "@ + info_log@,
            compile_status != 0 ==> r is Ok && r->Ok_0.name() == id,
    {
        Self::from_source(id, vertex_shader_code(), compile_status, info_log)
    }

    /// A fragment shader from what the driver reported after compiling it.
    pub fn from_frag_source(id: u32, compile_status: i32, info_log: &str) -> (r: Result<
        Self,
        String,
    >)
        ensures
            compile_status == 0 ==> r is Err && r->Err_0@ == "Fragment shader error "@ + info_log@,
            compile_status != 0 ==> r is Ok && r->Ok_0.name() == id,
    {
        Self::from_source(id, fragment_shader_code(), compile_status, info_log)
    }

    /// The driver's name of the shader.
    pub fn id(&self) -> (r: u32)
        ensures
            r == self.name(),
    {
        self.id
    }

    /// Gives the shader up: the driver is to delete it.
    pub fn release(self, render_context: &mut RenderContext)
        ensures
            final(render_context).buffers() == old(render_context).buffers(),
            final(render_context).commands() == old(render_context).commands().push(
                GlCommand::DeleteShader { shader: self.name() },
            ),
    {
        render_context.issue(GlCommand::DeleteShader { shader: self.id });
    }
}

} // verus!

//! Shader programs: linked stages, with the locations of the attributes and
//! uniforms that were asked for by name.

use vstd::prelude::*;
use vstd::string::StringExecFns;

use crate::command::GlCommand;
use crate::gl_const::invalid_index_code;
use crate::model::VertexAttr;
use crate::renderable::RenderContext;
use crate::shader::{compile_failure, GlShader};
use crate::traits::ShaderClass;

verus! {

/// The uniforms that this library cares about.
#[derive(Debug, Clone, Copy, PartialEq, Eq, Hash, Structural)]
pub enum UniformId {
    /// The view matrix uniform - once per framebuffer render
    ViewMatrix,
    /// The model matrix uniform - once per model instance
    ModelMatrix,
    /// The mesh matrix uniform - once per model mesh
    MeshMatrix,
    /// The bone scale uniform - once per model
    BoneScale,
    /// The bone matrices uniform - once per model
    BoneMatrices,
    /// User uniform - dependent on the program
    User(usize),
    /// User uniform buffer - dependent on the program
    Buffer(usize),
}

/// What the driver reported of one stage after compiling it.
#[derive(Debug)]
pub struct StageOutcome {
    /// The driver's code for the kind of stage
    pub kind: u32,
    /// The driver's name of the shader
    pub id: u32,
    /// 0 if the stage did not compile
    pub compile_status: i32,
    /// The driver's diagnostic text
    pub info_log: String,
}

/// The location in the first entry from `start` on that is for `uniform_id`.
pub open spec fn find_uniform(table: Seq<(i32, UniformId)>, uniform_id: UniformId, start: int) -> Option<
    i32,
>
    decreases table.len() - start,
{
    if start < 0 || start >= table.len() {
        None
    } else if table[start].1 == uniform_id {
        Some(table[start].0)
    } else {
        find_uniform(table, uniform_id, start + 1)
    }
}

/// What is reported for an attribute name that the program does not have.
pub open spec fn missing_attribute(name: Seq<char>) -> Seq<char> {
    "Unable to find attribute "@ + name + " in program"@
}

/// What is reported for a uniform name that the program does not have.
pub open spec fn missing_uniform(name: Seq<char>) -> Seq<char> {
    "Unable to find uniform "@ + name + " in program"@
}

/// What is reported for a uniform block name that the program does not have.
pub open spec fn missing_uniform_block(name: Seq<char>) -> Seq<char> {
    "Unable to find uniform block "@ + name + " in program"@
}

/// What is reported when the stages do not link.
pub open spec fn link_error(info_log: Seq<char>) -> Seq<char> {
    "Shader linking error "@ + info_log
}

/// The location under which a uniform block with the given index is kept:
/// the same 32 bits, read as a signed number.
pub open spec fn block_location(index: u32) -> i32 {
    if index < 0x8000_0000 {
        index as i32
    } else {
        (index - 0x1_0000_0000) as i32
    }
}

/// The driver's names of shaders, in order.
pub open spec fn names_of(shaders: Seq<GlShader>) -> Seq<u32> {
    Seq::new(shaders.len(), |i: int| shaders[i].name())
}

/// The driver's names of the shaders of stages, in order.
pub open spec fn stage_names(stages: Seq<StageOutcome>) -> Seq<u32> {
    Seq::new(stages.len(), |i: int| stages[i].id)
}

/// The calls that attach the first `n` shaders to a program.
pub open spec fn attach_commands(program: u32, shaders: Seq<u32>, n: int) -> Seq<GlCommand>
    decreases n,
{
    if n <= 0 {
        Seq::empty()
    } else {
        attach_commands(program, shaders, n - 1).push(
            GlCommand::AttachShader { program, shader: shaders[n - 1] },
        )
    }
}

/// The calls that detach the first `n` shaders from a program and delete
/// them, one shader after the other.
pub open spec fn detach_commands(program: u32, shaders: Seq<u32>, n: int) -> Seq<GlCommand>
    decreases n,
{
    if n <= 0 {
        Seq::empty()
    } else {
        detach_commands(program, shaders, n - 1).push(
            GlCommand::DetachShader { program, shader: shaders[n - 1] },
        ).push(GlCommand::DeleteShader { shader: shaders[n - 1] })
    }
}

/// The calls that delete the first `n` shaders.
pub open spec fn discard_commands(shaders: Seq<u32>, n: int) -> Seq<GlCommand>
    decreases n,
{
    if n <= 0 {
        Seq::empty()
    } else {
        discard_commands(shaders, n - 1).push(GlCommand::DeleteShader { shader: shaders[n - 1] })
    }
}

/// The first stage from `start` on that did not compile, or the number of
/// stages if all of them did.
pub open spec fn first_failure(stages: Seq<StageOutcome>, start: int) -> int
    decreases stages.len() - start,
{
    if start < 0 || start >= stages.len() {
        stages.len() as int
    } else if stages[start].compile_status == 0 {
        start
    } else {
        first_failure(stages, start + 1)
    }
}

/// A shader program, with the attributes and uniforms that are known of it.
#[derive(Debug)]
pub struct Program {
    id: u32,
    attributes: Vec<(u32, VertexAttr)>,
    uniforms: Vec<(i32, UniformId)>,
}

impl Program {
    /// The driver's name of the program.
    pub closed spec fn name(&self) -> u32 {
        self.id
    }

    /// The attribute locations that have been found, in the order in which
    /// they were added.
    pub closed spec fn attribute_pairs(&self) -> Seq<(u32, VertexAttr)> {
        self.attributes@
    }

    /// The uniform locations that have been found, in the order in which
    /// they were added.
    pub closed spec fn uniform_pairs(&self) -> Seq<(i32, UniformId)> {
        self.uniforms@
    }

    /// Gathers the stages that the driver has compiled, in order. The first
    /// one that did not compile ends it: its failure is reported, the stages
    /// before it are deleted, and nothing is to be linked.
    pub fn compile_program(stages: &Vec<StageOutcome>, render_context: &mut RenderContext) -> (r:
        Result<Vec<GlShader>, String>)
        ensures
            final(render_context).buffers() == old(render_context).buffers(),
            first_failure(stages@, 0) == stages@.len() ==> ({
                &&& r is Ok
                &&& names_of(r->Ok_0@) == stage_names(stages@)
                &&& final(render_context).commands() == old(render_context).commands()
            }),
            first_failure(stages@, 0) < stages@.len() ==> ({
                &&& r is Err
                &&& r->Err_0@ == compile_failure(
                    stages@[first_failure(stages@, 0)].kind,
                    stages@[first_failure(stages@, 0)].info_log@,
                )
                &&& final(render_context).commands() == old(render_context).commands()
                    + discard_commands(stage_names(stages@), first_failure(stages@, 0))
            }),
    {
        let mut shaders: Vec<GlShader> = Vec::new();
        let mut i: usize = 0;
        while i < stages.len()
            invariant
                0 <= i <= stages@.len(),
                shaders@.len() == i,
                forall|j: int| 0 <= j < i ==> (#[trigger] shaders@[j]).name() == stages@[j].id,
                first_failure(stages@, 0) == first_failure(stages@, i as int),
                render_context.buffers() == old(render_context).buffers(),
                render_context.commands() == old(render_context).commands(),
            decreases stages@.len() - i,
        {
            let stage = &stages[i];
            match GlShader::from_source(
                stage.id,
                stage.kind,
                stage.compile_status,
                stage.info_log.as_str(),
            ) {
                Err(message) => {
                    let mut k: usize = 0;
                    while k < shaders.len()
                        invariant
                            0 <= k <= shaders@.len(),
                            shaders@.len() == i <= stages@.len(),
                            forall|j: int|
                                0 <= j < i ==> (#[trigger] shaders@[j]).name() == stages@[j].id,
                            render_context.buffers() == old(render_context).buffers(),
                            render_context.commands() == old(render_context).commands()
                                + discard_commands(stage_names(stages@), k as int),
                        decreases shaders@.len() - k,
                    {
                        render_context.issue(GlCommand::DeleteShader { shader: shaders[k].id() });
                        k = k + 1;
                        assert(render_context.commands() =~= old(render_context).commands()
                            + discard_commands(stage_names(stages@), k as int));
                    }
                    assert(first_failure(stages@, i as int) == i);
                    return Err(message);
                },
                Ok(shader) => {
                    shaders.push(shader);
                },
            }
            i = i + 1;
        }
        assert(names_of(shaders@) =~= stage_names(stages@));
        Ok(shaders)
    }

    /// Queues the calls that attach the stages to the program `program_id`,
    /// which the driver has created, and link it.
    pub fn attach_and_link(shaders: &Vec<GlShader>, program_id: u32, render_context: &mut RenderContext)
        ensures
            final(render_context).buffers() == old(render_context).buffers(),
            final(render_context).commands() == old(render_context).commands() + attach_commands(
                program_id,
                names_of(shaders@),
                shaders@.len() as int,
            ).push(GlCommand::LinkProgram { program: program_id }),
    {
        let mut i: usize = 0;
        while i < shaders.len()
            invariant
                0 <= i <= shaders@.len(),
                render_context.buffers() == old(render_context).buffers(),
                render_context.commands() == old(render_context).commands() + attach_commands(
                    program_id,
                    names_of(shaders@),
                    i as int,
                ),
            decreases shaders@.len() - i,
        {
            render_context.issue(
                GlCommand::AttachShader { program: program_id, shader: shaders[i].id() },
            );
            i = i + 1;
            assert(render_context.commands() =~= old(render_context).commands() + attach_commands(
                program_id,
                names_of(shaders@),
                i as int,
            ));
        }
        render_context.issue(GlCommand::LinkProgram { program: program_id });
        assert(final(render_context).commands() =~= old(render_context).commands()
            + attach_commands(program_id, names_of(shaders@), shaders@.len() as int).push(
            GlCommand::LinkProgram { program: program_id },
        ));
    }

    /// The program `program_id` made of the given stages, for which the
    /// driver has reported `link_status` and `info_log` after linking. A
    /// status of 0 means that the stages did not link: that is reported with
    /// the driver's words. The stages are given up either way; after a
    /// successful link each is detached first.
    pub fn from_shaders(
        shaders: Vec<GlShader>,
        program_id: u32,
        link_status: i32,
        info_log: &str,
        render_context: &mut RenderContext,
    ) -> (r: Result<Self, String>)
        ensures
            final(render_context).buffers() == old(render_context).buffers(),
            link_status == 0 ==> ({
                &&& r is Err
                &&& r->Err_0@ == link_error(info_log@)
                &&& final(render_context).commands() == old(render_context).commands()
                    + discard_commands(names_of(shaders@), shaders@.len() as int)
            }),
            link_status != 0 ==> ({
                &&& r is Ok
                &&& r->Ok_0.name() == program_id
                &&& r->Ok_0.attribute_pairs() == Seq::<(u32, VertexAttr)>::empty()
                &&& r->Ok_0.uniform_pairs() == Seq::<(i32, UniformId)>::empty()
                &&& final(render_context).commands() == old(render_context).commands()
                    + detach_commands(program_id, names_of(shaders@), shaders@.len() as int)
            }),
    {
        let mut i: usize = 0;
        if link_status == 0 {
            while i < shaders.len()
                invariant
                    0 <= i <= shaders@.len(),
                    render_context.buffers() == old(render_context).buffers(),
                    render_context.commands() == old(render_context).commands()
                        + discard_commands(names_of(shaders@), i as int),
                decreases shaders@.len() - i,
            {
                render_context.issue(GlCommand::DeleteShader { shader: shaders[i].id() });
                i = i + 1;
                assert(render_context.commands() =~= old(render_context).commands()
                    + discard_commands(names_of(shaders@), i as int));
            }
            let mut message = String::from_str("Shader linking error ");
            message.append(info_log);
            return Err(message);
        }
        while i < shaders.len()
            invariant
                0 <= i <= shaders@.len(),
                render_context.buffers() == old(render_context).buffers(),
                render_context.commands() == old(render_context).commands() + detach_commands(
                    program_id,
                    names_of(shaders@),
                    i as int,
                ),
            decreases shaders@.len() - i,
        {
            let shader: u32 = shaders[i].id();
            render_context.issue(GlCommand::DetachShader { program: program_id, shader });
            render_context.issue(GlCommand::DeleteShader { shader });
            i = i + 1;
            assert(render_context.commands() =~= old(render_context).commands() + detach_commands(
                program_id,
                names_of(shaders@),
                i as int,
            ));
        }
        Ok(Program { id: program_id, attributes: Vec::new(), uniforms: Vec::new() })
    }

    /// Adds an attribute by its name in the shader source, for which the
    /// driver has answered `location`. A negative answer means that the
    /// program has no such attribute: that is reported, and nothing is added.
    pub fn add_attr_name(&mut self, name: &str, vertex_attr: VertexAttr, location: i32) -> (r:
        Result<(), String>)
        ensures
            location < 0 ==> ({
                &&& r is Err
                &&& r->Err_0@ == missing_attribute(name@)
                &&& *final(self) == *old(self)
            }),
            location >= 0 ==> ({
                &&& r is Ok
                &&& final(self).attribute_pairs() == old(self).attribute_pairs().push(
                    (location as u32, vertex_attr),
                )
                &&& final(self).uniform_pairs() == old(self).uniform_pairs()
                &&& final(self).name() == old(self).name()
            }),
    {
        if location < 0 {
            let mut message = String::from_str("Unable to find attribute ");
            message.append(name);
            message.append(" in program");
            Err(message)
        } else {
            self.attributes.push((location as u32, vertex_attr));
            Ok(())
        }
    }

    /// Adds a uniform by its name in the shader source, for which the driver
    /// has answered `location`. The answer -1, the invalid index read as a
    /// signed number, means that the program has no such uniform: that is
    /// reported, and nothing is added.
    pub fn add_uniform_name(&mut self, name: &str, uniform_id: UniformId, location: i32) -> (r:
        Result<(), String>)
        ensures
            location == -1 ==> ({
                &&& r is Err
                &&& r->Err_0@ == missing_uniform(name@)
                &&& *final(self) == *old(self)
            }),
            location != -1 ==> ({
                &&& r is Ok
                &&& final(self).uniform_pairs() == old(self).uniform_pairs().push(
                    (location, uniform_id),
                )
                &&& final(self).attribute_pairs() == old(self).attribute_pairs()
                &&& final(self).name() == old(self).name()
            }),
    {
        if location == block_slot(invalid_index_code()) {
            let mut message = String::from_str("Unable to find uniform ");
            message.append(name);
            message.append(" in program");
            Err(message)
        } else {
            self.uniforms.push((location, uniform_id));
            Ok(())
        }
    }

    /// Adds a uniform block by its name in the shader source, for which the
    /// driver has answered `index`. The invalid index means that the program
    /// has no such block: that is reported, and nothing is added.
    pub fn add_uniform_buffer_name(&mut self, name: &str, id: usize, index: u32) -> (r: Result<
        (),
        String,
    >)
        ensures
            index == 0xFFFF_FFFF ==> ({
                &&& r is Err
                &&& r->Err_0@ == missing_uniform_block(name@)
                &&& *final(self) == *old(self)
            }),
            index != 0xFFFF_FFFF ==> ({
                &&& r is Ok
                &&& final(self).uniform_pairs() == old(self).uniform_pairs().push(
                    (block_location(index), UniformId::Buffer(id)),
                )
                &&& final(self).attribute_pairs() == old(self).attribute_pairs()
                &&& final(self).name() == old(self).name()
            }),
    {
        if index == invalid_index_code() {
            let mut message = String::from_str("Unable to find uniform block ");
            message.append(name);
            message.append(" in program");
            Err(message)
        } else {
            self.uniforms.push((block_slot(index), UniformId::Buffer(id)));
            Ok(())
        }
    }

    /// The driver's name of the program.
    #[inline]
    pub fn id(&self) -> (r: u32)
        ensures
            r == self.name(),
    {
        self.id
    }

    /// Makes the program the current one.
    pub fn set_used(&self, render_context: &mut RenderContext)
        ensures
            final(render_context).buffers() == old(render_context).buffers(),
            final(render_context).commands() == old(render_context).commands().push(
                GlCommand::UseProgram { program: self.name() },
            ),
    {
        render_context.issue(GlCommand::UseProgram { program: self.id });
    }

    /// Gives the program up: the driver is to delete it.
    pub fn release(self, render_context: &mut RenderContext)
        ensures
            final(render_context).buffers() == old(render_context).buffers(),
            final(render_context).commands() == old(render_context).commands().push(
                GlCommand::DeleteProgram { program: self.name() },
            ),
    {
        render_context.issue(GlCommand::DeleteProgram { program: self.id });
    }
}

/// The 32 bits of a block index, read as a signed number.
fn block_slot(index: u32) -> (r: i32)
    ensures
        r == block_location(index),
{
    if index < 0x8000_0000 {
        index as i32
    } else {
        ((index as i64) - 0x1_0000_0000i64) as i32
    }
}

impl ShaderClass for Program {
    open spec fn attribute_table(&self) -> Seq<(u32, VertexAttr)> {
        self.attribute_pairs()
    }

    open spec fn uniform_location(&self, uniform_id: UniformId) -> Option<i32> {
        find_uniform(self.uniform_pairs(), uniform_id, 0)
    }

    fn attributes(&self) -> (r: &[(u32, VertexAttr)]) {
        self.attributes.as_slice()
    }

    fn uniform(&self, uniform_id: UniformId) -> (r: Option<i32>) {
        let mut i: usize = 0;
        while i < self.uniforms.len()
            invariant
                0 <= i <= self.uniforms@.len(),
                find_uniform(self.uniforms@, uniform_id, 0) == find_uniform(
                    self.uniforms@,
                    uniform_id,
                    i as int,
                ),
            decreases self.uniforms@.len() - i,
        {
            if self.uniforms[i].1 == uniform_id {
                return Some(self.uniforms[i].0);
            }
            i = i + 1;
        }
        None
    }
}

/// A uniform that could not be found is not there afterwards either: the
/// failed request leaves every lookup as it was.
pub proof fn lemma_missing_uniform_stays_absent(
    before: Program,
    after: Program,
    uniform_id: UniformId,
)
    requires
        after == before,
        before.uniform_location(uniform_id).is_none(),
    ensures
        after.uniform_location(uniform_id).is_none(),
{
}

/// A uniform that was found is there afterwards, unless the same identifier
/// was found before: then the earlier location stays.
pub proof fn lemma_added_uniform_is_found(
    table: Seq<(i32, UniformId)>,
    location: i32,
    uniform_id: UniformId,
    start: int,
)
    requires
        0 <= start <= table.len(),
    ensures
        find_uniform(table.push((location, uniform_id)), uniform_id, start) == match find_uniform(
            table,
            uniform_id,
            start,
        ) {
            Some(earlier) => Some(earlier),
            None => Some(location),
        },
    decreases table.len() - start,
{
    let longer = table.push((location, uniform_id));
    if start < table.len() {
        assert(longer[start] == table[start]);
        if table[start].1 != uniform_id {
            lemma_added_uniform_is_found(table, location, uniform_id, start + 1);
        }
    } else {
        assert(longer[start] == (location, uniform_id));
    }
}

/// The report of a missing attribute is never that of a missing uniform or
/// of a missing uniform block, whatever the names.
pub proof fn lemma_lookup_failures_differ(attr_name: Seq<char>, uniform_name: Seq<char>)
    ensures
        missing_attribute(attr_name) != missing_uniform(uniform_name),
        missing_attribute(attr_name) != missing_uniform_block(uniform_name),
{
    reveal_strlit("Unable to find attribute ");
    reveal_strlit("Unable to find uniform ");
    reveal_strlit("Unable to find uniform block ");
    assert(missing_attribute(attr_name)[15] == 'a');
    assert(missing_uniform(uniform_name)[15] == 'u');
    assert(missing_uniform_block(uniform_name)[15] == 'u');
}

} // verus!

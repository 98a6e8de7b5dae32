//! Drawing an object with one shader program: a vertex array for each of
//! its meshes, and the walk through its render recipe.

use vstd::prelude::*;

use crate::buffer::{IndexBuffer, VertexBuffer};
use crate::command::{GlCommand, MatrixSource};
use crate::model::{Primitive, RenderRecipe, VertexAttr};
use crate::program::UniformId;
use crate::renderable::{BufferRecord, RenderContext};
use crate::traits::ShaderClass;
use crate::vertices::Vertices;

verus! {

/// The calls that bind, at one location, every one of the first `n` views
/// that is for the attribute `attr`.
pub open spec fn matching_bindings(
    bufs: Seq<BufferRecord>,
    attrs: Seq<(VertexAttr, VertexBuffer)>,
    location: u32,
    attr: VertexAttr,
    n: int,
) -> Seq<GlCommand>
    decreases n,
{
    if n <= 0 {
        Seq::empty()
    } else if attrs[n - 1].0 == attr {
        matching_bindings(bufs, attrs, location, attr, n - 1) + attrs[n - 1].1.bind_commands(
            bufs,
            location,
        )
    } else {
        matching_bindings(bufs, attrs, location, attr, n - 1)
    }
}

/// The calls for one attribute that the shader declares: the positions of
/// the set for the position attribute, else whatever views the set has for
/// that attribute, which may be none.
pub open spec fn attribute_binding(
    bufs: Seq<BufferRecord>,
    position: VertexBuffer,
    attrs: Seq<(VertexAttr, VertexBuffer)>,
    location: u32,
    attr: VertexAttr,
) -> Seq<GlCommand> {
    if attr == VertexAttr::Position {
        position.bind_commands(bufs, location)
    } else {
        matching_bindings(bufs, attrs, location, attr, attrs.len() as int)
    }
}

/// The calls for the first `n` attributes that the shader declares.
pub open spec fn declared_bindings(
    bufs: Seq<BufferRecord>,
    position: VertexBuffer,
    attrs: Seq<(VertexAttr, VertexBuffer)>,
    table: Seq<(u32, VertexAttr)>,
    n: int,
) -> Seq<GlCommand>
    decreases n,
{
    if n <= 0 {
        Seq::empty()
    } else {
        declared_bindings(bufs, position, attrs, table, n - 1) + attribute_binding(
            bufs,
            position,
            attrs,
            table[n - 1].0,
            table[n - 1].1,
        )
    }
}

/// The calls that set up the vertex array `gl_vao` for a vertex set and the
/// attributes that a shader declares: make the array current, bind the
/// indices, bind each declared attribute that the set supplies, and leave no
/// array current.
pub open spec fn vao_commands(
    bufs: Seq<BufferRecord>,
    gl_vao: u32,
    indices: IndexBuffer,
    position: VertexBuffer,
    attrs: Seq<(VertexAttr, VertexBuffer)>,
    table: Seq<(u32, VertexAttr)>,
) -> Seq<GlCommand> {
    seq![GlCommand::BindVertexArray { vao: gl_vao }] + indices.bind_commands(bufs)
        + declared_bindings(bufs, position, attrs, table, table.len() as int)
        + seq![GlCommand::BindVertexArray { vao: 0 }]
}

/// The calls that set up the first `n` vertex arrays of an object, one for
/// each of its vertex sets.
pub open spec fn all_vao_commands(
    bufs: Seq<BufferRecord>,
    names: Seq<u32>,
    vertices: Seq<Vertices>,
    table: Seq<(u32, VertexAttr)>,
    n: int,
) -> Seq<GlCommand>
    decreases n,
{
    if n <= 0 {
        Seq::empty()
    } else {
        all_vao_commands(bufs, names, vertices, table, n - 1) + vao_commands(
            bufs,
            names[n - 1],
            vertices[n - 1].indices(),
            vertices[n - 1].position(),
            vertices[n - 1].attrs(),
            table,
        )
    }
}

/// The call that starts a draw: the model matrix of the instance, if the
/// shader has a uniform for it.
pub open spec fn instance_commands(model_matrix: Option<i32>) -> Seq<GlCommand> {
    match model_matrix {
        Some(location) => seq![
            GlCommand::UniformMatrix4 { location, source: MatrixSource::Instance },
        ],
        None => Seq::empty(),
    }
}

/// Whether primitive `i` needs another mesh matrix than the one that is set:
/// it is the first, or its matrix index is not that of the primitive before.
pub open spec fn matrix_changes(matrix_for: Seq<usize>, i: int) -> bool {
    i == 0 || matrix_for[i] != matrix_for[i - 1]
}

/// Whether primitive `i` needs another vertex array than the one that is
/// current: it is the first, or its vertex set index is not that of the
/// primitive before.
pub open spec fn vertices_change(primitives: Seq<Primitive>, i: int) -> bool {
    i == 0 || primitives[i].vertices_index != primitives[i - 1].vertices_index
}

/// The call that sets the mesh matrix for primitive `i`, if the shader has a
/// uniform for it and the matrix changes.
pub open spec fn matrix_update(matrix_for: Seq<usize>, mesh_matrix: Option<i32>, i: int) -> Seq<
    GlCommand,
> {
    if mesh_matrix.is_some() && matrix_changes(matrix_for, i) {
        seq![
            GlCommand::UniformMatrix4 {
                location: mesh_matrix.unwrap(),
                source: MatrixSource::Recipe(matrix_for[i]),
            },
        ]
    } else {
        Seq::empty()
    }
}

/// The call that makes the vertex array of primitive `i` current, if it is
/// not the one of the primitive before.
pub open spec fn vao_rebind(primitives: Seq<Primitive>, vaos: Seq<u32>, i: int) -> Seq<GlCommand> {
    if vertices_change(primitives, i) {
        seq![GlCommand::BindVertexArray { vao: vaos[primitives[i].vertices_index as int] }]
    } else {
        Seq::empty()
    }
}

/// The indexed draw call of one primitive.
pub open spec fn draw_call(p: Primitive) -> GlCommand {
    GlCommand::DrawElements {
        topology: p.primitive_type.gl_code(),
        count: p.index_count,
        index_offset: p.byte_offset,
    }
}

/// The calls for primitive `i`: the mesh matrix if it changes, the vertex
/// array if it changes, and the draw call.
pub open spec fn primitive_commands(
    primitives: Seq<Primitive>,
    matrix_for: Seq<usize>,
    vaos: Seq<u32>,
    mesh_matrix: Option<i32>,
    i: int,
) -> Seq<GlCommand> {
    matrix_update(matrix_for, mesh_matrix, i) + vao_rebind(primitives, vaos, i).push(
        draw_call(primitives[i]),
    )
}

/// The calls for the first `n` primitives of a recipe, in order.
pub open spec fn recipe_commands(
    primitives: Seq<Primitive>,
    matrix_for: Seq<usize>,
    vaos: Seq<u32>,
    mesh_matrix: Option<i32>,
    n: int,
) -> Seq<GlCommand>
    decreases n,
{
    if n <= 0 {
        Seq::empty()
    } else {
        recipe_commands(primitives, matrix_for, vaos, mesh_matrix, n - 1) + primitive_commands(
            primitives,
            matrix_for,
            vaos,
            mesh_matrix,
            n - 1,
        )
    }
}

/// Whether a recipe can be drawn with `vao_count` vertex arrays: every
/// primitive has a matrix index, below the number of matrices, and a vertex
/// set index below the number of vertex arrays.
pub open spec fn recipe_fits(recipe: RenderRecipe, vao_count: nat) -> bool {
    &&& recipe.matrix_for_primitives@.len() == recipe.primitives@.len()
    &&& forall|i: int|
        0 <= i < recipe.primitives@.len() ==> (#[trigger] recipe.primitives@[i]).vertices_index
            < vao_count
    &&& forall|i: int|
        0 <= i < recipe.matrix_for_primitives@.len()
            ==> #[trigger] recipe.matrix_for_primitives@[i] < recipe.matrix_count
}

/// An object as the scene hands it over: its vertex sets and the recipe for
/// drawing it.
#[derive(Debug)]
pub struct Instantiable {
    /// The vertex sets that the primitives draw from
    pub vertices: Vec<Vertices>,
    /// The order in which to draw
    pub render_recipe: RenderRecipe,
}

/// A vertex array of the driver: which buffers feed which attribute
/// locations of one shader, for one vertex set.
///
/// It refers to the buffers of the vertex set and to the locations of the
/// shader, and is of use only while both are there.
#[derive(Debug)]
pub struct Vao {
    gl_vao: u32,
}

impl Vao {
    /// The driver's name of the vertex array.
    pub closed spec fn name(&self) -> u32 {
        self.gl_vao
    }

    /// Sets up the vertex array `gl_vao`, which the driver has generated, for
    /// a shader and a vertex set. The indices are bound always. Of the
    /// attributes that the shader declares, the position gets the positions
    /// of the set, and every other one gets the views that the set has for
    /// it; one that the set does not supply stays unbound.
    pub fn new<S: ShaderClass>(
        shader_class: &S,
        vertices: &Vertices,
        gl_vao: u32,
        render_context: &mut RenderContext,
    ) -> (r: Self)
        ensures
            r.name() == gl_vao,
            final(render_context).buffers() == old(render_context).buffers(),
            final(render_context).commands() == old(render_context).commands() + vao_commands(
                old(render_context).buffers(),
                gl_vao,
                vertices.indices(),
                vertices.position(),
                vertices.attrs(),
                shader_class.attribute_table(),
            ),
    {
        let (indices, position, attrs) = vertices.borrow();
        let ghost bufs = old(render_context).buffers();
        let ghost start = old(render_context).commands() + seq![
            GlCommand::BindVertexArray { vao: gl_vao },
        ] + indices.bind_commands(bufs);
        render_context.issue(GlCommand::BindVertexArray { vao: gl_vao });
        indices.bind_to_vao(render_context);
        let table = shader_class.attributes();
        let mut i: usize = 0;
        assert(render_context.commands() =~= start + declared_bindings(
            bufs,
            *position,
            attrs@,
            table@,
            0,
        ));
        while i < table.len()
            invariant
                0 <= i <= table@.len(),
                render_context.buffers() == bufs,
                render_context.commands() == start + declared_bindings(
                    bufs,
                    *position,
                    attrs@,
                    table@,
                    i as int,
                ),
            decreases table@.len() - i,
        {
            let location: u32 = table[i].0;
            let vertex_attr = table[i].1;
            let ghost done = render_context.commands();
            if vertex_attr == VertexAttr::Position {
                position.bind_to_vao(location, render_context);
            } else {
                let mut k: usize = 0;
                assert(render_context.commands() =~= done + matching_bindings(
                    bufs,
                    attrs@,
                    location,
                    vertex_attr,
                    0,
                ));
                while k < attrs.len()
                    invariant
                        0 <= k <= attrs@.len(),
                        render_context.buffers() == bufs,
                        render_context.commands() == done + matching_bindings(
                            bufs,
                            attrs@,
                            location,
                            vertex_attr,
                            k as int,
                        ),
                    decreases attrs@.len() - k,
                {
                    if attrs[k].0 == vertex_attr {
                        attrs[k].1.bind_to_vao(location, render_context);
                    }
                    k = k + 1;
                    assert(render_context.commands() =~= done + matching_bindings(
                        bufs,
                        attrs@,
                        location,
                        vertex_attr,
                        k as int,
                    ));
                }
            }
            i = i + 1;
            assert(render_context.commands() =~= start + declared_bindings(
                bufs,
                *position,
                attrs@,
                table@,
                i as int,
            ));
        }
        render_context.issue(GlCommand::BindVertexArray { vao: 0 });
        assert(final(render_context).commands() =~= old(render_context).commands() + vao_commands(
            bufs,
            gl_vao,
            vertices.indices(),
            vertices.position(),
            vertices.attrs(),
            shader_class.attribute_table(),
        ));
        Vao { gl_vao }
    }

    /// Makes the vertex array current.
    pub fn bind_vao(&self, render_context: &mut RenderContext)
        ensures
            final(render_context).buffers() == old(render_context).buffers(),
            final(render_context).commands() == old(render_context).commands().push(
                GlCommand::BindVertexArray { vao: self.name() },
            ),
    {
        render_context.issue(GlCommand::BindVertexArray { vao: self.gl_vao });
    }
}

/// An object made ready for one shader.
///
/// A shader needs a vertex array for each vertex set of the object, which
/// maps some of the set's buffers to attribute locations of the program. An
/// instance of the object is drawn by walking the object's render recipe
/// with these vertex arrays.
///
/// It borrows the object, and so needs no buffers of its own.
pub struct ShaderInstantiable<'a, S: ShaderClass> {
    instantiable: &'a Instantiable,
    vaos: Vec<Vao>,
    shader_class: &'a S,
}

impl<'a, S: ShaderClass> ShaderInstantiable<'a, S> {
    /// The object that is drawn.
    pub closed spec fn instantiable(&self) -> Instantiable {
        *self.instantiable
    }

    /// The shader that it is drawn with.
    pub closed spec fn shader_class(&self) -> S {
        *self.shader_class
    }

    /// The driver's names of the vertex arrays, one for each vertex set.
    pub closed spec fn vao_names(&self) -> Seq<u32> {
        Seq::new(self.vaos@.len(), |i: int| self.vaos@[i].name())
    }

    /// Whether the recipe can be drawn with the vertex arrays there are.
    pub open spec fn drawable(&self) -> bool {
        recipe_fits(self.instantiable().render_recipe, self.vao_names().len())
    }

    /// Sets up a vertex array for each vertex set of the object, in order,
    /// under the names that the driver has generated.
    pub fn new(
        shader_class: &'a S,
        instantiable: &'a Instantiable,
        vao_names: &Vec<u32>,
        render_context: &mut RenderContext,
    ) -> (r: Self)
        requires
            vao_names@.len() == instantiable.vertices@.len(),
        ensures
            r.instantiable() == *instantiable,
            r.shader_class() == *shader_class,
            r.vao_names() == vao_names@,
            final(render_context).buffers() == old(render_context).buffers(),
            final(render_context).commands() == old(render_context).commands() + all_vao_commands(
                old(render_context).buffers(),
                vao_names@,
                instantiable.vertices@,
                shader_class.attribute_table(),
                vao_names@.len() as int,
            ),
    {
        let mut vaos: Vec<Vao> = Vec::new();
        let mut i: usize = 0;
        let ghost bufs = old(render_context).buffers();
        assert(render_context.commands() =~= old(render_context).commands() + all_vao_commands(
            bufs,
            vao_names@,
            instantiable.vertices@,
            shader_class.attribute_table(),
            0,
        ));
        while i < instantiable.vertices.len()
            invariant
                0 <= i <= instantiable.vertices@.len(),
                vao_names@.len() == instantiable.vertices@.len(),
                vaos@.len() == i,
                forall|j: int| 0 <= j < i ==> (#[trigger] vaos@[j]).name() == vao_names@[j],
                render_context.buffers() == bufs,
                render_context.commands() == old(render_context).commands() + all_vao_commands(
                    bufs,
                    vao_names@,
                    instantiable.vertices@,
                    shader_class.attribute_table(),
                    i as int,
                ),
            decreases instantiable.vertices@.len() - i,
        {
            let vao = Vao::new(shader_class, &instantiable.vertices[i], vao_names[i], render_context);
            vaos.push(vao);
            i = i + 1;
            assert(render_context.commands() =~= old(render_context).commands()
                + all_vao_commands(
                bufs,
                vao_names@,
                instantiable.vertices@,
                shader_class.attribute_table(),
                i as int,
            ));
        }
        let r = ShaderInstantiable { instantiable, vaos, shader_class };
        assert(r.vao_names() =~= vao_names@);
        r
    }

    /// Whether the recipe can be drawn: `gl_draw` asks for this.
    pub fn is_drawable(&self) -> (r: bool)
        ensures
            r == self.drawable(),
    {
        let recipe = &self.instantiable.render_recipe;
        if recipe.matrix_for_primitives.len() != recipe.primitives.len() {
            return false;
        }
        let mut i: usize = 0;
        while i < recipe.primitives.len()
            invariant
                0 <= i <= recipe.primitives@.len(),
                recipe == &self.instantiable.render_recipe,
                recipe.matrix_for_primitives@.len() == recipe.primitives@.len(),
                forall|j: int|
                    0 <= j < i ==> (#[trigger] recipe.primitives@[j]).vertices_index
                        < self.vaos@.len(),
                forall|j: int|
                    0 <= j < i ==> #[trigger] recipe.matrix_for_primitives@[j]
                        < recipe.matrix_count,
            decreases recipe.primitives@.len() - i,
        {
            if recipe.primitives[i].vertices_index >= self.vaos.len() {
                return false;
            }
            if recipe.matrix_for_primitives[i] >= recipe.matrix_count {
                return false;
            }
            i = i + 1;
        }
        true
    }

    /// Draws one instance of the object.
    ///
    /// The model matrix of the instance is set first, if the shader has a
    /// uniform for it. Then the primitives of the recipe are drawn in order.
    /// For each, the mesh matrix is set only if its index differs from that
    /// of the primitive before, and the vertex array is made current only if
    /// the vertex set index differs from that of the primitive before; the
    /// first primitive always sets both. A shader without a mesh matrix
    /// uniform gets none.
    pub fn gl_draw(&self, render_context: &mut RenderContext)
        requires
            self.drawable(),
        ensures
            final(render_context).buffers() == old(render_context).buffers(),
            final(render_context).commands() == old(render_context).commands()
                + instance_commands(self.shader_class().uniform_location(UniformId::ModelMatrix))
                + recipe_commands(
                self.instantiable().render_recipe.primitives@,
                self.instantiable().render_recipe.matrix_for_primitives@,
                self.vao_names(),
                self.shader_class().uniform_location(UniformId::MeshMatrix),
                self.instantiable().render_recipe.primitives@.len() as int,
            ),
    {
        let recipe = &self.instantiable.render_recipe;
        let ghost primitives = recipe.primitives@;
        let ghost matrix_for = recipe.matrix_for_primitives@;
        let ghost names = self.vao_names();
        let model_matrix = self.shader_class.uniform(UniformId::ModelMatrix);
        let mesh_matrix = self.shader_class.uniform(UniformId::MeshMatrix);
        if let Some(location) = model_matrix {
            render_context.issue(
                GlCommand::UniformMatrix4 { location, source: MatrixSource::Instance },
            );
        }
        let ghost start = old(render_context).commands() + instance_commands(model_matrix);
        assert(render_context.commands() =~= start + recipe_commands(
            primitives,
            matrix_for,
            names,
            mesh_matrix,
            0,
        ));
        let mut last_matrix: Option<usize> = None;
        let mut last_vertices: Option<usize> = None;
        let mut i: usize = 0;
        while i < recipe.primitives.len()
            invariant
                0 <= i <= primitives.len(),
                recipe == &self.instantiable.render_recipe,
                primitives == recipe.primitives@,
                matrix_for == recipe.matrix_for_primitives@,
                names == self.vao_names(),
                self.drawable(),
                i == 0 ==> last_matrix.is_none() && last_vertices.is_none(),
                i > 0 ==> last_matrix == Some(matrix_for[i - 1]) && last_vertices == Some(
                    primitives[i - 1].vertices_index,
                ),
                render_context.buffers() == old(render_context).buffers(),
                render_context.commands() == start + recipe_commands(
                    primitives,
                    matrix_for,
                    names,
                    mesh_matrix,
                    i as int,
                ),
            decreases primitives.len() - i,
        {
            let p = &recipe.primitives[i];
            let m: usize = recipe.matrix_for_primitives[i];
            let ghost done = render_context.commands();
            if let Some(location) = mesh_matrix {
                if last_matrix != Some(m) {
                    render_context.issue(
                        GlCommand::UniformMatrix4 { location, source: MatrixSource::Recipe(m) },
                    );
                }
            }
            last_matrix = Some(m);
            assert(render_context.commands() =~= done + matrix_update(
                matrix_for,
                mesh_matrix,
                i as int,
            ));
            let v: usize = p.vertices_index();
            if last_vertices != Some(v) {
                self.vaos[v].bind_vao(render_context);
            }
            last_vertices = Some(v);
            assert(names[v as int] == self.vaos@[v as int].name());
            assert(render_context.commands() =~= done + matrix_update(
                matrix_for,
                mesh_matrix,
                i as int,
            ) + vao_rebind(primitives, names, i as int));
            render_context.issue(
                GlCommand::DrawElements {
                    topology: p.primitive_type().gl_type(),
                    count: p.index_count(),
                    index_offset: p.byte_offset(),
                },
            );
            i = i + 1;
            assert(render_context.commands() =~= start + recipe_commands(
                primitives,
                matrix_for,
                names,
                mesh_matrix,
                i as int,
            ));
        }
    }
}

/// What a call does, as far as the walk through a recipe is concerned.
#[derive(Debug, Clone, Copy, PartialEq, Eq)]
pub enum CommandKind {
    /// It sets a matrix of the recipe
    MeshMatrix,
    /// It makes a vertex array current
    VertexArray,
    /// It draws
    Draw,
    /// Anything else
    Other,
}

/// The kind of a call.
pub open spec fn kind_of(command: GlCommand) -> CommandKind {
    match command {
        GlCommand::UniformMatrix4 { location, source: MatrixSource::Recipe(_) } => CommandKind::MeshMatrix,
        GlCommand::BindVertexArray { vao } => CommandKind::VertexArray,
        GlCommand::DrawElements { topology, count, index_offset } => CommandKind::Draw,
        _ => CommandKind::Other,
    }
}

/// How many of the calls are of a kind.
pub open spec fn count_kind(commands: Seq<GlCommand>, kind: CommandKind) -> nat
    decreases commands.len(),
{
    if commands.len() == 0 {
        0
    } else if kind_of(commands.last()) == kind {
        count_kind(commands.drop_last(), kind) + 1
    } else {
        count_kind(commands.drop_last(), kind)
    }
}

/// How many of the first `n` primitives need another mesh matrix than the
/// primitive before.
pub open spec fn matrix_change_count(matrix_for: Seq<usize>, n: int) -> nat
    decreases n,
{
    if n <= 0 {
        0
    } else if matrix_changes(matrix_for, n - 1) {
        matrix_change_count(matrix_for, n - 1) + 1
    } else {
        matrix_change_count(matrix_for, n - 1)
    }
}

/// How many of the first `n` primitives need another vertex array than the
/// primitive before.
pub open spec fn vertices_change_count(primitives: Seq<Primitive>, n: int) -> nat
    decreases n,
{
    if n <= 0 {
        0
    } else if vertices_change(primitives, n - 1) {
        vertices_change_count(primitives, n - 1) + 1
    } else {
        vertices_change_count(primitives, n - 1)
    }
}

/// Counting the calls of a kind in two runs of calls, one after the other,
/// is counting in each and adding up.
pub proof fn lemma_count_kind_add(a: Seq<GlCommand>, b: Seq<GlCommand>, kind: CommandKind)
    ensures
        count_kind(a + b, kind) == count_kind(a, kind) + count_kind(b, kind),
    decreases b.len(),
{
    if b.len() == 0 {
        assert(a + b =~= a);
    } else {
        assert((a + b).drop_last() =~= a + b.drop_last());
        assert((a + b).last() == b.last());
        lemma_count_kind_add(a, b.drop_last(), kind);
    }
}

/// A single call counts once for its own kind and not for another.
pub proof fn lemma_count_kind_single(command: GlCommand, kind: CommandKind)
    ensures
        count_kind(seq![command], kind) == if kind_of(command) == kind {
            1nat
        } else {
            0nat
        },
        count_kind(Seq::<GlCommand>::empty(), kind) == 0,
{
    let single = seq![command];
    assert(single.drop_last() =~= Seq::<GlCommand>::empty());
    assert(count_kind(single.drop_last(), kind) == 0);
    assert(single.last() == command);
}

/// Walking the first `n` primitives of a recipe sets the mesh matrix once
/// for each primitive whose matrix index differs from that of the primitive
/// before, the first included, and not at all for a shader without that
/// uniform; makes a vertex array current once for each primitive whose
/// vertex set index differs from that of the primitive before, the first
/// included; and draws once for each primitive.
pub proof fn lemma_rebinds_follow_changes(
    primitives: Seq<Primitive>,
    matrix_for: Seq<usize>,
    vaos: Seq<u32>,
    mesh_matrix: Option<i32>,
    n: int,
)
    requires
        0 <= n <= primitives.len(),
        n <= matrix_for.len(),
    ensures
        count_kind(
            recipe_commands(primitives, matrix_for, vaos, mesh_matrix, n),
            CommandKind::MeshMatrix,
        ) == if mesh_matrix.is_some() {
            matrix_change_count(matrix_for, n)
        } else {
            0
        },
        count_kind(
            recipe_commands(primitives, matrix_for, vaos, mesh_matrix, n),
            CommandKind::VertexArray,
        ) == vertices_change_count(primitives, n),
        count_kind(recipe_commands(primitives, matrix_for, vaos, mesh_matrix, n), CommandKind::Draw)
            == n,
    decreases n,
{
    if n > 0 {
        lemma_rebinds_follow_changes(primitives, matrix_for, vaos, mesh_matrix, n - 1);
        let earlier = recipe_commands(primitives, matrix_for, vaos, mesh_matrix, n - 1);
        let update = matrix_update(matrix_for, mesh_matrix, n - 1);
        let rebind = vao_rebind(primitives, vaos, n - 1);
        let draw = seq![draw_call(primitives[n - 1])];
        assert(primitive_commands(primitives, matrix_for, vaos, mesh_matrix, n - 1) =~= update + (
        rebind + draw));
        lemma_count_kind_step(earlier, update, rebind, draw, CommandKind::MeshMatrix);
        lemma_count_kind_step(earlier, update, rebind, draw, CommandKind::VertexArray);
        lemma_count_kind_step(earlier, update, rebind, draw, CommandKind::Draw);
        lemma_count_kind_single(draw_call(primitives[n - 1]), CommandKind::MeshMatrix);
        lemma_count_kind_single(draw_call(primitives[n - 1]), CommandKind::VertexArray);
        lemma_count_kind_single(draw_call(primitives[n - 1]), CommandKind::Draw);
        if mesh_matrix.is_some() && matrix_changes(matrix_for, n - 1) {
            lemma_count_kind_single(update[0], CommandKind::MeshMatrix);
            lemma_count_kind_single(update[0], CommandKind::VertexArray);
            lemma_count_kind_single(update[0], CommandKind::Draw);
            assert(update =~= seq![update[0]]);
        } else {
            assert(update =~= Seq::<GlCommand>::empty());
        }
        if vertices_change(primitives, n - 1) {
            lemma_count_kind_single(rebind[0], CommandKind::MeshMatrix);
            lemma_count_kind_single(rebind[0], CommandKind::VertexArray);
            lemma_count_kind_single(rebind[0], CommandKind::Draw);
            assert(rebind =~= seq![rebind[0]]);
        } else {
            assert(rebind =~= Seq::<GlCommand>::empty());
        }
    }
}

/// The count over what one primitive adds to the calls before it.
proof fn lemma_count_kind_step(
    earlier: Seq<GlCommand>,
    update: Seq<GlCommand>,
    rebind: Seq<GlCommand>,
    draw: Seq<GlCommand>,
    kind: CommandKind,
)
    ensures
        count_kind(earlier + (update + (rebind + draw)), kind) == count_kind(earlier, kind)
            + count_kind(update, kind) + count_kind(rebind, kind) + count_kind(draw, kind),
{
    lemma_count_kind_add(earlier, update + (rebind + draw), kind);
    lemma_count_kind_add(update, rebind + draw, kind);
    lemma_count_kind_add(rebind, draw, kind);
}

/// An attribute that the shader declares and the vertex set does not supply
/// is left unbound: nothing is queued for it, and nothing fails.
pub proof fn lemma_missing_attribute_unbound(
    bufs: Seq<BufferRecord>,
    position: VertexBuffer,
    attrs: Seq<(VertexAttr, VertexBuffer)>,
    location: u32,
    attr: VertexAttr,
)
    requires
        attr != VertexAttr::Position,
        forall|i: int| 0 <= i < attrs.len() ==> (#[trigger] attrs[i]).0 != attr,
    ensures
        attribute_binding(bufs, position, attrs, location, attr) == Seq::<GlCommand>::empty(),
{
    lemma_no_match_no_binding(bufs, attrs, location, attr, attrs.len() as int);
}

/// Where none of the first `n` views is for an attribute, nothing is queued
/// for it among them.
pub proof fn lemma_no_match_no_binding(
    bufs: Seq<BufferRecord>,
    attrs: Seq<(VertexAttr, VertexBuffer)>,
    location: u32,
    attr: VertexAttr,
    n: int,
)
    requires
        n <= attrs.len(),
        forall|i: int| 0 <= i < n ==> (#[trigger] attrs[i]).0 != attr,
    ensures
        matching_bindings(bufs, attrs, location, attr, n) == Seq::<GlCommand>::empty(),
    decreases n,
{
    if n > 0 {
        lemma_no_match_no_binding(bufs, attrs, location, attr, n - 1);
    }
}

} // verus!

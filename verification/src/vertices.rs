//! The buffers of one mesh: its indices, its positions, and its other
//! vertex attributes.

use vstd::prelude::*;

use crate::buffer::{BufferView, IndexBuffer, VertexBuffer};
use crate::command::GlCommand;
use crate::model::VertexAttr;
use crate::renderable::{
    empty_record, release_all_commands, released_all, shared, BufferRecord, RenderContext,
};

verus! {

/// The records after each of the first `n` slots has got one more owner, in
/// order. A slot that occurs twice gets two.
pub open spec fn shared_all(bufs: Seq<BufferRecord>, slots: Seq<usize>, n: int) -> Seq<BufferRecord>
    decreases n,
{
    if n <= 0 {
        bufs
    } else {
        shared(shared_all(bufs, slots, n - 1), slots[n - 1])
    }
}

/// The slots of the buffers of a vertex set: that of the indices, that of
/// the positions, then those of the other attributes in order.
pub open spec fn slots_of(
    indices: IndexBuffer,
    position: VertexBuffer,
    attrs: Seq<(VertexAttr, VertexBuffer)>,
) -> Seq<usize> {
    seq![indices.slot(), position.slot()] + Seq::new(attrs.len(), |i: int| attrs[i].1.slot())
}

/// The vertex views that a sequence of announced views holds, each with its
/// attribute.
pub open spec fn vertex_views(attrs: Seq<(VertexAttr, &BufferView)>) -> Seq<(VertexAttr, VertexBuffer)> {
    Seq::new(attrs.len(), |i: int| (attrs[i].0, (*attrs[i].1)->VertexBuffer_0))
}

/// Everything that is needed to draw the geometry of one mesh.
#[derive(Debug)]
pub struct Vertices {
    indices: IndexBuffer,
    position: VertexBuffer,
    attrs: Vec<(VertexAttr, VertexBuffer)>,
}

impl Vertices {
    /// The indices.
    pub closed spec fn indices(&self) -> IndexBuffer {
        self.indices
    }

    /// The view of the positions.
    pub closed spec fn position(&self) -> VertexBuffer {
        self.position
    }

    /// The views of the other attributes.
    pub closed spec fn attrs(&self) -> Seq<(VertexAttr, VertexBuffer)> {
        self.attrs@
    }

    /// The slots of all the buffers of the set.
    pub open spec fn slots(&self) -> Seq<usize> {
        slots_of(self.indices(), self.position(), self.attrs())
    }

    /// Borrow the indices, the positions, and the other attributes.
    pub fn borrow(&self) -> (r: (&IndexBuffer, &VertexBuffer, &Vec<(VertexAttr, VertexBuffer)>))
        ensures
            *r.0 == self.indices(),
            *r.1 == self.position(),
            r.2@ == self.attrs(),
    {
        (&self.indices, &self.position, &self.attrs)
    }

    /// A set of nothing: empty indices, an empty view of positions, each
    /// with a buffer of its own, and no other attributes.
    pub fn new(render_context: &mut RenderContext) -> (r: Self)
        ensures
            r.indices().slot() == old(render_context).buffers().len(),
            r.indices().index_count() == 0,
            r.position().slot() == old(render_context).buffers().len() + 1,
            r.position().descriptor().count == 0,
            r.attrs() == Seq::<(VertexAttr, VertexBuffer)>::empty(),
            final(render_context).buffers() == old(render_context).buffers().push(
                empty_record(),
            ).push(empty_record()),
            final(render_context).commands() == old(render_context).commands(),
    {
        let indices = IndexBuffer::new(render_context);
        let position = VertexBuffer::new(render_context);
        Vertices { indices, position, attrs: Vec::new() }
    }

    /// The entry point for a mesh that has announced all its views: gathers
    /// a share of each. Nothing is uploaded; every buffer of the set has one
    /// more owner for each view of the set that refers to it.
    pub fn create(
        indices: &BufferView,
        position: &BufferView,
        attrs: &Vec<(VertexAttr, &BufferView)>,
        render_context: &mut RenderContext,
    ) -> (r: Self)
        requires
            indices is IndexBuffer,
            position is VertexBuffer,
            forall|i: int| 0 <= i < attrs@.len() ==> *(#[trigger] attrs@[i]).1 is VertexBuffer,
        ensures
            r.indices() == indices->IndexBuffer_0,
            r.position() == position->VertexBuffer_0,
            r.attrs() == vertex_views(attrs@),
            final(render_context).buffers() == shared_all(
                old(render_context).buffers(),
                r.slots(),
                r.slots().len() as int,
            ),
            final(render_context).commands() == old(render_context).commands(),
    {
        let ghost slots = slots_of(
            indices->IndexBuffer_0,
            position->VertexBuffer_0,
            vertex_views(attrs@),
        );
        let own_indices = indices.as_index_buffer().share(render_context);
        let own_position = position.as_vertex_buffer().share(render_context);
        assert(render_context.buffers() == shared_all(old(render_context).buffers(), slots, 2)) by {
            assert(shared_all(old(render_context).buffers(), slots, 0) == old(render_context).buffers());
            assert(shared_all(old(render_context).buffers(), slots, 1) == shared(
                old(render_context).buffers(),
                slots[0],
            ));
        }
        let mut own_attrs: Vec<(VertexAttr, VertexBuffer)> = Vec::new();
        let mut i: usize = 0;
        while i < attrs.len()
            invariant
                0 <= i <= attrs@.len(),
                forall|j: int| 0 <= j < attrs@.len() ==> *(#[trigger] attrs@[j]).1 is VertexBuffer,
                slots == slots_of(
                    indices->IndexBuffer_0,
                    position->VertexBuffer_0,
                    vertex_views(attrs@),
                ),
                own_attrs@.len() == i,
                forall|j: int| 0 <= j < i ==> #[trigger] own_attrs@[j] == vertex_views(attrs@)[j],
                render_context.buffers() == shared_all(
                    old(render_context).buffers(),
                    slots,
                    2 + i as int,
                ),
                render_context.commands() == old(render_context).commands(),
            decreases attrs@.len() - i,
        {
            let attr = attrs[i].0;
            let view = attrs[i].1.as_vertex_buffer().share(render_context);
            assert(slots[2 + i as int] == view.slot());
            own_attrs.push((attr, view));
            i = i + 1;
        }
        assert(own_attrs@ =~= vertex_views(attrs@));
        assert(slots.len() == 2 + attrs@.len());
        Vertices { indices: own_indices, position: own_position, attrs: own_attrs }
    }

    /// The same set once more; every buffer of the set has one more owner
    /// for each view of the set that refers to it.
    pub fn share(&self, render_context: &mut RenderContext) -> (r: Self)
        ensures
            r.indices() == self.indices(),
            r.position() == self.position(),
            r.attrs() == self.attrs(),
            final(render_context).buffers() == shared_all(
                old(render_context).buffers(),
                self.slots(),
                self.slots().len() as int,
            ),
            final(render_context).commands() == old(render_context).commands(),
    {
        let ghost slots = self.slots();
        let indices = self.indices.share(render_context);
        let position = self.position.share(render_context);
        assert(render_context.buffers() == shared_all(old(render_context).buffers(), slots, 2)) by {
            assert(shared_all(old(render_context).buffers(), slots, 0) == old(render_context).buffers());
            assert(shared_all(old(render_context).buffers(), slots, 1) == shared(
                old(render_context).buffers(),
                slots[0],
            ));
        }
        let mut attrs: Vec<(VertexAttr, VertexBuffer)> = Vec::new();
        let mut i: usize = 0;
        while i < self.attrs.len()
            invariant
                0 <= i <= self.attrs@.len(),
                slots == self.slots(),
                attrs@.len() == i,
                forall|j: int| 0 <= j < i ==> #[trigger] attrs@[j] == self.attrs@[j],
                render_context.buffers() == shared_all(
                    old(render_context).buffers(),
                    slots,
                    2 + i as int,
                ),
                render_context.commands() == old(render_context).commands(),
            decreases self.attrs@.len() - i,
        {
            let attr = self.attrs[i].0;
            let view = self.attrs[i].1.share(render_context);
            assert(slots[2 + i as int] == view.slot());
            attrs.push((attr, view));
            i = i + 1;
        }
        assert(attrs@ =~= self.attrs@);
        assert(slots.len() == 2 + self.attrs@.len());
        Vertices { indices, position, attrs }
    }

    /// Gives the set up, and with it one owner of each of its buffers: of
    /// the indices, of the positions, then of the other attributes in order.
    pub fn release(self, render_context: &mut RenderContext)
        ensures
            final(render_context).buffers() == released_all(
                old(render_context).buffers(),
                self.slots(),
                self.slots().len() as int,
            ),
            final(render_context).commands() == old(render_context).commands()
                + release_all_commands(
                old(render_context).buffers(),
                self.slots(),
                self.slots().len() as int,
            ),
    {
        let ghost slots = self.slots();
        let ghost before = old(render_context).buffers();
        render_context.release(self.indices.slot_index());
        assert(render_context.commands() =~= old(render_context).commands() + release_all_commands(
            before,
            slots,
            1,
        )) by {
            assert(release_all_commands(before, slots, 0) == Seq::<GlCommand>::empty());
            assert(released_all(before, slots, 0) == before);
        }
        render_context.release(self.position.slot_index());
        assert(render_context.commands() =~= old(render_context).commands() + release_all_commands(
            before,
            slots,
            2,
        ));
        let mut i: usize = 0;
        while i < self.attrs.len()
            invariant
                0 <= i <= self.attrs@.len(),
                slots == self.slots(),
                before == old(render_context).buffers(),
                render_context.buffers() == released_all(before, slots, 2 + i as int),
                render_context.commands() == old(render_context).commands()
                    + release_all_commands(before, slots, 2 + i as int),
            decreases self.attrs@.len() - i,
        {
            assert(slots[2 + i as int] == self.attrs@[i as int].1.slot());
            render_context.release(self.attrs[i].1.slot_index());
            i = i + 1;
            assert(render_context.commands() =~= old(render_context).commands()
                + release_all_commands(before, slots, 2 + i as int));
        }
        assert(slots.len() == 2 + self.attrs@.len());
    }
}

} // verus!

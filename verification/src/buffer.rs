//! Views of driver buffers: a vertex view is a window into a shared buffer,
//! an index view has a buffer of its own.

use vstd::prelude::*;

use crate::command::{BufferTarget, GlCommand};
use crate::gl_buffer::{
    announce_commands, announced, detached_upload_commands, index_byte_length, upload_commands,
    BufferError, GlBuffer,
};
use crate::gl_const::{byte_code, float_code, half_float_code, int_code, short_code};
use crate::model::{BufferElementType, VertexAttr, ViewDescriptor};
use crate::renderable::{
    empty_record, name_in, release_commands, released, shared, target_in, BufferRecord,
    RenderContext,
};

verus! {

/// The calls that bind a window of the buffer `name` to an attribute
/// location of the current vertex array: select the buffer, enable the
/// location, describe the data.
pub open spec fn attribute_commands(name: u32, attr_index: u32, view: ViewDescriptor) -> Seq<
    GlCommand,
> {
    seq![
        GlCommand::BindBuffer { target: BufferTarget::Array, buffer: name },
        GlCommand::EnableVertexAttribArray { index: attr_index },
        GlCommand::VertexAttribPointer {
            index: attr_index,
            size: view.count,
            ele_type: view.ele_type.gl_code(),
            stride: view.stride,
            byte_offset: view.byte_offset,
        },
    ]
}

/// Why a vertex view cannot take up the buffer of a source, if it cannot:
/// the source is unknown to the context, or what was uploaded for it is no
/// vertex data.
pub open spec fn adoption_refusal(bufs: Seq<BufferRecord>, source: usize) -> Option<BufferError> {
    if source >= bufs.len() {
        Some(BufferError::UnknownBuffer)
    } else if bufs[source as int].name != 0 && bufs[source as int].target != BufferTarget::Array {
        Some(BufferError::NotVertexBuffer)
    } else {
        None
    }
}

/// The record of a slot that is made for indices: the buffer `fresh`, one
/// owner.
pub open spec fn index_record(fresh: u32) -> BufferRecord {
    BufferRecord { name: fresh, owners: 1, target: BufferTarget::ElementArray }
}

/// The records after a vertex view that owned `old_slot` has taken up the
/// buffer of a source: the source announces its data, the view becomes one
/// more owner of it and lets go of what it had.
pub open spec fn adopted(bufs: Seq<BufferRecord>, source: usize, fresh: u32, old_slot: usize) -> Seq<
    BufferRecord,
> {
    released(shared(announced(bufs, source, fresh), source), old_slot)
}

/// The calls that are queued while a vertex view takes up the buffer of a
/// source: the upload, if it is the source's first announcement, and the
/// deletion of what the view had, if the view was its last owner.
pub open spec fn adopt_commands(
    bufs: Seq<BufferRecord>,
    source: usize,
    fresh: u32,
    byte_length: u64,
    old_slot: usize,
) -> Seq<GlCommand> {
    announce_commands(bufs, source, fresh, byte_length) + release_commands(
        shared(announced(bufs, source, fresh), source),
        old_slot,
    )
}

/// Taking up the buffer of a source changes no buffer's name but, at its
/// first announcement, that of the source.
pub proof fn lemma_adoption_keeps_names(
    bufs: Seq<BufferRecord>,
    source: usize,
    fresh: u32,
    old_slot: usize,
    slot: usize,
)
    ensures
        adopted(bufs, source, fresh, old_slot).len() == bufs.len(),
        name_in(adopted(bufs, source, fresh, old_slot), slot) == name_in(
            announced(bufs, source, fresh),
            slot,
        ),
        name_in(bufs, slot) != 0 ==> name_in(adopted(bufs, source, fresh, old_slot), slot)
            == name_in(bufs, slot),
{
}

/// Two views that are made from one source, whatever they were before and
/// whatever the driver offers for the second, refer to the buffer of one
/// upload: the first view uploads, the second queues no upload and finds the
/// same name.
pub proof fn lemma_views_of_one_source(
    bufs: Seq<BufferRecord>,
    source: usize,
    first_fresh: u32,
    first_length: u64,
    first_old: usize,
    second_fresh: u32,
    second_length: u64,
    second_old: usize,
)
    requires
        source < bufs.len(),
        name_in(bufs, source) == 0,
        first_fresh != 0,
    ensures
        announce_commands(bufs, source, first_fresh, first_length) == upload_commands(
            BufferTarget::Array,
            first_fresh,
            0,
            first_length,
        ),
        name_in(adopted(bufs, source, first_fresh, first_old), source) == first_fresh,
        announce_commands(
            adopted(bufs, source, first_fresh, first_old),
            source,
            second_fresh,
            second_length,
        ) == Seq::<GlCommand>::empty(),
        name_in(
            adopted(adopted(bufs, source, first_fresh, first_old), source, second_fresh, second_old),
            source,
        ) == first_fresh,
{
    lemma_adoption_keeps_names(bufs, source, first_fresh, first_old, source);
    lemma_adoption_keeps_names(
        adopted(bufs, source, first_fresh, first_old),
        source,
        second_fresh,
        second_old,
        source,
    );
}

/// A window into a shared driver buffer, for one attribute of the vertices.
///
/// A source buffer may hold much per vertex: position, normal, color and so
/// on. Each of them is one vertex view; the driver has one copy of the data
/// for all of them.
#[derive(Debug)]
pub struct VertexBuffer {
    gl_buffer: GlBuffer,
    /// Number of elements per vertex, 1 to 4
    pub count: u32,
    /// The type of each element
    pub ele_type: BufferElementType,
    /// Offset from the start of the buffer to the first byte of data
    pub byte_offset: u32,
    /// Stride of the data in the buffer; 0 for tightly packed
    pub stride: u32,
}

impl VertexBuffer {
    /// The slot of the view's buffer.
    pub closed spec fn slot(&self) -> usize {
        self.gl_buffer.slot()
    }

    /// What the scene said of the window.
    pub closed spec fn descriptor(&self) -> ViewDescriptor {
        ViewDescriptor {
            count: self.count,
            ele_type: self.ele_type,
            byte_offset: self.byte_offset,
            stride: self.stride,
        }
    }

    /// The calls that bind the view to an attribute location, given the
    /// context's records.
    pub open spec fn bind_commands(&self, bufs: Seq<BufferRecord>, attr_index: u32) -> Seq<
        GlCommand,
    > {
        attribute_commands(name_in(bufs, self.slot()), attr_index, self.descriptor())
    }

    /// A view of nothing: no elements, 32-bit floats, and a buffer of its own
    /// that holds nothing yet.
    pub fn new(render_context: &mut RenderContext) -> (r: Self)
        ensures
            r.slot() == old(render_context).buffers().len(),
            r.descriptor() == (ViewDescriptor {
                count: 0,
                ele_type: BufferElementType::Float32,
                byte_offset: 0,
                stride: 0,
            }),
            final(render_context).buffers() == old(render_context).buffers().push(
                empty_record(),
            ),
            final(render_context).commands() == old(render_context).commands(),
    {
        let gl_buffer = GlBuffer::new(render_context);
        VertexBuffer {
            gl_buffer,
            count: 0,
            ele_type: BufferElementType::Float32,
            byte_offset: 0,
            stride: 0,
        }
    }

    /// The same window into the same buffer, which has one more owner.
    pub fn share(&self, render_context: &mut RenderContext) -> (r: Self)
        ensures
            r == *self,
            final(render_context).buffers() == shared(old(render_context).buffers(), self.slot()),
            final(render_context).commands() == old(render_context).commands(),
    {
        let gl_buffer = self.gl_buffer.share(render_context);
        VertexBuffer {
            gl_buffer,
            count: self.count,
            ele_type: self.ele_type,
            byte_offset: self.byte_offset,
            stride: self.stride,
        }
    }

    /// Gives the view up, and with it one owner of its buffer.
    pub fn release(self, render_context: &mut RenderContext)
        ensures
            final(render_context).buffers() == released(old(render_context).buffers(), self.slot()),
            final(render_context).commands() == old(render_context).commands() + release_commands(
                old(render_context).buffers(),
                self.slot(),
            ),
    {
        self.gl_buffer.release(render_context);
    }

    /// The driver's name of the view's buffer; 0 while nothing has been
    /// uploaded.
    pub fn gl_buffer(&self, render_context: &RenderContext) -> (r: u32)
        ensures
            r == name_in(render_context.buffers(), self.slot()),
    {
        self.gl_buffer.gl_buffer(render_context)
    }

    /// The slot of the view's buffer.
    pub fn slot_index(&self) -> (r: usize)
        ensures
            r == self.slot(),
    {
        self.gl_buffer.slot_index()
    }

    /// Makes this the view that the scene describes, into the buffer of
    /// `source`. The source announces its data first, which uploads it into
    /// `fresh` unless that was done before; then the view takes a share of
    /// the source's handle and lets go of the buffer it had. Refused, with
    /// nothing changed, if the source's handle is unknown to the context or
    /// holds a buffer that was uploaded as something else than vertex data.
    pub fn of_view(
        &mut self,
        view: &ViewDescriptor,
        source: &GlBuffer,
        fresh: u32,
        byte_length: u64,
        render_context: &mut RenderContext,
    ) -> (r: Result<(), BufferError>)
        requires
            source.name(old(render_context)) == 0 ==> fresh != 0,
        ensures
            match adoption_refusal(old(render_context).buffers(), source.slot()) {
                Some(e) => ({
                    &&& r == Err::<(), BufferError>(e)
                    &&& *final(self) == *old(self)
                    &&& final(render_context).same_as(old(render_context))
                }),
                None => ({
                    &&& r == Ok::<(), BufferError>(())
                    &&& final(self).descriptor() == *view
                    &&& final(self).slot() == source.slot()
                    &&& final(render_context).buffers() == adopted(
                        old(render_context).buffers(),
                        source.slot(),
                        fresh,
                        old(self).slot(),
                    )
                    &&& final(render_context).commands() == old(render_context).commands()
                        + adopt_commands(
                        old(render_context).buffers(),
                        source.slot(),
                        fresh,
                        byte_length,
                        old(self).slot(),
                    )
                }),
            },
    {
        if source.slot_index() >= render_context.buffer_count() {
            return Err(BufferError::UnknownBuffer);
        }
        if !source.is_none(render_context) && source.target(render_context) != BufferTarget::Array {
            return Err(BufferError::NotVertexBuffer);
        }
        match source.create(fresh, byte_length, render_context) {
            Err(e) => {
                return Err(e);
            },
            Ok(()) => {},
        }
        self.count = view.count;
        self.ele_type = view.ele_type;
        self.byte_offset = view.byte_offset;
        self.stride = view.stride;
        let mut handle = source.share(render_context);
        core::mem::swap(&mut self.gl_buffer, &mut handle);
        handle.release(render_context);
        assert(final(render_context).commands() =~= old(render_context).commands()
            + adopt_commands(
            old(render_context).buffers(),
            source.slot(),
            fresh,
            byte_length,
            old(self).slot(),
        ));
        Ok(())
    }

    /// The driver's code for the type of the view's elements.
    pub fn gl_element_type(&self) -> (r: u32)
        ensures
            r == self.descriptor().ele_type.gl_code(),
    {
        match self.ele_type {
            BufferElementType::Float32 => float_code(),
            BufferElementType::Float16 => half_float_code(),
            BufferElementType::Int8 => byte_code(),
            BufferElementType::Int16 => short_code(),
            BufferElementType::Int32 => int_code(),
        }
    }

    /// Binds the view to an attribute location of the current vertex array.
    pub fn bind_to_vao(&self, attr_index: u32, render_context: &mut RenderContext)
        ensures
            final(render_context).buffers() == old(render_context).buffers(),
            final(render_context).commands() == old(render_context).commands()
                + self.bind_commands(old(render_context).buffers(), attr_index),
    {
        let name: u32 = self.gl_buffer(render_context);
        render_context.issue(GlCommand::BindBuffer { target: BufferTarget::Array, buffer: name });
        render_context.issue(GlCommand::EnableVertexAttribArray { index: attr_index });
        render_context.issue(
            GlCommand::VertexAttribPointer {
                index: attr_index,
                size: self.count,
                ele_type: self.gl_element_type(),
                stride: self.stride,
                byte_offset: self.byte_offset,
            },
        );
        assert(final(render_context).commands() =~= old(render_context).commands()
            + self.bind_commands(old(render_context).buffers(), attr_index));
    }
}

/// Indices, in a driver buffer that no vertex view shares.
#[derive(Debug)]
pub struct IndexBuffer {
    gl_buffer: GlBuffer,
    /// Number of indices
    pub count: u32,
    /// The type of each index
    pub ele_type: BufferElementType,
}

impl IndexBuffer {
    /// The slot of the view's buffer.
    pub closed spec fn slot(&self) -> usize {
        self.gl_buffer.slot()
    }

    /// The number of indices.
    pub closed spec fn index_count(&self) -> u32 {
        self.count
    }

    /// The type of each index.
    pub closed spec fn index_type(&self) -> BufferElementType {
        self.ele_type
    }

    /// The call that binds the indices to the current vertex array.
    pub open spec fn bind_commands(&self, bufs: Seq<BufferRecord>) -> Seq<GlCommand> {
        seq![
            GlCommand::BindBuffer {
                target: BufferTarget::ElementArray,
                buffer: name_in(bufs, self.slot()),
            },
        ]
    }

    /// No indices: a count of 0, 8-bit integers, and a buffer of its own that
    /// holds nothing yet.
    pub fn new(render_context: &mut RenderContext) -> (r: Self)
        ensures
            r.slot() == old(render_context).buffers().len(),
            r.index_count() == 0,
            r.index_type() == BufferElementType::Int8,
            final(render_context).buffers() == old(render_context).buffers().push(
                empty_record(),
            ),
            final(render_context).commands() == old(render_context).commands(),
    {
        let gl_buffer = GlBuffer::new(render_context);
        IndexBuffer { gl_buffer, count: 0, ele_type: BufferElementType::Int8 }
    }

    /// The same indices in the same buffer, which has one more owner.
    pub fn share(&self, render_context: &mut RenderContext) -> (r: Self)
        ensures
            r == *self,
            final(render_context).buffers() == shared(old(render_context).buffers(), self.slot()),
            final(render_context).commands() == old(render_context).commands(),
    {
        let gl_buffer = self.gl_buffer.share(render_context);
        IndexBuffer { gl_buffer, count: self.count, ele_type: self.ele_type }
    }

    /// Gives the indices up, and with them one owner of their buffer.
    pub fn release(self, render_context: &mut RenderContext)
        ensures
            final(render_context).buffers() == released(old(render_context).buffers(), self.slot()),
            final(render_context).commands() == old(render_context).commands() + release_commands(
                old(render_context).buffers(),
                self.slot(),
            ),
    {
        self.gl_buffer.release(render_context);
    }

    /// The driver's name of the index buffer; 0 while nothing has been
    /// uploaded.
    pub fn gl_buffer(&self, render_context: &RenderContext) -> (r: u32)
        ensures
            r == name_in(render_context.buffers(), self.slot()),
    {
        self.gl_buffer.gl_buffer(render_context)
    }

    /// The slot of the index buffer.
    pub fn slot_index(&self) -> (r: usize)
        ensures
            r == self.slot(),
    {
        self.gl_buffer.slot_index()
    }

    /// Indices as the scene describes them, uploaded into the buffer `fresh`,
    /// which the driver has generated and which belongs to these indices
    /// alone. An element type that is no integer is refused, with nothing
    /// changed.
    pub fn of_view(view: &ViewDescriptor, fresh: u32, render_context: &mut RenderContext) -> (r:
        Result<Self, BufferError>)
        requires
            fresh != 0,
        ensures
            !view.ele_type.is_integer() ==> ({
                &&& r == Err::<Self, BufferError>(BufferError::InvalidElementType)
                &&& final(render_context).same_as(old(render_context))
            }),
            view.ele_type.is_integer() ==> ({
                &&& r.is_ok()
                &&& r.unwrap().slot() == old(render_context).buffers().len()
                &&& r.unwrap().index_count() == view.count
                &&& r.unwrap().index_type() == view.ele_type
                &&& final(render_context).buffers() == old(render_context).buffers().push(
                    index_record(fresh),
                )
                &&& final(render_context).commands() == old(render_context).commands()
                    + detached_upload_commands(
                    BufferTarget::ElementArray,
                    fresh,
                    view.byte_offset as u64,
                    index_byte_length(*view) as u64,
                )
            }),
    {
        if view.ele_type.index_size().is_none() {
            return Err(BufferError::InvalidElementType);
        }
        let gl_buffer = GlBuffer::new(render_context);
        match gl_buffer.of_indices(fresh, view, render_context) {
            Err(e) => Err(e),
            Ok(()) => {
                assert(final(render_context).buffers() =~= old(render_context).buffers().push(
                    index_record(fresh),
                ));
                Ok(IndexBuffer { gl_buffer, count: view.count, ele_type: view.ele_type })
            },
        }
    }

    /// Binds the index buffer to the current vertex array.
    pub fn bind_to_vao(&self, render_context: &mut RenderContext)
        ensures
            final(render_context).buffers() == old(render_context).buffers(),
            final(render_context).commands() == old(render_context).commands()
                + self.bind_commands(old(render_context).buffers()),
    {
        let name: u32 = self.gl_buffer(render_context);
        render_context.issue(
            GlCommand::BindBuffer { target: BufferTarget::ElementArray, buffer: name },
        );
        assert(final(render_context).commands() =~= old(render_context).commands()
            + self.bind_commands(old(render_context).buffers()));
    }
}

/// A view of buffer data: of vertex attributes or of indices.
#[derive(Debug)]
pub enum BufferView {
    /// Vertex buffer
    VertexBuffer(VertexBuffer),
    /// Index buffer
    IndexBuffer(IndexBuffer),
}

impl BufferView {
    /// The slot of the view's buffer.
    pub open spec fn slot(&self) -> usize {
        match self {
            BufferView::VertexBuffer(vb) => vb.slot(),
            BufferView::IndexBuffer(ib) => ib.slot(),
        }
    }

    /// The view that stands for nothing yet: an empty vertex view.
    pub fn new(render_context: &mut RenderContext) -> (r: Self)
        ensures
            r is VertexBuffer,
            r.slot() == old(render_context).buffers().len(),
            r->VertexBuffer_0.descriptor() == (ViewDescriptor {
                count: 0,
                ele_type: BufferElementType::Float32,
                byte_offset: 0,
                stride: 0,
            }),
            final(render_context).buffers() == old(render_context).buffers().push(
                empty_record(),
            ),
            final(render_context).commands() == old(render_context).commands(),
    {
        BufferView::VertexBuffer(VertexBuffer::new(render_context))
    }

    /// Gives the view up, and with it one owner of its buffer.
    pub fn release(self, render_context: &mut RenderContext)
        ensures
            final(render_context).buffers() == released(old(render_context).buffers(), self.slot()),
            final(render_context).commands() == old(render_context).commands() + release_commands(
                old(render_context).buffers(),
                self.slot(),
            ),
    {
        match self {
            BufferView::VertexBuffer(vb) => vb.release(render_context),
            BufferView::IndexBuffer(ib) => ib.release(render_context),
        }
    }

    /// The indices that this is a view of.
    pub fn as_index_buffer(&self) -> (r: &IndexBuffer)
        requires
            self is IndexBuffer,
        ensures
            *r == self->IndexBuffer_0,
    {
        match self {
            BufferView::IndexBuffer(index_buffer) => index_buffer,
            BufferView::VertexBuffer(_) => vstd::pervasive::unreached(),
        }
    }

    /// The vertex attributes that this is a view of.
    pub fn as_vertex_buffer(&self) -> (r: &VertexBuffer)
        requires
            self is VertexBuffer,
        ensures
            *r == self->VertexBuffer_0,
    {
        match self {
            BufferView::VertexBuffer(vertex_buffer) => vertex_buffer,
            BufferView::IndexBuffer(_) => vstd::pervasive::unreached(),
        }
    }

    /// Whether `create` will upload, and so needs a buffer that the driver
    /// has generated: always for indices, and for a vertex attribute when
    /// its source has not been uploaded yet.
    pub fn needs_buffer(attr: VertexAttr, source: &GlBuffer, render_context: &RenderContext) -> (r:
        bool)
        ensures
            r == (attr == VertexAttr::Indices || source.name(render_context) == 0),
    {
        attr == VertexAttr::Indices || source.is_none(render_context)
    }

    /// The entry point for a view that the scene announces, once for each use
    /// of an attribute.
    ///
    /// Used as indices, the view gets a buffer of its own, `fresh`, with the
    /// indices uploaded; what the view was before is given up. Used as a
    /// vertex attribute, it becomes a window into the buffer of `source`,
    /// which is uploaded into `fresh` if it was not uploaded before. A view
    /// that holds indices cannot become a vertex attribute.
    pub fn create(
        &mut self,
        view: &ViewDescriptor,
        attr: VertexAttr,
        source: &GlBuffer,
        fresh: u32,
        byte_length: u64,
        render_context: &mut RenderContext,
    ) -> (r: Result<(), BufferError>)
        requires
            attr == VertexAttr::Indices || source.name(old(render_context)) == 0 ==> fresh != 0,
        ensures
            r == create_result(
                *old(self),
                *view,
                attr,
                source.slot(),
                old(render_context).buffers(),
            ),
            r.is_err() ==> ({
                &&& *final(self) == *old(self)
                &&& final(render_context).same_as(old(render_context))
            }),
            r.is_ok() && attr == VertexAttr::Indices ==> ({
                &&& *final(self) is IndexBuffer
                &&& final(self).slot() == old(render_context).buffers().len()
                &&& (*final(self))->IndexBuffer_0.index_count() == view.count
                &&& (*final(self))->IndexBuffer_0.index_type() == view.ele_type
                &&& final(render_context).buffers() == released(
                    old(render_context).buffers().push(index_record(fresh)),
                    old(self).slot(),
                )
                &&& final(render_context).commands() == old(render_context).commands()
                    + detached_upload_commands(
                    BufferTarget::ElementArray,
                    fresh,
                    view.byte_offset as u64,
                    index_byte_length(*view) as u64,
                ) + release_commands(
                    old(render_context).buffers().push(index_record(fresh)),
                    old(self).slot(),
                )
            }),
            r.is_ok() && attr != VertexAttr::Indices ==> ({
                &&& *final(self) is VertexBuffer
                &&& final(self).slot() == source.slot()
                &&& (*final(self))->VertexBuffer_0.descriptor() == *view
                &&& final(render_context).buffers() == adopted(
                    old(render_context).buffers(),
                    source.slot(),
                    fresh,
                    old(self).slot(),
                )
                &&& final(render_context).commands() == old(render_context).commands()
                    + adopt_commands(
                    old(render_context).buffers(),
                    source.slot(),
                    fresh,
                    byte_length,
                    old(self).slot(),
                )
            }),
    {
        if attr == VertexAttr::Indices {
            match IndexBuffer::of_view(view, fresh, render_context) {
                Err(e) => Err(e),
                Ok(index_buffer) => {
                    let mut next = BufferView::IndexBuffer(index_buffer);
                    core::mem::swap(self, &mut next);
                    next.release(render_context);
                    Ok(())
                },
            }
        } else {
            match self {
                BufferView::IndexBuffer(_) => Err(BufferError::NotVertexBuffer),
                BufferView::VertexBuffer(vb) => {
                    match vb.of_view(view, source, fresh, byte_length, render_context) {
                        Err(e) => Err(e),
                        Ok(_) => Ok(()),
                    }
                },
            }
        }
    }
}

/// What `create` answers: indices need an integer element type; a vertex
/// attribute needs a view that does not hold indices, and a source that the
/// context knows and that was not uploaded as something else.
pub open spec fn create_result(
    before: BufferView,
    view: ViewDescriptor,
    attr: VertexAttr,
    source: usize,
    bufs: Seq<BufferRecord>,
) -> Result<(), BufferError> {
    if attr == VertexAttr::Indices {
        if view.ele_type.is_integer() {
            Ok(())
        } else {
            Err(BufferError::InvalidElementType)
        }
    } else if before is IndexBuffer {
        Err(BufferError::NotVertexBuffer)
    } else {
        match adoption_refusal(bufs, source) {
            Some(e) => Err(e),
            None => Ok(()),
        }
    }
}

/// A buffer that was made for indices is never the buffer of a vertex view:
/// a source that names it is refused. What a vertex view does take up holds
/// vertex data afterwards, and the buffer of the indices is as it was.
pub proof fn lemma_index_buffer_is_exclusive(
    bufs: Seq<BufferRecord>,
    index_slot: usize,
    source: usize,
    fresh: u32,
    old_slot: usize,
)
    requires
        name_in(bufs, index_slot) != 0,
        target_in(bufs, index_slot) == BufferTarget::ElementArray,
        adoption_refusal(bufs, source).is_none(),
        name_in(bufs, source) == 0 ==> fresh != 0,
    ensures
        adoption_refusal(bufs, index_slot) == Some(BufferError::NotVertexBuffer),
        source != index_slot,
        name_in(adopted(bufs, source, fresh, old_slot), source) != 0,
        target_in(adopted(bufs, source, fresh, old_slot), source) == BufferTarget::Array,
        name_in(adopted(bufs, source, fresh, old_slot), index_slot) == name_in(bufs, index_slot),
        target_in(adopted(bufs, source, fresh, old_slot), index_slot) == BufferTarget::ElementArray,
{
}

} // verus!

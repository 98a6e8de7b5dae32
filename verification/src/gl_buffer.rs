//! Counted handles of driver buffers.
//!
//! A handle names a slot of the context's arena. The record in the slot holds
//! the driver's name of the buffer, 0 until something has been uploaded, and
//! the number of handles that own it. The name is assigned once and then
//! stays; the driver buffer is deleted when the last owner lets go.

use vstd::prelude::*;

use crate::command::{BufferTarget, GlCommand};
use crate::model::ViewDescriptor;
use crate::renderable::{
    empty_record, name_in, named, release_commands, released, shared, target_in, BufferRecord,
    RenderContext,
};

verus! {

/// Why a buffer or a view could not be made.
#[derive(Debug, Clone, Copy, PartialEq, Eq, Structural)]
pub enum BufferError {
    /// Indices were asked for with an element type that is no integer
    InvalidElementType,
    /// The handle already holds an uploaded buffer
    DoubleInitialization,
    /// A vertex attribute was asked of a view that holds indices, or of a
    /// buffer that was uploaded as something else than vertex data
    NotVertexBuffer,
    /// The handle names no slot of this context
    UnknownBuffer,
}

/// The calls that upload `byte_length` bytes of the source data, from
/// `byte_offset` on, into the buffer `name` through `target`, and unbind it
/// again.
pub open spec fn upload_commands(
    target: BufferTarget,
    name: u32,
    byte_offset: u64,
    byte_length: u64,
) -> Seq<GlCommand> {
    seq![
        GlCommand::BindBuffer { target, buffer: name },
        GlCommand::BufferData { target, source_offset: byte_offset, byte_length },
        GlCommand::BindBuffer { target, buffer: 0 },
    ]
}

/// The same, with no vertex array current, so that the upload disturbs none.
pub open spec fn detached_upload_commands(
    target: BufferTarget,
    name: u32,
    byte_offset: u64,
    byte_length: u64,
) -> Seq<GlCommand> {
    seq![GlCommand::BindVertexArray { vao: 0 }] + upload_commands(
        target,
        name,
        byte_offset,
        byte_length,
    )
}

/// Why an upload into a slot is refused, if it is: the slot is unknown, or
/// it holds a buffer already.
pub open spec fn upload_refusal(bufs: Seq<BufferRecord>, slot: usize) -> Option<BufferError> {
    if slot >= bufs.len() {
        Some(BufferError::UnknownBuffer)
    } else if bufs[slot as int].name != 0 {
        Some(BufferError::DoubleInitialization)
    } else {
        None
    }
}

/// The number of bytes that the indices of a view take.
pub open spec fn index_byte_length(view: ViewDescriptor) -> nat {
    view.ele_type.byte_size() * view.count as nat
}

/// The records after a source buffer has announced its data for a slot: the
/// first announcement gives the slot its name, later ones change nothing.
pub open spec fn announced(bufs: Seq<BufferRecord>, slot: usize, fresh: u32) -> Seq<BufferRecord> {
    if name_in(bufs, slot) == 0 {
        named(bufs, slot, fresh, BufferTarget::Array)
    } else {
        bufs
    }
}

/// The calls that one announcement queues: an upload if the slot is still
/// empty, else none.
pub open spec fn announce_commands(
    bufs: Seq<BufferRecord>,
    slot: usize,
    fresh: u32,
    byte_length: u64,
) -> Seq<GlCommand> {
    if slot < bufs.len() && bufs[slot as int].name == 0 {
        upload_commands(BufferTarget::Array, fresh, 0, byte_length)
    } else {
        Seq::empty()
    }
}

/// The records after a run of announcements for one slot, each with the name
/// the driver offered and the length of the data.
pub open spec fn announced_all(bufs: Seq<BufferRecord>, slot: usize, events: Seq<(u32, u64)>) -> Seq<
    BufferRecord,
>
    decreases events.len(),
{
    if events.len() == 0 {
        bufs
    } else {
        announced_all(announced(bufs, slot, events[0].0), slot, events.drop_first())
    }
}

/// The calls that a run of announcements for one slot queues, in order.
pub open spec fn announce_all_commands(
    bufs: Seq<BufferRecord>,
    slot: usize,
    events: Seq<(u32, u64)>,
) -> Seq<GlCommand>
    decreases events.len(),
{
    if events.len() == 0 {
        Seq::empty()
    } else {
        announce_commands(bufs, slot, events[0].0, events[0].1) + announce_all_commands(
            announced(bufs, slot, events[0].0),
            slot,
            events.drop_first(),
        )
    }
}

/// A counted handle of one driver buffer.
#[derive(Debug)]
pub struct GlBuffer {
    slot: usize,
}

impl GlBuffer {
    /// The slot of the context that the handle names.
    pub closed spec fn slot(&self) -> usize {
        self.slot
    }

    /// The driver's name of the buffer, as the context has it.
    pub open spec fn name(&self, ctx: &RenderContext) -> u32 {
        name_in(ctx.buffers(), self.slot())
    }

    /// A handle of a new slot, with nothing uploaded and this one owner.
    pub fn new(render_context: &mut RenderContext) -> (r: Self)
        ensures
            r.slot() == old(render_context).buffers().len(),
            final(render_context).buffers() == old(render_context).buffers().push(
                empty_record(),
            ),
            final(render_context).commands() == old(render_context).commands(),
    {
        let slot: usize = render_context.allocate();
        GlBuffer { slot }
    }

    /// Another handle of the same slot; the slot has one more owner.
    pub fn share(&self, render_context: &mut RenderContext) -> (r: Self)
        ensures
            r == *self,
            final(render_context).buffers() == shared(old(render_context).buffers(), self.slot()),
            final(render_context).commands() == old(render_context).commands(),
    {
        render_context.share(self.slot);
        GlBuffer { slot: self.slot }
    }

    /// Gives the handle up. The driver buffer is deleted if this was the last
    /// owner and something had been uploaded.
    pub fn release(self, render_context: &mut RenderContext)
        ensures
            final(render_context).buffers() == released(old(render_context).buffers(), self.slot()),
            final(render_context).commands() == old(render_context).commands() + release_commands(
                old(render_context).buffers(),
                self.slot(),
            ),
    {
        render_context.release(self.slot);
    }

    /// The slot that the handle names.
    pub fn slot_index(&self) -> (r: usize)
        ensures
            r == self.slot(),
    {
        self.slot
    }

    /// The driver's name of the buffer; 0 while nothing has been uploaded.
    pub fn gl_buffer(&self, render_context: &RenderContext) -> (r: u32)
        ensures
            r == self.name(render_context),
    {
        render_context.buffer_name(self.slot)
    }

    /// What the buffer was uploaded as; of no meaning while nothing has been
    /// uploaded.
    pub fn target(&self, render_context: &RenderContext) -> (r: BufferTarget)
        ensures
            r == target_in(render_context.buffers(), self.slot()),
    {
        render_context.buffer_target(self.slot)
    }

    /// Whether nothing has been uploaded yet.
    pub fn is_none(&self, render_context: &RenderContext) -> (r: bool)
        ensures
            r == (self.name(render_context) == 0),
    {
        render_context.buffer_name(self.slot) == 0
    }

    /// The entry point for a source buffer that announces its data. The
    /// first announcement uploads the data into the buffer `fresh`, which the
    /// driver has generated; every later one finds the buffer there and does
    /// nothing.
    pub fn create(&self, fresh: u32, byte_length: u64, render_context: &mut RenderContext) -> (r:
        Result<(), BufferError>)
        requires
            self.name(old(render_context)) == 0 ==> fresh != 0,
        ensures
            self.slot() < old(render_context).buffers().len() ==> r.is_ok(),
            self.slot() >= old(render_context).buffers().len() ==> r == Err::<(), BufferError>(
                BufferError::UnknownBuffer,
            ),
            final(render_context).buffers() == announced(
                old(render_context).buffers(),
                self.slot(),
                fresh,
            ),
            final(render_context).commands() == old(render_context).commands() + announce_commands(
                old(render_context).buffers(),
                self.slot(),
                fresh,
                byte_length,
            ),
    {
        if self.is_none(render_context) {
            self.of_data(fresh, byte_length, render_context)
        } else {
            assert(final(render_context).commands() =~= old(render_context).commands()
                + announce_commands(old(render_context).buffers(), self.slot(), fresh, byte_length));
            Ok(())
        }
    }

    /// Uploads `byte_length` bytes of vertex data into the buffer `name`,
    /// which the driver has generated, and makes it the handle's buffer.
    /// Refused, with nothing changed, if the handle holds a buffer already.
    pub fn of_data(&self, name: u32, byte_length: u64, render_context: &mut RenderContext) -> (r:
        Result<(), BufferError>)
        requires
            name != 0,
        ensures
            match upload_refusal(old(render_context).buffers(), self.slot()) {
                Some(e) => ({
                    &&& r == Err::<(), BufferError>(e)
                    &&& final(render_context).same_as(old(render_context))
                }),
                None => ({
                    &&& r.is_ok()
                    &&& final(render_context).buffers() == named(
                        old(render_context).buffers(),
                        self.slot(),
                        name,
                        BufferTarget::Array,
                    )
                    &&& final(render_context).commands() == old(render_context).commands()
                        + upload_commands(BufferTarget::Array, name, 0, byte_length)
                }),
            },
    {
        if self.slot >= render_context.buffer_count() {
            return Err(BufferError::UnknownBuffer);
        }
        if !self.is_none(render_context) {
            return Err(BufferError::DoubleInitialization);
        }
        render_context.issue(GlCommand::BindBuffer { target: BufferTarget::Array, buffer: name });
        render_context.issue(
            GlCommand::BufferData { target: BufferTarget::Array, source_offset: 0, byte_length },
        );
        render_context.issue(GlCommand::BindBuffer { target: BufferTarget::Array, buffer: 0 });
        render_context.set_name(self.slot, name, BufferTarget::Array);
        assert(final(render_context).commands() =~= old(render_context).commands()
            + upload_commands(BufferTarget::Array, name, 0, byte_length));
        Ok(())
    }

    /// Uploads the indices that a view describes into the buffer `name`,
    /// which the driver has generated, and makes it the handle's buffer. The
    /// bytes are those of the source data from the view's offset on, as many
    /// as the element count times the element size. Refused, with nothing
    /// changed, if the handle holds a buffer already or the element type is
    /// no integer.
    pub fn of_indices(&self, name: u32, view: &ViewDescriptor, render_context: &mut RenderContext) -> (r:
        Result<(), BufferError>)
        requires
            name != 0,
        ensures
            match index_refusal(old(render_context).buffers(), self.slot(), *view) {
                Some(e) => ({
                    &&& r == Err::<(), BufferError>(e)
                    &&& final(render_context).same_as(old(render_context))
                }),
                None => ({
                    &&& r.is_ok()
                    &&& final(render_context).buffers() == named(
                        old(render_context).buffers(),
                        self.slot(),
                        name,
                        BufferTarget::ElementArray,
                    )
                    &&& final(render_context).commands() == old(render_context).commands()
                        + detached_upload_commands(
                        BufferTarget::ElementArray,
                        name,
                        view.byte_offset as u64,
                        index_byte_length(*view) as u64,
                    )
                }),
            },
    {
        if self.slot >= render_context.buffer_count() {
            return Err(BufferError::UnknownBuffer);
        }
        if !self.is_none(render_context) {
            return Err(BufferError::DoubleInitialization);
        }
        let ele_size: u64 = match view.ele_type.index_size() {
            Some(size) => size,
            None => {
                return Err(BufferError::InvalidElementType);
            },
        };
        assert(ele_size * view.count as u64 <= 4 * 0xFFFF_FFFF) by (nonlinear_arith)
            requires
                ele_size <= 4,
                view.count as u64 <= 0xFFFF_FFFF,
        ;
        let byte_length: u64 = ele_size * (view.count as u64);
        self.upload_detached(
            BufferTarget::ElementArray,
            name,
            view.byte_offset as u64,
            byte_length,
            render_context,
        );
        Ok(())
    }

    /// Uploads `count` elements of `element_size` bytes each into the buffer
    /// `name`, which the driver has generated, as the data of a uniform
    /// block, and makes it the handle's buffer. Refused, with nothing
    /// changed, if the handle holds a buffer already.
    pub fn uniform_buffer(
        &self,
        name: u32,
        element_size: u32,
        count: u32,
        render_context: &mut RenderContext,
    ) -> (r: Result<(), BufferError>)
        requires
            name != 0,
        ensures
            match upload_refusal(old(render_context).buffers(), self.slot()) {
                Some(e) => ({
                    &&& r == Err::<(), BufferError>(e)
                    &&& final(render_context).same_as(old(render_context))
                }),
                None => ({
                    &&& r.is_ok()
                    &&& final(render_context).buffers() == named(
                        old(render_context).buffers(),
                        self.slot(),
                        name,
                        BufferTarget::Uniform,
                    )
                    &&& final(render_context).commands() == old(render_context).commands()
                        + detached_upload_commands(
                        BufferTarget::Uniform,
                        name,
                        0,
                        (element_size as nat * count as nat) as u64,
                    )
                }),
            },
    {
        if self.slot >= render_context.buffer_count() {
            return Err(BufferError::UnknownBuffer);
        }
        if !self.is_none(render_context) {
            return Err(BufferError::DoubleInitialization);
        }
        assert(element_size as u64 * count as u64 <= 0xFFFF_FFFF * 0xFFFF_FFFF) by (nonlinear_arith)
            requires
                element_size as u64 <= 0xFFFF_FFFF,
                count as u64 <= 0xFFFF_FFFF,
        ;
        let byte_length: u64 = (element_size as u64) * (count as u64);
        self.upload_detached(BufferTarget::Uniform, name, 0, byte_length, render_context);
        Ok(())
    }

    /// Queues an upload with no vertex array current and records the name.
    fn upload_detached(
        &self,
        target: BufferTarget,
        name: u32,
        byte_offset: u64,
        byte_length: u64,
        render_context: &mut RenderContext,
    )
        ensures
            final(render_context).buffers() == named(
                old(render_context).buffers(),
                self.slot(),
                name,
                target,
            ),
            final(render_context).commands() == old(render_context).commands()
                + detached_upload_commands(target, name, byte_offset, byte_length),
    {
        render_context.issue(GlCommand::BindVertexArray { vao: 0 });
        render_context.issue(GlCommand::BindBuffer { target, buffer: name });
        render_context.issue(GlCommand::BufferData { target, source_offset: byte_offset, byte_length });
        render_context.issue(GlCommand::BindBuffer { target, buffer: 0 });
        render_context.set_name(self.slot, name, target);
        assert(final(render_context).commands() =~= old(render_context).commands()
            + detached_upload_commands(target, name, byte_offset, byte_length));
    }
}

/// Why an upload of indices into a slot is refused, if it is: the slot is
/// unknown, it holds a buffer already, or the element type is no integer.
pub open spec fn index_refusal(bufs: Seq<BufferRecord>, slot: usize, view: ViewDescriptor) -> Option<
    BufferError,
> {
    if upload_refusal(bufs, slot).is_some() {
        upload_refusal(bufs, slot)
    } else if !view.ele_type.is_integer() {
        Some(BufferError::InvalidElementType)
    } else {
        None
    }
}

/// A buffer's name is assigned once, and with it what the buffer holds:
/// where an upload is not refused the slot had none, and neither an upload
/// or an announcement for whatever slot, nor a new owner, nor an owner that
/// lets go, changes a name that is there or what was uploaded under it.
pub proof fn lemma_name_is_assigned_once(
    bufs: Seq<BufferRecord>,
    slot: usize,
    name: u32,
    target: BufferTarget,
    other: usize,
)
    requires
        name_in(bufs, other) != 0,
    ensures
        upload_refusal(bufs, other).is_some(),
        upload_refusal(bufs, slot).is_none() ==> ({
            &&& name_in(bufs, slot) == 0
            &&& name_in(named(bufs, slot, name, target), other) == name_in(bufs, other)
            &&& target_in(named(bufs, slot, name, target), other) == target_in(bufs, other)
        }),
        name_in(announced(bufs, slot, name), other) == name_in(bufs, other),
        target_in(announced(bufs, slot, name), other) == target_in(bufs, other),
        name_in(shared(bufs, slot), other) == name_in(bufs, other),
        target_in(shared(bufs, slot), other) == target_in(bufs, other),
        name_in(released(bufs, slot), other) == name_in(bufs, other),
        target_in(released(bufs, slot), other) == target_in(bufs, other),
{
}

/// Once a slot holds a buffer, no run of announcements for it uploads
/// anything or changes a record.
pub proof fn lemma_announcements_after_upload(
    bufs: Seq<BufferRecord>,
    slot: usize,
    events: Seq<(u32, u64)>,
)
    requires
        name_in(bufs, slot) != 0,
    ensures
        announced_all(bufs, slot, events) == bufs,
        announce_all_commands(bufs, slot, events) == Seq::<GlCommand>::empty(),
    decreases events.len(),
{
    if events.len() > 0 {
        lemma_announcements_after_upload(bufs, slot, events.drop_first());
    }
}

/// However often a source buffer announces its data, exactly one upload is
/// made: that of the first announcement. The slot then keeps the name of
/// that upload, so every view made from the source refers to one buffer.
pub proof fn lemma_one_upload_per_source(bufs: Seq<BufferRecord>, slot: usize, events: Seq<(u32, u64)>)
    requires
        slot < bufs.len(),
        name_in(bufs, slot) == 0,
        events.len() > 0,
        events[0].0 != 0,
    ensures
        announce_all_commands(bufs, slot, events) == upload_commands(
            BufferTarget::Array,
            events[0].0,
            0,
            events[0].1,
        ),
        name_in(announced_all(bufs, slot, events), slot) == events[0].0,
        announced_all(bufs, slot, events) == named(bufs, slot, events[0].0, BufferTarget::Array),
{
    lemma_announcements_after_upload(
        named(bufs, slot, events[0].0, BufferTarget::Array),
        slot,
        events.drop_first(),
    );
}

} // verus!

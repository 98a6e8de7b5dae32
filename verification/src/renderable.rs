//! The context that every operation works in: the arena of buffer records
//! and the queue of driver calls that have been decided on.

use vstd::prelude::*;

use crate::command::{BufferTarget, GlCommand};

verus! {

/// Marker for the kind of client data that this library attaches to a model.
#[derive(Debug)]
pub struct Renderable {}

/// One driver buffer and the number of handles that own it.
#[derive(Debug, Clone, Copy, PartialEq, Eq)]
pub struct BufferRecord {
    /// The driver's name of the buffer; 0 while nothing has been uploaded
    pub name: u32,
    /// How many handles own the record; 0 once the last one has let go
    pub owners: u64,
    /// What the buffer was uploaded as; of no meaning while nothing has been
    /// uploaded
    pub target: BufferTarget,
}

/// The record of a new slot: nothing uploaded, one owner.
pub open spec fn empty_record() -> BufferRecord {
    BufferRecord { name: 0, owners: 1, target: BufferTarget::Array }
}

/// The driver's name of the buffer in a slot; 0 for a slot that does not
/// exist.
pub open spec fn name_in(bufs: Seq<BufferRecord>, slot: usize) -> u32 {
    if slot < bufs.len() {
        bufs[slot as int].name
    } else {
        0
    }
}

/// The number of owners of a slot; 0 for a slot that does not exist.
pub open spec fn owners_in(bufs: Seq<BufferRecord>, slot: usize) -> u64 {
    if slot < bufs.len() {
        bufs[slot as int].owners
    } else {
        0
    }
}

/// What the buffer in a slot was uploaded as; vertex data for a slot that
/// does not exist.
pub open spec fn target_in(bufs: Seq<BufferRecord>, slot: usize) -> BufferTarget {
    if slot < bufs.len() {
        bufs[slot as int].target
    } else {
        BufferTarget::Array
    }
}

/// The records after a slot has been given its driver name and what it was
/// uploaded as.
pub open spec fn named(bufs: Seq<BufferRecord>, slot: usize, name: u32, target: BufferTarget) -> Seq<
    BufferRecord,
> {
    if slot < bufs.len() {
        bufs.update(slot as int, BufferRecord { name, owners: bufs[slot as int].owners, target })
    } else {
        bufs
    }
}

/// The records after one more handle owns a slot. A count that has reached
/// the largest value stays there.
pub open spec fn shared(bufs: Seq<BufferRecord>, slot: usize) -> Seq<BufferRecord> {
    if slot < bufs.len() && bufs[slot as int].owners < u64::MAX {
        bufs.update(
            slot as int,
            BufferRecord { owners: (bufs[slot as int].owners + 1) as u64, ..bufs[slot as int] },
        )
    } else {
        bufs
    }
}

/// The records after one owner of a slot has let go. A slot without owners,
/// and one whose count is pinned at the largest value, stay as they are.
pub open spec fn released(bufs: Seq<BufferRecord>, slot: usize) -> Seq<BufferRecord> {
    if slot < bufs.len() && 0 < bufs[slot as int].owners < u64::MAX {
        bufs.update(
            slot as int,
            BufferRecord { owners: (bufs[slot as int].owners - 1) as u64, ..bufs[slot as int] },
        )
    } else {
        bufs
    }
}

/// Whether letting go of a slot deletes its driver buffer: it has exactly one
/// owner and something was uploaded.
pub open spec fn deletes_on_release(bufs: Seq<BufferRecord>, slot: usize) -> bool {
    slot < bufs.len() && bufs[slot as int].owners == 1 && bufs[slot as int].name != 0
}

/// The calls that letting go of a slot adds to the queue.
pub open spec fn release_commands(bufs: Seq<BufferRecord>, slot: usize) -> Seq<GlCommand> {
    if deletes_on_release(bufs, slot) {
        seq![GlCommand::DeleteBuffer { buffer: bufs[slot as int].name }]
    } else {
        Seq::empty()
    }
}

/// The records after one owner of each of the first `n` slots has let go, in
/// order.
pub open spec fn released_all(bufs: Seq<BufferRecord>, slots: Seq<usize>, n: int) -> Seq<BufferRecord>
    decreases n,
{
    if n <= 0 {
        bufs
    } else {
        released(released_all(bufs, slots, n - 1), slots[n - 1])
    }
}

/// The calls that are queued while one owner of each of the first `n` slots
/// lets go, in order: a deletion for each buffer that loses its last owner.
pub open spec fn release_all_commands(bufs: Seq<BufferRecord>, slots: Seq<usize>, n: int) -> Seq<
    GlCommand,
>
    decreases n,
{
    if n <= 0 {
        Seq::empty()
    } else {
        release_all_commands(bufs, slots, n - 1) + release_commands(
            released_all(bufs, slots, n - 1),
            slots[n - 1],
        )
    }
}

/// The state of one driver context: its buffer records, indexed by slot, and
/// the driver calls that wait to be made.
#[derive(Debug)]
pub struct RenderContext {
    buffers: Vec<BufferRecord>,
    commands: Vec<GlCommand>,
}

impl RenderContext {
    /// The buffer records, by slot.
    pub closed spec fn buffers(&self) -> Seq<BufferRecord> {
        self.buffers@
    }

    /// The driver calls that wait to be made, oldest first.
    pub closed spec fn commands(&self) -> Seq<GlCommand> {
        self.commands@
    }

    /// Whether this context has the same records and the same waiting calls
    /// as another.
    pub open spec fn same_as(&self, other: &RenderContext) -> bool {
        self.buffers() == other.buffers() && self.commands() == other.commands()
    }

    /// A context without buffers and without waiting calls.
    pub fn new() -> (r: Self)
        ensures
            r.buffers() == Seq::<BufferRecord>::empty(),
            r.commands() == Seq::<GlCommand>::empty(),
    {
        RenderContext { buffers: Vec::new(), commands: Vec::new() }
    }

    /// Hands out the waiting calls, in order, and leaves the queue empty.
    pub fn take_commands(&mut self) -> (r: Vec<GlCommand>)
        ensures
            r@ == old(self).commands(),
            final(self).commands() == Seq::<GlCommand>::empty(),
            final(self).buffers() == old(self).buffers(),
    {
        let mut out: Vec<GlCommand> = Vec::new();
        core::mem::swap(&mut self.commands, &mut out);
        out
    }

    /// The number of waiting calls.
    pub fn pending(&self) -> (r: usize)
        ensures
            r == self.commands().len(),
    {
        self.commands.len()
    }

    /// The number of slots.
    pub fn buffer_count(&self) -> (r: usize)
        ensures
            r == self.buffers().len(),
    {
        self.buffers.len()
    }

    /// The driver's name of the buffer in a slot; 0 while nothing has been
    /// uploaded, and for a slot that does not exist.
    pub fn buffer_name(&self, slot: usize) -> (r: u32)
        ensures
            r == name_in(self.buffers(), slot),
    {
        if slot < self.buffers.len() {
            self.buffers[slot].name
        } else {
            0
        }
    }

    /// What the buffer in a slot was uploaded as.
    pub fn buffer_target(&self, slot: usize) -> (r: BufferTarget)
        ensures
            r == target_in(self.buffers(), slot),
    {
        if slot < self.buffers.len() {
            self.buffers[slot].target
        } else {
            BufferTarget::Array
        }
    }

    /// The number of handles that own a slot.
    pub fn owner_count(&self, slot: usize) -> (r: u64)
        ensures
            r == owners_in(self.buffers(), slot),
    {
        if slot < self.buffers.len() {
            self.buffers[slot].owners
        } else {
            0
        }
    }

    /// Appends one call to the queue.
    pub fn issue(&mut self, command: GlCommand)
        ensures
            final(self).commands() == old(self).commands().push(command),
            final(self).buffers() == old(self).buffers(),
    {
        self.commands.push(command);
    }

    /// Adds a slot with one owner and nothing uploaded, and returns it.
    pub(crate) fn allocate(&mut self) -> (slot: usize)
        ensures
            slot == old(self).buffers().len(),
            final(self).buffers() == old(self).buffers().push(empty_record()),
            final(self).commands() == old(self).commands(),
    {
        let slot: usize = self.buffers.len();
        self.buffers.push(BufferRecord { name: 0, owners: 1, target: BufferTarget::Array });
        slot
    }

    /// Records the driver's name of the buffer in a slot, and what it was
    /// uploaded as.
    pub(crate) fn set_name(&mut self, slot: usize, name: u32, target: BufferTarget)
        ensures
            final(self).buffers() == named(old(self).buffers(), slot, name, target),
            final(self).commands() == old(self).commands(),
    {
        if slot < self.buffers.len() {
            let owners: u64 = self.buffers[slot].owners;
            self.buffers.set(slot, BufferRecord { name, owners, target });
        }
    }

    /// Counts one more owner of a slot.
    pub(crate) fn share(&mut self, slot: usize)
        ensures
            final(self).buffers() == shared(old(self).buffers(), slot),
            final(self).commands() == old(self).commands(),
    {
        if slot < self.buffers.len() {
            let record = self.buffers[slot];
            if record.owners < u64::MAX {
                self.buffers.set(
                    slot,
                    BufferRecord { name: record.name, owners: record.owners + 1, target: record.target },
                );
            }
        }
    }

    /// Lets one owner of a slot go. When it was the last one and the slot
    /// holds a driver buffer, the call that deletes the buffer is queued.
    pub(crate) fn release(&mut self, slot: usize)
        ensures
            final(self).buffers() == released(old(self).buffers(), slot),
            final(self).commands() == old(self).commands() + release_commands(
                old(self).buffers(),
                slot,
            ),
    {
        if slot < self.buffers.len() {
            let record = self.buffers[slot];
            if 0 < record.owners && record.owners < u64::MAX {
                self.buffers.set(
                    slot,
                    BufferRecord { name: record.name, owners: record.owners - 1, target: record.target },
                );
                if record.owners == 1 && record.name != 0 {
                    self.commands.push(GlCommand::DeleteBuffer { buffer: record.name });
                }
            }
        }
        assert(final(self).commands() =~= old(self).commands() + release_commands(
            old(self).buffers(),
            slot,
        ));
    }
}

/// A buffer is deleted at most once: after the release that deletes it, no
/// further release of the slot queues anything, nor changes the records.
pub proof fn lemma_release_deletes_once(bufs: Seq<BufferRecord>, slot: usize)
    requires
        deletes_on_release(bufs, slot),
    ensures
        release_commands(bufs, slot) == seq![GlCommand::DeleteBuffer { buffer: name_in(bufs, slot) }],
        release_commands(released(bufs, slot), slot) == Seq::<GlCommand>::empty(),
        released(released(bufs, slot), slot) == released(bufs, slot),
{
}

/// Every owner of a buffer lets go, one after the other, and none else: the
/// buffer is deleted exactly once, by the last of them. While fewer have let
/// go than there are owners, nothing is deleted.
pub proof fn lemma_last_owner_deletes(bufs: Seq<BufferRecord>, slot: usize, slots: Seq<usize>, n: int)
    requires
        0 <= n <= slots.len(),
        forall|i: int| 0 <= i < n ==> slots[i] == slot,
        slot < bufs.len(),
        name_in(bufs, slot) != 0,
        0 < owners_in(bufs, slot) < u64::MAX,
    ensures
        name_in(released_all(bufs, slots, n), slot) == name_in(bufs, slot),
        released_all(bufs, slots, n).len() == bufs.len(),
        n < owners_in(bufs, slot) ==> release_all_commands(bufs, slots, n) == Seq::<
            GlCommand,
        >::empty() && owners_in(released_all(bufs, slots, n), slot) == owners_in(bufs, slot) - n,
        n >= owners_in(bufs, slot) ==> release_all_commands(bufs, slots, n) == seq![
            GlCommand::DeleteBuffer { buffer: name_in(bufs, slot) },
        ] && owners_in(released_all(bufs, slots, n), slot) == 0,
    decreases n,
{
    if n > 0 {
        lemma_last_owner_deletes(bufs, slot, slots, n - 1);
        let before = released_all(bufs, slots, n - 1);
        if n - 1 < owners_in(bufs, slot) {
            if n == owners_in(bufs, slot) {
                assert(release_all_commands(bufs, slots, n) =~= seq![
                    GlCommand::DeleteBuffer { buffer: name_in(bufs, slot) },
                ]);
            } else {
                assert(release_commands(before, slot) == Seq::<GlCommand>::empty());
            }
        } else {
            assert(release_commands(before, slot) == Seq::<GlCommand>::empty());
            assert(release_all_commands(bufs, slots, n) =~= seq![
                GlCommand::DeleteBuffer { buffer: name_in(bufs, slot) },
            ]);
        }
    }
}

/// A slot into which nothing was uploaded never has a buffer deleted,
/// however many owners it has and however often one lets go.
pub proof fn lemma_empty_never_deleted(bufs: Seq<BufferRecord>, slot: usize, slots: Seq<usize>, n: int)
    requires
        0 <= n <= slots.len(),
        forall|i: int| 0 <= i < n ==> slots[i] == slot,
        name_in(bufs, slot) == 0,
    ensures
        release_commands(bufs, slot) == Seq::<GlCommand>::empty(),
        release_all_commands(bufs, slots, n) == Seq::<GlCommand>::empty(),
        name_in(released_all(bufs, slots, n), slot) == 0,
    decreases n,
{
    if n > 0 {
        lemma_empty_never_deleted(bufs, slot, slots, n - 1);
    }
}

/// While a slot has other owners, letting one go deletes nothing and leaves
/// the buffer's name in place.
pub proof fn lemma_release_keeps_shared(bufs: Seq<BufferRecord>, slot: usize)
    requires
        owners_in(bufs, slot) != 1,
    ensures
        release_commands(bufs, slot) == Seq::<GlCommand>::empty(),
        name_in(released(bufs, slot), slot) == name_in(bufs, slot),
{
}

} // verus!

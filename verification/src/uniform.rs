//! The per-object uniform data of a frame, and the arena that keeps it until the frame has
//! been drawn. A slot of the arena is handed out again only after the frame that it was
//! written for has been released.

use vstd::prelude::*;

verus! {

/// A 4x4 matrix of single-precision numbers, by columns, each number as its IEEE 754 bits.
pub type Matrix = [[u32; 4]; 4];

/// The bits of the single-precision number 1.
pub const ONE_BITS: u32 = 0x3F80_0000;

/// What the geometry pass reads for one object: 64 bytes for each matrix, in this order.
#[derive(Clone, Copy, Debug, PartialEq, Eq)]
pub struct UniformData {
    pub model: Matrix,
    pub view: Matrix,
    pub projection: Matrix,
    pub normal: Matrix,
}

/// A slot in use: the frame that it was written for, and what was written.
#[derive(Clone, Copy, Debug, PartialEq, Eq)]
pub struct UniformEntry {
    pub frame: u64,
    pub data: UniformData,
}

/// The uniform sub-allocations that are in use. A slot is free or holds the data of one
/// object for one frame.
#[derive(Clone, Debug, PartialEq, Eq)]
pub struct UniformArena {
    slots: Vec<Option<UniformEntry>>,
}

/// The identity matrix.
pub open spec fn identity_matrix() -> Matrix {
    [[ONE_BITS, 0u32, 0u32, 0u32], [0u32, ONE_BITS, 0u32, 0u32], [0u32, 0u32, ONE_BITS, 0u32], [
        0u32,
        0u32,
        0u32,
        ONE_BITS,
    ]]
}

/// The identity matrix.
pub fn identity() -> (m: Matrix)
    ensures
        m == identity_matrix(),
{
    [[ONE_BITS, 0, 0, 0], [0, ONE_BITS, 0, 0], [0, 0, ONE_BITS, 0], [0, 0, 0, ONE_BITS]]
}

/// The 16 numbers of a matrix in the order in which they lie in memory: column after
/// column, and within a column row after row.
pub open spec fn matrix_words(m: Matrix) -> Seq<u32> {
    Seq::new(16, |i: int| m[i / 4][i % 4])
}

/// The 64 numbers of the uniform data in the order in which the geometry pass reads them:
/// the model matrix, the view matrix, the projection matrix, the normal matrix, each of
/// 16 numbers, that is 64 bytes.
pub open spec fn uniform_words(data: UniformData) -> Seq<u32> {
    matrix_words(data.model) + matrix_words(data.view) + matrix_words(data.projection)
        + matrix_words(data.normal)
}

/// Puts the numbers of `m` behind `words`, in the order of memory.
fn push_matrix(words: &mut Vec<u32>, m: &Matrix)
    ensures
        final(words)@ == old(words)@ + matrix_words(*m),
{
    let mut column: usize = 0;
    while column < 4
        invariant
            column <= 4,
            words@ == old(words)@ + matrix_words(*m).take(4 * column),
        decreases 4 - column,
    {
        let mut row: usize = 0;
        while row < 4
            invariant
                column < 4,
                row <= 4,
                words@ == old(words)@ + matrix_words(*m).take(4 * column + row),
            decreases 4 - row,
        {
            words.push(m[column][row]);
            proof {
                let at = 4 * column + row;
                assert(at / 4 == column && at % 4 == row);
                assert(matrix_words(*m).take(at + 1) =~= matrix_words(*m).take(at as int).push(
                    m[column as int][row as int],
                ));
            }
            row += 1;
        }
        column += 1;
    }
    assert(matrix_words(*m).take(16) =~= matrix_words(*m));
}

impl UniformData {
    /// The uniform data as it lies in memory: 64 numbers of 4 bytes.
    pub fn words(&self) -> (words: Vec<u32>)
        ensures
            words@ == uniform_words(*self),
            words@.len() == 64,
    {
        let mut words: Vec<u32> = Vec::new();
        push_matrix(&mut words, &self.model);
        push_matrix(&mut words, &self.view);
        push_matrix(&mut words, &self.projection);
        push_matrix(&mut words, &self.normal);
        words
    }
}

/// The first free slot of `slots`, or their number if none is free.
pub open spec fn first_free(slots: Seq<Option<UniformEntry>>) -> int
    decreases slots.len(),
{
    if slots.len() == 0 {
        0
    } else if slots[0] is None {
        0
    } else {
        1 + first_free(slots.drop_first())
    }
}

/// The slots after `data` was written for `frame` into the first free slot; where none
/// is free, a slot is added for it.
pub open spec fn allocated(slots: Seq<Option<UniformEntry>>, frame: u64, data: UniformData) -> Seq<
    Option<UniformEntry>,
> {
    let slot = first_free(slots);
    if slot < slots.len() {
        slots.update(slot, Some(UniformEntry { frame, data }))
    } else {
        slots.push(Some(UniformEntry { frame, data }))
    }
}

/// The slots after every frame up to `completed` was released: their slots are free.
pub open spec fn released(slots: Seq<Option<UniformEntry>>, completed: u64) -> Seq<
    Option<UniformEntry>,
> {
    Seq::new(
        slots.len(),
        |i: int|
            match slots[i] {
                Some(entry) => if entry.frame <= completed {
                    None
                } else {
                    Some(entry)
                },
                None => None,
            },
    )
}

/// The first free slot is free, is within the slots or just behind them, and no slot before
/// it is free.
pub proof fn first_free_is_first(slots: Seq<Option<UniformEntry>>)
    ensures
        0 <= first_free(slots) <= slots.len(),
        first_free(slots) < slots.len() ==> slots[first_free(slots)] is None,
        forall|i: int| 0 <= i < first_free(slots) ==> (#[trigger] slots[i]) is Some,
    decreases slots.len(),
{
    if slots.len() > 0 && slots[0] is Some {
        let rest = slots.drop_first();
        first_free_is_first(rest);
        assert forall|i: int| 0 <= i < first_free(slots) implies (#[trigger] slots[i]) is Some by {
            if i > 0 {
                assert(rest[i - 1] is Some);
            }
        }
    }
}

/// A slot that is free, with no free slot before it, is the first free slot.
pub proof fn first_free_is_determined(slots: Seq<Option<UniformEntry>>, slot: int)
    requires
        0 <= slot <= slots.len(),
        slot < slots.len() ==> slots[slot] is None,
        forall|i: int| 0 <= i < slot ==> (#[trigger] slots[i]) is Some,
    ensures
        first_free(slots) == slot,
{
    first_free_is_first(slots);
    let found = first_free(slots);
    if found < slot {
        assert(slots[found] is Some);
    } else if slot < found {
        assert(slots[slot] is Some);
    }
}

impl View for UniformArena {
    type V = Seq<Option<UniformEntry>>;

    closed spec fn view(&self) -> Seq<Option<UniformEntry>> {
        self.slots@
    }
}

impl UniformArena {
    /// An arena without slots.
    pub fn new() -> (arena: UniformArena)
        ensures
            arena@ == Seq::<Option<UniformEntry>>::empty(),
    {
        UniformArena { slots: Vec::new() }
    }

    /// The number of slots, free or in use.
    pub fn len(&self) -> (len: usize)
        ensures
            len == self@.len(),
    {
        self.slots.len()
    }

    /// Writes `data` for `frame` into the first free slot, adding a slot where none is free,
    /// and returns the slot. No other slot changes.
    pub fn allocate(&mut self, frame: u64, data: UniformData) -> (slot: usize)
        ensures
            slot == first_free(old(self)@),
            final(self)@ == allocated(old(self)@, frame, data),
            final(self)@[slot as int] == Some(UniformEntry { frame, data }),
    {
        let entry = UniformEntry { frame, data };
        let mut slot: usize = 0;
        while slot < self.slots.len()
            invariant
                slot <= self.slots@.len(),
                self.slots@ == old(self).slots@,
                entry == (UniformEntry { frame, data }),
                forall|i: int| 0 <= i < slot ==> (#[trigger] self.slots@[i]) is Some,
            decreases self.slots@.len() - slot,
        {
            if self.slots[slot].is_none() {
                proof {
                    first_free_is_determined(self.slots@, slot as int);
                }
                self.slots.set(slot, Some(entry));
                return slot;
            }
            slot += 1;
        }
        proof {
            first_free_is_determined(self.slots@, slot as int);
        }
        self.slots.push(Some(entry));
        slot
    }

    /// What `slot` holds: the frame and the data that were written to it, or nothing if it is
    /// free or does not exist.
    pub fn read(&self, slot: usize) -> (entry: Option<UniformEntry>)
        ensures
            entry == if slot < self@.len() {
                self@[slot as int]
            } else {
                None
            },
    {
        if slot < self.slots.len() {
            self.slots[slot]
        } else {
            None
        }
    }

    /// Frees the slots of every frame up to `completed`. The others keep what they hold.
    pub fn release(&mut self, completed: u64)
        ensures
            final(self)@ == released(old(self)@, completed),
    {
        let mut slot: usize = 0;
        while slot < self.slots.len()
            invariant
                slot <= self.slots@.len(),
                self.slots@.len() == old(self).slots@.len(),
                forall|i: int|
                    0 <= i < slot ==> (#[trigger] self.slots@[i]) == released(
                        old(self).slots@,
                        completed,
                    )[i],
                forall|i: int|
                    slot <= i < self.slots@.len() ==> (#[trigger] self.slots@[i]) == old(
                        self,
                    ).slots@[i],
            decreases self.slots@.len() - slot,
        {
            let stale = match self.slots[slot] {
                Some(entry) => entry.frame <= completed,
                None => false,
            };
            if stale {
                self.slots.set(slot, None);
            }
            slot += 1;
        }
        assert(self.slots@ =~= released(old(self).slots@, completed));
    }
}

/// Something that is done to the arena.
pub enum ArenaOp {
    /// Data is written for a frame.
    Allocate { frame: u64, data: UniformData },
    /// Every frame up to `completed` is released.
    Release { completed: u64 },
}

/// The slots after `op`.
pub open spec fn after_op(slots: Seq<Option<UniformEntry>>, op: ArenaOp) -> Seq<Option<UniformEntry>> {
    match op {
        ArenaOp::Allocate { frame, data } => allocated(slots, frame, data),
        ArenaOp::Release { completed } => released(slots, completed),
    }
}

/// The slots after `ops`, one after the other.
pub open spec fn after_ops(slots: Seq<Option<UniformEntry>>, ops: Seq<ArenaOp>) -> Seq<
    Option<UniformEntry>,
>
    decreases ops.len(),
{
    if ops.len() == 0 {
        slots
    } else {
        after_ops(after_op(slots, ops[0]), ops.drop_first())
    }
}

/// None of `ops` releases `frame`.
pub open spec fn keeps_frame(ops: Seq<ArenaOp>, frame: u64) -> bool {
    forall|i: int|
        0 <= i < ops.len() ==> ((#[trigger] ops[i]) matches ArenaOp::Release { completed }
            ==> completed < frame)
}

/// A slot in use is not touched by what is written or released for other frames: as long as
/// its own frame is not released, it holds what was written to it.
pub proof fn slot_in_use_is_kept(
    slots: Seq<Option<UniformEntry>>,
    slot: int,
    entry: UniformEntry,
    ops: Seq<ArenaOp>,
)
    requires
        0 <= slot < slots.len(),
        slots[slot] == Some(entry),
        keeps_frame(ops, entry.frame),
    ensures
        slot < after_ops(slots, ops).len(),
        after_ops(slots, ops)[slot] == Some(entry),
    decreases ops.len(),
{
    if ops.len() > 0 {
        let next = after_op(slots, ops[0]);
        match ops[0] {
            ArenaOp::Allocate { frame, data } => {
                first_free_is_first(slots);
            },
            ArenaOp::Release { completed } => {},
        }
        assert(next[slot] == Some(entry));
        let rest = ops.drop_first();
        assert forall|i: int| 0 <= i < rest.len() implies ((#[trigger] rest[i]) matches ArenaOp::Release {
            completed,
        } ==> completed < entry.frame) by {
            assert(rest[i] == ops[i + 1]);
        }
        slot_in_use_is_kept(next, slot, entry, rest);
    }
}

/// Uniform data that is written for a frame is read back as it was written, whatever is
/// written or released for other frames in between, until the frame itself is released.
pub proof fn written_data_is_read_back(
    slots: Seq<Option<UniformEntry>>,
    frame: u64,
    data: UniformData,
    ops: Seq<ArenaOp>,
)
    requires
        keeps_frame(ops, frame),
    ensures
        ({
            let slot = first_free(slots);
            let later = after_ops(allocated(slots, frame, data), ops);
            slot < later.len() && later[slot] == Some(UniformEntry { frame, data })
        }),
{
    first_free_is_first(slots);
    slot_in_use_is_kept(
        allocated(slots, frame, data),
        first_free(slots),
        UniformEntry { frame, data },
        ops,
    );
}

} // verus!

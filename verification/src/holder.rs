use std::sync::Arc;
use vstd::prelude::*;

use crate::atomic_boxed::AtomicBox;

verus! {

/// Clones an `Arc`: the clone points at the same value.
#[verifier::external_body]
pub(crate) fn arc_clone<T>(arc: &Arc<T>) -> (r: Arc<T>)
    ensures
        r == *arc,
{
    Arc::clone(arc)
}

/// A shared value that is replaced as a whole, by building its successor from
/// the value held now.
pub struct AtomicArc<T> {
    internal: AtomicBox<Arc<T>>,
}

impl<T> AtomicArc<T> {
    /// The shared value held now.
    pub closed spec fn view(&self) -> Arc<T> {
        self.internal.value()
    }

    /// Makes a holder of `value`.
    pub fn new(value: T) -> (r: Self)
        ensures
            r.view() == value,
    {
        AtomicArc { internal: AtomicBox::new(Arc::new(value)) }
    }

    /// Builds the successor from the value held now and installs it; hands
    /// back the value that it replaced.
    pub fn try_chain<F>(&mut self, next: F) -> (r: Result<Arc<T>, Arc<T>>)
        where
            F: FnOnce(Arc<T>) -> T,
        requires
            next.requires((old(self).view(),)),
        ensures
            r matches Ok(prev) && prev == old(self).view(),
            next.ensures((old(self).view(),), *final(self).view()),
    {
        let chain = (move |last: &Arc<T>| -> (made: Arc<T>)
            requires
                next.requires((*last,)),
            ensures
                next.ensures((*last,), *made),
        {
            Arc::new(next(arc_clone(last)))
        });
        let out = self.internal.try_apply(chain);
        match out {
            Ok(prev) => Ok(arc_clone(&*prev)),
            Err(back) => Err(arc_clone(&*back)),
        }
    }
}

} // verus!

verus! {

/// How many values one block of a `BlockHolder` holds.
pub const BLOCK_SIZE: usize = 32;

/// `SIZE` slots, each empty or holding one value.
///
/// Slots past the end of `data` are empty; `data` is filled up to a slot
/// before the slot is written.
pub struct UninitArray<T, const SIZE: usize> {
    data: Vec<Option<T>>,
}

impl<T, const SIZE: usize> View for UninitArray<T, SIZE> {
    type V = Seq<Option<T>>;

    /// The `SIZE` slots, in order.
    closed spec fn view(&self) -> Seq<Option<T>> {
        Seq::new(
            SIZE as nat,
            |i: int|
                if i < self.data@.len() {
                    self.data@[i]
                } else {
                    None
                },
        )
    }
}

impl<T, const SIZE: usize> UninitArray<T, SIZE> {
    /// There are always `SIZE` slots.
    pub proof fn lemma_slot_count(&self)
        ensures
            self@.len() == SIZE,
    {
    }

    /// Writes `value` into slot `index` and lends it back.
    pub fn set(&mut self, index: usize, value: T) -> (r: &T)
        requires
            index < SIZE,
        ensures
            *r == value,
            final(self)@ == old(self)@.update(index as int, Some(value)),
    {
        while self.data.len() <= index
            invariant
                index < SIZE,
                self@ == old(self)@,
            decreases index + 1 - self.data@.len(),
        {
            self.data.push(None);
            assert(self@ =~= old(self)@);
        }
        self.data.set(index, Some(value));
        assert(self@ =~= old(self)@.update(index as int, Some(value)));
        match &self.data[index] {
            Some(v) => v,
            None => vstd::pervasive::unreached(),
        }
    }

    /// The value in slot `index`, if one was written there.
    pub fn get(&self, index: usize) -> (r: Option<&T>)
        requires
            index < SIZE,
        ensures
            r == match self@[index as int] {
                Some(v) => Some(&v),
                None => None::<&T>,
            },
    {
        if index < self.data.len() {
            match &self.data[index] {
                Some(v) => Some(v),
                None => None,
            }
        } else {
            None
        }
    }
}

impl<T, const SIZE: usize> Default for UninitArray<T, SIZE> {
    fn default() -> (r: Self)
        ensures
            r@ == Seq::new(SIZE as nat, |i: int| None::<T>),
    {
        let mut data: Vec<Option<T>> = Vec::new();
        let mut i: usize = 0;
        while i < SIZE
            invariant
                i <= SIZE,
                data@ == Seq::new(i as nat, |k: int| None::<T>),
            decreases SIZE - i,
        {
            data.push(None);
            i = i + 1;
        }
        let r = UninitArray { data };
        assert(r@ =~= Seq::new(SIZE as nat, |i: int| None::<T>));
        r
    }
}

/// One block of a chain of blocks: its depth in the chain, its slots, and
/// the block before it.
pub struct Block<T> {
    depth: usize,
    data: UninitArray<T, BLOCK_SIZE>,
    previous: Option<Box<Block<T>>>,
}

impl<T> Block<T> {
    /// The depth of this block: how many blocks come before it.
    pub closed spec fn spec_depth(&self) -> usize {
        self.depth
    }

    /// The block before this one.
    pub closed spec fn spec_previous(&self) -> Option<Box<Block<T>>> {
        self.previous
    }

    /// The slots of this block.
    pub closed spec fn spec_slots(&self) -> Seq<Option<T>> {
        self.data@
    }

    /// The first block of a chain: depth 0, empty slots, nothing before it.
    fn first() -> (r: Self)
        ensures
            r.spec_depth() == 0,
            r.spec_slots() == Seq::new(BLOCK_SIZE as nat, |i: int| None::<T>),
            r.spec_previous() is None,
    {
        Block { depth: 0, data: UninitArray::default(), previous: None }
    }

    /// A fresh block, with empty slots, that follows `previous` one level
    /// deeper.
    fn new(previous: Box<Block<T>>) -> (r: Self)
        requires
            previous.spec_depth() < usize::MAX,
        ensures
            r.spec_depth() == previous.spec_depth() + 1,
            r.spec_slots() == Seq::new(BLOCK_SIZE as nat, |i: int| None::<T>),
            r.spec_previous() == Some(previous),
    {
        Block { depth: previous.depth + 1, data: UninitArray::default(), previous: Some(previous) }
    }

    /// The depth of this block: how many blocks come before it.
    pub fn depth(&self) -> (r: usize)
        ensures
            r == self.spec_depth(),
    {
        self.depth
    }

    /// The block before this one.
    pub fn previous(&self) -> (r: Option<&Block<T>>)
        ensures
            r == match self.spec_previous() {
                Some(b) => Some(&*b),
                None => None::<&Block<T>>,
            },
    {
        match &self.previous {
            Some(b) => Some(&**b),
            None => None,
        }
    }
}

/// Two different positions never share a block and a slot in it.
proof fn lemma_slot_of_index_injective(i: int, j: int)
    requires
        0 <= i < j,
    ensures
        i / BLOCK_SIZE as int != j / BLOCK_SIZE as int || i % BLOCK_SIZE as int != j % BLOCK_SIZE as int,
{
    assert(i == (i / 32) * 32 + i % 32) by (nonlinear_arith);
    assert(j == (j / 32) * 32 + j % 32) by (nonlinear_arith);
}

/// A store that only grows: values go in one after another, each into the
/// next free slot of a row of fixed-size blocks made when the holder is made,
/// and stay where they were put. When the slots run out, a new block is
/// chained after the newest block of a separate chain; the row of blocks that
/// values go into does not grow.
pub struct BlockHolder<T> {
    size: usize,
    num_blocks: usize,
    current: Option<Box<Block<T>>>,
    blocks: Vec<UninitArray<T, BLOCK_SIZE>>,
}

impl<T> View for BlockHolder<T> {
    type V = Seq<T>;

    /// The values held, in the order they went in.
    closed spec fn view(&self) -> Seq<T> {
        Seq::new(self.size as nat, |i: int| self.blocks@[i / BLOCK_SIZE as int]@[i % BLOCK_SIZE as int]->0)
    }
}

impl<T> BlockHolder<T> {
    /// The first `size` slots in order are filled, the capacity fits in a
    /// `usize`, and the chain has a newest block.
    pub closed spec fn wf(&self) -> bool {
        &&& self.num_blocks == self.blocks@.len()
        &&& self.blocks@.len() * BLOCK_SIZE <= usize::MAX
        &&& self.size <= self.blocks@.len() * BLOCK_SIZE
        &&& forall|i: int| 0 <= i < self.size ==> (#[trigger] self.blocks@[i / BLOCK_SIZE as int]@[i % BLOCK_SIZE as int]) is Some
        &&& self.current is Some
    }

    /// The number of slots in all blocks together.
    pub closed spec fn spec_capacity(&self) -> nat {
        self.blocks@.len() * (BLOCK_SIZE as nat)
    }

    /// The newest block of the chain.
    pub closed spec fn current_block(&self) -> Block<T> {
        *self.current->0
    }

    /// The capacity holds every value held and is made of whole blocks.
    pub proof fn lemma_capacity(&self)
        requires
            self.wf(),
        ensures
            self@.len() <= self.spec_capacity(),
            self.spec_capacity() % (BLOCK_SIZE as nat) == 0,
            self.spec_capacity() <= usize::MAX,
    {
        let k = self.blocks@.len();
        assert((k * 32) % 32 == 0) by (nonlinear_arith);
    }

    /// Makes a holder with no values, `block_count` empty blocks to put them
    /// in, and a chain of one block.
    pub fn new(block_count: usize) -> (r: Self)
        requires
            block_count * BLOCK_SIZE <= usize::MAX,
        ensures
            r.wf(),
            r@ == Seq::<T>::empty(),
            r.spec_capacity() == block_count * BLOCK_SIZE,
            r.current_block().spec_depth() == 0,
            r.current_block().spec_previous() is None,
    {
        let mut blocks: Vec<UninitArray<T, BLOCK_SIZE>> = Vec::new();
        let mut i: usize = 0;
        while i < block_count
            invariant
                i <= block_count,
                blocks@.len() == i,
            decreases block_count - i,
        {
            blocks.push(UninitArray::default());
            i = i + 1;
        }
        BlockHolder { size: 0, num_blocks: block_count, current: Some(Box::new(Block::first())), blocks }
    }

    /// The number of slots in all blocks together.
    pub fn capacity(&self) -> (r: usize)
        requires
            self.wf(),
        ensures
            r == self.spec_capacity(),
            self@.len() <= r,
            r % BLOCK_SIZE == 0,
    {
        proof {
            self.lemma_capacity();
        }
        self.num_blocks * BLOCK_SIZE
    }

    /// The number of values held.
    pub fn size(&self) -> (r: usize)
        requires
            self.wf(),
        ensures
            r == self@.len(),
    {
        self.size
    }

    /// The newest block of the chain.
    pub fn current(&self) -> (r: &Block<T>)
        requires
            self.wf(),
        ensures
            *r == self.current_block(),
    {
        match &self.current {
            Some(b) => &**b,
            None => vstd::pervasive::unreached(),
        }
    }

    /// The value at position `index`, if that many values are held.
    pub fn get(&self, index: usize) -> (r: Option<&T>)
        requires
            self.wf(),
        ensures
            index < self@.len() ==> r == Some(&self@[index as int]),
            index >= self@.len() ==> r is None,
    {
        if index < self.size {
            let cell = index / BLOCK_SIZE;
            let slot = index % BLOCK_SIZE;
            assert(cell < self.blocks@.len()) by (nonlinear_arith)
                requires
                    index < self.blocks@.len() * BLOCK_SIZE,
                    cell == index / BLOCK_SIZE,
                    BLOCK_SIZE == 32,
            ;
            assert(self.blocks@[index as int / BLOCK_SIZE as int]@[index as int % BLOCK_SIZE as int] is Some);
            match self.blocks[cell].get(slot) {
                Some(v) => Some(v),
                None => vstd::pervasive::unreached(),
            }
        } else {
            None
        }
    }

    /// Chains a new newest block, one deeper, whose predecessor is the block
    /// that was newest. The blocks that values go into stay as they are.
    fn expand(&mut self)
        requires
            old(self).wf(),
            old(self).current_block().spec_depth() < usize::MAX,
        ensures
            final(self).wf(),
            final(self)@ == old(self)@,
            final(self).spec_capacity() == old(self).spec_capacity(),
            final(self).current_block().spec_depth() == old(self).current_block().spec_depth() + 1,
            final(self).current_block().spec_previous() matches Some(p) && *p == old(self).current_block(),
    {
        let last = match self.current.take() {
            Some(b) => b,
            None => vstd::pervasive::unreached(),
        };
        let next = Block::new(last);
        self.current = Some(Box::new(next));
        assert(self@ =~= old(self)@);
    }

    /// Puts `value` in the next free slot and lends the stored value back.
    /// There must be a free slot: chaining a block when all slots are full
    /// adds none to the row that values go into.
    pub fn insert(&mut self, value: T) -> (r: &T)
        requires
            old(self).wf(),
            old(self)@.len() < old(self).spec_capacity(),
        ensures
            final(self).wf(),
            *r == value,
            final(self)@ == old(self)@.push(value),
            final(self)@.len() <= final(self).spec_capacity(),
            final(self).spec_capacity() == old(self).spec_capacity(),
            final(self).current_block() == old(self).current_block(),
    {
        let index = self.size;
        if index >= self.capacity() {
            self.expand();
        }
        let cell_to_use = index / BLOCK_SIZE;
        let slot = index % BLOCK_SIZE;
        assert(cell_to_use < self.blocks@.len()) by (nonlinear_arith)
            requires
                index < self.blocks@.len() * BLOCK_SIZE,
                cell_to_use == index / BLOCK_SIZE,
                BLOCK_SIZE == 32,
        ;
        proof {
            assert forall|i: int| 0 <= i < index implies #[trigger] (i / BLOCK_SIZE as int) != cell_to_use
                || (i % BLOCK_SIZE as int) != slot by {
                lemma_slot_of_index_injective(i, index as int);
            }
            let k = self.blocks@.len();
            assert((k * 32) % 32 == 0) by (nonlinear_arith);
        }
        self.size = index + 1;
        let out = self.blocks[cell_to_use].set(slot, value);
        out
    }
}

/// After an insert, the new value sits at the old length and every value
/// held before stays at its position.
pub proof fn law_insert_keeps_positions<T>(before: BlockHolder<T>, after: BlockHolder<T>, value: T)
    requires
        after@ == before@.push(value),
    ensures
        after@.len() == before@.len() + 1,
        after@[before@.len() as int] == value,
        forall|i: int| 0 <= i < before@.len() ==> #[trigger] after@[i] == before@[i],
{
}

/// Over any run of inserts, where `contents[k + 1]` is `contents[k]` with
/// `values[k]` pushed, a value keeps its position in every later contents.
pub proof fn law_inserts_keep_positions<T>(contents: Seq<Seq<T>>, values: Seq<T>)
    requires
        contents.len() == values.len() + 1,
        forall|k: int| 0 <= k < values.len() ==> #[trigger] contents[k + 1] == contents[k].push(values[k]),
    ensures
        forall|j: int, k: int, i: int|
            0 <= j <= k < contents.len() && 0 <= i < contents[j].len() ==> #[trigger] contents[k][i]
                == #[trigger] contents[j][i] && i < contents[k].len(),
    decreases values.len(),
{
    if values.len() > 0 {
        let n = values.len() - 1;
        let shorter = contents.drop_last();
        let fewer = values.drop_last();
        assert forall|k: int| 0 <= k < fewer.len() implies #[trigger] shorter[k + 1] == shorter[k].push(fewer[k]) by {
            assert(contents[k + 1] == contents[k].push(values[k]));
        }
        law_inserts_keep_positions(shorter, fewer);
        assert forall|j: int, k: int, i: int|
            0 <= j <= k < contents.len() && 0 <= i < contents[j].len() implies #[trigger] contents[k][i]
                == #[trigger] contents[j][i] && i < contents[k].len() by {
            if k == contents.len() - 1 && j < k {
                assert(contents[k] == contents[n].push(values[n]));
                assert(shorter[n][i] == shorter[j][i]);
            } else if k < contents.len() - 1 {
                assert(shorter[k][i] == shorter[j][i]);
            }
        }
    }
}

} // verus!

//! The memory on the far side of the boundary: blocks that are allocated one
//! by one, found again by their address, and released one by one. An address
//! is a positive number; zero is the null address. An address that was
//! released is never handed out again.

use vstd::prelude::*;
use crate::record::{FormData, FormField, MultipartFile};

verus! {

/// The null address.
pub const NULL: usize = 0;

/// What a block holds.
#[derive(Debug, PartialEq, Eq)]
pub enum Block {
    /// A terminated string: its bytes, then one zero byte.
    Text(Vec<u8>),
    /// A buffer of arbitrary bytes.
    Bytes(Vec<u8>),
    /// An array of field records.
    Fields(Vec<FormField>),
    /// An array of file records.
    Files(Vec<MultipartFile>),
    /// A form record.
    Form(FormData),
}

/// What a block holds, as a value.
pub enum BlockModel {
    Text(Seq<u8>),
    Bytes(Seq<u8>),
    Fields(Seq<FormField>),
    Files(Seq<MultipartFile>),
    Form(FormData),
}

impl View for Block {
    type V = BlockModel;

    open spec fn view(&self) -> BlockModel {
        match *self {
            Block::Text(raw) => BlockModel::Text(raw@),
            Block::Bytes(b) => BlockModel::Bytes(b@),
            Block::Fields(fs) => BlockModel::Fields(fs@),
            Block::Files(ms) => BlockModel::Files(ms@),
            Block::Form(fd) => BlockModel::Form(fd),
        }
    }
}

/// The live blocks of a heap, by address.
pub type Memory = Map<usize, BlockModel>;

/// A heap of blocks.
pub struct Heap {
    slots: Vec<Option<Block>>,
}

impl View for Heap {
    type V = Memory;

    closed spec fn view(&self) -> Memory {
        Map::new(
            |a: usize| 1 <= a <= self.slots@.len() && self.slots@[a - 1] is Some,
            |a: usize| self.slots@[a - 1].unwrap()@,
        )
    }
}

impl Heap {
    /// The highest address that was ever handed out, zero before the first.
    pub closed spec fn top(&self) -> nat {
        self.slots@.len()
    }

    /// Every live address is positive and at most `top`.
    pub proof fn lemma_live_in_range(&self)
        ensures
            forall|a: usize| self@.dom().contains(a) ==> 0 < a <= self.top(),
    {
    }

    /// A heap without blocks.
    pub fn new() -> (h: Heap)
        ensures
            h@ == Map::<usize, BlockModel>::empty(),
            h.top() == 0,
    {
        Heap { slots: Vec::new() }
    }

    /// Puts `block` into the heap under a new address, which is the one after
    /// `top`.
    pub fn allocate(&mut self, block: Block) -> (addr: usize)
        ensures
            addr == old(self).top() + 1,
            final(self).top() == addr,
            !old(self)@.dom().contains(addr),
            final(self)@ == old(self)@.insert(addr, block@),
    {
        self.slots.push(Some(block));
        self.slots.len()
    }

    /// Whether `addr` is the address of a live block.
    pub fn is_live(&self, addr: usize) -> (b: bool)
        ensures
            b == self@.dom().contains(addr),
    {
        addr >= 1 && addr <= self.slots.len() && self.slots[addr - 1].is_some()
    }

    /// The block at `addr`, if one lives there.
    pub fn get(&self, addr: usize) -> (r: Option<&Block>)
        ensures
            r is Some <==> self@.dom().contains(addr),
            r matches Some(b) ==> b@ == self@[addr],
    {
        if addr >= 1 && addr <= self.slots.len() {
            self.slots[addr - 1].as_ref()
        } else {
            None
        }
    }

    /// Takes the live block at `addr` out of the heap. Every other block
    /// stays as it is.
    pub fn release(&mut self, addr: usize) -> (block: Block)
        requires
            old(self)@.dom().contains(addr),
        ensures
            block@ == old(self)@[addr],
            final(self)@ == old(self)@.remove(addr),
            final(self).top() == old(self).top(),
    {
        // An empty slot is appended and then swapped into the place of the
        // block, so every other slot keeps its index.
        self.slots.push(None);
        let taken = self.slots.swap_remove(addr - 1);
        taken.unwrap()
    }

    /// Whether no block is live.
    pub fn is_empty(&self) -> (b: bool)
        ensures
            b == (self@ == Map::<usize, BlockModel>::empty()),
    {
        let mut i: usize = 0;
        while i < self.slots.len()
            invariant
                i <= self.slots@.len(),
                forall|j: int| 0 <= j < i ==> self.slots@[j] is None,
            decreases self.slots.len() - i,
        {
            if self.slots[i].is_some() {
                assert(self@.dom().contains((i + 1) as usize));
                return false;
            }
            i += 1;
        }
        assert(self@ =~= Map::<usize, BlockModel>::empty());
        true
    }
}

} // verus!

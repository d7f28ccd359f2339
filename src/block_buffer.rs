use vstd::prelude::*;

verus! {

/// Why a write into a block buffer was refused.
#[derive(Clone, Copy, Debug, PartialEq, Eq, Structural)]
pub enum BlockError {
    /// The block index is not below the block count.
    NoSuchBlock,
    /// The data is longer than a block: it would spill into the next one.
    Overrun,
}

/// Layout of a slab: one device buffer of `capacity * count` bytes divided
/// into `count` blocks of `capacity` bytes, block `i` spanning
/// `[capacity * i, capacity * (i + 1))`. Blocks live as long as the buffer.
#[derive(Debug)]
pub struct BlockBuffer {
    capacity: usize,
    count: usize,
    blocks: Vec<(usize, usize)>,
}

impl View for BlockBuffer {
    type V = Seq<(usize, usize)>;

    /// The byte range `(start, end)` of each block.
    closed spec fn view(&self) -> Seq<(usize, usize)> {
        self.blocks@
    }
}

/// Device memory after `data` was written at byte `offset`: the bytes in
/// `[offset, offset + data.len())` are replaced, all others kept.
pub open spec fn written(mem: Seq<u8>, offset: int, data: Seq<u8>) -> Seq<u8> {
    Seq::new(
        mem.len(),
        |j: int|
            if offset <= j < offset + data.len() {
                data[j - offset]
            } else {
                mem[j]
            },
    )
}

impl BlockBuffer {
    pub closed spec fn block_capacity(self) -> nat {
        self.capacity as nat
    }

    pub closed spec fn block_count(self) -> nat {
        self.count as nat
    }

    /// Block `i` spans `[capacity * i, capacity * (i + 1))`, and the whole
    /// slab fits the address space.
    pub open spec fn well_formed(self) -> bool {
        &&& self.block_capacity() * self.block_count() <= usize::MAX
        &&& self@.len() == self.block_count()
        &&& forall|i: int|
            0 <= i < self@.len() ==> #[trigger] self@[i] == (
                (self.block_capacity() * i) as usize,
                (self.block_capacity() * (i + 1)) as usize,
            )
    }

    pub fn new(capacity: usize, count: usize) -> (r: Self)
        requires
            capacity * count <= usize::MAX,
        ensures
            r.well_formed(),
            r.block_capacity() == capacity,
            r.block_count() == count,
    {
        let mut blocks: Vec<(usize, usize)> = Vec::new();
        let mut i: usize = 0;
        while i < count
            invariant
                capacity * count <= usize::MAX,
                i <= count,
                blocks@.len() == i,
                forall|j: int|
                    0 <= j < i ==> #[trigger] blocks@[j] == (
                        (capacity * j) as usize,
                        (capacity * (j + 1)) as usize,
                    ),
            decreases count - i,
        {
            assert(capacity * (i + 1) <= capacity * count) by (nonlinear_arith)
                requires
                    i < count,
            ;
            assert(capacity * (i + 1) == capacity * i + capacity) by (nonlinear_arith);
            let start: usize = if i == 0 {
                0
            } else {
                blocks[i - 1].1
            };
            blocks.push((start, capacity * (i + 1)));
            i += 1;
        }
        BlockBuffer { capacity, count, blocks }
    }

    pub fn capacity(&self) -> (r: usize)
        ensures
            r == self.block_capacity(),
    {
        self.capacity
    }

    pub fn count(&self) -> (r: usize)
        ensures
            r == self.block_count(),
    {
        self.count
    }

    /// Bytes of the whole slab.
    pub fn size(&self) -> (r: u64)
        requires
            self.well_formed(),
        ensures
            r == self.block_capacity() * self.block_count(),
    {
        (self.capacity * self.count) as u64
    }

    /// Byte range `(start, end)` of block `block`.
    pub fn block_range(&self, block: usize) -> (r: (usize, usize))
        requires
            self.well_formed(),
            block < self.block_count(),
        ensures
            r == self@[block as int],
            r.0 == self.block_capacity() * block,
            r.1 == self.block_capacity() * (block + 1),
    {
        proof {
            assert(self.block_capacity() * (block + 1) <= self.block_capacity() * self.block_count())
                by (nonlinear_arith)
                requires
                    block < self.block_count(),
            ;
            assert(self.block_capacity() * block <= self.block_capacity() * (block + 1))
                by (nonlinear_arith);
        }
        self.blocks[block]
    }

    /// Checks a write of `data` into block `block` and gives the byte offset
    /// at which the device write goes: the start of the block. A write that
    /// names no block, or that is longer than a block, is refused.
    pub fn write_to_block(&self, block: usize, data: &[u8]) -> (r: Result<u64, BlockError>)
        requires
            self.well_formed(),
        ensures
            block >= self.block_count() ==> r == Err::<u64, BlockError>(BlockError::NoSuchBlock),
            block < self.block_count() && data@.len() > self.block_capacity() ==> r == Err::<
                u64,
                BlockError,
            >(BlockError::Overrun),
            r is Ok <==> block < self.block_count() && data@.len() <= self.block_capacity(),
            r matches Ok(off) ==> off == self@[block as int].0 && off == self.block_capacity()
                * block,
    {
        if block >= self.count {
            return Err(BlockError::NoSuchBlock);
        }
        if data.len() > self.capacity {
            return Err(BlockError::Overrun);
        }
        let (start, _end) = self.block_range(block);
        Ok(start as u64)
    }
}

/// Block isolation: a write of at most `capacity` bytes at the start of
/// block `i` leaves every byte outside `[capacity * i, capacity * (i + 1))`
/// as it was, and puts the data at the start of the block.
pub proof fn lemma_block_isolation(buf: BlockBuffer, mem: Seq<u8>, i: int, data: Seq<u8>)
    requires
        buf.well_formed(),
        0 <= i < buf.block_count(),
        data.len() <= buf.block_capacity(),
        mem.len() == buf.block_capacity() * buf.block_count(),
    ensures
        written(mem, buf@[i].0 as int, data).len() == mem.len(),
        forall|j: int|
            0 <= j < mem.len() && !(buf.block_capacity() * i <= j < buf.block_capacity() * (i + 1))
                ==> #[trigger] written(mem, buf@[i].0 as int, data)[j] == mem[j],
        forall|k: int|
            0 <= k < data.len() ==> #[trigger] written(mem, buf@[i].0 as int, data)[buf@[i].0 + k]
                == data[k],
{
    let c = buf.block_capacity();
    let n = buf.block_count();
    assert(buf@[i] == ((c * i) as usize, (c * (i + 1)) as usize));
    assert(c * (i + 1) <= c * n) by (nonlinear_arith)
        requires
            i < n,
    ;
    assert(c * (i + 1) == c * i + c) by (nonlinear_arith);
    assert(0 <= c * i) by (nonlinear_arith)
        requires
            0 <= i,
    ;
}

} // verus!

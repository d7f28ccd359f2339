use vstd::prelude::*;

verus! {

/// Voxels along each axis of a cell.
pub const CELL_LENGTH: usize = 32;

/// Voxels in a cell: `CELL_LENGTH` cubed.
pub const CELL_SIZE: usize = 32768;

/// Bytes of one cell's geometry block: a 4-byte face record for each of the
/// six faces of every voxel, the most a cell can emit.
pub const CELL_BUFFER_SIZE: u64 = 786432;

/// Index step of one voxel along x, y and z.
pub const CELL_X_MASK: usize = 1024;
pub const CELL_Y_MASK: usize = 32;
pub const CELL_Z_MASK: usize = 1;

/// Cells along each axis of the world.
pub const WORLD_LENGTH: usize = 8;

/// Cells in the world: `WORLD_LENGTH` cubed.
pub const WORLD_SIZE: usize = 512;

/// Local index of voxel `(x, y, z)` in a cell: five bits per axis.
pub open spec fn voxel_index(x: int, y: int, z: int) -> int {
    x * 1024 + y * 32 + z
}

/// Whether `(x, y, z)` lies inside a cell.
pub open spec fn in_cell(x: int, y: int, z: int) -> bool {
    0 <= x < 32 && 0 <= y < 32 && 0 <= z < 32
}

/// Linear index of cell `(x, y, z)` in the world: three bits per axis.
pub open spec fn cell_index(x: int, y: int, z: int) -> int {
    x * 64 + y * 8 + z
}

/// Grid position of a cell in the world.
#[derive(Clone, Copy, Debug, PartialEq, Eq, Structural)]
pub struct CellPos {
    pub x: u32,
    pub y: u32,
    pub z: u32,
}

impl CellPos {
    pub fn new(x: u32, y: u32, z: u32) -> (r: CellPos)
        ensures
            r == (CellPos { x, y, z }),
    {
        CellPos { x, y, z }
    }

    /// The position of the cell whose linear world index is `idx`.
    pub open spec fn of_index(idx: int) -> CellPos {
        CellPos { x: (idx / 64) as u32, y: ((idx / 8) % 8) as u32, z: (idx % 8) as u32 }
    }
}

/// A cube of voxel type ids, `CELL_LENGTH` along each axis.
#[derive(Debug)]
pub struct Cell {
    voxels: Vec<usize>,
    pos: CellPos,
}

impl View for Cell {
    type V = Seq<usize>;

    /// The voxel type ids, by local index.
    closed spec fn view(&self) -> Seq<usize> {
        self.voxels@
    }
}

impl Cell {
    /// The cell holds one type id per voxel.
    pub open spec fn well_formed(self) -> bool {
        self@.len() == CELL_SIZE
    }

    /// Whether the cell holds one type id per voxel.
    pub fn is_well_formed(&self) -> (r: bool)
        ensures
            r == self.well_formed(),
    {
        self.voxels.len() == CELL_SIZE
    }

    /// The cell's grid position in the world.
    pub closed spec fn position(self) -> CellPos {
        self.pos
    }

    pub fn pos(&self) -> (r: CellPos)
        ensures
            r == self.position(),
    {
        self.pos
    }

    /// A cell of air (type id 0) at `pos`.
    pub fn new(pos: CellPos) -> (r: Self)
        ensures
            r.well_formed(),
            r@ == Seq::new(CELL_SIZE as nat, |i: int| 0usize),
            r.position() == pos,
    {
        let voxels: Vec<usize> = vec![0usize; CELL_SIZE];
        let r = Cell { voxels, pos };
        assert(r@ =~= Seq::new(CELL_SIZE as nat, |i: int| 0usize));
        r
    }

    pub fn encode(x: u8, y: u8, z: u8) -> (r: usize)
        requires
            x < 32,
            y < 32,
            z < 32,
        ensures
            r as int == voxel_index(x as int, y as int, z as int),
            r < CELL_SIZE,
    {
        (x as usize) * CELL_X_MASK + (y as usize) * CELL_Y_MASK + (z as usize) * CELL_Z_MASK
    }

    pub fn set(&mut self, x: u8, y: u8, z: u8, id: usize)
        requires
            old(self).well_formed(),
            x < 32,
            y < 32,
            z < 32,
        ensures
            final(self)@ == old(self)@.update(voxel_index(x as int, y as int, z as int), id),
            final(self).well_formed(),
            final(self).position() == old(self).position(),
    {
        let idx = Self::encode(x, y, z);
        self.voxels.set(idx, id);
    }

    pub fn get(&self, x: u8, y: u8, z: u8) -> (r: usize)
        requires
            self.well_formed(),
            x < 32,
            y < 32,
            z < 32,
        ensures
            r == self@[voxel_index(x as int, y as int, z as int)],
    {
        self.voxels[Self::encode(x, y, z)]
    }

    /// The type id at local index `idx`.
    pub fn at(&self, idx: usize) -> (r: usize)
        requires
            self.well_formed(),
            idx < CELL_SIZE,
        ensures
            r == self@[idx as int],
    {
        self.voxels[idx]
    }
}

/// Why a set of cells does not make a world.
#[derive(Clone, Copy, Debug, PartialEq, Eq, Structural)]
pub enum WorldError {
    /// The number of cells is not `WORLD_SIZE`.
    CellCount,
    /// The cell at this linear index carries another position, or does not
    /// hold one type id per voxel.
    MisplacedCell(usize),
}

/// A cube of cells, `WORLD_LENGTH` along each axis. The cell at linear index
/// `i` is the cell whose position encodes to `i`, which is also its block
/// index in every per-cell block buffer.
#[derive(Debug)]
pub struct World {
    cells: Vec<Cell>,
}

impl View for World {
    type V = Seq<Cell>;

    closed spec fn view(&self) -> Seq<Cell> {
        self.cells@
    }
}

/// Whether cell `c` may stand at linear index `i` of a world.
pub open spec fn cell_fits(c: Cell, i: int) -> bool {
    c.well_formed() && c.position() == CellPos::of_index(i)
}

/// Whether `cells` are the cells of a world: one per linear index, each
/// well formed and at the position its index encodes.
pub open spec fn cells_in_place(cells: Seq<Cell>) -> bool {
    &&& cells.len() == WORLD_SIZE
    &&& forall|i: int| 0 <= i < cells.len() ==> #[trigger] cell_fits(cells[i], i)
}

impl World {
    #[verifier::type_invariant]
    closed spec fn cells_placed(self) -> bool {
        cells_in_place(self.cells@)
    }

    pub fn encode(x: u32, y: u32, z: u32) -> (r: usize)
        requires
            x < 8,
            y < 8,
            z < 8,
        ensures
            r as int == cell_index(x as int, y as int, z as int),
            r < WORLD_SIZE,
    {
        (x as usize) * 64 + (y as usize) * 8 + (z as usize)
    }

    /// The position of the cell at linear index `idx`.
    pub fn cell_pos(idx: usize) -> (r: CellPos)
        requires
            idx < WORLD_SIZE,
        ensures
            r == CellPos::of_index(idx as int),
            r.x < 8 && r.y < 8 && r.z < 8,
            cell_index(r.x as int, r.y as int, r.z as int) == idx,
    {
        let x = idx / 64;
        let y = (idx / 8) % 8;
        let z = idx % 8;
        CellPos { x: x as u32, y: y as u32, z: z as u32 }
    }

    /// Builds the world from its cells, given in linear index order.
    pub fn new(cells: Vec<Cell>) -> (r: Result<World, WorldError>)
        ensures
            cells.len() != WORLD_SIZE ==> r == Err::<World, WorldError>(WorldError::CellCount),
            r is Ok <==> cells_in_place(cells@),
            r matches Ok(w) ==> w@ == cells@,
            r matches Err(WorldError::MisplacedCell(i)) ==> i < cells.len() && !cell_fits(
                cells@[i as int],
                i as int,
            ) && forall|j: int| 0 <= j < i ==> #[trigger] cell_fits(cells@[j], j),
    {
        if cells.len() != WORLD_SIZE {
            return Err(WorldError::CellCount);
        }
        let mut i: usize = 0;
        while i < cells.len()
            invariant
                cells.len() == WORLD_SIZE,
                i <= cells.len(),
                forall|j: int| 0 <= j < i ==> #[trigger] cell_fits(cells@[j], j),
            decreases cells.len() - i,
        {
            let expected = Self::cell_pos(i);
            if !cells[i].is_well_formed() || cells[i].pos() != expected {
                assert(!cell_fits(cells@[i as int], i as int));
                return Err(WorldError::MisplacedCell(i));
            }
            i += 1;
        }
        Ok(World { cells })
    }

    /// The cell at linear index `idx`.
    pub fn cell(&self, idx: usize) -> (r: &Cell)
        requires
            idx < WORLD_SIZE,
        ensures
            *r == self@[idx as int],
            cell_fits(*r, idx as int),
    {
        proof {
            use_type_invariant(self);
        }
        &self.cells[idx]
    }
}

} // verus!

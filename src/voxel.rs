use vstd::prelude::*;

verus! {

/// Index of an image in the combined texture array.
pub type TextureId = u8;

/// Texture ids must stay below this bound: a packed face record carries the
/// texture id in three bits.
pub const TEXTURE_LIMIT: u8 = 8;

/// The six face directions. The order is the wire order of the direction
/// field in a face record and of the direction groups in a cell's mesh.
#[derive(Clone, Copy, Debug, PartialEq, Eq, Structural)]
pub enum Norm {
    NORTH,
    WEST,
    DOWN,
    SOUTH,
    EAST,
    UP,
}

impl Norm {
    /// Width of the direction field in a face record.
    pub const BITS: u8 = 3;
    /// Mask of the direction field in a face record.
    pub const BIT_MASK: u8 = 7;

    /// Position of the direction in the wire order.
    pub open spec fn ordinal(self) -> nat {
        match self {
            Norm::NORTH => 0,
            Norm::WEST => 1,
            Norm::DOWN => 2,
            Norm::SOUTH => 3,
            Norm::EAST => 4,
            Norm::UP => 5,
        }
    }

    pub fn index(&self) -> (r: u8)
        ensures
            r as nat == self.ordinal(),
    {
        match self {
            Norm::NORTH => 0,
            Norm::WEST => 1,
            Norm::DOWN => 2,
            Norm::SOUTH => 3,
            Norm::EAST => 4,
            Norm::UP => 5,
        }
    }

    pub fn from_index(i: u8) -> (r: Norm)
        requires
            i < 6,
        ensures
            r.ordinal() == i as nat,
    {
        if i == 0 {
            Norm::NORTH
        } else if i == 1 {
            Norm::WEST
        } else if i == 2 {
            Norm::DOWN
        } else if i == 3 {
            Norm::SOUTH
        } else if i == 4 {
            Norm::EAST
        } else {
            Norm::UP
        }
    }
}

/// One face of a voxel model: its direction and the texture drawn on it.
#[derive(Clone, Copy, Debug)]
pub struct VoxelFace {
    pub norm: Norm,
    pub tex_id: TextureId,
}

/// The six faces of a voxel, entry `i` facing the direction of ordinal `i`.
#[derive(Clone, Copy, Debug)]
pub struct VoxelModel(pub [VoxelFace; 6]);

impl VoxelModel {
    /// Entry `i` faces direction `i` and every texture id is below the limit.
    pub open spec fn well_formed(self) -> bool {
        forall|i: int| 0 <= i < 6 ==> (#[trigger] self.0[i]).norm.ordinal() == i && self.0[i].tex_id < TEXTURE_LIMIT
    }

    /// Texture id of the face in direction `d`.
    pub open spec fn tex_of(self, d: int) -> TextureId {
        self.0[d].tex_id
    }

    /// A model with the same texture on all six faces.
    pub fn all(tex_id: TextureId) -> (r: Self)
        ensures
            forall|i: int| 0 <= i < 6 ==> #[trigger] r.0[i].norm.ordinal() == i,
            forall|i: int| 0 <= i < 6 ==> #[trigger] r.0[i].tex_id == tex_id,
    {
        let r = VoxelModel(
            [
                VoxelFace { norm: Norm::NORTH, tex_id },
                VoxelFace { norm: Norm::WEST, tex_id },
                VoxelFace { norm: Norm::DOWN, tex_id },
                VoxelFace { norm: Norm::SOUTH, tex_id },
                VoxelFace { norm: Norm::EAST, tex_id },
                VoxelFace { norm: Norm::UP, tex_id },
            ],
        );
        r
    }

    /// A model with one texture below, one on top and one on the four sides.
    pub fn top_bottom(bottom_tex_id: TextureId, top_tex_id: TextureId, side_tex_id: TextureId) -> (r:
        Self)
        ensures
            forall|i: int| 0 <= i < 6 ==> #[trigger] r.0[i].norm.ordinal() == i,
            r.0[2].tex_id == bottom_tex_id,
            r.0[5].tex_id == top_tex_id,
            r.0[0].tex_id == side_tex_id,
            r.0[1].tex_id == side_tex_id,
            r.0[3].tex_id == side_tex_id,
            r.0[4].tex_id == side_tex_id,
    {
        VoxelModel(
            [
                VoxelFace { norm: Norm::NORTH, tex_id: side_tex_id },
                VoxelFace { norm: Norm::WEST, tex_id: side_tex_id },
                VoxelFace { norm: Norm::DOWN, tex_id: bottom_tex_id },
                VoxelFace { norm: Norm::SOUTH, tex_id: side_tex_id },
                VoxelFace { norm: Norm::EAST, tex_id: side_tex_id },
                VoxelFace { norm: Norm::UP, tex_id: top_tex_id },
            ],
        )
    }

    /// Whether every texture id of the model is below the limit.
    pub fn textures_fit(&self) -> (r: bool)
        ensures
            r == (forall|i: int| 0 <= i < 6 ==> #[trigger] self.0[i].tex_id < TEXTURE_LIMIT),
    {
        let mut i: usize = 0;
        while i < 6
            invariant
                i <= 6,
                forall|j: int| 0 <= j < i ==> #[trigger] self.0[j].tex_id < TEXTURE_LIMIT,
            decreases 6 - i,
        {
            if self.0[i].tex_id >= TEXTURE_LIMIT {
                return false;
            }
            i += 1;
        }
        true
    }
}

/// A voxel type: air has no model and produces no faces.
#[derive(Clone, Copy, Debug)]
pub struct Voxel {
    pub model: Option<VoxelModel>,
}

impl Voxel {
    pub open spec fn well_formed(self) -> bool {
        match self.model {
            Some(m) => m.well_formed(),
            None => true,
        }
    }

    /// Whether the voxel has a model, that is, whether it is opaque.
    pub open spec fn is_opaque(self) -> bool {
        self.model is Some
    }
}

/// Table of the registered voxel types, indexed by voxel type id.
#[derive(Debug)]
pub struct VoxelRegistry {
    last_id: usize,
    lookup: Vec<Voxel>,
}

impl View for VoxelRegistry {
    type V = Seq<Voxel>;

    closed spec fn view(&self) -> Seq<Voxel> {
        self.lookup@
    }
}

impl VoxelRegistry {
    /// The id counter agrees with the table.
    pub closed spec fn counter_agrees(self) -> bool {
        self.last_id == self.lookup@.len()
    }

    pub open spec fn well_formed(self) -> bool {
        &&& self.counter_agrees()
        &&& forall|i: int| 0 <= i < self@.len() ==> #[trigger] self@[i].well_formed()
    }

    /// Whether voxel type `id` is registered and opaque.
    pub open spec fn opaque(self, id: usize) -> bool {
        self@[id as int].is_opaque()
    }

    pub fn new() -> (r: Self)
        ensures
            r.well_formed(),
            r@ == Seq::<Voxel>::empty(),
    {
        VoxelRegistry { last_id: 0, lookup: Vec::new() }
    }

    /// Registers a voxel type and returns its id, the number of types
    /// registered before it.
    pub fn register(&mut self, voxel: Voxel) -> (r: usize)
        requires
            old(self).well_formed(),
            voxel.well_formed(),
            old(self)@.len() < usize::MAX,
        ensures
            final(self).well_formed(),
            final(self)@ == old(self)@.push(voxel),
            r == old(self)@.len(),
    {
        self.lookup.push(voxel);
        self.last_id = self.last_id + 1;
        self.last_id - 1
    }

    pub fn len(&self) -> (r: usize)
        requires
            self.well_formed(),
        ensures
            r == self@.len(),
    {
        self.last_id
    }

    pub fn get(&self, id: usize) -> (r: &Voxel)
        requires
            id < self@.len(),
        ensures
            *r == self@[id as int],
    {
        &self.lookup[id]
    }

    /// Whether voxel type `id` has a model.
    pub fn is_opaque(&self, id: usize) -> (r: bool)
        requires
            id < self@.len(),
        ensures
            r == self.opaque(id),
    {
        self.lookup[id].model.is_some()
    }
}

} // verus!

use vstd::prelude::*;
use crate::block_buffer::{BlockBuffer, BlockError};
use crate::mesh::{ids_registered, mesh_cell, CellMesh};
use crate::voxel::VoxelRegistry;
use crate::world::{Cell, World, CELL_SIZE, WORLD_SIZE};

verus! {

/// Vertices one geometry block can feed: six for each of the `6 * CELL_SIZE`
/// face records it holds. Cell `i`'s first vertex is `i * BLOCK_VERTICES`.
pub const BLOCK_VERTICES: u32 = 1179648;

/// One indirect draw: the vertex range of one cell, drawn once.
#[derive(Clone, Copy, Debug, PartialEq, Eq, Structural)]
pub struct DrawArgs {
    pub vertex_count: u32,
    pub instance_count: u32,
    pub first_vertex: u32,
    pub first_instance: u32,
}

/// The draw of cell `i` with `count` vertices.
pub open spec fn cell_draw(i: int, count: u32) -> DrawArgs {
    DrawArgs {
        vertex_count: count,
        instance_count: 1,
        first_vertex: (i * BLOCK_VERTICES) as u32,
        first_instance: 0,
    }
}

/// The draws of the cells below `n` that have vertices, in cell order.
pub open spec fn draws_of(counts: Seq<u32>, n: int) -> Seq<DrawArgs>
    decreases n,
{
    if n <= 0 {
        Seq::empty()
    } else if counts[n - 1] > 0 {
        draws_of(counts, n - 1).push(cell_draw(n - 1, counts[n - 1]))
    } else {
        draws_of(counts, n - 1)
    }
}

/// How many of the cells below `n` have vertices.
pub open spec fn nonempty_cells(counts: Seq<u32>, n: int) -> nat
    decreases n,
{
    if n <= 0 {
        0
    } else {
        nonempty_cells(counts, n - 1) + if counts[n - 1] > 0 {
            1nat
        } else {
            0nat
        }
    }
}

/// The draw arguments of a frame and the draw counter that bounds them.
#[derive(Debug)]
pub struct DrawCommands {
    pub args: Vec<DrawArgs>,
    pub count: u32,
}

/// Turns the per-cell vertex counts into indirect draw arguments: one slot,
/// taken in turn, for each cell with a non-zero vertex count, whose draw
/// covers that cell's vertices from the start of its block; cells without
/// vertices take no slot. The counter is the number of slots filled.
pub fn generate_draw_commands(vertex_counts: &[u32]) -> (r: DrawCommands)
    requires
        vertex_counts@.len() <= WORLD_SIZE,
    ensures
        r.args@ == draws_of(vertex_counts@, vertex_counts@.len() as int),
        r.count as int == r.args@.len(),
        r.count as nat == nonempty_cells(vertex_counts@, vertex_counts@.len() as int),
        r.count <= vertex_counts@.len(),
{
    let mut args: Vec<DrawArgs> = Vec::new();
    let mut count: u32 = 0;
    let mut i: usize = 0;
    while i < vertex_counts.len()
        invariant
            vertex_counts@.len() <= WORLD_SIZE,
            i <= vertex_counts@.len(),
            args@ == draws_of(vertex_counts@, i as int),
            count as int == args@.len(),
            count as nat == nonempty_cells(vertex_counts@, i as int),
            count <= i,
        decreases vertex_counts@.len() - i,
    {
        let c = vertex_counts[i];
        if c > 0 {
            args.push(
                DrawArgs {
                    vertex_count: c,
                    instance_count: 1,
                    first_vertex: (i as u32) * BLOCK_VERTICES,
                    first_instance: 0,
                },
            );
            count = count + 1;
        }
        i += 1;
    }
    DrawCommands { args, count }
}

/// Draw-count bound: the draw counter never exceeds the number of cells,
/// equals the number of cells with a non-zero vertex count, and every draw
/// covers a cell that has vertices.
pub proof fn lemma_draw_count_bound(counts: Seq<u32>)
    ensures
        nonempty_cells(counts, counts.len() as int) <= counts.len(),
        draws_of(counts, counts.len() as int).len() == nonempty_cells(counts, counts.len() as int),
        forall|k: int|
            0 <= k < draws_of(counts, counts.len() as int).len() ==> #[trigger] draws_of(
                counts,
                counts.len() as int,
            )[k].vertex_count > 0,
{
    lemma_draws_prefix(counts, counts.len() as int);
}

proof fn lemma_draws_prefix(counts: Seq<u32>, n: int)
    requires
        0 <= n <= counts.len(),
    ensures
        nonempty_cells(counts, n) <= n,
        draws_of(counts, n).len() == nonempty_cells(counts, n),
        forall|k: int|
            0 <= k < draws_of(counts, n).len() ==> #[trigger] draws_of(counts, n)[k].vertex_count > 0,
    decreases n,
{
    if n > 0 {
        lemma_draws_prefix(counts, n - 1);
    }
}

/// Whether a window resize to `width` by `height` is carried out: a
/// zero-area size is ignored.
pub fn accepts_resize(width: u32, height: u32) -> (r: bool)
    ensures
        r == (width > 0 && height > 0),
{
    width != 0 && height != 0
}

/// Why a cell's mesh cannot be placed in the block buffers.
#[derive(Clone, Copy, Debug, PartialEq, Eq, Structural)]
pub enum UploadError {
    /// A voxel of the cell names a type that is not registered.
    UnknownVoxel,
    /// A block buffer refused the write.
    Block(BlockError),
}

/// A meshed cell and where its two writes go: the records at
/// `geometry_offset` of the geometry slab, the vertex count at
/// `count_offset` of the vertex-count slab.
#[derive(Debug)]
pub struct CellUpload {
    pub mesh: CellMesh,
    pub geometry_offset: u64,
    pub count_offset: u64,
}

/// Whether every voxel of `cell` names a registered type.
pub fn all_registered(cell: &Cell, registry: &VoxelRegistry) -> (r: bool)
    requires
        cell.well_formed(),
        registry.well_formed(),
    ensures
        r == ids_registered(cell@, registry@),
{
    let n = registry.len();
    let mut i: usize = 0;
    while i < CELL_SIZE
        invariant
            cell.well_formed(),
            n == registry@.len(),
            i <= CELL_SIZE,
            forall|j: int| 0 <= j < i ==> #[trigger] cell@[j] < registry@.len(),
        decreases CELL_SIZE - i,
    {
        if cell.at(i) >= n {
            return false;
        }
        i += 1;
    }
    true
}

/// Meshes the cell at linear index `idx` of the world and places the result:
/// the face records in block `idx` of `face_buffer`, the vertex count in
/// block `idx` of `count_buffer`.
pub fn prepare_cell_upload(
    face_buffer: &BlockBuffer,
    count_buffer: &BlockBuffer,
    world: &World,
    registry: &VoxelRegistry,
    idx: usize,
) -> (r: Result<CellUpload, UploadError>)
    requires
        face_buffer.well_formed(),
        count_buffer.well_formed(),
        registry.well_formed(),
        idx < WORLD_SIZE,
    ensures
        !ids_registered(world@[idx as int]@, registry@) ==> r == Err::<CellUpload, UploadError>(
            UploadError::UnknownVoxel,
        ),
        r matches Ok(u) ==> u.mesh.meshes(world@[idx as int]@, registry@) && u.geometry_offset
            == face_buffer.block_capacity() * idx && u.count_offset == count_buffer.block_capacity()
            * idx,
        ids_registered(world@[idx as int]@, registry@) ==> (r is Ok <==> (idx
            < face_buffer.block_count() && idx < count_buffer.block_count() && 4 <= count_buffer.block_capacity()
            && 4 * cell_face_count(world@[idx as int]@, registry@) <= face_buffer.block_capacity())),
        ids_registered(world@[idx as int]@, registry@) && idx >= face_buffer.block_count() ==> r
            == Err::<CellUpload, UploadError>(UploadError::Block(BlockError::NoSuchBlock)),
        ids_registered(world@[idx as int]@, registry@) && idx < face_buffer.block_count() && 4
            * cell_face_count(world@[idx as int]@, registry@) > face_buffer.block_capacity() ==> r
            == Err::<CellUpload, UploadError>(UploadError::Block(BlockError::Overrun)),
        ids_registered(world@[idx as int]@, registry@) && idx < face_buffer.block_count() && 4
            * cell_face_count(world@[idx as int]@, registry@) <= face_buffer.block_capacity() && idx
            >= count_buffer.block_count() ==> r == Err::<CellUpload, UploadError>(
            UploadError::Block(BlockError::NoSuchBlock),
        ),
        ids_registered(world@[idx as int]@, registry@) && idx < face_buffer.block_count() && 4
            * cell_face_count(world@[idx as int]@, registry@) <= face_buffer.block_capacity() && idx
            < count_buffer.block_count() && count_buffer.block_capacity() < 4 ==> r == Err::<
            CellUpload,
            UploadError,
        >(UploadError::Block(BlockError::Overrun)),
{
    let cell = world.cell(idx);
    if !all_registered(cell, registry) {
        return Err(UploadError::UnknownVoxel);
    }
    let mesh = mesh_cell(cell, registry);
    let geometry_offset = match face_buffer.write_to_block(idx, mesh.geometry_bytes()) {
        Ok(off) => off,
        Err(e) => {
            return Err(UploadError::Block(e));
        },
    };
    let count_bytes = mesh.vertex_count_bytes();
    let count_offset = match count_buffer.write_to_block(idx, count_bytes.as_slice()) {
        Ok(off) => off,
        Err(e) => {
            return Err(UploadError::Block(e));
        },
    };
    Ok(CellUpload { mesh, geometry_offset, count_offset })
}

/// Number of face records in the mesh of a cell holding `voxels`.
pub open spec fn cell_face_count(voxels: Seq<usize>, reg: Seq<crate::voxel::Voxel>) -> nat {
    crate::mesh::cell_faces(voxels, reg).len()
}

} // verus!

use vstd::prelude::*;
use crate::face::{
    face_word, lemma_face_word_fields, record_index, record_norm, record_valid, NORM_SHIFT, TEX_SHIFT,
};
use crate::voxel::{Voxel, VoxelRegistry};
use crate::world::{
    in_cell, voxel_index, Cell, CELL_SIZE, CELL_X_MASK, CELL_Y_MASK, CELL_Z_MASK,
};

verus! {

/// Every voxel type of the registry is well formed.
pub open spec fn registry_ok(reg: Seq<Voxel>) -> bool {
    forall|i: int| 0 <= i < reg.len() ==> #[trigger] reg[i].well_formed()
}

/// Every voxel of the cell names a registered type.
pub open spec fn ids_registered(voxels: Seq<usize>, reg: Seq<Voxel>) -> bool {
    forall|i: int| 0 <= i < voxels.len() ==> #[trigger] voxels[i] < reg.len()
}

/// Whether the voxel at `(x, y, z)` has a model.
pub open spec fn opaque_at(voxels: Seq<usize>, reg: Seq<Voxel>, x: int, y: int, z: int) -> bool {
    reg[voxels[voxel_index(x, y, z)] as int].is_opaque()
}

/// The neighbor of `(x, y, z)` in direction `d`: -z, -x, -y, +z, +x, +y.
pub open spec fn neighbor(x: int, y: int, z: int, d: int) -> (int, int, int) {
    if d == 0 {
        (x, y, z - 1)
    } else if d == 1 {
        (x - 1, y, z)
    } else if d == 2 {
        (x, y - 1, z)
    } else if d == 3 {
        (x, y, z + 1)
    } else if d == 4 {
        (x + 1, y, z)
    } else {
        (x, y + 1, z)
    }
}

/// Whether the face of `(x, y, z)` in direction `d` is seen: the voxel has a
/// model, and its neighbor that way lies outside the cell or has no model.
pub open spec fn face_visible(voxels: Seq<usize>, reg: Seq<Voxel>, x: int, y: int, z: int, d: int) -> bool {
    let (nx, ny, nz) = neighbor(x, y, z, d);
    opaque_at(voxels, reg, x, y, z) && (!in_cell(nx, ny, nz) || !opaque_at(voxels, reg, nx, ny, nz))
}

/// `face_visible` for the voxel at local index `i`.
pub open spec fn visible_at(voxels: Seq<usize>, reg: Seq<Voxel>, i: int, d: int) -> bool {
    face_visible(voxels, reg, i / 1024, (i / 32) % 32, i % 32, d)
}

/// Texture of the face of the voxel at local index `i` in direction `d`.
pub open spec fn tex_at(voxels: Seq<usize>, reg: Seq<Voxel>, i: int, d: int) -> u8 {
    reg[voxels[i] as int].model.unwrap().tex_of(d)
}

/// Records of the visible faces in direction `d` of the voxels with local
/// index below `n`, in ascending index order.
pub open spec fn dir_faces(voxels: Seq<usize>, reg: Seq<Voxel>, d: int, n: int) -> Seq<u32>
    decreases n,
{
    if n <= 0 {
        Seq::empty()
    } else {
        let prev = dir_faces(voxels, reg, d, n - 1);
        if visible_at(voxels, reg, n - 1, d) {
            prev.push(face_word((n - 1) as u32, d as u32, tex_at(voxels, reg, n - 1, d) as u32))
        } else {
            prev
        }
    }
}

/// Records of the visible faces of the directions below `d`, direction by
/// direction.
pub open spec fn faces_upto(voxels: Seq<usize>, reg: Seq<Voxel>, d: int) -> Seq<u32>
    decreases d,
{
    if d <= 0 {
        Seq::empty()
    } else {
        faces_upto(voxels, reg, d - 1) + dir_faces(voxels, reg, d - 1, CELL_SIZE as int)
    }
}

/// The face record stream of a cell: all direction-0 faces in ascending
/// local index order, then direction 1, and so on to direction 5.
pub open spec fn cell_faces(voxels: Seq<usize>, reg: Seq<Voxel>) -> Seq<u32> {
    faces_upto(voxels, reg, 6)
}

/// The mesh of one cell: its face records and the number of vertices drawn
/// from them (six per face: two triangles).
#[derive(Debug)]
pub struct CellMesh {
    pub faces: Vec<u32>,
    pub vertex_count: u32,
}

impl CellMesh {
    /// Whether this is the mesh of a cell holding `voxels`.
    pub open spec fn meshes(self, voxels: Seq<usize>, reg: Seq<Voxel>) -> bool {
        &&& self.faces@ == cell_faces(voxels, reg)
        &&& self.vertex_count == 6 * self.faces@.len()
    }

    /// The face records as device bytes.
    pub fn geometry_bytes(&self) -> (r: &[u8])
        ensures
            r@.len() == 4 * self.faces@.len(),
    {
        records_as_bytes(self.faces.as_slice())
    }

    /// The vertex count as the four little-endian bytes of a `u32`.
    pub fn vertex_count_bytes(&self) -> (r: [u8; 4])
        ensures
            r@ == le_bytes(self.vertex_count),
    {
        let v = self.vertex_count;
        [(v & 0xff) as u8, ((v >> 8) & 0xff) as u8, ((v >> 16) & 0xff) as u8, (v >> 24) as u8]
    }
}

/// The little-endian bytes of `v`.
pub open spec fn le_bytes(v: u32) -> Seq<u8> {
    seq![
        (v & 0xff) as u8,
        ((v >> 8) & 0xff) as u8,
        ((v >> 16) & 0xff) as u8,
        (v >> 24) as u8,
    ]
}

/// Relies on bytemuck::cast_slice: a slice of `u32` seen as its bytes, four
/// for each element; the cast from `u32` to `u8` never fails.
#[verifier::external_body]
fn records_as_bytes(records: &[u32]) -> (r: &[u8])
    ensures
        r@.len() == 4 * records@.len(),
{
    bytemuck::cast_slice(records)
}

/// Whether the face of the voxel at `(x, y, z)`, local index `idx`, in
/// direction `d` is not hidden by its neighbor: the neighbor lies outside the
/// cell, or has no model.
fn face_exposed(cell: &Cell, registry: &VoxelRegistry, x: u8, y: u8, z: u8, idx: usize, d: u8) -> (r:
    bool)
    requires
        cell.well_formed(),
        ids_registered(cell@, registry@),
        x < 32 && y < 32 && z < 32,
        idx as int == voxel_index(x as int, y as int, z as int),
        d < 6,
    ensures
        ({
            let (nx, ny, nz) = neighbor(x as int, y as int, z as int, d as int);
            r == (!in_cell(nx, ny, nz) || !opaque_at(cell@, registry@, nx, ny, nz))
        }),
{
    let boundary = if d == 0 {
        z == 0
    } else if d == 1 {
        x == 0
    } else if d == 2 {
        y == 0
    } else if d == 3 {
        z == 31
    } else if d == 4 {
        x == 31
    } else {
        y == 31
    };
    if boundary {
        return true;
    }
    let n = if d == 0 {
        idx - CELL_Z_MASK
    } else if d == 1 {
        idx - CELL_X_MASK
    } else if d == 2 {
        idx - CELL_Y_MASK
    } else if d == 3 {
        idx + CELL_Z_MASK
    } else if d == 4 {
        idx + CELL_X_MASK
    } else {
        idx + CELL_Y_MASK
    };
    !registry.is_opaque(cell.at(n))
}

/// Coordinates of a voxel come back from its local index.
proof fn lemma_coords(x: int, y: int, z: int)
    requires
        in_cell(x, y, z),
    ensures
        voxel_index(x, y, z) / 1024 == x,
        (voxel_index(x, y, z) / 32) % 32 == y,
        voxel_index(x, y, z) % 32 == z,
{
    assert(voxel_index(x, y, z) / 1024 == x) by (nonlinear_arith)
        requires
            in_cell(x, y, z),
    ;
    assert(voxel_index(x, y, z) / 32 == x * 32 + y) by (nonlinear_arith)
        requires
            in_cell(x, y, z),
    ;
    assert((x * 32 + y) % 32 == y) by (nonlinear_arith)
        requires
            in_cell(x, y, z),
    ;
    assert(voxel_index(x, y, z) % 32 == z) by (nonlinear_arith)
        requires
            in_cell(x, y, z),
    ;
}

/// Meshes one cell: the record of every visible face, grouped by direction
/// and in ascending local index within a direction, and six vertices per
/// face. A cell never emits more faces than its geometry block holds.
pub fn mesh_cell(cell: &Cell, registry: &VoxelRegistry) -> (r: CellMesh)
    requires
        cell.well_formed(),
        registry.well_formed(),
        ids_registered(cell@, registry@),
    ensures
        r.meshes(cell@, registry@),
        r.faces@.len() <= 6 * CELL_SIZE,
{
    let mut faces: Vec<u32> = Vec::new();
    let mut d: u8 = 0;
    while d < 6
        invariant
            cell.well_formed(),
            registry.well_formed(),
            ids_registered(cell@, registry@),
            d <= 6,
            faces@ == faces_upto(cell@, registry@, d as int),
            faces@.len() <= d * CELL_SIZE,
        decreases 6 - d,
    {
        let mut idx: usize = 0;
        let mut x: u8 = 0;
        let mut y: u8 = 0;
        let mut z: u8 = 0;
        while idx < CELL_SIZE
            invariant
                cell.well_formed(),
                registry.well_formed(),
                ids_registered(cell@, registry@),
                d < 6,
                idx <= CELL_SIZE,
                x <= 32 && y < 32 && z < 32,
                idx as int == voxel_index(x as int, y as int, z as int),
                faces@ == faces_upto(cell@, registry@, d as int) + dir_faces(
                    cell@,
                    registry@,
                    d as int,
                    idx as int,
                ),
                faces@.len() <= d * CELL_SIZE + idx,
            decreases CELL_SIZE - idx,
        {
            proof {
                lemma_coords(x as int, y as int, z as int);
            }
            let id = cell.at(idx);
            let voxel = registry.get(id);
            let ghost before = faces@;
            match voxel.model {
                Some(model) => {
                    if face_exposed(cell, registry, x, y, z, idx, d) {
                        let tex = model.0[d as usize].tex_id;
                        proof {
                            assert(registry@[id as int].well_formed());
                            assert(model.0[d as int].tex_id < 8);
                            lemma_face_word_fields(idx as u32, d as u32, tex as u32);
                        }
                        let w = (idx as u32) | ((d as u32) << NORM_SHIFT) | ((tex as u32)
                            << TEX_SHIFT);
                        faces.push(w);
                    }
                },
                None => {},
            }
            proof {
                let v = cell@;
                let reg = registry@;
                assert(dir_faces(v, reg, d as int, idx + 1) == if visible_at(v, reg, idx as int, d as int) {
                    dir_faces(v, reg, d as int, idx as int).push(
                        face_word(idx as u32, d as u32, tex_at(v, reg, idx as int, d as int) as u32),
                    )
                } else {
                    dir_faces(v, reg, d as int, idx as int)
                });
                assert(faces@ =~= faces_upto(v, reg, d as int) + dir_faces(
                    v,
                    reg,
                    d as int,
                    idx + 1,
                ));
            }
            idx += 1;
            if z < 31 {
                z += 1;
            } else {
                z = 0;
                if y < 31 {
                    y += 1;
                } else {
                    y = 0;
                    x += 1;
                }
            }
        }
        proof {
            assert(faces_upto(cell@, registry@, d + 1) == faces_upto(cell@, registry@, d as int)
                + dir_faces(cell@, registry@, d as int, CELL_SIZE as int));
        }
        d += 1;
    }
    let n = faces.len();
    CellMesh { faces, vertex_count: (6 * n) as u32 }
}

/// A local index comes back from its coordinates.
proof fn lemma_index_coords(i: int)
    requires
        0 <= i < CELL_SIZE,
    ensures
        in_cell(i / 1024, (i / 32) % 32, i % 32),
        voxel_index(i / 1024, (i / 32) % 32, i % 32) == i,
{
    assert(in_cell(i / 1024, (i / 32) % 32, i % 32)) by (nonlinear_arith)
        requires
            0 <= i < 32768,
    ;
    assert(voxel_index(i / 1024, (i / 32) % 32, i % 32) == i) by (nonlinear_arith)
        requires
            0 <= i < 32768,
    ;
}

/// How many records of `words` name the voxel at local index `i` and
/// direction `d`.
pub open spec fn records_at(words: Seq<u32>, i: int, d: int) -> nat
    decreases words.len(),
{
    if words.len() == 0 {
        0
    } else {
        records_at(words.drop_last(), i, d) + if record_index(words.last()) as int == i
            && record_norm(words.last()) as int == d {
            1nat
        } else {
            0nat
        }
    }
}

proof fn lemma_records_at_concat(a: Seq<u32>, b: Seq<u32>, i: int, d: int)
    ensures
        records_at(a + b, i, d) == records_at(a, i, d) + records_at(b, i, d),
    decreases b.len(),
{
    if b.len() == 0 {
        assert(a + b =~= a);
    } else {
        assert((a + b).drop_last() =~= a + b.drop_last());
        lemma_records_at_concat(a, b.drop_last(), i, d);
    }
}

proof fn lemma_dir_faces_count(voxels: Seq<usize>, reg: Seq<Voxel>, e: int, n: int, i: int, d: int)
    requires
        voxels.len() == CELL_SIZE,
        registry_ok(reg),
        ids_registered(voxels, reg),
        0 <= n <= CELL_SIZE,
        0 <= e < 6,
    ensures
        records_at(dir_faces(voxels, reg, e, n), i, d) == if e == d && 0 <= i < n && visible_at(
            voxels,
            reg,
            i,
            d,
        ) {
            1nat
        } else {
            0nat
        },
    decreases n,
{
    if n > 0 {
        lemma_dir_faces_count(voxels, reg, e, n - 1, i, d);
        let prev = dir_faces(voxels, reg, e, n - 1);
        if visible_at(voxels, reg, n - 1, e) {
            lemma_index_coords(n - 1);
            let id = voxels[n - 1];
            assert(reg[id as int].well_formed());
            let model = reg[id as int].model.unwrap();
            assert(model.0[e].tex_id < 8);
            let w = face_word((n - 1) as u32, e as u32, tex_at(voxels, reg, n - 1, e) as u32);
            lemma_face_word_fields((n - 1) as u32, e as u32, tex_at(voxels, reg, n - 1, e) as u32);
            assert(prev.push(w).drop_last() =~= prev);
        }
    }
}

proof fn lemma_faces_upto_count(voxels: Seq<usize>, reg: Seq<Voxel>, k: int, i: int, d: int)
    requires
        voxels.len() == CELL_SIZE,
        registry_ok(reg),
        ids_registered(voxels, reg),
        0 <= k <= 6,
        0 <= i < CELL_SIZE,
    ensures
        records_at(faces_upto(voxels, reg, k), i, d) == if 0 <= d < k && visible_at(voxels, reg, i, d) {
            1nat
        } else {
            0nat
        },
    decreases k,
{
    if k == 0 {
        assert(faces_upto(voxels, reg, k).len() == 0);
    } else {
        lemma_faces_upto_count(voxels, reg, k - 1, i, d);
        lemma_records_at_concat(
            faces_upto(voxels, reg, k - 1),
            dir_faces(voxels, reg, k - 1, CELL_SIZE as int),
            i,
            d,
        );
        lemma_dir_faces_count(voxels, reg, k - 1, CELL_SIZE as int, i, d);
    }
}

/// Occlusion: the mesh of a cell holds exactly one record for a face of a
/// voxel with a model whose neighbor that way lies outside the cell or has
/// no model, and none for a face whose neighbor has a model, nor for any
/// face of a voxel without a model.
pub proof fn lemma_occlusion(voxels: Seq<usize>, reg: Seq<Voxel>, x: int, y: int, z: int, d: int)
    requires
        voxels.len() == CELL_SIZE,
        registry_ok(reg),
        ids_registered(voxels, reg),
        in_cell(x, y, z),
        0 <= d < 6,
    ensures
        records_at(cell_faces(voxels, reg), voxel_index(x, y, z), d) == if face_visible(
            voxels,
            reg,
            x,
            y,
            z,
            d,
        ) {
            1nat
        } else {
            0nat
        },
        ({
            let (nx, ny, nz) = neighbor(x, y, z, d);
            in_cell(nx, ny, nz) && opaque_at(voxels, reg, nx, ny, nz) ==> records_at(
                cell_faces(voxels, reg),
                voxel_index(x, y, z),
                d,
            ) == 0
        }),
        ({
            let (nx, ny, nz) = neighbor(x, y, z, d);
            opaque_at(voxels, reg, x, y, z) && (!in_cell(nx, ny, nz) || !opaque_at(
                voxels,
                reg,
                nx,
                ny,
                nz,
            )) ==> records_at(cell_faces(voxels, reg), voxel_index(x, y, z), d) == 1
        }),
        !opaque_at(voxels, reg, x, y, z) ==> records_at(
            cell_faces(voxels, reg),
            voxel_index(x, y, z),
            d,
        ) == 0,
{
    lemma_coords(x, y, z);
    lemma_faces_upto_count(voxels, reg, 6, voxel_index(x, y, z), d);
}

/// Whether every word of `words` is a valid face record of a voxel of one
/// cell.
pub open spec fn all_records_valid(words: Seq<u32>) -> bool {
    forall|k: int|
        0 <= k < words.len() ==> record_valid(#[trigger] words[k]) && record_index(words[k])
            < CELL_SIZE
}

proof fn lemma_dir_faces_valid(voxels: Seq<usize>, reg: Seq<Voxel>, e: int, n: int)
    requires
        voxels.len() == CELL_SIZE,
        registry_ok(reg),
        ids_registered(voxels, reg),
        0 <= n <= CELL_SIZE,
        0 <= e < 6,
    ensures
        all_records_valid(dir_faces(voxels, reg, e, n)),
    decreases n,
{
    if n > 0 {
        lemma_dir_faces_valid(voxels, reg, e, n - 1);
        if visible_at(voxels, reg, n - 1, e) {
            lemma_index_coords(n - 1);
            let id = voxels[n - 1];
            assert(reg[id as int].well_formed());
            let model = reg[id as int].model.unwrap();
            assert(model.0[e].tex_id < 8);
            lemma_face_word_fields((n - 1) as u32, e as u32, tex_at(voxels, reg, n - 1, e) as u32);
        }
    }
}

proof fn lemma_faces_upto_valid(voxels: Seq<usize>, reg: Seq<Voxel>, k: int)
    requires
        voxels.len() == CELL_SIZE,
        registry_ok(reg),
        ids_registered(voxels, reg),
        0 <= k <= 6,
    ensures
        all_records_valid(faces_upto(voxels, reg, k)),
    decreases k,
{
    if k > 0 {
        lemma_faces_upto_valid(voxels, reg, k - 1);
        lemma_dir_faces_valid(voxels, reg, k - 1, CELL_SIZE as int);
        let a = faces_upto(voxels, reg, k - 1);
        let b = dir_faces(voxels, reg, k - 1, CELL_SIZE as int);
        assert forall|j: int| 0 <= j < (a + b).len() implies record_valid(#[trigger] (a + b)[j])
            && record_index((a + b)[j]) < CELL_SIZE by {
            if j < a.len() {
                assert((a + b)[j] == a[j]);
            } else {
                assert((a + b)[j] == b[j - a.len()]);
            }
        }
    }
}

/// Every word of a cell's mesh is a valid face record: a direction below
/// six, nothing above the texture field, and the index of a voxel of the
/// cell.
pub proof fn lemma_mesh_records_valid(voxels: Seq<usize>, reg: Seq<Voxel>)
    requires
        voxels.len() == CELL_SIZE,
        registry_ok(reg),
        ids_registered(voxels, reg),
    ensures
        all_records_valid(cell_faces(voxels, reg)),
{
    lemma_faces_upto_valid(voxels, reg, 6);
}

/// Meshing is deterministic: two meshes of the same cell contents hold the
/// same records in the same order, and the same vertex count.
pub proof fn lemma_mesh_stable(voxels: Seq<usize>, reg: Seq<Voxel>, a: CellMesh, b: CellMesh)
    requires
        a.meshes(voxels, reg),
        b.meshes(voxels, reg),
    ensures
        a.faces@ == b.faces@,
        a.vertex_count == b.vertex_count,
        le_bytes(a.vertex_count) == le_bytes(b.vertex_count),
{
}

} // verus!

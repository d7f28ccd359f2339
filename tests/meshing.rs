use raxel::face::FaceRecord;
use raxel::mesh::{mesh_cell, CellMesh};
use raxel::voxel::{Norm, Voxel, VoxelModel, VoxelRegistry};
use raxel::world::{Cell, CellPos, CELL_SIZE};

fn registry() -> (VoxelRegistry, usize, usize, usize) {
    let mut reg = VoxelRegistry::new();
    let air = reg.register(Voxel { model: None });
    let dirt = reg.register(Voxel { model: Some(VoxelModel::all(0)) });
    let grass = reg.register(Voxel { model: Some(VoxelModel::top_bottom(0, 2, 3)) });
    (reg, air, dirt, grass)
}

fn faces_of(mesh: &CellMesh, x: u8, y: u8, z: u8) -> Vec<FaceRecord> {
    let idx = Cell::encode(x, y, z) as u16;
    mesh.faces
        .iter()
        .map(|w| FaceRecord::unpack(*w).expect("valid record"))
        .filter(|f| f.index == idx)
        .collect()
}

fn filled_cell(id: usize) -> Cell {
    let mut cell = Cell::new(CellPos::new(0, 0, 0));
    for x in 0..32u8 {
        for y in 0..32u8 {
            for z in 0..32u8 {
                cell.set(x, y, z, id);
            }
        }
    }
    cell
}

#[test]
fn full_cell_emits_only_boundary_faces() {
    let (reg, _air, dirt, _grass) = registry();
    let cell = filled_cell(dirt);
    let mesh = mesh_cell(&cell, &reg);
    assert_eq!(mesh.faces.len(), 6 * 32 * 32);
    assert_eq!(mesh.vertex_count, 6 * 6 * 32 * 32);
    assert_eq!(faces_of(&mesh, 0, 0, 0).len(), 3);
    assert_eq!(faces_of(&mesh, 31, 31, 31).len(), 3);
    assert_eq!(faces_of(&mesh, 0, 0, 5).len(), 2);
    assert_eq!(faces_of(&mesh, 0, 5, 5).len(), 1);
    assert_eq!(faces_of(&mesh, 5, 5, 5).len(), 0);
    let corner: Vec<Norm> = faces_of(&mesh, 0, 0, 0).iter().map(|f| f.norm).collect();
    assert_eq!(corner, vec![Norm::NORTH, Norm::WEST, Norm::DOWN]);
}

#[test]
fn air_cell_has_no_vertices() {
    let (reg, air, _dirt, _grass) = registry();
    let cell = filled_cell(air);
    let mesh = mesh_cell(&cell, &reg);
    assert!(mesh.faces.is_empty());
    assert_eq!(mesh.vertex_count, 0);
    assert_eq!(mesh.vertex_count_bytes(), [0, 0, 0, 0]);
}

#[test]
fn lone_voxel_shows_six_faces_in_direction_order() {
    let (reg, _air, dirt, _grass) = registry();
    let mut cell = Cell::new(CellPos::new(1, 2, 3));
    cell.set(4, 5, 6, dirt);
    let mesh = mesh_cell(&cell, &reg);
    assert_eq!(mesh.faces.len(), 6);
    assert_eq!(mesh.vertex_count, 36);
    let idx = Cell::encode(4, 5, 6) as u32;
    let expected: Vec<u32> = (0..6u32).map(|d| idx | (d << 15)).collect();
    assert_eq!(mesh.faces, expected);
}

#[test]
fn neighbors_hide_shared_faces() {
    let (reg, _air, dirt, _grass) = registry();
    let mut cell = Cell::new(CellPos::new(0, 0, 0));
    cell.set(4, 5, 6, dirt);
    cell.set(5, 5, 6, dirt);
    let mesh = mesh_cell(&cell, &reg);
    assert_eq!(mesh.faces.len(), 10);
    let left: Vec<Norm> = faces_of(&mesh, 4, 5, 6).iter().map(|f| f.norm).collect();
    assert_eq!(left, vec![Norm::NORTH, Norm::WEST, Norm::DOWN, Norm::SOUTH, Norm::UP]);
    let right: Vec<Norm> = faces_of(&mesh, 5, 5, 6).iter().map(|f| f.norm).collect();
    assert_eq!(right, vec![Norm::NORTH, Norm::DOWN, Norm::SOUTH, Norm::EAST, Norm::UP]);
}

#[test]
fn records_carry_each_face_texture() {
    let (reg, _air, _dirt, grass) = registry();
    let mut cell = Cell::new(CellPos::new(0, 0, 0));
    cell.set(0, 0, 0, grass);
    let mesh = mesh_cell(&cell, &reg);
    let tex: Vec<u8> = faces_of(&mesh, 0, 0, 0).iter().map(|f| f.tex_id).collect();
    assert_eq!(tex, vec![3, 3, 0, 3, 3, 2]);
}

#[test]
fn records_are_grouped_by_direction_then_index() {
    let (reg, _air, dirt, _grass) = registry();
    let mut cell = Cell::new(CellPos::new(0, 0, 0));
    cell.set(9, 0, 0, dirt);
    cell.set(1, 3, 0, dirt);
    let mesh = mesh_cell(&cell, &reg);
    let order: Vec<(u8, u16)> = mesh
        .faces
        .iter()
        .map(|w| FaceRecord::unpack(*w).unwrap())
        .map(|f| (f.norm.index(), f.index))
        .collect();
    let mut sorted = order.clone();
    sorted.sort();
    assert_eq!(order, sorted);
    assert_eq!(order.len(), 12);
}

#[test]
fn meshing_twice_gives_identical_bytes() {
    let (reg, _air, dirt, grass) = registry();
    let mut cell = Cell::new(CellPos::new(0, 0, 0));
    for x in 0..32u8 {
        for z in 0..32u8 {
            let h = (x + z) % 32;
            for y in 0..h {
                cell.set(x, y, z, if y + 1 == h { grass } else { dirt });
            }
        }
    }
    let a = mesh_cell(&cell, &reg);
    let b = mesh_cell(&cell, &reg);
    assert_eq!(a.geometry_bytes(), b.geometry_bytes());
    assert_eq!(a.vertex_count_bytes(), b.vertex_count_bytes());
    assert_eq!(a.vertex_count as usize, 6 * a.faces.len());
}

#[test]
fn geometry_bytes_are_the_records_in_memory_order() {
    let (reg, _air, dirt, _grass) = registry();
    let mut cell = Cell::new(CellPos::new(0, 0, 0));
    cell.set(1, 1, 1, dirt);
    let mesh = mesh_cell(&cell, &reg);
    let bytes = mesh.geometry_bytes();
    assert_eq!(bytes.len(), 4 * mesh.faces.len());
    for (k, w) in mesh.faces.iter().enumerate() {
        assert_eq!(&bytes[4 * k..4 * k + 4], &w.to_ne_bytes());
    }
    assert_ne!(&bytes[4..8], &[0u8, 0, 0, 0]);
}

#[test]
fn vertex_count_bytes_are_little_endian() {
    let (reg, _air, dirt, _grass) = registry();
    let cell = filled_cell(dirt);
    let mesh = mesh_cell(&cell, &reg);
    assert_eq!(mesh.vertex_count_bytes(), 36864u32.to_le_bytes());
}

#[test]
fn cell_size_matches_grid() {
    assert_eq!(CELL_SIZE, 32 * 32 * 32);
    assert_eq!(Cell::encode(31, 31, 31), CELL_SIZE - 1);
    assert_eq!(Cell::encode(1, 2, 3), 1024 + 64 + 3);
}

#[test]
fn air_cell_takes_no_draw_slot() {
    let (reg, air, dirt, _grass) = registry();
    let empty = filled_cell(air);
    let mut solid = Cell::new(CellPos::new(0, 0, 1));
    solid.set(3, 3, 3, dirt);
    assert_eq!(solid.get(3, 3, 3), dirt);
    assert_eq!(solid.get(3, 3, 4), air);
    let counts = vec![
        mesh_cell(&empty, &reg).vertex_count,
        mesh_cell(&solid, &reg).vertex_count,
        mesh_cell(&empty, &reg).vertex_count,
    ];
    let commands = raxel::render::generate_draw_commands(&counts);
    assert_eq!(commands.count, 1);
    assert_eq!(commands.args[0].vertex_count, 36);
    assert_eq!(commands.args[0].first_vertex, raxel::render::BLOCK_VERTICES);
}

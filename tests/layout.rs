use raxel::block_buffer::{BlockBuffer, BlockError};
use raxel::face::FaceRecord;
use raxel::render::{
    accepts_resize, generate_draw_commands, prepare_cell_upload, DrawArgs, UploadError,
    BLOCK_VERTICES,
};
use raxel::resource::{TextureError, TextureSet};
use raxel::voxel::{Norm, Voxel, VoxelModel, VoxelRegistry};
use raxel::world::{Cell, World, WorldError, CELL_BUFFER_SIZE, WORLD_SIZE};

#[test]
fn blocks_are_consecutive_ranges() {
    let b = BlockBuffer::new(16, 4);
    assert_eq!(b.size(), 64);
    assert_eq!(b.block_range(0), (0, 16));
    assert_eq!(b.block_range(3), (48, 64));
    assert_eq!(b.write_to_block(2, &[1, 2, 3]), Ok(32));
    assert_eq!(b.write_to_block(3, &[0u8; 16]), Ok(48));
}

#[test]
fn block_writes_are_checked() {
    let b = BlockBuffer::new(16, 4);
    assert_eq!(b.write_to_block(4, &[1]), Err(BlockError::NoSuchBlock));
    assert_eq!(b.write_to_block(1, &[0u8; 17]), Err(BlockError::Overrun));
}

#[test]
fn block_write_stays_inside_its_block() {
    let b = BlockBuffer::new(8, 3);
    let mut mem = vec![0xaau8; 24];
    let data = [1u8, 2, 3, 4, 5, 6, 7, 8];
    let off = b.write_to_block(1, &data).unwrap() as usize;
    mem[off..off + data.len()].copy_from_slice(&data);
    assert_eq!(&mem[0..8], &[0xaa; 8]);
    assert_eq!(&mem[8..16], &data);
    assert_eq!(&mem[16..24], &[0xaa; 8]);
}

#[test]
fn draw_commands_skip_empty_cells() {
    let counts = [0u32, 36, 0, 0, 12];
    let c = generate_draw_commands(&counts);
    assert_eq!(c.count, 2);
    assert_eq!(
        c.args,
        vec![
            DrawArgs { vertex_count: 36, instance_count: 1, first_vertex: BLOCK_VERTICES, first_instance: 0 },
            DrawArgs { vertex_count: 12, instance_count: 1, first_vertex: 4 * BLOCK_VERTICES, first_instance: 0 },
        ]
    );
}

#[test]
fn draw_count_of_all_air_world_is_zero() {
    let counts = vec![0u32; WORLD_SIZE];
    let c = generate_draw_commands(&counts);
    assert_eq!(c.count, 0);
    assert!(c.args.is_empty());
}

#[test]
fn draw_count_never_exceeds_cells() {
    let counts: Vec<u32> = (0..WORLD_SIZE as u32).map(|i| if i % 3 == 0 { 0 } else { 6 * i }).collect();
    let c = generate_draw_commands(&counts);
    assert!(c.count as usize <= WORLD_SIZE);
    assert_eq!(c.count as usize, counts.iter().filter(|v| **v > 0).count());
    assert_eq!(c.args.last().unwrap().first_vertex, 511 * BLOCK_VERTICES);
}

#[test]
fn resize_ignores_zero_area() {
    assert!(!accepts_resize(0, 600));
    assert!(!accepts_resize(800, 0));
    assert!(accepts_resize(800, 600));
}

#[test]
fn face_record_round_trip() {
    let f = FaceRecord { index: 5, norm: Norm::EAST, tex_id: 3 };
    let w = f.pack();
    assert_eq!(w, 5 | (4 << 15) | (3 << 18));
    assert_eq!(FaceRecord::unpack(w), Some(f));
    assert_eq!(FaceRecord::unpack(w).unwrap().pack(), w);
    assert_eq!(FaceRecord::unpack(6 << 15), None);
    assert_eq!(FaceRecord::unpack(1 << 21), None);
}

#[test]
fn texture_set_stops_at_limit() {
    let mut set: TextureSet<u32> = TextureSet::new();
    for i in 0..8u8 {
        assert_eq!(set.add_texture(i as u32), Ok(i));
    }
    assert_eq!(set.add_texture(99), Err(TextureError::Full));
    assert_eq!(set.len(), 8);
    assert_eq!(set.images()[7], 7);
}

#[test]
fn models_and_registry() {
    let m = VoxelModel::top_bottom(1, 2, 3);
    assert!(m.textures_fit());
    assert_eq!(m.0[2].tex_id, 1);
    assert_eq!(m.0[5].tex_id, 2);
    assert_eq!(m.0[0].norm, Norm::NORTH);
    assert!(!VoxelModel::all(8).textures_fit());
    let mut reg = VoxelRegistry::new();
    assert_eq!(reg.register(Voxel { model: None }), 0);
    assert_eq!(reg.register(Voxel { model: Some(m) }), 1);
    assert_eq!(reg.len(), 2);
    assert!(!reg.is_opaque(0));
    assert!(reg.is_opaque(1));
}

fn world_cells() -> Vec<Cell> {
    (0..WORLD_SIZE).map(|i| Cell::new(World::cell_pos(i))).collect()
}

#[test]
fn world_checks_its_cells() {
    assert_eq!(World::cell_pos(77), raxel::world::CellPos::new(1, 1, 5));
    assert_eq!(World::encode(1, 1, 5), 77);
    let mut cells = world_cells();
    cells.pop();
    assert_eq!(World::new(cells).err(), Some(WorldError::CellCount));
    let mut cells = world_cells();
    cells.swap(3, 4);
    assert_eq!(World::new(cells).err(), Some(WorldError::MisplacedCell(3)));
    let world = World::new(world_cells()).unwrap();
    assert_eq!(world.cell(77).pos(), World::cell_pos(77));
}

#[test]
fn cell_upload_places_both_writes() {
    let mut reg = VoxelRegistry::new();
    let _air = reg.register(Voxel { model: None });
    let dirt = reg.register(Voxel { model: Some(VoxelModel::all(0)) });
    let mut cells = world_cells();
    cells[9].set(0, 0, 0, dirt);
    cells[10].set(0, 0, 0, 7);
    let world = World::new(cells).unwrap();
    let faces = BlockBuffer::new(CELL_BUFFER_SIZE as usize, WORLD_SIZE);
    let counts = BlockBuffer::new(4, WORLD_SIZE);
    let u = prepare_cell_upload(&faces, &counts, &world, &reg, 9).unwrap();
    assert_eq!(u.mesh.faces.len(), 6);
    assert_eq!(u.mesh.vertex_count, 36);
    assert_eq!(u.geometry_offset, 9 * CELL_BUFFER_SIZE);
    assert_eq!(u.count_offset, 36);
    assert_eq!(
        prepare_cell_upload(&faces, &counts, &world, &reg, 10).err().map(|e| e == UploadError::UnknownVoxel),
        Some(true)
    );
    let small = BlockBuffer::new(8, WORLD_SIZE);
    assert_eq!(
        prepare_cell_upload(&small, &counts, &world, &reg, 9).err().map(|e| e == UploadError::Block(BlockError::Overrun)),
        Some(true)
    );
}

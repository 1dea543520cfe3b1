use voxel_world::chunk::{ChunkBuffer, ChunkShape, Extent, UVec3, CHUNK_HEIGHT, CHUNK_LENGTH, CHUNK_VOLUME};
use voxel_world::voxel::Voxel;

#[test]
fn shape_size_is_the_volume() {
    let shape = ChunkShape {};
    assert_eq!(shape.size(), 16 * 256 * 16);
    assert_eq!(CHUNK_VOLUME, CHUNK_LENGTH * CHUNK_HEIGHT * CHUNK_LENGTH);
}

#[test]
fn linearize_formula_samples() {
    let shape = ChunkShape {};
    assert_eq!(shape.linearize(UVec3::new(0, 0, 0)), 0);
    assert_eq!(shape.linearize(UVec3::new(1, 0, 0)), 1);
    assert_eq!(shape.linearize(UVec3::new(0, 1, 0)), 16);
    assert_eq!(shape.linearize(UVec3::new(0, 0, 1)), 4096);
    assert_eq!(shape.linearize(UVec3::new(1, 2, 3)), 1 + 16 * (2 + 256 * 3));
    assert_eq!(shape.linearize(UVec3::new(15, 255, 15)), 65535);
}

#[test]
fn bijection_round_trip_everywhere() {
    // delinearize(linearize(coord)) == coord over the whole coordinate box,
    // and linearize(delinearize(index)) == index over the whole index range.
    let shape = ChunkShape {};
    for z in 0..16u32 {
        for y in 0..256u32 {
            for x in 0..16u32 {
                let p = UVec3::new(x, y, z);
                let i = shape.linearize(p);
                assert!(i < 16 * 256 * 16);
                assert_eq!(shape.delinearize(i), p);
            }
        }
    }
    for i in 0..(16 * 256 * 16u32) {
        let p = shape.delinearize(i);
        assert_eq!(shape.linearize(p), i);
    }
}

#[test]
fn new_fills_with_initial_voxel() {
    let chunk = ChunkBuffer::new(Voxel::from_block_id(7));
    let cells = chunk.slice();
    assert_eq!(cells.len(), 65536);
    for v in cells.iter() {
        assert_eq!(v.block_id, 7);
    }
}

#[test]
fn new_empty_is_all_empty() {
    let chunk = ChunkBuffer::new_empty();
    let cells = chunk.slice();
    assert_eq!(cells.len(), 65536);
    for v in cells.iter() {
        assert_eq!(*v, Voxel::empty());
    }
}

#[test]
fn fill_extent_bottom_layer() {
    // Filling extent min=(0,0,0), size=(16,1,16) of an empty buffer with id 2
    // sets the whole bottom layer and nothing above it.
    let mut chunk = ChunkBuffer::new_empty();
    chunk.fill_extent(
        Extent::from_min_and_shape(UVec3::new(0, 0, 0), UVec3::new(16, 1, 16)),
        Voxel::from_block_id(2),
    );
    for z in 0..16u32 {
        for x in 0..16u32 {
            assert_eq!(chunk.voxel_at(UVec3::new(x, 0, z)).block_id, 2);
            assert_eq!(chunk.voxel_at(UVec3::new(x, 1, z)).block_id, 0);
        }
    }
}

#[test]
fn fill_extent_partial_offset_box() {
    let mut chunk = ChunkBuffer::new(Voxel::from_block_id(9));
    chunk.fill_extent(
        Extent::from_min_and_shape(UVec3::new(2, 3, 4), UVec3::new(2, 1, 3)),
        Voxel::from_block_id(5),
    );
    for z in 0..16u32 {
        for y in 0..8u32 {
            for x in 0..16u32 {
                let inside = (2..4).contains(&x) && y == 3 && (4..7).contains(&z);
                let expect = if inside { 5 } else { 9 };
                assert_eq!(chunk.voxel_at(UVec3::new(x, y, z)).block_id, expect);
            }
        }
    }
}

#[test]
fn slice_matches_voxel_at() {
    let mut chunk = ChunkBuffer::new_empty();
    chunk.fill_extent(
        Extent::from_min_and_shape(UVec3::new(1, 2, 3), UVec3::new(1, 1, 1)),
        Voxel::from_block_id(4),
    );
    let shape = ChunkShape {};
    let cells = chunk.slice();
    for z in 0..16u32 {
        for x in 0..16u32 {
            let p = UVec3::new(x, 7, z);
            assert_eq!(cells[shape.linearize(p) as usize], *chunk.voxel_at(p));
        }
    }
    let hit = shape.linearize(UVec3::new(1, 2, 3)) as usize;
    assert_eq!(cells[hit].block_id, 4);
}

#[test]
fn occupied_cells_after_layer_fill() {
    let mut chunk = ChunkBuffer::new_empty();
    chunk.fill_extent(
        Extent::from_min_and_shape(UVec3::new(0, 0, 0), UVec3::new(16, 1, 16)),
        Voxel::from_block_id(2),
    );
    let occupied = chunk.occupied_cells();
    assert_eq!(occupied.len(), 16 * 16);
    for (p, v) in occupied.iter() {
        assert_eq!(p.y, 0);
        assert_eq!(v.block_id, 2);
        assert_eq!(*chunk.voxel_at(*p), *v);
    }
}

#[test]
fn occupied_cells_of_empty_chunk_is_empty() {
    let chunk = ChunkBuffer::new_empty();
    assert!(chunk.occupied_cells().is_empty());
}

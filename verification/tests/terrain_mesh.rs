//! The voxel pipeline: face culling, neighbour occlusion, the atlas UV
//! formula, and the boundary rule.

use forte_cubes::fixed::{Fixed, FP_ONE};
use forte_cubes::terrain::blocks::{BlockDef, BlockDefs, BlockRenderer, NoCustom};
use forte_cubes::terrain::chunk::{Chunk, BOUNDARY_MATERIAL, CHUNK_SIZE};
use forte_cubes::terrain::lookup::{Face, Vertex};

fn fx(v: f64) -> Fixed {
    Fixed { raw: (v * 4294967296.0).round() as i64 }
}

fn defs() -> BlockDefs {
    BlockDefs::new(vec![
        BlockDef { material: 0, transparent: true, renderer: BlockRenderer::Empty },
        BlockDef { material: 1, transparent: true, renderer: BlockRenderer::Empty },
        BlockDef { material: 2, transparent: false, renderer: BlockRenderer::Standard(0, 1, 0, 0, 0, 0) },
    ])
}

#[test]
fn chunk_size_is_sixteen() {
    assert_eq!(CHUNK_SIZE, 16);
    assert_eq!(BOUNDARY_MATERIAL, 1);
}

#[test]
fn empty_chunk_meshes_to_nothing() {
    let mut chunk = Chunk::empty(7);
    assert_eq!(chunk.id, 7);
    assert!(chunk.handle().is_none());
    assert!(chunk.try_gen_mesh(&defs(), &NoCustom, (256, 256)));
    assert_eq!(chunk.handle().unwrap().len(), 0);
}

#[test]
fn single_voxel_emits_exactly_six_faces() {
    let mut chunk = Chunk::empty(0);
    chunk.set((0, 0, 0), 2, 0);
    assert!(chunk.try_gen_mesh(&defs(), &NoCustom, (256, 256)));
    // 6 faces of 2 triangles each: 36 vertices for the one voxel, zero for
    // every air cell.
    assert_eq!(chunk.handle().unwrap().len(), 36);
}

#[test]
fn set_then_get_roundtrips() {
    let mut chunk = Chunk::empty(0);
    chunk.set((3, 4, 5), 2, 7);
    assert_eq!(chunk.get((3, 4, 5)), 2);
    assert_eq!(chunk.get((5, 4, 3)), 0);
}

fn is_fx(v: Fixed, x: f64) -> bool {
    v == fx(x)
}

#[test]
fn adjacent_voxels_cull_their_shared_face() {
    let mut chunk = Chunk::empty(0);
    chunk.set((0, 0, 0), 2, 0);
    chunk.set((1, 0, 0), 2, 0);
    assert!(chunk.try_gen_mesh(&defs(), &NoCustom, (256, 256)));
    let mesh = chunk.handle().unwrap();
    // Each voxel shows 5 of its 6 faces.
    assert_eq!(mesh.len(), 60);
    // The shared plane x == 1 carries no face: no east-facing vertex of the
    // first voxel, no west-facing vertex of the second.
    for v in mesh.iter() {
        let east_facing = is_fx(v.normal.x, 1.0);
        let west_facing = is_fx(v.normal.x, -1.0);
        if is_fx(v.position.x, 1.0) {
            assert!(!east_facing && !west_facing, "face on the shared plane: {v:?}");
        }
    }
}

#[test]
fn atlas_uv_offsets_tile_three_without_row_wrap() {
    // Atlas 256 px wide, tile index 3, 16 px tiles: horizontal offset
    // 3 * 16/256 = 0.1875, row 0, col 0.1875.
    let air = BlockDef { material: 0, transparent: true, renderer: BlockRenderer::Empty };
    let renderer = BlockRenderer::Standard(3, 3, 3, 3, 3, 3);
    let verts = renderer.render(
        &NoCustom,
        2,
        forte_cubes::geom::Vec3 { x: fx(0.0), y: fx(0.0), z: fx(0.0) },
        (256, 256),
        &air,
        &air,
        &air,
        &air,
        &air,
        &air,
    );
    assert_eq!(verts.len(), 36);
    // First vertex of the top face has local UV (0, 0): it lands exactly on
    // (0.1875, 0).
    assert_eq!(verts[0].tex_coords.x.raw, 805306368);
    assert_eq!(verts[0].tex_coords.y.raw, 0);
    // The top face's (1, 1) corner lands on (0.1875 + 0.0625, 0.0625).
    assert_eq!(verts[4].tex_coords.x.raw, 1073741824);
    assert_eq!(verts[4].tex_coords.y.raw, 268435456);
}

#[test]
fn boundary_lookup_resolves_to_material_one() {
    let mut chunk = Chunk::empty(0);
    chunk.set((0, 0, 0), 2, 0);
    // A west lookup from the grid edge resolves to the boundary material,
    // it does not wrap or fail.
    assert_eq!(chunk.neighbor_id((0, 0, 0), Face::West), 1);
    assert_eq!(chunk.neighbor_id((15, 15, 15), Face::East), 1);
    assert_eq!(chunk.neighbor_id((0, 0, 0), Face::East), 0);

    // Material 1 is transparent here, so the west face at the edge is drawn.
    assert!(chunk.try_gen_mesh(&defs(), &NoCustom, (256, 256)));
    let mesh = chunk.handle().unwrap();
    let west_faces: Vec<&Vertex> = mesh.iter().filter(|v| is_fx(v.normal.x, -1.0)).collect();
    assert_eq!(west_faces.len(), 6);
}

#[test]
fn opaque_boundary_definition_culls_edge_faces() {
    // If the boundary material is opaque, a block at the corner keeps only
    // the faces toward in-grid transparent air.
    let d = BlockDefs::new(vec![
        BlockDef { material: 0, transparent: true, renderer: BlockRenderer::Empty },
        BlockDef { material: 1, transparent: false, renderer: BlockRenderer::Empty },
        BlockDef { material: 2, transparent: false, renderer: BlockRenderer::Standard(0, 0, 0, 0, 0, 0) },
    ]);
    let mut chunk = Chunk::empty(0);
    chunk.set((0, 0, 0), 2, 0);
    assert!(chunk.try_gen_mesh(&d, &NoCustom, (256, 256)));
    // Below, south and west face the boundary: culled. Above, north, east
    // face air: drawn.
    assert_eq!(chunk.handle().unwrap().len(), 18);
}

#[test]
fn mesh_generation_validates_material_ids() {
    let mut chunk = Chunk::empty(0);
    chunk.set((2, 2, 2), 9, 0);
    assert!(!chunk.try_gen_mesh(&defs(), &NoCustom, (256, 256)));
    assert!(chunk.handle().is_none());

    let mut ok_chunk = Chunk::empty(0);
    assert!(!ok_chunk.try_gen_mesh(&defs(), &NoCustom, (0, 256)));
    assert!(ok_chunk.try_gen_mesh(&defs(), &NoCustom, (256, 256)));
}

#[test]
fn block_entity_and_empty_render_nothing() {
    let d = BlockDefs::new(vec![
        BlockDef { material: 0, transparent: true, renderer: BlockRenderer::Empty },
        BlockDef { material: 1, transparent: true, renderer: BlockRenderer::Empty },
        BlockDef { material: 2, transparent: false, renderer: BlockRenderer::BlockEntity },
    ]);
    let mut chunk = Chunk::empty(0);
    chunk.set((4, 4, 4), 2, 0);
    assert!(chunk.try_gen_mesh(&d, &NoCustom, (256, 256)));
    assert_eq!(chunk.handle().unwrap().len(), 0);
}

#[test]
fn enclosed_transparent_block_renders_no_faces() {
    // A transparent standard block walled in by six opaque blocks emits
    // nothing itself, while each wall block still shows all six of its own
    // faces (its neighbours are the transparent centre and air).
    let d = BlockDefs::new(vec![
        BlockDef { material: 0, transparent: true, renderer: BlockRenderer::Empty },
        BlockDef { material: 1, transparent: true, renderer: BlockRenderer::Empty },
        BlockDef { material: 2, transparent: false, renderer: BlockRenderer::Standard(0, 1, 0, 0, 0, 0) },
        BlockDef { material: 3, transparent: true, renderer: BlockRenderer::Standard(2, 2, 2, 2, 2, 2) },
    ]);
    let mut chunk = Chunk::empty(0);
    chunk.set((8, 8, 8), 3, 0);
    chunk.set((8, 9, 8), 2, 0);
    chunk.set((8, 7, 8), 2, 0);
    chunk.set((8, 8, 9), 2, 0);
    chunk.set((8, 8, 7), 2, 0);
    chunk.set((9, 8, 8), 2, 0);
    chunk.set((7, 8, 8), 2, 0);
    assert!(chunk.try_gen_mesh(&d, &NoCustom, (256, 256)));
    assert_eq!(chunk.handle().unwrap().len(), 6 * 36);
}

#[test]
fn faces_are_translated_to_the_voxel_position() {
    let mut chunk = Chunk::empty(0);
    chunk.set((5, 6, 7), 2, 0);
    assert!(chunk.try_gen_mesh(&defs(), &NoCustom, (256, 256)));
    let mesh = chunk.handle().unwrap();
    assert_eq!(mesh.len(), 36);
    for v in mesh.iter() {
        let x = v.position.x.raw;
        let y = v.position.y.raw;
        let z = v.position.z.raw;
        assert!(x == 5 * FP_ONE || x == 6 * FP_ONE);
        assert!(y == 6 * FP_ONE || y == 7 * FP_ONE);
        assert!(z == 7 * FP_ONE || z == 8 * FP_ONE);
    }
}

#[test]
fn full_grid_shows_only_its_shell() {
    let mut chunk = Chunk::empty(1);
    for x in 0..16 {
        for y in 0..16 {
            for z in 0..16 {
                chunk.set((x, y, z), 2, 0);
            }
        }
    }
    assert!(chunk.try_gen_mesh(&defs(), &NoCustom, (256, 256)));
    // Only the 6 outer 16x16 sides remain: 6 * 256 faces * 6 vertices.
    assert_eq!(chunk.handle().unwrap().len(), 9216);
}

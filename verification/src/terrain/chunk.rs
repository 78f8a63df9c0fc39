//! Fixed-size voxel chunks and the chunk mesher.
//!
//! A chunk is a dense 16x16x16 grid of `(material id, metadata)` cells with
//! a world transform and an optional generated mesh. Meshing walks every
//! cell in a fixed order (x outermost, then y, then z), looks up the cell's
//! definition and its six neighbours (a lookup past the grid edge resolves
//! to material id 1, the "outside is transparent" boundary material), and
//! appends the faces the culler emits; the mesh is rebuilt wholesale, never
//! patched.

use vstd::prelude::*;

use crate::fixed::Fixed;
use crate::geom::{Transform, Vec3};
use crate::terrain::blocks::{spec_face_segment, BlockDef, BlockDefs, BlockRenderer, CustomRender};
use crate::terrain::lookup::{Face, Vertex};

verus! {

/// Cells per chunk edge.
pub const CHUNK_SIZE: usize = 16;

/// The material id a neighbour lookup past the grid edge resolves to.
pub const BOUNDARY_MATERIAL: u16 = 1;

/// The linear index of cell `(x, y, z)`: x outermost, z innermost.
pub open spec fn spec_lin(x: int, y: int, z: int) -> int {
    x * 256 + y * 16 + z
}

/// A fixed 16x16x16 voxel grid with identifier, world placement, and the
/// mesh generated from it, if any.
#[derive(Debug)]
pub struct Chunk {
    pub id: u32,
    pub transform: Transform,
    data: Vec<(u16, u16)>,
    handle: Option<Vec<Vertex>>,
}

/// The coordinates of the neighbour one step in direction `f`.
pub open spec fn spec_nb(x: int, y: int, z: int, f: Face) -> (int, int, int) {
    match f {
        Face::Above => (x, y + 1, z),
        Face::Below => (x, y - 1, z),
        Face::North => (x, y, z + 1),
        Face::South => (x, y, z - 1),
        Face::East => (x + 1, y, z),
        Face::West => (x - 1, y, z),
    }
}

/// The face of the neighbour that looks back at the cell.
pub open spec fn spec_opposite(f: Face) -> Face {
    match f {
        Face::Above => Face::Below,
        Face::Below => Face::Above,
        Face::North => Face::South,
        Face::South => Face::North,
        Face::East => Face::West,
        Face::West => Face::East,
    }
}

/// The material id of the neighbour of `(x, y, z)` in direction `f`: the
/// stored cell inside the grid, the boundary material past its edge.
pub open spec fn spec_neighbor_id(data: Seq<(u16, u16)>, x: int, y: int, z: int, f: Face) -> u16 {
    let (nx, ny, nz) = spec_nb(x, y, z, f);
    if 0 <= nx < 16 && 0 <= ny < 16 && 0 <= nz < 16 {
        data[spec_lin(nx, ny, nz)].0
    } else {
        BOUNDARY_MATERIAL
    }
}

/// Every stored material id indexes into the definition table, and the
/// boundary material id does too.
pub open spec fn spec_grid_valid(data: Seq<(u16, u16)>, defs: Seq<BlockDef>) -> bool {
    &&& (BOUNDARY_MATERIAL as int) < defs.len()
    &&& forall|i: int| 0 <= i < data.len() ==> (#[trigger] data[i]).0 < defs.len()
}

/// A grid position as a fixed-point translation vector.
pub open spec fn spec_pos_vec(x: int, y: int, z: int) -> Vec3 {
    Vec3 {
        x: Fixed::spec_from_int(x),
        y: Fixed::spec_from_int(y),
        z: Fixed::spec_from_int(z),
    }
}

/// What cell `(x, y, z)` contributes to the chunk mesh.
pub open spec fn spec_cell_verts<C: CustomRender>(
    data: Seq<(u16, u16)>,
    defs: Seq<BlockDef>,
    custom: C,
    x: int,
    y: int,
    z: int,
    tex_w: u32,
    tex_h: u32,
) -> Seq<Vertex> {
    let id = data[spec_lin(x, y, z)].0;
    BlockRenderer::spec_render(
        defs[id as int].renderer,
        custom,
        id,
        spec_pos_vec(x, y, z),
        tex_w,
        tex_h,
        defs[spec_neighbor_id(data, x, y, z, Face::Above) as int],
        defs[spec_neighbor_id(data, x, y, z, Face::Below) as int],
        defs[spec_neighbor_id(data, x, y, z, Face::North) as int],
        defs[spec_neighbor_id(data, x, y, z, Face::South) as int],
        defs[spec_neighbor_id(data, x, y, z, Face::East) as int],
        defs[spec_neighbor_id(data, x, y, z, Face::West) as int],
    )
}

/// The mesh of the first `n` cells in linear order.
pub open spec fn spec_mesh_prefix<C: CustomRender>(
    data: Seq<(u16, u16)>,
    defs: Seq<BlockDef>,
    custom: C,
    tex_w: u32,
    tex_h: u32,
    n: int,
) -> Seq<Vertex>
    decreases n,
{
    if n <= 0 {
        Seq::empty()
    } else {
        spec_mesh_prefix(data, defs, custom, tex_w, tex_h, n - 1) + spec_cell_verts(
            data,
            defs,
            custom,
            (n - 1) / 256,
            ((n - 1) / 16) % 16,
            (n - 1) % 16,
            tex_w,
            tex_h,
        )
    }
}

/// The whole chunk mesh: every cell's contribution, x outermost, z
/// innermost.
pub open spec fn spec_chunk_mesh<C: CustomRender>(
    data: Seq<(u16, u16)>,
    defs: Seq<BlockDef>,
    custom: C,
    tex_w: u32,
    tex_h: u32,
) -> Seq<Vertex> {
    spec_mesh_prefix(data, defs, custom, tex_w, tex_h, 4096)
}

/// A neighbour lookup that steps past the grid edge resolves to the
/// boundary material, never to a stored cell.
pub proof fn lemma_boundary_neighbor(data: Seq<(u16, u16)>, x: int, y: int, z: int, f: Face)
    requires
        ({
            let (nx, ny, nz) = spec_nb(x, y, z, f);
            !(0 <= nx < 16 && 0 <= ny < 16 && 0 <= nz < 16)
        }),
    ensures
        spec_neighbor_id(data, x, y, z, f) == BOUNDARY_MATERIAL,
{
}

/// Two adjacent voxels whose definitions are both opaque emit nothing for
/// the face they share, on either side: the face segment of each cell
/// toward the other is empty, whatever atlas tile it would have used.
pub proof fn lemma_neighbor_occlusion(
    data: Seq<(u16, u16)>,
    defs: Seq<BlockDef>,
    x: int,
    y: int,
    z: int,
    f: Face,
    ti: u16,
    ti_back: u16,
    tex_w: u32,
    tex_h: u32,
)
    requires
        data.len() == 4096,
        spec_grid_valid(data, defs),
        0 <= x < 16 && 0 <= y < 16 && 0 <= z < 16,
        ({
            let (nx, ny, nz) = spec_nb(x, y, z, f);
            0 <= nx < 16 && 0 <= ny < 16 && 0 <= nz < 16
        }),
        !defs[data[spec_lin(x, y, z)].0 as int].transparent,
        ({
            let (nx, ny, nz) = spec_nb(x, y, z, f);
            !defs[data[spec_lin(nx, ny, nz)].0 as int].transparent
        }),
    ensures
        ({
            let (nx, ny, nz) = spec_nb(x, y, z, f);
            &&& spec_neighbor_id(data, x, y, z, f) == data[spec_lin(nx, ny, nz)].0
            &&& spec_neighbor_id(data, nx, ny, nz, spec_opposite(f)) == data[spec_lin(x, y, z)].0
            &&& spec_face_segment(
                f,
                defs[spec_neighbor_id(data, x, y, z, f) as int],
                ti,
                tex_w,
                tex_h,
            ) == Seq::<Vertex>::empty()
            &&& spec_face_segment(
                spec_opposite(f),
                defs[spec_neighbor_id(data, nx, ny, nz, spec_opposite(f)) as int],
                ti_back,
                tex_w,
                tex_h,
            ) == Seq::<Vertex>::empty()
        }),
{
}

/// A cell whose definition renders nothing — air (`Empty`) or a deferred
/// block entity — contributes no vertices to the mesh, whatever its
/// neighbours hold.
pub proof fn lemma_air_cell_emits_nothing<C: CustomRender>(
    data: Seq<(u16, u16)>,
    defs: Seq<BlockDef>,
    custom: C,
    x: int,
    y: int,
    z: int,
    tex_w: u32,
    tex_h: u32,
)
    requires
        defs[data[spec_lin(x, y, z)].0 as int].renderer is Empty || defs[data[spec_lin(
            x,
            y,
            z,
        )].0 as int].renderer is BlockEntity,
    ensures
        spec_cell_verts(data, defs, custom, x, y, z, tex_w, tex_h) == Seq::<Vertex>::empty(),
{
}

/// A standard block whose six neighbours are all opaque emits no geometry
/// at all, whatever its own transparency: only the neighbours' transparency
/// gates face emission.
pub proof fn lemma_enclosed_cell_emits_nothing<C: CustomRender>(
    data: Seq<(u16, u16)>,
    defs: Seq<BlockDef>,
    custom: C,
    x: int,
    y: int,
    z: int,
    tex_w: u32,
    tex_h: u32,
)
    requires
        data.len() == 4096,
        spec_grid_valid(data, defs),
        0 <= x < 16 && 0 <= y < 16 && 0 <= z < 16,
        defs[data[spec_lin(x, y, z)].0 as int].renderer is Standard,
        forall|f: Face|
            !defs[#[trigger] spec_neighbor_id(data, x, y, z, f) as int].transparent,
    ensures
        spec_cell_verts(data, defs, custom, x, y, z, tex_w, tex_h) == Seq::<Vertex>::empty(),
{
    assert(!defs[spec_neighbor_id(data, x, y, z, Face::Above) as int].transparent);
    assert(!defs[spec_neighbor_id(data, x, y, z, Face::Below) as int].transparent);
    assert(!defs[spec_neighbor_id(data, x, y, z, Face::North) as int].transparent);
    assert(!defs[spec_neighbor_id(data, x, y, z, Face::South) as int].transparent);
    assert(!defs[spec_neighbor_id(data, x, y, z, Face::East) as int].transparent);
    assert(!defs[spec_neighbor_id(data, x, y, z, Face::West) as int].transparent);
    assert(spec_cell_verts(data, defs, custom, x, y, z, tex_w, tex_h) =~= Seq::<
        Vertex,
    >::empty());
}

impl Chunk {
    /// The chunk identifier.
    pub closed spec fn spec_id(&self) -> u32 {
        self.id
    }

    /// The world placement.
    pub closed spec fn spec_transform(&self) -> Transform {
        self.transform
    }

    /// The grid contents, cell by cell in linear order.
    pub closed spec fn spec_data(&self) -> Seq<(u16, u16)> {
        self.data@
    }

    /// The generated mesh, if one has been built.
    pub closed spec fn spec_handle(&self) -> Option<Seq<Vertex>> {
        match self.handle {
            Some(v) => Some(v@),
            None => None,
        }
    }

    /// The grid holds exactly one cell per position.
    pub open spec fn wf(&self) -> bool {
        self.spec_data().len() == 4096
    }

    /// The stored cell at `(x, y, z)`.
    pub open spec fn spec_cell(&self, x: int, y: int, z: int) -> (u16, u16) {
        self.spec_data()[spec_lin(x, y, z)]
    }

    /// A chunk with every cell set to material 0 with metadata 0, no mesh,
    /// and an identity transform.
    pub fn empty(id: u32) -> (r: Chunk)
        ensures
            r.wf(),
            r.spec_id() == id,
            r.spec_transform() == Transform::spec_identity(),
            r.spec_handle() is None,
            forall|i: int| 0 <= i < 4096 ==> r.spec_data()[i] == (0u16, 0u16),
    {
        let mut data: Vec<(u16, u16)> = Vec::with_capacity(4096);
        let mut i: usize = 0;
        while i < 4096
            invariant
                i <= 4096,
                data@.len() == i,
                forall|k: int| 0 <= k < i ==> data@[k] == (0u16, 0u16),
            decreases 4096 - i,
        {
            data.push((0, 0));
            i = i + 1;
        }
        Chunk { id, transform: Transform::identity(), data, handle: None }
    }

    /// A chunk over a caller-supplied grid, no mesh, identity transform.
    pub fn new(id: u32, data: Vec<(u16, u16)>) -> (r: Chunk)
        requires
            data@.len() == 4096,
        ensures
            r.wf(),
            r.spec_id() == id,
            r.spec_transform() == Transform::spec_identity(),
            r.spec_handle() is None,
            r.spec_data() == data@,
    {
        Chunk { id, transform: Transform::identity(), data, handle: None }
    }

    /// Stores a material id and metadata at a grid position. Coordinates
    /// are bounds-checked by contract: an out-of-range access is impossible
    /// rather than left undefined.
    pub fn set(&mut self, location: (usize, usize, usize), value: u16, data: u16)
        requires
            old(self).wf(),
            location.0 < CHUNK_SIZE,
            location.1 < CHUNK_SIZE,
            location.2 < CHUNK_SIZE,
        ensures
            final(self).wf(),
            final(self).spec_id() == old(self).spec_id(),
            final(self).spec_transform() == old(self).spec_transform(),
            final(self).spec_handle() == old(self).spec_handle(),
            final(self).spec_data() == old(self).spec_data().update(
                spec_lin(location.0 as int, location.1 as int, location.2 as int),
                (value, data),
            ),
    {
        let lin: usize = location.0 * 256 + location.1 * 16 + location.2;
        self.data.set(lin, (value, data));
    }

    /// The material id stored at a grid position.
    pub fn get(&self, location: (usize, usize, usize)) -> (r: u16)
        requires
            self.wf(),
            location.0 < CHUNK_SIZE,
            location.1 < CHUNK_SIZE,
            location.2 < CHUNK_SIZE,
        ensures
            r == self.spec_cell(location.0 as int, location.1 as int, location.2 as int).0,
    {
        let lin: usize = location.0 * 256 + location.1 * 16 + location.2;
        self.data[lin].0
    }

    /// The generated mesh, if `gen_mesh` has run.
    pub fn handle(&self) -> (r: Option<&Vec<Vertex>>)
        ensures
            match r {
                Some(v) => self.spec_handle() == Some(v@),
                None => self.spec_handle() is None,
            },
    {
        self.handle.as_ref()
    }

    /// The material id of the neighbour in direction `f`, resolving a step
    /// past the grid edge to the boundary material.
    pub fn neighbor_id(&self, location: (usize, usize, usize), f: Face) -> (r: u16)
        requires
            self.wf(),
            location.0 < CHUNK_SIZE,
            location.1 < CHUNK_SIZE,
            location.2 < CHUNK_SIZE,
        ensures
            r == spec_neighbor_id(
                self.spec_data(),
                location.0 as int,
                location.1 as int,
                location.2 as int,
                f,
            ),
    {
        let (x, y, z) = location;
        match f {
            Face::Above => if y + 1 < CHUNK_SIZE {
                self.get((x, y + 1, z))
            } else {
                BOUNDARY_MATERIAL
            },
            Face::Below => if y > 0 {
                self.get((x, y - 1, z))
            } else {
                BOUNDARY_MATERIAL
            },
            Face::North => if z + 1 < CHUNK_SIZE {
                self.get((x, y, z + 1))
            } else {
                BOUNDARY_MATERIAL
            },
            Face::South => if z > 0 {
                self.get((x, y, z - 1))
            } else {
                BOUNDARY_MATERIAL
            },
            Face::East => if x + 1 < CHUNK_SIZE {
                self.get((x + 1, y, z))
            } else {
                BOUNDARY_MATERIAL
            },
            Face::West => if x > 0 {
                self.get((x - 1, y, z))
            } else {
                BOUNDARY_MATERIAL
            },
        }
    }

    /// Appends what one cell contributes to the chunk mesh: its definition's
    /// render output under its six neighbour definitions.
    fn gen_cube<C: CustomRender>(
        &self,
        position: (usize, usize, usize),
        vertices: &mut Vec<Vertex>,
        defs: &BlockDefs,
        custom: &C,
        tex_size: (u32, u32),
    )
        requires
            self.wf(),
            spec_grid_valid(self.spec_data(), defs@),
            position.0 < CHUNK_SIZE,
            position.1 < CHUNK_SIZE,
            position.2 < CHUNK_SIZE,
            tex_size.0 > 0,
            tex_size.1 > 0,
        ensures
            final(vertices)@ == old(vertices)@ + spec_cell_verts(
                self.spec_data(),
                defs@,
                *custom,
                position.0 as int,
                position.1 as int,
                position.2 as int,
                tex_size.0,
                tex_size.1,
            ),
    {
        let current: u16 = self.get(position);
        let above: u16 = self.neighbor_id(position, Face::Above);
        let below: u16 = self.neighbor_id(position, Face::Below);
        let north: u16 = self.neighbor_id(position, Face::North);
        let south: u16 = self.neighbor_id(position, Face::South);
        let east: u16 = self.neighbor_id(position, Face::East);
        let west: u16 = self.neighbor_id(position, Face::West);
        let current_def = defs.def(current);
        let above_def = defs.def(above);
        let below_def = defs.def(below);
        let north_def = defs.def(north);
        let south_def = defs.def(south);
        let east_def = defs.def(east);
        let west_def = defs.def(west);
        let combined = Vec3 {
            x: Fixed::from_u32(position.0 as u32),
            y: Fixed::from_u32(position.1 as u32),
            z: Fixed::from_u32(position.2 as u32),
        };
        let mut vec = current_def.renderer.render(
            custom,
            current,
            combined,
            tex_size,
            above_def,
            below_def,
            north_def,
            south_def,
            east_def,
            west_def,
        );
        vertices.append(&mut vec);
    }

    /// (Re)builds the whole chunk mesh: every cell in linear order, each
    /// culled against its neighbours and textured from the atlas. The grid
    /// itself is untouched; the previous mesh is replaced wholesale.
    #[verifier::loop_isolation(false)]
    pub fn gen_mesh<C: CustomRender>(
        &mut self,
        defs: &BlockDefs,
        custom: &C,
        tex_size: (u32, u32),
    )
        requires
            old(self).wf(),
            spec_grid_valid(old(self).spec_data(), defs@),
            tex_size.0 > 0,
            tex_size.1 > 0,
        ensures
            final(self).wf(),
            final(self).spec_id() == old(self).spec_id(),
            final(self).spec_transform() == old(self).spec_transform(),
            final(self).spec_data() == old(self).spec_data(),
            final(self).spec_handle() == Some(
                spec_chunk_mesh(old(self).spec_data(), defs@, *custom, tex_size.0, tex_size.1),
            ),
    {
        let mut vertices: Vec<Vertex> = Vec::new();
        let mut i: usize = 0;
        while i < 4096
            invariant
                i <= 4096,
                vertices@ == spec_mesh_prefix(
                    self.spec_data(),
                    defs@,
                    *custom,
                    tex_size.0,
                    tex_size.1,
                    i as int,
                ),
            decreases 4096 - i,
        {
            let x: usize = i / 256;
            let y: usize = (i / 16) % 16;
            let z: usize = i % 16;
            self.gen_cube((x, y, z), &mut vertices, defs, custom, tex_size);
            i = i + 1;
        }
        self.handle = Some(vertices);
    }

    /// Builds the mesh only if none has been generated yet, so a draw can
    /// rely on one being present.
    pub fn ensure_handle<C: CustomRender>(
        &mut self,
        defs: &BlockDefs,
        custom: &C,
        tex_size: (u32, u32),
    )
        requires
            old(self).wf(),
            spec_grid_valid(old(self).spec_data(), defs@),
            tex_size.0 > 0,
            tex_size.1 > 0,
        ensures
            final(self).wf(),
            final(self).spec_id() == old(self).spec_id(),
            final(self).spec_transform() == old(self).spec_transform(),
            final(self).spec_data() == old(self).spec_data(),
            final(self).spec_handle() is Some,
            old(self).spec_handle() is Some ==> final(self).spec_handle() == old(
                self,
            ).spec_handle(),
            old(self).spec_handle() is None ==> final(self).spec_handle() == Some(
                spec_chunk_mesh(old(self).spec_data(), defs@, *custom, tex_size.0, tex_size.1),
            ),
    {
        if self.handle.is_none() {
            self.gen_mesh(defs, custom, tex_size);
        }
    }

    /// Validates the grid against the registry and the atlas size, then
    /// builds the mesh. Returns whether it did: a grid holding a material id
    /// the registry does not define, a registry too small for the boundary
    /// material, or an empty atlas dimension leaves the chunk unchanged.
    #[verifier::loop_isolation(false)]
    pub fn try_gen_mesh<C: CustomRender>(
        &mut self,
        defs: &BlockDefs,
        custom: &C,
        tex_size: (u32, u32),
    ) -> (ok: bool)
        requires
            old(self).wf(),
        ensures
            final(self).wf(),
            final(self).spec_id() == old(self).spec_id(),
            final(self).spec_transform() == old(self).spec_transform(),
            final(self).spec_data() == old(self).spec_data(),
            ok <==> (spec_grid_valid(old(self).spec_data(), defs@) && tex_size.0 > 0
                && tex_size.1 > 0),
            ok ==> final(self).spec_handle() == Some(
                spec_chunk_mesh(old(self).spec_data(), defs@, *custom, tex_size.0, tex_size.1),
            ),
            !ok ==> final(self).spec_handle() == old(self).spec_handle(),
    {
        if tex_size.0 == 0 || tex_size.1 == 0 {
            return false;
        }
        if defs.len() <= BOUNDARY_MATERIAL as usize {
            return false;
        }
        let mut i: usize = 0;
        while i < 4096
            invariant
                i <= 4096,
                forall|k: int| 0 <= k < i ==> (#[trigger] self.spec_data()[k]).0 < defs@.len(),
            decreases 4096 - i,
        {
            if self.data[i].0 as usize >= defs.len() {
                return false;
            }
            i = i + 1;
        }
        self.gen_mesh(defs, custom, tex_size);
        true
    }
}

} // verus!

//! Block definitions and the face culler.
//!
//! A block definition carries a transparency flag and a render strategy; the
//! registry maps contiguous material ids to definitions with bounds
//! validation. The culler emits a face exactly when the neighbour on that
//! side is transparent, textures it from the atlas strip, and translates the
//! result to the voxel's grid position.

use vstd::prelude::*;

use crate::fixed::{
    lemma_div_nonneg, lemma_from_int_nonneg, lemma_mul_nonneg, Fixed,
};
use crate::geom::{Vec2, Vec3};
use crate::terrain::lookup::{spec_face_template, face_template, Face, Vertex};

verus! {

/// How a block is rendered at mesh-build time.
#[derive(Debug, Clone, Copy, PartialEq, Eq, Structural)]
pub enum BlockRenderer {
    /// Renders nothing (air and the out-of-grid boundary material).
    Empty,
    /// A standard unit cube; the six atlas indices texture the faces in the
    /// order above, below, north, south, east, west.
    Standard(u16, u16, u16, u16, u16, u16),
    /// Defers to the caller-supplied [`CustomRender`] strategy.
    Custom,
    /// A marker for deferred per-instance block-entity rendering; emits
    /// nothing at mesh-build time.
    BlockEntity,
}

/// One block definition: the material id it belongs to, its transparency,
/// and its render strategy.
#[derive(Debug, Clone, Copy, PartialEq, Eq, Structural)]
pub struct BlockDef {
    pub material: u16,
    pub transparent: bool,
    pub renderer: BlockRenderer,
}

/// The registry of block definitions, indexed by contiguous material id.
#[derive(Debug)]
pub struct BlockDefs {
    defs: Vec<BlockDef>,
}

impl View for BlockDefs {
    type V = Seq<BlockDef>;

    closed spec fn view(&self) -> Seq<BlockDef> {
        self.defs@
    }
}

impl BlockDefs {
    /// Builds the registry from a configuration list; entry `i` defines
    /// material id `i`.
    pub fn new(defs: Vec<BlockDef>) -> (r: BlockDefs)
        ensures
            r@ == defs@,
    {
        BlockDefs { defs }
    }

    /// The number of defined materials.
    pub fn len(&self) -> (r: usize)
        ensures
            r == self@.len(),
    {
        self.defs.len()
    }

    /// Bounds-validated lookup of a material id.
    pub fn lookup(&self, id: u16) -> (r: Option<&BlockDef>)
        ensures
            (id as int) < self@.len() ==> r == Some(&self@[id as int]),
            (id as int) >= self@.len() ==> r is None,
    {
        if (id as usize) < self.defs.len() {
            Some(&self.defs[id as usize])
        } else {
            None
        }
    }

    /// Lookup of a material id the caller has already validated.
    pub fn def(&self, id: u16) -> (r: &BlockDef)
        requires
            (id as int) < self@.len(),
        ensures
            *r == self@[id as int],
    {
        &self.defs[id as usize]
    }
}

/// A custom face-generation strategy: an arbitrary function of the cell's
/// material and the six neighbour definitions, used by blocks whose renderer
/// is [`BlockRenderer::Custom`]. Implementations for non-cube geometry are
/// written as verified code beside the library; each states what it emits in
/// its `spec_render`.
pub trait CustomRender: Sized {
    /// What the strategy emits, before grid translation.
    spec fn spec_render(
        &self,
        material: u16,
        above: BlockDef,
        below: BlockDef,
        north: BlockDef,
        south: BlockDef,
        east: BlockDef,
        west: BlockDef,
    ) -> Seq<Vertex>;

    fn render(
        &self,
        material: u16,
        above: &BlockDef,
        below: &BlockDef,
        north: &BlockDef,
        south: &BlockDef,
        east: &BlockDef,
        west: &BlockDef,
    ) -> (r: Vec<Vertex>)
        ensures
            r@ == self.spec_render(material, *above, *below, *north, *south, *east, *west),
    ;
}

/// The trivial custom strategy: renders nothing.
#[derive(Debug, Clone, Copy, PartialEq, Eq, Structural)]
pub struct NoCustom;

impl CustomRender for NoCustom {
    open spec fn spec_render(
        &self,
        material: u16,
        above: BlockDef,
        below: BlockDef,
        north: BlockDef,
        south: BlockDef,
        east: BlockDef,
        west: BlockDef,
    ) -> Seq<Vertex> {
        Seq::empty()
    }

    fn render(
        &self,
        material: u16,
        above: &BlockDef,
        below: &BlockDef,
        north: &BlockDef,
        south: &BlockDef,
        east: &BlockDef,
        west: &BlockDef,
    ) -> (r: Vec<Vertex>)
    {
        Vec::new()
    }
}

/// The atlas tile size in pixels: tiles sit in a single horizontal strip of
/// 16-pixel squares.
pub open spec fn spec_tile_px() -> int {
    16
}

/// One vertex retextured for atlas tile `idx`: the tile's fractional width
/// and height scale the local coordinate, the tile's horizontal offset
/// splits into a whole `row` (the floor) and a fractional `col`, and the
/// vertex samples at `(u * width + col, v * height + row * height)`.
pub open spec fn spec_remap_vertex(v: Vertex, tex_w: u32, tex_h: u32, idx: u16) -> Vertex {
    let width = Fixed::spec_div(
        Fixed::spec_from_int(spec_tile_px()),
        Fixed::spec_from_int(tex_w as int),
    );
    let height = Fixed::spec_div(
        Fixed::spec_from_int(spec_tile_px()),
        Fixed::spec_from_int(tex_h as int),
    );
    let horizontal = Fixed::spec_mul(Fixed::spec_from_int(idx as int), width);
    let layer = Fixed::spec_floor(horizontal);
    let col = Fixed::spec_sub(horizontal, layer);
    let row_y = Fixed::spec_mul(height, layer);
    Vertex {
        position: v.position,
        tex_coords: Vec2 {
            x: Fixed::spec_add(Fixed::spec_mul(v.tex_coords.x, width), col),
            y: Fixed::spec_add(Fixed::spec_mul(v.tex_coords.y, height), row_y),
        },
        normal: v.normal,
    }
}

/// A vertex list retextured for atlas tile `idx`.
pub open spec fn spec_remap(s: Seq<Vertex>, tex_w: u32, tex_h: u32, idx: u16) -> Seq<Vertex> {
    Seq::new(s.len(), |i: int| spec_remap_vertex(s[i], tex_w, tex_h, idx))
}

/// What one direction of a standard block emits: the retextured face when
/// the neighbour on that side is transparent, nothing when it is not. Only
/// the neighbour's transparency gates the face.
pub open spec fn spec_face_segment(
    f: Face,
    neighbor: BlockDef,
    tex_idx: u16,
    tex_w: u32,
    tex_h: u32,
) -> Seq<Vertex> {
    if neighbor.transparent {
        spec_remap(spec_face_template(f), tex_w, tex_h, tex_idx)
    } else {
        Seq::empty()
    }
}

/// A vertex list translated by a grid position.
pub open spec fn spec_translate(s: Seq<Vertex>, pos: Vec3) -> Seq<Vertex> {
    Seq::new(
        s.len(),
        |i: int| Vertex {
            position: Vec3::spec_add(s[i].position, pos),
            tex_coords: s[i].tex_coords,
            normal: s[i].normal,
        },
    )
}

impl BlockRenderer {
    /// What a standard block emits before translation: its six face
    /// segments, in the order above, below, north, south, east, west.
    pub open spec fn spec_standard_faces(
        ta: u16,
        tb: u16,
        tn: u16,
        ts: u16,
        te: u16,
        tw: u16,
        above: BlockDef,
        below: BlockDef,
        north: BlockDef,
        south: BlockDef,
        east: BlockDef,
        west: BlockDef,
        tex_w: u32,
        tex_h: u32,
    ) -> Seq<Vertex> {
        spec_face_segment(Face::Above, above, ta, tex_w, tex_h) + spec_face_segment(
            Face::Below,
            below,
            tb,
            tex_w,
            tex_h,
        ) + spec_face_segment(Face::North, north, tn, tex_w, tex_h) + spec_face_segment(
            Face::South,
            south,
            ts,
            tex_w,
            tex_h,
        ) + spec_face_segment(Face::East, east, te, tex_w, tex_h) + spec_face_segment(
            Face::West,
            west,
            tw,
            tex_w,
            tex_h,
        )
    }

    /// What one block emits at a grid position: nothing for `Empty` and
    /// `BlockEntity`, the culled and retextured faces for `Standard`, and
    /// the custom strategy's output for `Custom`; all translated by the
    /// position.
    pub open spec fn spec_render<C: CustomRender>(
        renderer: BlockRenderer,
        custom: C,
        material: u16,
        position: Vec3,
        tex_w: u32,
        tex_h: u32,
        above: BlockDef,
        below: BlockDef,
        north: BlockDef,
        south: BlockDef,
        east: BlockDef,
        west: BlockDef,
    ) -> Seq<Vertex> {
        match renderer {
            BlockRenderer::Empty => Seq::empty(),
            BlockRenderer::BlockEntity => Seq::empty(),
            BlockRenderer::Standard(ta, tb, tn, ts, te, tw) => spec_translate(
                Self::spec_standard_faces(
                    ta,
                    tb,
                    tn,
                    ts,
                    te,
                    tw,
                    above,
                    below,
                    north,
                    south,
                    east,
                    west,
                    tex_w,
                    tex_h,
                ),
                position,
            ),
            BlockRenderer::Custom => spec_translate(
                custom.spec_render(material, above, below, north, south, east, west),
                position,
            ),
        }
    }

    /// Renders one block into a vertex list.
    #[verifier::loop_isolation(false)]
    pub fn render<C: CustomRender>(
        &self,
        custom: &C,
        material: u16,
        position: Vec3,
        tex_size: (u32, u32),
        above: &BlockDef,
        below: &BlockDef,
        north: &BlockDef,
        south: &BlockDef,
        east: &BlockDef,
        west: &BlockDef,
    ) -> (r: Vec<Vertex>)
        requires
            tex_size.0 > 0,
            tex_size.1 > 0,
        ensures
            r@ == Self::spec_render(
                *self,
                *custom,
                material,
                position,
                tex_size.0,
                tex_size.1,
                *above,
                *below,
                *north,
                *south,
                *east,
                *west,
            ),
    {
        let vec: Vec<Vertex> = match self {
            BlockRenderer::Empty => Vec::new(),
            BlockRenderer::BlockEntity => Vec::new(),
            BlockRenderer::Custom => custom.render(
                material,
                above,
                below,
                north,
                south,
                east,
                west,
            ),
            BlockRenderer::Standard(ta, tb, tn, ts, te, tw) => {
                let mut vec: Vec<Vertex> = Vec::new();
                if above.transparent {
                    Self::append_face(&mut vec, &face_template(Face::Above), tex_size, *ta);
                }
                if below.transparent {
                    Self::append_face(&mut vec, &face_template(Face::Below), tex_size, *tb);
                }
                if north.transparent {
                    Self::append_face(&mut vec, &face_template(Face::North), tex_size, *tn);
                }
                if south.transparent {
                    Self::append_face(&mut vec, &face_template(Face::South), tex_size, *ts);
                }
                if east.transparent {
                    Self::append_face(&mut vec, &face_template(Face::East), tex_size, *te);
                }
                if west.transparent {
                    Self::append_face(&mut vec, &face_template(Face::West), tex_size, *tw);
                }
                proof {
                    assert(vec@ =~= Self::spec_standard_faces(
                        *ta,
                        *tb,
                        *tn,
                        *ts,
                        *te,
                        *tw,
                        *above,
                        *below,
                        *north,
                        *south,
                        *east,
                        *west,
                        tex_size.0,
                        tex_size.1,
                    ));
                }
                vec
            },
        };
        let r = Self::translate(&vec, position);
        r
    }

    /// Appends one face template to `target`, retextured for atlas tile
    /// `idx`.
    #[verifier::loop_isolation(false)]
    fn append_face(target: &mut Vec<Vertex>, input: &Vec<Vertex>, tex_size: (u32, u32), idx: u16)
        requires
            tex_size.0 > 0,
            tex_size.1 > 0,
        ensures
            final(target)@ =~= old(target)@ + spec_remap(input@, tex_size.0, tex_size.1, idx),
    {
        proof {
            lemma_from_int_nonneg(spec_tile_px());
            lemma_from_int_nonneg(tex_size.0 as int);
            lemma_from_int_nonneg(tex_size.1 as int);
            lemma_from_int_nonneg(idx as int);
        }
        let tile = Fixed::from_i32(16);
        let width = tile.div(Fixed::from_u32(tex_size.0));
        let height = tile.div(Fixed::from_u32(tex_size.1));
        let idx_f = Fixed::from_u32(idx as u32);
        proof {
            lemma_div_nonneg(tile, Fixed::spec_from_int(tex_size.0 as int));
            lemma_mul_nonneg(idx_f, width);
        }
        let horizontal = idx_f.mul(width);
        let layer = horizontal.floor();
        let col = horizontal.sub(layer);
        let row_y = height.mul(layer);
        let ghost base = target@;
        let mut i: usize = 0;
        while i < input.len()
            invariant
                i <= input@.len(),
                target@ =~= base + spec_remap(input@, tex_size.0, tex_size.1, idx).take(i as int),
            decreases input@.len() - i,
        {
            let v = &input[i];
            let remapped = Vertex {
                position: v.position,
                tex_coords: Vec2 {
                    x: v.tex_coords.x.mul(width).add(col),
                    y: v.tex_coords.y.mul(height).add(row_y),
                },
                normal: v.normal,
            };
            target.push(remapped);
            proof {
                assert(target@ =~= base + spec_remap(input@, tex_size.0, tex_size.1, idx).take(
                    i as int + 1,
                ));
            }
            i = i + 1;
        }
        proof {
            let all = spec_remap(input@, tex_size.0, tex_size.1, idx);
            assert(all.take(all.len() as int) =~= all);
        }
    }

    /// A vertex list translated by a grid position.
    #[verifier::loop_isolation(false)]
    fn translate(verts: &Vec<Vertex>, position: Vec3) -> (r: Vec<Vertex>)
        ensures
            r@ == spec_translate(verts@, position),
    {
        let mut out: Vec<Vertex> = Vec::with_capacity(verts.len());
        let mut i: usize = 0;
        while i < verts.len()
            invariant
                i <= verts@.len(),
                out@ =~= spec_translate(verts@, position).take(i as int),
            decreases verts@.len() - i,
        {
            let v = &verts[i];
            out.push(
                Vertex {
                    position: v.position.add(position),
                    tex_coords: v.tex_coords,
                    normal: v.normal,
                },
            );
            proof {
                assert(out@ =~= spec_translate(verts@, position).take(i as int + 1));
            }
            i = i + 1;
        }
        proof {
            let all = spec_translate(verts@, position);
            assert(all.take(all.len() as int) =~= all);
        }
        out
    }
}

} // verus!

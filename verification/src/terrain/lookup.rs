//! The unit-cube face tables: each of the six faces as two triangles (six
//! vertices, no index buffer) in local cube space, with outward normals and
//! local texture coordinates in `[0, 1]`.

use vstd::prelude::*;

use crate::fixed::Fixed;
use crate::geom::{Vec2, Vec3};

verus! {

/// One mesh vertex: position, texture coordinates, outward normal.
#[derive(Debug, Clone, Copy, PartialEq, Eq, Structural)]
pub struct Vertex {
    pub position: Vec3,
    pub tex_coords: Vec2,
    pub normal: Vec3,
}

/// One of the six axis directions of a cube face (and of a neighbour
/// lookup): above/below on Y, north/south on Z, east/west on X.
#[derive(Debug, Clone, Copy, PartialEq, Eq, Structural)]
pub enum Face {
    Above,
    Below,
    North,
    South,
    East,
    West,
}

/// A vertex with whole-unit coordinates.
pub open spec fn spec_vtx(
    px: int,
    py: int,
    pz: int,
    tu: int,
    tv: int,
    nx: int,
    ny: int,
    nz: int,
) -> Vertex {
    Vertex {
        position: Vec3 {
            x: Fixed::spec_from_int(px),
            y: Fixed::spec_from_int(py),
            z: Fixed::spec_from_int(pz),
        },
        tex_coords: Vec2 { x: Fixed::spec_from_int(tu), y: Fixed::spec_from_int(tv) },
        normal: Vec3 {
            x: Fixed::spec_from_int(nx),
            y: Fixed::spec_from_int(ny),
            z: Fixed::spec_from_int(nz),
        },
    }
}

/// The six vertices of one unit-cube face.
pub open spec fn spec_face_template(f: Face) -> Seq<Vertex> {
    match f {
        Face::Above => seq![
            spec_vtx(0, 1, 0, 0, 0, 0, 1, 0),
            spec_vtx(0, 1, 1, 0, 1, 0, 1, 0),
            spec_vtx(1, 1, 0, 1, 0, 0, 1, 0),
            spec_vtx(0, 1, 1, 0, 1, 0, 1, 0),
            spec_vtx(1, 1, 1, 1, 1, 0, 1, 0),
            spec_vtx(1, 1, 0, 1, 0, 0, 1, 0),
        ],
        Face::Below => seq![
            spec_vtx(1, 0, 0, 1, 0, 0, -1, 0),
            spec_vtx(0, 0, 1, 0, 1, 0, -1, 0),
            spec_vtx(0, 0, 0, 0, 0, 0, -1, 0),
            spec_vtx(1, 0, 0, 0, 1, 0, -1, 0),
            spec_vtx(1, 0, 1, 1, 1, 0, -1, 0),
            spec_vtx(0, 0, 1, 1, 0, 0, -1, 0),
        ],
        Face::North => seq![
            spec_vtx(1, 0, 1, 1, 0, 0, 0, 1),
            spec_vtx(0, 1, 1, 0, 1, 0, 0, 1),
            spec_vtx(0, 0, 1, 0, 0, 0, 0, 1),
            spec_vtx(1, 0, 1, 1, 0, 0, 0, 1),
            spec_vtx(1, 1, 1, 1, 1, 0, 0, 1),
            spec_vtx(0, 1, 1, 0, 1, 0, 0, 1),
        ],
        Face::South => seq![
            spec_vtx(0, 0, 0, 1, 0, 0, 0, -1),
            spec_vtx(0, 1, 0, 0, 1, 0, 0, -1),
            spec_vtx(1, 0, 0, 0, 0, 0, 0, -1),
            spec_vtx(0, 1, 0, 1, 0, 0, 0, -1),
            spec_vtx(1, 1, 0, 1, 1, 0, 0, -1),
            spec_vtx(1, 0, 0, 0, 1, 0, 0, -1),
        ],
        Face::East => seq![
            spec_vtx(1, 0, 0, 0, 0, 1, 0, 0),
            spec_vtx(1, 1, 0, 1, 0, 1, 0, 0),
            spec_vtx(1, 0, 1, 0, 1, 1, 0, 0),
            spec_vtx(1, 1, 0, 1, 0, 1, 0, 0),
            spec_vtx(1, 1, 1, 1, 1, 1, 0, 0),
            spec_vtx(1, 0, 1, 0, 1, 1, 0, 0),
        ],
        Face::West => seq![
            spec_vtx(0, 0, 1, 0, 1, -1, 0, 0),
            spec_vtx(0, 1, 0, 1, 0, -1, 0, 0),
            spec_vtx(0, 0, 0, 0, 0, -1, 0, 0),
            spec_vtx(0, 0, 1, 0, 1, -1, 0, 0),
            spec_vtx(0, 1, 1, 1, 1, -1, 0, 0),
            spec_vtx(0, 1, 0, 1, 0, -1, 0, 0),
        ],
    }
}

/// Builds a vertex from whole-unit coordinates.
fn vtx(px: i32, py: i32, pz: i32, tu: i32, tv: i32, nx: i32, ny: i32, nz: i32) -> (r: Vertex)
    ensures
        r == spec_vtx(px as int, py as int, pz as int, tu as int, tv as int, nx as int, ny as int,
            nz as int),
{
    Vertex {
        position: Vec3 { x: Fixed::from_i32(px), y: Fixed::from_i32(py), z: Fixed::from_i32(pz) },
        tex_coords: Vec2 { x: Fixed::from_i32(tu), y: Fixed::from_i32(tv) },
        normal: Vec3 { x: Fixed::from_i32(nx), y: Fixed::from_i32(ny), z: Fixed::from_i32(nz) },
    }
}

/// The vertex list of one unit-cube face.
pub fn face_template(f: Face) -> (r: Vec<Vertex>)
    ensures
        r@ == spec_face_template(f),
{
    let mut v: Vec<Vertex> = Vec::with_capacity(6);
    match f {
        Face::Above => {
            v.push(vtx(0, 1, 0, 0, 0, 0, 1, 0));
            v.push(vtx(0, 1, 1, 0, 1, 0, 1, 0));
            v.push(vtx(1, 1, 0, 1, 0, 0, 1, 0));
            v.push(vtx(0, 1, 1, 0, 1, 0, 1, 0));
            v.push(vtx(1, 1, 1, 1, 1, 0, 1, 0));
            v.push(vtx(1, 1, 0, 1, 0, 0, 1, 0));
        },
        Face::Below => {
            v.push(vtx(1, 0, 0, 1, 0, 0, -1, 0));
            v.push(vtx(0, 0, 1, 0, 1, 0, -1, 0));
            v.push(vtx(0, 0, 0, 0, 0, 0, -1, 0));
            v.push(vtx(1, 0, 0, 0, 1, 0, -1, 0));
            v.push(vtx(1, 0, 1, 1, 1, 0, -1, 0));
            v.push(vtx(0, 0, 1, 1, 0, 0, -1, 0));
        },
        Face::North => {
            v.push(vtx(1, 0, 1, 1, 0, 0, 0, 1));
            v.push(vtx(0, 1, 1, 0, 1, 0, 0, 1));
            v.push(vtx(0, 0, 1, 0, 0, 0, 0, 1));
            v.push(vtx(1, 0, 1, 1, 0, 0, 0, 1));
            v.push(vtx(1, 1, 1, 1, 1, 0, 0, 1));
            v.push(vtx(0, 1, 1, 0, 1, 0, 0, 1));
        },
        Face::South => {
            v.push(vtx(0, 0, 0, 1, 0, 0, 0, -1));
            v.push(vtx(0, 1, 0, 0, 1, 0, 0, -1));
            v.push(vtx(1, 0, 0, 0, 0, 0, 0, -1));
            v.push(vtx(0, 1, 0, 1, 0, 0, 0, -1));
            v.push(vtx(1, 1, 0, 1, 1, 0, 0, -1));
            v.push(vtx(1, 0, 0, 0, 1, 0, 0, -1));
        },
        Face::East => {
            v.push(vtx(1, 0, 0, 0, 0, 1, 0, 0));
            v.push(vtx(1, 1, 0, 1, 0, 1, 0, 0));
            v.push(vtx(1, 0, 1, 0, 1, 1, 0, 0));
            v.push(vtx(1, 1, 0, 1, 0, 1, 0, 0));
            v.push(vtx(1, 1, 1, 1, 1, 1, 0, 0));
            v.push(vtx(1, 0, 1, 0, 1, 1, 0, 0));
        },
        Face::West => {
            v.push(vtx(0, 0, 1, 0, 1, -1, 0, 0));
            v.push(vtx(0, 1, 0, 1, 0, -1, 0, 0));
            v.push(vtx(0, 0, 0, 0, 0, -1, 0, 0));
            v.push(vtx(0, 0, 1, 0, 1, -1, 0, 0));
            v.push(vtx(0, 1, 1, 1, 1, -1, 0, 0));
            v.push(vtx(0, 1, 0, 1, 0, -1, 0, 0));
        },
    }
    proof {
        assert(v@ =~= spec_face_template(f));
    }
    v
}

} // verus!

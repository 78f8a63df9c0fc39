//! The bone-model pipeline: instance counts, transform composition, the
//! texture-split formula, and the fixed-size buffer contract.

use forte_cubes::fixed::Fixed;
use forte_cubes::geom::{Mat4, Quat, Transform, Vec2, Vec3};
use forte_cubes::models::animations::{AnimController, AnimatedModel};
use forte_cubes::models::cubes::{tex_vec, CubeModel};
use forte_cubes::models::data::{CubeInstance, CubeModelBone, CubeModelData, CubeModelPart};

fn fx(v: f64) -> Fixed {
    Fixed { raw: (v * 4294967296.0).round() as i64 }
}

fn to_f64(v: Fixed) -> f64 {
    v.raw as f64 / 4294967296.0
}

fn v3(x: f64, y: f64, z: f64) -> Vec3 {
    Vec3 { x: fx(x), y: fx(y), z: fx(z) }
}

fn ident_transform() -> Transform {
    Transform {
        position: v3(0.0, 0.0, 0.0),
        rotation: Quat { s: fx(1.0), x: fx(0.0), y: fx(0.0), z: fx(0.0) },
        scale: v3(1.0, 1.0, 1.0),
    }
}

fn part_at(x: f64, y: f64, z: f64) -> CubeModelPart {
    let mut t = ident_transform();
    t.position = v3(x, y, z);
    CubeModelPart { transform: t, tex_offset: Vec2 { x: fx(0.0), y: fx(0.0) } }
}

fn bone(children: Vec<CubeModelBone>, parts: Vec<CubeModelPart>) -> CubeModelBone {
    CubeModelBone { label: None, transform: ident_transform(), children, parts }
}

#[test]
fn instance_count_follows_structure_only() {
    // Root with 2 parts, children with 1 and 3 parts, grandchild with 2.
    let grandchild = bone(vec![], vec![part_at(9.0, 9.0, 9.0), part_at(-4.0, 0.5, 0.25)]);
    let child_a = bone(vec![grandchild], vec![part_at(1.0, 0.0, 0.0)]);
    let child_b = bone(
        vec![],
        vec![part_at(0.0, 1.0, 0.0), part_at(0.0, 2.0, 0.0), part_at(0.0, 3.0, 0.0)],
    );
    let root = bone(vec![child_a, child_b], vec![part_at(0.0, 0.0, 0.0), part_at(5.0, 5.0, 5.0)]);

    let instances = CubeModel::render_bones(
        &ident_transform(),
        &root,
        tex_vec(256, 256),
        Fixed::from_i32(16),
        0,
    );
    assert_eq!(instances.len(), 8);

    // Same structure, wildly different transforms: the count cannot move.
    let mut root2 = root.clone();
    root2.transform.position = v3(100.0, -3.5, 0.125);
    root2.children[0].transform.scale = v3(3.0, 2.0, 1.0);
    root2.children[1].transform.rotation = Quat { s: fx(0.0), x: fx(1.0), y: fx(0.0), z: fx(0.0) };
    let instances2 = CubeModel::render_bones(
        &ident_transform(),
        &root2,
        tex_vec(64, 64),
        Fixed::from_i32(16),
        4,
    );
    assert_eq!(instances2.len(), 8);
}

#[test]
fn empty_hierarchy_bakes_to_nothing() {
    let root = bone(vec![], vec![]);
    let instances = CubeModel::render_bones(
        &ident_transform(),
        &root,
        tex_vec(256, 256),
        Fixed::from_i32(16),
        0,
    );
    assert_eq!(instances.len(), 0);
}

#[test]
fn two_level_composition_rotates_then_translates() {
    // Root transform translated by (1, 0, 0); child bone rotated 90 degrees
    // about Y; the part sits at (1, 0, 0) in the child's space. The baked
    // world position must be (1, 0, 0) + rotate_y_90((1, 0, 0)) = (1, 0, -1).
    let mut root_t = ident_transform();
    root_t.position = v3(1.0, 0.0, 0.0);

    let half = std::f64::consts::FRAC_PI_4;
    let mut child = bone(vec![], vec![part_at(1.0, 0.0, 0.0)]);
    child.transform.rotation = Quat { s: fx(half.cos()), x: fx(0.0), y: fx(half.sin()), z: fx(0.0) };
    let root = bone(vec![child], vec![]);

    let model = CubeModel::new(root_t, root, (256, 256), 0);
    let contents = model.data.contents();
    assert_eq!(contents.len(), 1);
    let world = &contents[0].model;
    let px = to_f64(world.w.x);
    let py = to_f64(world.w.y);
    let pz = to_f64(world.w.z);
    assert!((px - 1.0).abs() < 1e-5, "x was {px}");
    assert!(py.abs() < 1e-5, "y was {py}");
    assert!((pz - (-1.0)).abs() < 1e-5, "z was {pz}");
}

#[test]
fn tex_splits_walk_the_skin_strip() {
    // scale (1, 2, 3), 16 px per unit, atlas 256 x 128, offset (0.25, 0.5):
    // x width 0.0625, y height 0.25, z width 0.1875, z height 0.375.
    let m = Mat4::identity();
    let rot = Quat { s: fx(1.0), x: fx(0.0), y: fx(0.0), z: fx(0.0) };
    let inst = CubeInstance::generate(
        &m,
        &rot,
        &v3(1.0, 2.0, 3.0),
        &Vec2 { x: fx(0.25), y: fx(0.5) },
        &Vec2 { x: fx(256.0), y: fx(128.0) },
        Fixed::from_i32(16),
    );
    let s = inst.tex_splits;
    assert_eq!(s.u0, fx(0.25));
    assert_eq!(s.u1, fx(0.4375));
    assert_eq!(s.u2, fx(0.5));
    assert_eq!(s.u3, fx(0.6875));
    assert_eq!(s.u4, fx(0.75));
    assert_eq!(s.v0, fx(0.5));
    assert_eq!(s.v1, fx(0.875));
    assert_eq!(s.v2, fx(1.125));
}

#[test]
fn identity_rotation_gives_identity_normal_matrix() {
    let m = Mat4::identity();
    let rot = Quat { s: fx(1.0), x: fx(0.0), y: fx(0.0), z: fx(0.0) };
    let inst = CubeInstance::generate(
        &m,
        &rot,
        &v3(1.0, 1.0, 1.0),
        &Vec2 { x: fx(0.0), y: fx(0.0) },
        &Vec2 { x: fx(64.0), y: fx(64.0) },
        Fixed::from_i32(16),
    );
    assert_eq!(inst.normal.x, v3(1.0, 0.0, 0.0));
    assert_eq!(inst.normal.y, v3(0.0, 1.0, 0.0));
    assert_eq!(inst.normal.z, v3(0.0, 0.0, 1.0));
}

fn dummy_instance() -> CubeInstance {
    CubeInstance::generate(
        &Mat4::identity(),
        &Quat { s: fx(1.0), x: fx(0.0), y: fx(0.0), z: fx(0.0) },
        &v3(1.0, 1.0, 1.0),
        &Vec2 { x: fx(0.0), y: fx(0.0) },
        &Vec2 { x: fx(64.0), y: fx(64.0) },
        Fixed::from_i32(16),
    )
}

#[test]
fn buffer_update_rejects_a_different_length() {
    let mut data = CubeModelData::new(vec![dummy_instance(), dummy_instance()]);
    assert_eq!(data.size(), 2);

    let err = data.update(vec![dummy_instance()]).unwrap_err();
    assert_eq!(err.expected, 2);
    assert_eq!(err.actual, 1);
    assert_eq!(data.size(), 2);
    assert_eq!(data.contents().len(), 2);

    let err2 = data.update(vec![dummy_instance(); 3]).unwrap_err();
    assert_eq!(err2.expected, 2);
    assert_eq!(err2.actual, 3);
    assert_eq!(data.size(), 2);

    assert!(data.update(vec![dummy_instance(), dummy_instance()]).is_ok());
    assert_eq!(data.size(), 2);
}

#[test]
fn model_update_rejects_a_structural_change() {
    let root = bone(vec![], vec![part_at(0.0, 0.0, 0.0)]);
    let mut model = CubeModel::new(ident_transform(), root, (256, 256), 0);
    assert_eq!(model.data.size(), 1);

    // Moving a transform is fine.
    model.transform.position = v3(4.0, 0.0, 0.0);
    assert!(model.update((256, 256)).is_ok());
    let moved = to_f64(model.data.contents()[0].model.w.x);
    assert!((moved - 4.0).abs() < 1e-9);

    // Growing the tree is not: the buffer never resizes.
    model.bone.parts.push(part_at(1.0, 1.0, 1.0));
    let err = model.update((256, 256)).unwrap_err();
    assert_eq!(err.expected, 1);
    assert_eq!(err.actual, 2);
    assert_eq!(model.data.size(), 1);
    assert_eq!(model.data.contents().len(), 1);
}

#[derive(Debug, Clone)]
struct Spin;

impl AnimController for Spin {
    fn update(&mut self, root: &mut CubeModelBone) {
        root.transform.position.x = root.transform.position.x.add(Fixed::from_i32(1));
    }
}

#[derive(Debug, Clone)]
struct Grow;

impl AnimController for Grow {
    fn update(&mut self, root: &mut CubeModelBone) {
        let mut t = root.transform;
        t.position = Vec3 { x: Fixed::from_i32(0), y: Fixed::from_i32(0), z: Fixed::from_i32(0) };
        root.parts.push(CubeModelPart {
            transform: t,
            tex_offset: Vec2 { x: Fixed::from_i32(0), y: Fixed::from_i32(0) },
        });
    }
}

#[test]
fn animated_model_rebakes_after_the_controller_runs() {
    let root = bone(vec![], vec![part_at(0.0, 0.0, 0.0)]);
    let model = CubeModel::new(ident_transform(), root, (256, 256), 1);
    let mut animated = AnimatedModel::new(model, Spin);
    assert!(animated.update((256, 256)).is_ok());
    let moved = to_f64(animated.model.data.contents()[0].model.w.x);
    assert!((moved - 1.0).abs() < 1e-9);

    let clone = animated.clone((256, 256));
    assert_eq!(clone.model.data.size(), 1);
}

#[test]
fn animated_model_rejects_a_controller_that_grows_the_tree() {
    let root = bone(vec![], vec![part_at(0.0, 0.0, 0.0)]);
    let model = CubeModel::new(ident_transform(), root, (256, 256), 1);
    let mut animated = AnimatedModel::new(model, Grow);
    let err = animated.update((256, 256)).unwrap_err();
    assert_eq!(err.expected, 1);
    assert_eq!(err.actual, 2);
    assert_eq!(animated.model.data.size(), 1);
}

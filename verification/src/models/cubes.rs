//! Baking a bone hierarchy into an ordered instance list.
//!
//! The bake is a pre-order traversal: at each bone the accumulated matrix is
//! `parent matrix * bone matrix` and the accumulated rotation is
//! `bone rotation * parent rotation`; every part of the bone emits one
//! instance, then the children are visited in declaration order. Instance
//! count and order therefore depend on the tree's structure alone.

use vstd::prelude::*;

use crate::fixed::Fixed;
use crate::geom::{Mat4, Quat, Transform, Vec2};
use crate::models::data::{
    bones_view, BoneView, CubeInstance, CubeModelBone, CubeModelData, CubeModelPart, SizeMismatch,
};

verus! {

/// Pixels of texture per model-space unit, as the baker uses it.
pub open spec fn spec_px_per_unit() -> Fixed {
    Fixed::spec_from_int(16)
}

/// An atlas pixel size as a fixed-point vector.
pub open spec fn spec_tex_vec(w: u32, h: u32) -> Vec2 {
    Vec2 { x: Fixed::spec_from_int(w as int), y: Fixed::spec_from_int(h as int) }
}

/// Builds the fixed-point atlas size vector of a pixel size; a positive
/// pixel count gives a non-zero scalar.
pub fn tex_vec(w: u32, h: u32) -> (r: Vec2)
    ensures
        r == spec_tex_vec(w, h),
        w > 0 ==> r.x.raw > 0,
        h > 0 ==> r.y.raw > 0,
{
    Vec2 { x: Fixed::from_u32(w), y: Fixed::from_u32(h) }
}

/// The instance one part emits under an accumulated matrix and rotation.
pub open spec fn spec_part_instance(
    part: CubeModelPart,
    m: Mat4,
    rot: Quat,
    tex: Vec2,
    ppu: Fixed,
) -> CubeInstance {
    CubeInstance::spec_generate(
        Mat4::spec_mul(m, Transform::spec_to_mat(part.transform)),
        Quat::spec_mul(part.transform.rotation, rot),
        part.transform.scale,
        part.tex_offset,
        tex,
        ppu,
    )
}

/// The instances of a part list, in declaration order.
pub open spec fn spec_parts_instances(
    parts: Seq<CubeModelPart>,
    m: Mat4,
    rot: Quat,
    tex: Vec2,
    ppu: Fixed,
) -> Seq<CubeInstance> {
    Seq::new(parts.len(), |i: int| spec_part_instance(parts[i], m, rot, tex, ppu))
}

/// The full pre-order bake of one bone under a parent matrix and rotation:
/// the bone's own parts first, then each child subtree in order.
pub open spec fn spec_bake(
    bone: BoneView,
    prev: Mat4,
    rot: Quat,
    tex: Vec2,
    ppu: Fixed,
) -> Seq<CubeInstance>
    decreases bone,
{
    let bm = Mat4::spec_mul(prev, Transform::spec_to_mat(bone.transform));
    let br = Quat::spec_mul(bone.transform.rotation, rot);
    spec_parts_instances(bone.parts, bm, br, tex, ppu) + spec_bake_kids(
        bone.children,
        bm,
        br,
        tex,
        ppu,
    )
}

/// The concatenated bakes of a child list, in order.
pub open spec fn spec_bake_kids(
    kids: Seq<BoneView>,
    prev: Mat4,
    rot: Quat,
    tex: Vec2,
    ppu: Fixed,
) -> Seq<CubeInstance>
    decreases kids,
{
    if kids.len() == 0 {
        Seq::empty()
    } else {
        spec_bake_kids(kids.drop_last(), prev, rot, tex, ppu) + spec_bake(
            kids.last(),
            prev,
            rot,
            tex,
            ppu,
        )
    }
}

/// The number of parts in the whole tree.
pub open spec fn spec_part_count(bone: BoneView) -> nat
    decreases bone,
{
    bone.parts.len() + spec_part_count_kids(bone.children)
}

/// The number of parts under a child list.
pub open spec fn spec_part_count_kids(kids: Seq<BoneView>) -> nat
    decreases kids,
{
    if kids.len() == 0 {
        0
    } else {
        spec_part_count_kids(kids.drop_last()) + spec_part_count(kids.last())
    }
}

/// Baking emits exactly one instance per part: the instance count is a
/// function of the hierarchy's structure alone and never of the matrix,
/// rotation, texture size or scale values threaded through the bake.
pub proof fn lemma_instance_count(bone: BoneView, prev: Mat4, rot: Quat, tex: Vec2, ppu: Fixed)
    ensures
        spec_bake(bone, prev, rot, tex, ppu).len() == spec_part_count(bone),
    decreases bone,
{
    let bm = Mat4::spec_mul(prev, Transform::spec_to_mat(bone.transform));
    let br = Quat::spec_mul(bone.transform.rotation, rot);
    lemma_instance_count_kids(bone.children, bm, br, tex, ppu);
}

/// Two bakes of the same tree always emit the same number of instances,
/// whatever matrices, rotations, atlas sizes or pixel densities they ran
/// under.
pub proof fn lemma_count_transform_independent(
    bone: BoneView,
    prev1: Mat4,
    rot1: Quat,
    tex1: Vec2,
    ppu1: Fixed,
    prev2: Mat4,
    rot2: Quat,
    tex2: Vec2,
    ppu2: Fixed,
)
    ensures
        spec_bake(bone, prev1, rot1, tex1, ppu1).len() == spec_bake(
            bone,
            prev2,
            rot2,
            tex2,
            ppu2,
        ).len(),
{
    lemma_instance_count(bone, prev1, rot1, tex1, ppu1);
    lemma_instance_count(bone, prev2, rot2, tex2, ppu2);
}

/// The child-list half of [`lemma_instance_count`].
pub proof fn lemma_instance_count_kids(
    kids: Seq<BoneView>,
    prev: Mat4,
    rot: Quat,
    tex: Vec2,
    ppu: Fixed,
)
    ensures
        spec_bake_kids(kids, prev, rot, tex, ppu).len() == spec_part_count_kids(kids),
    decreases kids,
{
    if kids.len() > 0 {
        lemma_instance_count_kids(kids.drop_last(), prev, rot, tex, ppu);
        lemma_instance_count(kids.last(), prev, rot, tex, ppu);
    }
}

/// For a two-level hierarchy (a root bone with one child and no
/// grandchildren, the part on the child), the baked instance's world matrix
/// is exactly the composition `root matrix * child bone matrix * part
/// matrix`, and its rotation accumulates in the reverse order.
pub proof fn lemma_two_level_composition(
    root_t: Transform,
    root: BoneView,
    child: BoneView,
    part: CubeModelPart,
    tex: Vec2,
    ppu: Fixed,
)
    requires
        root.parts.len() == 0,
        root.children == seq![child],
        child.children.len() == 0,
        child.parts == seq![part],
    ensures
        ({
            let m0 = Transform::spec_to_mat(root_t);
            let bm = Mat4::spec_mul(m0, Transform::spec_to_mat(root.transform));
            let cm = Mat4::spec_mul(bm, Transform::spec_to_mat(child.transform));
            let cr = Quat::spec_mul(
                child.transform.rotation,
                Quat::spec_mul(root.transform.rotation, root_t.rotation),
            );
            let baked = spec_bake(root, m0, root_t.rotation, tex, ppu);
            &&& baked.len() == 1
            &&& baked[0] == spec_part_instance(part, cm, cr, tex, ppu)
            &&& baked[0].model == Mat4::spec_mul(cm, Transform::spec_to_mat(part.transform))
        }),
{
    let m0 = Transform::spec_to_mat(root_t);
    let bm = Mat4::spec_mul(m0, Transform::spec_to_mat(root.transform));
    let br = Quat::spec_mul(root.transform.rotation, root_t.rotation);
    let cm = Mat4::spec_mul(bm, Transform::spec_to_mat(child.transform));
    let cr = Quat::spec_mul(child.transform.rotation, br);
    assert(root.children.drop_last() =~= Seq::<BoneView>::empty());
    assert(root.children.last() == child);
    assert(child.parts.len() == 1);
    assert(spec_bake_kids(child.children, cm, cr, tex, ppu) == Seq::<CubeInstance>::empty());
    assert(spec_bake(child, bm, br, tex, ppu) =~= spec_parts_instances(
        child.parts,
        cm,
        cr,
        tex,
        ppu,
    ));
    assert(spec_parts_instances(root.parts, bm, br, tex, ppu) =~= Seq::<CubeInstance>::empty());
    assert(spec_bake_kids(Seq::<BoneView>::empty(), bm, br, tex, ppu)
        == Seq::<CubeInstance>::empty());
    assert(spec_bake_kids(root.children, bm, br, tex, ppu) == Seq::<CubeInstance>::empty()
        + spec_bake(child, bm, br, tex, ppu));
    assert(spec_bake(root, m0, root_t.rotation, tex, ppu) =~= spec_parts_instances(
        child.parts,
        cm,
        cr,
        tex,
        ppu,
    ));
    assert(spec_parts_instances(child.parts, cm, cr, tex, ppu)[0] == spec_part_instance(
        part,
        cm,
        cr,
        tex,
        ppu,
    ));
}

/// A cube model: a world transform, the root bone, and the committed image
/// of the instance buffer the bake feeds.
#[derive(Debug)]
pub struct CubeModel {
    pub transform: Transform,
    pub bone: CubeModelBone,
    pub data: CubeModelData,
}

impl CubeModel {
    /// Creates a model: bakes the bone tree once with the atlas pixel size
    /// and commits an instance buffer of exactly that many instances.
    /// `possible_size` is only a pre-allocation hint.
    pub fn new(
        transform: Transform,
        bone: CubeModelBone,
        texture_size: (u32, u32),
        possible_size: usize,
    ) -> (r: CubeModel)
        requires
            texture_size.0 > 0,
            texture_size.1 > 0,
            spec_part_count(bone@) <= u32::MAX,
        ensures
            r.transform == transform,
            r.bone@ == bone@,
            r.data.spec_size() == spec_part_count(bone@),
            r.data.spec_contents() == spec_bake(
                bone@,
                Transform::spec_to_mat(transform),
                transform.rotation,
                spec_tex_vec(texture_size.0, texture_size.1),
                spec_px_per_unit(),
            ),
    {
        let tex = tex_vec(texture_size.0, texture_size.1);
        let instances = Self::render_bones(&transform, &bone, tex, Fixed::from_i32(16), possible_size);
        proof {
            lemma_instance_count(
                bone@,
                Transform::spec_to_mat(transform),
                transform.rotation,
                tex,
                spec_px_per_unit(),
            );
        }
        let data = CubeModelData::new(instances);
        CubeModel { transform, bone, data }
    }

    /// Re-bakes the tree and rewrites the committed buffer, so outside
    /// mutation of the transforms becomes visible. Succeeds exactly when the
    /// tree's part count still matches the buffer's committed size; a
    /// structurally changed tree is rejected and the buffer stays untouched.
    pub fn update(&mut self, texture_size: (u32, u32)) -> (r: Result<(), SizeMismatch>)
        requires
            texture_size.0 > 0,
            texture_size.1 > 0,
        ensures
            final(self).transform == old(self).transform,
            final(self).bone@ == old(self).bone@,
            final(self).data.spec_size() == old(self).data.spec_size(),
            r is Ok <==> spec_part_count(old(self).bone@) == old(self).data.spec_size(),
            r is Ok ==> final(self).data.spec_contents() == spec_bake(
                old(self).bone@,
                Transform::spec_to_mat(old(self).transform),
                old(self).transform.rotation,
                spec_tex_vec(texture_size.0, texture_size.1),
                spec_px_per_unit(),
            ),
            r is Err ==> final(self).data.spec_contents() == old(
                self,
            ).data.spec_contents(),
    {
        let tex = tex_vec(texture_size.0, texture_size.1);
        let size_hint: usize = self.data.size() as usize;
        let instances = Self::render_bones(
            &self.transform,
            &self.bone,
            tex,
            Fixed::from_i32(16),
            size_hint,
        );
        proof {
            lemma_instance_count(
                self.bone@,
                Transform::spec_to_mat(self.transform),
                self.transform.rotation,
                tex,
                spec_px_per_unit(),
            );
        }
        self.data.update(instances)
    }

    /// Clones the model by re-baking the tree into a fresh buffer, committed
    /// at the clone's own part count.
    pub fn clone(&self, texture_size: (u32, u32)) -> (r: CubeModel)
        requires
            texture_size.0 > 0,
            texture_size.1 > 0,
            spec_part_count(self.bone@) <= u32::MAX,
        ensures
            r.transform == self.transform,
            r.bone@ == self.bone@,
            r.data.spec_size() == spec_part_count(self.bone@),
            r.data.spec_contents() == spec_bake(
                self.bone@,
                Transform::spec_to_mat(self.transform),
                self.transform.rotation,
                spec_tex_vec(texture_size.0, texture_size.1),
                spec_px_per_unit(),
            ),
    {
        Self::new(self.transform, self.bone.clone(), texture_size, self.data.size() as usize)
    }

    /// Renders a bone tree into the ordered instance list, starting from an
    /// offset transform.
    #[verifier::loop_isolation(false)]
    pub fn render_bones(
        transform: &Transform,
        bone: &CubeModelBone,
        texture_size: Vec2,
        px_per_unit: Fixed,
        possible_size: usize,
    ) -> (r: Vec<CubeInstance>)
        requires
            texture_size.x.raw != 0,
            texture_size.y.raw != 0,
        ensures
            r@ == spec_bake(
                bone@,
                Transform::spec_to_mat(*transform),
                transform.rotation,
                texture_size,
                px_per_unit,
            ),
    {
        let mut result: Vec<CubeInstance> = Vec::with_capacity(possible_size);
        let previous = transform.to_mat();
        Self::recr_render_bone(
            &mut result,
            &previous,
            transform.rotation,
            bone,
            texture_size,
            px_per_unit,
        );
        result
    }

    /// One traversal step: emits the bone's parts, then recurses into its
    /// children, appending to `result`.
    #[verifier::loop_isolation(false)]
    #[verifier::rlimit(60)]
    fn recr_render_bone(
        result: &mut Vec<CubeInstance>,
        previous: &Mat4,
        rotation: Quat,
        bone: &CubeModelBone,
        texture_size: Vec2,
        px_per_unit: Fixed,
    )
        requires
            texture_size.x.raw != 0,
            texture_size.y.raw != 0,
        ensures
            final(result)@ == old(result)@ + spec_bake(
                bone@,
                *previous,
                rotation,
                texture_size,
                px_per_unit,
            ),
        decreases *bone,
    {
        let bone_matrix = previous.mul(&bone.transform.to_mat());
        let rotation2 = bone.transform.rotation.mul(rotation);
        let ghost base = result@;
        let mut i: usize = 0;
        while i < bone.parts.len()
            invariant
                i <= bone.parts@.len(),
                result@ =~= base + spec_parts_instances(
                    bone.parts@.take(i as int),
                    bone_matrix,
                    rotation2,
                    texture_size,
                    px_per_unit,
                ),
            decreases bone.parts@.len() - i,
        {
            let part = &bone.parts[i];
            let matrix = bone_matrix.mul(&part.transform.to_mat());
            let inst = CubeInstance::generate(
                &matrix,
                &part.transform.rotation.mul(rotation2),
                &part.transform.scale,
                &part.tex_offset,
                &texture_size,
                px_per_unit,
            );
            result.push(inst);
            proof {
                assert(result@ =~= base + spec_parts_instances(
                    bone.parts@.take(i as int + 1),
                    bone_matrix,
                    rotation2,
                    texture_size,
                    px_per_unit,
                ));
            }
            i = i + 1;
        }
        proof {
            assert(bone.parts@.take(bone.parts@.len() as int) =~= bone.parts@);
        }
        let ghost parts_done = base + spec_parts_instances(
            bone.parts@,
            bone_matrix,
            rotation2,
            texture_size,
            px_per_unit,
        );
        let mut j: usize = 0;
        while j < bone.children.len()
            invariant
                j <= bone.children@.len(),
                result@ =~= parts_done + spec_bake_kids(
                    bones_view(bone.children@.take(j as int)),
                    bone_matrix,
                    rotation2,
                    texture_size,
                    px_per_unit,
                ),
            decreases bone.children@.len() - j,
        {
            proof {
                assert(decreases_to!(*bone => bone.children@[j as int]));
            }
            Self::recr_render_bone(
                result,
                &bone_matrix,
                rotation2,
                &bone.children[j],
                texture_size,
                px_per_unit,
            );
            proof {
                let prefix = bone.children@.take(j as int);
                let next = bone.children@.take(j as int + 1);
                assert(next.drop_last() =~= prefix);
                assert(bones_view(next).drop_last() =~= bones_view(prefix)) by {
                    crate::models::data::lemma_bones_view_index(next);
                    crate::models::data::lemma_bones_view_index(prefix);
                }
                assert(bones_view(next).last() == bone.children@[j as int]@) by {
                    crate::models::data::lemma_bones_view_index(next);
                }
                assert(bones_view(next).len() > 0) by {
                    crate::models::data::lemma_bones_view_index(next);
                }
                assert(result@ =~= parts_done + spec_bake_kids(
                    bones_view(next),
                    bone_matrix,
                    rotation2,
                    texture_size,
                    px_per_unit,
                ));
            }
            j = j + 1;
        }
        proof {
            assert(bone.children@.take(bone.children@.len() as int) =~= bone.children@);
            assert(result@ =~= base + spec_bake(
                bone@,
                *previous,
                rotation,
                texture_size,
                px_per_unit,
            ));
        }
    }
}

} // verus!

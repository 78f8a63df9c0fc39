//! Bone-model data: the bone tree, leaf parts, the GPU-facing instance
//! record, and the fixed-size instance buffer image.

use vstd::prelude::*;

use crate::fixed::Fixed;
use crate::geom::{Mat3, Mat4, Quat, Transform, Vec2, Vec3};

verus! {

/// A node of a bone hierarchy: an optional label for animation targeting, a
/// local transform, leaf parts, and child bones in declaration order.
#[derive(Debug)]
pub struct CubeModelBone {
    pub label: Option<String>,
    pub transform: Transform,
    pub children: Vec<CubeModelBone>,
    pub parts: Vec<CubeModelPart>,
}

/// The mathematical model of a bone: the same tree with sequences in place
/// of vectors. All baking contracts are stated over this view.
#[verifier::ext_equal]
pub ghost struct BoneView {
    pub label: Option<Seq<char>>,
    pub transform: Transform,
    pub children: Seq<BoneView>,
    pub parts: Seq<CubeModelPart>,
}

impl View for CubeModelBone {
    type V = BoneView;

    open spec fn view(&self) -> BoneView
        decreases *self,
    {
        BoneView {
            label: match self.label {
                Some(s) => Some(s@),
                None => None,
            },
            transform: self.transform,
            children: bones_view(self.children@),
            parts: self.parts@,
        }
    }
}

/// The views of a sequence of bones, element by element.
pub open spec fn bones_view(s: Seq<CubeModelBone>) -> Seq<BoneView>
    decreases s,
{
    if s.len() == 0 {
        Seq::empty()
    } else {
        bones_view(s.drop_last()).push(s.last()@)
    }
}

/// `bones_view` keeps the length and maps each element to its view.
pub proof fn lemma_bones_view_index(s: Seq<CubeModelBone>)
    ensures
        bones_view(s).len() == s.len(),
        forall|i: int| 0 <= i < s.len() ==> bones_view(s)[i] == s[i]@,
    decreases s,
{
    if s.len() > 0 {
        lemma_bones_view_index(s.drop_last());
        assert(bones_view(s) == bones_view(s.drop_last()).push(s.last()@));
        assert forall|i: int| 0 <= i < s.len() implies bones_view(s)[i] == s[i]@ by {
            if i < s.len() - 1 {
                assert(bones_view(s)[i] == bones_view(s.drop_last())[i]);
                assert(s.drop_last()[i] == s[i]);
            } else {
                assert(bones_view(s)[i] == s.last()@);
            }
        }
    }
}

impl Clone for CubeModelBone {
    /// Deep copy of the bone tree; the clone models the original exactly.
    fn clone(&self) -> (res: Self)
        ensures
            res@ == self@,
        decreases *self,
    {
        let label = match &self.label {
            Some(s) => Some(s.clone()),
            None => None,
        };
        let mut children: Vec<CubeModelBone> = Vec::new();
        let mut i: usize = 0;
        while i < self.children.len()
            invariant
                i <= self.children@.len(),
                children@.len() == i,
                forall|k: int| 0 <= k < i ==> children@[k]@ == self.children@[k]@,
            decreases self.children@.len() - i,
        {
            proof {
                assert(decreases_to!(*self => self.children@[i as int]));
            }
            children.push(self.children[i].clone());
            i = i + 1;
        }
        let mut parts: Vec<CubeModelPart> = Vec::new();
        let mut j: usize = 0;
        while j < self.parts.len()
            invariant
                j <= self.parts@.len(),
                parts@ =~= self.parts@.take(j as int),
            decreases self.parts@.len() - j,
        {
            parts.push(self.parts[j]);
            proof {
                assert(parts@ =~= self.parts@.take(j as int + 1));
            }
            j = j + 1;
        }
        let res = CubeModelBone { label, transform: self.transform, children, parts };
        proof {
            assert(parts@ =~= self.parts@);
            lemma_bones_view_index(children@);
            lemma_bones_view_index(self.children@);
            assert(res@.children =~= self@.children);
            assert(res@ =~= self@);
        }
        res
    }
}

/// A leaf renderable cube: a transform relative to its bone and a normalized
/// texture-atlas offset.
#[derive(Debug, Clone, Copy, PartialEq, Eq, Structural)]
pub struct CubeModelPart {
    pub transform: Transform,
    pub tex_offset: Vec2,
}

/// The texture split points one instance hands to the shader: five U splits
/// for the side faces and three V splits for top and bottom, in the packed
/// order `[u0 u1 u2 u3] [u4 v0 v1 v2]`.
#[derive(Debug, Clone, Copy, PartialEq, Eq, Structural)]
pub struct TexSplits {
    pub u0: Fixed,
    pub u1: Fixed,
    pub u2: Fixed,
    pub u3: Fixed,
    pub u4: Fixed,
    pub v0: Fixed,
    pub v1: Fixed,
    pub v2: Fixed,
}

/// One GPU-ready instance record: world matrix, rotation-only normal matrix,
/// and the texture split points of the part's atlas region.
#[derive(Debug, Clone, Copy, PartialEq, Eq, Structural)]
pub struct CubeInstance {
    pub model: Mat4,
    pub normal: Mat3,
    pub tex_splits: TexSplits,
}

impl CubeInstance {
    /// The instance record of one part, exactly as [`Self::generate`]
    /// computes it: the texture region widths come from the part's local
    /// scale expressed in pixels and normalized by the atlas size, and the
    /// split points walk the skin-unwrap strip `z x z x` horizontally and
    /// `z y` vertically from the part's texture offset.
    pub open spec fn spec_generate(
        matrix: Mat4,
        rotation: Quat,
        local_scale: Vec3,
        local_tex_offset: Vec2,
        texture_size: Vec2,
        px_per_unit: Fixed,
    ) -> CubeInstance {
        let x_scale = Fixed::spec_div(
            Fixed::spec_mul(local_scale.x, px_per_unit),
            texture_size.x,
        );
        let y_y_scale = Fixed::spec_div(
            Fixed::spec_mul(local_scale.y, px_per_unit),
            texture_size.y,
        );
        let z_x_scale = Fixed::spec_div(
            Fixed::spec_mul(local_scale.z, px_per_unit),
            texture_size.x,
        );
        let z_y_scale = Fixed::spec_div(
            Fixed::spec_mul(local_scale.z, px_per_unit),
            texture_size.y,
        );
        let u0 = local_tex_offset.x;
        let u1 = Fixed::spec_add(u0, z_x_scale);
        let u2 = Fixed::spec_add(u1, x_scale);
        let u3 = Fixed::spec_add(u2, z_x_scale);
        let u4 = Fixed::spec_add(u3, x_scale);
        let v0 = local_tex_offset.y;
        let v1 = Fixed::spec_add(v0, z_y_scale);
        let v2 = Fixed::spec_add(v1, y_y_scale);
        CubeInstance {
            model: matrix,
            normal: Quat::spec_to_mat3(rotation),
            tex_splits: TexSplits { u0, u1, u2, u3, u4, v0, v1, v2 },
        }
    }

    /// Builds the instance record of one part.
    pub fn generate(
        matrix: &Mat4,
        rotation: &Quat,
        local_scale: &Vec3,
        local_tex_offset: &Vec2,
        texture_size: &Vec2,
        px_per_unit: Fixed,
    ) -> (r: CubeInstance)
        requires
            texture_size.x.raw != 0,
            texture_size.y.raw != 0,
        ensures
            r == Self::spec_generate(
                *matrix,
                *rotation,
                *local_scale,
                *local_tex_offset,
                *texture_size,
                px_per_unit,
            ),
    {
        let x_scale = local_scale.x.mul(px_per_unit).div(texture_size.x);
        let y_y_scale = local_scale.y.mul(px_per_unit).div(texture_size.y);
        let z_x_scale = local_scale.z.mul(px_per_unit).div(texture_size.x);
        let z_y_scale = local_scale.z.mul(px_per_unit).div(texture_size.y);
        let u0 = local_tex_offset.x;
        let u1 = u0.add(z_x_scale);
        let u2 = u1.add(x_scale);
        let u3 = u2.add(z_x_scale);
        let u4 = u3.add(x_scale);
        let v0 = local_tex_offset.y;
        let v1 = v0.add(z_y_scale);
        let v2 = v1.add(y_y_scale);
        CubeInstance {
            model: *matrix,
            normal: rotation.to_mat3(),
            tex_splits: TexSplits { u0, u1, u2, u3, u4, v0, v1, v2 },
        }
    }
}

/// The error of an instance-buffer update whose list length differs from the
/// length the buffer was created with.
#[derive(Debug, Clone, Copy, PartialEq, Eq, Structural)]
pub struct SizeMismatch {
    pub expected: usize,
    pub actual: usize,
}

/// The committed image of a GPU instance buffer: the instance list it was
/// created from and the element count fixed at creation.
#[derive(Debug)]
pub struct CubeModelData {
    contents: Vec<CubeInstance>,
    size: u32,
}

impl Clone for CubeModelData {
    /// Copy of the buffer image; the clone holds the same instances and the
    /// same committed size.
    fn clone(&self) -> (res: Self)
        ensures
            res.spec_contents() == self.spec_contents(),
            res.spec_size() == self.spec_size(),
    {
        let mut contents: Vec<CubeInstance> = Vec::new();
        let mut i: usize = 0;
        while i < self.contents.len()
            invariant
                i <= self.contents@.len(),
                contents@ =~= self.contents@.take(i as int),
            decreases self.contents@.len() - i,
        {
            contents.push(self.contents[i]);
            proof {
                assert(contents@ =~= self.contents@.take(i as int + 1));
            }
            i = i + 1;
        }
        proof {
            assert(contents@ =~= self.contents@);
        }
        CubeModelData { contents, size: self.size }
    }
}

impl CubeModelData {
    /// The element count committed at creation; updates never change it.
    pub closed spec fn spec_size(&self) -> u32 {
        self.size
    }

    /// The instances the buffer currently holds.
    pub closed spec fn spec_contents(&self) -> Seq<CubeInstance> {
        self.contents@
    }

    /// Creates a buffer sized to the given instance list.
    pub fn new(default: Vec<CubeInstance>) -> (r: CubeModelData)
        requires
            default@.len() <= u32::MAX,
        ensures
            r.spec_contents() == default@,
            r.spec_size() == default@.len(),
    {
        let size: u32 = default.len() as u32;
        CubeModelData { contents: default, size }
    }

    pub fn size(&self) -> (r: u32)
        ensures
            r == self.spec_size(),
    {
        self.size
    }

    pub fn contents(&self) -> (r: &Vec<CubeInstance>)
        ensures
            r@ == self.spec_contents(),
    {
        &self.contents
    }

    /// Rewrites the whole buffer. The buffer never resizes: a list whose
    /// length differs from the creation length is rejected and the contents
    /// stay untouched.
    pub fn update(&mut self, new: Vec<CubeInstance>) -> (r: Result<(), SizeMismatch>)
        ensures
            final(self).spec_size() == old(self).spec_size(),
            r is Ok <==> new@.len() == old(self).spec_size(),
            r is Ok ==> final(self).spec_contents() == new@,
            r is Err ==> final(self).spec_contents() == old(self).spec_contents(),
            r is Err ==> r->Err_0 == (SizeMismatch {
                expected: old(self).spec_size() as usize,
                actual: new@.len() as usize,
            }),
    {
        if new.len() != self.size as usize {
            return Err(SizeMismatch { expected: self.size as usize, actual: new.len() });
        }
        self.contents = new;
        Ok(())
    }
}

} // verus!

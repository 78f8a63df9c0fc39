//! Animated models: a cube model driven by a user-supplied controller that
//! mutates the bone tree before each re-bake.

use vstd::prelude::*;

use crate::models::cubes::{spec_bake, spec_part_count, spec_px_per_unit, spec_tex_vec, CubeModel};
use crate::models::data::{CubeModelBone, SizeMismatch};

verus! {

/// An animation controller: user logic that retargets the bone tree's
/// transforms each frame. Implementations may mutate the tree freely; an
/// implementation that changes the part count makes the following re-bake
/// fail with a size mismatch.
pub trait AnimController: Sized + Clone {
    fn update(&mut self, root: &mut CubeModelBone);
}

/// A cube model paired with its animation controller.
#[derive(Debug)]
pub struct AnimatedModel<T: AnimController> {
    pub model: CubeModel,
    pub controller: T,
}

impl<T: AnimController> AnimatedModel<T> {
    /// Pairs a model with a controller.
    pub fn new(model: CubeModel, controller: T) -> (r: Self)
        ensures
            r.model == model,
            r.controller == controller,
    {
        AnimatedModel { model, controller }
    }

    /// Runs the controller over the bone tree, then re-bakes the model.
    /// Succeeds exactly when the tree the controller left behind still has
    /// the committed part count; on failure the buffer stays untouched.
    pub fn update(&mut self, texture_size: (u32, u32)) -> (r: Result<(), SizeMismatch>)
        requires
            texture_size.0 > 0,
            texture_size.1 > 0,
        ensures
            final(self).model.transform == old(self).model.transform,
            final(self).model.data.spec_size() == old(self).model.data.spec_size(),
            r is Ok <==> spec_part_count(final(self).model.bone@) == old(
                self,
            ).model.data.spec_size(),
            r is Ok ==> final(self).model.data.spec_contents() == spec_bake(
                final(self).model.bone@,
                crate::geom::Transform::spec_to_mat(old(self).model.transform),
                old(self).model.transform.rotation,
                spec_tex_vec(texture_size.0, texture_size.1),
                spec_px_per_unit(),
            ),
            r is Err ==> final(self).model.data.spec_contents() == old(
                self,
            ).model.data.spec_contents(),
    {
        self.controller.update(&mut self.model.bone);
        self.model.update(texture_size)
    }

    /// Clones the model by re-baking it into a fresh buffer, and clones the
    /// controller with it.
    pub fn clone(&self, texture_size: (u32, u32)) -> (r: Self)
        requires
            texture_size.0 > 0,
            texture_size.1 > 0,
            spec_part_count(self.model.bone@) <= u32::MAX,
        ensures
            r.model.transform == self.model.transform,
            r.model.bone@ == self.model.bone@,
            r.model.data.spec_size() == spec_part_count(self.model.bone@),
            r.model.data.spec_contents() == spec_bake(
                self.model.bone@,
                crate::geom::Transform::spec_to_mat(self.model.transform),
                self.model.transform.rotation,
                spec_tex_vec(texture_size.0, texture_size.1),
                spec_px_per_unit(),
            ),
            vstd::pervasive::cloned::<T>(self.controller, r.controller),
    {
        AnimatedModel {
            model: self.model.clone(texture_size),
            controller: self.controller.clone(),
        }
    }
}

} // verus!

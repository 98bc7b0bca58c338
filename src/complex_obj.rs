//! A root model with child scene objects of any shape, to any depth.

use vstd::prelude::*;
use crate::matrix::{GLMatrix, MatrixTransform};
use crate::obj_model::ObjModel;
use crate::scene_object::SceneObject;

verus! {

/// A root model and child scene objects whose transforms are read in the root's frame.
#[derive(Debug)]
pub struct ComplexObj {
    pub root: ObjModel,
    pub children: Vec<SceneObject>,
}

impl ComplexObj {
    /// This tree with `child` appended after the existing children.
    pub fn add_children(self, child: SceneObject) -> (r: ComplexObj)
        ensures
            r.root == self.root,
            r.children@ == self.children@.push(child),
    {
        let mut new_children = self.children;
        new_children.push(child);
        ComplexObj { root: self.root, children: new_children }
    }
}

impl MatrixTransform for ComplexObj {
    open spec fn transform(&self) -> GLMatrix {
        self.root.model
    }

    open spec fn with_transform(&self, m: GLMatrix) -> ComplexObj {
        ComplexObj { root: ObjModel { model: m, ..self.root }, children: self.children }
    }

    fn get_matrix(&self) -> (r: &GLMatrix) {
        &self.root.model
    }

    fn update_matrix(&mut self, matrix: &GLMatrix) {
        self.root.model = *matrix;
    }

    fn from_matrix(self, matrix: &GLMatrix) -> (r: ComplexObj) {
        ComplexObj { root: ObjModel { model: *matrix, ..self.root }, children: self.children }
    }
}

} // verus!

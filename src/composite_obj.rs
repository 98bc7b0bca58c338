//! A root model with a flat list of child models placed in the root's frame.

use vstd::prelude::*;
use crate::matrix::{GLMatrix, MatrixTransform};
use crate::obj_model::ObjModel;

verus! {

/// A root model and child models whose transforms are read in the root's frame.
#[derive(Clone, Debug)]
pub struct CompositeObj {
    pub root: ObjModel,
    pub children: Vec<ObjModel>,
}

impl CompositeObj {
    /// This composite with `child` appended after the existing children.
    pub fn add_children(&self, child: &ObjModel) -> (r: CompositeObj)
        ensures
            r.root == self.root,
            r.children@ == self.children@.push(*child),
    {
        let mut new_children = self.children.clone();
        assert(new_children@ == self.children@);
        new_children.push(*child);
        CompositeObj { root: self.root, children: new_children }
    }
}

impl MatrixTransform for CompositeObj {
    open spec fn transform(&self) -> GLMatrix {
        self.root.model
    }

    open spec fn with_transform(&self, m: GLMatrix) -> CompositeObj {
        CompositeObj { root: ObjModel { model: m, ..self.root }, children: self.children }
    }

    fn get_matrix(&self) -> (r: &GLMatrix) {
        &self.root.model
    }

    fn update_matrix(&mut self, matrix: &GLMatrix) {
        self.root.model = *matrix;
    }

    fn from_matrix(self, matrix: &GLMatrix) -> (r: CompositeObj) {
        CompositeObj { root: ObjModel { model: *matrix, ..self.root }, children: self.children }
    }
}

} // verus!

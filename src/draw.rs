//! Drawing interfaces, implemented by the renderer that owns a graphics context.

use vstd::prelude::*;
use crate::scene_object::SceneObject;

verus! {

/// Something that issues its own draw calls with a shader program.
pub trait Draw {
    fn draw(&self, program: &u32) -> &Self;
}

/// Drawing that hands the drawn value back, for chaining.
pub trait DrawSelf: Draw {
    fn draw_self(&self, program: &u32) -> &Self {
        self.draw(program);
        self
    }
}

/// A scene object paired with the shader program that draws it.
pub struct Drawable<'a> {
    pub object: &'a SceneObject,
    pub shader: &'a u32,
}

impl<'a> Drawable<'a> {
    /// Pairs `object` with `shader`.
    pub fn new(object: &'a SceneObject, shader: &'a u32) -> (r: Drawable<'a>)
        ensures
            r.object == object,
            r.shader == shader,
    {
        Drawable { object, shader }
    }

    /// The same shader with another object.
    pub fn update_object(&self, object: &'a SceneObject) -> (r: Drawable<'a>)
        ensures
            r.object == object,
            r.shader == self.shader,
    {
        Drawable { object, shader: self.shader }
    }

    /// The same object with another shader.
    pub fn update_shader(&self, shader: &'a u32) -> (r: Drawable<'a>)
        ensures
            r.object == self.object,
            r.shader == shader,
    {
        Drawable { object: self.object, shader }
    }
}

} // verus!

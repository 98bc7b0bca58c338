//! The scene object: a leaf, a one-level composite or a tree, behind one interface.

use vstd::prelude::*;
use crate::composite_obj::CompositeObj;
use crate::complex_obj::ComplexObj;
use crate::fixed::{Vec3, Vec4};
use crate::matrix::{GLMatrix, MatrixTransform, mat_product, translating_spec};
use crate::obj_model::{MeshError, MeshHandles, ObjModel, global_box, intersects, loaded_model};

verus! {

/// Anything that can stand in a scene as one value.
#[derive(Debug)]
pub enum SceneObject {
    CompositeObj(CompositeObj),
    ObjModel(ObjModel),
    ComplexObj(ComplexObj),
}

/// The models of a sequence of scene objects, each flattened in pre-order, in sequence order.
pub open spec fn flatten_nodes(s: Seq<SceneObject>) -> Seq<ObjModel>
    decreases s,
{
    if s.len() == 0 {
        Seq::empty()
    } else {
        flatten_nodes(s.subrange(0, s.len() - 1)) + s[s.len() - 1].flatten()
    }
}

/// Whether two sequences of children are copies of each other, position by position.
pub open spec fn same_nodes(a: Seq<SceneObject>, b: Seq<SceneObject>) -> bool
    decreases a,
{
    if a.len() != b.len() {
        false
    } else if a.len() == 0 {
        true
    } else {
        same_nodes(a.subrange(0, a.len() - 1), b.subrange(0, b.len() - 1)) && a[a.len() - 1].same_as(
            b[b.len() - 1],
        )
    }
}

/// Whether `r` is what adding `child` to `parent` must give: the smallest shape
/// that holds both, with every node kept in order.
pub open spec fn promoted(parent: SceneObject, child: SceneObject, r: SceneObject) -> bool {
    match parent {
        SceneObject::ObjModel(o) => match child {
            SceneObject::ObjModel(c) => r matches SceneObject::CompositeObj(k) && k.root == o
                && k.children@ == seq![c],
            _ => r matches SceneObject::ComplexObj(k) && k.root == o && k.children@ == seq![child],
        },
        SceneObject::CompositeObj(a) => match child {
            SceneObject::ObjModel(c) => r matches SceneObject::CompositeObj(k) && k.root == a.root
                && k.children@ == a.children@.push(c),
            _ => r matches SceneObject::ComplexObj(k) && k.root == a.root && k.children@
                == as_nodes(a.children@).push(child),
        },
        SceneObject::ComplexObj(a) => r matches SceneObject::ComplexObj(k) && k.root == a.root
            && k.children@ == a.children@.push(child),
    }
}

/// Each model of `s` as a leaf scene object.
pub open spec fn as_nodes(s: Seq<ObjModel>) -> Seq<SceneObject> {
    s.map_values(|m: ObjModel| SceneObject::ObjModel(m))
}

/// The transform that places a model stored with transform `m` under the frame `frame`.
pub open spec fn world(m: GLMatrix, frame: Option<GLMatrix>) -> GLMatrix {
    match frame {
        None => m,
        Some(p) => mat_product(m, p),
    }
}

/// Leaf children as drawn in the frame `w`: each one's own transform, then `w`.
pub open spec fn placed_leaves(s: Seq<ObjModel>, w: GLMatrix) -> Seq<ObjModel> {
    s.map_values(|m: ObjModel| ObjModel { model: mat_product(m.model, w), ..m })
}

/// The models of a sequence of children as drawn in the frame `w`, in sequence order.
pub open spec fn placed_nodes(s: Seq<SceneObject>, w: GLMatrix) -> Seq<ObjModel>
    decreases s,
{
    if s.len() == 0 {
        Seq::empty()
    } else {
        placed_nodes(s.subrange(0, s.len() - 1), w) + s[s.len() - 1].placed(Some(w))
    }
}

/// Whether some model of `s` meets the box of `other`.
pub open spec fn hits_any(s: Seq<ObjModel>, other: ObjModel) -> bool {
    exists|i: int| 0 <= i < s.len() && intersects(#[trigger] s[i], other)
}

/// Closed-interval overlap of two boxes on the x, y and z axes.
pub open spec fn boxes_intersect(a_min: Vec4, a_max: Vec4, b_min: Vec4, b_max: Vec4) -> bool {
    &&& a_min.x <= b_max.x && a_max.x >= b_min.x
    &&& a_min.y <= b_max.y && a_max.y >= b_min.y
    &&& a_min.z <= b_max.z && a_max.z >= b_min.z
}

/// Whether `p` lies in the closed box from `lo` to `hi` on the x, y and z axes.
pub open spec fn point_in_box(lo: Vec4, hi: Vec4, p: Vec4) -> bool {
    &&& lo.x <= p.x <= hi.x
    &&& lo.y <= p.y <= hi.y
    &&& lo.z <= p.z <= hi.z
}

impl SceneObject {
    /// The root model: the object itself for a leaf.
    pub open spec fn root(self) -> ObjModel {
        match self {
            SceneObject::ObjModel(o) => o,
            SceneObject::CompositeObj(c) => c.root,
            SceneObject::ComplexObj(c) => c.root,
        }
    }

    /// This object with its root model replaced by `m` and its children kept.
    pub open spec fn with_root(self, m: ObjModel) -> SceneObject {
        match self {
            SceneObject::ObjModel(_) => SceneObject::ObjModel(m),
            SceneObject::CompositeObj(c) => SceneObject::CompositeObj(
                CompositeObj { root: m, children: c.children },
            ),
            SceneObject::ComplexObj(c) => SceneObject::ComplexObj(
                ComplexObj { root: m, children: c.children },
            ),
        }
    }

    /// Whether `other` is a copy of this object: the same shape, the same models, and
    /// children that are copies of each other.
    pub open spec fn same_as(self, other: SceneObject) -> bool
        decreases self,
    {
        match self {
            SceneObject::ObjModel(a) => other == SceneObject::ObjModel(a),
            SceneObject::CompositeObj(a) => other matches SceneObject::CompositeObj(b) && b.root
                == a.root && b.children@ == a.children@,
            SceneObject::ComplexObj(a) => other matches SceneObject::ComplexObj(b) && b.root
                == a.root && same_nodes(a.children@, b.children@),
        }
    }

    /// Every model of the object in pre-order: the root, then each child's models.
    pub open spec fn flatten(self) -> Seq<ObjModel>
        decreases self,
    {
        match self {
            SceneObject::ObjModel(o) => seq![o],
            SceneObject::CompositeObj(c) => seq![c.root] + c.children@,
            SceneObject::ComplexObj(c) => seq![c.root] + flatten_nodes(c.children@),
        }
    }

    /// Every model of the object as it is drawn, in pre-order, under the frame
    /// `frame` (`None` at the top of a scene). The root is drawn with its own
    /// transform composed with the frame, and each child with its own transform
    /// composed with the root's drawn transform, recursively.
    pub open spec fn placed(self, frame: Option<GLMatrix>) -> Seq<ObjModel>
        decreases self,
    {
        let w = world(self.root().model, frame);
        let r = ObjModel { model: w, ..self.root() };
        match self {
            SceneObject::ObjModel(_) => seq![r],
            SceneObject::CompositeObj(c) => seq![r] + placed_leaves(c.children@, w),
            SceneObject::ComplexObj(c) => seq![r] + placed_nodes(c.children@, w),
        }
    }

    /// The models of direct child `i` as drawn when this object stands at the top of
    /// a scene: they form one block of `placed(None)`, after the root and the blocks
    /// of the children before `i`.
    pub open spec fn child_placement(self, i: int) -> Seq<ObjModel> {
        match self {
            SceneObject::ObjModel(_) => Seq::empty(),
            SceneObject::CompositeObj(c) => seq![placed_leaves(c.children@, c.root.model)[i]],
            SceneObject::ComplexObj(c) => c.children@[i].placed(Some(c.root.model)),
        }
    }

    /// A leaf made of the mesh whose flat vertex positions are `positions`.
    pub fn new(positions: &Vec<i64>, mesh: MeshHandles) -> (r: Result<SceneObject, MeshError>)
        ensures
            positions@.len() == 0 ==> r == Err::<SceneObject, MeshError>(MeshError::NoPositions),
            positions@.len() != 0 && positions@.len() % 3 != 0 ==> r == Err::<
                SceneObject,
                MeshError,
            >(MeshError::IncompleteVertex),
            positions@.len() != 0 && positions@.len() % 3 == 0 ==> (r matches Ok(s) && s
                == SceneObject::ObjModel(loaded_model(positions@, mesh))),
    {
        match ObjModel::new(positions, mesh) {
            Ok(m) => Ok(SceneObject::ObjModel(m)),
            Err(e) => Err(e),
        }
    }

    /// The root model.
    pub fn get_root_model(&self) -> (r: ObjModel)
        ensures
            r == self.root(),
    {
        match self {
            SceneObject::ObjModel(o) => *o,
            SceneObject::CompositeObj(c) => c.root,
            SceneObject::ComplexObj(c) => c.root,
        }
    }

    /// The root model alone, as a leaf: every child is left out.
    pub fn get_root(&self) -> (r: SceneObject)
        ensures
            r == SceneObject::ObjModel(self.root()),
    {
        SceneObject::ObjModel(self.get_root_model())
    }

    /// This object with its root model replaced by `m` and its children kept.
    pub fn replace_root(self, m: ObjModel) -> (r: SceneObject)
        ensures
            r == self.with_root(m),
    {
        match self {
            SceneObject::ObjModel(_) => SceneObject::ObjModel(m),
            SceneObject::CompositeObj(c) => SceneObject::CompositeObj(
                CompositeObj { root: m, children: c.children },
            ),
            SceneObject::ComplexObj(c) => SceneObject::ComplexObj(
                ComplexObj { root: m, children: c.children },
            ),
        }
    }

    /// Attaches `child`, growing the object into the smallest shape that holds both:
    /// two leaves make a composite; a leaf or composite given a composite or tree
    /// becomes a tree; a composite given a leaf appends it; a tree appends anything.
    pub fn add_children(self, child: SceneObject) -> (r: SceneObject)
        ensures
            promoted(self, child, r),
    {
        match self {
            SceneObject::ObjModel(o) => match child {
                SceneObject::ObjModel(c) => {
                    let mut children: Vec<ObjModel> = Vec::new();
                    children.push(c);
                    SceneObject::CompositeObj(CompositeObj { root: o, children })
                },
                _ => {
                    let mut children: Vec<SceneObject> = Vec::new();
                    children.push(child);
                    SceneObject::ComplexObj(ComplexObj { root: o, children })
                },
            },
            SceneObject::CompositeObj(a) => match child {
                SceneObject::ObjModel(c) => SceneObject::CompositeObj(a.add_children(&c)),
                _ => {
                    let mut new_children: Vec<SceneObject> = Vec::new();
                    let mut i: usize = 0;
                    while i < a.children.len()
                        invariant
                            i <= a.children@.len(),
                            new_children@ == as_nodes(a.children@.subrange(0, i as int)),
                        decreases a.children@.len() - i,
                    {
                        new_children.push(SceneObject::ObjModel(a.children[i]));
                        i = i + 1;
                        assert(as_nodes(a.children@.subrange(0, i as int)) =~= as_nodes(
                            a.children@.subrange(0, i - 1),
                        ).push(SceneObject::ObjModel(a.children@[i - 1])));
                    }
                    assert(a.children@.subrange(0, i as int) =~= a.children@);
                    new_children.push(child);
                    SceneObject::ComplexObj(ComplexObj { root: a.root, children: new_children })
                },
            },
            SceneObject::ComplexObj(a) => SceneObject::ComplexObj(a.add_children(child)),
        }
    }

    /// The root's local bounding-box minimum corner.
    pub fn get_bbox_min(&self) -> (r: Vec3)
        ensures
            r == self.root().bbox_min,
    {
        self.get_root_model().bbox_min
    }

    /// The root's local bounding-box maximum corner.
    pub fn get_bbox_max(&self) -> (r: Vec3)
        ensures
            r == self.root().bbox_max,
    {
        self.get_root_model().bbox_max
    }

    /// The root's local box placed in the world by the root's transform.
    pub fn get_global_bounding_box(&self) -> (r: (Vec4, Vec4))
        ensures
            r == global_box(self.root()),
    {
        self.get_root_model().global_bounding_box()
    }

    /// The root's colour.
    pub fn get_color(&self) -> (r: Vec3)
        ensures
            r == self.root().color_overide,
    {
        self.get_root_model().color_overide
    }

    /// The root's texture mapping mode.
    pub fn get_texture_map_type(&self) -> (r: i32)
        ensures
            r == self.root().texture_map_type,
    {
        self.get_root_model().texture_map_type
    }

    /// The root's texture.
    pub fn get_texture_override(&self) -> (r: u32)
        ensures
            r == self.root().texture_override,
    {
        self.get_root_model().texture_override
    }

    /// The root's ambient reflectance.
    pub fn get_ambient_lighting_override(&self) -> (r: Vec3)
        ensures
            r == self.root().ambient_reflectance_overide,
    {
        self.get_root_model().ambient_reflectance_overide
    }

    /// This object with `texture` on its root, drawn in the given mapping mode.
    pub fn with_texture(self, texture: &u32, texture_map_type: i32) -> (r: SceneObject)
        ensures
            r == self.with_root(
                ObjModel { texture_override: *texture, texture_map_type, ..self.root() },
            ),
    {
        let m = self.get_root_model().with_texture(texture, texture_map_type);
        self.replace_root(m)
    }

    /// This object with another texture mapping mode on its root.
    pub fn with_texture_map_type(self, texture_map_type: i32) -> (r: SceneObject)
        ensures
            r == self.with_root(ObjModel { texture_map_type, ..self.root() }),
    {
        let m = self.get_root_model().with_texture_map_type(texture_map_type);
        self.replace_root(m)
    }

    /// This object with another specular reflectance on its root.
    pub fn with_specular_reflectance(self, specular_reflectance: &Vec3) -> (r: SceneObject)
        ensures
            r == self.with_root(
                ObjModel { specular_reflectance_override: *specular_reflectance, ..self.root() },
            ),
    {
        let m = self.get_root_model().with_specular_reflectance(specular_reflectance);
        self.replace_root(m)
    }

    /// This object with another ambient reflectance on its root.
    pub fn with_ambient_reflectance(self, ambient_reflectance: &Vec3) -> (r: SceneObject)
        ensures
            r == self.with_root(
                ObjModel { ambient_reflectance_overide: *ambient_reflectance, ..self.root() },
            ),
    {
        let m = self.get_root_model().with_ambient_reflectance(ambient_reflectance);
        self.replace_root(m)
    }

    /// This object with another Phong exponent on its root.
    pub fn with_specular_phong_q(self, phong_q: &i64) -> (r: SceneObject)
        ensures
            r == self.with_root(ObjModel { phong_q_overide: *phong_q, ..self.root() }),
    {
        let m = self.get_root_model().with_specular_phong_q(phong_q);
        self.replace_root(m)
    }

    /// This object with another colour on its root; the children keep theirs.
    pub fn with_color(self, color: &Vec3) -> (r: SceneObject)
        ensures
            r == self.with_root(ObjModel { color_overide: *color, ..self.root() }),
    {
        let m = self.get_root_model().with_color(color);
        self.replace_root(m)
    }

    /// This object with its root lit from another source.
    pub fn with_lighting_direction_override(self, lighting_direction_override: &Vec4) -> (r:
        SceneObject)
        ensures
            r == self.with_root(
                ObjModel { lighting_source_override: *lighting_direction_override, ..self.root() },
            ),
    {
        let m = self.get_root_model().with_lighting_source_override(lighting_direction_override);
        self.replace_root(m)
    }

    /// Appends to `out` every model of this object as drawn under `frame`.
    fn push_placed(&self, frame: Option<GLMatrix>, out: &mut Vec<ObjModel>)
        ensures
            final(out)@ == old(out)@ + self.placed(frame),
        decreases self,
    {
        let root = self.get_root_model();
        let w = match frame {
            None => root.model,
            Some(p) => root.model.mul_mat(&p),
        };
        out.push(ObjModel { model: w, ..root });
        match self {
            SceneObject::ObjModel(_) => {},
            SceneObject::CompositeObj(c) => {
                let ghost start = out@;
                let mut i: usize = 0;
                while i < c.children.len()
                    invariant
                        i <= c.children@.len(),
                        out@ == start + placed_leaves(c.children@.subrange(0, i as int), w),
                    decreases c.children@.len() - i,
                {
                    let m = c.children[i];
                    out.push(ObjModel { model: m.model.mul_mat(&w), ..m });
                    i = i + 1;
                    assert(placed_leaves(c.children@.subrange(0, i as int), w) =~= placed_leaves(
                        c.children@.subrange(0, i - 1),
                        w,
                    ).push(ObjModel { model: mat_product(m.model, w), ..m }));
                }
                assert(c.children@.subrange(0, i as int) =~= c.children@);
            },
            SceneObject::ComplexObj(c) => {
                let ghost start = out@;
                proof {
                    assert(decreases_to!(*self => (*self)->ComplexObj_0));
                    assert(decreases_to!(*c => c.children));
                    assert(decreases_to!(c.children => c.children@));
                }
                let mut i: usize = 0;
                while i < c.children.len()
                    invariant
                        i <= c.children@.len(),
                        decreases_to!(*self => c.children@),
                        out@ == start + placed_nodes(c.children@.subrange(0, i as int), w),
                    decreases c.children@.len() - i,
                {
                    proof {
                        assert(decreases_to!(c.children@ => c.children@[i as int]));
                    }
                    c.children[i].push_placed(Some(w), out);
                    i = i + 1;
                    assert(c.children@.subrange(0, i as int).subrange(0, i - 1) =~= c.children@.subrange(0, i - 1));
                    assert(out@ =~= start + placed_nodes(c.children@.subrange(0, i as int), w));
                }
                assert(c.children@.subrange(0, i as int) =~= c.children@);
            },
        }
    }

    /// A copy of this object, sharing nothing with it but the GPU handles its models name.
    pub fn duplicate(&self) -> (r: SceneObject)
        ensures
            self.same_as(r),
        decreases self,
    {
        match self {
            SceneObject::ObjModel(o) => SceneObject::ObjModel(*o),
            SceneObject::CompositeObj(c) => {
                let children = c.children.clone();
                assert(children@ =~= c.children@);
                SceneObject::CompositeObj(CompositeObj { root: c.root, children })
            },
            SceneObject::ComplexObj(c) => {
                proof {
                    assert(decreases_to!(*self => (*self)->ComplexObj_0));
                    assert(decreases_to!(*c => c.children));
                    assert(decreases_to!(c.children => c.children@));
                }
                let mut children: Vec<SceneObject> = Vec::new();
                let mut i: usize = 0;
                while i < c.children.len()
                    invariant
                        i <= c.children@.len(),
                        decreases_to!(*self => c.children@),
                        same_nodes(c.children@.subrange(0, i as int), children@),
                    decreases c.children@.len() - i,
                {
                    proof {
                        assert(decreases_to!(c.children@ => c.children@[i as int]));
                    }
                    let copy = c.children[i].duplicate();
                    let ghost before = children@;
                    children.push(copy);
                    i = i + 1;
                    proof {
                        let a = c.children@.subrange(0, i as int);
                        assert(a.subrange(0, i - 1) =~= c.children@.subrange(0, i - 1));
                        assert(children@.subrange(0, i - 1) =~= before);
                        assert(a[i - 1] == c.children@[i - 1]);
                    }
                }
                assert(c.children@.subrange(0, i as int) =~= c.children@);
                SceneObject::ComplexObj(ComplexObj { root: c.root, children })
            },
        }
    }

    /// Appends to `out` every model of this object, as stored, in pre-order.
    fn push_models(&self, out: &mut Vec<ObjModel>)
        ensures
            final(out)@ == old(out)@ + self.flatten(),
        decreases self,
    {
        out.push(self.get_root_model());
        match self {
            SceneObject::ObjModel(_) => {},
            SceneObject::CompositeObj(c) => {
                let ghost start = out@;
                let mut i: usize = 0;
                while i < c.children.len()
                    invariant
                        i <= c.children@.len(),
                        out@ == start + c.children@.subrange(0, i as int),
                    decreases c.children@.len() - i,
                {
                    out.push(c.children[i]);
                    i = i + 1;
                    assert(c.children@.subrange(0, i as int) =~= c.children@.subrange(0, i - 1).push(
                        c.children@[i - 1],
                    ));
                }
                assert(c.children@.subrange(0, i as int) =~= c.children@);
            },
            SceneObject::ComplexObj(c) => {
                let ghost start = out@;
                proof {
                    assert(decreases_to!(*self => (*self)->ComplexObj_0));
                    assert(decreases_to!(*c => c.children));
                    assert(decreases_to!(c.children => c.children@));
                }
                let mut i: usize = 0;
                while i < c.children.len()
                    invariant
                        i <= c.children@.len(),
                        decreases_to!(*self => c.children@),
                        out@ == start + flatten_nodes(c.children@.subrange(0, i as int)),
                    decreases c.children@.len() - i,
                {
                    proof {
                        assert(decreases_to!(c.children@ => c.children@[i as int]));
                    }
                    c.children[i].push_models(out);
                    i = i + 1;
                    assert(c.children@.subrange(0, i as int).subrange(0, i - 1) =~= c.children@.subrange(0, i - 1));
                    assert(out@ =~= start + flatten_nodes(c.children@.subrange(0, i as int)));
                }
                assert(c.children@.subrange(0, i as int) =~= c.children@);
            },
        }
    }

    /// Every model of the object as stored, in pre-order: the root, then each child's
    /// models.
    pub fn models(&self) -> (r: Vec<ObjModel>)
        ensures
            r@ == self.flatten(),
    {
        let mut out: Vec<ObjModel> = Vec::new();
        self.push_models(&mut out);
        assert(out@ =~= self.flatten());
        out
    }

    /// Every model of the object as it is drawn, in pre-order: the root with its own
    /// transform, and each descendant with its transform composed with its parent's.
    pub fn draw_list(&self) -> (r: Vec<ObjModel>)
        ensures
            r@ == self.placed(None),
    {
        let mut out: Vec<ObjModel> = Vec::new();
        self.push_placed(None, &mut out);
        assert(out@ =~= self.placed(None));
        out
    }

    /// Whether any model of this object, the root or a descendant at any depth,
    /// meets the root box of `obj2`. Each model is tested with its stored transform.
    pub fn detect_colision(&self, obj2: &SceneObject) -> (r: bool)
        ensures
            r == hits_any(self.flatten(), obj2.root()),
        decreases self,
    {
        let ghost other = obj2.root();
        match self {
            SceneObject::ObjModel(o) => {
                let hit = o.check_intersection(obj2);
                assert(hit ==> intersects(self.flatten()[0], other));
                hit
            },
            SceneObject::CompositeObj(c) => {
                let mut is_coliding = c.root.check_intersection(obj2);
                proof {
                    lemma_hits_any_single(c.root, other);
                }
                let mut i: usize = 0;
                while i < c.children.len()
                    invariant
                        i <= c.children@.len(),
                        other == obj2.root(),
                        is_coliding == hits_any(seq![c.root] + c.children@.subrange(0, i as int), other),
                    decreases c.children@.len() - i,
                {
                    let hit = c.children[i].check_intersection(obj2);
                    proof {
                        let before = seq![c.root] + c.children@.subrange(0, i as int);
                        assert(seq![c.root] + c.children@.subrange(0, i + 1) =~= before + seq![c.children@[i as int]]);
                        lemma_hits_any_concat(before, seq![c.children@[i as int]], other);
                        lemma_hits_any_single(c.children@[i as int], other);
                    }
                    is_coliding = hit || is_coliding;
                    i = i + 1;
                }
                assert(c.children@.subrange(0, i as int) =~= c.children@);
                is_coliding
            },
            SceneObject::ComplexObj(c) => {
                let mut is_coliding = c.root.check_intersection(obj2);
                proof {
                    lemma_hits_any_single(c.root, other);
                    assert(flatten_nodes(c.children@.subrange(0, 0)) =~= Seq::<ObjModel>::empty());
                    assert(seq![c.root] + flatten_nodes(c.children@.subrange(0, 0)) =~= seq![c.root]);
                }
                proof {
                    assert(decreases_to!(*self => (*self)->ComplexObj_0));
                    assert(decreases_to!(*c => c.children));
                    assert(decreases_to!(c.children => c.children@));
                }
                let mut i: usize = 0;
                while i < c.children.len()
                    invariant
                        i <= c.children@.len(),
                        decreases_to!(*self => c.children@),
                        other == obj2.root(),
                        is_coliding == hits_any(seq![c.root] + flatten_nodes(c.children@.subrange(0, i as int)), other),
                    decreases c.children@.len() - i,
                {
                    proof {
                        assert(decreases_to!(c.children@ => c.children@[i as int]));
                    }
                    let hit = c.children[i].detect_colision(obj2);
                    proof {
                        let before = seq![c.root] + flatten_nodes(c.children@.subrange(0, i as int));
                        let next = c.children@.subrange(0, i + 1);
                        assert(next.subrange(0, i as int) =~= c.children@.subrange(0, i as int));
                        assert(seq![c.root] + flatten_nodes(next) =~= before + c.children@[i as int].flatten());
                        lemma_hits_any_concat(before, c.children@[i as int].flatten(), other);
                    }
                    is_coliding = hit || is_coliding;
                    i = i + 1;
                }
                assert(c.children@.subrange(0, i as int) =~= c.children@);
                is_coliding
            },
        }
    }

    /// Whether the root boxes of this object and `obj2` meet.
    pub fn check_intersection(&self, obj2: &SceneObject) -> (r: bool)
        ensures
            r == intersects(self.root(), obj2.root()),
    {
        self.get_root_model().check_intersection(obj2)
    }
}

impl Clone for SceneObject {
    fn clone(&self) -> SceneObject {
        self.duplicate()
    }
}

impl MatrixTransform for SceneObject {
    open spec fn transform(&self) -> GLMatrix {
        self.root().model
    }

    open spec fn with_transform(&self, m: GLMatrix) -> SceneObject {
        self.with_root(ObjModel { model: m, ..self.root() })
    }

    fn get_matrix(&self) -> (r: &GLMatrix) {
        match self {
            SceneObject::ObjModel(o) => &o.model,
            SceneObject::CompositeObj(c) => &c.root.model,
            SceneObject::ComplexObj(c) => &c.root.model,
        }
    }

    fn update_matrix(&mut self, matrix: &GLMatrix) {
        match self {
            SceneObject::ObjModel(o) => {
                o.model = *matrix;
            },
            SceneObject::CompositeObj(c) => {
                c.root.model = *matrix;
            },
            SceneObject::ComplexObj(c) => {
                c.root.model = *matrix;
            },
        }
    }

    fn from_matrix(self, matrix: &GLMatrix) -> (r: SceneObject) {
        let m = ObjModel { model: *matrix, ..self.get_root_model() };
        self.replace_root(m)
    }
}

/// A one-model sequence is hit exactly when its model is.
pub proof fn lemma_hits_any_single(m: ObjModel, other: ObjModel)
    ensures
        hits_any(seq![m], other) == intersects(m, other),
{
    if intersects(m, other) {
        assert(seq![m][0] == m);
    }
}

/// A concatenation is hit exactly when one of its parts is.
pub proof fn lemma_hits_any_concat(s: Seq<ObjModel>, t: Seq<ObjModel>, other: ObjModel)
    ensures
        hits_any(s + t, other) == (hits_any(s, other) || hits_any(t, other)),
{
    let st = s + t;
    if hits_any(st, other) {
        let i = choose|i: int| 0 <= i < st.len() && intersects(#[trigger] st[i], other);
        if i < s.len() {
            assert(s[i] == st[i]);
        } else {
            assert(t[i - s.len()] == st[i]);
        }
    }
    if hits_any(s, other) {
        let i = choose|i: int| 0 <= i < s.len() && intersects(#[trigger] s[i], other);
        assert(st[i] == s[i]);
    }
    if hits_any(t, other) {
        let i = choose|i: int| 0 <= i < t.len() && intersects(#[trigger] t[i], other);
        assert(st[i + s.len()] == t[i]);
    }
}

/// Appending a child appends its models.
pub proof fn lemma_flatten_nodes_push(s: Seq<SceneObject>, x: SceneObject)
    ensures
        flatten_nodes(s.push(x)) == flatten_nodes(s) + x.flatten(),
{
    assert(s.push(x).subrange(0, s.len() as int) =~= s);
}

/// Leaf children flatten to their own models.
pub proof fn lemma_flatten_as_nodes(s: Seq<ObjModel>)
    ensures
        flatten_nodes(as_nodes(s)) == s,
    decreases s.len(),
{
    if s.len() > 0 {
        let p = s.subrange(0, s.len() - 1);
        lemma_flatten_as_nodes(p);
        assert(as_nodes(s).subrange(0, s.len() - 1) =~= as_nodes(p));
        let last = as_nodes(s)[s.len() - 1];
        assert(last == SceneObject::ObjModel(s[s.len() - 1]));
        assert(last.flatten() == seq![s[s.len() - 1]]);
        assert(flatten_nodes(as_nodes(s)) == flatten_nodes(as_nodes(p)) + last.flatten());
        assert(s =~= p + seq![s[s.len() - 1]]);
    } else {
        assert(as_nodes(s) =~= Seq::<SceneObject>::empty());
    }
}

/// Attaching a child never loses or duplicates a model: the models of the result, in
/// pre-order, are those of the parent followed by those of the child.
pub proof fn lemma_add_children_keeps_nodes(parent: SceneObject, child: SceneObject, r: SceneObject)
    requires
        promoted(parent, child, r),
    ensures
        r.flatten() == parent.flatten() + child.flatten(),
{
    match parent {
        SceneObject::ObjModel(o) => match child {
            SceneObject::ObjModel(c) => {
                assert(r.flatten() =~= parent.flatten() + child.flatten());
            },
            _ => {
                lemma_flatten_nodes_push(Seq::empty(), child);
                assert(Seq::<SceneObject>::empty().push(child) =~= seq![child]);
                assert(flatten_nodes(Seq::<SceneObject>::empty()) + child.flatten() =~= child.flatten());
                assert(r.flatten() =~= parent.flatten() + child.flatten());
            },
        },
        SceneObject::CompositeObj(a) => match child {
            SceneObject::ObjModel(c) => {
                assert(r.flatten() =~= parent.flatten() + child.flatten());
            },
            _ => {
                lemma_flatten_nodes_push(as_nodes(a.children@), child);
                lemma_flatten_as_nodes(a.children@);
                assert(r.flatten() =~= parent.flatten() + child.flatten());
            },
        },
        SceneObject::ComplexObj(a) => {
            lemma_flatten_nodes_push(a.children@, child);
            assert(r.flatten() =~= parent.flatten() + child.flatten());
        },
    }
}

/// Frame nesting: child `i` of a composite or tree is drawn with its own stored
/// transform `C` composed with the root's transform `R`, as `C * R`; once the whole
/// object is translated by `(x, y, z)` (matrix `D`), the same child is drawn with
/// `C * (D * R)`, its stored transform untouched.
pub proof fn lemma_frame_nesting(obj: SceneObject, i: int, x: i64, y: i64, z: i64)
    requires
        obj matches SceneObject::ComplexObj(c) ==> 0 <= i < c.children@.len(),
        obj matches SceneObject::CompositeObj(c) ==> 0 <= i < c.children@.len(),
        !(obj is ObjModel),
    ensures
        ({
            let d = translating_spec(x, y, z);
            let r = obj.transform();
            let moved = obj.with_transform(mat_product(d, r));
            let c = match obj {
                SceneObject::CompositeObj(k) => k.children@[i].model,
                SceneObject::ComplexObj(k) => k.children@[i].root().model,
                SceneObject::ObjModel(o) => o.model,
            };
            &&& obj.child_placement(i)[0].model == mat_product(c, r)
            &&& moved.child_placement(i)[0].model == mat_product(c, mat_product(d, r))
        }),
{
    let d = translating_spec(x, y, z);
    let r = obj.transform();
    let moved = obj.with_transform(mat_product(d, r));
    match obj {
        SceneObject::ComplexObj(k) => {
            let ch = k.children@[i];
            assert(ch.placed(Some(r))[0] == ObjModel { model: mat_product(ch.root().model, r), ..ch.root() });
            assert(moved->ComplexObj_0.children@ == k.children@);
            assert(ch.placed(Some(mat_product(d, r)))[0].model == mat_product(ch.root().model, mat_product(d, r)));
        },
        SceneObject::CompositeObj(k) => {
            assert(moved->CompositeObj_0.children@ == k.children@);
        },
        SceneObject::ObjModel(_) => {},
    }
}

/// Box overlap does not depend on which box comes first.
pub proof fn lemma_boxes_intersect_symmetric(a_min: Vec4, a_max: Vec4, b_min: Vec4, b_max: Vec4)
    ensures
        boxes_intersect(a_min, a_max, b_min, b_max) == boxes_intersect(b_min, b_max, a_min, a_max),
{
}

/// Intervals are closed: well-formed boxes that overlap on y and z and only touch on x,
/// the maximum x of one being the minimum x of the other, intersect.
pub proof fn lemma_touching_boxes_intersect(a_min: Vec4, a_max: Vec4, b_min: Vec4, b_max: Vec4)
    requires
        a_min.x <= a_max.x,
        b_min.x <= b_max.x,
        a_max.x == b_min.x,
        a_min.y <= b_max.y && a_max.y >= b_min.y,
        a_min.z <= b_max.z && a_max.z >= b_min.z,
    ensures
        boxes_intersect(a_min, a_max, b_min, b_max),
        boxes_intersect(b_min, b_max, a_min, a_max),
{
}

/// Replacing the root, as every attribute override does, leaves every other model of
/// the object as it was: only the first model in pre-order changes.
pub proof fn lemma_with_root_keeps_descendants(obj: SceneObject, m: ObjModel)
    ensures
        obj.with_root(m).flatten() == obj.flatten().update(0, m),
{
    assert(obj.with_root(m).flatten() =~= obj.flatten().update(0, m));
}

/// A copy holds the same models in the same order.
pub proof fn lemma_copy_same_models(a: SceneObject, b: SceneObject)
    requires
        a.same_as(b),
    ensures
        a.flatten() == b.flatten(),
    decreases a,
{
    if let SceneObject::ComplexObj(x) = a {
        let y = b->ComplexObj_0;
        lemma_copy_nodes_same_models(x.children@, y.children@);
    }
}

/// Children that are copies of each other hold the same models in the same order.
pub proof fn lemma_copy_nodes_same_models(s: Seq<SceneObject>, t: Seq<SceneObject>)
    requires
        same_nodes(s, t),
    ensures
        flatten_nodes(s) == flatten_nodes(t),
    decreases s,
{
    if s.len() > 0 {
        lemma_copy_nodes_same_models(s.subrange(0, s.len() - 1), t.subrange(0, t.len() - 1));
        lemma_copy_same_models(s[s.len() - 1], t[t.len() - 1]);
    }
}

/// Whether `point` lies in the closed box from `bbox_min` to `bbox_max`.
pub fn check_point_bbox_intersection(bbox_min: &Vec4, bbox_max: &Vec4, point: &Vec4) -> (r: bool)
    ensures
        r == point_in_box(*bbox_min, *bbox_max, *point),
{
    (point.x >= bbox_min.x && point.x <= bbox_max.x) && (point.y >= bbox_min.y && point.y
        <= bbox_max.y) && (point.z >= bbox_min.z && point.z <= bbox_max.z)
}

/// Whether two boxes overlap or touch on all three axes.
pub fn check_bbox_bbox_intersection(
    bbox1_min: &Vec4,
    bbox1_max: &Vec4,
    bbox2_min: &Vec4,
    bbox2_max: &Vec4,
) -> (r: bool)
    ensures
        r == boxes_intersect(*bbox1_min, *bbox1_max, *bbox2_min, *bbox2_max),
{
    (bbox1_min.x <= bbox2_max.x && bbox1_max.x >= bbox2_min.x) && (bbox1_min.y <= bbox2_max.y
        && bbox1_max.y >= bbox2_min.y) && (bbox1_min.z <= bbox2_max.z && bbox1_max.z
        >= bbox2_min.z)
}

} // verus!

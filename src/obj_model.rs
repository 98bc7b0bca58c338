//! One drawable mesh instance: GPU handles, a transform, a local bounding box
//! and per-instance material overrides.

use vstd::prelude::*;
use crate::fixed::{SCALE, Vec3, Vec4, add_vec, vec_add};
use crate::matrix::{GLMatrix, MatrixTransform, identity_matrix, identity_spec, mat_vec};
use crate::scene_object::{SceneObject, check_bbox_bbox_intersection, boxes_intersect};

verus! {

/// Handles of the GPU buffers that hold one mesh, shared by every copy of a model.
#[derive(Clone, Copy, Debug, PartialEq, Eq, Structural)]
pub struct MeshHandles {
    pub vao: u32,
    pub ebo: u32,
    pub geometry_vbo: u32,
    pub texture_vbo: u32,
    pub normal_vbo: u32,
    pub index_len: usize,
}

/// Why mesh data could not become a model.
#[derive(Clone, Copy, Debug, PartialEq, Eq, Structural)]
pub enum MeshError {
    /// The mesh has no vertex positions.
    NoPositions,
    /// The number of position coordinates is not a multiple of three.
    IncompleteVertex,
}

/// A mesh instance: the unit that is drawn and tested for collisions.
#[derive(Clone, Copy, Debug, PartialEq, Eq, Structural)]
pub struct ObjModel {
    pub model: GLMatrix,
    pub mesh: MeshHandles,
    pub bbox_min: Vec3,
    pub bbox_max: Vec3,
    pub texture_override: u32,
    pub phong_q_overide: i64,
    pub specular_reflectance_override: Vec3,
    pub ambient_reflectance_overide: Vec3,
    pub color_overide: Vec3,
    pub texture_map_type: i32,
    pub lighting_source_override: Vec4,
}

/// Coordinate `axis` of vertex `v` in a flat list of positions.
pub open spec fn coord(p: Seq<i64>, v: int, axis: int) -> i64 {
    p[3 * v + axis]
}

/// The least coordinate `axis` among the first `n` vertices (`n >= 1`).
pub open spec fn min_coord(p: Seq<i64>, axis: int, n: int) -> i64
    decreases n,
{
    if n <= 1 {
        coord(p, 0, axis)
    } else {
        let m = min_coord(p, axis, n - 1);
        let c = coord(p, n - 1, axis);
        if c < m {
            c
        } else {
            m
        }
    }
}

/// The greatest coordinate `axis` among the first `n` vertices (`n >= 1`).
pub open spec fn max_coord(p: Seq<i64>, axis: int, n: int) -> i64
    decreases n,
{
    if n <= 1 {
        coord(p, 0, axis)
    } else {
        let m = max_coord(p, axis, n - 1);
        let c = coord(p, n - 1, axis);
        if c > m {
            c
        } else {
            m
        }
    }
}

/// Among the first `n` vertices, the least and greatest coordinates `axis` bound every
/// vertex and are each the coordinate of some vertex.
pub proof fn lemma_extremes_bound_vertices(p: Seq<i64>, axis: int, n: int)
    requires
        1 <= n,
        3 * n <= p.len(),
        0 <= axis < 3,
    ensures
        forall|v: int| 0 <= v < n ==> min_coord(p, axis, n) <= #[trigger] coord(p, v, axis) <= max_coord(p, axis, n),
        exists|v: int| 0 <= v < n && min_coord(p, axis, n) == #[trigger] coord(p, v, axis),
        exists|v: int| 0 <= v < n && max_coord(p, axis, n) == #[trigger] coord(p, v, axis),
    decreases n,
{
    if n > 1 {
        lemma_extremes_bound_vertices(p, axis, n - 1);
        let lo = choose|v: int| 0 <= v < n - 1 && min_coord(p, axis, n - 1) == #[trigger] coord(p, v, axis);
        let hi = choose|v: int| 0 <= v < n - 1 && max_coord(p, axis, n - 1) == #[trigger] coord(p, v, axis);
        if coord(p, n - 1, axis) < min_coord(p, axis, n - 1) {
            assert(min_coord(p, axis, n) == coord(p, n - 1, axis));
        } else {
            assert(min_coord(p, axis, n) == coord(p, lo, axis));
        }
        if coord(p, n - 1, axis) > max_coord(p, axis, n - 1) {
            assert(max_coord(p, axis, n) == coord(p, n - 1, axis));
        } else {
            assert(max_coord(p, axis, n) == coord(p, hi, axis));
        }
    } else {
        assert(min_coord(p, axis, n) == coord(p, 0, axis));
        assert(max_coord(p, axis, n) == coord(p, 0, axis));
    }
}

/// The local bounding-box corner made of the least coordinates of all vertices.
pub open spec fn bbox_min_of(p: Seq<i64>) -> Vec3 {
    Vec3 {
        x: min_coord(p, 0, (p.len() / 3) as int),
        y: min_coord(p, 1, (p.len() / 3) as int),
        z: min_coord(p, 2, (p.len() / 3) as int),
    }
}

/// The local bounding-box corner made of the greatest coordinates of all vertices.
pub open spec fn bbox_max_of(p: Seq<i64>) -> Vec3 {
    Vec3 {
        x: max_coord(p, 0, (p.len() / 3) as int),
        y: max_coord(p, 1, (p.len() / 3) as int),
        z: max_coord(p, 2, (p.len() / 3) as int),
    }
}

/// The model that a freshly loaded mesh becomes: identity transform, no overrides.
pub open spec fn loaded_model(p: Seq<i64>, mesh: MeshHandles) -> ObjModel {
    ObjModel {
        model: identity_spec(),
        mesh,
        bbox_min: bbox_min_of(p),
        bbox_max: bbox_max_of(p),
        texture_override: 0,
        phong_q_overide: SCALE,
        specular_reflectance_override: Vec3 { x: 0, y: 0, z: 0 },
        ambient_reflectance_overide: Vec3 { x: 0, y: 0, z: 0 },
        color_overide: Vec3 { x: 0, y: 0, z: 0 },
        texture_map_type: 0,
        lighting_source_override: Vec4 { x: 0, y: 0, z: 0, w: 0 },
    }
}

/// A local box corner placed in the world: the linear part of `m`, then the translation `t`.
pub open spec fn placed_corner(m: GLMatrix, corner: Vec3, t: Vec4) -> Vec4 {
    vec_add(mat_vec(m, Vec4 { x: corner.x, y: corner.y, z: corner.z, w: 0 }), t)
}

/// The model's local box placed in the world: both corners go through the linear part
/// of its transform, then move by its translation column. Only the two extreme corners
/// are placed, which bounds the mesh exactly for scalings and translations.
pub open spec fn global_box(m: ObjModel) -> (Vec4, Vec4) {
    (placed_corner(m.model, m.bbox_min, m.model.c3), placed_corner(m.model, m.bbox_max, m.model.c3))
}

/// The collision test of `a` against `b`: both local boxes go through the linear part of
/// `a`'s transform, then each is moved by its own object's translation column.
pub open spec fn intersects(a: ObjModel, b: ObjModel) -> bool {
    boxes_intersect(
        global_box(a).0,
        global_box(a).1,
        placed_corner(a.model, b.bbox_min, b.model.c3),
        placed_corner(a.model, b.bbox_max, b.model.c3),
    )
}

/// A local box corner placed in the world by `m` and the translation `t`.
pub fn place_corner(m: &GLMatrix, corner: &Vec3, t: &Vec4) -> (r: Vec4)
    ensures
        r == placed_corner(*m, *corner, *t),
{
    let v = Vec4 { x: corner.x, y: corner.y, z: corner.z, w: 0 };
    add_vec(&m.mul_vec(&v), t)
}

impl ObjModel {
    /// Makes a model of the mesh whose flat vertex positions are `positions`
    /// (three coordinates per vertex) and whose GPU buffers are `mesh`. The local
    /// bounding box spans the least and greatest coordinates of the vertices.
    pub fn new(positions: &Vec<i64>, mesh: MeshHandles) -> (r: Result<ObjModel, MeshError>)
        ensures
            positions@.len() == 0 ==> r == Err::<ObjModel, MeshError>(MeshError::NoPositions),
            positions@.len() != 0 && positions@.len() % 3 != 0 ==> r == Err::<ObjModel, MeshError>(
                MeshError::IncompleteVertex,
            ),
            positions@.len() != 0 && positions@.len() % 3 == 0 ==> r == Ok::<ObjModel, MeshError>(
                loaded_model(positions@, mesh),
            ),
    {
        let len = positions.len();
        if len == 0 {
            return Err(MeshError::NoPositions);
        }
        if len % 3 != 0 {
            return Err(MeshError::IncompleteVertex);
        }
        let n = len / 3;
        assert(3 * n == len);
        let mut lo = Vec3 { x: positions[0], y: positions[1], z: positions[2] };
        let mut hi = lo;
        let mut v: usize = 1;
        while v < n
            invariant
                n == positions@.len() / 3,
                positions@.len() == 3 * n,
                3 * n <= usize::MAX,
                1 <= v <= n,
                lo == (Vec3 {
                    x: min_coord(positions@, 0, v as int),
                    y: min_coord(positions@, 1, v as int),
                    z: min_coord(positions@, 2, v as int),
                }),
                hi == (Vec3 {
                    x: max_coord(positions@, 0, v as int),
                    y: max_coord(positions@, 1, v as int),
                    z: max_coord(positions@, 2, v as int),
                }),
            decreases n - v,
        {
            let x = positions[3 * v];
            let y = positions[3 * v + 1];
            let z = positions[3 * v + 2];
            if x < lo.x {
                lo.x = x;
            }
            if y < lo.y {
                lo.y = y;
            }
            if z < lo.z {
                lo.z = z;
            }
            if x > hi.x {
                hi.x = x;
            }
            if y > hi.y {
                hi.y = y;
            }
            if z > hi.z {
                hi.z = z;
            }
            v = v + 1;
        }
        Ok(ObjModel {
            model: identity_matrix(),
            mesh,
            bbox_min: lo,
            bbox_max: hi,
            texture_override: 0,
            phong_q_overide: SCALE,
            specular_reflectance_override: Vec3 { x: 0, y: 0, z: 0 },
            ambient_reflectance_overide: Vec3 { x: 0, y: 0, z: 0 },
            color_overide: Vec3 { x: 0, y: 0, z: 0 },
            texture_map_type: 0,
            lighting_source_override: Vec4 { x: 0, y: 0, z: 0, w: 0 },
        })
    }

    /// This model with `texture` drawn in the given mapping mode.
    pub fn with_texture(&self, texture: &u32, texture_map_type: i32) -> (r: ObjModel)
        ensures
            r == (ObjModel { texture_override: *texture, texture_map_type, ..*self }),
    {
        ObjModel { texture_override: *texture, texture_map_type, ..*self }
    }

    /// This model with another texture mapping mode.
    pub fn with_texture_map_type(&self, texture_map_type: i32) -> (r: ObjModel)
        ensures
            r == (ObjModel { texture_map_type, ..*self }),
    {
        ObjModel { texture_map_type, ..*self }
    }

    /// This model with another specular reflectance.
    pub fn with_specular_reflectance(&self, specular_reflectance: &Vec3) -> (r: ObjModel)
        ensures
            r == (ObjModel { specular_reflectance_override: *specular_reflectance, ..*self }),
    {
        ObjModel { specular_reflectance_override: *specular_reflectance, ..*self }
    }

    /// This model lit from another source.
    pub fn with_lighting_source_override(&self, lighting_source_override: &Vec4) -> (r: ObjModel)
        ensures
            r == (ObjModel { lighting_source_override: *lighting_source_override, ..*self }),
    {
        ObjModel { lighting_source_override: *lighting_source_override, ..*self }
    }

    /// This model with another ambient reflectance.
    pub fn with_ambient_reflectance(&self, ambient_reflectance: &Vec3) -> (r: ObjModel)
        ensures
            r == (ObjModel { ambient_reflectance_overide: *ambient_reflectance, ..*self }),
    {
        ObjModel { ambient_reflectance_overide: *ambient_reflectance, ..*self }
    }

    /// This model with another Phong exponent.
    pub fn with_specular_phong_q(&self, phong_q: &i64) -> (r: ObjModel)
        ensures
            r == (ObjModel { phong_q_overide: *phong_q, ..*self }),
    {
        ObjModel { phong_q_overide: *phong_q, ..*self }
    }

    /// This model with another colour.
    pub fn with_color(&self, color: &Vec3) -> (r: ObjModel)
        ensures
            r == (ObjModel { color_overide: *color, ..*self }),
    {
        ObjModel { color_overide: *color, ..*self }
    }

    /// This model's local box placed in the world by its transform.
    pub fn global_bounding_box(&self) -> (r: (Vec4, Vec4))
        ensures
            r == global_box(*self),
    {
        let m = &self.model;
        (place_corner(m, &self.bbox_min, &m.c3), place_corner(m, &self.bbox_max, &m.c3))
    }

    /// Whether this model's box meets the root box of `obj2`.
    pub fn check_intersection(&self, obj2: &SceneObject) -> (r: bool)
        ensures
            r == intersects(*self, obj2.root()),
    {
        let other = obj2.get_root_model();
        let m = &self.model;
        let (min1, max1) = self.global_bounding_box();
        let min2 = place_corner(m, &other.bbox_min, &other.model.c3);
        let max2 = place_corner(m, &other.bbox_max, &other.model.c3);
        check_bbox_bbox_intersection(&min1, &max1, &min2, &max2)
    }
}

impl MatrixTransform for ObjModel {
    open spec fn transform(&self) -> GLMatrix {
        self.model
    }

    open spec fn with_transform(&self, m: GLMatrix) -> ObjModel {
        ObjModel { model: m, ..*self }
    }

    fn get_matrix(&self) -> (r: &GLMatrix) {
        &self.model
    }

    fn update_matrix(&mut self, matrix: &GLMatrix) {
        self.model = *matrix;
    }

    fn from_matrix(self, matrix: &GLMatrix) -> (r: ObjModel) {
        ObjModel { model: *matrix, ..self }
    }
}

} // verus!

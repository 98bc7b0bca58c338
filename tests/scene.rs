use scene_graph::draw::Drawable;
use scene_graph::fixed::{vec3, vec4, Vec3, SCALE};
use scene_graph::frame::collide_queue;
use scene_graph::lighting::Lighting;
use scene_graph::matrix::{identity_matrix, translating_matrix, MatrixTransform};
use scene_graph::obj_model::{MeshError, MeshHandles, ObjModel};
use scene_graph::scene_object::{
    check_bbox_bbox_intersection, check_point_bbox_intersection, SceneObject,
};
use scene_graph::shader::Shader;

const S: i64 = SCALE;

fn handles(vao: u32) -> MeshHandles {
    MeshHandles { vao, ebo: vao + 1, geometry_vbo: vao + 2, texture_vbo: 0, normal_vbo: 0, index_len: 36 }
}

fn cube(vao: u32, half: i64) -> ObjModel {
    ObjModel::new(&vec![-half, -half, -half, half, half, half], handles(vao)).unwrap()
}

fn leaf(vao: u32) -> SceneObject {
    SceneObject::ObjModel(cube(vao, S))
}

fn composite(vao: u32, n: u32) -> SceneObject {
    let mut s = leaf(vao);
    for k in 0..n {
        s = s.add_children(leaf(vao + 10 + k));
    }
    s
}

fn vaos(s: &SceneObject) -> Vec<u32> {
    s.models().iter().map(|m| m.mesh.vao).collect()
}

#[test]
fn new_rejects_empty_positions() {
    assert_eq!(ObjModel::new(&vec![], handles(1)).unwrap_err(), MeshError::NoPositions);
    assert!(matches!(SceneObject::new(&vec![], handles(1)), Err(MeshError::NoPositions)));
}

#[test]
fn new_rejects_incomplete_vertex() {
    assert_eq!(ObjModel::new(&vec![1, 2, 3, 4], handles(1)).unwrap_err(), MeshError::IncompleteVertex);
}

#[test]
fn new_computes_bounding_box_and_defaults() {
    let m = ObjModel::new(&vec![1, 5, -2, -3, 4, 8, 2, -6, 0], handles(7)).unwrap();
    assert_eq!(m.bbox_min, vec3(-3, -6, -2));
    assert_eq!(m.bbox_max, vec3(2, 5, 8));
    assert_eq!(m.model, identity_matrix());
    assert_eq!(m.phong_q_overide, S);
    assert_eq!(m.texture_override, 0);
    assert_eq!(m.texture_map_type, 0);
    assert_eq!(m.color_overide, vec3(0, 0, 0));
    assert_eq!(m.mesh, handles(7));
}

#[test]
fn leaf_plus_leaf_is_composite() {
    let r = leaf(1).add_children(leaf(2));
    assert!(matches!(&r, SceneObject::CompositeObj(c) if c.children.len() == 1));
    assert_eq!(vaos(&r), vec![1, 2]);
}

#[test]
fn leaf_plus_composite_is_tree() {
    let r = leaf(1).add_children(composite(100, 2));
    assert!(matches!(&r, SceneObject::ComplexObj(c) if c.children.len() == 1));
    assert_eq!(vaos(&r), vec![1, 100, 110, 111]);
}

#[test]
fn leaf_plus_tree_is_tree() {
    let tree = leaf(50).add_children(composite(100, 1));
    let r = leaf(1).add_children(tree);
    assert!(matches!(&r, SceneObject::ComplexObj(c) if c.children.len() == 1));
    assert_eq!(vaos(&r), vec![1, 50, 100, 110]);
}

#[test]
fn composite_plus_leaf_appends() {
    let r = composite(1, 2).add_children(leaf(5));
    assert!(matches!(&r, SceneObject::CompositeObj(c) if c.children.len() == 3));
    assert_eq!(vaos(&r), vec![1, 11, 12, 5]);
}

#[test]
fn composite_plus_composite_is_tree() {
    let r = composite(1, 2).add_children(composite(100, 1));
    match &r {
        SceneObject::ComplexObj(c) => {
            assert_eq!(c.children.len(), 3);
            assert!(matches!(c.children[0], SceneObject::ObjModel(_)));
            assert!(matches!(c.children[2], SceneObject::CompositeObj(_)));
        }
        _ => panic!("expected a tree"),
    }
    assert_eq!(vaos(&r), vec![1, 11, 12, 100, 110]);
}

#[test]
fn composite_plus_tree_is_tree() {
    let tree = leaf(50).add_children(composite(100, 1));
    let r = composite(1, 1).add_children(tree);
    assert!(matches!(&r, SceneObject::ComplexObj(c) if c.children.len() == 2));
    assert_eq!(vaos(&r), vec![1, 11, 50, 100, 110]);
}

#[test]
fn tree_appends_anything() {
    let tree = leaf(1).add_children(composite(100, 1));
    let r = tree.add_children(leaf(7)).add_children(composite(200, 2));
    assert!(matches!(&r, SceneObject::ComplexObj(c) if c.children.len() == 3));
    assert_eq!(vaos(&r), vec![1, 100, 110, 7, 200, 210, 211]);
}

#[test]
fn get_root_strips_children() {
    let tree = leaf(1).add_children(composite(100, 1)).add_children(leaf(7)).add_children(leaf(8));
    match &tree {
        SceneObject::ComplexObj(c) => assert_eq!(c.children.len(), 3),
        _ => panic!("expected a tree"),
    }
    let root = tree.get_root();
    match root {
        SceneObject::ObjModel(m) => assert_eq!(m, cube(1, S)),
        _ => panic!("expected a leaf"),
    }
    assert_eq!(vaos(&tree.get_root()), vec![1]);
}

#[test]
fn with_color_changes_only_root() {
    let red = vec3(S, 0, 0);
    let before = composite(1, 2).with_color(&vec3(0, 0, S));
    let r = composite(1, 2).with_color(&red);
    assert_eq!(r.get_color(), red);
    assert_eq!(before.get_color(), vec3(0, 0, S));
    match &r {
        SceneObject::CompositeObj(c) => {
            for child in c.children.iter() {
                assert_eq!(child.color_overide, vec3(0, 0, 0));
            }
        }
        _ => panic!("expected a composite"),
    }
}

#[test]
fn builders_change_root_fields() {
    let r = composite(1, 1)
        .with_texture(&9, 3)
        .with_specular_reflectance(&vec3(1, 2, 3))
        .with_ambient_reflectance(&vec3(4, 5, 6))
        .with_specular_phong_q(&(8 * S))
        .with_lighting_direction_override(&vec4(0, -S, 0, 0));
    assert_eq!(r.get_texture_override(), 9);
    assert_eq!(r.get_texture_map_type(), 3);
    assert_eq!(r.get_ambient_lighting_override(), vec3(4, 5, 6));
    let root = r.get_root_model();
    assert_eq!(root.specular_reflectance_override, vec3(1, 2, 3));
    assert_eq!(root.phong_q_overide, 8 * S);
    assert_eq!(root.lighting_source_override, vec4(0, -S, 0, 0));
    let r = r.with_texture_map_type(4);
    assert_eq!(r.get_texture_map_type(), 4);
    assert_eq!(r.get_texture_override(), 9);
    assert_eq!(vaos(&r), vec![1, 11]);
}

#[test]
fn obj_model_builders() {
    let m = cube(1, S);
    let t = m.with_texture(&4, 2);
    assert_eq!((t.texture_override, t.texture_map_type), (4, 2));
    assert_eq!(m.with_texture_map_type(3).texture_map_type, 3);
    assert_eq!(m.with_color(&vec3(1, 1, 1)).color_overide, vec3(1, 1, 1));
    assert_eq!(m.with_specular_phong_q(&5).phong_q_overide, 5);
    assert_eq!(m.with_ambient_reflectance(&vec3(2, 2, 2)).ambient_reflectance_overide, vec3(2, 2, 2));
    assert_eq!(m.with_specular_reflectance(&vec3(3, 3, 3)).specular_reflectance_override, vec3(3, 3, 3));
    assert_eq!(m.with_lighting_source_override(&vec4(1, 2, 3, 4)).lighting_source_override, vec4(1, 2, 3, 4));
    assert_eq!(m.with_color(&vec3(1, 1, 1)).model, m.model);
}

#[test]
fn bounding_box_getters_read_root() {
    let r = SceneObject::ObjModel(cube(1, 2 * S)).add_children(leaf(2));
    assert_eq!(r.get_bbox_min(), Vec3 { x: -2 * S, y: -2 * S, z: -2 * S });
    assert_eq!(r.get_bbox_max(), vec3(2 * S, 2 * S, 2 * S));
}

#[test]
fn frame_nesting_composes_child_with_root() {
    let child = cube(2, S).translate(3 * S, 0, 0);
    let tree = leaf(1).scale(2 * S, 2 * S, 2 * S).add_children(composite(100, 1)).add_children(SceneObject::ObjModel(child));
    let r = tree.get_matrix().clone();
    let drawn = tree.draw_list();
    assert_eq!(drawn.len(), 4);
    assert_eq!(drawn[0].model, r);
    assert_eq!(drawn[3].model, child.model.mul_mat(&r));
    assert_eq!(drawn[3].model.mul_vec(&vec4(0, 0, 0, S)), vec4(3 * S, 0, 0, S));

    let moved = tree.translate(0, S, 0);
    let d = translating_matrix(0, S, 0);
    let drawn = moved.draw_list();
    assert_eq!(drawn[0].model, d.mul_mat(&r));
    assert_eq!(drawn[3].model, child.model.mul_mat(&d.mul_mat(&r)));
    assert_eq!(drawn[3].model.mul_vec(&vec4(0, 0, 0, S)), vec4(3 * S, S, 0, S));
    match &moved {
        SceneObject::ComplexObj(c) => assert!(matches!(c.children[1], SceneObject::ObjModel(m) if m.model == child.model)),
        _ => panic!("expected a tree"),
    }
}

#[test]
fn composite_children_drawn_in_root_frame() {
    let c = leaf(1).translate(S, 0, 0).add_children(SceneObject::ObjModel(cube(2, S).translate(0, S, 0)));
    let drawn = c.draw_list();
    assert_eq!(drawn.len(), 2);
    assert_eq!(drawn[1].model.mul_vec(&vec4(0, 0, 0, S)), vec4(S, S, 0, S));
    assert_eq!(drawn[1].mesh.vao, 2);
}

#[test]
fn nested_tree_drawn_through_every_level() {
    let inner = leaf(10).translate(0, 0, S).add_children(SceneObject::ObjModel(cube(11, S).translate(0, S, 0)));
    let outer = leaf(1).translate(S, 0, 0).add_children(inner);
    let drawn = outer.draw_list();
    assert_eq!(drawn.iter().map(|m| m.mesh.vao).collect::<Vec<u32>>(), vec![1, 10, 11]);
    assert_eq!(drawn[1].model.mul_vec(&vec4(0, 0, 0, S)), vec4(S, 0, S, S));
    assert_eq!(drawn[2].model.mul_vec(&vec4(0, 0, 0, S)), vec4(S, S, S, S));
}

#[test]
fn collision_scenario_overlap_and_gap() {
    let tenth = S / 10;
    let main = SceneObject::ObjModel(cube(1, tenth));
    let near = SceneObject::ObjModel(cube(2, tenth)).translate(S / 20, 0, 0);
    let far = SceneObject::ObjModel(cube(3, tenth)).translate(S / 4, 0, 0);
    assert!(main.check_intersection(&near));
    assert!(!main.check_intersection(&far));
    assert!(cube(1, tenth).check_intersection(&near));
}

#[test]
fn touching_boxes_collide() {
    let tenth = S / 10;
    let main = SceneObject::ObjModel(cube(1, tenth));
    let touching = SceneObject::ObjModel(cube(2, tenth)).translate(S / 5, 0, 0);
    assert!(main.check_intersection(&touching));
    assert!(touching.check_intersection(&main));
}

#[test]
fn box_test_is_symmetric_and_closed() {
    let a_min = vec4(0, 0, 0, 0);
    let a_max = vec4(S, S, S, 0);
    let b_min = vec4(S, S / 2, S / 2, 0);
    let b_max = vec4(2 * S, 2 * S, 2 * S, 0);
    assert!(check_bbox_bbox_intersection(&a_min, &a_max, &b_min, &b_max));
    assert!(check_bbox_bbox_intersection(&b_min, &b_max, &a_min, &a_max));
    let c_min = vec4(S + 1, 0, 0, 0);
    let c_max = vec4(2 * S, S, S, 0);
    assert!(!check_bbox_bbox_intersection(&a_min, &a_max, &c_min, &c_max));
    assert!(!check_bbox_bbox_intersection(&c_min, &c_max, &a_min, &a_max));
}

#[test]
fn point_in_closed_box() {
    let lo = vec4(0, 0, 0, 0);
    let hi = vec4(S, S, S, 0);
    assert!(check_point_bbox_intersection(&lo, &hi, &vec4(S, 0, S / 2, S)));
    assert!(!check_point_bbox_intersection(&lo, &hi, &vec4(S, -1, S / 2, S)));
}

#[test]
fn detect_colision_searches_children() {
    let tenth = S / 10;
    let obstacle = SceneObject::ObjModel(cube(9, tenth)).translate(5 * S, 0, 0);
    let child = SceneObject::ObjModel(cube(2, tenth).translate(5 * S, 0, 0));
    let root_only = SceneObject::ObjModel(cube(1, tenth));
    assert!(!root_only.detect_colision(&obstacle));
    let pair = SceneObject::ObjModel(cube(1, tenth)).add_children(child);
    assert!(!pair.check_intersection(&obstacle));
    assert!(pair.detect_colision(&obstacle));
    let deep = SceneObject::ObjModel(cube(3, tenth)).add_children(
        SceneObject::ObjModel(cube(1, tenth)).add_children(SceneObject::ObjModel(cube(2, tenth).translate(5 * S, 0, 0))),
    );
    assert!(deep.detect_colision(&obstacle));
    let far = SceneObject::ObjModel(cube(3, tenth)).add_children(composite(100, 1));
    assert!(!far.detect_colision(&obstacle));
}

#[test]
fn collide_queue_removes_hit_obstacles() {
    let tenth = S / 10;
    let main = SceneObject::ObjModel(cube(1, tenth));
    let queue = vec![
        SceneObject::ObjModel(cube(2, tenth)).translate(S / 20, 0, 0),
        SceneObject::ObjModel(cube(3, tenth)).translate(S / 4, 0, 0),
        SceneObject::ObjModel(cube(4, tenth)).translate(0, S / 20, 0),
        SceneObject::ObjModel(cube(5, tenth)).translate(0, 0, 3 * S),
    ];
    let (kept, hits) = collide_queue(&main, queue);
    assert_eq!(hits, 2);
    assert_eq!(kept.iter().map(|s| s.get_root_model().mesh.vao).collect::<Vec<u32>>(), vec![3, 5]);
    let (kept, hits) = collide_queue(&main, vec![]);
    assert_eq!((kept.len(), hits), (0, 0));
}

#[test]
fn update_and_from_matrix_replace_root_transform() {
    let mut s = composite(1, 1);
    let t = translating_matrix(S, 2 * S, 3 * S);
    s.update_matrix(&t);
    assert_eq!(*s.get_matrix(), t);
    let s = s.from_matrix(&identity_matrix());
    assert_eq!(*s.get_matrix(), identity_matrix());
    assert_eq!(vaos(&s), vec![1, 11]);
}

#[test]
fn lighting_shader_and_drawable_hold_their_parts() {
    let l = Lighting::new(&vec3(1, 2, 3), &vec3(4, 5, 6), &vec4(0, -S, 0, 0));
    assert_eq!(l.ambient, vec3(4, 5, 6));
    let l = l.update(&vec3(7, 7, 7), &vec3(0, 0, 0), &vec4(0, 0, -S, 0));
    assert_eq!(l.global, vec3(7, 7, 7));
    let sh = Shader::new("v".to_string(), "f".to_string(), 1, 2, 3);
    assert_eq!((sh.vs, sh.fs, sh.program), (1, 2, 3));
    assert_eq!(sh.vertex_shader, "v");
    let a = leaf(1);
    let b = leaf(2);
    let d = Drawable::new(&a, &sh.program).update_object(&b);
    assert_eq!(d.object.get_root_model().mesh.vao, 2);
    let p = 9u32;
    assert_eq!(*d.update_shader(&p).shader, 9);
}

#[test]
fn clone_copies_whole_tree() {
    let tree = leaf(1).add_children(composite(100, 2)).add_children(leaf(7));
    let copy = tree.clone();
    assert_eq!(vaos(&copy), vaos(&tree));
    assert_eq!(copy.draw_list(), tree.draw_list());
    let moved = copy.translate(S, 0, 0).with_color(&vec3(S, 0, 0));
    assert_eq!(tree.get_color(), vec3(0, 0, 0));
    assert_eq!(*tree.get_matrix(), identity_matrix());
    assert_eq!(vaos(&moved), vec![1, 100, 110, 111, 7]);
    let dup = tree.duplicate();
    assert_eq!(dup.models(), tree.models());
}

#[test]
fn global_bounding_box_follows_transform() {
    let obj = SceneObject::ObjModel(cube(1, S)).scale(2 * S, 2 * S, 2 * S).translate(S, 0, -S);
    let (lo, hi) = obj.get_global_bounding_box();
    assert_eq!((lo.x, lo.y, lo.z), (-S, -2 * S, -3 * S));
    assert_eq!((hi.x, hi.y, hi.z), (3 * S, 2 * S, S));
    assert_eq!(obj.get_root_model().global_bounding_box(), (lo, hi));
}

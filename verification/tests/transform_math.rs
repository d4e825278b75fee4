//! Numeric behavior of the transform algebra, checked against the real
//! floating-point kernels.

use scene_graph::drawables::Drawable;
use scene_graph::game_object::GameObject;
use scene_graph::math::{Mat4, Quat, Vec3};
use scene_graph::matrix_utils::MatrixUtils;

fn v3(x: f32, y: f32, z: f32) -> Vec3 {
    Vec3 { x: x.to_bits(), y: y.to_bits(), z: z.to_bits() }
}

fn v3_f(v: Vec3) -> (f32, f32, f32) {
    (f32::from_bits(v.x), f32::from_bits(v.y), f32::from_bits(v.z))
}

fn quat_bits(q: nalgebra_glm::Quat) -> Quat {
    Quat {
        x: q.coords[0].to_bits(),
        y: q.coords[1].to_bits(),
        z: q.coords[2].to_bits(),
        w: q.coords[3].to_bits(),
    }
}

fn quat_f(q: Quat) -> [f32; 4] {
    [
        f32::from_bits(q.x),
        f32::from_bits(q.y),
        f32::from_bits(q.z),
        f32::from_bits(q.w),
    ]
}

fn mat_to_glm(m: Mat4) -> nalgebra_glm::Mat4 {
    let bits = [
        m.c0.x, m.c0.y, m.c0.z, m.c0.w, m.c1.x, m.c1.y, m.c1.z, m.c1.w, m.c2.x, m.c2.y, m.c2.z,
        m.c2.w, m.c3.x, m.c3.y, m.c3.z, m.c3.w,
    ];
    let floats: Vec<f32> = bits.iter().map(|b| f32::from_bits(*b)).collect();
    nalgebra_glm::Mat4::from_column_slice(&floats)
}

fn assert_close(a: f32, b: f32, tol: f32) {
    assert!((a - b).abs() <= tol, "{} vs {}", a, b);
}

/// Quaternions `q` and `-q` name the same rotation; compare up to sign.
fn assert_quat_close(a: [f32; 4], b: [f32; 4], tol: f32) {
    let dot: f32 = a.iter().zip(b.iter()).map(|(x, y)| x * y).sum();
    let s = if dot < 0.0 { -1.0 } else { 1.0 };
    for i in 0..4 {
        assert_close(a[i], s * b[i], tol);
    }
}

fn test_rotation() -> Quat {
    let axis = nalgebra_glm::normalize(&nalgebra_glm::vec3(1.0f32, 2.0, 3.0));
    quat_bits(nalgebra_glm::quat_angle_axis(0.7f32, &axis))
}

#[test]
fn round_trip_decompose() {
    let mut obj: GameObject<Drawable> = GameObject::new();
    obj.set_as_root_node();
    obj.set_local_position(v3(1.5, -2.0, 3.25));
    obj.set_local_rotation(test_rotation());
    obj.set_local_scale(v3(2.0, 0.5, 1.5));

    let dec = MatrixUtils::decompose_matrix(obj.calculate_local_model_matrix());

    let (tx, ty, tz) = v3_f(dec.translation);
    assert_close(tx, 1.5, 1e-4);
    assert_close(ty, -2.0, 1e-4);
    assert_close(tz, 3.25, 1e-4);

    let (sx, sy, sz) = v3_f(dec.scale);
    assert_close(sx, 2.0, 1e-4);
    assert_close(sy, 0.5, 1e-4);
    assert_close(sz, 1.5, 1e-4);

    assert_quat_close(quat_f(dec.rotation), quat_f(test_rotation()), 1e-4);
}

#[test]
fn world_matrix_composes_with_parent() {
    let mut root: GameObject<Drawable> = GameObject::new();
    root.set_as_root_node();
    root.set_local_position(v3(1.0, 2.0, 3.0));
    root.set_local_rotation(test_rotation());
    root.set_local_scale(v3(1.5, 1.5, 1.5));

    let mut child: GameObject<Drawable> = GameObject::new();
    child.set_local_position(v3(-4.0, 0.5, 2.0));
    child.set_local_scale(v3(0.5, 2.0, 1.0));
    let idx = root.add_child(child);
    root.update_matrix();

    let child_ref = root.get_child(idx);
    let expected = mat_to_glm(root.get_world_space_matrx())
        * mat_to_glm(child_ref.calculate_local_model_matrix());
    let actual = mat_to_glm(child_ref.get_world_space_matrx());
    assert_eq!(expected, actual);
}

#[test]
fn world_matrix_of_root_is_local_model() {
    let mut root: GameObject<Drawable> = GameObject::new();
    root.set_as_root_node();
    root.set_local_position(v3(7.0, -1.0, 0.25));
    assert_eq!(
        mat_to_glm(root.get_world_space_matrx()),
        mat_to_glm(root.calculate_local_model_matrix())
    );
    let (gx, gy, gz) = v3_f(root.get_global_position());
    assert_eq!((gx, gy, gz), (7.0, -1.0, 0.25));
}

#[test]
fn set_global_position_round_trip_under_parent() {
    let mut root: GameObject<Drawable> = GameObject::new();
    root.set_as_root_node();
    root.set_local_position(v3(5.0, -3.0, 1.0));
    root.set_local_rotation(test_rotation());
    root.set_local_scale(v3(2.0, 1.25, 0.75));

    let child: GameObject<Drawable> = GameObject::new();
    let idx = root.add_child(child);
    root.update_matrix();

    let target = v3(0.5, 8.0, -2.5);
    root.get_child_mut(idx).set_global_position(target);

    let (gx, gy, gz) = v3_f(root.get_child(idx).get_global_position());
    assert_close(gx, 0.5, 1e-3);
    assert_close(gy, 8.0, 1e-3);
    assert_close(gz, -2.5, 1e-3);
}

#[test]
fn set_global_rotation_round_trip_under_parent() {
    let mut root: GameObject<Drawable> = GameObject::new();
    root.set_as_root_node();
    root.set_local_rotation(quat_bits(nalgebra_glm::quat_angle_axis(
        1.1f32,
        &nalgebra_glm::normalize(&nalgebra_glm::vec3(0.0f32, 1.0, 0.4)),
    )));

    let child: GameObject<Drawable> = GameObject::new();
    let idx = root.add_child(child);
    root.update_matrix();

    let target = test_rotation();
    root.get_child_mut(idx).set_global_rotation(target);

    assert_quat_close(
        quat_f(root.get_child(idx).get_global_rotation()),
        quat_f(target),
        1e-3,
    );
}

#[test]
fn forward_vector_follows_rotation() {
    let mut root: GameObject<Drawable> = GameObject::new();
    root.set_as_root_node();
    let quarter = quat_bits(nalgebra_glm::quat_angle_axis(
        std::f32::consts::FRAC_PI_2,
        &nalgebra_glm::vec3(0.0f32, 1.0, 0.0),
    ));
    root.set_local_rotation(quarter);

    let (fx, fy, fz) = v3_f(root.get_forward_vector());
    assert_close(fx, 1.0, 1e-5);
    assert_close(fy, 0.0, 1e-5);
    assert_close(fz, 0.0, 1e-5);

    let (ux, uy, uz) = v3_f(root.get_up_vector());
    assert_close(ux, 0.0, 1e-5);
    assert_close(uy, 1.0, 1e-5);
    assert_close(uz, 0.0, 1e-5);

    let (rx, ry, rz) = v3_f(root.get_right_vector());
    assert_close(rx, 0.0, 1e-5);
    assert_close(ry, 0.0, 1e-5);
    assert_close(rz, -1.0, 1e-5);
}

#[test]
fn get_scale_reads_column_magnitudes() {
    let m = nalgebra_glm::scale(
        &nalgebra_glm::Mat4::identity(),
        &nalgebra_glm::vec3(3.0f32, 4.0, 0.5),
    );
    let bits: Vec<u32> = m.iter().map(|f| f.to_bits()).collect();
    let mat = Mat4::from_vec(&bits);
    let (sx, sy, sz) = v3_f(MatrixUtils::get_scale(mat));
    assert_eq!((sx, sy, sz), (3.0, 4.0, 0.5));
}

#[test]
fn get_translation_reads_fourth_column() {
    let m = nalgebra_glm::translate(
        &nalgebra_glm::Mat4::identity(),
        &nalgebra_glm::vec3(9.0f32, -8.0, 7.0),
    );
    let bits: Vec<u32> = m.iter().map(|f| f.to_bits()).collect();
    let mat = Mat4::from_vec(&bits);
    let (tx, ty, tz) = v3_f(MatrixUtils::get_translation(mat));
    assert_eq!((tx, ty, tz), (9.0, -8.0, 7.0));

    let col = MatrixUtils::get_matrix_column(mat, 3);
    assert_eq!(f32::from_bits(col.x), 9.0);
    assert_eq!(f32::from_bits(col.w), 1.0);
}

#[test]
fn update_matrix_with_locals_rederives_components() {
    let mut root: GameObject<Drawable> = GameObject::new();
    root.set_as_root_node();
    root.set_local_position(v3(2.0, 3.0, -1.0));
    root.set_local_rotation(test_rotation());
    root.set_local_scale(v3(1.5, 2.5, 0.5));

    root.update_matrix_with_locals();

    let (px, py, pz) = v3_f(root.get_local_position());
    assert_close(px, 2.0, 1e-4);
    assert_close(py, 3.0, 1e-4);
    assert_close(pz, -1.0, 1e-4);
    let (sx, sy, sz) = v3_f(root.get_local_scale());
    assert_close(sx, 1.5, 1e-4);
    assert_close(sy, 2.5, 1e-4);
    assert_close(sz, 0.5, 1e-4);
}

#[test]
fn identity_transform_has_identity_world_matrix() {
    let mut root: GameObject<Drawable> = GameObject::new();
    root.set_as_root_node();
    root.update_matrix();
    assert_eq!(mat_to_glm(root.get_world_space_matrx()), nalgebra_glm::Mat4::identity());
    let (sx, sy, sz) = v3_f(root.get_global_scale());
    assert_eq!((sx, sy, sz), (1.0, 1.0, 1.0));
}

#[test]
fn update_matrix_propagates_two_levels() {
    let mut root: GameObject<Drawable> = GameObject::new();
    root.set_as_root_node();

    let mut child: GameObject<Drawable> = GameObject::new();
    child.set_local_position(v3(1.0, 0.0, 0.0));
    let mut grandchild: GameObject<Drawable> = GameObject::new();
    grandchild.set_local_position(v3(0.0, 2.0, 0.0));
    let g = child.add_child(grandchild);
    let c = root.add_child(child);

    root.set_local_position(v3(0.0, 0.0, 3.0));

    let leaf = root.get_child(c).get_child(g);
    let expected = mat_to_glm(root.get_world_space_matrx())
        * mat_to_glm(root.get_child(c).calculate_local_model_matrix())
        * mat_to_glm(leaf.calculate_local_model_matrix());
    assert_eq!(expected, mat_to_glm(leaf.get_world_space_matrx()));

    let (gx, gy, gz) = v3_f(leaf.get_global_position());
    assert_eq!((gx, gy, gz), (1.0, 2.0, 3.0));
}

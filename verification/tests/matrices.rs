use webglm::mat::{translate, Mat4, Transpose};
use webglm::vec::Dot;
use webglm::{vec3, vec4, AsArray, Vec4};

fn bits(x: f32) -> u32 {
    x.to_bits()
}

fn float(u: u32) -> f32 {
    f32::from_bits(u)
}

fn col(x: f32, y: f32, z: f32, w: f32) -> Vec4 {
    Vec4::new(bits(x), bits(y), bits(z), bits(w))
}

fn dense() -> Mat4 {
    Mat4::new(
        col(1.0, 2.0, 3.0, 4.0),
        col(5.0, 6.0, 7.0, 8.0),
        col(9.0, 10.0, 11.0, 12.0),
        col(13.0, 14.0, 15.0, 16.0),
    )
}

#[test]
fn identity_as_array_is_the_unit_diagonal() {
    let exported = Mat4::one().as_array();
    let expected: Vec<u32> = vec![
        bits(1.0), bits(0.0), bits(0.0), bits(0.0),
        bits(0.0), bits(1.0), bits(0.0), bits(0.0),
        bits(0.0), bits(0.0), bits(1.0), bits(0.0),
        bits(0.0), bits(0.0), bits(0.0), bits(1.0),
    ];
    assert_eq!(exported, expected);
}

#[test]
fn mat4_as_array_flattens_columns_in_order() {
    let exported = dense().as_array();
    let expected: Vec<u32> = (1..=16).map(|i| bits(i as f32)).collect();
    assert_eq!(exported, expected);
}

#[test]
fn index_returns_each_column() {
    let m = dense();
    assert_eq!(*m.index(0), col(1.0, 2.0, 3.0, 4.0));
    assert_eq!(*m.index(1), col(5.0, 6.0, 7.0, 8.0));
    assert_eq!(*m.index(2), col(9.0, 10.0, 11.0, 12.0));
    assert_eq!(*m.index(3), col(13.0, 14.0, 15.0, 16.0));
}

#[test]
fn transpose_turns_columns_into_rows() {
    let t = dense().transpose();
    assert_eq!(*t.index(0), col(1.0, 5.0, 9.0, 13.0));
    assert_eq!(*t.index(1), col(2.0, 6.0, 10.0, 14.0));
    assert_eq!(*t.index(2), col(3.0, 7.0, 11.0, 15.0));
    assert_eq!(*t.index(3), col(4.0, 8.0, 12.0, 16.0));
}

#[test]
fn transpose_twice_restores_the_matrix() {
    let m = dense();
    assert_eq!(m.transpose().transpose(), m);
}

#[test]
fn multiplying_by_identity_changes_nothing() {
    let m = dense();
    assert_eq!(m.mul(Mat4::one()), m);
    assert_eq!(Mat4::one().mul(m), m);
}

#[test]
fn multiplying_by_a_diagonal_scales_rows() {
    let d = Mat4::new(
        col(2.0, 0.0, 0.0, 0.0),
        col(0.0, 3.0, 0.0, 0.0),
        col(0.0, 0.0, 4.0, 0.0),
        col(0.0, 0.0, 0.0, 5.0),
    );
    let b = dense();
    // Row j of the product is row j of b scaled by the j-th diagonal entry.
    let c = d.mul(b);
    assert_eq!(*c.index(0), col(2.0, 6.0, 12.0, 20.0));
    assert_eq!(*c.index(1), col(10.0, 18.0, 28.0, 40.0));
    assert_eq!(*c.index(2), col(18.0, 30.0, 44.0, 60.0));
    assert_eq!(*c.index(3), col(26.0, 42.0, 60.0, 80.0));
}

#[test]
fn matrix_multiplication_is_associative_within_tolerance() {
    let a = Mat4::new(
        col(0.5, -1.25, 2.0, 0.75),
        col(1.5, 0.25, -0.5, 2.25),
        col(-2.0, 1.0, 0.125, -0.75),
        col(0.25, -0.5, 1.75, 1.0),
    );
    let b = dense();
    let c = Mat4::new(
        col(-1.0, 0.5, 2.5, -0.25),
        col(3.0, -1.5, 0.75, 1.25),
        col(0.5, 2.0, -0.125, 0.5),
        col(1.0, -2.25, 0.25, -1.5),
    );
    let left = a.mul(b).mul(c).as_array();
    let right = a.mul(b.mul(c)).as_array();
    for k in 0..16 {
        let l = float(left[k]);
        let r = float(right[k]);
        let scale = 1.0f32.max(l.abs()).max(r.abs());
        assert!((l - r).abs() <= 1e-4 * scale);
    }
}

#[test]
fn matrix_add_is_componentwise() {
    let m = dense();
    let s = m.add(m);
    let expected: Vec<u32> = (1..=16).map(|i| bits(2.0 * i as f32)).collect();
    assert_eq!(s.as_array(), expected);
}

#[test]
fn translate_places_offsets_in_the_w_lane() {
    let t = translate(&Mat4::one(), vec3(bits(1.0), bits(2.0), bits(3.0)));
    assert_eq!(*t.index(0), col(1.0, 0.0, 0.0, 1.0));
    assert_eq!(*t.index(1), col(0.0, 1.0, 0.0, 2.0));
    assert_eq!(*t.index(2), col(0.0, 0.0, 1.0, 3.0));
    assert_eq!(*t.index(3), col(0.0, 0.0, 0.0, 1.0));
}

#[test]
fn translation_moves_the_origin_point() {
    // Applying the translation under the matrix's multiplication convention:
    // the transformed point's i-th coordinate is the dot product of the
    // homogeneous point with column i.
    let t = translate(&Mat4::one(), vec3(bits(1.0), bits(2.0), bits(3.0)));
    let p = vec4(bits(0.0), bits(0.0), bits(0.0), bits(1.0));
    let moved = [
        p.dot_mul(*t.index(0)),
        p.dot_mul(*t.index(1)),
        p.dot_mul(*t.index(2)),
        p.dot_mul(*t.index(3)),
    ];
    assert_eq!(moved, [bits(1.0), bits(2.0), bits(3.0), bits(1.0)]);
}

#[test]
fn translate_keeps_the_rest_of_the_matrix() {
    let m = dense();
    let t = translate(&m, vec3(bits(10.0), bits(20.0), bits(30.0)));
    // Rows of m become columns, with the offsets added in the w lane.
    assert_eq!(*t.index(0), col(1.0, 5.0, 9.0, 23.0));
    assert_eq!(*t.index(1), col(2.0, 6.0, 10.0, 34.0));
    assert_eq!(*t.index(2), col(3.0, 7.0, 11.0, 45.0));
    assert_eq!(*t.index(3), col(4.0, 8.0, 12.0, 16.0));
}

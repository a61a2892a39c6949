use nox::{ConfigurationError, Quaternion, SpatialForce, SpatialInertia, SpatialMotion, SpatialTransform, Vector3};

fn v(x: i64, y: i64, z: i64) -> Vector3 {
    Vector3::new(x, y, z)
}

#[test]
fn vector_cross_exact() {
    let r = v(1, 0, 0).cross(&v(0, 1, 0));
    assert_eq!(r, v(0, 0, 1));
    let r = v(2, 3, 4).cross(&v(5, 6, 7));
    assert_eq!(r, v(-3, 6, -3));
}

#[test]
fn vector_division_rounds_toward_zero() {
    assert_eq!(v(7, -7, 3).div_scalar(2), v(3, -3, 1));
    assert_eq!(v(-9, 9, i64::MIN).div_elem(&v(2, -4, -2)), v(-4, -2, i64::MAX / 2 + 1));
}

#[test]
fn transform_compose_half_turn() {
    // A half turn about Z followed by a shift along X, composed with a shift along Y.
    let half_turn_z = Quaternion::new(0, 0, 1, 0);
    let a = SpatialTransform::new(half_turn_z, v(1, 0, 0));
    let b = SpatialTransform::new(Quaternion::identity(), v(0, 2, 0));
    let c = a.mul(&b);
    assert_eq!(c.inner, [0, 0, 1, 0, 1, -2, 0]);
    assert_eq!(c.angular(), half_turn_z);
    assert_eq!(c.linear(), v(1, -2, 0));
}

#[test]
fn transform_compose_two_half_turns() {
    let a = SpatialTransform::new(Quaternion::new(1, 0, 0, 0), v(0, 0, 0));
    let b = SpatialTransform::new(Quaternion::new(0, 1, 0, 0), v(0, 0, 3));
    let c = a.mul(&b);
    // i * j = k; a half turn about X sends +Z to -Z.
    assert_eq!(c.inner, [0, 0, 1, 0, 0, 0, -3]);
}

#[test]
fn transform_constructors_and_sum() {
    let t = SpatialTransform::from_linear(v(4, 5, 6));
    assert_eq!(t.inner, [0, 0, 0, 1, 4, 5, 6]);
    let r = SpatialTransform::from_angular(Quaternion::new(0, 1, 0, 0));
    assert_eq!(r.inner, [0, 1, 0, 0, 0, 0, 0]);
    assert_eq!(SpatialTransform::zero().inner, [0; 7]);
    assert_eq!(t.add(&r).inner, [0, 1, 0, 1, 4, 5, 6]);
}

#[test]
fn force_parts() {
    let f = SpatialForce::new(v(1, 2, 3), v(4, 5, 6));
    assert_eq!(f.inner, [1, 2, 3, 4, 5, 6]);
    assert_eq!(f.torque(), v(1, 2, 3));
    assert_eq!(f.force(), v(4, 5, 6));
    assert_eq!(SpatialForce::from_linear(v(4, 5, 6)).inner, [0, 0, 0, 4, 5, 6]);
    assert_eq!(SpatialForce::from_torque(v(1, 2, 3)).inner, [1, 2, 3, 0, 0, 0]);
    assert_eq!(SpatialForce::zero().inner, [0; 6]);
    assert_eq!(f.add(&f).inner, [2, 4, 6, 8, 10, 12]);
}

#[test]
fn motion_parts() {
    let m = SpatialMotion::new(v(1, 2, 3), v(4, 5, 6));
    assert_eq!(m.inner, [1, 2, 3, 4, 5, 6]);
    assert_eq!(m.angular(), v(1, 2, 3));
    assert_eq!(m.linear(), v(4, 5, 6));
    assert_eq!(SpatialMotion::from_linear(v(4, 5, 6)).inner, [0, 0, 0, 4, 5, 6]);
    assert_eq!(SpatialMotion::from_angular(v(1, 2, 3)).inner, [1, 2, 3, 0, 0, 0]);
    assert_eq!(SpatialMotion::zero().inner, [0; 6]);
    assert_eq!(m.add(&m).inner, [2, 4, 6, 8, 10, 12]);
    assert_eq!(m.scale(-3).inner, [-3, -6, -9, -12, -15, -18]);
}

#[test]
fn motion_cross_products() {
    let a = SpatialMotion::new(v(0, 0, 1), v(1, 0, 0));
    let b = SpatialMotion::new(v(1, 0, 0), v(0, 2, 0));
    // angular: z × x = y; linear: z × (0,2,0) + x × x = (-2, 0, 0).
    assert_eq!(a.cross(&b).inner, [0, 1, 0, -2, 0, 0]);
    let f = SpatialForce::new(v(0, 1, 0), v(0, 0, 3));
    // torque: z × (0,0,3) = 0; force: z × y + x × (0,0,3) = (-1, -3, 0).
    assert_eq!(a.cross_dual(&f).inner, [0, 0, 0, -1, -3, 0]);
}

#[test]
fn motion_offset_by_transform() {
    let t = SpatialTransform::new(Quaternion::new(0, 0, 1, 0), v(1, 0, 0));
    let m = SpatialMotion::new(v(0, 0, 1), v(1, 0, 0));
    // The half turn about Z keeps ω = z and sends the velocity to (-1, 0, 0); then
    // ω × position = z × x = y.
    assert_eq!(m.offset(&t).inner, [0, 0, 1, -1, 1, 0]);
}

#[test]
fn quaternion_times_spatial_values() {
    let q = Quaternion::new(0, 0, 1, 0);
    let m = SpatialMotion::new(v(1, 0, 0), v(0, 1, 5));
    assert_eq!(q.mul_motion(&m).inner, [-1, 0, 0, 0, -1, 5]);
    let f = SpatialForce::new(v(1, 0, 0), v(0, 1, 5));
    assert_eq!(q.mul_force(&f).inner, [-1, 0, 0, 0, -1, 5]);
    let t = SpatialTransform::new(Quaternion::new(1, 0, 0, 0), v(2, 0, 0));
    assert_eq!(q.mul_transform(&t).inner, [0, 1, 0, 0, -2, 0, 0]);
}

#[test]
fn inertia_parts() {
    let i = SpatialInertia::new(v(1, 2, 3), v(4, 5, 6), 7).unwrap();
    assert_eq!(i.inner, [1, 2, 3, 4, 5, 6, 7]);
    assert_eq!(i.inertia_diag(), v(1, 2, 3));
    assert_eq!(i.momentum(), v(4, 5, 6));
    assert_eq!(i.mass(), 7);
    assert_eq!(SpatialInertia::from_mass(5).unwrap().inner, [5, 5, 5, 0, 0, 0, 5]);
}

#[test]
fn inertia_times_motion_with_momentum() {
    let i = SpatialInertia::new(v(2, 3, 4), v(0, 0, 1), 5).unwrap();
    let m = SpatialMotion::new(v(1, 0, 0), v(0, 1, 0));
    // force = 5 (0,1,0) - (0,0,1) × (1,0,0) = (0,5,0) - (0,1,0) = (0,4,0)
    // torque = (2,0,0) + (0,0,1) × (0,1,0) = (2,0,0) + (-1,0,0) = (1,0,0)
    assert_eq!(i.mul(&m).inner, [1, 0, 0, 0, 4, 0]);
}

#[test]
fn force_divided_by_inertia() {
    let i = SpatialInertia::new(v(2, 3, 4), v(0, 0, 0), 5).unwrap();
    let f = SpatialForce::new(v(7, -7, 8), v(11, -11, 4));
    assert_eq!(f.div(&i).inner, [3, -2, 2, 2, -2, 0]);
}

#[test]
fn inertia_round_trip() {
    let i = SpatialInertia::new(v(2, 3, 4), v(0, 0, 0), 5).unwrap();
    let m = SpatialMotion::new(v(1, -2, 3), v(-4, 5, -6));
    let f = i.mul(&m);
    assert_eq!(f.inner, [2, -6, 12, -20, 25, -30]);
    assert_eq!(f.div(&i).inner, m.inner);
}

#[test]
fn inertia_must_be_positive() {
    let ok = SpatialInertia::new(v(1, 2, 3), v(0, 0, 0), 4).unwrap();
    assert_eq!(ok.inner, [1, 2, 3, 0, 0, 0, 4]);
    assert_eq!(
        SpatialInertia::new(v(1, 2, 3), v(0, 0, 0), 0).unwrap_err(),
        ConfigurationError::NonPositiveInertia
    );
    assert_eq!(
        SpatialInertia::new(v(1, -2, 3), v(0, 0, 0), 4).unwrap_err(),
        ConfigurationError::NonPositiveInertia
    );
}

#[test]
fn from_mass_must_be_positive() {
    assert_eq!(SpatialInertia::from_mass(0).unwrap_err(), ConfigurationError::NonPositiveInertia);
    assert_eq!(SpatialInertia::from_mass(-3).unwrap_err(), ConfigurationError::NonPositiveInertia);
}

#[test]
fn round_trip_with_momentum() {
    let i = SpatialInertia::new(v(2, 2, 2), v(0, 0, 1), 2).unwrap();
    let m = SpatialMotion::new(v(2, 0, 0), v(0, 0, 0));
    let f = i.mul(&m);
    assert_eq!(f.inner, [4, 0, 0, 0, -2, 0]);
    assert_eq!(f.div(&i).inner, m.inner);
    let m = SpatialMotion::new(v(1, -2, 3), v(4, 0, -1));
    let i = SpatialInertia::new(v(5, 6, 7), v(1, 2, -1), 3).unwrap();
    assert_eq!(i.mul(&m).div(&i).inner, m.inner);
}

#[test]
fn division_couples_momentum() {
    // A pure force on a body with momentum also turns it: with diagonal (2,2,2),
    // momentum (0,0,1) and mass 2, the force (0,-2,0) comes from the motion ((2,0,0),0).
    let i = SpatialInertia::new(v(2, 2, 2), v(0, 0, 1), 2).unwrap();
    let f = SpatialForce::new(v(4, 0, 0), v(0, -2, 0));
    assert_eq!(f.div(&i).inner, [2, 0, 0, 0, 0, 0]);
}

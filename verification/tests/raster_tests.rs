use graphics::camera::CameraModel;
use graphics::fixed::Fixed;
use graphics::geometry::Point3;
use graphics::raster::{
    barycentric_coords, bounding_box, check_triangle, compute_area, compute_area_magnitude, compute_edge, fragment,
    perspective_correct_weights, BarycentricWeights, DegenerateGeometry, MAX_COORD, SUBPIXELS,
};
use graphics::transform::{
    camera_basis, camera_to_world_matrix, compose, cross, is_parallel, is_zero_vector, length, orthographic_matrix,
    perspective_matrix, NEAR_ZERO, UP_LIMIT,
    perspective_projection_matrix, raster_point, rotation_matrix, transform_point, transform_vector,
    translation_matrix, viewport_matrix, world_to_camera_matrix, world_to_raster_matrix, ConfigurationError,
};
use graphics::unit::unit_vector;
use graphics::vector::matrix44::Matrix4x4;
use graphics::vector::vec3d::Vec3d;
use graphics::vector::vec4d::Vec4d;

/// The fixed-point number nearest below a decimal number.
fn fx(v: f64) -> Fixed {
    Fixed::from_raw((v * 65536.0).floor() as i64)
}

fn vec3(x: f64, y: f64, z: f64) -> Vec3d<Fixed> {
    Vec3d::new(fx(x), fx(y), fx(z))
}

/// A raster-space point from whole pixel coordinates.
fn px(x: i32, y: i32, z: i32) -> Point3 {
    Point3::new(x * SUBPIXELS, y * SUBPIXELS, z * SUBPIXELS)
}

/// The cross product of the raw components, exactly.
fn raw_cross(a: &Vec3d<Fixed>, b: &Vec3d<Fixed>) -> (i128, i128, i128) {
    let (ax, ay, az) = (a.x.raw as i128, a.y.raw as i128, a.z.raw as i128);
    let (bx, by, bz) = (b.x.raw as i128, b.y.raw as i128, b.z.raw as i128);
    (ay * bz - az * by, az * bx - ax * bz, ax * by - ay * bx)
}

/// The sum of the squares of the raw components.
fn raw_square(v: &Vec3d<Fixed>) -> i128 {
    let (x, y, z) = (v.x.raw as i128, v.y.raw as i128, v.z.raw as i128);
    x * x + y * y + z * z
}

fn raw_dot(a: &Vec3d<Fixed>, b: &Vec3d<Fixed>) -> i128 {
    (a.x.raw as i128) * (b.x.raw as i128) + (a.y.raw as i128) * (b.y.raw as i128) + (a.z.raw as i128) * (b.z.raw as i128)
}

fn assert_near_unit(v: &Vec3d<Fixed>) {
    let n = raw_square(v);
    assert!(65532 * 65532 <= n && n <= 65540 * 65540, "the squares add up to {}", n);
}

fn assert_close(a: &Matrix4x4<Fixed>, b: &Matrix4x4<Fixed>, tolerance: i64) {
    for i in 0..4 {
        for j in 0..4 {
            let d = (a.entry(i, j).raw - b.entry(i, j).raw).abs();
            assert!(d <= tolerance, "entry ({}, {}) differs by {} raw units", i, j, d);
        }
    }
}

#[test]
fn test_bounding_box_should_bound_a_primitive() {
    let v0 = px(-48, -10, 82);
    let v1 = px(29, -15, 44);
    let v2 = px(13, 34, 114);

    let bbox = bounding_box(&v0, &v1, &v2);
    let vertices = vec![v0, v1, v2];

    for vertex in vertices {
        assert!(bbox.x_min * SUBPIXELS <= vertex.x);
        assert!(bbox.x_max * SUBPIXELS >= vertex.x);
        assert!(bbox.y_min * SUBPIXELS <= vertex.y);
        assert!(bbox.y_max * SUBPIXELS >= vertex.y);
    }
}

#[test]
fn test_bounding_box_is_floor_of_least_and_ceiling_of_greatest() {
    let b = bounding_box(&Point3::new(-1, 257, 1), &Point3::new(256, -256, 1), &Point3::new(511, 0, 1));
    assert_eq!((b.x_min, b.x_max, b.y_min, b.y_max), (-1, 2, -1, 2));
    let b = bounding_box(&px(3, 4, 1), &px(3, 4, 1), &px(3, 4, 1));
    assert_eq!((b.x_min, b.x_max, b.y_min, b.y_max), (3, 3, 4, 4));
    let b = bounding_box(
        &Point3::new(i32::MIN, i32::MAX, 1),
        &Point3::new(0, 0, 1),
        &Point3::new(i32::MAX, i32::MIN, 1),
    );
    assert_eq!((b.x_min, b.x_max, b.y_min, b.y_max), (-8388608, 8388608, -8388608, 8388608));
}

#[test]
fn test_triangle_area_function_should_return_same_area() {
    let v0 = px(13, 34, 114);
    let v1 = px(29, -15, 44);
    let v2 = px(-48, -10, 82);

    let area0 = compute_area(&v0, &v1, &v2);
    let area1 = compute_area(&v1, &v2, &v0);
    let area2 = compute_area(&v2, &v0, &v1);
    let area3 = compute_area(&v2, &v1, &v0);
    let area4 = compute_area(&v0, &v2, &v1);

    assert_eq!(area0.abs(), area1.abs());
    assert_eq!(area1.abs(), area2.abs());
    assert_eq!(area2.abs(), area3.abs());
    assert_eq!(area3.abs(), area4.abs());
}

#[test]
fn test_signed_area_keeps_under_rotation_and_flips_under_reversal() {
    let v0 = Point3::new(13, 34, 1);
    let v1 = Point3::new(29, -15, 1);
    let v2 = Point3::new(-48, -10, 1);
    // (p.x - a.x)(b.y - a.y) - (p.y - a.y)(b.x - a.x) with a = v0, b = v1, p = v2:
    // (-61)(-49) - (-44)(16) = 2989 + 704.
    assert_eq!(compute_area(&v0, &v1, &v2), 3693);
    assert_eq!(compute_area(&v1, &v2, &v0), 3693);
    assert_eq!(compute_area(&v2, &v0, &v1), 3693);
    assert_eq!(compute_area(&v2, &v1, &v0), -3693);
    assert_eq!(compute_area(&v0, &v2, &v1), -3693);
    assert_eq!(compute_area(&v1, &v0, &v2), -3693);
    assert_eq!(compute_area_magnitude(&v2, &v1, &v0), 3693);
    assert_eq!(compute_area_magnitude(&v0, &v1, &v2), 3693);
    assert_eq!(compute_edge(&v0, &v1, &v2), 3693);
}

#[test]
fn test_edge_function_on_extreme_coordinates() {
    let a = Point3::new(i32::MIN, i32::MIN, 0);
    let b = Point3::new(i32::MAX, i32::MIN, 0);
    let p = Point3::new(i32::MIN, i32::MAX, 0);
    let side = (i32::MAX as i128) - (i32::MIN as i128);
    assert_eq!(compute_edge(&a, &b, &p), -side * side);
    assert_eq!(compute_area(&a, &b, &p), -side * side);
    assert_eq!(compute_area(&a, &p, &b), side * side);
    assert_eq!(compute_area_magnitude(&a, &b, &p), side * side);
}

#[test]
fn test_barycentric_weights_at_the_vertices() {
    let v0 = Point3::new(13, 34, 1);
    let v1 = Point3::new(29, -15, 1);
    let v2 = Point3::new(-48, -10, 1);
    let area = compute_area(&v0, &v1, &v2);
    assert_eq!(barycentric_coords(&v0, &v1, &v2, &v0), BarycentricWeights::new(area, 0, 0));
    assert_eq!(barycentric_coords(&v0, &v1, &v2, &v1), BarycentricWeights::new(0, area, 0));
    assert_eq!(barycentric_coords(&v0, &v1, &v2, &v2), BarycentricWeights::new(0, 0, area));
    let inside = barycentric_coords(&v0, &v1, &v2, &Point3::new(0, 0, 0));
    assert_eq!(inside.w0 + inside.w1 + inside.w2, area);
    assert!(inside.is_inside(area));
    assert!(!inside.is_inside(-area));
    assert!(!inside.is_inside(0));
    let outside = barycentric_coords(&v0, &v1, &v2, &Point3::new(100, 100, 0));
    assert!(!outside.is_inside(area));
}

#[test]
fn test_check_triangle_names_the_reason() {
    let v0 = Point3::new(0, 0, 1);
    let v1 = Point3::new(0, 512, 1);
    let v2 = Point3::new(512, 0, 1);
    assert_eq!(check_triangle(&v0, &v1, &v2), Ok(compute_area(&v0, &v1, &v2)));
    assert_eq!(check_triangle(&v0, &v1, &Point3::new(0, 1024, 1)), Err(DegenerateGeometry::Area));
    assert_eq!(check_triangle(&v0, &v0, &v0), Err(DegenerateGeometry::Area));
    assert_eq!(check_triangle(&v0, &v1, &Point3::new(512, 0, 0)), Err(DegenerateGeometry::Depth));
    assert_eq!(check_triangle(&v0, &v1, &Point3::new(512, 0, -1)), Err(DegenerateGeometry::Depth));
    assert_eq!(check_triangle(&v0, &v1, &Point3::new(512, 0, 0x0100_0000)), Err(DegenerateGeometry::Depth));
    assert!(check_triangle(&v0, &v1, &Point3::new(512, 0, 0x00FF_FFFF)).is_ok());
    assert_eq!(check_triangle(&v0, &v1, &Point3::new(MAX_COORD + 1, 0, 1)), Err(DegenerateGeometry::Position));
    assert_eq!(check_triangle(&v0, &v1, &Point3::new(0, -MAX_COORD - 1, 0)), Err(DegenerateGeometry::Position));
    assert!(check_triangle(&v0, &v1, &Point3::new(MAX_COORD, -MAX_COORD, 1)).is_ok());
}

#[test]
fn test_fragment_depth_is_perspective_correct() {
    // A triangle whose pixel (1, 1) has the weights 1/4, 1/4 and 1/2.
    let v0 = Point3::new(0, 0, 2);
    let v1 = Point3::new(0, 1536, 4);
    let v2 = Point3::new(768, 0, 4);
    let f = fragment(&v0, &v1, &v2, 1, 1).unwrap();
    let area = compute_area(&v0, &v1, &v2);
    assert_eq!(area, 768 * 1536);
    // Edge functions at (384, 384): 294912, 294912 and 589824, times the two other depths.
    assert_eq!(f.weights, BarycentricWeights::new(294912 * 16, 294912 * 8, 589824 * 8));
    // 1 / (1/4 / 2 + 1/4 / 4 + 1/2 / 4) = 1 / (5/16) = 3.2, rounded down.
    assert_eq!(f.depth, 3);
    // The pixel centre on an edge belongs to the triangle, the next one does not.
    assert!(fragment(&v0, &v1, &v2, 0, 0).is_some());
    assert!(fragment(&v0, &v1, &v2, 3, 3).is_none());
    // With the vertices in the opposite order nothing changes but the order of the weights.
    let g = fragment(&v0, &v2, &v1, 1, 1).unwrap();
    assert_eq!(g.depth, 3);
    assert_eq!(g.weights, BarycentricWeights::new(294912 * 16, 589824 * 8, 294912 * 8));
    // Far outside of everything.
    assert!(fragment(&v0, &v1, &v2, usize::MAX, usize::MAX).is_none());
}

#[test]
fn test_perspective_correct_weights() {
    let w = BarycentricWeights::new(1, 1, 2);
    assert_eq!(perspective_correct_weights(&w, 2, 4, 4), Some(BarycentricWeights::new(16, 8, 16)));
    assert_eq!(perspective_correct_weights(&w, 0, 4, 4), None);
    assert_eq!(perspective_correct_weights(&w, 2, 4, 0x0100_0000), None);
    assert_eq!(perspective_correct_weights(&BarycentricWeights::new(-1, 2, 2), 2, 4, 4), None);
    assert_eq!(perspective_correct_weights(&BarycentricWeights::new(0, 0, 0), 2, 4, 4), None);
    assert_eq!(perspective_correct_weights(&BarycentricWeights::new(1 << 47, 1, 0), 2, 4, 4), None);
    assert!(perspective_correct_weights(&BarycentricWeights::new(1 << 47, 0, 0), 2, 4, 4).is_some());
}

#[test]
fn test_perspective_matrix_equation_should_be_the_product_of_orthographic_and_perspective() {
    let left = fx(-4.5);
    let right = fx(3.5);
    let top = fx(5.4);
    let bottom = fx(-3.4);
    let near = fx(-1.0);
    let far = fx(-6.2);
    let m_persp_proj = perspective_projection_matrix(left, right, top, bottom, near, far).unwrap();
    let m_persp = perspective_matrix(near, far).unwrap();
    let m_orth = orthographic_matrix(left, right, top, bottom, near, far).unwrap();

    // Equal up to the rounding of the fixed-point products and quotients.
    assert_close(&m_persp_proj, &(m_orth * m_persp), 8);
}

#[test]
fn test_translation_matrix_should_be_same_as_vector_displacement() {
    let trans = vec3(2.0, 2.0, 2.0);
    let m_trans = translation_matrix(trans);
    let point = vec3(-4.5, 7.5, 80.0);
    let point2_h = transform_point(&m_trans, &point).unwrap();
    let point2 = point + trans;

    assert_eq!(point2_h, point2);
}

#[test]
fn test_translation_matrix_should_respect_homogeneous_coordinates() {
    let trans = vec3(2.0, 2.0, 2.0);
    let m_trans = translation_matrix(trans);
    let point = Vec4d::new(fx(-4.5), fx(7.5), fx(8.0), fx(0.0));

    assert_eq!(point, transform_vector(&m_trans, &point));
}

#[test]
fn test_translation_matrix_with_no_displacement_should_be_identity() {
    let trans = vec3(0.0, 0.0, 0.0);
    let m_trans = translation_matrix(trans);
    let point = Vec4d::new(fx(-4.5), fx(7.5), fx(8.0), fx(1.0));

    assert_eq!(point, transform_vector(&m_trans, &point));

    let identity = Matrix4x4::new(
        fx(1.0), fx(0.0), fx(0.0), fx(0.0),
        fx(0.0), fx(1.0), fx(0.0), fx(0.0),
        fx(0.0), fx(0.0), fx(1.0), fx(0.0),
        fx(0.0), fx(0.0), fx(0.0), fx(1.0),
    );

    assert_eq!(identity, m_trans);
    assert_eq!(identity, Matrix4x4::<Fixed>::identity());
}

#[test]
fn test_world_to_raster_matrix_should_equal_viewport_times_perspective_projection() {
    let left = fx(-4.5);
    let right = fx(3.5);
    let top = fx(5.4);
    let bottom = fx(-3.4);
    let near = fx(-1.0);
    let far = fx(-6.2);
    let width: usize = 1920;
    let height: usize = 1080;

    // A camera at the origin that looks down the negative z axis sees the
    // world in its own coordinates.
    let eye = vec3(0.0, 0.0, 0.0);
    let gaze = vec3(0.0, 0.0, -1.0);
    let up = vec3(0.0, 1.0, 0.0);
    let world_to_raster =
        world_to_raster_matrix(eye, gaze, up, left, right, top, bottom, near, far, width, height).unwrap();
    let vp = viewport_matrix(width, height);
    let ppm = perspective_projection_matrix(left, right, top, bottom, near, far).unwrap();

    assert_eq!(world_to_raster, vp * ppm);

    // For any other camera the change to camera coordinates comes first.
    let eye = vec3(45.0, 32.5, -19.0);
    let gaze = vec3(-3.6, -4.0, 5.0);
    let up = vec3(0.0, 0.0, 1.0);
    let world_to_raster =
        world_to_raster_matrix(eye, gaze, up, left, right, top, bottom, near, far, width, height).unwrap();
    let m_cam = world_to_camera_matrix(eye, gaze, up).unwrap();
    assert_eq!(world_to_raster, vp * ppm * m_cam);
    assert_ne!(world_to_raster, vp * ppm);
}

#[test]
fn test_world_to_camera_matrix_should_be_a_rigid_body_transformation() {
    // A world to camera transformation should be the product of a displacement of the
    // world space origin to the camera followed by a rotation.
    let eye = vec3(45.0, 32.5, -19.0);
    let gaze = vec3(-3.6, -4.0, 5.0);
    let top = vec3(0.0, 0.0, 1.0);

    let m_trans = translation_matrix(-eye);
    let m_rot = rotation_matrix(gaze, top).unwrap();
    let m_wtoc = world_to_camera_matrix(eye, gaze, top).unwrap();

    assert_eq!(m_wtoc, m_rot * m_trans);
}

#[test]
fn test_world_to_camera_matrix() {
    let p_xyz = Vec4d::new(fx(10.0), fx(5.0), fx(9.0), fx(1.0));
    let eye = vec3(45.0, 32.5, -19.0);
    let gaze = vec3(-3.6, -4.0, 5.0);
    let top = vec3(0.0, 0.0, 1.0);

    // The axes, each normalised on the exact integers: w against the gaze,
    // u along top x w, v along w x u.
    let w = unit_vector(-(gaze.x.raw as i128), -(gaze.y.raw as i128), -(gaze.z.raw as i128));
    let t_cross_w = raw_cross(&top, &w);
    let u = unit_vector(t_cross_w.0, t_cross_w.1, t_cross_w.2);
    let w_cross_u = raw_cross(&w, &u);
    let v = unit_vector(w_cross_u.0, w_cross_u.1, w_cross_u.2);

    let m_rot = Matrix4x4::new(
        u.x, u.y, u.z, fx(0.0),
        v.x, v.y, v.z, fx(0.0),
        w.x, w.y, w.z, fx(0.0),
        fx(0.0), fx(0.0), fx(0.0), fx(1.0),
    );

    let m_trans = Matrix4x4::new(
        fx(1.0), fx(0.0), fx(0.0), -eye.x,
        fx(0.0), fx(1.0), fx(0.0), -eye.y,
        fx(0.0), fx(0.0), fx(1.0), -eye.z,
        fx(0.0), fx(0.0), fx(0.0), fx(1.0),
    );

    let m = m_rot * m_trans;
    let m_wtoc = world_to_camera_matrix(eye, gaze, top).unwrap();

    assert_eq!(m_wtoc, m);
    assert_eq!(transform_vector(&m_wtoc, &p_xyz), transform_vector(&m, &p_xyz));
}

#[test]
fn test_camera_basis_of_the_standard_camera_is_the_world_basis() {
    let b = camera_basis(vec3(0.0, 0.0, -1.0), vec3(0.0, 1.0, 0.0)).unwrap();
    assert_eq!(b.u, vec3(1.0, 0.0, 0.0));
    assert_eq!(b.v, vec3(0.0, 1.0, 0.0));
    assert_eq!(b.w, vec3(0.0, 0.0, 1.0));
    // Any length of the gaze will do.
    let b = camera_basis(vec3(0.0, 0.0, -7.0), vec3(0.0, 3.0, 0.0)).unwrap();
    assert_eq!(b.w, vec3(0.0, 0.0, 1.0));
    assert_eq!(b.u, vec3(1.0, 0.0, 0.0));
    let m = camera_to_world_matrix(vec3(1.0, 2.0, 3.0), vec3(0.0, 0.0, -1.0), vec3(0.0, 1.0, 0.0)).unwrap();
    assert_eq!(m, translation_matrix(vec3(1.0, 2.0, 3.0)));
}

#[test]
fn test_degenerate_camera_basis_is_an_error() {
    let eye = vec3(0.0, 0.0, 5.0);
    // Gaze parallel to up.
    assert_eq!(
        world_to_camera_matrix(eye, vec3(0.0, 2.0, 0.0), vec3(0.0, 1.0, 0.0)),
        Err(ConfigurationError::DegenerateBasis)
    );
    assert_eq!(
        rotation_matrix(vec3(0.0, -2.0, 0.0), vec3(0.0, 1.0, 0.0)),
        Err(ConfigurationError::DegenerateBasis)
    );
    // No gaze at all.
    assert_eq!(
        camera_to_world_matrix(eye, vec3(0.0, 0.0, 0.0), vec3(0.0, 1.0, 0.0)),
        Err(ConfigurationError::DegenerateBasis)
    );
    // No up direction.
    assert!(camera_basis(vec3(0.0, 0.0, -1.0), vec3(0.0, 0.0, 0.0)).is_err());
    assert!(ConfigurationError::DegenerateBasis.describe().contains("gaze"));
}

#[test]
fn test_parallel_directions_are_caught_whatever_their_rounding() {
    let eye = vec3(0.0, 0.0, 5.0);
    // Directions whose unit vector is not exact in fixed point.
    for (x, y, z) in [(3.0, 4.0, 0.0), (1.0, 2.0, 2.0), (1.0, 2.0, 3.0), (1.0, 3.0, 0.0), (1.0, 1.0, 1.0)] {
        let gaze = vec3(x, y, z);
        assert_eq!(world_to_camera_matrix(eye, gaze, gaze), Err(ConfigurationError::DegenerateBasis));
        assert_eq!(rotation_matrix(gaze, gaze), Err(ConfigurationError::DegenerateBasis));
        assert_eq!(camera_to_world_matrix(eye, gaze, gaze), Err(ConfigurationError::DegenerateBasis));
        // Opposite, longer and shorter up directions are parallel too.
        for factor in [-1.0, 2.0, -0.5, 1000.0] {
            let up = vec3(factor * x, factor * y, factor * z);
            assert!(camera_basis(gaze, up).is_err());
            assert!(is_parallel(&gaze, &up));
        }
        assert!(!is_zero_vector(&gaze));
    }
    // The largest components there are.
    let most = Vec3d::new(Fixed::from_raw(i64::MAX), Fixed::from_raw(i64::MIN), Fixed::from_raw(i64::MAX));
    assert!(is_parallel(&most, &most));
    assert!(camera_basis(most, most).is_err());
    assert!(is_zero_vector(&vec3(0.0, 0.0, 0.0)));
    assert!(is_parallel(&vec3(0.0, 0.0, 0.0), &most));
}

#[test]
fn test_nearly_parallel_directions_are_caught_by_the_threshold() {
    assert_eq!(NEAR_ZERO, 256);
    let gaze = vec3(0.0, 0.0, -1.0);
    // An up direction that leaves the gaze by 1/512 only: not parallel, but
    // its cross product with the unit vector against the gaze has a length
    // of 1/512.
    let up = Vec3d::new(Fixed::from_raw(128), fx(0.0), fx(1.0));
    assert!(!is_parallel(&gaze, &up));
    assert_eq!(length(&cross(&up, &vec3(0.0, 0.0, 1.0))), Fixed::from_raw(128));
    assert_eq!(camera_basis(gaze, up).err(), Some(ConfigurationError::DegenerateBasis));
    // At exactly the threshold it still fails, just above it no more.
    let up = Vec3d::new(Fixed::from_raw(256), fx(0.0), fx(1.0));
    assert!(camera_basis(gaze, up).is_err());
    let up = Vec3d::new(Fixed::from_raw(257), fx(0.0), fx(1.0));
    assert!(camera_basis(gaze, up).is_ok());
    assert!(camera_basis(gaze, vec3(0.0, 1.0, 0.0)).is_ok());
}

#[test]
fn test_axes_are_unit_whatever_the_length_of_the_directions() {
    // The shortest directions there are: one raw unit, 1/65536.
    let tiny = |x: i64, y: i64, z: i64| Vec3d::new(Fixed::from_raw(x), Fixed::from_raw(y), Fixed::from_raw(z));
    let b = camera_basis(tiny(1, 1, 0), vec3(0.0, 0.0, 1.0)).unwrap();
    // 65536 over the square root of 2 is 46340.95.
    assert_eq!(b.w, tiny(-46341, -46341, 0));
    assert_eq!(b.u, tiny(46340, -46341, 0));
    assert_eq!(b.v, tiny(0, 0, 65536));
    for (gaze, up) in [
        (tiny(1, 1, 0), vec3(0.0, 0.0, 1.0)),
        (tiny(1, 2, 3), tiny(3, -1, 700)),
        (tiny(-7, 0, 1), tiny(0, 300, 0)),
        (vec3(-3.6, -4.0, 5.0), vec3(0.0, 0.0, 1.0)),
        (vec3(0.001, 0.002, -0.0015), vec3(0.0, 1.0, 0.0)),
        (vec3(12345.0, -23456.0, 30000.0), vec3(1.0, 1.0, 1.0)),
        (tiny(i64::MAX, i64::MIN, 1), vec3(0.0, 0.0, 1.0)),
        (tiny(i64::MIN, i64::MIN, i64::MIN), tiny(1 << 45, -(1 << 45), 0)),
        (vec3(0.0, 0.0, -1.0), tiny(1 << 45, 1 << 45, 1 << 45)),
    ] {
        let b = camera_basis(gaze, up).unwrap();
        assert_near_unit(&b.u);
        assert_near_unit(&b.v);
        assert_near_unit(&b.w);
        // At right angles to within a few raw units.
        assert!(raw_dot(&b.u, &b.w).abs() <= 3 * 65540);
        assert!(raw_dot(&b.v, &b.w).abs() <= 3 * 65540);
        assert!(raw_dot(&b.u, &b.v).abs() <= 3 * 65540);
        // The first axis looks against the gaze.
        assert!(raw_dot(&b.w, &gaze.clone()) < 0 || gaze.x.raw == i64::MIN);
    }
}

#[test]
fn test_unit_vectors() {
    assert_eq!(unit_vector(0, 0, 0), vec3(0.0, 0.0, 0.0));
    assert_eq!(unit_vector(1, 0, 0), vec3(1.0, 0.0, 0.0));
    assert_eq!(unit_vector(0, -5, 0), vec3(0.0, -1.0, 0.0));
    assert_eq!(unit_vector(3, 4, 0), Vec3d::new(Fixed::from_raw(39321), Fixed::from_raw(52428), fx(0.0)));
    assert_eq!(unit_vector(-3, -4, 0), Vec3d::new(Fixed::from_raw(-39322), Fixed::from_raw(-52429), fx(0.0)));
    let most = 1i128 << 63;
    assert_eq!(unit_vector(most, 0, 0), vec3(1.0, 0.0, 0.0));
    assert_near_unit(&unit_vector(most, -most, most));
    assert_near_unit(&unit_vector((1 << 31) - 1, 1, -1));
    assert_near_unit(&unit_vector(1 << 31, 1, -1));
    assert_near_unit(&unit_vector(1, 1, 1));
}

#[test]
fn test_an_up_direction_beyond_its_limit_is_an_error() {
    let eye = vec3(0.0, 0.0, 5.0);
    let gaze = vec3(0.0, 0.0, -1.0);
    let long = Vec3d::new(fx(0.0), Fixed::from_raw(UP_LIMIT + 1), fx(0.0));
    assert_eq!(UP_LIMIT, 1 << 45);
    assert_eq!(camera_basis(gaze, long).err(), Some(ConfigurationError::OutOfRange));
    assert_eq!(world_to_camera_matrix(eye, gaze, long), Err(ConfigurationError::OutOfRange));
    assert_eq!(rotation_matrix(gaze, long), Err(ConfigurationError::OutOfRange));
    assert_eq!(camera_to_world_matrix(eye, gaze, long), Err(ConfigurationError::OutOfRange));
    // The limit comes before everything else about the two directions.
    assert_eq!(camera_basis(vec3(0.0, 0.0, 0.0), long).err(), Some(ConfigurationError::OutOfRange));
    let just = Vec3d::new(fx(0.0), Fixed::from_raw(UP_LIMIT), fx(0.0));
    assert!(camera_basis(gaze, just).is_ok());
    // Any gaze will do.
    let far = Vec3d::new(Fixed::from_raw(i64::MAX), fx(0.0), fx(0.0));
    assert!(camera_basis(far, just).is_ok());
    assert!(ConfigurationError::OutOfRange.describe().contains("up direction"));
}

#[test]
fn test_length_is_zero_for_the_zero_vector_only() {
    assert_eq!(length(&vec3(0.0, 0.0, 0.0)), fx(0.0));
    assert_eq!(length(&Vec3d::new(Fixed::from_raw(1), fx(0.0), fx(0.0))), Fixed::from_raw(1));
    assert_eq!(length(&Vec3d::new(fx(0.0), Fixed::from_raw(-1), fx(0.0))), Fixed::from_raw(1));
    assert_eq!(length(&vec3(3.0, 4.0, 0.0)), fx(5.0));
    assert_eq!(length(&vec3(1.0, 2.0, 2.0)), fx(3.0));
    let most = Vec3d::new(Fixed::from_raw(i64::MIN), Fixed::from_raw(i64::MIN), Fixed::from_raw(i64::MIN));
    assert_eq!(length(&most), Fixed::from_raw(i64::MAX));
}

#[test]
fn test_view_volume_errors() {
    let (l, r, t, b) = (fx(-4.0), fx(4.0), fx(3.0), fx(-3.0));
    assert_eq!(perspective_matrix(fx(-5.0), fx(-5.0)), Err(ConfigurationError::NearFar));
    assert_eq!(perspective_matrix(fx(-10.0), fx(-5.0)), Err(ConfigurationError::NearFar));
    assert!(perspective_matrix(fx(-5.0), fx(-10.0)).is_ok());
    assert_eq!(orthographic_matrix(l, r, t, b, fx(-5.0), fx(-5.0)), Err(ConfigurationError::NearFar));
    assert_eq!(orthographic_matrix(l, l, t, b, fx(-5.0), fx(-10.0)), Err(ConfigurationError::EmptyVolume));
    assert_eq!(orthographic_matrix(l, r, t, t, fx(-5.0), fx(-10.0)), Err(ConfigurationError::EmptyVolume));
    assert_eq!(
        perspective_projection_matrix(l, l, t, b, fx(-5.0), fx(-10.0)),
        Err(ConfigurationError::EmptyVolume)
    );
    assert_eq!(
        perspective_projection_matrix(l, l, t, b, fx(-10.0), fx(-5.0)),
        Err(ConfigurationError::NearFar)
    );
    let eye = vec3(0.0, 0.0, 5.0);
    let gaze = vec3(0.0, 0.0, -1.0);
    let up = vec3(0.0, 1.0, 0.0);
    assert_eq!(
        world_to_raster_matrix(eye, gaze, up, l, r, t, t, fx(-5.0), fx(-10.0), 4, 4),
        Err(ConfigurationError::EmptyVolume)
    );
    assert_eq!(
        world_to_raster_matrix(eye, gaze, gaze, l, r, t, b, fx(-5.0), fx(-10.0), 4, 4),
        Err(ConfigurationError::DegenerateBasis)
    );
    // The error of the view volume comes first.
    assert_eq!(
        world_to_raster_matrix(eye, gaze, gaze, l, r, t, b, fx(-5.0), fx(-5.0), 4, 4),
        Err(ConfigurationError::NearFar)
    );
    assert!(world_to_raster_matrix(eye, gaze, up, l, r, t, b, fx(-5.0), fx(-10.0), 4, 4).is_ok());
}

#[test]
fn test_planes_behind_or_at_the_camera_are_an_error() {
    let (l, r, t, b) = (fx(-4.0), fx(4.0), fx(3.0), fx(-3.0));
    // Both planes have to lie in front of the camera, at negative coordinates.
    assert_eq!(perspective_matrix(fx(1.0), fx(-1.0)), Err(ConfigurationError::NearFar));
    assert_eq!(perspective_matrix(fx(0.0), fx(-1.0)), Err(ConfigurationError::NearFar));
    assert_eq!(perspective_matrix(fx(10.0), fx(5.0)), Err(ConfigurationError::NearFar));
    assert_eq!(perspective_projection_matrix(l, r, t, b, fx(1.0), fx(-1.0)), Err(ConfigurationError::NearFar));
    assert_eq!(perspective_projection_matrix(l, r, t, b, fx(0.0), fx(-1.0)), Err(ConfigurationError::NearFar));
    assert_eq!(orthographic_matrix(l, r, t, b, fx(1.0), fx(-1.0)), Err(ConfigurationError::NearFar));
    assert_eq!(orthographic_matrix(l, r, t, b, fx(0.0), fx(-1.0)), Err(ConfigurationError::NearFar));
    // Just in front of the camera is in order.
    let just = Fixed::from_raw(-1);
    assert!(perspective_matrix(just, fx(-1.0)).is_ok());
    assert!(perspective_projection_matrix(l, r, t, b, just, fx(-1.0)).is_ok());
    assert!(orthographic_matrix(l, r, t, b, just, Fixed::from_raw(-2)).is_ok());
}

#[test]
fn test_chain_for_the_standard_camera() {
    // Eye (0, 0, 5), gaze down the negative z axis, a frustum from 40 to -40
    // on the near plane at -5, an image of 512 by 512 pixels.
    let eye = vec3(0.0, 0.0, 5.0);
    let gaze = vec3(0.0, 0.0, -1.0);
    let up = vec3(0.0, 1.0, 0.0);
    let m = world_to_raster_matrix(
        eye, gaze, up, fx(40.0), fx(-40.0), fx(-40.0), fx(40.0), fx(-5.0), fx(-10.0), 512, 512,
    )
    .unwrap();
    // The first row: 256 * 0.125, nothing, 255.5, and 255.5 times the
    // displacement of -5 that brings the eye to the origin.
    assert_eq!(m.index(0), &[fx(32.0), fx(0.0), fx(255.5), fx(-1277.5)]);
    assert_eq!(m.index(3), &[fx(0.0), fx(0.0), fx(1.0), fx(-5.0)]);
}

#[test]
fn test_matrices_have_the_entries_of_their_formulas() {
    let m = orthographic_matrix(fx(-4.0), fx(4.0), fx(2.0), fx(-2.0), fx(-1.0), fx(-5.0)).unwrap();
    let expected = Matrix4x4::new(
        fx(0.25), fx(0.0), fx(0.0), fx(0.0),
        fx(0.0), fx(0.5), fx(0.0), fx(0.0),
        fx(0.0), fx(0.0), fx(0.5), fx(1.5),
        fx(0.0), fx(0.0), fx(0.0), fx(1.0),
    );
    assert_eq!(m, expected);
    let m = perspective_matrix(fx(-1.0), fx(-5.0)).unwrap();
    let expected = Matrix4x4::new(
        fx(-1.0), fx(0.0), fx(0.0), fx(0.0),
        fx(0.0), fx(-1.0), fx(0.0), fx(0.0),
        fx(0.0), fx(0.0), fx(-6.0), fx(-5.0),
        fx(0.0), fx(0.0), fx(1.0), fx(0.0),
    );
    assert_eq!(m, expected);
    let m = perspective_projection_matrix(fx(-4.0), fx(4.0), fx(2.0), fx(-2.0), fx(-1.0), fx(-5.0)).unwrap();
    let expected = Matrix4x4::new(
        fx(-0.25), fx(0.0), fx(0.0), fx(0.0),
        fx(0.0), fx(-0.5), fx(0.0), fx(0.0),
        fx(0.0), fx(0.0), fx(-1.5), fx(-2.5),
        fx(0.0), fx(0.0), fx(1.0), fx(0.0),
    );
    assert_eq!(m, expected);
    let m = viewport_matrix(512, 256);
    let expected = Matrix4x4::new(
        fx(256.0), fx(0.0), fx(0.0), fx(255.5),
        fx(0.0), fx(128.0), fx(0.0), fx(127.5),
        fx(0.0), fx(0.0), fx(1.0), fx(0.0),
        fx(0.0), fx(0.0), fx(0.0), fx(1.0),
    );
    assert_eq!(m, expected);
}

#[test]
fn test_viewport_maps_the_unit_square_to_pixel_coordinates() {
    let vp = viewport_matrix(512, 512);
    assert_eq!(transform_point(&vp, &vec3(-1.0, -1.0, 0.25)), Some(vec3(-0.5, -0.5, 0.25)));
    assert_eq!(transform_point(&vp, &vec3(1.0, 1.0, -0.75)), Some(vec3(511.5, 511.5, -0.75)));
    assert_eq!(transform_point(&vp, &vec3(0.0, 0.0, 0.0)), Some(vec3(255.5, 255.5, 0.0)));
}

#[test]
fn test_transform_point_divides_by_the_fourth_coordinate() {
    let m = perspective_matrix(fx(-1.0), fx(-5.0)).unwrap();
    // (2, 4, -2, 1) becomes (-2, -4, 12 - 5, -2), and (1, 2, -3.5) after the divide.
    assert_eq!(transform_point(&m, &vec3(2.0, 4.0, -2.0)), Some(vec3(1.0, 2.0, -3.5)));
    // In the plane of the eye the fourth coordinate is zero.
    assert_eq!(transform_point(&m, &vec3(2.0, 4.0, 0.0)), None);
    let product = compose(&Matrix4x4::<Fixed>::identity(), &m);
    assert_eq!(product, m);
    assert_eq!(compose(&m, &Matrix4x4::<Fixed>::zero()), Matrix4x4::<Fixed>::zero());
}

#[test]
fn test_raster_point_rounds_down_to_units_of_a_256th() {
    assert_eq!(raster_point(&vec3(1.0, -1.0, 5.0)), Some(Point3::new(256, -256, 1280)));
    assert_eq!(
        raster_point(&Vec3d::new(Fixed::from_raw(255), Fixed::from_raw(-1), Fixed::from_raw(256))),
        Some(Point3::new(0, -1, 1))
    );
    assert_eq!(raster_point(&Vec3d::new(Fixed::from_raw(i64::MAX), fx(0.0), fx(0.0))), None);
    let edge = Fixed::from_raw((i32::MAX as i64) * 256 + 255);
    assert_eq!(raster_point(&Vec3d::new(edge, fx(0.0), fx(0.0))), Some(Point3::new(i32::MAX, 0, 0)));
    assert_eq!(raster_point(&Vec3d::new(Fixed::from_raw(edge.raw + 1), fx(0.0), fx(0.0))), None);
}

#[test]
fn test_camera_model_rejects_what_is_not_positive() {
    assert!(CameraModel::from_spec(fx(5.0), fx(80.0), fx(80.0)).is_ok());
    assert_eq!(CameraModel::from_spec(fx(0.0), fx(80.0), fx(80.0)).err(), Some(ConfigurationError::NonPositive));
    assert_eq!(CameraModel::from_spec(fx(5.0), fx(-80.0), fx(80.0)).err(), Some(ConfigurationError::NonPositive));
    assert_eq!(CameraModel::from_spec(fx(5.0), fx(80.0), fx(0.0)).err(), Some(ConfigurationError::NonPositive));
    let camera = CameraModel::from_spec(fx(5.0), fx(80.0), fx(40.0)).unwrap();
    assert_eq!(camera.get_matrix(fx(-5.0), fx(-5.0)).err(), Some(ConfigurationError::NearFar));
    assert_eq!(camera.get_matrix(fx(0.0), fx(-5.0)).err(), Some(ConfigurationError::NearFar));
    assert_eq!(camera.get_projection(fx(5.0), fx(-5.0)).err(), Some(ConfigurationError::NearFar));
    // An aperture so narrow that the view volume has no width left.
    let narrow = CameraModel::from_spec(fx(5.0), Fixed::from_raw(1), fx(40.0)).unwrap();
    assert_eq!(narrow.get_matrix(fx(-5.0), fx(-10.0)).err(), Some(ConfigurationError::EmptyVolume));
    assert_eq!(narrow.get_projection(fx(-5.0), fx(-10.0)).err(), Some(ConfigurationError::EmptyVolume));
    assert_eq!(
        camera.sides(fx(-5.0)),
        (fx(40.0), fx(-40.0), fx(-20.0), fx(20.0))
    );
    // The sides are the near plane times 8 and times 4: left 40, right -40, top -20, bottom 20.
    let m = camera.get_matrix(fx(-5.0), fx(-10.0)).unwrap();
    assert_eq!(m, orthographic_matrix(fx(40.0), fx(-40.0), fx(-20.0), fx(20.0), fx(-5.0), fx(-10.0)).unwrap());
    let p = camera.get_projection(fx(-5.0), fx(-10.0)).unwrap();
    assert_eq!(
        p,
        perspective_projection_matrix(fx(40.0), fx(-40.0), fx(-20.0), fx(20.0), fx(-5.0), fx(-10.0)).unwrap()
    );
}

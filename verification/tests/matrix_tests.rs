use graphics::fixed::Fixed;
use graphics::transform::translation_matrix;
use graphics::vector::matrix44::Matrix4x4;
use graphics::vector::vec2d::vec2d;
use graphics::vector::vec3d::{vec3d, Vec3d};
use graphics::vector::vec4d::{vec4d, Vec4d};

fn fx(v: f64) -> Fixed {
    Fixed::from_raw((v * 65536.0).floor() as i64)
}

fn counting() -> Matrix4x4<i64> {
    Matrix4x4::new(1, 2, 3, 4, 5, 6, 7, 8, 9, 10, 11, 12, 13, 14, 15, 16)
}

#[test]
fn test_matrix_shape_and_entries() {
    let m = counting();
    assert_eq!(m.shape(), (4, 4));
    assert_eq!((m.rows(), m.columns()), (4, 4));
    assert_eq!(m.index(2), &[9, 10, 11, 12]);
    assert_eq!(m.entry(3, 0), 13);
}

#[test]
fn test_matrix_transposition() {
    let m = counting();
    let t = Matrix4x4::new(1, 5, 9, 13, 2, 6, 10, 14, 3, 7, 11, 15, 4, 8, 12, 16);
    assert_eq!(m.transposed(), t);
    assert_eq!(m.transposed().transposed(), m);
    let mut n = m;
    n.transpose();
    assert_eq!(n, t);
}

#[test]
fn test_matrix_product() {
    let m = counting();
    let identity = Matrix4x4::new(1, 0, 0, 0, 0, 1, 0, 0, 0, 0, 1, 0, 0, 0, 0, 1);
    let swap = Matrix4x4::new(0, 1, 0, 0, 1, 0, 0, 0, 0, 0, 1, 0, 0, 0, 0, 2);
    assert_eq!(m * identity, m);
    assert_eq!(identity * m, m);
    // From the right the columns are exchanged, from the left the rows.
    assert_eq!(m * swap, Matrix4x4::new(2, 1, 3, 8, 6, 5, 7, 16, 10, 9, 11, 24, 14, 13, 15, 32));
    assert_eq!(swap * m, Matrix4x4::new(5, 6, 7, 8, 1, 2, 3, 4, 9, 10, 11, 12, 26, 28, 30, 32));
    assert_eq!(&m * swap, m * swap);
    assert_eq!(&m * &swap, m * swap);
    let squared = Matrix4x4::new(90, 100, 110, 120, 202, 228, 254, 280, 314, 356, 398, 440, 426, 484, 542, 600);
    assert_eq!(m * m, squared);
    let mut scratch = identity;
    m.multiply(&m, &mut scratch);
    assert_eq!(scratch, squared);
    let mut n = m;
    n.mul_assign(m);
    assert_eq!(n, squared);
}

#[test]
fn test_matrix_applied_to_vectors() {
    let m = counting();
    let src = vec3d(1, 10, 100);
    let mut dest = vec3d(0, 0, 0);
    // The components of the vector times the columns of the upper left part.
    m.vec_multiply(&src, &mut dest);
    assert_eq!(dest, vec3d(1 + 50 + 900, 2 + 60 + 1000, 3 + 70 + 1100));
    // With the displacement of the fourth column, divided by the fourth coordinate:
    // (955, 1070, 1185) / (4 + 80 + 1200 + 16).
    let m = Matrix4x4::new(1, 2, 3, 2, 5, 6, 7, 4, 9, 10, 11, 6, 13, 14, 15, 1);
    let mut dest = vec3d(0, 0, 0);
    m.vec_disp_multiply(&src, &mut dest);
    let w = 2 + 40 + 600 + 1;
    assert_eq!(dest, vec3d((951 + 2) / w, (1062 + 4) / w, (1173 + 6) / w));
}

#[test]
fn test_determinant_and_inverse() {
    let identity = Matrix4x4::<Fixed>::identity();
    assert_eq!(identity.determinant(), fx(1.0));
    assert_eq!(identity.inverse(), Some(identity));
    assert_eq!(Matrix4x4::<Fixed>::zero().determinant(), fx(0.0));
    assert_eq!(Matrix4x4::<Fixed>::zero().inverse(), None);

    let scale = Matrix4x4::new(
        fx(2.0), fx(0.0), fx(0.0), fx(0.0),
        fx(0.0), fx(4.0), fx(0.0), fx(0.0),
        fx(0.0), fx(0.0), fx(0.5), fx(0.0),
        fx(0.0), fx(0.0), fx(0.0), fx(1.0),
    );
    assert_eq!(scale.determinant(), fx(4.0));
    let expected = Matrix4x4::new(
        fx(0.5), fx(0.0), fx(0.0), fx(0.0),
        fx(0.0), fx(0.25), fx(0.0), fx(0.0),
        fx(0.0), fx(0.0), fx(2.0), fx(0.0),
        fx(0.0), fx(0.0), fx(0.0), fx(1.0),
    );
    assert_eq!(scale.inverse(), Some(expected));
    assert_eq!(scale * expected, identity);

    // The inverse of a displacement is the opposite displacement.
    let there = translation_matrix(Vec3d::new(fx(1.0), fx(-2.5), fx(80.0)));
    let back = translation_matrix(Vec3d::new(fx(-1.0), fx(2.5), fx(-80.0)));
    assert_eq!(there.determinant(), fx(1.0));
    assert_eq!(there.inverse(), Some(back));

    // A matrix with two equal rows has none.
    let singular = Matrix4x4::new(
        fx(1.0), fx(2.0), fx(3.0), fx(4.0),
        fx(1.0), fx(2.0), fx(3.0), fx(4.0),
        fx(0.0), fx(0.0), fx(1.0), fx(0.0),
        fx(0.0), fx(0.0), fx(0.0), fx(1.0),
    );
    assert_eq!(singular.determinant(), fx(0.0));
    let mut m = singular;
    assert!(!m.invert());
    assert_eq!(m, singular);
    let mut m = scale;
    assert!(m.invert());
    assert_eq!(m, expected);

    // A general matrix: the determinant is -2 * (1 * 4 - 2 * 3) * 1.
    let general = Matrix4x4::new(
        fx(-2.0), fx(0.0), fx(0.0), fx(0.0),
        fx(0.0), fx(1.0), fx(2.0), fx(0.0),
        fx(0.0), fx(3.0), fx(4.0), fx(0.0),
        fx(7.0), fx(0.0), fx(0.0), fx(1.0),
    );
    assert_eq!(general.determinant(), fx(4.0));
    let inverse = general.inverse().unwrap();
    assert_eq!(
        inverse,
        Matrix4x4::new(
            fx(-0.5), fx(0.0), fx(0.0), fx(0.0),
            fx(0.0), fx(-2.0), fx(1.0), fx(0.0),
            fx(0.0), fx(1.5), fx(-0.5), fx(0.0),
            fx(3.5), fx(0.0), fx(0.0), fx(1.0),
        )
    );
    assert_eq!(general * inverse, identity);
    assert_eq!(inverse * general, identity);
}

fn diagonal(raw: i64) -> Matrix4x4<Fixed> {
    let d = Fixed::from_raw(raw);
    let o = Fixed::from_raw(0);
    Matrix4x4::new(d, o, o, o, o, d, o, o, o, o, d, o, o, o, o, d)
}

#[test]
fn test_inverse_of_matrices_with_entries_below_one() {
    // 1/256 on the diagonal: the determinant, 2 to the -32, is too small
    // for a fixed-point number, but the matrix has an inverse all the same.
    let small = diagonal(256);
    assert_eq!(small.determinant(), Fixed::from_raw(0));
    assert_eq!(small.inverse(), Some(diagonal(256 * 65536)));
    assert_eq!(small * small.inverse().unwrap(), Matrix4x4::<Fixed>::identity());
    // One tenth, rounded down to 6553/65536: the inverse is 65536 / 6553 =
    // 10.0008, rounded down once.
    let tenth = diagonal(6553);
    assert_eq!(tenth.inverse(), Some(diagonal(655420)));
    // The smallest entries there are.
    assert_eq!(diagonal(1).inverse(), Some(diagonal(65536 * 65536)));
    assert_eq!(diagonal(-1).inverse(), Some(diagonal(-65536 * 65536)));
    // Rounded down, also below zero: -65536 / 3 = -21845.33.
    assert_eq!(diagonal(-3 * 65536).inverse(), Some(diagonal(-21846)));
    assert_eq!(diagonal(3 * 65536).inverse(), Some(diagonal(21845)));

    // A matrix of small entries that is not diagonal:
    // [[a, b], [c, a]] with a = 1/2, b = 1/4, c = 1/8 in the upper left.
    let (a, b, c, o, i) = (fx(0.5), fx(0.25), fx(0.125), fx(0.0), fx(1.0));
    let m = Matrix4x4::new(a, b, o, o, c, a, o, o, o, o, i, o, o, o, o, i);
    // The determinant is 1/4 - 1/32 = 7/32.
    assert_eq!(m.determinant(), fx(0.21875));
    let inverse = m.inverse().unwrap();
    // (1 / (7/32)) * [[1/2, -1/4], [-1/8, 1/2]] = [[16/7, -8/7], [-4/7, 16/7]].
    let seventh = |n: i64| Fixed::from_raw((n * 65536).div_euclid(7));
    assert_eq!(
        inverse,
        Matrix4x4::new(seventh(16), seventh(-8), o, o, seventh(-4), seventh(16), o, o, o, o, i, o, o, o, o, i)
    );
}

#[test]
fn test_singular_matrices_have_no_inverse() {
    let o = fx(0.0);
    // Two equal rows of small entries.
    let s = Fixed::from_raw(3);
    let t = Fixed::from_raw(5);
    let singular = Matrix4x4::new(s, t, o, o, s, t, o, o, o, o, s, o, o, o, o, t);
    assert_eq!(singular.inverse(), None);
    // One raw unit apart it is not singular any more.
    let nearly = Matrix4x4::new(s, t, o, o, s, Fixed::from_raw(6), o, o, o, o, s, o, o, o, o, t);
    assert!(nearly.inverse().is_some());
    assert_eq!(diagonal(0).inverse(), None);
}

#[test]
fn test_the_limit_of_the_entries() {
    let limit = graphics::vector::inverse::ENTRY_LIMIT;
    assert_eq!(limit, 16384 * 65536);
    assert!(diagonal(limit).is_within_limit());
    assert!(diagonal(-limit).is_within_limit());
    assert!(!diagonal(limit + 1).is_within_limit());
    assert!(!diagonal(-limit - 1).is_within_limit());
    let o = fx(0.0);
    let last = Matrix4x4::new(o, o, o, o, o, o, o, o, o, o, o, o, o, o, o, Fixed::from_raw(i64::MIN));
    assert!(!last.is_within_limit());
    // At the limit everything still fits: the inverse of 16384 is 1/16384.
    assert_eq!(diagonal(limit).inverse(), Some(diagonal(4)));
    assert_eq!(diagonal(limit).determinant(), Fixed::from_raw(i64::MAX));
    let all = Fixed::from_raw(limit);
    let full = Matrix4x4::new(all, all, all, all, all, all, all, all, all, all, all, all, all, all, all, all);
    assert_eq!(full.inverse(), None);
}

#[test]
fn test_vector_dimensions_and_components() {
    let a = vec2d(1, 2);
    let b = vec3d(1, 2, 3);
    let c = vec4d(1, 2, 3, 4);
    assert_eq!((a.dim(), b.dim(), c.dim()), (2, 3, 4));
    assert_eq!((*a.index(0), *a.index(1)), (1, 2));
    assert_eq!((*b.index(0), *b.index(1), *b.index(2)), (1, 2, 3));
    assert_eq!((*c.index(0), *c.index(1), *c.index(2), *c.index(3)), (1, 2, 3, 4));
    assert_eq!(Vec4d::new(1, 2, 3, 4), c);
}

#[test]
fn test_vector_products() {
    assert_eq!(vec2d(3, 4).norm(), 25);
    assert_eq!(vec3d(1, 2, 3).norm(), 14);
    assert_eq!(vec4d(1, 2, 3, 4).norm(), 30);
    assert_eq!(vec2d(3, 4).dot_product(vec2d(-1, 2)), 5);
    assert_eq!(vec3d(1, 2, 3).dot_product(vec3d(4, -5, 6)), 12);
    assert_eq!(vec4d(1, 2, 3, 4).dot_product(vec4d(4, 3, 2, 1)), 20);
    // Divided by the square of the length, 27000.
    assert_eq!(vec4d(30, 60, -90, 120).normalize(), vec4d(0, 0, 0, 0));
    assert_eq!(vec4d(0, 0, -1, 0).normalize(), vec4d(0, 0, -1, 0));
    assert_eq!(vec4d(2, 0, 0, 0).normalize(), vec4d(0, 0, 0, 0));
    assert_eq!(vec4d(1, 0, 0, 0).normalize(), vec4d(1, 0, 0, 0));
}

#[test]
fn test_vector_operators() {
    let a = vec3d(10, -20, 30);
    let b = vec3d(1, 2, 3);
    assert_eq!(&a + b, vec3d(11, -18, 33));
    assert_eq!(a + &b, vec3d(11, -18, 33));
    assert_eq!(&a + &b, vec3d(11, -18, 33));
    assert_eq!(&a - b, vec3d(9, -22, 27));
    assert_eq!(&a - &b, vec3d(9, -22, 27));
    assert_eq!(a * 3, vec3d(30, -60, 90));
    assert_eq!(&a * 3, vec3d(30, -60, 90));
    assert_eq!(a / 3, vec3d(3, -6, 10));
    assert_eq!(&a / -3, vec3d(-3, 6, -10));
    assert_eq!(-a, vec3d(-10, 20, -30));
    assert_eq!(-&a, vec3d(-10, 20, -30));
    assert_eq!(vec2d(7, 9) / 2, vec2d(3, 4));
    assert_eq!(-vec4d(1, -2, 3, -4) * 2, vec4d(-2, 4, -6, 8));

    let mut c = a;
    c.add_assign(b);
    assert_eq!(c, vec3d(11, -18, 33));
    c.sub_assign(b);
    assert_eq!(c, a);
    c.mul_assign(2);
    assert_eq!(c, vec3d(20, -40, 60));
    c.div_assign(20);
    assert_eq!(c, vec3d(1, -2, 3));
    let mut d = vec4d(1, 2, 3, 4);
    d.add_assign(vec4d(4, 3, 2, 1));
    assert_eq!(d, vec4d(5, 5, 5, 5));
    let mut e = vec2d(8, 6);
    e.div_assign(2);
    e.sub_assign(vec2d(4, 3));
    assert_eq!(e, vec2d(0, 0));
}

use graphics::vector::vec2d::{vec2d, Vec2d};
use graphics::vector::vec3d::{vec3d, Vec3d};
use graphics::vector::vec4d::{vec4d, Vec4d};

struct TestCase2<T> where T: Copy {
    vec1: Vec2d<T>,
    vec2: Vec2d<T>,
    vec3: Vec2d<T>,
}

struct Test2<T> where T: Copy {
    inner: Vec<TestCase2<T>>
}

fn two_dim_integer_add_test_cases() -> Test2<isize> {
    Test2 {
        inner: vec![
            TestCase2 {
                vec1: vec2d(93, 41),
                vec2: vec2d(22, 2),
                vec3: vec2d(115, 43),
            },
            TestCase2 {
                vec1: vec2d(14, 16),
                vec2: vec2d(11, 40),
                vec3: vec2d(25, 56),
            },
            TestCase2 {
                vec1: vec2d(100, 76),
                vec2: vec2d(-63, 49),
                vec3: vec2d(37, 125),
            },
            TestCase2 {
                vec1: vec2d(63, 49),
                vec2: vec2d(-74, -62),
                vec3: vec2d(-11, -13),
            },
        ]
    }
}

fn two_dim_integer_sub_test_cases() -> Test2<isize> {
    Test2 {
        inner: vec![
            TestCase2 {
                vec1: vec2d(93, 41),
                vec2: vec2d(22, 2),
                vec3: vec2d(71, 39),
            },
            TestCase2 {
                vec1: vec2d(14, 16),
                vec2: vec2d(11, 40),
                vec3: vec2d(3, -24),
            },
            TestCase2 {
                vec1: vec2d(100, 76),
                vec2: vec2d(-63, 49),
                vec3: vec2d(163, 27),
            },
            TestCase2 {
                vec1: vec2d(63, 49),
                vec2: vec2d(-74, -62),
                vec3: vec2d(137, 111),
            },
        ]
    }
}


#[test]
fn vec2d_test_addition() {
    let tests = two_dim_integer_add_test_cases();
    for test in tests.inner {
        let res = test.vec1 + test.vec2;
        assert_eq!(res, test.vec3);
    }
}

#[test]
fn vec2d_test_subtraction() {
    let tests = two_dim_integer_sub_test_cases();
    for test in tests.inner {
        let res = test.vec1 - test.vec2;
        assert_eq!(res, test.vec3);
    }
}

struct TestCase3<T> where T: Copy {
    vec1: Vec3d<T>,
    vec2: Vec3d<T>,
    vec3: Vec3d<T>,
}

struct Test3<T> where T: Copy {
    inner: Vec<TestCase3<T>>
}

fn three_dim_integer_add_test_cases() -> Test3<isize> {
    Test3 {
        inner: vec![
            TestCase3 {
                vec1: vec3d(-56, -74, -83),
                vec2: vec3d(-11, -93, 96),
                vec3: vec3d(-67, -167, 13),
            },
            TestCase3 {
                vec1: vec3d(34, 70, 17),
                vec2: vec3d(49, -49, -33),
                vec3: vec3d(83, 21, -16),
            },
            TestCase3 {
                vec1: vec3d(62, -53, 6),
                vec2: vec3d(8, -19, -29),
                vec3: vec3d(70, -72, -23),
            },
            TestCase3 {
                vec1: vec3d(-34, -17, -63),
                vec2: vec3d(-32, 41, -6),
                vec3: vec3d(-66, 24, -69),
            },
        ]
    }
}

fn three_dim_integer_sub_test_cases() -> Test3<isize> {
    Test3 {
        inner: vec![
            TestCase3 {
                vec1: vec3d(-56, -74, -83),
                vec2: vec3d(-11, -93, 96),
                vec3: vec3d(-45, 19, -179),
            },
            TestCase3 {
                vec1: vec3d(34, 70, 17),
                vec2: vec3d(49, -49, -33),
                vec3: vec3d(34-49, 70-(-49), 17-(-33)),
            },
            TestCase3 {
                vec1: vec3d(62, -53, 6),
                vec2: vec3d(8, -19, -29),
                vec3: vec3d(62-8, -53-(-19), 6-(-29)),
            },
            TestCase3 {
                vec1: vec3d(-34, -17, -63),
                vec2: vec3d(-32, 41, -6),
                vec3: vec3d(-34-(-32), -17-41, -63-(-6)),
            },
        ]
    }
}

#[test]
fn vec3d_test_addition() {
    let tests = three_dim_integer_add_test_cases();
    for test in tests.inner {
        let res = test.vec1 + test.vec2;

        assert_eq!(res, test.vec3);
    }
}

#[test]
fn vec3d_test_subtraction() {
    let tests = three_dim_integer_sub_test_cases();
    for test in tests.inner {
        let res = test.vec1 - test.vec2;
        
        assert_eq!(res, test.vec3);
    }
}

struct TestCase4<T> where T: Copy {
    vec1: Vec4d<T>,
    vec2: Vec4d<T>,
    vec3: Vec4d<T>,
}

struct Test4<T> where T: Copy {
    inner: Vec<TestCase4<T>>
}

fn four_dim_integer_add_test_cases() -> Test4<isize> {
    Test4 {
        inner: vec![
            TestCase4 {
                vec1: vec4d(-56, -74, -83,  91),
                vec2: vec4d(-11, -93,  96,  45),
                vec3: vec4d(-67, -167, 13, 136),
            },
            TestCase4 {
                vec1: vec4d(34,  70,  17,  28),
                vec2: vec4d(49, -49, -33, -25),
                vec3: vec4d(83,  21, -16,   3),
            },
            TestCase4 {
                vec1: vec4d(62, -53,   6,  46),
                vec2: vec4d(8,  -19, -29, -85),
                vec3: vec4d(70, -72, -23, -39),
            },
            TestCase4 {
                vec1: vec4d(-34, -17, -63, -84),
                vec2: vec4d(-32,  41,  -6,  34),
                vec3: vec4d(-66,  24, -69, -50),
            },
        ]
    }
}

fn four_dim_integer_sub_test_cases() -> Test4<isize> {
    Test4 {
        inner: vec![
            TestCase4 {
                vec1: vec4d(-56, -74,  -83, 100),
                vec2: vec4d(-11, -93,   96,  83),
                vec3: vec4d(-45,  19, -179,  17),
            },
            TestCase4 {
                vec1: vec4d(34,   70,  17,  -33),
                vec2: vec4d(49,  -49, -33,   90),
                vec3: vec4d(-15, 119,  50, -123),
            },
            TestCase4 {
                vec1: vec4d(62, -53,   6, -32),
                vec2: vec4d(8,  -19, -29, -68),
                vec3: vec4d(54, -34,  35,  36),
            },
            TestCase4 {
                vec1: vec4d(-34, -17, -63,  46),
                vec2: vec4d(-32,  41,  -6,  86),
                vec3: vec4d(-2,  -58, -57, -40),
            },
        ]
    }
}

#[test]
fn vec4d_test_addition() {
    let tests = four_dim_integer_add_test_cases();
    for test in tests.inner {
        let res = test.vec1 + test.vec2;

        assert_eq!(res, test.vec3);
    }
}

#[test]
fn vec4d_test_subtraction() {
    let tests = four_dim_integer_sub_test_cases();
    for test in tests.inner {
        let res = test.vec1 - test.vec2;
        
        assert_eq!(res, test.vec3);
    }
}


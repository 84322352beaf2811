use luminary::matrix44::Matrix44;
use luminary::value::Value;

/// A double-precision scalar for the geometric types.
#[derive(Clone, Copy, Debug, PartialEq, PartialOrd)]
struct Real(f64);

fn through_double(x: f64) -> f64 {
    let d: f64 = num::ToPrimitive::to_f64(&x).unwrap();
    num::FromPrimitive::from_f64(d).unwrap()
}

impl Value for Real {
    fn same(self, rhs: Self) -> bool {
        self.0 == rhs.0
    }

    fn less(self, rhs: Self) -> bool {
        self.0 < rhs.0
    }

    fn at_most(self, rhs: Self) -> bool {
        self.0 <= rhs.0
    }

    fn can_add(self, _rhs: Self) -> bool {
        true
    }

    fn plus(self, rhs: Self) -> Self {
        Real(self.0 + rhs.0)
    }

    fn can_sub(self, _rhs: Self) -> bool {
        true
    }

    fn minus(self, rhs: Self) -> Self {
        Real(self.0 - rhs.0)
    }

    fn can_mul(self, _rhs: Self) -> bool {
        true
    }

    fn times(self, rhs: Self) -> Self {
        Real(self.0 * rhs.0)
    }

    fn can_div(self, _rhs: Self) -> bool {
        true
    }

    fn over(self, rhs: Self) -> Self {
        Real(self.0 / rhs.0)
    }

    fn can_neg(self) -> bool {
        true
    }

    fn negated(self) -> Self {
        Real(-self.0)
    }

    fn can_abs(self) -> bool {
        true
    }

    fn magnitude(self) -> Self {
        Real(num::abs(self.0))
    }

    fn can_sqrt(self) -> bool {
        true
    }

    fn root(self) -> Self {
        Real(through_double(self.0.sqrt()))
    }

    fn can_floor(self) -> bool {
        true
    }

    fn floored(self) -> Self {
        Real(through_double(self.0.floor()))
    }

    fn can_ceil(self) -> bool {
        true
    }

    fn ceiled(self) -> Self {
        Real(through_double(self.0.ceil()))
    }

    fn nil() -> Self {
        Real(num::zero())
    }

    fn unit() -> Self {
        Real(num::one())
    }

    fn lowest() -> Self {
        Real(num::Bounded::min_value())
    }

    fn highest() -> Self {
        Real(num::Bounded::max_value())
    }

    fn zero() -> Self {
        Self::nil()
    }

    fn one() -> Self {
        Self::unit()
    }

    fn min_value() -> Self {
        Self::lowest()
    }

    fn max_value() -> Self {
        Self::highest()
    }

    fn equals(self, rhs: Self) -> bool {
        self.same(rhs)
    }

    fn lt(self, rhs: Self) -> bool {
        self.less(rhs)
    }

    fn gt(self, rhs: Self) -> bool {
        rhs.less(self)
    }

    fn le(self, rhs: Self) -> bool {
        self.at_most(rhs)
    }

    fn ge(self, rhs: Self) -> bool {
        rhs.at_most(self)
    }

    fn add(self, rhs: Self) -> Self {
        self.plus(rhs)
    }

    fn sub(self, rhs: Self) -> Self {
        self.minus(rhs)
    }

    fn mul(self, rhs: Self) -> Self {
        self.times(rhs)
    }

    fn div(self, rhs: Self) -> Self {
        self.over(rhs)
    }

    fn neg(self) -> Self {
        self.negated()
    }

    fn abs(self) -> Self {
        self.magnitude()
    }

    fn sqrt(self) -> Self {
        self.root()
    }

    fn floor(self) -> Self {
        self.floored()
    }

    fn ceil(self) -> Self {
        self.ceiled()
    }
}

const EPSILON: f64 = 0.00001;

fn assert_float_value(expected: f64, value: f64) {
    assert!((value - expected).abs() < EPSILON);
}

fn assert_matrix_values(
    t00: f64, t01: f64, t02: f64, t03: f64,
    t10: f64, t11: f64, t12: f64, t13: f64,
    t20: f64, t21: f64, t22: f64, t23: f64,
    t30: f64, t31: f64, t32: f64, t33: f64,
    matrix: Matrix44<Real>,
) {
    assert_float_value(t00, matrix[0][0].0);
    assert_float_value(t01, matrix[0][1].0);
    assert_float_value(t02, matrix[0][2].0);
    assert_float_value(t03, matrix[0][3].0);
    assert_float_value(t10, matrix[1][0].0);
    assert_float_value(t11, matrix[1][1].0);
    assert_float_value(t12, matrix[1][2].0);
    assert_float_value(t13, matrix[1][3].0);
    assert_float_value(t20, matrix[2][0].0);
    assert_float_value(t21, matrix[2][1].0);
    assert_float_value(t22, matrix[2][2].0);
    assert_float_value(t23, matrix[2][3].0);
    assert_float_value(t30, matrix[3][0].0);
    assert_float_value(t31, matrix[3][1].0);
    assert_float_value(t32, matrix[3][2].0);
    assert_float_value(t33, matrix[3][3].0);
}

fn reals(m: [[f64; 4]; 4]) -> Matrix44<Real> {
    Matrix44::new_from_array([
        [Real(m[0][0]), Real(m[0][1]), Real(m[0][2]), Real(m[0][3])],
        [Real(m[1][0]), Real(m[1][1]), Real(m[1][2]), Real(m[1][3])],
        [Real(m[2][0]), Real(m[2][1]), Real(m[2][2]), Real(m[2][3])],
        [Real(m[3][0]), Real(m[3][1]), Real(m[3][2]), Real(m[3][3])],
    ])
}

fn rows_f(m: Matrix44<Real>) -> [[f64; 4]; 4] {
    let mut r = [[0.0; 4]; 4];
    for i in 0..4 {
        for j in 0..4 {
            r[i][j] = m[i][j].0;
        }
    }
    r
}

fn rows_i(m: Matrix44<i32>) -> [[i32; 4]; 4] {
    [m[0], m[1], m[2], m[3]]
}

const ROTATED: [[f64; 4]; 4] = [
    [0.707107, 0.0, -0.707107, 0.0],
    [-0.331295, 0.883452, -0.331295, 0.0],
    [0.624695, 0.468521, 0.624695, 0.0],
    [4.000574, 3.00043, 4.000574, 1.0],
];

#[test]
fn inverse() {
    let matrix = Matrix44::new(
        Real(0.707107), Real(0.0), Real(-0.707107), Real(0.0),
        Real(-0.331295), Real(0.883452), Real(-0.331295), Real(0.0),
        Real(0.624695), Real(0.468521), Real(0.624695), Real(0.0),
        Real(4.000574), Real(3.00043), Real(4.000574), Real(1.0),
    );

    let result = matrix.inverse();

    assert_matrix_values(
        0.707107, -0.331295, 0.624695, 0.0,
        0.0, 0.883452, 0.468521, 0.0,
        -0.707107, -0.331295, 0.624695, 0.0,
        0.0, 0.0, -6.404044, 1.0,
        result,
    );
}

#[test]
fn inverse_of_inverse_is_the_matrix() {
    let matrix = reals(ROTATED);

    let back = rows_f(matrix.inverse().inverse());

    for i in 0..4 {
        for j in 0..4 {
            let scale = ROTATED[i][j].abs().max(1.0);
            assert!((back[i][j] - ROTATED[i][j]).abs() < EPSILON * scale);
        }
    }
}

#[test]
fn try_inverse_agrees_with_inverse() {
    let matrix = reals(ROTATED);

    let found = matrix.try_inverse().unwrap();

    assert_eq!(rows_f(matrix.inverse()), rows_f(found));
}

#[test]
fn inverse_of_identity_is_identity() {
    let identity: Matrix44<Real> = Matrix44::identity();

    assert_eq!(rows_f(Matrix44::identity()), rows_f(identity.inverse()));
    assert_eq!(
        [[1.0, 0.0, 0.0, 0.0], [0.0, 1.0, 0.0, 0.0], [0.0, 0.0, 1.0, 0.0], [0.0, 0.0, 0.0, 1.0]],
        rows_f(identity.inverse())
    );
}

#[test]
fn inverse_of_identity_is_identity_int() {
    let identity: Matrix44<i32> = Matrix44::identity();

    assert_eq!(
        [[1, 0, 0, 0], [0, 1, 0, 0], [0, 0, 1, 0], [0, 0, 0, 1]],
        rows_i(identity.inverse())
    );
    assert!(identity.try_inverse().is_some());
}

#[test]
fn inverse_of_zero_row_is_identity() {
    let singular = reals([
        [1.0, 2.0, 3.0, 4.0],
        [0.0, 0.0, 0.0, 0.0],
        [5.0, 6.0, 7.0, 8.0],
        [9.0, 1.0, 2.0, 3.0],
    ]);

    let result = rows_f(singular.inverse());

    assert_eq!(rows_f(Matrix44::identity()), result);
    for row in result.iter() {
        for v in row.iter() {
            assert!(!v.is_nan());
        }
    }
    assert!(singular.try_inverse().is_none());
}

#[test]
fn inverse_of_zero_row_is_identity_int() {
    let singular: Matrix44<i32> =
        Matrix44::new(1, 2, 3, 4, 5, 6, 7, 8, 0, 0, 0, 0, 9, 1, 2, 3);

    assert_eq!(rows_i(Matrix44::identity()), rows_i(singular.inverse()));
    assert!(singular.try_inverse().is_none());
}

#[test]
fn inverse_of_zero_matrix_is_identity() {
    let zero: Matrix44<i32> = Matrix44::zero();

    assert_eq!(rows_i(Matrix44::identity()), rows_i(zero.inverse()));
}

#[test]
fn inverse_of_equal_rows_is_identity() {
    let singular: Matrix44<i32> =
        Matrix44::new(1, 2, 3, 4, 1, 2, 3, 4, 0, 0, 1, 0, 0, 0, 0, 1);

    assert!(singular.try_inverse().is_none());
    assert_eq!(rows_i(Matrix44::identity()), rows_i(singular.inverse()));
}

#[test]
fn inverse_picks_the_largest_pivot() {
    // The first column holds its largest entry in the last row, so the rows
    // are exchanged before anything is divided.
    let matrix: Matrix44<i32> = Matrix44::new(0, 0, 0, 1, 0, 1, 0, 0, 0, 0, 1, 0, -1, 0, 0, 0);

    let result = matrix.inverse();

    assert_eq!(
        [[0, 0, 0, -1], [0, 1, 0, 0], [0, 0, 1, 0], [1, 0, 0, 0]],
        rows_i(result)
    );
    assert_eq!(rows_i(Matrix44::identity()), rows_i(matrix.mul(result)));
}

#[test]
fn inverse_of_a_translation_int() {
    let matrix: Matrix44<i32> = Matrix44::new(1, 0, 0, 5, 0, 1, 0, -7, 0, 0, 1, 9, 0, 0, 0, 1);

    assert_eq!(
        [[1, 0, 0, -5], [0, 1, 0, 7], [0, 0, 1, -9], [0, 0, 0, 1]],
        rows_i(matrix.inverse())
    );
}

#[test]
fn inverse_of_a_scaling() {
    let matrix = reals([
        [2.0, 0.0, 0.0, 0.0],
        [0.0, 4.0, 0.0, 0.0],
        [0.0, 0.0, 8.0, 0.0],
        [0.0, 0.0, 0.0, 1.0],
    ]);

    assert_eq!(
        [[0.5, 0.0, 0.0, 0.0], [0.0, 0.25, 0.0, 0.0], [0.0, 0.0, 0.125, 0.0], [0.0, 0.0, 0.0, 1.0]],
        rows_f(matrix.inverse())
    );
}

#[test]
fn new_is_row_major() {
    let m: Matrix44<i32> = Matrix44::new(1, 2, 3, 4, 5, 6, 7, 8, 9, 10, 11, 12, 13, 14, 15, 16);

    assert_eq!([1, 2, 3, 4], m[0]);
    assert_eq!([5, 6, 7, 8], m[1]);
    assert_eq!([9, 10, 11, 12], m[2]);
    assert_eq!([13, 14, 15, 16], m[3]);
}

#[test]
fn new_from_array_keeps_the_rows() {
    let rows = [[1, 2, 3, 4], [5, 6, 7, 8], [9, 10, 11, 12], [13, 14, 15, 16]];

    assert_eq!(rows, rows_i(Matrix44::new_from_array(rows)));
}

#[test]
fn zero_and_identity() {
    assert_eq!([[0; 4]; 4], rows_i(Matrix44::zero()));
    assert_eq!(
        [[1, 0, 0, 0], [0, 1, 0, 0], [0, 0, 1, 0], [0, 0, 0, 1]],
        rows_i(Matrix44::identity())
    );
}

#[test]
fn transpose_exchanges_rows_and_columns() {
    let m: Matrix44<i32> = Matrix44::new(1, 2, 3, 4, 5, 6, 7, 8, 9, 10, 11, 12, 13, 14, 15, 16);

    assert_eq!(
        [[1, 5, 9, 13], [2, 6, 10, 14], [3, 7, 11, 15], [4, 8, 12, 16]],
        rows_i(m.transpose())
    );
}

#[test]
fn transpose_twice_is_the_matrix() {
    let m = reals(ROTATED);

    assert_eq!(ROTATED, rows_f(m.transpose().transpose()));
}

#[test]
fn mul_by_identity_is_the_matrix() {
    let m: Matrix44<i32> = Matrix44::new(1, 2, 3, 4, 5, 6, 7, 8, 9, 10, 11, 12, 13, 14, 15, 16);

    assert_eq!(rows_i(m), rows_i(Matrix44::identity().mul(m)));
    assert_eq!(rows_i(m), rows_i(m.mul(Matrix44::identity())));
}

#[test]
fn mul_is_rows_times_columns() {
    let a: Matrix44<i32> = Matrix44::new(1, 2, 0, 0, 0, 1, 0, 0, 0, 0, 1, 0, 0, 0, 0, 1);
    let b: Matrix44<i32> = Matrix44::new(1, 0, 0, 0, 3, 1, 0, 0, 0, 0, 1, 0, 0, 0, 0, 1);

    assert_eq!(
        [[7, 2, 0, 0], [3, 1, 0, 0], [0, 0, 1, 0], [0, 0, 0, 1]],
        rows_i(a.mul(b))
    );
    assert_eq!(
        [[1, 2, 0, 0], [3, 7, 0, 0], [0, 0, 1, 0], [0, 0, 0, 1]],
        rows_i(b.mul(a))
    );
}

#[test]
fn index_mut_changes_one_row() {
    let mut m: Matrix44<i32> = Matrix44::identity();

    m.index_mut(2)[3] = 7;
    *m.index_mut(0) = [4, 3, 2, 1];

    assert_eq!(
        [[4, 3, 2, 1], [0, 1, 0, 0], [0, 0, 1, 7], [0, 0, 0, 1]],
        rows_i(m)
    );
}

#[test]
fn inverse_of_an_exact_elimination_is_a_left_inverse() {
    let m: Matrix44<i32> = Matrix44::new(1, 2, 0, 0, 0, 1, 0, 0, 0, 0, 1, 3, 0, 0, 0, 1);

    let r = m.inverse();

    assert_eq!(
        [[1, -2, 0, 0], [0, 1, 0, 0], [0, 0, 1, -3], [0, 0, 0, 1]],
        rows_i(r)
    );
    assert_eq!(rows_i(Matrix44::identity()), rows_i(r.mul(m)));
}

#[test]
fn inverse_of_an_exact_elimination_twice_is_the_matrix() {
    let m: Matrix44<i32> = Matrix44::new(1, 2, 0, 0, 0, 1, 0, 0, 0, 0, 1, 3, 0, 0, 0, 1);

    assert_eq!(rows_i(m), rows_i(m.inverse().inverse()));

    let turned: Matrix44<i32> = Matrix44::new(0, 0, 0, 1, 0, 1, 0, 0, 0, 0, 1, 0, -1, 0, 0, 0);

    assert_eq!(rows_i(turned), rows_i(turned.inverse().inverse()));
}

#[test]
fn inverse_of_integers_that_do_not_divide_is_no_inverse() {
    // One over two is zero among the integers.
    let m: Matrix44<i32> = Matrix44::new(2, 0, 0, 0, 0, 1, 0, 0, 0, 0, 1, 0, 0, 0, 0, 1);

    let r = m.inverse();

    assert_eq!(
        [[0, 0, 0, 0], [0, 1, 0, 0], [0, 0, 1, 0], [0, 0, 0, 1]],
        rows_i(r)
    );
}

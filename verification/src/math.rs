//! Vector, matrix and quaternion algebra over binary32 bit patterns.
//!
//! Every scalar is the `u32` bit pattern of an IEEE-754 binary32 value, and
//! every contract states the exact rounded result through the operation
//! names of [`crate::float32`]. Equality of vectors and matrices is IEEE
//! equality: componentwise, NaN equal to nothing and the two zeros equal.

use crate::float32::add_bits;
use crate::float32::add_ieee;
use crate::float32::div_bits;
use crate::float32::div_ieee;
use crate::float32::eq_bits;
use crate::float32::flip_sign;
use crate::float32::is_finite;
use crate::float32::is_nan;
use crate::float32::lemma_constant_fields;
use crate::float32::lemma_flip_sign;
use crate::float32::lemma_same_flip;
use crate::float32::lemma_sqrt_one;
use crate::float32::max_bits;
use crate::float32::min_bits;
use crate::float32::mul_bits;
use crate::float32::mul_ieee;
use crate::float32::same_value;
use crate::float32::same_value_or_nan;
use crate::float32::sqrt_bits;
use crate::float32::sqrt_rne;
use crate::float32::sub_bits;
use crate::float32::val_scaled;
use crate::float32::ONE_BITS;
use crate::float32::POS_ZERO;
use crate::float32::TWO_BITS;
use vstd::prelude::*;

verus! {

/// A three-component vector of binary32 bit patterns.
#[derive(Clone, Copy, Debug)]
pub struct Vector3 {
    pub x: u32,
    pub y: u32,
    pub z: u32,
}

/// Componentwise rounded sum.
pub open spec fn vec_add(a: Vector3, b: Vector3) -> Vector3 {
    Vector3 { x: add_ieee(a.x, b.x), y: add_ieee(a.y, b.y), z: add_ieee(a.z, b.z) }
}

/// Componentwise rounded difference.
pub open spec fn vec_sub(a: Vector3, b: Vector3) -> Vector3 {
    Vector3 {
        x: add_ieee(a.x, flip_sign(b.x)),
        y: add_ieee(a.y, flip_sign(b.y)),
        z: add_ieee(a.z, flip_sign(b.z)),
    }
}

/// Componentwise rounded product with a scalar.
pub open spec fn vec_scale(a: Vector3, factor: u32) -> Vector3 {
    Vector3 { x: mul_ieee(a.x, factor), y: mul_ieee(a.y, factor), z: mul_ieee(a.z, factor) }
}

/// The right-handed cross product, each component rounded as computed.
pub open spec fn vec_cross(a: Vector3, b: Vector3) -> Vector3 {
    Vector3 {
        x: add_ieee(mul_ieee(a.y, b.z), flip_sign(mul_ieee(a.z, b.y))),
        y: add_ieee(mul_ieee(a.z, b.x), flip_sign(mul_ieee(a.x, b.z))),
        z: add_ieee(mul_ieee(a.x, b.y), flip_sign(mul_ieee(a.y, b.x))),
    }
}

/// The rounded sum of squares of the components.
pub open spec fn vec_norm_sq(a: Vector3) -> u32 {
    add_ieee(add_ieee(mul_ieee(a.x, a.x), mul_ieee(a.y, a.y)), mul_ieee(a.z, a.z))
}

/// The rounded Euclidean norm.
pub open spec fn vec_norm(a: Vector3) -> u32 {
    sqrt_rne(vec_norm_sq(a))
}

/// The vector divided by its own norm, each component rounded.
pub open spec fn vec_normalized(a: Vector3) -> Vector3 {
    Vector3 {
        x: div_ieee(a.x, vec_norm(a)),
        y: div_ieee(a.y, vec_norm(a)),
        z: div_ieee(a.z, vec_norm(a)),
    }
}

/// All three components are finite.
pub open spec fn vec_finite(a: Vector3) -> bool {
    is_finite(a.x) && is_finite(a.y) && is_finite(a.z)
}

/// IEEE equality of vectors: componentwise same value, no NaN.
pub open spec fn vec_same(a: Vector3, b: Vector3) -> bool {
    same_value(a.x, b.x) && same_value(a.y, b.y) && same_value(a.z, b.z)
}

/// The unit vector along x.
pub open spec fn axis_x_vec() -> Vector3 {
    Vector3 { x: ONE_BITS, y: POS_ZERO, z: POS_ZERO }
}

/// The unit vector along y.
pub open spec fn axis_y_vec() -> Vector3 {
    Vector3 { x: POS_ZERO, y: ONE_BITS, z: POS_ZERO }
}

/// The unit vector along z.
pub open spec fn axis_z_vec() -> Vector3 {
    Vector3 { x: POS_ZERO, y: POS_ZERO, z: ONE_BITS }
}

/// The vector of positive zeros.
pub open spec fn zero_vec() -> Vector3 {
    Vector3 { x: POS_ZERO, y: POS_ZERO, z: POS_ZERO }
}

/// The three products a vector forms with its own other components stay
/// finite; under this bound the cross product of the vector with itself
/// cancels exactly.
pub open spec fn self_products_finite(a: Vector3) -> bool {
    is_finite(mul_ieee(a.y, a.z)) && is_finite(mul_ieee(a.z, a.x)) && is_finite(
        mul_ieee(a.x, a.y),
    )
}

impl Vector3 {
    /// A vector from three component patterns.
    pub fn new(x: u32, y: u32, z: u32) -> (r: Vector3)
        ensures
            r == (Vector3 { x, y, z }),
    {
        Vector3 { x, y, z }
    }

    /// The world up direction: (0, 1, 0). Up is y, not z.
    pub fn up() -> (r: Vector3)
        ensures
            r == axis_y_vec(),
    {
        Vector3 { x: POS_ZERO, y: ONE_BITS, z: POS_ZERO }
    }

    /// Componentwise sum.
    pub fn add(self, other: Vector3) -> (r: Vector3)
        ensures
            r == vec_add(self, other),
    {
        Vector3 {
            x: add_bits(self.x, other.x),
            y: add_bits(self.y, other.y),
            z: add_bits(self.z, other.z),
        }
    }

    /// Componentwise difference.
    pub fn subtract(self, other: Vector3) -> (r: Vector3)
        ensures
            r == vec_sub(self, other),
    {
        Vector3 {
            x: sub_bits(self.x, other.x),
            y: sub_bits(self.y, other.y),
            z: sub_bits(self.z, other.z),
        }
    }

    /// Componentwise product with a scalar.
    pub fn scale(self, factor: u32) -> (r: Vector3)
        ensures
            r == vec_scale(self, factor),
    {
        Vector3 {
            x: mul_bits(self.x, factor),
            y: mul_bits(self.y, factor),
            z: mul_bits(self.z, factor),
        }
    }

    /// The right-handed cross product.
    ///
    /// For finite vectors it is anti-commutative up to the sign of zero
    /// components, and a finite vector crossed with itself cancels to the
    /// zero vector exactly.
    pub fn cross(self, other: Vector3) -> (r: Vector3)
        ensures
            r == vec_cross(self, other),
            vec_finite(self) && vec_finite(other) ==> same_value_or_nan(
                r.x,
                flip_sign(vec_cross(other, self).x),
            ) && same_value_or_nan(r.y, flip_sign(vec_cross(other, self).y))
                && same_value_or_nan(r.z, flip_sign(vec_cross(other, self).z)),
            self == other && vec_finite(self) && self_products_finite(self) ==> r == zero_vec(),
    {
        let px: u32 = mul_bits(self.y, other.z);
        let qx: u32 = mul_bits(self.z, other.y);
        let py: u32 = mul_bits(self.z, other.x);
        let qy: u32 = mul_bits(self.x, other.z);
        let pz: u32 = mul_bits(self.x, other.y);
        let qz: u32 = mul_bits(self.y, other.x);
        let rx: u32 = sub_bits(px, qx);
        let ry: u32 = sub_bits(py, qy);
        let rz: u32 = sub_bits(pz, qz);
        proof {
            lemma_constant_fields();
            if vec_finite(self) && vec_finite(other) {
                lemma_same_flip(rx, add_ieee(qx, flip_sign(px)));
                lemma_same_flip(ry, add_ieee(qy, flip_sign(py)));
                lemma_same_flip(rz, add_ieee(qz, flip_sign(pz)));
            }
            if self == other && vec_finite(self) && self_products_finite(self) {
                lemma_flip_sign(px);
                lemma_flip_sign(py);
                lemma_flip_sign(pz);
            }
        }
        Vector3 { x: rx, y: ry, z: rz }
    }

    /// The vector divided by its Euclidean norm. A zero vector has norm
    /// zero, and the quotients are then NaN patterns; the three unit axes
    /// come back unchanged.
    pub fn normalized(self) -> (r: Vector3)
        ensures
            r == vec_normalized(self),
            self == axis_x_vec() ==> r == self,
            self == axis_y_vec() ==> r == self,
            self == axis_z_vec() ==> r == self,
    {
        let xx: u32 = mul_bits(self.x, self.x);
        let yy: u32 = mul_bits(self.y, self.y);
        let zz: u32 = mul_bits(self.z, self.z);
        let sum: u32 = add_bits(add_bits(xx, yy), zz);
        let norm: u32 = sqrt_bits(sum);
        proof {
            lemma_constant_fields();
            if self == axis_x_vec() || self == axis_y_vec() || self == axis_z_vec() {
                lemma_sqrt_one();
            }
        }
        Vector3 {
            x: div_bits(self.x, norm),
            y: div_bits(self.y, norm),
            z: div_bits(self.z, norm),
        }
    }

    /// The components as an array, in x, y, z order.
    pub fn to_array(self) -> (r: [u32; 3])
        ensures
            r@ == seq![self.x, self.y, self.z],
    {
        let r: [u32; 3] = [self.x, self.y, self.z];
        proof {
            assert(r@ =~= seq![self.x, self.y, self.z]);
        }
        r
    }
}

impl PartialEq for Vector3 {
    /// IEEE equality, componentwise: NaN components compare unequal, the
    /// two zeros compare equal.
    fn eq(&self, other: &Self) -> (r: bool) {
        eq_bits(self.x, other.x) && eq_bits(self.y, other.y) && eq_bits(self.z, other.z)
    }
}

impl vstd::std_specs::cmp::PartialEqSpecImpl for Vector3 {
    open spec fn obeys_eq_spec() -> bool {
        true
    }

    open spec fn eq_spec(&self, other: &Vector3) -> bool {
        vec_same(*self, *other)
    }
}

/// The bit pattern of the binary32 value pi / 180, the factor the degree
/// to radian conversion has always multiplied by.
pub const DEGREE_TO_RADIANS_RATIO: u32 = 0x3C8E_FA35;

/// Degrees to radians: one rounded multiplication by
/// [`DEGREE_TO_RADIANS_RATIO`].
pub fn degree_to_radians(angle: u32) -> (r: u32)
    ensures
        r == mul_ieee(angle, DEGREE_TO_RADIANS_RATIO),
{
    mul_bits(angle, DEGREE_TO_RADIANS_RATIO)
}

/// The value `v` clamped to `[lo, hi]`, as `f32::min(f32::max(v, lo), hi)`
/// computes it: for ordered, non-NaN bounds the result is `lo` where `v`
/// is below or NaN, `hi` where `v` is above, and `v` itself in between.
pub open spec fn clamped_val(v: int, lo: int, hi: int) -> int {
    if v < lo {
        lo
    } else if v > hi {
        hi
    } else {
        v
    }
}

/// A 4x4 matrix of binary32 bit patterns, row-major: row `r`, column `c`
/// at index `4 * r + c`. Column-vector convention: column 0 is the side
/// direction, column 1 up, column 2 forward, column 3 the position.
#[derive(Clone, Copy, Debug)]
pub struct Matrix4 {
    pub data: [u32; 16],
}

/// The 4x4 identity pattern.
pub open spec fn identity_spec() -> Seq<u32> {
    seq![
        ONE_BITS,
        POS_ZERO,
        POS_ZERO,
        POS_ZERO,
        POS_ZERO,
        ONE_BITS,
        POS_ZERO,
        POS_ZERO,
        POS_ZERO,
        POS_ZERO,
        ONE_BITS,
        POS_ZERO,
        POS_ZERO,
        POS_ZERO,
        POS_ZERO,
        ONE_BITS,
    ]
}

/// A four-term rounded dot product, summed left to right.
pub open spec fn dot4_spec(
    a0: u32,
    a1: u32,
    a2: u32,
    a3: u32,
    b0: u32,
    b1: u32,
    b2: u32,
    b3: u32,
) -> u32 {
    add_ieee(
        add_ieee(add_ieee(mul_ieee(a0, b0), mul_ieee(a1, b1)), mul_ieee(a2, b2)),
        mul_ieee(a3, b3),
    )
}

/// The row-major product of two 4x4 patterns: entry (r, c) is the dot
/// product of row r of `a` with column c of `b`.
pub open spec fn mat_mul_spec(a: Seq<u32>, b: Seq<u32>) -> Seq<u32> {
    seq![
        dot4_spec(a[0], a[1], a[2], a[3], b[0], b[4], b[8], b[12]),
        dot4_spec(a[0], a[1], a[2], a[3], b[1], b[5], b[9], b[13]),
        dot4_spec(a[0], a[1], a[2], a[3], b[2], b[6], b[10], b[14]),
        dot4_spec(a[0], a[1], a[2], a[3], b[3], b[7], b[11], b[15]),
        dot4_spec(a[4], a[5], a[6], a[7], b[0], b[4], b[8], b[12]),
        dot4_spec(a[4], a[5], a[6], a[7], b[1], b[5], b[9], b[13]),
        dot4_spec(a[4], a[5], a[6], a[7], b[2], b[6], b[10], b[14]),
        dot4_spec(a[4], a[5], a[6], a[7], b[3], b[7], b[11], b[15]),
        dot4_spec(a[8], a[9], a[10], a[11], b[0], b[4], b[8], b[12]),
        dot4_spec(a[8], a[9], a[10], a[11], b[1], b[5], b[9], b[13]),
        dot4_spec(a[8], a[9], a[10], a[11], b[2], b[6], b[10], b[14]),
        dot4_spec(a[8], a[9], a[10], a[11], b[3], b[7], b[11], b[15]),
        dot4_spec(a[12], a[13], a[14], a[15], b[0], b[4], b[8], b[12]),
        dot4_spec(a[12], a[13], a[14], a[15], b[1], b[5], b[9], b[13]),
        dot4_spec(a[12], a[13], a[14], a[15], b[2], b[6], b[10], b[14]),
        dot4_spec(a[12], a[13], a[14], a[15], b[3], b[7], b[11], b[15]),
    ]
}

/// All sixteen entries are finite.
pub open spec fn mat_finite(s: Seq<u32>) -> bool {
    is_finite(s[0]) && is_finite(s[1]) && is_finite(s[2]) && is_finite(s[3]) && is_finite(s[4])
        && is_finite(s[5]) && is_finite(s[6]) && is_finite(s[7]) && is_finite(s[8]) && is_finite(
        s[9],
    ) && is_finite(s[10]) && is_finite(s[11]) && is_finite(s[12]) && is_finite(s[13]) && is_finite(
        s[14],
    ) && is_finite(s[15])
}

/// IEEE equality of sixteen entries: same values, no NaN.
pub open spec fn mat_same(a: Seq<u32>, b: Seq<u32>) -> bool {
    same_value(a[0], b[0]) && same_value(a[1], b[1]) && same_value(a[2], b[2]) && same_value(
        a[3],
        b[3],
    ) && same_value(a[4], b[4]) && same_value(a[5], b[5]) && same_value(a[6], b[6]) && same_value(
        a[7],
        b[7],
    ) && same_value(a[8], b[8]) && same_value(a[9], b[9]) && same_value(a[10], b[10])
        && same_value(a[11], b[11]) && same_value(a[12], b[12]) && same_value(a[13], b[13])
        && same_value(a[14], b[14]) && same_value(a[15], b[15])
}

/// A four-term rounded dot product. Against a unit row or column of the
/// identity it gives back the matching operand up to the sign of zero.
fn dot4(a0: u32, a1: u32, a2: u32, a3: u32, b0: u32, b1: u32, b2: u32, b3: u32) -> (r: u32)
    ensures
        r == dot4_spec(a0, a1, a2, a3, b0, b1, b2, b3),
        a0 == ONE_BITS && a1 == POS_ZERO && a2 == POS_ZERO && a3 == POS_ZERO && is_finite(b0)
            && is_finite(b1) && is_finite(b2) && is_finite(b3) ==> same_value(r, b0),
        a0 == POS_ZERO && a1 == ONE_BITS && a2 == POS_ZERO && a3 == POS_ZERO && is_finite(b0)
            && is_finite(b1) && is_finite(b2) && is_finite(b3) ==> same_value(r, b1),
        a0 == POS_ZERO && a1 == POS_ZERO && a2 == ONE_BITS && a3 == POS_ZERO && is_finite(b0)
            && is_finite(b1) && is_finite(b2) && is_finite(b3) ==> same_value(r, b2),
        a0 == POS_ZERO && a1 == POS_ZERO && a2 == POS_ZERO && a3 == ONE_BITS && is_finite(b0)
            && is_finite(b1) && is_finite(b2) && is_finite(b3) ==> same_value(r, b3),
        b0 == ONE_BITS && b1 == POS_ZERO && b2 == POS_ZERO && b3 == POS_ZERO && is_finite(a0)
            && is_finite(a1) && is_finite(a2) && is_finite(a3) ==> same_value(r, a0),
        b0 == POS_ZERO && b1 == ONE_BITS && b2 == POS_ZERO && b3 == POS_ZERO && is_finite(a0)
            && is_finite(a1) && is_finite(a2) && is_finite(a3) ==> same_value(r, a1),
        b0 == POS_ZERO && b1 == POS_ZERO && b2 == ONE_BITS && b3 == POS_ZERO && is_finite(a0)
            && is_finite(a1) && is_finite(a2) && is_finite(a3) ==> same_value(r, a2),
        b0 == POS_ZERO && b1 == POS_ZERO && b2 == POS_ZERO && b3 == ONE_BITS && is_finite(a0)
            && is_finite(a1) && is_finite(a2) && is_finite(a3) ==> same_value(r, a3),
{
    let m0: u32 = mul_bits(a0, b0);
    let m1: u32 = mul_bits(a1, b1);
    let m2: u32 = mul_bits(a2, b2);
    let m3: u32 = mul_bits(a3, b3);
    let s1: u32 = add_bits(m0, m1);
    let s2: u32 = add_bits(s1, m2);
    proof {
        lemma_constant_fields();
    }
    add_bits(s2, m3)
}

impl Matrix4 {
    /// A matrix from sixteen patterns in row-major order.
    pub fn from(data: [u32; 16]) -> (r: Matrix4)
        ensures
            r.data@ == data@,
    {
        Matrix4 { data }
    }

    /// The identity matrix.
    pub fn identity() -> (r: Matrix4)
        ensures
            r.data@ == identity_spec(),
    {
        let r = Matrix4 {
            data: [
                ONE_BITS,
                POS_ZERO,
                POS_ZERO,
                POS_ZERO,
                POS_ZERO,
                ONE_BITS,
                POS_ZERO,
                POS_ZERO,
                POS_ZERO,
                POS_ZERO,
                ONE_BITS,
                POS_ZERO,
                POS_ZERO,
                POS_ZERO,
                POS_ZERO,
                ONE_BITS,
            ],
        };
        proof {
            assert(r.data@ =~= identity_spec());
        }
        r
    }

    /// The row-major matrix product. It is not commutative; `self` is the
    /// left factor. Multiplying by the identity on either side gives back
    /// the finite factor, up to the sign of zero entries.
    pub fn multiply(self, other: Matrix4) -> (r: Matrix4)
        ensures
            r.data@ == mat_mul_spec(self.data@, other.data@),
            self.data@ == identity_spec() && mat_finite(other.data@) ==> mat_same(
                r.data@,
                other.data@,
            ),
            other.data@ == identity_spec() && mat_finite(self.data@) ==> mat_same(
                r.data@,
                self.data@,
            ),
    {
        let a = self.data;
        let b = other.data;
        let e0: u32 = dot4(a[0], a[1], a[2], a[3], b[0], b[4], b[8], b[12]);
        let e1: u32 = dot4(a[0], a[1], a[2], a[3], b[1], b[5], b[9], b[13]);
        let e2: u32 = dot4(a[0], a[1], a[2], a[3], b[2], b[6], b[10], b[14]);
        let e3: u32 = dot4(a[0], a[1], a[2], a[3], b[3], b[7], b[11], b[15]);
        let e4: u32 = dot4(a[4], a[5], a[6], a[7], b[0], b[4], b[8], b[12]);
        let e5: u32 = dot4(a[4], a[5], a[6], a[7], b[1], b[5], b[9], b[13]);
        let e6: u32 = dot4(a[4], a[5], a[6], a[7], b[2], b[6], b[10], b[14]);
        let e7: u32 = dot4(a[4], a[5], a[6], a[7], b[3], b[7], b[11], b[15]);
        let e8: u32 = dot4(a[8], a[9], a[10], a[11], b[0], b[4], b[8], b[12]);
        let e9: u32 = dot4(a[8], a[9], a[10], a[11], b[1], b[5], b[9], b[13]);
        let e10: u32 = dot4(a[8], a[9], a[10], a[11], b[2], b[6], b[10], b[14]);
        let e11: u32 = dot4(a[8], a[9], a[10], a[11], b[3], b[7], b[11], b[15]);
        let e12: u32 = dot4(a[12], a[13], a[14], a[15], b[0], b[4], b[8], b[12]);
        let e13: u32 = dot4(a[12], a[13], a[14], a[15], b[1], b[5], b[9], b[13]);
        let e14: u32 = dot4(a[12], a[13], a[14], a[15], b[2], b[6], b[10], b[14]);
        let e15: u32 = dot4(a[12], a[13], a[14], a[15], b[3], b[7], b[11], b[15]);
        let out = Matrix4 {
            data: [e0, e1, e2, e3, e4, e5, e6, e7, e8, e9, e10, e11, e12, e13, e14, e15],
        };
        proof {
            assert(out.data@ =~= mat_mul_spec(self.data@, other.data@));
        }
        out
    }

    /// The matrix in the column-major layout the rendering side expects:
    /// the transpose of the row-major storage.
    pub fn to_opengl_array(self) -> (r: [[u32; 4]; 4])
        ensures
            r@.len() == 4,
            r@[0]@ == seq![self.data@[0], self.data@[4], self.data@[8], self.data@[12]],
            r@[1]@ == seq![self.data@[1], self.data@[5], self.data@[9], self.data@[13]],
            r@[2]@ == seq![self.data@[2], self.data@[6], self.data@[10], self.data@[14]],
            r@[3]@ == seq![self.data@[3], self.data@[7], self.data@[11], self.data@[15]],
    {
        let row0: [u32; 4] = [self.data[0], self.data[4], self.data[8], self.data[12]];
        let row1: [u32; 4] = [self.data[1], self.data[5], self.data[9], self.data[13]];
        let row2: [u32; 4] = [self.data[2], self.data[6], self.data[10], self.data[14]];
        let row3: [u32; 4] = [self.data[3], self.data[7], self.data[11], self.data[15]];
        let out: [[u32; 4]; 4] = [row0, row1, row2, row3];
        proof {
            assert(out@ =~= seq![row0, row1, row2, row3]);
            assert(row0@ =~= seq![self.data@[0], self.data@[4], self.data@[8], self.data@[12]]);
            assert(row1@ =~= seq![self.data@[1], self.data@[5], self.data@[9], self.data@[13]]);
            assert(row2@ =~= seq![self.data@[2], self.data@[6], self.data@[10], self.data@[14]]);
            assert(row3@ =~= seq![self.data@[3], self.data@[7], self.data@[11], self.data@[15]]);
        }
        out
    }

    /// The forward direction: column 2 of the rotation block.
    pub fn get_forward_vector(self) -> (r: Vector3)
        ensures
            r == (Vector3 { x: self.data@[2], y: self.data@[6], z: self.data@[10] }),
    {
        Vector3::new(self.data[2], self.data[6], self.data[10])
    }

    /// The side direction: column 0 of the rotation block.
    pub fn get_side_vector(self) -> (r: Vector3)
        ensures
            r == (Vector3 { x: self.data@[0], y: self.data@[4], z: self.data@[8] }),
    {
        Vector3::new(self.data[0], self.data[4], self.data[8])
    }

    /// The up direction: column 1 of the rotation block.
    pub fn get_up_vector(self) -> (r: Vector3)
        ensures
            r == (Vector3 { x: self.data@[1], y: self.data@[5], z: self.data@[9] }),
    {
        Vector3::new(self.data[1], self.data[5], self.data[9])
    }

    /// The position: the translation column.
    pub fn get_position(self) -> (r: Vector3)
        ensures
            r == (Vector3 { x: self.data@[3], y: self.data@[7], z: self.data@[11] }),
    {
        Vector3::new(self.data[3], self.data[7], self.data[11])
    }
}

impl PartialEq for Matrix4 {
    /// IEEE equality of all sixteen entries.
    fn eq(&self, other: &Self) -> (r: bool) {
        let r0: bool = eq_bits(self.data[0], other.data[0]) && eq_bits(self.data[1], other.data[1])
            && eq_bits(self.data[2], other.data[2]) && eq_bits(self.data[3], other.data[3]);
        let r1: bool = eq_bits(self.data[4], other.data[4]) && eq_bits(self.data[5], other.data[5])
            && eq_bits(self.data[6], other.data[6]) && eq_bits(self.data[7], other.data[7]);
        let r2: bool = eq_bits(self.data[8], other.data[8]) && eq_bits(self.data[9], other.data[9])
            && eq_bits(self.data[10], other.data[10]) && eq_bits(self.data[11], other.data[11]);
        let r3: bool = eq_bits(self.data[12], other.data[12]) && eq_bits(
            self.data[13],
            other.data[13],
        ) && eq_bits(self.data[14], other.data[14]) && eq_bits(self.data[15], other.data[15]);
        r0 && r1 && r2 && r3
    }
}

impl vstd::std_specs::cmp::PartialEqSpecImpl for Matrix4 {
    open spec fn obeys_eq_spec() -> bool {
        true
    }

    open spec fn eq_spec(&self, other: &Matrix4) -> bool {
        mat_same(self.data@, other.data@)
    }
}

/// A rotation quaternion: x, y, z, w patterns in that order.
#[derive(Clone, Copy, Debug)]
pub struct Quaternion {
    pub data: [u32; 4],
}

/// The quaternion built from a normalized axis and the sine and cosine of
/// half the rotation angle.
pub open spec fn quat_from_trig(v: Vector3, sin_value: u32, cos_value: u32) -> Seq<u32> {
    seq![
        mul_ieee(vec_normalized(v).x, sin_value),
        mul_ieee(vec_normalized(v).y, sin_value),
        mul_ieee(vec_normalized(v).z, sin_value),
        cos_value,
    ]
}

/// The identity rotation quaternion.
pub open spec fn ident_quat() -> Seq<u32> {
    seq![POS_ZERO, POS_ZERO, POS_ZERO, ONE_BITS]
}

/// Twice one pattern times another, rounded as `(2 * a) * b`.
pub open spec fn twice_prod(a: u32, b: u32) -> u32 {
    mul_ieee(mul_ieee(TWO_BITS, a), b)
}

/// The rotation matrix of a unit quaternion, each entry rounded as
/// computed, row-major with an identity last row and column.
pub open spec fn quat_matrix_spec(q: Seq<u32>) -> Seq<u32> {
    seq![
        add_ieee(add_ieee(ONE_BITS, flip_sign(twice_prod(q[1], q[1]))), flip_sign(twice_prod(q[2], q[2]))),
        add_ieee(twice_prod(q[0], q[1]), flip_sign(twice_prod(q[3], q[2]))),
        add_ieee(twice_prod(q[0], q[2]), twice_prod(q[3], q[1])),
        POS_ZERO,
        add_ieee(twice_prod(q[0], q[1]), twice_prod(q[3], q[2])),
        add_ieee(add_ieee(ONE_BITS, flip_sign(twice_prod(q[0], q[0]))), flip_sign(twice_prod(q[2], q[2]))),
        add_ieee(twice_prod(q[1], q[2]), flip_sign(twice_prod(q[3], q[0]))),
        POS_ZERO,
        add_ieee(twice_prod(q[0], q[2]), flip_sign(twice_prod(q[3], q[1]))),
        add_ieee(twice_prod(q[1], q[2]), twice_prod(q[3], q[0])),
        add_ieee(add_ieee(ONE_BITS, flip_sign(twice_prod(q[0], q[0]))), flip_sign(twice_prod(q[1], q[1]))),
        POS_ZERO,
        POS_ZERO,
        POS_ZERO,
        POS_ZERO,
        ONE_BITS,
    ]
}

/// The Hamilton product of two quaternions, term by term as computed.
pub open spec fn quat_mul_spec(a: Seq<u32>, b: Seq<u32>) -> Seq<u32> {
    seq![
        add_ieee(
            add_ieee(add_ieee(mul_ieee(a[3], b[0]), mul_ieee(a[0], b[3])), mul_ieee(a[1], b[2])),
            flip_sign(mul_ieee(a[2], b[1])),
        ),
        add_ieee(
            add_ieee(add_ieee(mul_ieee(a[3], b[1]), mul_ieee(a[1], b[3])), mul_ieee(a[2], b[0])),
            flip_sign(mul_ieee(a[0], b[2])),
        ),
        add_ieee(
            add_ieee(add_ieee(mul_ieee(a[3], b[2]), mul_ieee(a[2], b[3])), mul_ieee(a[0], b[1])),
            flip_sign(mul_ieee(a[1], b[0])),
        ),
        add_ieee(
            add_ieee(
                add_ieee(mul_ieee(a[3], b[3]), flip_sign(mul_ieee(a[0], b[0]))),
                flip_sign(mul_ieee(a[1], b[1])),
            ),
            flip_sign(mul_ieee(a[2], b[2])),
        ),
    ]
}

/// Twice one pattern times another, as the rotation matrix terms need it.
fn twice_prod_bits(a: u32, b: u32) -> (r: u32)
    ensures
        r == twice_prod(a, b),
        a == POS_ZERO && b == POS_ZERO ==> r == POS_ZERO,
        a == ONE_BITS && b == POS_ZERO ==> r == POS_ZERO,
{
    proof {
        lemma_constant_fields();
    }
    mul_bits(mul_bits(TWO_BITS, a), b)
}

impl Quaternion {
    /// A rotation quaternion from an axis, normalized here, and the sine
    /// and cosine of half the rotation angle, which the caller evaluates;
    /// see [`Quaternion::half_angle_radians`] for the angle they belong to.
    /// With a zero sine and a unit cosine each principal axis gives the
    /// identity rotation.
    pub fn new(vector: Vector3, sin_value: u32, cos_value: u32) -> (r: Quaternion)
        ensures
            r.data@ == quat_from_trig(vector, sin_value, cos_value),
            vector == axis_x_vec() && sin_value == POS_ZERO && cos_value == ONE_BITS
                ==> r.data@ == ident_quat(),
            vector == axis_y_vec() && sin_value == POS_ZERO && cos_value == ONE_BITS
                ==> r.data@ == ident_quat(),
            vector == axis_z_vec() && sin_value == POS_ZERO && cos_value == ONE_BITS
                ==> r.data@ == ident_quat(),
    {
        let n = vector.normalized();
        let qx: u32 = mul_bits(n.x, sin_value);
        let qy: u32 = mul_bits(n.y, sin_value);
        let qz: u32 = mul_bits(n.z, sin_value);
        let out = Quaternion { data: [qx, qy, qz, cos_value] };
        proof {
            lemma_constant_fields();
            assert(out.data@ =~= quat_from_trig(vector, sin_value, cos_value));
            if sin_value == POS_ZERO && cos_value == ONE_BITS && (vector == axis_x_vec() || vector
                == axis_y_vec() || vector == axis_z_vec()) {
                assert(out.data@ =~= ident_quat());
            }
        }
        out
    }

    /// Half the angle in radians: the degree conversion divided by two,
    /// the angle whose sine and cosine [`Quaternion::new`] takes.
    pub fn half_angle_radians(angle: u32) -> (r: u32)
        ensures
            r == div_ieee(mul_ieee(angle, DEGREE_TO_RADIANS_RATIO), TWO_BITS),
    {
        div_bits(degree_to_radians(angle), TWO_BITS)
    }

    /// The rotation matrix of this quaternion: the standard unit
    /// quaternion formula, translation row and column zero. The identity
    /// quaternion gives the identity matrix exactly.
    pub fn to_matrix(self) -> (r: Matrix4)
        ensures
            r.data@ == quat_matrix_spec(self.data@),
            self.data@ == ident_quat() ==> r.data@ == identity_spec(),
    {
        let q0: u32 = self.data[0];
        let q1: u32 = self.data[1];
        let q2: u32 = self.data[2];
        let q3: u32 = self.data[3];
        let e00: u32 = sub_bits(
            sub_bits(ONE_BITS, twice_prod_bits(q1, q1)),
            twice_prod_bits(q2, q2),
        );
        let e01: u32 = sub_bits(twice_prod_bits(q0, q1), twice_prod_bits(q3, q2));
        let e02: u32 = add_bits(twice_prod_bits(q0, q2), twice_prod_bits(q3, q1));
        let e10: u32 = add_bits(twice_prod_bits(q0, q1), twice_prod_bits(q3, q2));
        let e11: u32 = sub_bits(
            sub_bits(ONE_BITS, twice_prod_bits(q0, q0)),
            twice_prod_bits(q2, q2),
        );
        let e12: u32 = sub_bits(twice_prod_bits(q1, q2), twice_prod_bits(q3, q0));
        let e20: u32 = sub_bits(twice_prod_bits(q0, q2), twice_prod_bits(q3, q1));
        let e21: u32 = add_bits(twice_prod_bits(q1, q2), twice_prod_bits(q3, q0));
        let e22: u32 = sub_bits(
            sub_bits(ONE_BITS, twice_prod_bits(q0, q0)),
            twice_prod_bits(q1, q1),
        );
        let out = Matrix4 {
            data: [
                e00,
                e01,
                e02,
                POS_ZERO,
                e10,
                e11,
                e12,
                POS_ZERO,
                e20,
                e21,
                e22,
                POS_ZERO,
                POS_ZERO,
                POS_ZERO,
                POS_ZERO,
                ONE_BITS,
            ],
        };
        proof {
            lemma_constant_fields();
            assert(out.data@ =~= quat_matrix_spec(self.data@));
            if self.data@ == ident_quat() {
                assert(out.data@ =~= identity_spec());
            }
        }
        out
    }

    /// The rotation matrix around the x axis, from the sine and cosine of
    /// half the angle. A zero sine and unit cosine give the identity.
    pub fn rotate_x(sin_value: u32, cos_value: u32) -> (r: Matrix4)
        ensures
            r.data@ == quat_matrix_spec(quat_from_trig(axis_x_vec(), sin_value, cos_value)),
            sin_value == POS_ZERO && cos_value == ONE_BITS ==> r.data@ == identity_spec(),
    {
        Quaternion::new(Vector3::new(ONE_BITS, POS_ZERO, POS_ZERO), sin_value, cos_value)
            .to_matrix()
    }

    /// The rotation matrix around the y axis; see [`Quaternion::rotate_x`].
    pub fn rotate_y(sin_value: u32, cos_value: u32) -> (r: Matrix4)
        ensures
            r.data@ == quat_matrix_spec(quat_from_trig(axis_y_vec(), sin_value, cos_value)),
            sin_value == POS_ZERO && cos_value == ONE_BITS ==> r.data@ == identity_spec(),
    {
        Quaternion::new(Vector3::new(POS_ZERO, ONE_BITS, POS_ZERO), sin_value, cos_value)
            .to_matrix()
    }

    /// The rotation matrix around the z axis; see [`Quaternion::rotate_x`].
    pub fn rotate_z(sin_value: u32, cos_value: u32) -> (r: Matrix4)
        ensures
            r.data@ == quat_matrix_spec(quat_from_trig(axis_z_vec(), sin_value, cos_value)),
            sin_value == POS_ZERO && cos_value == ONE_BITS ==> r.data@ == identity_spec(),
    {
        Quaternion::new(Vector3::new(POS_ZERO, POS_ZERO, ONE_BITS), sin_value, cos_value)
            .to_matrix()
    }

    /// The Hamilton product: composing this rotation after the right
    /// operand's rotation.
    pub fn multiply(self, other: Quaternion) -> (r: Quaternion)
        ensures
            r.data@ == quat_mul_spec(self.data@, other.data@),
    {
        let a = self.data;
        let b = other.data;
        let c0: u32 = sub_bits(
            add_bits(add_bits(mul_bits(a[3], b[0]), mul_bits(a[0], b[3])), mul_bits(a[1], b[2])),
            mul_bits(a[2], b[1]),
        );
        let c1: u32 = sub_bits(
            add_bits(add_bits(mul_bits(a[3], b[1]), mul_bits(a[1], b[3])), mul_bits(a[2], b[0])),
            mul_bits(a[0], b[2]),
        );
        let c2: u32 = sub_bits(
            add_bits(add_bits(mul_bits(a[3], b[2]), mul_bits(a[2], b[3])), mul_bits(a[0], b[1])),
            mul_bits(a[1], b[0]),
        );
        let c3: u32 = sub_bits(
            sub_bits(sub_bits(mul_bits(a[3], b[3]), mul_bits(a[0], b[0])), mul_bits(a[1], b[1])),
            mul_bits(a[2], b[2]),
        );
        let out = Quaternion { data: [c0, c1, c2, c3] };
        proof {
            assert(out.data@ =~= quat_mul_spec(self.data@, other.data@));
        }
        out
    }
}

/// Clamp a value between two bounds, the bounds winning over NaN.
pub fn clamp(value: u32, lower: u32, upper: u32) -> (r: u32)
    ensures
        is_nan(value) && !is_nan(lower) && !is_nan(upper) && val_scaled(lower) <= val_scaled(
            upper,
        ) ==> r == lower,
        !is_nan(value) && !is_nan(lower) && !is_nan(upper) ==> (r == value || r == lower || r
            == upper) && !is_nan(r),
        !is_nan(value) && !is_nan(lower) && !is_nan(upper) && val_scaled(lower) <= val_scaled(
            upper,
        ) ==> val_scaled(r) == clamped_val(val_scaled(value), val_scaled(lower), val_scaled(upper)),
{
    min_bits(max_bits(value, lower), upper)
}

} // verus!

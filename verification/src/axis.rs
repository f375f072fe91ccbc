use vstd::prelude::*;

verus! {

/// How the sensor's axes are oriented relative to the body frame.
///
/// The name of each variant says which sensor axis (with which sign) becomes the
/// body's x, y and z axis. The four `_45` variants rotate about z by an odd
/// multiple of 45 degrees.
#[allow(missing_docs)]
#[allow(non_camel_case_types)]
#[derive(Clone, Copy, Debug, PartialEq, Eq, Structural)]
pub enum ImuAxisOrder {
    XPOS_YPOS_ZPOS,
    YPOS_XNEG_ZPOS,  // rotate  90 degrees anticlockwise
    XNEG_YNEG_ZPOS,  // rotate 180 degrees
    YNEG_XPOS_ZPOS,  // rotate 270 degrees anticlockwise
    XPOS_YNEG_ZNEG,
    YPOS_XPOS_ZNEG,
    XNEG_YPOS_ZNEG,
    YNEG_XNEG_ZNEG,
    ZPOS_YNEG_XPOS,
    YPOS_ZPOS_XPOS,
    ZNEG_YPOS_XPOS,
    YNEG_ZNEG_XPOS,
    ZPOS_YPOS_XNEG,
    YPOS_ZNEG_XNEG,
    ZNEG_YNEG_XNEG,
    YNEG_ZPOS_XNEG,
    ZPOS_XPOS_YPOS,
    XNEG_ZPOS_YPOS,
    ZNEG_XNEG_YPOS,
    XPOS_ZNEG_YPOS,
    ZPOS_XNEG_YNEG,
    XNEG_ZNEG_YNEG,
    ZNEG_XPOS_YNEG,
    XPOS_ZPOS_YNEG,
    XPOS_YPOS_ZPOS_45,  // rotate  45 degrees anticlockwise
    YPOS_XNEG_ZPOS_45,  // rotate 135 degrees anticlockwise
    XNEG_YNEG_ZPOS_45,  // rotate 225 degrees anticlockwise
    YNEG_XPOS_ZPOS_45,  // rotate 315 degrees anticlockwise
}

/// One of the three sensor axes.
#[derive(Clone, Copy, Debug, PartialEq, Eq, Structural)]
pub enum Axis {
    X,
    Y,
    Z,
}

/// Where one body-frame component comes from: a sensor axis, possibly negated.
#[derive(Clone, Copy, Debug, PartialEq, Eq, Structural)]
pub struct AxisSource {
    pub axis: Axis,
    pub negate: bool,
}

/// The linear map that an axis order applies to a sensor vector.
///
/// `SignedPermutation` gives, for each body component, the sensor component it is
/// taken from and whether it is negated. `RotationZ45` rotates the x-y plane by
/// `eighth_turns * 45` degrees, `x' = x cos a + y sin a`, `y' = -x sin a + y cos a`,
/// and keeps z.
#[derive(Clone, Copy, Debug, PartialEq, Eq, Structural)]
pub enum AxisMap {
    SignedPermutation { x: AxisSource, y: AxisSource, z: AxisSource },
    RotationZ45 { eighth_turns: u8 },
}

/// A sensor source that is taken as it is, or negated.
pub open spec fn pos(axis: Axis) -> AxisSource {
    AxisSource { axis, negate: false }
}

pub open spec fn neg(axis: Axis) -> AxisSource {
    AxisSource { axis, negate: true }
}

pub open spec fn perm(x: AxisSource, y: AxisSource, z: AxisSource) -> AxisMap {
    AxisMap::SignedPermutation { x, y, z }
}

/// The component of `v` that `s` selects, with its sign.
pub open spec fn source_value(s: AxisSource, v: (int, int, int)) -> int {
    let c = match s.axis {
        Axis::X => v.0,
        Axis::Y => v.1,
        Axis::Z => v.2,
    };
    if s.negate {
        -c
    } else {
        c
    }
}

/// What a signed permutation does to a vector (exact, over the integers).
pub open spec fn apply_permutation(m: AxisMap, v: (int, int, int)) -> (int, int, int) {
    match m {
        AxisMap::SignedPermutation { x, y, z } => (
            source_value(x, v),
            source_value(y, v),
            source_value(z, v),
        ),
        AxisMap::RotationZ45 { .. } => v,
    }
}

/// The product of the signs that three sources put on their axes: `-1` when an
/// odd number of them negate, else `1`.
pub open spec fn sign_product(x: AxisSource, y: AxisSource, z: AxisSource) -> int {
    if x.negate ^ y.negate ^ z.negate {
        -1
    } else {
        1
    }
}

/// The sign of the permutation that takes `(X, Y, Z)` to `(a, b, c)`: `1` for an
/// even one, `-1` for an odd one, and `0` when an axis occurs twice.
pub open spec fn permutation_sign(a: Axis, b: Axis, c: Axis) -> int {
    match (a, b, c) {
        (Axis::X, Axis::Y, Axis::Z) | (Axis::Y, Axis::Z, Axis::X) | (Axis::Z, Axis::X, Axis::Y) => 1,
        (Axis::X, Axis::Z, Axis::Y) | (Axis::Y, Axis::X, Axis::Z) | (Axis::Z, Axis::Y, Axis::X) => -1,
        _ => 0,
    }
}

/// The determinant of a map's matrix. A signed permutation matrix has the sign of
/// its permutation times the product of its signs; a rotation has determinant 1, a
/// mirror image -1, and a map that uses an axis twice 0.
pub open spec fn determinant(m: AxisMap) -> int {
    match m {
        AxisMap::SignedPermutation { x, y, z } => permutation_sign(x.axis, y.axis, z.axis)
            * sign_product(x, y, z),
        AxisMap::RotationZ45 { .. } => 1,
    }
}

/// A quarter turn anticlockwise about z.
pub open spec fn quarter_turn_z(v: (int, int, int)) -> (int, int, int) {
    (v.1, -v.0, v.2)
}

/// Whether the orders of group `g` (numbers `4g` to `4g + 3`) turn anticlockwise
/// from one to the next.
pub open spec fn turns_anticlockwise(g: nat) -> bool {
    g == 0 || g == 3 || g == 5
}

/// A half turn about x: y and z change sign.
pub open spec fn half_turn_x(v: (int, int, int)) -> (int, int, int) {
    (v.0, -v.1, -v.2)
}

impl AxisMap {
    /// The signs of cos and sin of the rotation angle, each `1` or `-1`
    /// (their magnitude is `1/sqrt(2)` for every odd multiple of 45 degrees).
    pub open spec fn spec_rotation_signs(eighth_turns: u8) -> (i8, i8) {
        if eighth_turns % 8 < 2 {
            (1i8, 1i8)
        } else if eighth_turns % 8 < 4 {
            (-1i8, 1i8)
        } else if eighth_turns % 8 < 6 {
            (-1i8, -1i8)
        } else {
            (1i8, -1i8)
        }
    }

    /// Signs of cos and sin of `eighth_turns * 45` degrees; an even `eighth_turns`
    /// counts as the odd one below it.
    pub fn rotation_signs(eighth_turns: u8) -> (r: (i8, i8))
        ensures
            r == Self::spec_rotation_signs(eighth_turns),
    {
        let e = eighth_turns % 8;
        if e < 2 {
            (1, 1)
        } else if e < 4 {
            (-1, 1)
        } else if e < 6 {
            (-1, -1)
        } else {
            (1, -1)
        }
    }
}

impl ImuAxisOrder {
    /// Number of axis orders.
    pub const COUNT: u8 = 28;

    /// The position of the order in the declaration, `0..28`.
    pub open spec fn index(self) -> nat {
        match self {
            ImuAxisOrder::XPOS_YPOS_ZPOS => 0,
            ImuAxisOrder::YPOS_XNEG_ZPOS => 1,
            ImuAxisOrder::XNEG_YNEG_ZPOS => 2,
            ImuAxisOrder::YNEG_XPOS_ZPOS => 3,
            ImuAxisOrder::XPOS_YNEG_ZNEG => 4,
            ImuAxisOrder::YPOS_XPOS_ZNEG => 5,
            ImuAxisOrder::XNEG_YPOS_ZNEG => 6,
            ImuAxisOrder::YNEG_XNEG_ZNEG => 7,
            ImuAxisOrder::ZPOS_YNEG_XPOS => 8,
            ImuAxisOrder::YPOS_ZPOS_XPOS => 9,
            ImuAxisOrder::ZNEG_YPOS_XPOS => 10,
            ImuAxisOrder::YNEG_ZNEG_XPOS => 11,
            ImuAxisOrder::ZPOS_YPOS_XNEG => 12,
            ImuAxisOrder::YPOS_ZNEG_XNEG => 13,
            ImuAxisOrder::ZNEG_YNEG_XNEG => 14,
            ImuAxisOrder::YNEG_ZPOS_XNEG => 15,
            ImuAxisOrder::ZPOS_XPOS_YPOS => 16,
            ImuAxisOrder::XNEG_ZPOS_YPOS => 17,
            ImuAxisOrder::ZNEG_XNEG_YPOS => 18,
            ImuAxisOrder::XPOS_ZNEG_YPOS => 19,
            ImuAxisOrder::ZPOS_XNEG_YNEG => 20,
            ImuAxisOrder::XNEG_ZNEG_YNEG => 21,
            ImuAxisOrder::ZNEG_XPOS_YNEG => 22,
            ImuAxisOrder::XPOS_ZPOS_YNEG => 23,
            ImuAxisOrder::XPOS_YPOS_ZPOS_45 => 24,
            ImuAxisOrder::YPOS_XNEG_ZPOS_45 => 25,
            ImuAxisOrder::XNEG_YNEG_ZPOS_45 => 26,
            ImuAxisOrder::YNEG_XPOS_ZPOS_45 => 27,
        }
    }

    /// The number of the order, `0..28`.
    pub fn to_u8(self) -> (r: u8)
        ensures
            r == self.index(),
            r < Self::COUNT,
    {
        match self {
            ImuAxisOrder::XPOS_YPOS_ZPOS => 0,
            ImuAxisOrder::YPOS_XNEG_ZPOS => 1,
            ImuAxisOrder::XNEG_YNEG_ZPOS => 2,
            ImuAxisOrder::YNEG_XPOS_ZPOS => 3,
            ImuAxisOrder::XPOS_YNEG_ZNEG => 4,
            ImuAxisOrder::YPOS_XPOS_ZNEG => 5,
            ImuAxisOrder::XNEG_YPOS_ZNEG => 6,
            ImuAxisOrder::YNEG_XNEG_ZNEG => 7,
            ImuAxisOrder::ZPOS_YNEG_XPOS => 8,
            ImuAxisOrder::YPOS_ZPOS_XPOS => 9,
            ImuAxisOrder::ZNEG_YPOS_XPOS => 10,
            ImuAxisOrder::YNEG_ZNEG_XPOS => 11,
            ImuAxisOrder::ZPOS_YPOS_XNEG => 12,
            ImuAxisOrder::YPOS_ZNEG_XNEG => 13,
            ImuAxisOrder::ZNEG_YNEG_XNEG => 14,
            ImuAxisOrder::YNEG_ZPOS_XNEG => 15,
            ImuAxisOrder::ZPOS_XPOS_YPOS => 16,
            ImuAxisOrder::XNEG_ZPOS_YPOS => 17,
            ImuAxisOrder::ZNEG_XNEG_YPOS => 18,
            ImuAxisOrder::XPOS_ZNEG_YPOS => 19,
            ImuAxisOrder::ZPOS_XNEG_YNEG => 20,
            ImuAxisOrder::XNEG_ZNEG_YNEG => 21,
            ImuAxisOrder::ZNEG_XPOS_YNEG => 22,
            ImuAxisOrder::XPOS_ZPOS_YNEG => 23,
            ImuAxisOrder::XPOS_YPOS_ZPOS_45 => 24,
            ImuAxisOrder::YPOS_XNEG_ZPOS_45 => 25,
            ImuAxisOrder::XNEG_YNEG_ZPOS_45 => 26,
            ImuAxisOrder::YNEG_XPOS_ZPOS_45 => 27,
        }
    }

    /// The order numbered `value`, or the default order when `value` is out of range.
    pub open spec fn spec_from_u8(value: u8) -> Self {
        match value {
            0 => ImuAxisOrder::XPOS_YPOS_ZPOS,
            1 => ImuAxisOrder::YPOS_XNEG_ZPOS,
            2 => ImuAxisOrder::XNEG_YNEG_ZPOS,
            3 => ImuAxisOrder::YNEG_XPOS_ZPOS,
            4 => ImuAxisOrder::XPOS_YNEG_ZNEG,
            5 => ImuAxisOrder::YPOS_XPOS_ZNEG,
            6 => ImuAxisOrder::XNEG_YPOS_ZNEG,
            7 => ImuAxisOrder::YNEG_XNEG_ZNEG,
            8 => ImuAxisOrder::ZPOS_YNEG_XPOS,
            9 => ImuAxisOrder::YPOS_ZPOS_XPOS,
            10 => ImuAxisOrder::ZNEG_YPOS_XPOS,
            11 => ImuAxisOrder::YNEG_ZNEG_XPOS,
            12 => ImuAxisOrder::ZPOS_YPOS_XNEG,
            13 => ImuAxisOrder::YPOS_ZNEG_XNEG,
            14 => ImuAxisOrder::ZNEG_YNEG_XNEG,
            15 => ImuAxisOrder::YNEG_ZPOS_XNEG,
            16 => ImuAxisOrder::ZPOS_XPOS_YPOS,
            17 => ImuAxisOrder::XNEG_ZPOS_YPOS,
            18 => ImuAxisOrder::ZNEG_XNEG_YPOS,
            19 => ImuAxisOrder::XPOS_ZNEG_YPOS,
            20 => ImuAxisOrder::ZPOS_XNEG_YNEG,
            21 => ImuAxisOrder::XNEG_ZNEG_YNEG,
            22 => ImuAxisOrder::ZNEG_XPOS_YNEG,
            23 => ImuAxisOrder::XPOS_ZPOS_YNEG,
            24 => ImuAxisOrder::XPOS_YPOS_ZPOS_45,
            25 => ImuAxisOrder::YPOS_XNEG_ZPOS_45,
            26 => ImuAxisOrder::XNEG_YNEG_ZPOS_45,
            27 => ImuAxisOrder::YNEG_XPOS_ZPOS_45,
            _ => ImuAxisOrder::XPOS_YPOS_ZPOS,
        }
    }

    /// The order numbered `value`; a number out of range gives the default order.
    pub fn from_u8(value: u8) -> (r: Self)
        ensures
            r == Self::spec_from_u8(value),
            value < Self::COUNT ==> r.index() == value,
            value >= Self::COUNT ==> r == ImuAxisOrder::XPOS_YPOS_ZPOS,
    {
        match value {
            0 => Self::XPOS_YPOS_ZPOS,
            1 => Self::YPOS_XNEG_ZPOS,
            2 => Self::XNEG_YNEG_ZPOS,
            3 => Self::YNEG_XPOS_ZPOS,
            4 => Self::XPOS_YNEG_ZNEG,
            5 => Self::YPOS_XPOS_ZNEG,
            6 => Self::XNEG_YPOS_ZNEG,
            7 => Self::YNEG_XNEG_ZNEG,
            8 => Self::ZPOS_YNEG_XPOS,
            9 => Self::YPOS_ZPOS_XPOS,
            10 => Self::ZNEG_YPOS_XPOS,
            11 => Self::YNEG_ZNEG_XPOS,
            12 => Self::ZPOS_YPOS_XNEG,
            13 => Self::YPOS_ZNEG_XNEG,
            14 => Self::ZNEG_YNEG_XNEG,
            15 => Self::YNEG_ZPOS_XNEG,
            16 => Self::ZPOS_XPOS_YPOS,
            17 => Self::XNEG_ZPOS_YPOS,
            18 => Self::ZNEG_XNEG_YPOS,
            19 => Self::XPOS_ZNEG_YPOS,
            20 => Self::ZPOS_XNEG_YNEG,
            21 => Self::XNEG_ZNEG_YNEG,
            22 => Self::ZNEG_XPOS_YNEG,
            23 => Self::XPOS_ZPOS_YNEG,
            24 => Self::XPOS_YPOS_ZPOS_45,
            25 => Self::YPOS_XNEG_ZPOS_45,
            26 => Self::XNEG_YNEG_ZPOS_45,
            27 => Self::YNEG_XPOS_ZPOS_45,
            _ => Self::default(),
        }
    }

    /// The linear map of each order, read off its name.
    pub open spec fn spec_axis_map(self) -> AxisMap {
        match self {
            ImuAxisOrder::XPOS_YPOS_ZPOS => perm(pos(Axis::X), pos(Axis::Y), pos(Axis::Z)),
            ImuAxisOrder::YPOS_XNEG_ZPOS => perm(pos(Axis::Y), neg(Axis::X), pos(Axis::Z)),
            ImuAxisOrder::XNEG_YNEG_ZPOS => perm(neg(Axis::X), neg(Axis::Y), pos(Axis::Z)),
            ImuAxisOrder::YNEG_XPOS_ZPOS => perm(neg(Axis::Y), pos(Axis::X), pos(Axis::Z)),
            ImuAxisOrder::XPOS_YNEG_ZNEG => perm(pos(Axis::X), neg(Axis::Y), neg(Axis::Z)),
            ImuAxisOrder::YPOS_XPOS_ZNEG => perm(pos(Axis::Y), pos(Axis::X), neg(Axis::Z)),
            ImuAxisOrder::XNEG_YPOS_ZNEG => perm(neg(Axis::X), pos(Axis::Y), neg(Axis::Z)),
            ImuAxisOrder::YNEG_XNEG_ZNEG => perm(neg(Axis::Y), neg(Axis::X), neg(Axis::Z)),
            ImuAxisOrder::ZPOS_YNEG_XPOS => perm(pos(Axis::Z), neg(Axis::Y), pos(Axis::X)),
            ImuAxisOrder::YPOS_ZPOS_XPOS => perm(pos(Axis::Y), pos(Axis::Z), pos(Axis::X)),
            ImuAxisOrder::ZNEG_YPOS_XPOS => perm(neg(Axis::Z), pos(Axis::Y), pos(Axis::X)),
            ImuAxisOrder::YNEG_ZNEG_XPOS => perm(neg(Axis::Y), neg(Axis::Z), pos(Axis::X)),
            ImuAxisOrder::ZPOS_YPOS_XNEG => perm(pos(Axis::Z), pos(Axis::Y), neg(Axis::X)),
            ImuAxisOrder::YPOS_ZNEG_XNEG => perm(pos(Axis::Y), neg(Axis::Z), neg(Axis::X)),
            ImuAxisOrder::ZNEG_YNEG_XNEG => perm(neg(Axis::Z), neg(Axis::Y), neg(Axis::X)),
            ImuAxisOrder::YNEG_ZPOS_XNEG => perm(neg(Axis::Y), pos(Axis::Z), neg(Axis::X)),
            ImuAxisOrder::ZPOS_XPOS_YPOS => perm(pos(Axis::Z), pos(Axis::X), pos(Axis::Y)),
            ImuAxisOrder::XNEG_ZPOS_YPOS => perm(neg(Axis::X), pos(Axis::Z), pos(Axis::Y)),
            ImuAxisOrder::ZNEG_XNEG_YPOS => perm(neg(Axis::Z), neg(Axis::X), pos(Axis::Y)),
            ImuAxisOrder::XPOS_ZNEG_YPOS => perm(pos(Axis::X), neg(Axis::Z), pos(Axis::Y)),
            ImuAxisOrder::ZPOS_XNEG_YNEG => perm(pos(Axis::Z), neg(Axis::X), neg(Axis::Y)),
            ImuAxisOrder::XNEG_ZNEG_YNEG => perm(neg(Axis::X), neg(Axis::Z), neg(Axis::Y)),
            ImuAxisOrder::ZNEG_XPOS_YNEG => perm(neg(Axis::Z), pos(Axis::X), neg(Axis::Y)),
            ImuAxisOrder::XPOS_ZPOS_YNEG => perm(pos(Axis::X), pos(Axis::Z), neg(Axis::Y)),
            ImuAxisOrder::XPOS_YPOS_ZPOS_45 => AxisMap::RotationZ45 { eighth_turns: 1 },
            ImuAxisOrder::YPOS_XNEG_ZPOS_45 => AxisMap::RotationZ45 { eighth_turns: 3 },
            ImuAxisOrder::XNEG_YNEG_ZPOS_45 => AxisMap::RotationZ45 { eighth_turns: 5 },
            ImuAxisOrder::YNEG_XPOS_ZPOS_45 => AxisMap::RotationZ45 { eighth_turns: 7 },
        }
    }

    /// Whether the order rotates by an odd multiple of 45 degrees.
    pub open spec fn is_rotation_45(self) -> bool {
        self.spec_axis_map() is RotationZ45
    }

    /// The linear map that this order applies to a sensor vector.
    pub fn axis_map(self) -> (m: AxisMap)
        ensures
            m == self.spec_axis_map(),
            determinant(m) == 1,
    {
        proof {
            lemma_axis_maps_are_rotations(self);
        }
        let (px, py, pz) = (
            AxisSource { axis: Axis::X, negate: false },
            AxisSource { axis: Axis::Y, negate: false },
            AxisSource { axis: Axis::Z, negate: false },
        );
        let (nx, ny, nz) = (
            AxisSource { axis: Axis::X, negate: true },
            AxisSource { axis: Axis::Y, negate: true },
            AxisSource { axis: Axis::Z, negate: true },
        );
        match self {
            Self::XPOS_YPOS_ZPOS => AxisMap::SignedPermutation { x: px, y: py, z: pz },
            Self::YPOS_XNEG_ZPOS => AxisMap::SignedPermutation { x: py, y: nx, z: pz },
            Self::XNEG_YNEG_ZPOS => AxisMap::SignedPermutation { x: nx, y: ny, z: pz },
            Self::YNEG_XPOS_ZPOS => AxisMap::SignedPermutation { x: ny, y: px, z: pz },
            Self::XPOS_YNEG_ZNEG => AxisMap::SignedPermutation { x: px, y: ny, z: nz },
            Self::YPOS_XPOS_ZNEG => AxisMap::SignedPermutation { x: py, y: px, z: nz },
            Self::XNEG_YPOS_ZNEG => AxisMap::SignedPermutation { x: nx, y: py, z: nz },
            Self::YNEG_XNEG_ZNEG => AxisMap::SignedPermutation { x: ny, y: nx, z: nz },
            Self::ZPOS_YNEG_XPOS => AxisMap::SignedPermutation { x: pz, y: ny, z: px },
            Self::YPOS_ZPOS_XPOS => AxisMap::SignedPermutation { x: py, y: pz, z: px },
            Self::ZNEG_YPOS_XPOS => AxisMap::SignedPermutation { x: nz, y: py, z: px },
            Self::YNEG_ZNEG_XPOS => AxisMap::SignedPermutation { x: ny, y: nz, z: px },
            Self::ZPOS_YPOS_XNEG => AxisMap::SignedPermutation { x: pz, y: py, z: nx },
            Self::YPOS_ZNEG_XNEG => AxisMap::SignedPermutation { x: py, y: nz, z: nx },
            Self::ZNEG_YNEG_XNEG => AxisMap::SignedPermutation { x: nz, y: ny, z: nx },
            Self::YNEG_ZPOS_XNEG => AxisMap::SignedPermutation { x: ny, y: pz, z: nx },
            Self::ZPOS_XPOS_YPOS => AxisMap::SignedPermutation { x: pz, y: px, z: py },
            Self::XNEG_ZPOS_YPOS => AxisMap::SignedPermutation { x: nx, y: pz, z: py },
            Self::ZNEG_XNEG_YPOS => AxisMap::SignedPermutation { x: nz, y: nx, z: py },
            Self::XPOS_ZNEG_YPOS => AxisMap::SignedPermutation { x: px, y: nz, z: py },
            Self::ZPOS_XNEG_YNEG => AxisMap::SignedPermutation { x: pz, y: nx, z: ny },
            Self::XNEG_ZNEG_YNEG => AxisMap::SignedPermutation { x: nx, y: nz, z: ny },
            Self::ZNEG_XPOS_YNEG => AxisMap::SignedPermutation { x: nz, y: px, z: ny },
            Self::XPOS_ZPOS_YNEG => AxisMap::SignedPermutation { x: px, y: pz, z: ny },
            Self::XPOS_YPOS_ZPOS_45 => AxisMap::RotationZ45 { eighth_turns: 1 },
            Self::YPOS_XNEG_ZPOS_45 => AxisMap::RotationZ45 { eighth_turns: 3 },
            Self::XNEG_YNEG_ZPOS_45 => AxisMap::RotationZ45 { eighth_turns: 5 },
            Self::YNEG_XPOS_ZPOS_45 => AxisMap::RotationZ45 { eighth_turns: 7 },
        }
    }

    /// The inverse of each order, as a table.
    pub open spec fn spec_inverse(self) -> Self {
        match self {
            ImuAxisOrder::YPOS_XNEG_ZPOS => ImuAxisOrder::YNEG_XPOS_ZPOS,
            ImuAxisOrder::YNEG_XPOS_ZPOS => ImuAxisOrder::YPOS_XNEG_ZPOS,
            ImuAxisOrder::YPOS_ZPOS_XPOS => ImuAxisOrder::ZPOS_XPOS_YPOS,
            ImuAxisOrder::ZNEG_YPOS_XPOS => ImuAxisOrder::ZPOS_YPOS_XNEG,
            ImuAxisOrder::YNEG_ZNEG_XPOS => ImuAxisOrder::ZPOS_XNEG_YNEG,
            ImuAxisOrder::ZPOS_YPOS_XNEG => ImuAxisOrder::ZNEG_YPOS_XPOS,
            ImuAxisOrder::YPOS_ZNEG_XNEG => ImuAxisOrder::ZNEG_XPOS_YNEG,
            ImuAxisOrder::YNEG_ZPOS_XNEG => ImuAxisOrder::ZNEG_XNEG_YPOS,
            ImuAxisOrder::ZPOS_XPOS_YPOS => ImuAxisOrder::YPOS_ZPOS_XPOS,
            ImuAxisOrder::ZNEG_XNEG_YPOS => ImuAxisOrder::YNEG_ZPOS_XNEG,
            ImuAxisOrder::XPOS_ZNEG_YPOS => ImuAxisOrder::XPOS_ZPOS_YNEG,
            ImuAxisOrder::ZPOS_XNEG_YNEG => ImuAxisOrder::YNEG_ZNEG_XPOS,
            ImuAxisOrder::ZNEG_XPOS_YNEG => ImuAxisOrder::YPOS_ZNEG_XNEG,
            ImuAxisOrder::XPOS_ZPOS_YNEG => ImuAxisOrder::XPOS_ZNEG_YPOS,
            ImuAxisOrder::XPOS_YPOS_ZPOS_45 => ImuAxisOrder::YNEG_XPOS_ZPOS_45,
            ImuAxisOrder::YPOS_XNEG_ZPOS_45 => ImuAxisOrder::XNEG_YNEG_ZPOS_45,
            ImuAxisOrder::XNEG_YNEG_ZPOS_45 => ImuAxisOrder::YPOS_XNEG_ZPOS_45,
            ImuAxisOrder::YNEG_XPOS_ZPOS_45 => ImuAxisOrder::XPOS_YPOS_ZPOS_45,
            _ => self,
        }
    }

    /// The order that undoes this one: its map applied after this order's map
    /// gives back the sensor vector (for the rotations, the angles add up to a
    /// whole turn).
    pub fn axis_order_inverse(self) -> (r: Self)
        ensures
            r == self.spec_inverse(),
            r.is_rotation_45() == self.is_rotation_45(),
            !self.is_rotation_45() ==> forall|v: (int, int, int)|
                #![trigger apply_permutation(self.spec_axis_map(), v)]
                apply_permutation(
                    r.spec_axis_map(),
                    apply_permutation(self.spec_axis_map(), v),
                ) == v,
            self.spec_axis_map() matches AxisMap::RotationZ45 { eighth_turns: a }
                ==> r.spec_axis_map() matches AxisMap::RotationZ45 { eighth_turns: b }
                && (a + b) % 8 == 0,
    {
        proof {
            lemma_inverse_undoes_map(self);
        }
        match self {
            Self::YPOS_XNEG_ZPOS => Self::YNEG_XPOS_ZPOS,
            Self::YNEG_XPOS_ZPOS => Self::YPOS_XNEG_ZPOS,
            Self::YPOS_ZPOS_XPOS => Self::ZPOS_XPOS_YPOS,
            Self::ZNEG_YPOS_XPOS => Self::ZPOS_YPOS_XNEG,
            Self::YNEG_ZNEG_XPOS => Self::ZPOS_XNEG_YNEG,
            Self::ZPOS_YPOS_XNEG => Self::ZNEG_YPOS_XPOS,
            Self::YPOS_ZNEG_XNEG => Self::ZNEG_XPOS_YNEG,
            Self::YNEG_ZPOS_XNEG => Self::ZNEG_XNEG_YPOS,
            Self::ZPOS_XPOS_YPOS => Self::YPOS_ZPOS_XPOS,
            Self::ZNEG_XNEG_YPOS => Self::YNEG_ZPOS_XNEG,
            Self::XPOS_ZNEG_YPOS => Self::XPOS_ZPOS_YNEG,
            Self::ZPOS_XNEG_YNEG => Self::YNEG_ZNEG_XPOS,
            Self::ZNEG_XPOS_YNEG => Self::YPOS_ZNEG_XNEG,
            Self::XPOS_ZPOS_YNEG => Self::XPOS_ZNEG_YPOS,
            Self::XPOS_YPOS_ZPOS_45 => Self::YNEG_XPOS_ZPOS_45,  // 45 => 315
            Self::YPOS_XNEG_ZPOS_45 => Self::XNEG_YNEG_ZPOS_45,  // 135 => 225
            Self::XNEG_YNEG_ZPOS_45 => Self::YPOS_XNEG_ZPOS_45,  // 225 => 135
            Self::YNEG_XPOS_ZPOS_45 => Self::XPOS_YPOS_ZPOS_45,  // 315 => 45
            _ => self,  // other axis orders are self-inverting
        }
    }
}

/// The inverse of an order undoes it: for a signed permutation, mapping a vector by
/// the order and then by its inverse gives the vector back; for a 45-degree
/// rotation, the two rotation angles add up to a whole number of turns.
pub proof fn lemma_inverse_undoes_map(o: ImuAxisOrder)
    ensures
        o.spec_inverse().is_rotation_45() == o.is_rotation_45(),
        !o.is_rotation_45() ==> forall|v: (int, int, int)|
            #![trigger apply_permutation(o.spec_axis_map(), v)]
            apply_permutation(
                o.spec_inverse().spec_axis_map(),
                apply_permutation(o.spec_axis_map(), v),
            ) == v,
        o.spec_axis_map() matches AxisMap::RotationZ45 { eighth_turns: a }
            ==> o.spec_inverse().spec_axis_map() matches AxisMap::RotationZ45 { eighth_turns: b }
            && (a + b) % 8 == 0,
{
}

/// Every axis order is a mounting of the sensor, not a mirror image: each signed
/// permutation uses every axis exactly once and has determinant 1 (it is a proper
/// rotation), and the four 45-degree orders rotate about z by 45, 135, 225 and 315
/// degrees, in the order of their numbers.
pub proof fn lemma_axis_maps_are_rotations(o: ImuAxisOrder)
    ensures
        determinant(o.spec_axis_map()) == 1,
        o.spec_axis_map() matches AxisMap::RotationZ45 { eighth_turns } ==> o.index() >= 24
            && eighth_turns == 2 * (o.index() - 24) + 1,
        o.index() >= 24 <==> o.is_rotation_45(),
{
}

/// Different axis orders have different maps; with the determinant law, the 24
/// signed permutations are exactly the 24 rotations that take axes to axes.
pub proof fn lemma_axis_maps_distinct(o: ImuAxisOrder, p: ImuAxisOrder)
    ensures
        o != p ==> o.spec_axis_map() != p.spec_axis_map(),
{
}

/// The 24 signed-permutation orders come in six groups of four, by number. Within
/// a group, each order is the one before it followed by a quarter turn about the
/// body z axis, anticlockwise in groups 0, 3 and 5 and clockwise in the others;
/// each odd-numbered group is the group before it followed by a half turn about the
/// body x axis. The first order of a group maps the sensor vector to itself (group
/// 0), takes a half turn about the x-z diagonal (group 2), or moves each axis one
/// place on (group 4).
pub proof fn lemma_axis_maps_turns(o: ImuAxisOrder, v: (int, int, int))
    ensures
        o.index() < 24 && o.index() % 4 != 3 ==> {
            let after = apply_permutation(
                ImuAxisOrder::spec_from_u8((o.index() + 1) as u8).spec_axis_map(),
                v,
            );
            let before = apply_permutation(o.spec_axis_map(), v);
            if turns_anticlockwise(o.index() / 4) {
                after == quarter_turn_z(before)
            } else {
                quarter_turn_z(after) == before
            }
        },
        o.index() < 24 && o.index() % 8 < 4 ==> apply_permutation(
            ImuAxisOrder::spec_from_u8((o.index() + 4) as u8).spec_axis_map(),
            v,
        ) == half_turn_x(apply_permutation(o.spec_axis_map(), v)),
        apply_permutation(ImuAxisOrder::XPOS_YPOS_ZPOS.spec_axis_map(), v) == v,
        apply_permutation(
            ImuAxisOrder::ZPOS_YNEG_XPOS.spec_axis_map(),
            apply_permutation(ImuAxisOrder::ZPOS_YNEG_XPOS.spec_axis_map(), v),
        ) == v,
        apply_permutation(ImuAxisOrder::ZPOS_YNEG_XPOS.spec_axis_map(), (1int, 0int, 1int)) == (1int, 0int, 1int),
        apply_permutation(ImuAxisOrder::ZPOS_XPOS_YPOS.spec_axis_map(), v) == (v.2, v.0, v.1),
{
}

/// Taking the inverse twice gives back the order.
pub proof fn lemma_inverse_is_involution(o: ImuAxisOrder)
    ensures
        o.spec_inverse().spec_inverse() == o,
{
}

/// Numbering round trip: the number of an order gives back the order, and every
/// number below `COUNT` is the number of exactly one order.
pub proof fn lemma_index_round_trip(o: ImuAxisOrder, p: ImuAxisOrder)
    ensures
        o.index() < 28,
        o.index() == p.index() ==> o == p,
{
}

/// Converting an order to its number and back gives the order, and converting a
/// number below `COUNT` to an order and back gives the number.
pub proof fn lemma_u8_round_trip(o: ImuAxisOrder, value: u8)
    ensures
        ImuAxisOrder::spec_from_u8(o.index() as u8) == o,
        value < 28 ==> ImuAxisOrder::spec_from_u8(value).index() == value,
{
}

impl Default for ImuAxisOrder {
    fn default() -> (r: Self)
        ensures
            r == ImuAxisOrder::XPOS_YPOS_ZPOS,
    {
        ImuAxisOrder::XPOS_YPOS_ZPOS
    }
}

impl TryFrom<u8> for ImuAxisOrder {
    type Error = ();

    /// Validating conversion, invalid values return error.
    fn try_from(value: u8) -> (r: Result<Self, Self::Error>)
        ensures
            value < Self::COUNT ==> r == Ok::<Self, ()>(Self::spec_from_u8(value)),
            value >= Self::COUNT ==> r == Err::<Self, ()>(()),
    {
        let default = Self::default();
        if value == default.to_u8() {
            // The input was actually the default value.
            Ok(default)
        } else {
            let ret = Self::from_u8(value);
            if ret == default {
                // The input was invalid and got converted to the default.
                Err(())
            } else {
                Ok(ret)
            }
        }
    }
}

impl vstd::std_specs::convert::TryFromSpecImpl<u8> for ImuAxisOrder {
    open spec fn obeys_try_from_spec() -> bool {
        true
    }

    open spec fn try_from_spec(v: u8) -> Result<Self, Self::Error> {
        if v < 28 {
            Ok(ImuAxisOrder::spec_from_u8(v))
        } else {
            Err(())
        }
    }
}

} // verus!

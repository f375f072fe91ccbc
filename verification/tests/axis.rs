use imu_sensors::{Axis, AxisMap, AxisSource, ImuAxisOrder};

fn is_full<T: Sized + Send + Sync + Unpin + Copy + Clone + Default + PartialEq>() {}

#[test]
fn axis_normal_types() {
    is_full::<ImuAxisOrder>();
}

#[test]
fn axis_order_inverse() {
    let input = ImuAxisOrder::XPOS_YPOS_ZPOS;
    let output = ImuAxisOrder::axis_order_inverse(input);
    let output_inverse = ImuAxisOrder::axis_order_inverse(output);
    assert_eq!(input, output_inverse);
    for ii in 0..ImuAxisOrder::COUNT {
        let axis_order = ImuAxisOrder::from_u8(ii);
        let output = ImuAxisOrder::axis_order_inverse(axis_order);
        let output_inverse = ImuAxisOrder::axis_order_inverse(output);
        assert_eq!(axis_order, output_inverse);
    }
}

#[test]
fn from_u8_numbers_every_order_and_defaults_out_of_range() {
    for ii in 0..ImuAxisOrder::COUNT {
        assert_eq!(ii, ImuAxisOrder::from_u8(ii).to_u8());
    }
    assert_eq!(ImuAxisOrder::YNEG_XPOS_ZPOS_45, ImuAxisOrder::from_u8(27));
    assert_eq!(ImuAxisOrder::XPOS_YPOS_ZPOS, ImuAxisOrder::from_u8(28));
    assert_eq!(ImuAxisOrder::XPOS_YPOS_ZPOS, ImuAxisOrder::from_u8(255));
    assert_eq!(ImuAxisOrder::XPOS_YPOS_ZPOS, ImuAxisOrder::default());
}

#[test]
fn try_from_accepts_exactly_the_orders() {
    assert_eq!(Ok(ImuAxisOrder::XPOS_YPOS_ZPOS), ImuAxisOrder::try_from(0u8));
    assert_eq!(Ok(ImuAxisOrder::YPOS_XNEG_ZPOS), ImuAxisOrder::try_from(1u8));
    assert_eq!(Ok(ImuAxisOrder::YNEG_XPOS_ZPOS_45), ImuAxisOrder::try_from(27u8));
    assert_eq!(Err(()), ImuAxisOrder::try_from(28u8));
    assert_eq!(Err(()), ImuAxisOrder::try_from(200u8));
}

#[test]
fn inverse_of_rotations() {
    assert_eq!(ImuAxisOrder::YNEG_XPOS_ZPOS, ImuAxisOrder::YPOS_XNEG_ZPOS.axis_order_inverse());
    assert_eq!(ImuAxisOrder::ZPOS_XPOS_YPOS, ImuAxisOrder::YPOS_ZPOS_XPOS.axis_order_inverse());
    assert_eq!(ImuAxisOrder::YNEG_XPOS_ZPOS_45, ImuAxisOrder::XPOS_YPOS_ZPOS_45.axis_order_inverse());
    assert_eq!(ImuAxisOrder::XNEG_YNEG_ZPOS_45, ImuAxisOrder::YPOS_XNEG_ZPOS_45.axis_order_inverse());
    assert_eq!(ImuAxisOrder::XPOS_YNEG_ZNEG, ImuAxisOrder::XPOS_YNEG_ZNEG.axis_order_inverse());
}

fn apply(m: AxisMap, v: (i32, i32, i32)) -> (i32, i32, i32) {
    let pick = |s: AxisSource| {
        let c = match s.axis {
            Axis::X => v.0,
            Axis::Y => v.1,
            Axis::Z => v.2,
        };
        if s.negate { -c } else { c }
    };
    match m {
        AxisMap::SignedPermutation { x, y, z } => (pick(x), pick(y), pick(z)),
        AxisMap::RotationZ45 { .. } => v,
    }
}

#[test]
fn axis_map_of_named_orders() {
    // the map of YPOS_XNEG_ZPOS takes (2, 3, 5) to (3, -2, 5)
    assert_eq!((2, 3, 5), apply(ImuAxisOrder::XPOS_YPOS_ZPOS.axis_map(), (2, 3, 5)));
    assert_eq!((3, -2, 5), apply(ImuAxisOrder::YPOS_XNEG_ZPOS.axis_map(), (2, 3, 5)));
    assert_eq!((-5, 2, -3), apply(ImuAxisOrder::ZNEG_XPOS_YNEG.axis_map(), (2, 3, 5)));
    assert_eq!(AxisMap::RotationZ45 { eighth_turns: 3 }, ImuAxisOrder::YPOS_XNEG_ZPOS_45.axis_map());
    assert_eq!((-1, 1), AxisMap::rotation_signs(3));
    assert_eq!((1, -1), AxisMap::rotation_signs(7));
}

#[test]
fn inverse_map_undoes_map() {
    let v = (2, 3, 5);
    for ii in 0..ImuAxisOrder::COUNT {
        let order = ImuAxisOrder::from_u8(ii);
        let inverse = order.axis_order_inverse();
        match (order.axis_map(), inverse.axis_map()) {
            (AxisMap::RotationZ45 { eighth_turns: a }, AxisMap::RotationZ45 { eighth_turns: b }) => {
                assert_eq!(0, (a + b) % 8);
            }
            (m, n) => assert_eq!(v, apply(n, apply(m, v))),
        }
    }
}

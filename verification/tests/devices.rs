// Float comparisons are exact here: every scale is a power-of-two fraction.
#![allow(clippy::float_cmp)]

use imu_sensors::{
    icm20602, lsm6ds, mpu6050, mpu6886, qmi8658a, AccFullScale, AccScale, AccUnits, GyroFullScale, GyroScale,
    GyroUnits, Icm20602, ImuAxisOrder, ImuMock, InitOp, InitProgress, Lsm6ds, MockImuBus, Mpu6050, Mpu6886, Qmi8658a,
};

fn apply(bus: &mut MockImuBus, op: InitOp) {
    match op {
        InitOp::WriteRegister { reg, value, .. } => bus.write_register(reg, value),
        InitOp::ReadRegister { reg, .. } => {
            let _chip_id = bus.read_register(reg);
        }
        InitOp::DelayMs { .. } => {}
    }
}

fn gyro_scale(s: GyroScale) -> f32 {
    assert_eq!(GyroUnits::Dps, s.units);
    s.full_scale_dps as f32 / s.counts as f32
}

fn acc_scale(s: AccScale) -> f32 {
    assert_eq!(AccUnits::G, s.units);
    s.full_scale_g as f32 / s.counts as f32
}

#[test]
fn icm20602_normal_types() {}

#[test]
fn icm20602_imu_init() {
    let mut imu_bus = MockImuBus::new();
    assert_eq!(0, imu_bus.registers[icm20602::REG_ACCEL_XOUT_H as usize]);
    imu_bus.registers[icm20602::REG_ACCEL_XOUT_H as usize] = 4;
    let mut imu: Icm20602<MockImuBus> = Icm20602::new(imu_bus, ImuAxisOrder::XPOS_YPOS_ZPOS);

    let mut step = 0;
    while let Some(op) =
        imu.init_step(step, 8000, GyroFullScale::Max, GyroUnits::Dps, AccFullScale::Max, AccUnits::G)
    {
        apply(&mut imu.bus, op);
        step += 1;
    }
    let (gyro_odr, acc_odr) = (imu.common.gyro_sample_rate_hz, imu.common.acc_sample_rate_hz);

    let reg = imu.bus.read_register(icm20602::REG_INT_PIN_CFG);
    assert_eq!(0x22, reg);

    assert_eq!(8000, gyro_odr);
    assert_eq!(8000, acc_odr);

    assert_eq!(2000.0 / 32768.0, gyro_scale(imu.common.gyro_scale));
    assert_eq!(16.0 / 32768.0, acc_scale(imu.common.acc_scale));
    assert_eq!(8000, imu.common.gyro_sample_rate_hz);
    assert_eq!(8000, imu.common.acc_sample_rate_hz);
}

#[test]
fn icm20602_rates_and_registers() {
    let mut imu = Icm20602::new(MockImuBus::new(), ImuAxisOrder::XPOS_YPOS_ZPOS);
    assert_eq!((0x08, 15), imu.calculate_gyro_scale_and_odr(GyroFullScale::Scale500Dps, GyroUnits::Rps, 300));
    assert_eq!(500, imu.common.gyro_sample_rate_hz);
    assert_eq!(500, imu.common.acc_sample_rate_hz);
    assert_eq!(GyroScale { full_scale_dps: 500, counts: 32768, units: GyroUnits::Rps }, imu.common.gyro_scale);
    // 125 dps is not offered and selects 2000 dps
    assert_eq!((0x18, 159), imu.calculate_gyro_scale_and_odr(GyroFullScale::Scale125Dps, GyroUnits::Dps, 26));
    assert_eq!(50, imu.common.gyro_sample_rate_hz);
    // target 150 Hz gives 200 Hz with divider 39: 8000 / (1 + 39) = 200
    assert_eq!((0x00, 39), imu.calculate_gyro_scale_and_odr(GyroFullScale::Scale250Dps, GyroUnits::Dps, 150));
    assert_eq!(200, imu.common.gyro_sample_rate_hz);
    assert_eq!(0x08, imu.calculate_acc_scale(AccFullScale::Scale4G, AccUnits::Mps2, 1000));
    assert_eq!(AccScale { full_scale_g: 4, counts: 32768, units: AccUnits::Mps2 }, imu.common.acc_scale);
    assert_eq!(None, imu.init_step(24, 1000, GyroFullScale::Max, GyroUnits::Dps, AccFullScale::Max, AccUnits::G));
}

#[test]
fn icm20602_reports_its_own_ids() {
    let imu = Icm20602::new(MockImuBus::new(), ImuAxisOrder::XPOS_YPOS_ZPOS);
    assert_eq!(imu_sensors::ImuDeviceConfig::MSP_GYRO_ID_ICM20602, imu.config.gyro_id_msp);
    assert_eq!(imu_sensors::ImuDeviceConfig::MSP_ACC_ID_ICM20602, imu.config.acc_id_msp);
    assert_eq!(0x68, imu.config.device_id);
    assert_eq!(0x68, imu.config.address);
}

#[test]
fn icm20602_every_rate_matches_its_divider() {
    let mut imu = Icm20602::new(MockImuBus::new(), ImuAxisOrder::XPOS_YPOS_ZPOS);
    for target in [0u32, 10, 26, 50, 51, 100, 101, 200, 201, 500, 501, 1000, 1001, 2000, 2001, 4000, 4001] {
        let (_, divider) = imu.calculate_gyro_scale_and_odr(GyroFullScale::Max, GyroUnits::Dps, target);
        assert_eq!(8000, imu.common.gyro_sample_rate_hz * (1 + u32::from(divider)));
    }
}

#[test]
fn lsm6ds_device_id_is_who_am_i() {
    let imu = Lsm6ds::new(MockImuBus::new(), ImuAxisOrder::XPOS_YPOS_ZPOS);
    assert_eq!(lsm6ds::REG_WHO_AM_I_RESPONSE_LSM6DSOX, imu.config.device_id);
    assert_eq!(0x6C, imu.config.device_id);
}

#[test]
fn lsm6ds_init_next_stops_at_a_failed_write() {
    let mut imu = Lsm6ds::new(MockImuBus::new(), ImuAxisOrder::XPOS_YPOS_ZPOS);
    let request = (1000, GyroFullScale::Max, GyroUnits::Dps, AccFullScale::Max, AccUnits::G);
    let mut ops = Vec::new();
    let mut outcome: Result<(), &str> = Ok(());
    let mut step = 0;
    let result = loop {
        match imu.init_next(step, outcome, request.0, request.1, request.2, request.3, request.4) {
            InitProgress::Perform(op) => {
                ops.push(op);
                // the write of CTRL2_G (step 9) fails
                outcome = if step == 9 { Err("bus") } else { Ok(()) };
                step += 1;
            }
            InitProgress::Done(result) => break result,
        }
    };
    assert_eq!(Err("bus"), result);
    assert_eq!(10, ops.len());
    // the accelerometer was never configured
    assert_eq!(1000, imu.common.acc_sample_rate_hz);
    assert_eq!(1666, imu.common.gyro_sample_rate_hz);
}

#[test]
fn mpu6886_init_next_ignores_chip_id_read_error() {
    let mut imu = Mpu6886::new(MockImuBus::new(), ImuAxisOrder::XPOS_YPOS_ZPOS);
    let mut outcome: Result<(), u8> = Ok(());
    let mut step = 0;
    let result = loop {
        match imu.init_next(step, outcome, 8000, GyroFullScale::Max, GyroUnits::Dps, AccFullScale::Max, AccUnits::G) {
            InitProgress::Perform(op) => {
                outcome = match op {
                    InitOp::ReadRegister { .. } => Err(1),
                    _ => Ok(()),
                };
                step += 1;
            }
            InitProgress::Done(result) => break result,
        }
    };
    assert_eq!(Ok((500, 500)), result);
    assert_eq!(mpu6886::INIT_STEPS, step);
}

#[test]
fn imu_mock_normal_types() {}

#[test]
fn imu_mock_imu_init() {
    let imu_bus = MockImuBus::new();
    let mut imu: ImuMock<MockImuBus> = ImuMock::new(imu_bus, ImuAxisOrder::XPOS_YPOS_ZPOS);

    let mut step = 0;
    while let Some(op) =
        imu.init_step(step, 8000, GyroFullScale::Max, GyroUnits::Dps, AccFullScale::Max, AccUnits::G)
    {
        apply(&mut imu.bus, op);
        step += 1;
    }
    let (gyro_register_value, acc_register_value) =
        (imu.common.gyro_sample_rate_hz, imu.common.acc_sample_rate_hz);

    assert_eq!(8000, gyro_register_value);
    assert_eq!(1000, acc_register_value);
}

#[test]
fn acc_buf() {
    let imu_bus = MockImuBus::new();
    let imu: ImuMock<MockImuBus> = ImuMock::new(imu_bus, ImuAxisOrder::XPOS_YPOS_ZPOS);

    let data: [u8; 6] = [0x00, 0x00, 0x00, 0x00, 0x00, 0x00];
    let acc = vqm::Vector3f32::from_le_bytes_6(data) * acc_scale(imu.common.acc_scale);
    assert_eq!(vqm::Vector3f32 { x: 0.0, y: 0.0, z: 0.0 }, acc);
}

#[test]
fn gyro_buf() {
    let imu_bus = MockImuBus::new();
    let imu: ImuMock<MockImuBus> = ImuMock::new(imu_bus, ImuAxisOrder::XPOS_YPOS_ZPOS);

    let data: [u8; 6] = [0x10, 0x00, 0x00, 0x01, 0x00, 0x7f];
    let gyro = vqm::Vector3f32::from_le_bytes_6(data) * gyro_scale(imu.common.gyro_scale);
    assert_eq!(vqm::Vector3f32 { x: 0.976_562_5, y: 15.625, z: 1984.375 }, gyro);

    let data: [u8; 6] = [0x01, 0x00, 0x80, 0x00, 0xff, 0x7f];
    let gyro = vqm::Vector3f32::from_le_bytes_6(data) * gyro_scale(imu.common.gyro_scale);
    assert_eq!(vqm::Vector3f32 { x: 0.061_035_156, y: 7.8125, z: 1999.939 }, gyro);
}

fn unscale(v: f32, scale: f32) -> i16 {
    (v / scale).clamp(f32::from(i16::MIN), f32::from(i16::MAX)) as i16
}

#[test]
fn scale_acc() {
    let imu_bus = MockImuBus::new();
    let mut imu: ImuMock<MockImuBus> = ImuMock::new(imu_bus, ImuAxisOrder::XPOS_YPOS_ZPOS);

    let scale = acc_scale(imu.common.acc_scale);
    assert_eq!(8.0, scale * 32768.0);

    let acc = (0.5, 2.0, 1.0);
    let (reg, data) = ImuMock::<MockImuBus>::acc_sample_write(
        unscale(acc.0, scale),
        unscale(acc.1, scale),
        unscale(acc.2, scale),
    );
    imu.bus.write_registers(reg, &data);

    let buf = imu.bus.read_registers(imu_sensors::imu_mock::REG_ACC_XL, 6);
    assert_eq!(vec![0x00, 0x08, 0x00, 0x20, 0x00, 0x10], buf);

    let buf6 = [buf[0], buf[1], buf[2], buf[3], buf[4], buf[5]];
    let a = vqm::Vector3f32::from_le_bytes_6(buf6) * scale;
    assert_eq!(vqm::Vector3f32::new(0.5, 2.0, 1.0), a);
}

#[test]
fn scale_gyro() {
    let imu_bus = MockImuBus::new();
    let mut imu: ImuMock<MockImuBus> = ImuMock::new(imu_bus, ImuAxisOrder::XPOS_YPOS_ZPOS);
    let scale = gyro_scale(imu.common.gyro_scale);
    assert_eq!(2000.0, scale * 32768.0);

    let cases: [((f32, f32, f32), [u8; 6], (f32, f32, f32)); 4] = [
        ((125.0, 1000.0, 1750.0), [0x00, 0x08, 0x00, 0x40, 0x00, 0x70], (125.0, 1000.0, 1750.0)),
        ((500.0, 1000.0, 2000.0), [0x00, 0x20, 0x00, 0x40, 0xFF, 0x7F], (500.0, 1000.0, 1999.939)),
        ((2000.0, 4000.0, 10_000.0), [0xFF, 0x7F, 0xFF, 0x7F, 0xFF, 0x7F], (1999.939, 1999.939, 1999.939)),
        ((-2000.0, -4000.0, -10_000.0), [0x00, 0x80, 0x00, 0x80, 0x00, 0x80], (-2000.0, -2000.0, -2000.0)),
    ];
    for (gyro, bytes, expected) in cases {
        let (reg, data) = ImuMock::<MockImuBus>::gyro_sample_write(
            unscale(gyro.0, scale),
            unscale(gyro.1, scale),
            unscale(gyro.2, scale),
        );
        imu.bus.write_registers(reg, &data);
        let buf = imu.bus.read_registers(imu_sensors::imu_mock::REG_GYRO_XL, 6);
        assert_eq!(bytes.to_vec(), buf);
        let g = vqm::Vector3f32::from_le_bytes_6(bytes) * scale;
        assert_eq!(vqm::Vector3f32 { x: expected.0, y: expected.1, z: expected.2 }, g);
    }
}

#[test]
fn imu_mock_gyro_scale_is_per_count_of_one() {
    let mut imu = ImuMock::new(MockImuBus::new(), ImuAxisOrder::XPOS_YPOS_ZPOS);
    imu.calculate_gyro_scale_and_odr(GyroFullScale::Scale500Dps, GyroUnits::Rps, 123);
    assert_eq!(GyroScale { full_scale_dps: 500, counts: 1, units: GyroUnits::Rps }, imu.common.gyro_scale);
    assert_eq!(123, imu.common.gyro_sample_rate_hz);
    assert_eq!(1000, imu.common.acc_sample_rate_hz);
}

#[test]
fn lsm6ds_normal_types() {}

#[test]
fn lsm6ds_imu_init() {
    let mut imu_bus = MockImuBus::new();
    assert_eq!(0, imu_bus.registers[lsm6ds::REG_CTRL3_C as usize]);
    imu_bus.registers[lsm6ds::REG_CTRL3_C as usize] = 4;
    let mut imu: Lsm6ds<MockImuBus> = Lsm6ds::new(imu_bus, ImuAxisOrder::XPOS_YPOS_ZPOS);

    let mut step = 0;
    while let Some(op) =
        imu.init_step(step, 8000, GyroFullScale::Max, GyroUnits::Dps, AccFullScale::Max, AccUnits::G)
    {
        apply(&mut imu.bus, op);
        step += 1;
    }
    let (gyro_odr, acc_odr) = (imu.common.gyro_sample_rate_hz, imu.common.acc_sample_rate_hz);

    assert_eq!(6664, gyro_odr);
    assert_eq!(6664, acc_odr);

    let reg = imu.bus.read_register(lsm6ds::REG_CTRL3_C);
    assert_eq!(lsm6ds::BDU | lsm6ds::IF_INC, reg);

    let reg = imu.bus.read_register(lsm6ds::REG_DATA_READY_PULSE_CONFIG);
    assert_eq!(lsm6ds::DATA_READY_PULSED, reg);

    assert_eq!(2000.0 / 32768.0, gyro_scale(imu.common.gyro_scale));
    assert_eq!(16.0 / 32768.0, acc_scale(imu.common.acc_scale));
    assert_eq!(6664, imu.common.gyro_sample_rate_hz);
    assert_eq!(6664, imu.common.acc_sample_rate_hz);
}

#[test]
fn lsm6ds_registers_written_by_init() {
    let mut imu = Lsm6ds::new(MockImuBus::new(), ImuAxisOrder::XPOS_YPOS_ZPOS);
    let mut step = 0;
    while let Some(op) =
        imu.init_step(step, 100, GyroFullScale::Scale500Dps, GyroUnits::Dps, AccFullScale::Scale4G, AccUnits::G)
    {
        apply(&mut imu.bus, op);
        step += 1;
    }
    assert_eq!(12, step);
    // 104 Hz, 500 dps and 4 g
    assert_eq!(0x44, imu.bus.read_register(lsm6ds::REG_CTRL2_G));
    assert_eq!(0x48, imu.bus.read_register(lsm6ds::REG_CTRL1_XL));
    assert_eq!(104, imu.common.gyro_sample_rate_hz);
    assert_eq!(104, imu.common.acc_sample_rate_hz);
    assert_eq!(0x12, imu.calculate_gyro_scale_and_odr(GyroFullScale::Scale125Dps, GyroUnits::Dps, 12));
    assert_eq!(GyroScale { full_scale_dps: 245, counts: 32768, units: GyroUnits::Dps }, imu.common.gyro_scale);
}

#[test]
fn mpu6050_normal_types() {}

#[test]
fn mpu6050_imu_init() {
    let imu_bus = MockImuBus::new();
    let mut imu: Mpu6050<MockImuBus> = Mpu6050::new(imu_bus, ImuAxisOrder::XPOS_YPOS_ZPOS);

    let mut step = 0;
    while let Some(op) =
        imu.init_step(step, 8000, GyroFullScale::Max, GyroUnits::Dps, AccFullScale::Max, AccUnits::G)
    {
        apply(&mut imu.bus, op);
        step += 1;
    }
    let (gyro_sample_rate_hz, acc_sample_rate_hz) = (imu.common.gyro_sample_rate_hz, imu.common.acc_sample_rate_hz);
    assert_eq!(8000, gyro_sample_rate_hz);
    assert_eq!(1000, acc_sample_rate_hz);

    assert_eq!(2000.0 / 32768.0, gyro_scale(imu.common.gyro_scale));
    assert_eq!(16.0 / 32768.0, acc_scale(imu.common.acc_scale));
    assert_eq!(8000, imu.common.gyro_sample_rate_hz);
    assert_eq!(1000, imu.common.acc_sample_rate_hz);
}

#[test]
fn map_acc() {
    let imu_bus = MockImuBus::new();
    let mut imu: Mpu6050<MockImuBus> = Mpu6050::new(imu_bus, ImuAxisOrder::XPOS_YPOS_ZPOS);

    let mut step = 0;
    while let Some(op) =
        imu.init_step(step, 8000, GyroFullScale::Max, GyroUnits::Dps, AccFullScale::Max, AccUnits::G)
    {
        apply(&mut imu.bus, op);
        step += 1;
    }
    assert_eq!(mpu6050::INIT_STEPS, step);
    assert_eq!(0x10, imu.bus.read_register(mpu6050::REG_INT_PIN_CONFIG));
}

#[test]
fn mpu6050_rates() {
    let mut imu = Mpu6050::new(MockImuBus::new(), ImuAxisOrder::XPOS_YPOS_ZPOS);
    // range bits and divider share bits: 0x08 | 15
    assert_eq!(0x0F, imu.calculate_gyro_scale_and_odr(GyroFullScale::Scale500Dps, GyroUnits::Dps, 300));
    assert_eq!(500, imu.common.gyro_sample_rate_hz);
    assert_eq!(0x08, imu.calculate_acc_scale_and_odr(AccFullScale::Scale4G, AccUnits::G, 300));
    assert_eq!(500, imu.common.acc_sample_rate_hz);
    assert_eq!(0x10, imu.calculate_acc_scale_and_odr(AccFullScale::Scale8G, AccUnits::G, 8000));
    assert_eq!(1000, imu.common.acc_sample_rate_hz);
}

#[test]
fn mpu6886_normal_types() {}

#[test]
fn mpu6886_imu_init() {
    let imu_bus = MockImuBus::new();
    let mut imu: Mpu6886<MockImuBus> = Mpu6886::new(imu_bus, ImuAxisOrder::XPOS_YPOS_ZPOS);

    let mut step = 0;
    while let Some(op) =
        imu.init_step(step, 8000, GyroFullScale::Max, GyroUnits::Dps, AccFullScale::Max, AccUnits::G)
    {
        apply(&mut imu.bus, op);
        step += 1;
    }
    let (gyro_sample_rate_hz, acc_sample_rate_hz) = (imu.common.gyro_sample_rate_hz, imu.common.acc_sample_rate_hz);

    assert_eq!(500, gyro_sample_rate_hz);
    assert_eq!(500, acc_sample_rate_hz);
    assert_eq!(2000.0 / 32768.0, gyro_scale(imu.common.gyro_scale));
    assert_eq!(8.0 / 32768.0, acc_scale(imu.common.acc_scale));
    assert_eq!(500, imu.common.gyro_sample_rate_hz);
    assert_eq!(500, imu.common.acc_sample_rate_hz);
    assert_eq!(0x41, imu.bus.read_register(mpu6886::REG_CONFIG));
    assert_eq!(0x18, imu.bus.read_register(mpu6886::REG_GYRO_CONFIG));
}

#[test]
fn qmi8658a_normal_types() {}

#[test]
fn qmi8658a_imu_init() {
    let imu_bus = MockImuBus::new();
    let mut imu: Qmi8658a<MockImuBus> = Qmi8658a::new(imu_bus, ImuAxisOrder::XPOS_YPOS_ZPOS);

    let mut step = 0;
    while let Some(op) =
        imu.init_step(step, 7172, GyroFullScale::Max, GyroUnits::Dps, AccFullScale::Max, AccUnits::G)
    {
        apply(&mut imu.bus, op);
        step += 1;
    }
    let (gyro_odr, acc_odr) = (imu.common.gyro_sample_rate_hz, imu.common.acc_sample_rate_hz);

    assert_eq!(7172, gyro_odr);
    assert_eq!(7172, acc_odr);
    assert_eq!(2048.0 / 32768.0, gyro_scale(imu.common.gyro_scale));
    assert_eq!(16.0 / 32768.0, acc_scale(imu.common.acc_scale));
    assert_eq!(7172, imu.common.gyro_sample_rate_hz);
    assert_eq!(7172, imu.common.acc_sample_rate_hz);
}

#[test]
fn qmi8658a_registers() {
    let mut imu = Qmi8658a::new(MockImuBus::new(), ImuAxisOrder::XPOS_YPOS_ZPOS);
    assert_eq!(0x55, imu.calculate_gyro_scale_and_odr(GyroFullScale::Scale500Dps, GyroUnits::Dps, 200));
    assert_eq!(224, imu.common.gyro_sample_rate_hz);
    assert_eq!(0x18, imu.calculate_acc_scale_and_odr(AccFullScale::Scale4G, AccUnits::G, 20));
    assert_eq!(28, imu.common.acc_sample_rate_hz);
    assert_eq!(qmi8658a::INIT_STEPS, 10);
}

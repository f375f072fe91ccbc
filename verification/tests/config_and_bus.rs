use imu_sensors::{
    I2cInterface, ImuAxisOrder, ImuCommon, ImuDeviceConfig, ImuSpiBus, ImuSpiError, MockImuBus, MySpiDriver,
    SampleLayout, SpiTransfer,
};

#[allow(unused)]
fn is_normal<T: Sized + Send + Sync + Unpin>() {}
fn is_full<T: Sized + Send + Sync + Unpin + Copy + Clone + Default + PartialEq>() {}

#[test]
fn imu_device_config_normal_types() {
    is_full::<ImuDeviceConfig>();
}

#[test]
fn new() {
    let config = ImuDeviceConfig::new();
    assert_eq!(0, config.address);
}

#[test]
fn config_from_axis_order() {
    let config = ImuDeviceConfig::from_axis_order(ImuAxisOrder::ZPOS_XPOS_YPOS);
    assert_eq!(ImuAxisOrder::ZPOS_XPOS_YPOS, config.axis_order);
    assert_eq!(0, config.device_id);
    assert_eq!(ImuDeviceConfig::new(), ImuDeviceConfig::default());
    assert_eq!(26, ImuDeviceConfig::MSP_GYRO_ID_VIRTUAL);
}

#[test]
fn common_defaults() {
    let common = ImuCommon::default();
    assert_eq!(ImuAxisOrder::XPOS_YPOS_ZPOS, common.axis_order);
    assert_eq!(1000, common.acc_sample_rate_hz);
    assert_eq!(8, common.acc_scale.full_scale_g);
    assert_eq!(2000, common.gyro_scale.full_scale_dps);
}

#[test]
fn i2c_normal_types() {
    is_normal::<I2cInterface<MockImuBus>>();
}

#[test]
fn spi_normal_types() {
    //is_normal::<SpiInterface<MockImuBus>>();
}

#[test]
fn spi_read_command_sets_read_bit() {
    assert_eq!([0x8F, 0x00], MySpiDriver::<(), ()>::read_register_command(0x0F));
    assert_eq!([0xFF, 0x00], MySpiDriver::<(), ()>::read_register_command(0xFF));
}

#[test]
fn spi_transfer_plan() {
    assert!(matches!(ImuSpiBus::<()>::plan_transfer::<u8>(&[0x10, 0x20], 0), Ok(SpiTransfer::WriteOnly)));
    assert!(matches!(
        ImuSpiBus::<()>::plan_transfer::<u8>(&[0x28], 6),
        Ok(SpiTransfer::WriteRegisterThenRead { register: 0xA8 })
    ));
    assert!(matches!(ImuSpiBus::<()>::plan_transfer::<u8>(&[], 6), Err(ImuSpiError::MissingRegister)));
    assert!(matches!(ImuSpiError::<u8>::from(7), ImuSpiError::Bus(7)));
    let bus = ImuSpiBus::new(5u8);
    assert_eq!(5, bus.bus);
}

#[test]
fn mock_bus_reads_back_writes() {
    let mut bus = MockImuBus::new();
    bus.write_registers(0x10, &[1, 2, 3]);
    assert_eq!(vec![0, 1, 2, 3, 0], bus.read_registers(0x0F, 5));
    bus.write_register(0x11, 9);
    assert_eq!(9, bus.read_register(0x11));
    assert_eq!(Vec::<u8>::new(), bus.transfer(&[0x20, 7, 8], 0));
    assert_eq!(vec![7, 8], bus.transfer(&[0x20], 2));
    bus.write_registers(0xFE, &[0xAA, 0xBB]);
    assert_eq!(vec![0xAA, 0xBB], bus.read_registers(0xFE, 2));
}

#[test]
fn sample_layout_splits_combined_read() {
    let layout: SampleLayout = imu_sensors::Icm20602::<()>::sample_layout();
    let buf: Vec<u8> = (0u8..14).collect();
    let (acc, gyro) = layout.split_acc_gyro(&buf);
    assert_eq!([0, 1, 2, 3, 4, 5], acc);
    assert_eq!([8, 9, 10, 11, 12, 13], gyro);
    let layout = imu_sensors::Lsm6ds::<()>::sample_layout();
    let (acc, gyro) = layout.split_acc_gyro(&buf[0..12]);
    assert_eq!([6, 7, 8, 9, 10, 11], acc);
    assert_eq!([0, 1, 2, 3, 4, 5], gyro);
    assert!(imu_sensors::Mpu6050::<()>::sample_layout().big_endian);
}

#[test]
fn sample_bytes_are_little_endian() {
    assert_eq!([0x34, 0x12, 0xFF, 0xFF, 0x00, 0x80], imu_sensors::imu_common::sample_to_le_bytes(0x1234, -1, i16::MIN));
}

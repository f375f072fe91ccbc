//! Register-level configuration logic for a family of inertial measurement units
//! (accelerometer and gyroscope), with proofs of what each configuration step does.

pub mod axis;
pub mod i2c;
pub mod icm20602;
pub mod imu_bus_spi;
pub mod imu_common;
pub mod imu_device_config;
pub mod imu_mock;
pub mod lsm6ds;
pub mod mock_bus;
pub mod mpu6050;
pub mod mpu6886;
pub mod qmi8658a;
pub mod spi;

pub use axis::{Axis, AxisMap, AxisSource, ImuAxisOrder};
pub use i2c::I2cInterface;
pub use icm20602::Icm20602;
pub use imu_bus_spi::{ImuSpiBus, ImuSpiError, SpiTransfer};
pub use imu_common::{
    AccFullScale, AccScale, AccUnits, GyroFullScale, GyroScale, GyroUnits, ImuCommon, InitOp,
    InitProgress, InitRequest,
    SampleLayout,
};
pub use imu_device_config::ImuDeviceConfig;
pub use imu_mock::ImuMock;
pub use lsm6ds::Lsm6ds;
pub use mock_bus::MockImuBus;
pub use mpu6050::Mpu6050;
pub use mpu6886::Mpu6886;
pub use qmi8658a::Qmi8658a;
pub use spi::{MySpiDriver, SpiInterface};

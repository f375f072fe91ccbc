use vstd::prelude::*;

use crate::axis::ImuAxisOrder;
use crate::imu_common::{
    doubled,
    InitProgress,
    InitRequest,
    delay_op, read_op, spec_common_new, spec_delay_op, spec_read_op, spec_write_op, write_op,
    AccFullScale, AccScale, AccUnits, GyroFullScale, GyroScale, GyroUnits, ImuCommon, InitOp,
    SampleLayout,
};
use crate::imu_device_config::ImuDeviceConfig;

verus! {

pub const I2C_ADDRESS: u8 = 0x68;

// **** IMU Registers and associated bitflags ****
pub const REG_SAMPLE_RATE_DIVIDER: u8 = 0x19;
pub const DIVIDE_BY_2: u8 = 0x01;
pub const REG_CONFIG: u8 = 0x1A;
pub const DLPF_CFG_1: u8 = 0x01;
pub const FIFO_MODE_OVERWRITE: u8 = 0b_0100_0000;
pub const REG_GYRO_CONFIG: u8 = 0x1B;
pub const REG_ACCEL_CONFIG: u8 = 0x1C;
pub const REG_ACCEL_CONFIG2: u8 = 0x1D;
/// Filter: 218.1 3-dB bandwidth (Hz), least filtered 1kHz update variant.
pub const ACC_FCHOICE_B: u8 = 0x00;
pub const REG_FIFO_ENABLE: u8 = 0x23;
pub const REG_INT_PIN_CFG: u8 = 0x37;
pub const REG_INT_ENABLE: u8 = 0x38;
pub const DATA_RDY_INT_EN: u8 = 0x01;
pub const REG_ACCEL_XOUT_H: u8 = 0x3B;
pub const REG_GYRO_XOUT_H: u8 = 0x43;
pub const REG_USER_CTRL: u8 = 0x6A;
pub const REG_PWR_MGMT_1: u8 = 0x6B;
pub const DEVICE_RESET: u8 = 0x80;
pub const CLKSEL_1: u8 = 0x01;
pub const REG_WHO_AM_I: u8 = 0x75;

/// GYRO_CONFIG value: 2000 dps full scale (3 << 3), GYRO_FCHOICE_B zero so that
/// CONFIG sets the update rate and filter.
pub const GYRO_CONFIG_2000_DPS: u8 = 0x18;
/// ACCEL_CONFIG value: 8 g full scale (2 << 3).
pub const ACCEL_CONFIG_8G: u8 = 0x10;
// **** IMU Registers and associated bitflags ****

/// Driver for the Invensense MPU-6886 (used by M5 Stack devices). Gyro full scale is
/// fixed at 2000 dps, accelerometer full scale at 8 g, and both run at 500 Hz.
#[derive(Debug, PartialEq)]
pub struct Mpu6886<B> {
    pub bus: B,
    pub common: ImuCommon,
    pub config: ImuDeviceConfig,
}

/// The gyro full scale, in degrees per second, that a GYRO_CONFIG value programs:
/// FS_SEL, bits 4:3, selects 250 dps doubled FS_SEL times.
pub open spec fn gyro_config_full_scale_dps(reg: u8) -> int {
    doubled(250, ((reg / 8) % 4) as int)
}

/// The accelerometer full scale, in g, that an ACCEL_CONFIG value programs:
/// ACCEL_FS_SEL, bits 4:3, selects 2 g doubled ACCEL_FS_SEL times.
pub open spec fn accel_config_full_scale_g(reg: u8) -> int {
    doubled(2, ((reg / 8) % 4) as int)
}

/// The shared state once the gyro is configured: 2000 dps in the requested units,
/// 500 Hz.
pub open spec fn gyro_configured(c: ImuCommon, gyro_units: GyroUnits) -> ImuCommon {
    ImuCommon {
        gyro_scale: GyroScale { full_scale_dps: 2000, counts: 32768, units: gyro_units },
        gyro_sample_rate_hz: 500,
        ..c
    }
}

/// The shared state once the accelerometer is configured: 8 g in the requested
/// units, at the gyro's sample rate.
pub open spec fn acc_configured(c: ImuCommon, acc_units: AccUnits) -> ImuCommon {
    ImuCommon {
        acc_scale: AccScale { full_scale_g: 8, counts: 32768, units: acc_units },
        acc_sample_rate_hz: c.gyro_sample_rate_hz,
        ..c
    }
}

/// Step `step` of `init`, for a device at `address`.
pub open spec fn init_op(address: u8, step: usize) -> Option<InitOp> {
    match step {
        // the chip id is read and not checked
        0 => spec_read_op(address, REG_WHO_AM_I),
        1 => spec_delay_op(1),
        // Clear the power management register.
        2 => spec_write_op(address, REG_PWR_MGMT_1, 0),
        3 => spec_delay_op(10),
        // Reset the device.
        4 => spec_write_op(address, REG_PWR_MGMT_1, DEVICE_RESET),
        5 => spec_delay_op(10),
        // CLKSEL must be set to 001 to achieve full gyroscope performance.
        6 => spec_write_op(address, REG_PWR_MGMT_1, CLKSEL_1),
        7 => spec_delay_op(10),
        8 => spec_write_op(address, REG_GYRO_CONFIG, GYRO_CONFIG_2000_DPS),
        9 => spec_delay_op(1),
        10 => spec_write_op(address, REG_SAMPLE_RATE_DIVIDER, DIVIDE_BY_2),
        11 => spec_delay_op(1),
        12 => spec_write_op(address, REG_ACCEL_CONFIG, ACCEL_CONFIG_8G),
        13 => spec_delay_op(1),
        // Configure filtering.
        14 => spec_write_op(address, REG_ACCEL_CONFIG2, ACC_FCHOICE_B),
        15 => spec_delay_op(1),
        // Configure FIFO: disabled.
        16 => spec_write_op(address, REG_FIFO_ENABLE, 0x00),
        17 => spec_delay_op(1),
        18 => spec_write_op(address, REG_CONFIG, DLPF_CFG_1 | FIFO_MODE_OVERWRITE),
        19 => spec_delay_op(1),
        // Configure interrupts.
        20 => spec_write_op(address, REG_INT_PIN_CFG, 0x22),
        21 => spec_delay_op(1),
        // data ready interrupt enabled
        22 => spec_write_op(address, REG_INT_ENABLE, DATA_RDY_INT_EN),
        23 => spec_delay_op(10),
        24 => spec_write_op(address, REG_USER_CTRL, 0x00),
        25 => spec_delay_op(1),
        _ => None,
    }
}

/// The step of `init` that reads the chip id; its outcome is discarded.
pub const CHIP_ID_READ_STEP: usize = 0;

/// The step of `init` at which the gyro is configured.
pub const GYRO_STEP: usize = 8;

/// The step of `init` at which the accelerometer is configured.
pub const ACC_STEP: usize = 12;

/// Number of steps of `init`.
pub const INIT_STEPS: usize = 26;

/// Step `step` of `init` for a device at `address` and the request `r`.
pub open spec fn planned_op(address: u8, step: usize, r: InitRequest) -> Option<InitOp> {
    init_op(address, step)
}

/// What step `step` of `init` does to the shared state.
pub open spec fn step_common(c: ImuCommon, step: usize, r: InitRequest) -> ImuCommon {
    if step == GYRO_STEP {
        gyro_configured(c, r.gyro_units)
    } else if step == ACC_STEP {
        acc_configured(c, r.acc_units)
    } else {
        c
    }
}

/// The shared state after the first `n` steps of `init`.
pub open spec fn common_after_steps(c: ImuCommon, n: nat, r: InitRequest) -> ImuCommon
    decreases n,
{
    if n == 0 {
        c
    } else {
        step_common(common_after_steps(c, (n - 1) as nat, r), (n - 1) as usize, r)
    }
}

impl<B> Mpu6886<B> {
    pub const DEVICE_ID: u8 = 0;

    /// Constructor.
    pub fn new(bus: B, axis_order: ImuAxisOrder) -> (r: Self)
        ensures
            r.bus == bus,
            r.common == spec_common_new(axis_order),
            r.config == (ImuDeviceConfig {
                gyro_id_msp: ImuDeviceConfig::MSP_ACC_ID_DEFAULT,
                acc_id_msp: ImuDeviceConfig::MSP_ACC_ID_DEFAULT,
                axis_order,
                device_id: 0,
                address: I2C_ADDRESS,
                flags: 0,
            }),
    {
        Self {
            bus,
            common: ImuCommon::new(axis_order),
            config: ImuDeviceConfig {
                gyro_id_msp: ImuDeviceConfig::MSP_ACC_ID_DEFAULT,
                acc_id_msp: ImuDeviceConfig::MSP_ACC_ID_DEFAULT,
                axis_order,
                device_id: Self::DEVICE_ID,
                address: I2C_ADDRESS,
                flags: 0,
            },
        }
    }

    /// Sets the gyro scale and sample rate, and returns the GYRO_CONFIG value and
    /// the sample rate divider; the requested full scale and rate play no part.
    pub fn calculate_gyro_scale_and_odr(
        &mut self,
        _gyro_sensitivity: GyroFullScale,
        gyro_units: GyroUnits,
        _target_output_data_rate_hz: u32,
    ) -> (r: (u8, u8))
        ensures
            r == (GYRO_CONFIG_2000_DPS, DIVIDE_BY_2),
            gyro_config_full_scale_dps(r.0) == final(self).common.gyro_scale.full_scale_dps,
            final(self).common.gyro_sample_rate_hz * (1 + r.1) == 1000,
            final(self).common == gyro_configured(old(self).common, gyro_units),
            final(self).bus == old(self).bus,
            final(self).config == old(self).config,
    {
        proof {
            lemma_config_values_encode_scale();
        }
        self.common.gyro_scale = GyroScale {
            full_scale_dps: 2000,
            counts: 32768,
            units: GyroUnits::Dps,
        };
        if gyro_units == GyroUnits::Rps {
            self.common.gyro_scale.units = GyroUnits::Rps;
        }
        // M5Stack default divider is two, giving 500Hz output rate
        self.common.gyro_sample_rate_hz = 500;

        (GYRO_CONFIG_2000_DPS, DIVIDE_BY_2)
    }

    /// Sets the accelerometer scale and sets its sample rate to the gyro's, and
    /// returns the ACCEL_CONFIG value; the requested full scale and rate play no
    /// part.
    pub fn calculate_acc_scale_and_odr(
        &mut self,
        _acc_sensitivity: AccFullScale,
        acc_scale: AccUnits,
        _target_output_data_rate_hz: u32,
    ) -> (r: u8)
        ensures
            r == ACCEL_CONFIG_8G,
            accel_config_full_scale_g(r) == final(self).common.acc_scale.full_scale_g,
            final(self).common == acc_configured(old(self).common, acc_scale),
            final(self).bus == old(self).bus,
            final(self).config == old(self).config,
    {
        // Accelerometer scale is fixed at 8G, the maximum supported.
        proof {
            lemma_config_values_encode_scale();
        }
        self.common.acc_scale = AccScale { full_scale_g: 8, counts: 32768, units: AccUnits::G };
        if acc_scale == AccUnits::Mps2 {
            self.common.acc_scale.units = AccUnits::Mps2;
        }
        self.common.acc_sample_rate_hz = self.common.gyro_sample_rate_hz;

        ACCEL_CONFIG_8G
    }

    /// `outcome` is the outcome of the previous operation (`Ok` before the first).
    /// A failed write ends initialisation with its error; the outcome of the chip
    /// id read is discarded. Otherwise this is step `step` of `init`: its operation,
    /// or, when there is none, the end of initialisation with the gyro and
    /// accelerometer sample rates actually set.
    pub fn init_next<E>(
        &mut self,
        step: usize,
        outcome: Result<(), E>,
        target_output_data_rate_hz: u32,
        gyro_sensitivity: GyroFullScale,
        gyro_units: GyroUnits,
        acc_sensitivity: AccFullScale,
        acc_units: AccUnits,
    ) -> (r: InitProgress<E>)
        ensures
            step != CHIP_ID_READ_STEP + 1 ==> (outcome matches Err(e) ==> r == InitProgress::<
                E,
            >::Done(Err(e)) && *final(self) == *old(self)),
            (outcome is Ok || step == CHIP_ID_READ_STEP + 1) ==> {
                &&& final(self).common == step_common(
                    old(self).common,
                    step,
                    (InitRequest {
                        target_hz: target_output_data_rate_hz,
                        gyro_sensitivity,
                        gyro_units,
                        acc_sensitivity,
                        acc_units,
                    }),
                )
                &&& final(self).bus == old(self).bus
                &&& final(self).config == old(self).config
                &&& r == (match planned_op(
                    old(self).config.address,
                    step,
                    (InitRequest {
                        target_hz: target_output_data_rate_hz,
                        gyro_sensitivity,
                        gyro_units,
                        acc_sensitivity,
                        acc_units,
                    }),
                ) {
                    Some(op) => InitProgress::<E>::Perform(op),
                    None => InitProgress::<E>::Done(
                        Ok(
                            (
                                final(self).common.gyro_sample_rate_hz,
                                final(self).common.acc_sample_rate_hz,
                            ),
                        ),
                    ),
                })
            },
    {
        if step != CHIP_ID_READ_STEP + 1 {
            if let Err(e) = outcome {
                return InitProgress::Done(Err(e));
            }
        }
        match self.init_step(
            step,
            target_output_data_rate_hz,
            gyro_sensitivity,
            gyro_units,
            acc_sensitivity,
            acc_units,
        ) {
            Some(op) => InitProgress::Perform(op),
            None => InitProgress::Done(
                Ok((self.common.gyro_sample_rate_hz, self.common.acc_sample_rate_hz)),
            ),
        }
    }

    /// Step `step` of `init`: the bus operation to perform next, or `None` when
    /// initialisation is complete. The gyro and the accelerometer are configured at
    /// the step that writes their configuration register.
    pub fn init_step(
        &mut self,
        step: usize,
        target_output_data_rate_hz: u32,
        gyro_sensitivity: GyroFullScale,
        gyro_units: GyroUnits,
        acc_sensitivity: AccFullScale,
        acc_units: AccUnits,
    ) -> (op: Option<InitOp>)
        ensures
            op == init_op(old(self).config.address, step),
            final(self).common == step_common(
                old(self).common,
                step,
                (InitRequest {
                    target_hz: target_output_data_rate_hz,
                    gyro_sensitivity,
                    gyro_units,
                    acc_sensitivity,
                    acc_units,
                }),
            ),
            final(self).bus == old(self).bus,
            final(self).config == old(self).config,
    {
        let address = self.config.address;
        match step {
            0 => read_op(address, REG_WHO_AM_I),
            1 => delay_op(1),
            2 => write_op(address, REG_PWR_MGMT_1, 0),
            3 => delay_op(10),
            4 => write_op(address, REG_PWR_MGMT_1, DEVICE_RESET),
            5 => delay_op(10),
            6 => write_op(address, REG_PWR_MGMT_1, CLKSEL_1),
            7 => delay_op(10),
            8 => {
                let (config, _divider) = self.calculate_gyro_scale_and_odr(
                    gyro_sensitivity,
                    gyro_units,
                    target_output_data_rate_hz,
                );
                write_op(address, REG_GYRO_CONFIG, config)
            },
            9 => delay_op(1),
            10 => write_op(address, REG_SAMPLE_RATE_DIVIDER, DIVIDE_BY_2),
            11 => delay_op(1),
            12 => {
                let acc_register_value = self.calculate_acc_scale_and_odr(
                    acc_sensitivity,
                    acc_units,
                    target_output_data_rate_hz,
                );
                write_op(address, REG_ACCEL_CONFIG, acc_register_value)
            },
            13 => delay_op(1),
            14 => write_op(address, REG_ACCEL_CONFIG2, ACC_FCHOICE_B),
            15 => delay_op(1),
            16 => write_op(address, REG_FIFO_ENABLE, 0x00),
            17 => delay_op(1),
            18 => write_op(address, REG_CONFIG, DLPF_CFG_1 | FIFO_MODE_OVERWRITE),
            19 => delay_op(1),
            20 => write_op(address, REG_INT_PIN_CFG, 0x22),
            21 => delay_op(1),
            22 => write_op(address, REG_INT_ENABLE, DATA_RDY_INT_EN),
            23 => delay_op(10),
            24 => write_op(address, REG_USER_CTRL, 0x00),
            25 => delay_op(1),
            _ => None,
        }
    }

    /// Where the samples are: accelerometer from ACCEL_XOUT_H, gyro from
    /// GYRO_XOUT_H; a combined read takes 14 bytes from GYRO_XOUT_H and uses bytes
    /// 0..6 as the accelerometer and 8..14 as the gyro. Values are big-endian.
    pub fn sample_layout() -> (r: SampleLayout)
        ensures
            r == (SampleLayout {
                acc_register: REG_ACCEL_XOUT_H,
                gyro_register: REG_GYRO_XOUT_H,
                burst_register: REG_GYRO_XOUT_H,
                burst_len: 14,
                acc_at: 0,
                gyro_at: 8,
                big_endian: true,
            }),
            r.wf(),
    {
        SampleLayout {
            acc_register: REG_ACCEL_XOUT_H,
            gyro_register: REG_GYRO_XOUT_H,
            burst_register: REG_GYRO_XOUT_H,
            burst_len: 14,
            acc_at: 0,
            gyro_at: 8,
            big_endian: true,
        }
    }
}

/// `init` is exactly the steps `0..INIT_STEPS`: each of them is an operation and
/// every later step reports completion.
pub proof fn lemma_init_steps(address: u8, step: usize)
    ensures
        step < INIT_STEPS <==> init_op(address, step) is Some,
{
}

/// After `init` has configured the gyro and then the accelerometer, both run at
/// 500 Hz, whatever the state before.
pub proof fn lemma_init_rates(c: ImuCommon, gyro_units: GyroUnits, acc_units: AccUnits)
    ensures
        acc_configured(gyro_configured(c, gyro_units), acc_units).gyro_sample_rate_hz == 500,
        acc_configured(gyro_configured(c, gyro_units), acc_units).acc_sample_rate_hz == 500,
{
}

/// A complete `init` configures the gyro and then the accelerometer: afterwards
/// both scales are those of the requested units and both sensors run at 500 Hz.
pub proof fn lemma_init_configures(c: ImuCommon, r: InitRequest)
    ensures
        common_after_steps(c, INIT_STEPS as nat, r) == acc_configured(
            gyro_configured(c, r.gyro_units),
            r.acc_units,
        ),
{
    lemma_common_after_steps(c, INIT_STEPS as nat, r);
}

proof fn lemma_common_after_steps(c: ImuCommon, n: nat, r: InitRequest)
    requires
        n <= INIT_STEPS,
    ensures
        common_after_steps(c, n, r) == (if n <= GYRO_STEP {
            c
        } else if n <= ACC_STEP {
            gyro_configured(c, r.gyro_units)
        } else {
            acc_configured(gyro_configured(c, r.gyro_units), r.acc_units)
        }),
    decreases n,
{
    if n > 0 {
        lemma_common_after_steps(c, (n - 1) as nat, r);
    }
}

/// The configuration values written program the full scales that the stored
/// scales assume (2000 dps, 8 g), and the 1 kHz internal rate divided by one plus
/// the divider is the stored 500 Hz.
pub proof fn lemma_config_values_encode_scale()
    ensures
        gyro_config_full_scale_dps(GYRO_CONFIG_2000_DPS) == 2000,
        accel_config_full_scale_g(ACCEL_CONFIG_8G) == 8,
        500 * (1 + DIVIDE_BY_2) == 1000,
{
    reveal_with_fuel(doubled, 4);
}

} // verus!

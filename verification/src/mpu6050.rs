use vstd::prelude::*;

use crate::axis::ImuAxisOrder;
use crate::imu_common::{
    doubled, lemma_low_three_bits, requested_dps, requested_g,
    InitProgress,
    InitRequest,
    delay_op, spec_common_new, spec_delay_op, spec_write_op, write_op, AccFullScale, AccScale,
    AccUnits, GyroFullScale, GyroScale, GyroUnits, ImuCommon, InitOp, SampleLayout,
};
use crate::imu_device_config::ImuDeviceConfig;

verus! {

pub const I2C_ADDRESS: u8 = 0x68;

// **** IMU Registers and associated bitflags ****
pub const REG_INT_PIN_CONFIG: u8 = 0x37;
pub const INT_LEVEL_ACTIVE_HIGH: u8 = 0;
pub const INT_PUSH_PULL: u8 = 0;
pub const INT_ENABLE_PULSE: u8 = 0;
pub const INT_CLEAR_READ_ANY: u8 = 0b_0001_0000;  // cleared on any read
pub const FSYNCH_INT_DISABLE: u8 = 0;

pub const REG_INT_ENABLE: u8 = 0x38;
pub const DATA_READY_ENABLE: u8 = 0b_0000_0001;

pub const REG_ACCEL_XOUT_H: u8 = 0x3B;
pub const REG_GYRO_XOUT_H: u8 = 0x43;

pub const REG_PWR_MGMT_1: u8 = 0x6B;
pub const CLKSEL_PLL_Z_AXIS_GYRO: u8 = 0x03;
pub const REG_PWR_MGMT_2: u8 = 0x6C;

pub const GYRO_RANGE_250_DPS: u8 = 0b0000_0000;
pub const GYRO_RANGE_500_DPS: u8 = 0b0000_1000;
pub const GYRO_RANGE_1000_DPS: u8 = 0b0001_0000;
pub const GYRO_RANGE_2000_DPS: u8 = 0b0001_1000;

pub const ACCEL_RANGE_2G: u8 = 0b0000_0000;
pub const ACCEL_RANGE_4G: u8 = 0b0000_1000;
pub const ACCEL_RANGE_8G: u8 = 0b0001_0000;
pub const ACCEL_RANGE_16G: u8 = 0b0001_1000;
// **** IMU Registers and associated bitflags ****

/// Driver for the TDK MPU-6050; the MPU-6000 is its SPI variant. Both store their
/// samples big-endian.
#[derive(Debug, PartialEq)]
pub struct Mpu6050<B> {
    pub bus: B,
    pub common: ImuCommon,
    pub config: ImuDeviceConfig,
}

/// Gyro full scale in degrees per second and the range bits; 125 dps is not
/// offered, so it selects 250 dps.
pub open spec fn gyro_range(gyro_sensitivity: GyroFullScale) -> (u32, u8) {
    match gyro_sensitivity {
        GyroFullScale::Scale125Dps | GyroFullScale::Scale250Dps => (250, GYRO_RANGE_250_DPS),
        GyroFullScale::Scale500Dps => (500, GYRO_RANGE_500_DPS),
        GyroFullScale::Scale1000Dps => (1000, GYRO_RANGE_1000_DPS),
        _ => (2000, GYRO_RANGE_2000_DPS),
    }
}

/// Gyro output data rate and sample rate divider for a target rate.
pub open spec fn gyro_rate(target_hz: u32) -> (u32, u8) {
    if 2001 <= target_hz <= 4000 {
        (4000, 1)
    } else if 1001 <= target_hz <= 2000 {
        (2000, 3)
    } else if 501 <= target_hz <= 1000 {
        (1000, 7)
    } else if 251 <= target_hz <= 500 {
        (500, 15)
    } else if 1 <= target_hz <= 250 {
        (250, 31)
    } else {
        (8000, 0)
    }
}

/// Acc full scale in g and the range bits; `Max` selects 16 g.
pub open spec fn acc_range(acc_sensitivity: AccFullScale) -> (u32, u8) {
    match acc_sensitivity {
        AccFullScale::Scale2G => (2, ACCEL_RANGE_2G),
        AccFullScale::Scale4G => (4, ACCEL_RANGE_4G),
        AccFullScale::Scale8G => (8, ACCEL_RANGE_8G),
        _ => (16, ACCEL_RANGE_16G),
    }
}

/// Acc output data rate for a target rate; the accelerometer tops out at 1000 Hz.
pub open spec fn acc_rate(target_hz: u32) -> u32 {
    if 251 <= target_hz <= 500 {
        500
    } else if 1 <= target_hz <= 250 {
        250
    } else {
        1000
    }
}

/// The gyro output data rates the device offers.
pub open spec fn is_gyro_rate(rate_hz: u32) -> bool {
    rate_hz == 250 || rate_hz == 500 || rate_hz == 1000 || rate_hz == 2000 || rate_hz == 4000
        || rate_hz == 8000
}

/// The accelerometer output data rates the device offers.
pub open spec fn is_acc_rate(rate_hz: u32) -> bool {
    rate_hz == 250 || rate_hz == 500 || rate_hz == 1000
}

/// The gyro full scale, in degrees per second, that a GYRO_CONFIG value programs:
/// FS_SEL, bits 4:3, selects 250 dps doubled FS_SEL times.
pub open spec fn gyro_config_full_scale_dps(reg: u8) -> int {
    doubled(250, ((reg / 8) % 4) as int)
}

/// The accelerometer full scale, in g, that an ACCEL_CONFIG value programs:
/// AFS_SEL, bits 4:3, selects 2 g doubled AFS_SEL times.
pub open spec fn accel_config_full_scale_g(reg: u8) -> int {
    doubled(2, ((reg / 8) % 4) as int)
}

/// The gyro full scales the device offers, in degrees per second.
pub open spec fn is_gyro_full_scale(dps: u32) -> bool {
    dps == 250 || dps == 500 || dps == 1000 || dps == 2000
}

/// The shared state once the gyro is configured: its scale and sample rate.
pub open spec fn gyro_configured(
    c: ImuCommon,
    gyro_sensitivity: GyroFullScale,
    gyro_units: GyroUnits,
    target_hz: u32,
) -> ImuCommon {
    ImuCommon {
        gyro_scale: GyroScale {
            full_scale_dps: gyro_range(gyro_sensitivity).0,
            counts: 32768,
            units: gyro_units,
        },
        gyro_sample_rate_hz: gyro_rate(target_hz).0,
        ..c
    }
}

/// The shared state once the accelerometer is configured: its scale and sample rate.
pub open spec fn acc_configured(
    c: ImuCommon,
    acc_sensitivity: AccFullScale,
    acc_units: AccUnits,
    target_hz: u32,
) -> ImuCommon {
    ImuCommon {
        acc_scale: AccScale {
            full_scale_g: acc_range(acc_sensitivity).0,
            counts: 32768,
            units: acc_units,
        },
        acc_sample_rate_hz: acc_rate(target_hz),
        ..c
    }
}

/// Step `step` of `init`, for a device at `address`. The computed gyro and
/// accelerometer register values are not written.
pub open spec fn init_op(address: u8, step: usize) -> Option<InitOp> {
    match step {
        // clock source: PLL with Z axis gyro reference
        0 => spec_write_op(address, REG_PWR_MGMT_1, CLKSEL_PLL_Z_AXIS_GYRO),
        1 => spec_delay_op(15),
        2 => spec_write_op(address, REG_PWR_MGMT_2, 0x00),
        3 => spec_delay_op(15),
        // Configure interrupts
        4 => spec_write_op(
            address,
            REG_INT_PIN_CONFIG,
            INT_LEVEL_ACTIVE_HIGH | INT_PUSH_PULL | INT_ENABLE_PULSE | INT_CLEAR_READ_ANY
                | FSYNCH_INT_DISABLE,
        ),
        5 => spec_delay_op(15),
        6 => spec_write_op(address, REG_INT_ENABLE, DATA_READY_ENABLE),
        7 => spec_delay_op(15),
        _ => None,
    }
}

/// The step of `init` at which both sensors are configured; it is also the step
/// at which `init` completes.
pub const CONFIGURE_STEP: usize = 8;

/// Number of steps of `init` that are bus operations.
pub const INIT_STEPS: usize = 8;

/// Step `step` of `init` for a device at `address` and the request `r`.
pub open spec fn planned_op(address: u8, step: usize, r: InitRequest) -> Option<InitOp> {
    init_op(address, step)
}

/// What step `step` of `init` does to the shared state.
pub open spec fn step_common(c: ImuCommon, step: usize, r: InitRequest) -> ImuCommon {
    if step == CONFIGURE_STEP {
        acc_configured(
            gyro_configured(c, r.gyro_sensitivity, r.gyro_units, r.target_hz),
            r.acc_sensitivity,
            r.acc_units,
            r.target_hz,
        )
    } else {
        c
    }
}

/// The shared state after the first `n` steps of `init`.
pub open spec fn common_after_steps(c: ImuCommon, n: nat, r: InitRequest) -> ImuCommon
    decreases n,
{
    if n == 0 {
        c
    } else {
        step_common(common_after_steps(c, (n - 1) as nat, r), (n - 1) as usize, r)
    }
}

impl<B> Mpu6050<B> {
    pub const DEVICE_ID: u8 = 0x68;

    /// Constructor.
    pub fn new(bus: B, axis_order: ImuAxisOrder) -> (r: Self)
        ensures
            r.bus == bus,
            r.common == spec_common_new(axis_order),
            r.config == (ImuDeviceConfig {
                gyro_id_msp: ImuDeviceConfig::MSP_GYRO_ID_MPU6050,
                acc_id_msp: ImuDeviceConfig::MSP_ACC_ID_MPU6050,
                axis_order,
                device_id: 0x68,
                address: I2C_ADDRESS,
                flags: 0,
            }),
    {
        Self {
            bus,
            common: ImuCommon::new(axis_order),
            config: ImuDeviceConfig {
                gyro_id_msp: ImuDeviceConfig::MSP_GYRO_ID_MPU6050,
                acc_id_msp: ImuDeviceConfig::MSP_ACC_ID_MPU6050,
                axis_order,
                device_id: Self::DEVICE_ID,
                address: I2C_ADDRESS,
                flags: 0,
            },
        }
    }

    /// Sets the gyro scale and sample rate, and returns the range bits or-ed with
    /// the sample rate divider.
    pub fn calculate_gyro_scale_and_odr(
        &mut self,
        gyro_sensitivity: GyroFullScale,
        gyro_units: GyroUnits,
        target_output_data_rate_hz: u32,
    ) -> (r: u8)
        ensures
            r == gyro_range(gyro_sensitivity).1 | gyro_rate(target_output_data_rate_hz).1,
            gyro_config_full_scale_dps(gyro_range(gyro_sensitivity).1)
                == final(self).common.gyro_scale.full_scale_dps,
            gyro_rate(target_output_data_rate_hz).1 < 8 ==> gyro_config_full_scale_dps(r)
                == final(self).common.gyro_scale.full_scale_dps,
            final(self).common == gyro_configured(
                old(self).common,
                gyro_sensitivity,
                gyro_units,
                target_output_data_rate_hz,
            ),
            final(self).bus == old(self).bus,
            final(self).config == old(self).config,
    {
        proof {
            lemma_range_bits_encode_scale(
                gyro_sensitivity,
                AccFullScale::Max,
                target_output_data_rate_hz,
            );
        }
        let (scale_dps, gyro_register_value): (u32, u8) = match gyro_sensitivity {
            // full scale 125 not supported so use 250 instead.
            GyroFullScale::Scale125Dps | GyroFullScale::Scale250Dps => (250, GYRO_RANGE_250_DPS),
            GyroFullScale::Scale500Dps => (500, GYRO_RANGE_500_DPS),
            GyroFullScale::Scale1000Dps => (1000, GYRO_RANGE_1000_DPS),
            _ => (2000, GYRO_RANGE_2000_DPS),
        };
        self.common.gyro_scale = GyroScale {
            full_scale_dps: scale_dps,
            counts: 32768,
            units: gyro_units,
        };

        let t = target_output_data_rate_hz;
        let (gyro_sample_rate_hz, gyro_odr): (u32, u8) = if 2001 <= t && t <= 4000 {
            (4000, 1)  // div by 2
        } else if 1001 <= t && t <= 2000 {
            (2000, 3)  // div by 4
        } else if 501 <= t && t <= 1000 {
            (1000, 7)  // div by 8
        } else if 251 <= t && t <= 500 {
            (500, 15)
        } else if 1 <= t && t <= 250 {
            (250, 31)  // 8000 / (31 + 1) = 250
        } else {
            (8000, 0)  // div by 1
        };
        self.common.gyro_sample_rate_hz = gyro_sample_rate_hz;

        gyro_register_value | gyro_odr
    }

    /// Sets the accelerometer scale and sample rate, and returns the range bits.
    pub fn calculate_acc_scale_and_odr(
        &mut self,
        acc_sensitivity: AccFullScale,
        acc_units: AccUnits,
        target_output_data_rate_hz: u32,
    ) -> (r: u8)
        ensures
            r == acc_range(acc_sensitivity).1,
            accel_config_full_scale_g(r) == final(self).common.acc_scale.full_scale_g,
            final(self).common == acc_configured(
                old(self).common,
                acc_sensitivity,
                acc_units,
                target_output_data_rate_hz,
            ),
            final(self).bus == old(self).bus,
            final(self).config == old(self).config,
    {
        proof {
            lemma_range_bits_encode_scale(
                GyroFullScale::Max,
                acc_sensitivity,
                target_output_data_rate_hz,
            );
        }
        self.common.acc_sample_rate_hz = 1000;
        let (scale, acc_register_value): (u32, u8) = match acc_sensitivity {
            AccFullScale::Scale2G => (2, ACCEL_RANGE_2G),
            AccFullScale::Scale4G => (4, ACCEL_RANGE_4G),
            AccFullScale::Scale8G => (8, ACCEL_RANGE_8G),
            _ => (16, ACCEL_RANGE_16G),
        };
        self.common.acc_scale = AccScale { full_scale_g: scale, counts: 32768, units: acc_units };

        let t = target_output_data_rate_hz;
        let (acc_sample_rate_hz, acc_odr): (u32, u8) = if 251 <= t && t <= 500 {
            (500, 0)
        } else if 1 <= t && t <= 250 {
            (250, 0)
        } else {
            (1000, 0)
        };
        self.common.acc_sample_rate_hz = acc_sample_rate_hz;

        assert(acc_register_value | acc_odr == acc_register_value) by (bit_vector)
            requires
                acc_odr == 0,
        ;
        acc_register_value | acc_odr
    }

    /// `outcome` is the outcome of the previous operation (`Ok` before the first).
    /// A failure ends initialisation with its error. Otherwise this is step `step`
    /// of `init`: its operation, or, when there is none, the end of initialisation
    /// with the gyro and accelerometer sample rates actually set.
    pub fn init_next<E>(
        &mut self,
        step: usize,
        outcome: Result<(), E>,
        target_output_data_rate_hz: u32,
        gyro_sensitivity: GyroFullScale,
        gyro_units: GyroUnits,
        acc_sensitivity: AccFullScale,
        acc_units: AccUnits,
    ) -> (r: InitProgress<E>)
        ensures
            outcome matches Err(e) ==> r == InitProgress::<E>::Done(Err(e)) && *final(self)
                == *old(self),
            outcome is Ok ==> {
                &&& final(self).common == step_common(
                    old(self).common,
                    step,
                    (InitRequest {
                        target_hz: target_output_data_rate_hz,
                        gyro_sensitivity,
                        gyro_units,
                        acc_sensitivity,
                        acc_units,
                    }),
                )
                &&& final(self).bus == old(self).bus
                &&& final(self).config == old(self).config
                &&& r == (match planned_op(
                    old(self).config.address,
                    step,
                    (InitRequest {
                        target_hz: target_output_data_rate_hz,
                        gyro_sensitivity,
                        gyro_units,
                        acc_sensitivity,
                        acc_units,
                    }),
                ) {
                    Some(op) => InitProgress::<E>::Perform(op),
                    None => InitProgress::<E>::Done(
                        Ok(
                            (
                                final(self).common.gyro_sample_rate_hz,
                                final(self).common.acc_sample_rate_hz,
                            ),
                        ),
                    ),
                })
            },
    {
        if let Err(e) = outcome {
            return InitProgress::Done(Err(e));
        }
        match self.init_step(
            step,
            target_output_data_rate_hz,
            gyro_sensitivity,
            gyro_units,
            acc_sensitivity,
            acc_units,
        ) {
            Some(op) => InitProgress::Perform(op),
            None => InitProgress::Done(
                Ok((self.common.gyro_sample_rate_hz, self.common.acc_sample_rate_hz)),
            ),
        }
    }

    /// Step `step` of `init`: the bus operation to perform next, or `None` when
    /// initialisation is complete. Both sensors are configured at the step that
    /// completes it.
    pub fn init_step(
        &mut self,
        step: usize,
        target_output_data_rate_hz: u32,
        gyro_sensitivity: GyroFullScale,
        gyro_units: GyroUnits,
        acc_sensitivity: AccFullScale,
        acc_units: AccUnits,
    ) -> (op: Option<InitOp>)
        ensures
            op == init_op(old(self).config.address, step),
            final(self).common == step_common(
                old(self).common,
                step,
                (InitRequest {
                    target_hz: target_output_data_rate_hz,
                    gyro_sensitivity,
                    gyro_units,
                    acc_sensitivity,
                    acc_units,
                }),
            ),
            final(self).bus == old(self).bus,
            final(self).config == old(self).config,
    {
        let address = self.config.address;
        match step {
            0 => write_op(address, REG_PWR_MGMT_1, CLKSEL_PLL_Z_AXIS_GYRO),
            1 => delay_op(15),
            2 => write_op(address, REG_PWR_MGMT_2, 0x00),
            3 => delay_op(15),
            4 => write_op(
                address,
                REG_INT_PIN_CONFIG,
                INT_LEVEL_ACTIVE_HIGH | INT_PUSH_PULL | INT_ENABLE_PULSE | INT_CLEAR_READ_ANY
                    | FSYNCH_INT_DISABLE,
            ),
            5 => delay_op(15),
            6 => write_op(address, REG_INT_ENABLE, DATA_READY_ENABLE),
            7 => delay_op(15),
            8 => {
                // The register values are computed but not written to the device.
                let _gyro_register_value = self.calculate_gyro_scale_and_odr(
                    gyro_sensitivity,
                    gyro_units,
                    target_output_data_rate_hz,
                );
                let _acc_register_value = self.calculate_acc_scale_and_odr(
                    acc_sensitivity,
                    acc_units,
                    target_output_data_rate_hz,
                );
                None
            },
            _ => None,
        }
    }

    /// Where the samples are: accelerometer from ACCEL_XOUT_H, gyro from
    /// GYRO_XOUT_H; a combined read takes 14 bytes from GYRO_XOUT_H and uses bytes
    /// 0..6 as the accelerometer and 8..14 as the gyro. Values are big-endian.
    pub fn sample_layout() -> (r: SampleLayout)
        ensures
            r == (SampleLayout {
                acc_register: REG_ACCEL_XOUT_H,
                gyro_register: REG_GYRO_XOUT_H,
                burst_register: REG_GYRO_XOUT_H,
                burst_len: 14,
                acc_at: 0,
                gyro_at: 8,
                big_endian: true,
            }),
            r.wf(),
    {
        SampleLayout {
            acc_register: REG_ACCEL_XOUT_H,
            gyro_register: REG_GYRO_XOUT_H,
            burst_register: REG_GYRO_XOUT_H,
            burst_len: 14,
            acc_at: 0,
            gyro_at: 8,
            big_endian: true,
        }
    }
}

/// The gyro output data rate is the 8 kHz internal rate divided by one plus the
/// sample rate divider, for every target.
pub proof fn lemma_gyro_rate_matches_divider(target_hz: u32)
    ensures
        gyro_rate(target_hz).0 * (1 + gyro_rate(target_hz).1) == 8000,
{
}

/// The gyro output data rate is the smallest offered rate at or above the target,
/// for every target from 1 Hz to 8000 Hz.
pub proof fn lemma_gyro_rate_rounds_up(target_hz: u32)
    requires
        1 <= target_hz <= 8000,
    ensures
        is_gyro_rate(gyro_rate(target_hz).0),
        gyro_rate(target_hz).0 >= target_hz,
        forall|rate_hz: u32|
            #[trigger] is_gyro_rate(rate_hz) && rate_hz >= target_hz ==> gyro_rate(target_hz).0
                <= rate_hz,
{
}

/// The accelerometer output data rate is the smallest offered rate at or above the
/// target, for every target from 1 Hz to 1000 Hz.
pub proof fn lemma_acc_rate_rounds_up(target_hz: u32)
    requires
        1 <= target_hz <= 1000,
    ensures
        is_acc_rate(acc_rate(target_hz)),
        acc_rate(target_hz) >= target_hz,
        forall|rate_hz: u32|
            #[trigger] is_acc_rate(rate_hz) && rate_hz >= target_hz ==> acc_rate(target_hz)
                <= rate_hz,
{
}

/// `init` performs exactly the bus operations of steps `0..INIT_STEPS`; every later
/// step reports completion.
pub proof fn lemma_init_steps(address: u8, step: usize)
    ensures
        step < INIT_STEPS <==> init_op(address, step) is Some,
{
}

/// A complete `init`, whose last step configures the gyro and then the
/// accelerometer: afterwards both scales and both sample rates are those chosen for
/// the request.
pub proof fn lemma_init_configures(c: ImuCommon, r: InitRequest)
    ensures
        common_after_steps(c, (CONFIGURE_STEP + 1) as nat, r) == acc_configured(
            gyro_configured(c, r.gyro_sensitivity, r.gyro_units, r.target_hz),
            r.acc_sensitivity,
            r.acc_units,
            r.target_hz,
        ),
{
    lemma_common_after_steps(c, (CONFIGURE_STEP + 1) as nat, r);
}

proof fn lemma_common_after_steps(c: ImuCommon, n: nat, r: InitRequest)
    requires
        n <= (CONFIGURE_STEP + 1),
    ensures
        common_after_steps(c, n, r) == (if n <= CONFIGURE_STEP {
            c
        } else {
            acc_configured(
                gyro_configured(c, r.gyro_sensitivity, r.gyro_units, r.target_hz),
                r.acc_sensitivity,
                r.acc_units,
                r.target_hz,
            )
        }),
    decreases n,
{
    if n > 0 {
        lemma_common_after_steps(c, (n - 1) as nat, r);
    }
}

/// The range bits chosen program the full scale that the stored scale assumes; the
/// value returned for the gyro, the range bits or-ed with the sample rate divider,
/// still programs it when the divider is below 8 (rates of 1000 Hz and up; a larger
/// divider overlaps the range field). The full scale is the one requested whenever
/// the device offers it, 250 dps for a request of 125 dps, and the largest for
/// `Max`.
pub proof fn lemma_range_bits_encode_scale(
    gyro_sensitivity: GyroFullScale,
    acc_sensitivity: AccFullScale,
    target_hz: u32,
)
    ensures
        gyro_config_full_scale_dps(gyro_range(gyro_sensitivity).1) == gyro_range(
            gyro_sensitivity,
        ).0,
        gyro_rate(target_hz).1 < 8 ==> gyro_config_full_scale_dps(
            gyro_range(gyro_sensitivity).1 | gyro_rate(target_hz).1,
        ) == gyro_range(gyro_sensitivity).0,
        is_gyro_full_scale(gyro_range(gyro_sensitivity).0),
        requested_dps(gyro_sensitivity) matches Some(dps) ==> (is_gyro_full_scale(dps)
            ==> gyro_range(gyro_sensitivity).0 == dps),
        gyro_sensitivity == GyroFullScale::Scale125Dps ==> gyro_range(gyro_sensitivity).0 == 250,
        requested_dps(gyro_sensitivity) is None ==> gyro_range(gyro_sensitivity).0 == 2000,
        accel_config_full_scale_g(acc_range(acc_sensitivity).1) == acc_range(acc_sensitivity).0,
        requested_g(acc_sensitivity) matches Some(g) ==> acc_range(acc_sensitivity).0 == g,
        requested_g(acc_sensitivity) is None ==> acc_range(acc_sensitivity).0 == 16,
{
    reveal_with_fuel(doubled, 4);
    lemma_low_three_bits(gyro_range(gyro_sensitivity).1, gyro_rate(target_hz).1 % 8);
}

} // verus!

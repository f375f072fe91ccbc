use vstd::prelude::*;

use crate::axis::ImuAxisOrder;
use crate::imu_common::{
    doubled, requested_dps, requested_g,
    InitProgress,
    InitRequest,
    delay_op, lemma_nibbles, spec_common_new, spec_delay_op, spec_write_op, write_op,
    AccFullScale, AccScale, AccUnits, GyroFullScale, GyroScale, GyroUnits, ImuCommon, InitOp,
    SampleLayout,
};
use crate::imu_device_config::ImuDeviceConfig;

verus! {

pub const I2C_ADDRESS: u8 = 0x6A;

// **** IMU Registers and associated bitflags ****
pub const REG_RESET: u8 = 0x60;
pub const REG_CTRL1: u8 = 0x02;
pub const REG_CTRL2: u8 = 0x03;
pub const REG_CTRL3: u8 = 0x04;
pub const REG_CTRL7: u8 = 0x08;
pub const REG_AX_L: u8 = 0x35;
pub const REG_GX_L: u8 = 0x3B;

// CTRL1
/// Auto increment, required for burst mode reading, ie for ACC an GYRO registers.
pub const ADDRESS_AUTO_INCREMENT: u8 = 0b_0100_0000;
/// Data ready (DRDY) is signalled on the INT2 pin.
pub const INT2_ENABLE: u8 = 0b_0000_1000;
// CTRL7
pub const GYRO_ENABLE: u8 = 0b_0000_0010;
pub const ACC_ENABLE: u8 = 0b_0000_0001;

pub const GYRO_RANGE_2048_DPS: u8 = 0b_0110_0000;
pub const GYRO_RANGE_1024_DPS: u8 = 0b_0110_0000;
pub const GYRO_RANGE_512_DPS: u8 = 0b_0101_0000;
pub const GYRO_RANGE_256_DPS: u8 = 0b_0100_0000;
pub const GYRO_RANGE_128_DPS: u8 = 0b_0011_0000;

pub const ACCEL_RANGE_16G: u8 = 0b_0011_0000;
pub const ACCEL_RANGE_8G: u8 = 0b_0010_0000;
pub const ACCEL_RANGE_4G: u8 = 0b_0001_0000;
pub const ACCEL_RANGE_2G: u8 = 0b_0000_0000;

// The gyro and accelerometer output data rate codes are the same.
pub const ODR_7172_P_4_HZ: u8 = 0b_0000_0000;
pub const ODR_3587_P_2_HZ: u8 = 0b_0000_0001;
pub const ODR_1793_P_6_HZ: u8 = 0b_0000_0010;
pub const ODR_896_P_8_HZ: u8 = 0b_0000_0011;
pub const ODR_448_P_4_HZ: u8 = 0b_0000_0100;
pub const ODR_224_P_2_HZ: u8 = 0b_0000_0101;
pub const ODR_112_P_1_HZ: u8 = 0b_0000_0110;
pub const ODR_56_P_05_HZ: u8 = 0b_0000_0111;
pub const ODR_28_P_025_HZ: u8 = 0b_0000_1000;
// **** IMU Registers and associated bitflags ****

/// Driver for the QST QMI8658A.
#[derive(Debug, PartialEq)]
pub struct Qmi8658a<B> {
    pub bus: B,
    pub common: ImuCommon,
    pub config: ImuDeviceConfig,
}

/// Gyro full scale in degrees per second and the CTRL3 range bits.
pub open spec fn gyro_range(gyro_sensitivity: GyroFullScale) -> (u32, u8) {
    match gyro_sensitivity {
        GyroFullScale::Scale125Dps => (128, GYRO_RANGE_128_DPS),
        GyroFullScale::Scale250Dps => (256, GYRO_RANGE_256_DPS),
        GyroFullScale::Scale500Dps => (512, GYRO_RANGE_512_DPS),
        GyroFullScale::Scale1000Dps => (1024, GYRO_RANGE_1024_DPS),
        _ => (2048, GYRO_RANGE_2048_DPS),
    }
}

/// Acc full scale in g and the CTRL2 range bits; `Max` selects 16 g.
pub open spec fn acc_range(acc_sensitivity: AccFullScale) -> (u32, u8) {
    match acc_sensitivity {
        AccFullScale::Scale2G => (2, ACCEL_RANGE_2G),
        AccFullScale::Scale4G => (4, ACCEL_RANGE_4G),
        AccFullScale::Scale8G => (8, ACCEL_RANGE_8G),
        _ => (16, ACCEL_RANGE_16G),
    }
}

/// Output data rate (rounded down to whole hertz) and its code for a target rate,
/// the same for both sensors; targets of 0 and above 3587 Hz select 7172 Hz.
pub open spec fn odr(target_hz: u32) -> (u32, u8) {
    if 1794 <= target_hz <= 3587 {
        (3587, ODR_3587_P_2_HZ)
    } else if 897 <= target_hz <= 1793 {
        (1793, ODR_1793_P_6_HZ)
    } else if 449 <= target_hz <= 896 {
        (896, ODR_896_P_8_HZ)
    } else if 225 <= target_hz <= 448 {
        (448, ODR_448_P_4_HZ)
    } else if 113 <= target_hz <= 224 {
        (224, ODR_224_P_2_HZ)
    } else if 57 <= target_hz <= 112 {
        (112, ODR_112_P_1_HZ)
    } else if 29 <= target_hz <= 56 {
        (56, ODR_56_P_05_HZ)
    } else if 1 <= target_hz <= 28 {
        (28, ODR_28_P_025_HZ)
    } else {
        (7172, ODR_7172_P_4_HZ)
    }
}

/// The output data rates the device offers, rounded down to whole hertz.
pub open spec fn is_rate(rate_hz: u32) -> bool {
    rate_hz == 28 || rate_hz == 56 || rate_hz == 112 || rate_hz == 224 || rate_hz == 448
        || rate_hz == 896 || rate_hz == 1793 || rate_hz == 3587 || rate_hz == 7172
}

/// The accelerometer full scale, in g, that a CTRL2 value programs: aFS, bits
/// 6:4, selects 2 g doubled aFS times.
pub open spec fn ctrl2_full_scale_g(reg: u8) -> int {
    doubled(2, ((reg / 16) % 8) as int)
}

/// The gyro full scale, in degrees per second, that a CTRL3 value programs: gFS,
/// bits 6:4, selects 16 dps doubled gFS times.
pub open spec fn ctrl3_full_scale_dps(reg: u8) -> int {
    doubled(16, ((reg / 16) % 8) as int)
}

/// The output data rate that an ODR code (bits 3:0 of CTRL2 and CTRL3) selects,
/// rounded down to whole hertz, for codes 1 to 8: 7174.4 Hz halved once per code.
pub open spec fn odr_code_rate(code: int) -> int {
    71744int / (10 * doubled(1, code))
}

/// The gyro full scales the device offers, in degrees per second.
pub open spec fn is_gyro_full_scale(dps: int) -> bool {
    dps == 16 || dps == 32 || dps == 64 || dps == 128 || dps == 256 || dps == 512 || dps == 1024
        || dps == 2048
}

/// The shared state once the gyro is configured: its scale and sample rate.
pub open spec fn gyro_configured(
    c: ImuCommon,
    gyro_sensitivity: GyroFullScale,
    gyro_units: GyroUnits,
    target_hz: u32,
) -> ImuCommon {
    ImuCommon {
        gyro_scale: GyroScale {
            full_scale_dps: gyro_range(gyro_sensitivity).0,
            counts: 32768,
            units: gyro_units,
        },
        gyro_sample_rate_hz: odr(target_hz).0,
        ..c
    }
}

/// The shared state once the accelerometer is configured: its scale and sample rate.
pub open spec fn acc_configured(
    c: ImuCommon,
    acc_sensitivity: AccFullScale,
    acc_units: AccUnits,
    target_hz: u32,
) -> ImuCommon {
    ImuCommon {
        acc_scale: AccScale {
            full_scale_g: acc_range(acc_sensitivity).0,
            counts: 32768,
            units: acc_units,
        },
        acc_sample_rate_hz: odr(target_hz).0,
        ..c
    }
}

/// Step `step` of `init`, for a device at `address`.
pub open spec fn init_op(address: u8, step: usize, acc_reg: u8, gyro_reg: u8) -> Option<InitOp> {
    match step {
        // soft RESET
        0 => spec_write_op(address, REG_RESET, 0x0b),
        // soft reset takes a maximum of 15ms
        1 => spec_delay_op(15),
        2 => spec_write_op(address, REG_CTRL1, ADDRESS_AUTO_INCREMENT | INT2_ENABLE),
        3 => spec_delay_op(1),
        4 => spec_write_op(address, REG_CTRL2, acc_reg),
        5 => spec_delay_op(1),
        6 => spec_write_op(address, REG_CTRL3, gyro_reg),
        7 => spec_delay_op(1),
        // REG_CTRL7, DRDY is enabled by default, sets INT2 pin high
        8 => spec_write_op(address, REG_CTRL7, GYRO_ENABLE | ACC_ENABLE),
        9 => spec_delay_op(1),
        _ => None,
    }
}

/// The step of `init` at which the accelerometer is configured.
pub const ACC_STEP: usize = 4;

/// The step of `init` at which the gyro is configured.
pub const GYRO_STEP: usize = 6;

/// Number of steps of `init`.
pub const INIT_STEPS: usize = 10;

/// Step `step` of `init` for a device at `address` and the request `r`.
pub open spec fn planned_op(address: u8, step: usize, r: InitRequest) -> Option<InitOp> {
    init_op(
        address,
        step,
        acc_range(r.acc_sensitivity).1 | odr(r.target_hz).1,
        gyro_range(r.gyro_sensitivity).1 | odr(r.target_hz).1,
    )
}

/// What step `step` of `init` does to the shared state.
pub open spec fn step_common(c: ImuCommon, step: usize, r: InitRequest) -> ImuCommon {
    if step == ACC_STEP {
        acc_configured(c, r.acc_sensitivity, r.acc_units, r.target_hz)
    } else if step == GYRO_STEP {
        gyro_configured(c, r.gyro_sensitivity, r.gyro_units, r.target_hz)
    } else {
        c
    }
}

/// The shared state after the first `n` steps of `init`.
pub open spec fn common_after_steps(c: ImuCommon, n: nat, r: InitRequest) -> ImuCommon
    decreases n,
{
    if n == 0 {
        c
    } else {
        step_common(common_after_steps(c, (n - 1) as nat, r), (n - 1) as usize, r)
    }
}

impl<B> Qmi8658a<B> {
    pub const MAX_SPI_FREQUENCY_HZ: u32 = 15_000_000;
    pub const DEVICE_ID: u8 = 0;

    /// Constructor.
    pub fn new(bus: B, axis_order: ImuAxisOrder) -> (r: Self)
        ensures
            r.bus == bus,
            r.common == spec_common_new(axis_order),
            r.config == (ImuDeviceConfig {
                gyro_id_msp: ImuDeviceConfig::MSP_GYRO_ID_DEFAULT,
                acc_id_msp: ImuDeviceConfig::MSP_ACC_ID_DEFAULT,
                axis_order,
                device_id: 0,
                address: I2C_ADDRESS,
                flags: 0,
            }),
    {
        Self {
            bus,
            common: ImuCommon::new(axis_order),
            config: ImuDeviceConfig {
                gyro_id_msp: ImuDeviceConfig::MSP_GYRO_ID_DEFAULT,
                acc_id_msp: ImuDeviceConfig::MSP_ACC_ID_DEFAULT,
                axis_order,
                device_id: Self::DEVICE_ID,
                address: I2C_ADDRESS,
                flags: 0,
            },
        }
    }

    /// Output data rate and its code for a target rate.
    fn output_data_rate(target_output_data_rate_hz: u32) -> (r: (u32, u8))
        ensures
            r == odr(target_output_data_rate_hz),
    {
        let t = target_output_data_rate_hz;
        if 1794 <= t && t <= 3587 {
            (3587, ODR_3587_P_2_HZ)
        } else if 897 <= t && t <= 1793 {
            (1793, ODR_1793_P_6_HZ)
        } else if 449 <= t && t <= 896 {
            (896, ODR_896_P_8_HZ)
        } else if 225 <= t && t <= 448 {
            (448, ODR_448_P_4_HZ)
        } else if 113 <= t && t <= 224 {
            (224, ODR_224_P_2_HZ)
        } else if 57 <= t && t <= 112 {
            (112, ODR_112_P_1_HZ)
        } else if 29 <= t && t <= 56 {
            (56, ODR_56_P_05_HZ)
        } else if 1 <= t && t <= 28 {
            (28, ODR_28_P_025_HZ)
        } else {
            (7172, ODR_7172_P_4_HZ)
        }
    }

    /// Sets the gyro scale and sample rate, and returns the CTRL3 value: range bits
    /// in the high nibble, output data rate code in the low nibble.
    pub fn calculate_gyro_scale_and_odr(
        &mut self,
        gyro_sensitivity: GyroFullScale,
        gyro_units: GyroUnits,
        target_output_data_rate_hz: u32,
    ) -> (r: u8)
        ensures
            r == gyro_range(gyro_sensitivity).1 | odr(target_output_data_rate_hz).1,
            gyro_sensitivity != GyroFullScale::Scale2000Dps && gyro_sensitivity
                != GyroFullScale::Max ==> ctrl3_full_scale_dps(r)
                == final(self).common.gyro_scale.full_scale_dps,
            1 <= target_output_data_rate_hz <= 3587 ==> odr_code_rate((r % 16) as int)
                == final(self).common.gyro_sample_rate_hz,
            final(self).common == gyro_configured(
                old(self).common,
                gyro_sensitivity,
                gyro_units,
                target_output_data_rate_hz,
            ),
            final(self).bus == old(self).bus,
            final(self).config == old(self).config,
    {
        proof {
            lemma_register_encodes_scale_and_rate(
                gyro_sensitivity,
                AccFullScale::Max,
                target_output_data_rate_hz,
            );
        }
        let (scale_dps, gyro_register_value): (u32, u8) = match gyro_sensitivity {
            GyroFullScale::Scale125Dps => (128, GYRO_RANGE_128_DPS),
            GyroFullScale::Scale250Dps => (256, GYRO_RANGE_256_DPS),
            GyroFullScale::Scale500Dps => (512, GYRO_RANGE_512_DPS),
            GyroFullScale::Scale1000Dps => (1024, GYRO_RANGE_1024_DPS),
            _ => (2048, GYRO_RANGE_2048_DPS),
        };
        self.common.gyro_scale = GyroScale {
            full_scale_dps: scale_dps,
            counts: 32768,
            units: gyro_units,
        };

        let (gyro_sample_rate_hz, gyro_odr) = Self::output_data_rate(target_output_data_rate_hz);
        self.common.gyro_sample_rate_hz = gyro_sample_rate_hz;

        gyro_register_value | gyro_odr
    }

    /// Sets the accelerometer scale and sample rate, and returns the CTRL2 value:
    /// range bits in the high nibble, output data rate code in the low nibble.
    pub fn calculate_acc_scale_and_odr(
        &mut self,
        acc_sensitivity: AccFullScale,
        acc_units: AccUnits,
        target_output_data_rate_hz: u32,
    ) -> (r: u8)
        ensures
            r == acc_range(acc_sensitivity).1 | odr(target_output_data_rate_hz).1,
            ctrl2_full_scale_g(r) == final(self).common.acc_scale.full_scale_g,
            1 <= target_output_data_rate_hz <= 3587 ==> odr_code_rate((r % 16) as int)
                == final(self).common.acc_sample_rate_hz,
            final(self).common == acc_configured(
                old(self).common,
                acc_sensitivity,
                acc_units,
                target_output_data_rate_hz,
            ),
            final(self).bus == old(self).bus,
            final(self).config == old(self).config,
    {
        proof {
            lemma_register_encodes_scale_and_rate(
                GyroFullScale::Max,
                acc_sensitivity,
                target_output_data_rate_hz,
            );
        }
        let (scale, acc_register_value): (u32, u8) = match acc_sensitivity {
            AccFullScale::Scale2G => (2, ACCEL_RANGE_2G),
            AccFullScale::Scale4G => (4, ACCEL_RANGE_4G),
            AccFullScale::Scale8G => (8, ACCEL_RANGE_8G),
            _ => {
                // default includes  AccFullScale::Scale16G
                (16, ACCEL_RANGE_16G)
            },
        };
        self.common.acc_scale = AccScale { full_scale_g: scale, counts: 32768, units: acc_units };

        let (acc_sample_rate_hz, acc_odr) = Self::output_data_rate(target_output_data_rate_hz);
        self.common.acc_sample_rate_hz = acc_sample_rate_hz;

        acc_register_value | acc_odr
    }

    /// `outcome` is the outcome of the previous operation (`Ok` before the first).
    /// A failure ends initialisation with its error. Otherwise this is step `step`
    /// of `init`: its operation, or, when there is none, the end of initialisation
    /// with the gyro and accelerometer sample rates actually set.
    pub fn init_next<E>(
        &mut self,
        step: usize,
        outcome: Result<(), E>,
        target_output_data_rate_hz: u32,
        gyro_sensitivity: GyroFullScale,
        gyro_units: GyroUnits,
        acc_sensitivity: AccFullScale,
        acc_units: AccUnits,
    ) -> (r: InitProgress<E>)
        ensures
            outcome matches Err(e) ==> r == InitProgress::<E>::Done(Err(e)) && *final(self)
                == *old(self),
            outcome is Ok ==> {
                &&& final(self).common == step_common(
                    old(self).common,
                    step,
                    (InitRequest {
                        target_hz: target_output_data_rate_hz,
                        gyro_sensitivity,
                        gyro_units,
                        acc_sensitivity,
                        acc_units,
                    }),
                )
                &&& final(self).bus == old(self).bus
                &&& final(self).config == old(self).config
                &&& r == (match planned_op(
                    old(self).config.address,
                    step,
                    (InitRequest {
                        target_hz: target_output_data_rate_hz,
                        gyro_sensitivity,
                        gyro_units,
                        acc_sensitivity,
                        acc_units,
                    }),
                ) {
                    Some(op) => InitProgress::<E>::Perform(op),
                    None => InitProgress::<E>::Done(
                        Ok(
                            (
                                final(self).common.gyro_sample_rate_hz,
                                final(self).common.acc_sample_rate_hz,
                            ),
                        ),
                    ),
                })
            },
    {
        if let Err(e) = outcome {
            return InitProgress::Done(Err(e));
        }
        match self.init_step(
            step,
            target_output_data_rate_hz,
            gyro_sensitivity,
            gyro_units,
            acc_sensitivity,
            acc_units,
        ) {
            Some(op) => InitProgress::Perform(op),
            None => InitProgress::Done(
                Ok((self.common.gyro_sample_rate_hz, self.common.acc_sample_rate_hz)),
            ),
        }
    }

    /// Step `step` of `init`: the bus operation to perform next, or `None` when
    /// initialisation is complete. The accelerometer and the gyro are configured at
    /// the step that writes their control register.
    pub fn init_step(
        &mut self,
        step: usize,
        target_output_data_rate_hz: u32,
        gyro_sensitivity: GyroFullScale,
        gyro_units: GyroUnits,
        acc_sensitivity: AccFullScale,
        acc_units: AccUnits,
    ) -> (op: Option<InitOp>)
        ensures
            op == init_op(
                old(self).config.address,
                step,
                acc_range(acc_sensitivity).1 | odr(target_output_data_rate_hz).1,
                gyro_range(gyro_sensitivity).1 | odr(target_output_data_rate_hz).1,
            ),
            final(self).common == step_common(
                old(self).common,
                step,
                (InitRequest {
                    target_hz: target_output_data_rate_hz,
                    gyro_sensitivity,
                    gyro_units,
                    acc_sensitivity,
                    acc_units,
                }),
            ),
            final(self).bus == old(self).bus,
            final(self).config == old(self).config,
    {
        let address = self.config.address;
        match step {
            0 => write_op(address, REG_RESET, 0x0b),
            1 => delay_op(15),
            2 => write_op(address, REG_CTRL1, ADDRESS_AUTO_INCREMENT | INT2_ENABLE),
            3 => delay_op(1),
            4 => {
                let acc_register_value = self.calculate_acc_scale_and_odr(
                    acc_sensitivity,
                    acc_units,
                    target_output_data_rate_hz,
                );
                write_op(address, REG_CTRL2, acc_register_value)
            },
            5 => delay_op(1),
            6 => {
                let gyro_register_value = self.calculate_gyro_scale_and_odr(
                    gyro_sensitivity,
                    gyro_units,
                    target_output_data_rate_hz,
                );
                write_op(address, REG_CTRL3, gyro_register_value)
            },
            7 => delay_op(1),
            8 => write_op(address, REG_CTRL7, GYRO_ENABLE | ACC_ENABLE),
            9 => delay_op(1),
            _ => None,
        }
    }

    /// Where the samples are: accelerometer from AX_L, gyro from GX_L; a combined
    /// read of 12 bytes from AX_L holds the accelerometer and then the gyro. Values
    /// are decoded little-endian.
    pub fn sample_layout() -> (r: SampleLayout)
        ensures
            r == (SampleLayout {
                acc_register: REG_AX_L,
                gyro_register: REG_GX_L,
                burst_register: REG_AX_L,
                burst_len: 12,
                acc_at: 0,
                gyro_at: 6,
                big_endian: false,
            }),
            r.wf(),
    {
        SampleLayout {
            acc_register: REG_AX_L,
            gyro_register: REG_GX_L,
            burst_register: REG_AX_L,
            burst_len: 12,
            acc_at: 0,
            gyro_at: 6,
            big_endian: false,
        }
    }
}

/// The output data rate is the smallest offered rate at or above the target, for
/// every target from 1 Hz to 7172 Hz.
pub proof fn lemma_odr_rounds_up(target_hz: u32)
    requires
        1 <= target_hz <= 7172,
    ensures
        is_rate(odr(target_hz).0),
        odr(target_hz).0 >= target_hz,
        forall|rate_hz: u32|
            #[trigger] is_rate(rate_hz) && rate_hz >= target_hz ==> odr(target_hz).0 <= rate_hz,
{
}

/// The control register values keep the two fields apart: the high nibble is the
/// range and the low nibble the output data rate code.
pub proof fn lemma_register_fields(
    gyro_sensitivity: GyroFullScale,
    acc_sensitivity: AccFullScale,
    target_hz: u32,
)
    ensures
        (gyro_range(gyro_sensitivity).1 | odr(target_hz).1) & 0xF0 == gyro_range(
            gyro_sensitivity,
        ).1,
        (gyro_range(gyro_sensitivity).1 | odr(target_hz).1) & 0x0F == odr(target_hz).1,
        (acc_range(acc_sensitivity).1 | odr(target_hz).1) & 0xF0 == acc_range(acc_sensitivity).1,
        (acc_range(acc_sensitivity).1 | odr(target_hz).1) & 0x0F == odr(target_hz).1,
{
    lemma_nibbles(odr(target_hz).1, gyro_range(gyro_sensitivity).1);
    lemma_nibbles(odr(target_hz).1, acc_range(acc_sensitivity).1);
}

/// `init` is exactly the steps `0..INIT_STEPS`: each of them is an operation and
/// every later step reports completion.
pub proof fn lemma_init_steps(address: u8, acc_reg: u8, gyro_reg: u8, step: usize)
    ensures
        step < INIT_STEPS <==> init_op(address, step, acc_reg, gyro_reg) is Some,
{
}

/// A complete `init` configures the accelerometer and then the gyro: afterwards
/// both scales and both sample rates are those chosen for the request.
pub proof fn lemma_init_configures(c: ImuCommon, r: InitRequest)
    ensures
        common_after_steps(c, INIT_STEPS as nat, r) == gyro_configured(
            acc_configured(c, r.acc_sensitivity, r.acc_units, r.target_hz),
            r.gyro_sensitivity,
            r.gyro_units,
            r.target_hz,
        ),
{
    lemma_common_after_steps(c, INIT_STEPS as nat, r);
}

proof fn lemma_common_after_steps(c: ImuCommon, n: nat, r: InitRequest)
    requires
        n <= INIT_STEPS,
    ensures
        common_after_steps(c, n, r) == (if n <= ACC_STEP {
            c
        } else if n <= GYRO_STEP {
            acc_configured(c, r.acc_sensitivity, r.acc_units, r.target_hz)
        } else {
            gyro_configured(
                acc_configured(c, r.acc_sensitivity, r.acc_units, r.target_hz),
                r.gyro_sensitivity,
                r.gyro_units,
                r.target_hz,
            )
        }),
    decreases n,
{
    if n > 0 {
        lemma_common_after_steps(c, (n - 1) as nat, r);
    }
}

/// The control register values program what the stored state assumes: the range
/// bits encode the stored full scale (for the gyro, except on requests for 2000 dps
/// or `Max`, whose range bits are those of 1024 dps while the scale is that of 2048
/// dps), and for targets from 1 Hz to 3587 Hz the rate code encodes the stored
/// sample rate. The accelerometer full scale is the one requested, or 16 g for
/// `Max`; the gyro full scale is the smallest offered at or above the request, or
/// 2048 dps for `Max`.
pub proof fn lemma_register_encodes_scale_and_rate(
    gyro_sensitivity: GyroFullScale,
    acc_sensitivity: AccFullScale,
    target_hz: u32,
)
    ensures
        gyro_sensitivity != GyroFullScale::Scale2000Dps && gyro_sensitivity
            != GyroFullScale::Max ==> ctrl3_full_scale_dps(
            gyro_range(gyro_sensitivity).1 | odr(target_hz).1,
        ) == gyro_range(gyro_sensitivity).0,
        ctrl2_full_scale_g(acc_range(acc_sensitivity).1 | odr(target_hz).1) == acc_range(
            acc_sensitivity,
        ).0,
        1 <= target_hz <= 3587 ==> odr_code_rate(
            ((gyro_range(gyro_sensitivity).1 | odr(target_hz).1) % 16) as int,
        ) == odr(target_hz).0,
        1 <= target_hz <= 3587 ==> odr_code_rate(
            ((acc_range(acc_sensitivity).1 | odr(target_hz).1) % 16) as int,
        ) == odr(target_hz).0,
        is_gyro_full_scale(gyro_range(gyro_sensitivity).0 as int),
        requested_dps(gyro_sensitivity) matches Some(dps) ==> gyro_range(gyro_sensitivity).0
            >= dps,
        requested_dps(gyro_sensitivity) matches Some(dps) ==> forall|f: int|
            #[trigger] is_gyro_full_scale(f) && f >= dps ==> gyro_range(gyro_sensitivity).0 <= f,
        requested_dps(gyro_sensitivity) is None ==> gyro_range(gyro_sensitivity).0 == 2048,
        requested_g(acc_sensitivity) matches Some(g) ==> acc_range(acc_sensitivity).0 == g,
        requested_g(acc_sensitivity) is None ==> acc_range(acc_sensitivity).0 == 16,
{
    reveal_with_fuel(doubled, 9);
    assert(odr_code_rate(1) == 3587) by {
        assert(10 * doubled(1, 1) == 20);
    }
    assert(odr_code_rate(2) == 1793) by {
        assert(10 * doubled(1, 2) == 40);
    }
    assert(odr_code_rate(3) == 896) by {
        assert(10 * doubled(1, 3) == 80);
    }
    assert(odr_code_rate(4) == 448) by {
        assert(10 * doubled(1, 4) == 160);
    }
    assert(odr_code_rate(5) == 224) by {
        assert(10 * doubled(1, 5) == 320);
    }
    assert(odr_code_rate(6) == 112) by {
        assert(10 * doubled(1, 6) == 640);
    }
    assert(odr_code_rate(7) == 56) by {
        assert(10 * doubled(1, 7) == 1280);
    }
    assert(odr_code_rate(8) == 28) by {
        assert(10 * doubled(1, 8) == 2560);
    }
    lemma_nibbles(odr(target_hz).1, gyro_range(gyro_sensitivity).1);
    lemma_nibbles(odr(target_hz).1, acc_range(acc_sensitivity).1);
}

} // verus!

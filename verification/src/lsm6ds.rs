use vstd::prelude::*;

use crate::axis::ImuAxisOrder;
use crate::imu_common::{
    doubled, requested_dps, requested_g,
    InitProgress,
    InitRequest,
    delay_op, lemma_nibbles, spec_common_new, spec_delay_op, spec_write_op, write_op,
    AccFullScale, AccScale,
    AccUnits, GyroFullScale, GyroScale, GyroUnits, ImuCommon, InitOp, SampleLayout,
};
use crate::imu_device_config::ImuDeviceConfig;

verus! {

pub const I2C_ADDRESS: u8 = 0x6A;

// **** IMU Registers and associated bitflags ****
pub const REG_DATA_READY_PULSE_CONFIG: u8 = 0x0B;
pub const DATA_READY_PULSED: u8 = 0b_1000_0000;
pub const REG_INT1_CTRL: u8 = 0x0D;
pub const INT1_DRDY_G: u8 = 0b_0000_0010;
pub const REG_INT2_CTRL: u8 = 0x0E;
pub const INT2_DRDY_G: u8 = 0b_0000_0010;
pub const REG_CTRL1_XL: u8 = 0x10;
pub const REG_CTRL2_G: u8 = 0x11;
pub const REG_CTRL3_C: u8 = 0x12;
pub const BDU: u8 = 0b_0100_0000;
pub const IF_INC: u8 = 0b_0000_0100;
pub const SW_RESET: u8 = 0b_0000_0001;
pub const REG_OUTX_L_G: u8 = 0x22;
pub const REG_WHO_AM_I: u8 = 0x0F;
pub const REG_WHO_AM_I_RESPONSE_LSM6DS3TR_C: u8 = 0x6A;
pub const REG_WHO_AM_I_RESPONSE_ISM330DHCX: u8 = 0x6B;
pub const REG_WHO_AM_I_RESPONSE_LSM6DSOX: u8 = 0x6C;
pub const REG_OUTX_L_ACC: u8 = 0x28;

pub const GYRO_RANGE_125_DPS: u8 = 0b_0010;
pub const GYRO_RANGE_500_DPS: u8 = 0b_0100;
pub const GYRO_RANGE_1000_DPS: u8 = 0b_1000;
pub const GYRO_RANGE_2000_DPS: u8 = 0b_1100;

pub const ACC_RANGE_2G: u8 = 0b_0000;
pub const ACC_RANGE_4G: u8 = 0b_1000;
pub const ACC_RANGE_8G: u8 = 0b_1100;
pub const ACC_RANGE_16G: u8 = 0b_0100;

// The gyro and accelerometer output data rate codes are the same.
pub const ODR_12P5_HZ: u8 = 0b_0001_0000;
pub const ODR_26_HZ: u8 = 0b_0010_0000;
pub const ODR_52_HZ: u8 = 0b_0011_0000;
pub const ODR_104_HZ: u8 = 0b_0100_0000;
pub const ODR_208_HZ: u8 = 0b_0101_0000;
pub const ODR_416_HZ: u8 = 0b_0110_0000;
pub const ODR_833_HZ: u8 = 0b_0111_0000;
pub const ODR_1666_HZ: u8 = 0b_1000_0000;
pub const ODR_3332_HZ: u8 = 0b_1001_0000;
pub const ODR_6664_HZ: u8 = 0b_1010_0000;
// **** IMU Registers and associated bitflags ****

/// Driver for the ST LSM6DS3TR-C, ISM330DHCX and LSM6DSOX.
#[derive(Debug, PartialEq)]
pub struct Lsm6ds<B> {
    pub bus: B,
    pub common: ImuCommon,
    pub config: ImuDeviceConfig,
}

/// Gyro full scale in degrees per second and the CTRL2_G range bits; 125 and 250
/// dps both select the 245 dps range.
pub open spec fn gyro_range(gyro_sensitivity: GyroFullScale) -> (u32, u8) {
    match gyro_sensitivity {
        GyroFullScale::Scale125Dps | GyroFullScale::Scale250Dps => (245, GYRO_RANGE_125_DPS),
        GyroFullScale::Scale500Dps => (500, GYRO_RANGE_500_DPS),
        GyroFullScale::Scale1000Dps => (1000, GYRO_RANGE_1000_DPS),
        _ => (2000, GYRO_RANGE_2000_DPS),
    }
}

/// Acc full scale in g and the CTRL1_XL range bits; `Max` selects 16 g.
pub open spec fn acc_range(acc_sensitivity: AccFullScale) -> (u32, u8) {
    match acc_sensitivity {
        AccFullScale::Scale2G => (2, ACC_RANGE_2G),
        AccFullScale::Scale4G => (4, ACC_RANGE_4G),
        AccFullScale::Scale8G => (8, ACC_RANGE_8G),
        _ => (16, ACC_RANGE_16G),
    }
}

/// Output data rate and its code for a target rate, the same for both sensors;
/// targets of 0 and above 3332 Hz select 6664 Hz.
pub open spec fn odr(target_hz: u32) -> (u32, u8) {
    if 1667 <= target_hz <= 3332 {
        (3332, ODR_3332_HZ)
    } else if 834 <= target_hz <= 1666 {
        (1666, ODR_1666_HZ)
    } else if 417 <= target_hz <= 833 {
        (833, ODR_833_HZ)
    } else if 209 <= target_hz <= 416 {
        (416, ODR_416_HZ)
    } else if 105 <= target_hz <= 208 {
        (208, ODR_208_HZ)
    } else if 53 <= target_hz <= 104 {
        (104, ODR_104_HZ)
    } else if 27 <= target_hz <= 52 {
        (52, ODR_52_HZ)
    } else if 13 <= target_hz <= 26 {
        (26, ODR_26_HZ)
    } else if 1 <= target_hz <= 12 {
        (12, ODR_12P5_HZ)
    } else {
        (6664, ODR_6664_HZ)
    }
}

/// The output data rates the device offers (12 stands for 12.5 Hz).
pub open spec fn is_rate(rate_hz: u32) -> bool {
    rate_hz == 12 || rate_hz == 26 || rate_hz == 52 || rate_hz == 104 || rate_hz == 208
        || rate_hz == 416 || rate_hz == 833 || rate_hz == 1666 || rate_hz == 3332 || rate_hz == 6664
}

/// The gyro full scale, in degrees per second, that a CTRL2_G value programs:
/// FS_125 (bit 1) selects 125 dps; otherwise FS_G (bits 3:2) selects 245 dps, or
/// 250 dps doubled FS_G times.
pub open spec fn ctrl2_g_full_scale_dps(reg: u8) -> int {
    if (reg / 2) % 2 == 1 {
        125
    } else if (reg / 4) % 4 == 0 {
        245
    } else {
        doubled(250, ((reg / 4) % 4) as int)
    }
}

/// The accelerometer full scale, in g, that a CTRL1_XL value programs: FS_XL
/// (bits 3:2) selects 2 g (00), 16 g (01), 4 g (10) or 8 g (11).
pub open spec fn ctrl1_xl_full_scale_g(reg: u8) -> int {
    let fs = ((reg / 4) % 4) as int;
    if fs == 0 {
        2
    } else if fs == 1 {
        16
    } else {
        doubled(2, fs - 1)
    }
}

/// The output data rate (whole hertz) that an ODR code (bits 7:4 of CTRL1_XL and
/// CTRL2_G) selects: code 1 is 12.5 Hz, and codes 2 to 10 halve 6664 Hz once per
/// step below 10.
pub open spec fn odr_code_rate(code: int) -> int {
    if code == 1 {
        12
    } else if 2 <= code <= 10 {
        6664int / doubled(1, 10 - code)
    } else {
        0
    }
}

/// The shared state once the gyro is configured: its scale and sample rate.
pub open spec fn gyro_configured(
    c: ImuCommon,
    gyro_sensitivity: GyroFullScale,
    gyro_units: GyroUnits,
    target_hz: u32,
) -> ImuCommon {
    ImuCommon {
        gyro_scale: GyroScale {
            full_scale_dps: gyro_range(gyro_sensitivity).0,
            counts: 32768,
            units: gyro_units,
        },
        gyro_sample_rate_hz: odr(target_hz).0,
        ..c
    }
}

/// The shared state once the accelerometer is configured: its scale and sample rate.
pub open spec fn acc_configured(
    c: ImuCommon,
    acc_sensitivity: AccFullScale,
    acc_units: AccUnits,
    target_hz: u32,
) -> ImuCommon {
    ImuCommon {
        acc_scale: AccScale {
            full_scale_g: acc_range(acc_sensitivity).0,
            counts: 32768,
            units: acc_units,
        },
        acc_sample_rate_hz: odr(target_hz).0,
        ..c
    }
}

/// Step `step` of `init`, for a device at `address`.
pub open spec fn init_op(address: u8, step: usize, gyro_reg: u8, acc_reg: u8) -> Option<InitOp> {
    match step {
        // Software reset
        0 => spec_write_op(address, REG_CTRL3_C, SW_RESET),
        // Set data ready pulsed
        1 => spec_write_op(address, REG_DATA_READY_PULSE_CONFIG, DATA_READY_PULSED),
        2 => spec_delay_op(1),
        // Enable gyro data ready on INT1 pin
        3 => spec_write_op(address, REG_INT1_CTRL, INT1_DRDY_G),
        4 => spec_delay_op(1),
        // Enable gyro data ready on INT2 pin
        5 => spec_write_op(address, REG_INT2_CTRL, INT2_DRDY_G),
        6 => spec_delay_op(1),
        // Block Data Update and automatically increment registers when read
        7 => spec_write_op(address, REG_CTRL3_C, BDU | IF_INC),
        8 => spec_delay_op(1),
        9 => spec_write_op(address, REG_CTRL2_G, gyro_reg),
        10 => spec_delay_op(1),
        11 => spec_write_op(address, REG_CTRL1_XL, acc_reg),
        _ => None,
    }
}

/// The step of `init` at which the gyro is configured.
pub const GYRO_STEP: usize = 9;

/// The step of `init` at which the accelerometer is configured.
pub const ACC_STEP: usize = 11;

/// Number of steps of `init`.
pub const INIT_STEPS: usize = 12;

/// Step `step` of `init` for a device at `address` and the request `r`.
pub open spec fn planned_op(address: u8, step: usize, r: InitRequest) -> Option<InitOp> {
    init_op(
        address,
        step,
        gyro_range(r.gyro_sensitivity).1 | odr(r.target_hz).1,
        acc_range(r.acc_sensitivity).1 | odr(r.target_hz).1,
    )
}

/// What step `step` of `init` does to the shared state.
pub open spec fn step_common(c: ImuCommon, step: usize, r: InitRequest) -> ImuCommon {
    if step == GYRO_STEP {
        gyro_configured(c, r.gyro_sensitivity, r.gyro_units, r.target_hz)
    } else if step == ACC_STEP {
        acc_configured(c, r.acc_sensitivity, r.acc_units, r.target_hz)
    } else {
        c
    }
}

/// The shared state after the first `n` steps of `init`.
pub open spec fn common_after_steps(c: ImuCommon, n: nat, r: InitRequest) -> ImuCommon
    decreases n,
{
    if n == 0 {
        c
    } else {
        step_common(common_after_steps(c, (n - 1) as nat, r), (n - 1) as usize, r)
    }
}

impl<B> Lsm6ds<B> {
    /// The manufacturer's id of the family member the driver reports itself as
    /// (through the LSM6DSO MSP ids): the LSM6DSOX's WHO_AM_I response.
    pub const DEVICE_ID: u8 = REG_WHO_AM_I_RESPONSE_LSM6DSOX;

    /// Constructor.
    pub fn new(bus: B, axis_order: ImuAxisOrder) -> (r: Self)
        ensures
            r.bus == bus,
            r.common == spec_common_new(axis_order),
            r.config == (ImuDeviceConfig {
                gyro_id_msp: ImuDeviceConfig::MSP_GYRO_ID_LSM6DSO,
                acc_id_msp: ImuDeviceConfig::MSP_ACC_ID_LSM6DSO,
                axis_order,
                device_id: REG_WHO_AM_I_RESPONSE_LSM6DSOX,
                address: I2C_ADDRESS,
                flags: 0,
            }),
    {
        Self {
            bus,
            common: ImuCommon::new(axis_order),
            config: ImuDeviceConfig {
                gyro_id_msp: ImuDeviceConfig::MSP_GYRO_ID_LSM6DSO,
                acc_id_msp: ImuDeviceConfig::MSP_ACC_ID_LSM6DSO,
                axis_order,
                device_id: Self::DEVICE_ID,
                address: I2C_ADDRESS,
                flags: 0,
            },
        }
    }

    /// Output data rate and its code for a target rate.
    fn output_data_rate(target_output_data_rate_hz: u32) -> (r: (u32, u8))
        ensures
            r == odr(target_output_data_rate_hz),
    {
        let t = target_output_data_rate_hz;
        if 1667 <= t && t <= 3332 {
            (3332, ODR_3332_HZ)
        } else if 834 <= t && t <= 1666 {
            (1666, ODR_1666_HZ)
        } else if 417 <= t && t <= 833 {
            (833, ODR_833_HZ)
        } else if 209 <= t && t <= 416 {
            (416, ODR_416_HZ)
        } else if 105 <= t && t <= 208 {
            (208, ODR_208_HZ)
        } else if 53 <= t && t <= 104 {
            (104, ODR_104_HZ)
        } else if 27 <= t && t <= 52 {
            (52, ODR_52_HZ)
        } else if 13 <= t && t <= 26 {
            (26, ODR_26_HZ)
        } else if 1 <= t && t <= 12 {
            (12, ODR_12P5_HZ)
        } else {
            (6664, ODR_6664_HZ)
        }
    }

    /// Sets the gyro scale and sample rate, and returns the CTRL2_G value: range
    /// bits in the low nibble, output data rate code in the high nibble.
    pub fn calculate_gyro_scale_and_odr(
        &mut self,
        gyro_sensitivity: GyroFullScale,
        gyro_units: GyroUnits,
        target_output_data_rate_hz: u32,
    ) -> (r: u8)
        ensures
            r == gyro_range(gyro_sensitivity).1 | odr(target_output_data_rate_hz).1,
            gyro_sensitivity != GyroFullScale::Scale125Dps && gyro_sensitivity
                != GyroFullScale::Scale250Dps ==> ctrl2_g_full_scale_dps(r)
                == final(self).common.gyro_scale.full_scale_dps,
            odr_code_rate((r / 16) as int) == final(self).common.gyro_sample_rate_hz,
            final(self).common == gyro_configured(
                old(self).common,
                gyro_sensitivity,
                gyro_units,
                target_output_data_rate_hz,
            ),
            final(self).bus == old(self).bus,
            final(self).config == old(self).config,
    {
        proof {
            lemma_register_encodes_scale_and_rate(
                gyro_sensitivity,
                AccFullScale::Max,
                target_output_data_rate_hz,
            );
        }
        let (scale_dps, gyro_register_value): (u32, u8) = match gyro_sensitivity {
            GyroFullScale::Scale125Dps | GyroFullScale::Scale250Dps => (245, GYRO_RANGE_125_DPS),
            GyroFullScale::Scale500Dps => (500, GYRO_RANGE_500_DPS),
            GyroFullScale::Scale1000Dps => (1000, GYRO_RANGE_1000_DPS),
            _ => (2000, GYRO_RANGE_2000_DPS),
        };
        self.common.gyro_scale = GyroScale {
            full_scale_dps: scale_dps,
            counts: 32768,
            units: gyro_units,
        };

        let (gyro_sample_rate_hz, gyro_odr) = Self::output_data_rate(target_output_data_rate_hz);
        self.common.gyro_sample_rate_hz = gyro_sample_rate_hz;

        gyro_register_value | gyro_odr
    }

    /// Sets the accelerometer scale and sample rate, and returns the CTRL1_XL value:
    /// range bits in the low nibble, output data rate code in the high nibble.
    pub fn calculate_acc_scale_and_odr(
        &mut self,
        acc_sensitivity: AccFullScale,
        acc_units: AccUnits,
        target_output_data_rate_hz: u32,
    ) -> (r: u8)
        ensures
            r == acc_range(acc_sensitivity).1 | odr(target_output_data_rate_hz).1,
            ctrl1_xl_full_scale_g(r) == final(self).common.acc_scale.full_scale_g,
            odr_code_rate((r / 16) as int) == final(self).common.acc_sample_rate_hz,
            final(self).common == acc_configured(
                old(self).common,
                acc_sensitivity,
                acc_units,
                target_output_data_rate_hz,
            ),
            final(self).bus == old(self).bus,
            final(self).config == old(self).config,
    {
        proof {
            lemma_register_encodes_scale_and_rate(
                GyroFullScale::Max,
                acc_sensitivity,
                target_output_data_rate_hz,
            );
        }
        let (scale, acc_register_value): (u32, u8) = match acc_sensitivity {
            AccFullScale::Scale2G => (2, ACC_RANGE_2G),
            AccFullScale::Scale4G => (4, ACC_RANGE_4G),
            AccFullScale::Scale8G => (8, ACC_RANGE_8G),
            _ => {
                // default includes  AccFullScale::Scale16G
                (16, ACC_RANGE_16G)
            },
        };
        self.common.acc_scale = AccScale { full_scale_g: scale, counts: 32768, units: acc_units };

        let (acc_sample_rate_hz, acc_odr) = Self::output_data_rate(target_output_data_rate_hz);
        self.common.acc_sample_rate_hz = acc_sample_rate_hz;

        acc_register_value | acc_odr
    }

    /// `outcome` is the outcome of the previous operation (`Ok` before the first).
    /// A failure ends initialisation with its error. Otherwise this is step `step`
    /// of `init`: its operation, or, when there is none, the end of initialisation
    /// with the gyro and accelerometer sample rates actually set.
    pub fn init_next<E>(
        &mut self,
        step: usize,
        outcome: Result<(), E>,
        target_output_data_rate_hz: u32,
        gyro_sensitivity: GyroFullScale,
        gyro_units: GyroUnits,
        acc_sensitivity: AccFullScale,
        acc_units: AccUnits,
    ) -> (r: InitProgress<E>)
        ensures
            outcome matches Err(e) ==> r == InitProgress::<E>::Done(Err(e)) && *final(self)
                == *old(self),
            outcome is Ok ==> {
                &&& final(self).common == step_common(
                    old(self).common,
                    step,
                    (InitRequest {
                        target_hz: target_output_data_rate_hz,
                        gyro_sensitivity,
                        gyro_units,
                        acc_sensitivity,
                        acc_units,
                    }),
                )
                &&& final(self).bus == old(self).bus
                &&& final(self).config == old(self).config
                &&& r == (match planned_op(
                    old(self).config.address,
                    step,
                    (InitRequest {
                        target_hz: target_output_data_rate_hz,
                        gyro_sensitivity,
                        gyro_units,
                        acc_sensitivity,
                        acc_units,
                    }),
                ) {
                    Some(op) => InitProgress::<E>::Perform(op),
                    None => InitProgress::<E>::Done(
                        Ok(
                            (
                                final(self).common.gyro_sample_rate_hz,
                                final(self).common.acc_sample_rate_hz,
                            ),
                        ),
                    ),
                })
            },
    {
        if let Err(e) = outcome {
            return InitProgress::Done(Err(e));
        }
        match self.init_step(
            step,
            target_output_data_rate_hz,
            gyro_sensitivity,
            gyro_units,
            acc_sensitivity,
            acc_units,
        ) {
            Some(op) => InitProgress::Perform(op),
            None => InitProgress::Done(
                Ok((self.common.gyro_sample_rate_hz, self.common.acc_sample_rate_hz)),
            ),
        }
    }

    /// Step `step` of `init`: the bus operation to perform next, or `None` when
    /// initialisation is complete. The gyro and the accelerometer are configured at
    /// the step that writes their control register.
    pub fn init_step(
        &mut self,
        step: usize,
        target_output_data_rate_hz: u32,
        gyro_sensitivity: GyroFullScale,
        gyro_units: GyroUnits,
        acc_sensitivity: AccFullScale,
        acc_units: AccUnits,
    ) -> (op: Option<InitOp>)
        ensures
            op == init_op(
                old(self).config.address,
                step,
                gyro_range(gyro_sensitivity).1 | odr(target_output_data_rate_hz).1,
                acc_range(acc_sensitivity).1 | odr(target_output_data_rate_hz).1,
            ),
            final(self).common == step_common(
                old(self).common,
                step,
                (InitRequest {
                    target_hz: target_output_data_rate_hz,
                    gyro_sensitivity,
                    gyro_units,
                    acc_sensitivity,
                    acc_units,
                }),
            ),
            final(self).bus == old(self).bus,
            final(self).config == old(self).config,
    {
        let address = self.config.address;
        match step {
            0 => write_op(address, REG_CTRL3_C, SW_RESET),
            1 => write_op(address, REG_DATA_READY_PULSE_CONFIG, DATA_READY_PULSED),
            2 => delay_op(1),
            3 => write_op(address, REG_INT1_CTRL, INT1_DRDY_G),
            4 => delay_op(1),
            5 => write_op(address, REG_INT2_CTRL, INT2_DRDY_G),
            6 => delay_op(1),
            7 => write_op(address, REG_CTRL3_C, BDU | IF_INC),
            8 => delay_op(1),
            9 => {
                let gyro_register_value = self.calculate_gyro_scale_and_odr(
                    gyro_sensitivity,
                    gyro_units,
                    target_output_data_rate_hz,
                );
                write_op(address, REG_CTRL2_G, gyro_register_value)
            },
            10 => delay_op(1),
            11 => {
                let acc_register_value = self.calculate_acc_scale_and_odr(
                    acc_sensitivity,
                    acc_units,
                    target_output_data_rate_hz,
                );
                write_op(address, REG_CTRL1_XL, acc_register_value)
            },
            _ => None,
        }
    }

    /// Where the samples are: accelerometer from OUTX_L_A, gyro from OUTX_L_G; a
    /// combined read of 12 bytes from OUTX_L_G holds the gyro and then the
    /// accelerometer. Values are decoded little-endian.
    pub fn sample_layout() -> (r: SampleLayout)
        ensures
            r == (SampleLayout {
                acc_register: REG_OUTX_L_ACC,
                gyro_register: REG_OUTX_L_G,
                burst_register: REG_OUTX_L_G,
                burst_len: 12,
                acc_at: 6,
                gyro_at: 0,
                big_endian: false,
            }),
            r.wf(),
    {
        SampleLayout {
            acc_register: REG_OUTX_L_ACC,
            gyro_register: REG_OUTX_L_G,
            burst_register: REG_OUTX_L_G,
            burst_len: 12,
            acc_at: 6,
            gyro_at: 0,
            big_endian: false,
        }
    }
}

/// The output data rate is the smallest offered rate at or above the target, for
/// every target from 1 Hz to 6664 Hz.
pub proof fn lemma_odr_rounds_up(target_hz: u32)
    requires
        1 <= target_hz <= 6664,
    ensures
        is_rate(odr(target_hz).0),
        odr(target_hz).0 >= target_hz,
        forall|rate_hz: u32|
            #[trigger] is_rate(rate_hz) && rate_hz >= target_hz ==> odr(target_hz).0 <= rate_hz,
{
}

/// The control register values keep the two fields apart: the low nibble is the
/// range and the high nibble the output data rate code.
pub proof fn lemma_register_fields(
    gyro_sensitivity: GyroFullScale,
    acc_sensitivity: AccFullScale,
    target_hz: u32,
)
    ensures
        (gyro_range(gyro_sensitivity).1 | odr(target_hz).1) & 0x0F == gyro_range(
            gyro_sensitivity,
        ).1,
        (gyro_range(gyro_sensitivity).1 | odr(target_hz).1) & 0xF0 == odr(target_hz).1,
        (acc_range(acc_sensitivity).1 | odr(target_hz).1) & 0x0F == acc_range(acc_sensitivity).1,
        (acc_range(acc_sensitivity).1 | odr(target_hz).1) & 0xF0 == odr(target_hz).1,
{
    lemma_nibbles(gyro_range(gyro_sensitivity).1, odr(target_hz).1);
    lemma_nibbles(acc_range(acc_sensitivity).1, odr(target_hz).1);
}

/// `init` is exactly the steps `0..INIT_STEPS`: each of them is an operation and
/// every later step reports completion.
pub proof fn lemma_init_steps(address: u8, gyro_reg: u8, acc_reg: u8, step: usize)
    ensures
        step < INIT_STEPS <==> init_op(address, step, gyro_reg, acc_reg) is Some,
{
}

/// A complete `init` configures the gyro and then the accelerometer: afterwards
/// both scales and both sample rates are those chosen for the request.
pub proof fn lemma_init_configures(c: ImuCommon, r: InitRequest)
    ensures
        common_after_steps(c, INIT_STEPS as nat, r) == acc_configured(
            gyro_configured(c, r.gyro_sensitivity, r.gyro_units, r.target_hz),
            r.acc_sensitivity,
            r.acc_units,
            r.target_hz,
        ),
{
    lemma_common_after_steps(c, INIT_STEPS as nat, r);
}

proof fn lemma_common_after_steps(c: ImuCommon, n: nat, r: InitRequest)
    requires
        n <= INIT_STEPS,
    ensures
        common_after_steps(c, n, r) == (if n <= GYRO_STEP {
            c
        } else if n <= ACC_STEP {
            gyro_configured(c, r.gyro_sensitivity, r.gyro_units, r.target_hz)
        } else {
            acc_configured(
                gyro_configured(c, r.gyro_sensitivity, r.gyro_units, r.target_hz),
                r.acc_sensitivity,
                r.acc_units,
                r.target_hz,
            )
        }),
    decreases n,
{
    if n > 0 {
        lemma_common_after_steps(c, (n - 1) as nat, r);
    }
}

/// The control register values program what the stored state assumes: the range
/// bits encode the stored full scale (for the gyro, except on requests for 125 or
/// 250 dps, which set the FS_125 bit while the scale is that of 245 dps), and the
/// rate code encodes the stored sample rate. The full scale is the one requested
/// whenever the device offers it, and the largest for `Max`.
pub proof fn lemma_register_encodes_scale_and_rate(
    gyro_sensitivity: GyroFullScale,
    acc_sensitivity: AccFullScale,
    target_hz: u32,
)
    ensures
        gyro_sensitivity != GyroFullScale::Scale125Dps && gyro_sensitivity
            != GyroFullScale::Scale250Dps ==> ctrl2_g_full_scale_dps(
            gyro_range(gyro_sensitivity).1 | odr(target_hz).1,
        ) == gyro_range(gyro_sensitivity).0,
        ctrl1_xl_full_scale_g(acc_range(acc_sensitivity).1 | odr(target_hz).1) == acc_range(
            acc_sensitivity,
        ).0,
        odr_code_rate(((gyro_range(gyro_sensitivity).1 | odr(target_hz).1) / 16) as int) == odr(
            target_hz,
        ).0,
        odr_code_rate(((acc_range(acc_sensitivity).1 | odr(target_hz).1) / 16) as int) == odr(
            target_hz,
        ).0,
        requested_dps(gyro_sensitivity) matches Some(dps) ==> (dps >= 500 ==> gyro_range(
            gyro_sensitivity,
        ).0 == dps),
        requested_dps(gyro_sensitivity) is None ==> gyro_range(gyro_sensitivity).0 == 2000,
        requested_g(acc_sensitivity) matches Some(g) ==> acc_range(acc_sensitivity).0 == g,
        requested_g(acc_sensitivity) is None ==> acc_range(acc_sensitivity).0 == 16,
{
    reveal_with_fuel(doubled, 9);
    assert(doubled(1, 0) == 1 && doubled(1, 1) == 2 && doubled(1, 2) == 4 && doubled(1, 3) == 8
        && doubled(1, 4) == 16 && doubled(1, 5) == 32 && doubled(1, 6) == 64 && doubled(1, 7)
        == 128 && doubled(1, 8) == 256);
    assert(odr_code_rate(1) == 12 && odr_code_rate(2) == 26 && odr_code_rate(3) == 52
        && odr_code_rate(4) == 104 && odr_code_rate(5) == 208 && odr_code_rate(6) == 416
        && odr_code_rate(7) == 833 && odr_code_rate(8) == 1666 && odr_code_rate(9) == 3332
        && odr_code_rate(10) == 6664);
    lemma_nibbles(gyro_range(gyro_sensitivity).1, odr(target_hz).1);
    lemma_nibbles(acc_range(acc_sensitivity).1, odr(target_hz).1);
}

} // verus!

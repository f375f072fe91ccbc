use vstd::prelude::*;

use crate::axis::ImuAxisOrder;
use crate::imu_common::{
    doubled, requested_dps, requested_g,
    InitProgress,
    InitRequest,
    delay_op, spec_common_new, spec_delay_op, spec_write_op, write_op, AccFullScale, AccScale,
    AccUnits, GyroFullScale, GyroScale,
    GyroUnits, ImuCommon, InitOp, SampleLayout,
};
use crate::imu_device_config::ImuDeviceConfig;

verus! {

pub const I2C_ADDRESS: u8 = 0x68;

// **** IMU Registers and associated bitflags ****
pub const REG_SMPLRT_DIV: u8 = 0x19;
pub const REG_CONFIG: u8 = 0x1A;
pub const REG_GYRO_CONFIG: u8 = 0x1B;
pub const REG_ACCEL_CONFIG: u8 = 0x1C;
pub const REG_ACCEL_CONFIG2: u8 = 0x1D;
pub const REG_FIFO_ENABLE: u8 = 0x23;
pub const REG_INT_PIN_CFG: u8 = 0x37;
pub const REG_INT_ENABLE: u8 = 0x38;
pub const REG_ACCEL_XOUT_H: u8 = 0x3B;
pub const REG_GYRO_XOUT_H: u8 = 0x43;
pub const REG_USER_CTRL: u8 = 0x6A;
pub const REG_PWR_MGMT_1: u8 = 0x6B;

pub const DEVICE_RESET: u8 = 0x80;

pub const GYRO_RANGE_250_DPS: u8 = 0b_0000_0000;
pub const GYRO_RANGE_500_DPS: u8 = 0b_0000_1000;
pub const GYRO_RANGE_1000_DPS: u8 = 0b_0001_0000;
pub const GYRO_RANGE_2000_DPS: u8 = 0b_0001_1000;

pub const ACC_RANGE_2G: u8 = 0b_0000_0000;
pub const ACC_RANGE_4G: u8 = 0b_0000_1000;
pub const ACC_RANGE_8G: u8 = 0b_0001_0000;
pub const ACC_RANGE_16G: u8 = 0b_0001_1000;
pub const CLKSEL_1: u8 = 0x01;
pub const DATA_RDY_INT_EN: u8 = 0x01;
// **** IMU Registers and associated bitflags ****

/// Driver for the TDK ICM-20602.
#[derive(Debug, PartialEq)]
pub struct Icm20602<B> {
    pub bus: B,
    pub common: ImuCommon,
    pub config: ImuDeviceConfig,
}

/// Gyro full scale in degrees per second and the GYRO_CONFIG range bits; 125 dps is
/// not offered and, like `Max`, selects 2000 dps.
pub open spec fn gyro_range(gyro_sensitivity: GyroFullScale) -> (u32, u8) {
    match gyro_sensitivity {
        GyroFullScale::Scale250Dps => (250, 0x00),
        GyroFullScale::Scale500Dps => (500, 0x08),
        GyroFullScale::Scale1000Dps => (1000, 0x10),
        _ => (2000, 0x18),
    }
}

/// Gyro output data rate and sample rate divider for a target rate; the rate is
/// `8000 / (1 + divider)`.
pub open spec fn gyro_rate(target_hz: u32) -> (u32, u8) {
    if 2001 <= target_hz <= 4000 {
        (4000, 1)
    } else if 1001 <= target_hz <= 2000 {
        (2000, 3)
    } else if 501 <= target_hz <= 1000 {
        (1000, 7)
    } else if 201 <= target_hz <= 500 {
        (500, 15)
    } else if 101 <= target_hz <= 200 {
        (200, 39)
    } else if 51 <= target_hz <= 100 {
        (100, 79)
    } else if 26 <= target_hz <= 50 {
        (50, 159)
    } else {
        (8000, 0)
    }
}

/// Acc full scale in g and the ACCEL_CONFIG range bits; `Max` selects 16 g.
pub open spec fn acc_range(acc_sensitivity: AccFullScale) -> (u32, u8) {
    match acc_sensitivity {
        AccFullScale::Scale2G => (2, 0x00),
        AccFullScale::Scale4G => (4, 0x08),
        AccFullScale::Scale8G => (8, 0x10),
        _ => (16, 0x18),
    }
}

/// The gyro full scale, in degrees per second, that a GYRO_CONFIG value programs:
/// FS_SEL, bits 4:3, selects 250 dps doubled FS_SEL times.
pub open spec fn gyro_config_full_scale_dps(reg: u8) -> int {
    doubled(250, ((reg / 8) % 4) as int)
}

/// The accelerometer full scale, in g, that an ACCEL_CONFIG value programs:
/// ACCEL_FS_SEL, bits 4:3, selects 2 g doubled ACCEL_FS_SEL times.
pub open spec fn accel_config_full_scale_g(reg: u8) -> int {
    doubled(2, ((reg / 8) % 4) as int)
}

/// The gyro full scales the device offers, in degrees per second.
pub open spec fn is_gyro_full_scale(dps: u32) -> bool {
    dps == 250 || dps == 500 || dps == 1000 || dps == 2000
}

/// The shared state once the gyro is configured: its scale, and both sample rates
/// set to the gyro rate.
pub open spec fn gyro_configured(
    c: ImuCommon,
    gyro_sensitivity: GyroFullScale,
    gyro_units: GyroUnits,
    target_hz: u32,
) -> ImuCommon {
    ImuCommon {
        gyro_scale: GyroScale {
            full_scale_dps: gyro_range(gyro_sensitivity).0,
            counts: 32768,
            units: gyro_units,
        },
        gyro_sample_rate_hz: gyro_rate(target_hz).0,
        acc_sample_rate_hz: gyro_rate(target_hz).0,
        ..c
    }
}

/// The shared state once the accelerometer is configured: its scale.
pub open spec fn acc_configured(
    c: ImuCommon,
    acc_sensitivity: AccFullScale,
    acc_units: AccUnits,
) -> ImuCommon {
    ImuCommon {
        acc_scale: AccScale {
            full_scale_g: acc_range(acc_sensitivity).0,
            counts: 32768,
            units: acc_units,
        },
        ..c
    }
}

/// Step `step` of `init`, for a device at `address`.
pub open spec fn init_op(
    address: u8,
    step: usize,
    gyro_reg: u8,
    divider: u8,
    acc_reg: u8,
) -> Option<InitOp> {
    match step {
        // clear the power management register
        0 => spec_write_op(address, REG_PWR_MGMT_1, 0),
        1 => spec_delay_op(10),
        // reset the device
        2 => spec_write_op(address, REG_PWR_MGMT_1, DEVICE_RESET),
        3 => spec_delay_op(10),
        // CLKSEL must be set to 001 to achieve full gyroscope performance.
        4 => spec_write_op(address, REG_PWR_MGMT_1, CLKSEL_1),
        5 => spec_delay_op(10),
        6 => spec_write_op(address, REG_FIFO_ENABLE, 0x00),
        7 => spec_delay_op(1),
        // Interrupt settings
        8 => spec_write_op(address, REG_INT_PIN_CFG, 0x22),
        9 => spec_delay_op(1),
        // data ready interrupt enabled
        10 => spec_write_op(address, REG_INT_ENABLE, DATA_RDY_INT_EN),
        11 => spec_delay_op(10),
        12 => spec_write_op(address, REG_USER_CTRL, 0x00),
        13 => spec_delay_op(1),
        // FIFO disabled, LPF disabled, base output data rate 8kHz (before divider applied)
        14 => spec_write_op(address, REG_CONFIG, 0),
        15 => spec_delay_op(1),
        16 => spec_write_op(address, REG_GYRO_CONFIG, gyro_reg),
        17 => spec_delay_op(1),
        18 => spec_write_op(address, REG_SMPLRT_DIV, divider),
        19 => spec_delay_op(1),
        20 => spec_write_op(address, REG_ACCEL_CONFIG, acc_reg),
        21 => spec_delay_op(1),
        22 => spec_write_op(address, REG_ACCEL_CONFIG2, 0),
        23 => spec_delay_op(1),
        _ => None,
    }
}

/// The step of `init` at which the gyro is configured.
pub const GYRO_STEP: usize = 16;

/// The step of `init` at which the accelerometer is configured.
pub const ACC_STEP: usize = 20;

/// Number of steps of `init`.
pub const INIT_STEPS: usize = 24;

/// Step `step` of `init` for a device at `address` and the request `r`.
pub open spec fn planned_op(address: u8, step: usize, r: InitRequest) -> Option<InitOp> {
    init_op(
        address,
        step,
        gyro_range(r.gyro_sensitivity).1,
        gyro_rate(r.target_hz).1,
        acc_range(r.acc_sensitivity).1,
    )
}

/// What step `step` of `init` does to the shared state.
pub open spec fn step_common(c: ImuCommon, step: usize, r: InitRequest) -> ImuCommon {
    if step == GYRO_STEP {
        gyro_configured(c, r.gyro_sensitivity, r.gyro_units, r.target_hz)
    } else if step == ACC_STEP {
        acc_configured(c, r.acc_sensitivity, r.acc_units)
    } else {
        c
    }
}

/// The shared state after the first `n` steps of `init`.
pub open spec fn common_after_steps(c: ImuCommon, n: nat, r: InitRequest) -> ImuCommon
    decreases n,
{
    if n == 0 {
        c
    } else {
        step_common(common_after_steps(c, (n - 1) as nat, r), (n - 1) as usize, r)
    }
}

impl<B> Icm20602<B> {
    pub const DEVICE_ID: u8 = 0x68;

    /// Constructor.
    pub fn new(bus: B, axis_order: ImuAxisOrder) -> (r: Self)
        ensures
            r.bus == bus,
            r.common == spec_common_new(axis_order),
            r.config == (ImuDeviceConfig {
                gyro_id_msp: ImuDeviceConfig::MSP_GYRO_ID_ICM20602,
                acc_id_msp: ImuDeviceConfig::MSP_ACC_ID_ICM20602,
                axis_order,
                device_id: 0x68,
                address: I2C_ADDRESS,
                flags: 0,
            }),
    {
        Self {
            bus,
            common: ImuCommon::new(axis_order),
            config: ImuDeviceConfig {
                gyro_id_msp: ImuDeviceConfig::MSP_GYRO_ID_ICM20602,
                acc_id_msp: ImuDeviceConfig::MSP_ACC_ID_ICM20602,
                axis_order,
                device_id: Self::DEVICE_ID,
                address: I2C_ADDRESS,
                flags: 0,
            },
        }
    }

    /// Gyro output data rate and sample rate divider for a target rate.
    fn gyro_rate_and_divider(target_output_data_rate_hz: u32) -> (r: (u32, u8))
        ensures
            r == gyro_rate(target_output_data_rate_hz),
    {
        // SAMPLE_RATE = INTERNAL_SAMPLE_RATE / (1 + SMPLRT_DIV)
        let t = target_output_data_rate_hz;
        if 2001 <= t && t <= 4000 {
            (4000, 1)
        } else if 1001 <= t && t <= 2000 {
            (2000, 3)
        } else if 501 <= t && t <= 1000 {
            (1000, 7)
        } else if 201 <= t && t <= 500 {
            (500, 15)
        } else if 101 <= t && t <= 200 {
            (200, 39)
        } else if 51 <= t && t <= 100 {
            (100, 79)
        } else if 26 <= t && t <= 50 {
            (50, 159)
        } else {
            (8_000, 0)
        }
    }

    /// Sets the gyro scale and both sample rates, and returns the GYRO_CONFIG value
    /// and the sample rate divider.
    pub fn calculate_gyro_scale_and_odr(
        &mut self,
        gyro_sensitivity: GyroFullScale,
        gyro_units: GyroUnits,
        target_output_data_rate_hz: u32,
    ) -> (r: (u8, u8))
        ensures
            r == (gyro_range(gyro_sensitivity).1, gyro_rate(target_output_data_rate_hz).1),
            gyro_config_full_scale_dps(r.0) == final(self).common.gyro_scale.full_scale_dps,
            final(self).common.gyro_sample_rate_hz * (1 + r.1) == 8000,
            final(self).common == gyro_configured(
                old(self).common,
                gyro_sensitivity,
                gyro_units,
                target_output_data_rate_hz,
            ),
            final(self).bus == old(self).bus,
            final(self).config == old(self).config,
    {
        proof {
            lemma_range_bits_encode_scale(gyro_sensitivity, AccFullScale::Max);
            lemma_gyro_rate_matches_divider(target_output_data_rate_hz);
        }
        let (scale_dps, gyro_register_value): (u32, u8) = match gyro_sensitivity {
            GyroFullScale::Scale250Dps => (250, GYRO_RANGE_250_DPS),
            GyroFullScale::Scale500Dps => (500, GYRO_RANGE_500_DPS),
            GyroFullScale::Scale1000Dps => (1000, GYRO_RANGE_1000_DPS),
            _ => (2000, GYRO_RANGE_2000_DPS),
        };
        self.common.gyro_scale = GyroScale {
            full_scale_dps: scale_dps,
            counts: 32768,
            units: gyro_units,
        };

        let (gyro_sample_rate_hz, sample_rate_divider) = Self::gyro_rate_and_divider(
            target_output_data_rate_hz,
        );
        self.common.gyro_sample_rate_hz = gyro_sample_rate_hz;
        self.common.acc_sample_rate_hz = gyro_sample_rate_hz;

        (gyro_register_value, sample_rate_divider)
    }

    /// Acc full scale in g and the ACCEL_CONFIG range bits.
    fn acc_range_bits(acc_sensitivity: AccFullScale) -> (r: (u32, u8))
        ensures
            r == acc_range(acc_sensitivity),
    {
        match acc_sensitivity {
            AccFullScale::Scale2G => (2, ACC_RANGE_2G),
            AccFullScale::Scale4G => (4, ACC_RANGE_4G),
            AccFullScale::Scale8G => (8, ACC_RANGE_8G),
            _ => {
                // default includes  AccFullScale::Scale16G
                (16, ACC_RANGE_16G)
            },
        }
    }

    /// Sets the accelerometer scale and returns the ACCEL_CONFIG value; the target
    /// rate plays no part.
    pub fn calculate_acc_scale(
        &mut self,
        acc_sensitivity: AccFullScale,
        acc_units: AccUnits,
        _target_output_data_rate_hz: u32,
    ) -> (r: u8)
        ensures
            r == acc_range(acc_sensitivity).1,
            accel_config_full_scale_g(r) == final(self).common.acc_scale.full_scale_g,
            final(self).common == acc_configured(old(self).common, acc_sensitivity, acc_units),
            final(self).bus == old(self).bus,
            final(self).config == old(self).config,
    {
        proof {
            lemma_range_bits_encode_scale(GyroFullScale::Max, acc_sensitivity);
        }
        let (scale, acc_register_value) = Self::acc_range_bits(acc_sensitivity);
        self.common.acc_scale = AccScale { full_scale_g: scale, counts: 32768, units: acc_units };
        acc_register_value
    }

    /// `outcome` is the outcome of the previous operation (`Ok` before the first).
    /// A failure ends initialisation with its error. Otherwise this is step `step`
    /// of `init`: its operation, or, when there is none, the end of initialisation
    /// with the gyro and accelerometer sample rates actually set.
    pub fn init_next<E>(
        &mut self,
        step: usize,
        outcome: Result<(), E>,
        target_output_data_rate_hz: u32,
        gyro_sensitivity: GyroFullScale,
        gyro_units: GyroUnits,
        acc_sensitivity: AccFullScale,
        acc_units: AccUnits,
    ) -> (r: InitProgress<E>)
        ensures
            outcome matches Err(e) ==> r == InitProgress::<E>::Done(Err(e)) && *final(self)
                == *old(self),
            outcome is Ok ==> {
                &&& final(self).common == step_common(
                    old(self).common,
                    step,
                    (InitRequest {
                        target_hz: target_output_data_rate_hz,
                        gyro_sensitivity,
                        gyro_units,
                        acc_sensitivity,
                        acc_units,
                    }),
                )
                &&& final(self).bus == old(self).bus
                &&& final(self).config == old(self).config
                &&& r == (match planned_op(
                    old(self).config.address,
                    step,
                    (InitRequest {
                        target_hz: target_output_data_rate_hz,
                        gyro_sensitivity,
                        gyro_units,
                        acc_sensitivity,
                        acc_units,
                    }),
                ) {
                    Some(op) => InitProgress::<E>::Perform(op),
                    None => InitProgress::<E>::Done(
                        Ok(
                            (
                                final(self).common.gyro_sample_rate_hz,
                                final(self).common.acc_sample_rate_hz,
                            ),
                        ),
                    ),
                })
            },
    {
        if let Err(e) = outcome {
            return InitProgress::Done(Err(e));
        }
        match self.init_step(
            step,
            target_output_data_rate_hz,
            gyro_sensitivity,
            gyro_units,
            acc_sensitivity,
            acc_units,
        ) {
            Some(op) => InitProgress::Perform(op),
            None => InitProgress::Done(
                Ok((self.common.gyro_sample_rate_hz, self.common.acc_sample_rate_hz)),
            ),
        }
    }

    /// Step `step` of `init`: the bus operation to perform next, or `None` when
    /// initialisation is complete. The gyro and the accelerometer are configured at
    /// the step that writes their configuration register.
    pub fn init_step(
        &mut self,
        step: usize,
        target_output_data_rate_hz: u32,
        gyro_sensitivity: GyroFullScale,
        gyro_units: GyroUnits,
        acc_sensitivity: AccFullScale,
        acc_units: AccUnits,
    ) -> (op: Option<InitOp>)
        ensures
            op == init_op(
                old(self).config.address,
                step,
                gyro_range(gyro_sensitivity).1,
                gyro_rate(target_output_data_rate_hz).1,
                acc_range(acc_sensitivity).1,
            ),
            final(self).common == step_common(
                old(self).common,
                step,
                (InitRequest {
                    target_hz: target_output_data_rate_hz,
                    gyro_sensitivity,
                    gyro_units,
                    acc_sensitivity,
                    acc_units,
                }),
            ),
            final(self).bus == old(self).bus,
            final(self).config == old(self).config,
    {
        let address = self.config.address;
        match step {
            0 => write_op(address, REG_PWR_MGMT_1, 0),
            1 => delay_op(10),
            2 => write_op(address, REG_PWR_MGMT_1, DEVICE_RESET),
            3 => delay_op(10),
            4 => write_op(address, REG_PWR_MGMT_1, CLKSEL_1),
            5 => delay_op(10),
            6 => write_op(address, REG_FIFO_ENABLE, 0x00),
            7 => delay_op(1),
            8 => write_op(address, REG_INT_PIN_CFG, 0x22),
            9 => delay_op(1),
            10 => write_op(address, REG_INT_ENABLE, DATA_RDY_INT_EN),
            11 => delay_op(10),
            12 => write_op(address, REG_USER_CTRL, 0x00),
            13 => delay_op(1),
            14 => write_op(address, REG_CONFIG, 0),
            15 => delay_op(1),
            16 => {
                let (gyro_register_value, _) = self.calculate_gyro_scale_and_odr(
                    gyro_sensitivity,
                    gyro_units,
                    target_output_data_rate_hz,
                );
                write_op(address, REG_GYRO_CONFIG, gyro_register_value)
            },
            17 => delay_op(1),
            18 => {
                let (_, sample_rate_divider) = Self::gyro_rate_and_divider(
                    target_output_data_rate_hz,
                );
                write_op(address, REG_SMPLRT_DIV, sample_rate_divider)
            },
            19 => delay_op(1),
            20 => {
                let acc_register_value = self.calculate_acc_scale(
                    acc_sensitivity,
                    acc_units,
                    target_output_data_rate_hz,
                );
                write_op(address, REG_ACCEL_CONFIG, acc_register_value)
            },
            21 => delay_op(1),
            22 => write_op(address, REG_ACCEL_CONFIG2, 0),
            23 => delay_op(1),
            _ => None,
        }
    }

    /// Where the samples are: accelerometer from ACCEL_XOUT_H, gyro from
    /// GYRO_XOUT_H; a combined read of 14 bytes from ACCEL_XOUT_H holds the
    /// accelerometer, the temperature and the gyro. Values are decoded little-endian.
    pub fn sample_layout() -> (r: SampleLayout)
        ensures
            r == (SampleLayout {
                acc_register: REG_ACCEL_XOUT_H,
                gyro_register: REG_GYRO_XOUT_H,
                burst_register: REG_ACCEL_XOUT_H,
                burst_len: 14,
                acc_at: 0,
                gyro_at: 8,
                big_endian: false,
            }),
            r.wf(),
    {
        SampleLayout {
            acc_register: REG_ACCEL_XOUT_H,
            gyro_register: REG_GYRO_XOUT_H,
            burst_register: REG_ACCEL_XOUT_H,
            burst_len: 14,
            acc_at: 0,
            gyro_at: 8,
            big_endian: false,
        }
    }
}

/// The gyro output data rates the device offers.
pub open spec fn is_gyro_rate(rate_hz: u32) -> bool {
    rate_hz == 50 || rate_hz == 100 || rate_hz == 200 || rate_hz == 500 || rate_hz == 1000
        || rate_hz == 2000 || rate_hz == 4000 || rate_hz == 8000
}

/// The gyro output data rate is the smallest offered rate at or above the target,
/// for every target from 26 Hz to 8000 Hz.
pub proof fn lemma_gyro_rate_rounds_up(target_hz: u32)
    requires
        26 <= target_hz <= 8000,
    ensures
        is_gyro_rate(gyro_rate(target_hz).0),
        gyro_rate(target_hz).0 >= target_hz,
        forall|rate_hz: u32|
            #[trigger] is_gyro_rate(rate_hz) && rate_hz >= target_hz ==> gyro_rate(target_hz).0
                <= rate_hz,
{
}

/// The gyro output data rate is the 8 kHz internal rate divided by one plus the
/// sample rate divider, for every target.
pub proof fn lemma_gyro_rate_matches_divider(target_hz: u32)
    ensures
        gyro_rate(target_hz).0 * (1 + gyro_rate(target_hz).1) == 8000,
{
}

/// `init` is exactly the steps `0..INIT_STEPS`: each of them is an operation and
/// every later step reports completion.
pub proof fn lemma_init_steps(address: u8, gyro_reg: u8, divider: u8, acc_reg: u8, step: usize)
    ensures
        step < INIT_STEPS <==> init_op(address, step, gyro_reg, divider, acc_reg) is Some,
{
}

/// A complete `init` configures the gyro and then the accelerometer: afterwards
/// both sample rates are the gyro rate chosen for the target, and both scales are
/// those of the requested ranges and units.
pub proof fn lemma_init_configures(c: ImuCommon, r: InitRequest)
    ensures
        common_after_steps(c, INIT_STEPS as nat, r) == acc_configured(
            gyro_configured(c, r.gyro_sensitivity, r.gyro_units, r.target_hz),
            r.acc_sensitivity,
            r.acc_units,
        ),
{
    lemma_common_after_steps(c, INIT_STEPS as nat, r);
}

proof fn lemma_common_after_steps(c: ImuCommon, n: nat, r: InitRequest)
    requires
        n <= INIT_STEPS,
    ensures
        common_after_steps(c, n, r) == (if n <= GYRO_STEP {
            c
        } else if n <= ACC_STEP {
            gyro_configured(c, r.gyro_sensitivity, r.gyro_units, r.target_hz)
        } else {
            acc_configured(
                gyro_configured(c, r.gyro_sensitivity, r.gyro_units, r.target_hz),
                r.acc_sensitivity,
                r.acc_units,
            )
        }),
    decreases n,
{
    if n > 0 {
        lemma_common_after_steps(c, (n - 1) as nat, r);
    }
}

/// The range bits chosen program the full scale that the stored scale assumes, and
/// that full scale is the one requested whenever the device offers it; otherwise
/// (`Max`, or 125 dps, which the device lacks) it is the largest, 2000 dps or 16 g.
pub proof fn lemma_range_bits_encode_scale(
    gyro_sensitivity: GyroFullScale,
    acc_sensitivity: AccFullScale,
)
    ensures
        gyro_config_full_scale_dps(gyro_range(gyro_sensitivity).1) == gyro_range(
            gyro_sensitivity,
        ).0,
        is_gyro_full_scale(gyro_range(gyro_sensitivity).0),
        requested_dps(gyro_sensitivity) matches Some(dps) ==> (is_gyro_full_scale(dps)
            ==> gyro_range(gyro_sensitivity).0 == dps),
        requested_dps(gyro_sensitivity) matches Some(dps) ==> (!is_gyro_full_scale(dps)
            ==> gyro_range(gyro_sensitivity).0 == 2000),
        requested_dps(gyro_sensitivity) is None ==> gyro_range(gyro_sensitivity).0 == 2000,
        accel_config_full_scale_g(acc_range(acc_sensitivity).1) == acc_range(acc_sensitivity).0,
        requested_g(acc_sensitivity) matches Some(g) ==> acc_range(acc_sensitivity).0 == g,
        requested_g(acc_sensitivity) is None ==> acc_range(acc_sensitivity).0 == 16,
{
    reveal_with_fuel(doubled, 4);
}

} // verus!

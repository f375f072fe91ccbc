use vstd::prelude::*;

use crate::axis::ImuAxisOrder;
use crate::imu_common::{
    requested_dps, requested_g,
    InitProgress,
    InitRequest,
    le_i16_value, sample_to_le_bytes, spec_common_new, spec_write_op, write_op, AccFullScale,
    AccScale, AccUnits, GyroFullScale, GyroScale, GyroUnits, ImuCommon, InitOp, SampleLayout,
};
use crate::imu_device_config::ImuDeviceConfig;

verus! {

/// Registers of the simulated device: accelerometer x, y, z then gyro x, y, z,
/// each as a little-endian 16-bit value.
pub const REG_ACC_XL: u8 = 0x20;
pub const REG_GYRO_XL: u8 = 0x26;

/// A simulated device, for tests: its samples are whatever was last written to its
/// sample registers.
#[derive(Debug, PartialEq)]
pub struct ImuMock<B> {
    pub bus: B,
    pub common: ImuCommon,
    pub config: ImuDeviceConfig,
}

/// Gyro full scale: one count is this many units of the requested kind.
pub open spec fn gyro_full_scale(gyro_sensitivity: GyroFullScale) -> u32 {
    match gyro_sensitivity {
        GyroFullScale::Scale125Dps => 125,
        GyroFullScale::Scale250Dps => 250,
        GyroFullScale::Scale500Dps => 500,
        GyroFullScale::Scale1000Dps => 1000,
        _ => 2000,
    }
}

/// Acc full scale in g; `Max` selects 16 g.
pub open spec fn acc_full_scale(acc_sensitivity: AccFullScale) -> u32 {
    match acc_sensitivity {
        AccFullScale::Scale2G => 2,
        AccFullScale::Scale4G => 4,
        AccFullScale::Scale8G => 8,
        _ => 16,
    }
}

/// The shared state once the gyro is configured: its scale, and a sample rate of
/// exactly the target.
pub open spec fn gyro_configured(
    c: ImuCommon,
    gyro_sensitivity: GyroFullScale,
    gyro_units: GyroUnits,
    target_hz: u32,
) -> ImuCommon {
    ImuCommon {
        gyro_scale: GyroScale {
            full_scale_dps: gyro_full_scale(gyro_sensitivity),
            counts: 1,
            units: gyro_units,
        },
        gyro_sample_rate_hz: target_hz,
        ..c
    }
}

/// The shared state once the accelerometer is configured: its scale; the sample
/// rate is left as it was.
pub open spec fn acc_configured(
    c: ImuCommon,
    acc_sensitivity: AccFullScale,
    acc_units: AccUnits,
) -> ImuCommon {
    ImuCommon {
        acc_scale: AccScale {
            full_scale_g: acc_full_scale(acc_sensitivity),
            counts: 32768,
            units: acc_units,
        },
        ..c
    }
}

/// Step `step` of `init`: a single write of zero to register zero of bus address
/// zero.
pub open spec fn init_op(step: usize) -> Option<InitOp> {
    if step == 0 {
        spec_write_op(0, 0, 0)
    } else {
        None
    }
}

/// The step of `init` at which both sensors are configured; it is also the step
/// at which `init` completes.
pub const CONFIGURE_STEP: usize = 1;

/// Step `step` of `init` for a device at `address` and the request `r`.
pub open spec fn planned_op(address: u8, step: usize, r: InitRequest) -> Option<InitOp> {
    init_op(step)
}

/// What step `step` of `init` does to the shared state.
pub open spec fn step_common(c: ImuCommon, step: usize, r: InitRequest) -> ImuCommon {
    if step == CONFIGURE_STEP {
        gyro_configured(
            acc_configured(c, r.acc_sensitivity, r.acc_units),
            r.gyro_sensitivity,
            r.gyro_units,
            r.target_hz,
        )
    } else {
        c
    }
}

/// The shared state after the first `n` steps of `init`.
pub open spec fn common_after_steps(c: ImuCommon, n: nat, r: InitRequest) -> ImuCommon
    decreases n,
{
    if n == 0 {
        c
    } else {
        step_common(common_after_steps(c, (n - 1) as nat, r), (n - 1) as usize, r)
    }
}

impl<B> ImuMock<B> {
    /// Constructor.
    pub fn new(bus: B, axis_order: ImuAxisOrder) -> (r: Self)
        ensures
            r.bus == bus,
            r.common == spec_common_new(axis_order),
            r.config == (ImuDeviceConfig {
                gyro_id_msp: ImuDeviceConfig::MSP_ACC_ID_DEFAULT,
                acc_id_msp: ImuDeviceConfig::MSP_ACC_ID_DEFAULT,
                axis_order,
                device_id: 0,
                address: 0,
                flags: 0,
            }),
    {
        Self {
            bus,
            common: ImuCommon::new(axis_order),
            config: ImuDeviceConfig {
                gyro_id_msp: ImuDeviceConfig::MSP_ACC_ID_DEFAULT,
                acc_id_msp: ImuDeviceConfig::MSP_ACC_ID_DEFAULT,
                axis_order,
                device_id: 0,
                address: 0,
                flags: 0,
            },
        }
    }

    /// Sets the gyro scale, and the gyro sample rate to the target.
    pub fn calculate_gyro_scale_and_odr(
        &mut self,
        gyro_sensitivity: GyroFullScale,
        gyro_units: GyroUnits,
        target_output_data_rate_hz: u32,
    )
        ensures
            final(self).common == gyro_configured(
                old(self).common,
                gyro_sensitivity,
                gyro_units,
                target_output_data_rate_hz,
            ),
            final(self).bus == old(self).bus,
            final(self).config == old(self).config,
    {
        let scale_dps: u32 = match gyro_sensitivity {
            GyroFullScale::Scale125Dps => 125,
            GyroFullScale::Scale250Dps => 250,
            GyroFullScale::Scale500Dps => 500,
            GyroFullScale::Scale1000Dps => 1000,
            _ => 2000,
        };
        self.common.gyro_scale = GyroScale {
            full_scale_dps: scale_dps,
            counts: 1,
            units: gyro_units,
        };

        self.common.gyro_sample_rate_hz = target_output_data_rate_hz;
    }

    /// Sets the accelerometer scale.
    pub fn calculate_acc_scale(&mut self, acc_sensitivity: AccFullScale, acc_units: AccUnits)
        ensures
            final(self).common == acc_configured(old(self).common, acc_sensitivity, acc_units),
            final(self).bus == old(self).bus,
            final(self).config == old(self).config,
    {
        let scale: u32 = match acc_sensitivity {
            AccFullScale::Scale2G => 2,
            AccFullScale::Scale4G => 4,
            AccFullScale::Scale8G => 8,
            _ => 16,
        };
        self.common.acc_scale = AccScale { full_scale_g: scale, counts: 32768, units: acc_units };
    }

    /// `outcome` is the outcome of the previous operation (`Ok` before the first).
    /// A failure ends initialisation with its error. Otherwise this is step `step`
    /// of `init`: its operation, or, when there is none, the end of initialisation
    /// with the gyro and accelerometer sample rates actually set.
    pub fn init_next<E>(
        &mut self,
        step: usize,
        outcome: Result<(), E>,
        target_output_data_rate_hz: u32,
        gyro_sensitivity: GyroFullScale,
        gyro_units: GyroUnits,
        acc_sensitivity: AccFullScale,
        acc_units: AccUnits,
    ) -> (r: InitProgress<E>)
        ensures
            outcome matches Err(e) ==> r == InitProgress::<E>::Done(Err(e)) && *final(self)
                == *old(self),
            outcome is Ok ==> {
                &&& final(self).common == step_common(
                    old(self).common,
                    step,
                    (InitRequest {
                        target_hz: target_output_data_rate_hz,
                        gyro_sensitivity,
                        gyro_units,
                        acc_sensitivity,
                        acc_units,
                    }),
                )
                &&& final(self).bus == old(self).bus
                &&& final(self).config == old(self).config
                &&& r == (match planned_op(
                    old(self).config.address,
                    step,
                    (InitRequest {
                        target_hz: target_output_data_rate_hz,
                        gyro_sensitivity,
                        gyro_units,
                        acc_sensitivity,
                        acc_units,
                    }),
                ) {
                    Some(op) => InitProgress::<E>::Perform(op),
                    None => InitProgress::<E>::Done(
                        Ok(
                            (
                                final(self).common.gyro_sample_rate_hz,
                                final(self).common.acc_sample_rate_hz,
                            ),
                        ),
                    ),
                })
            },
    {
        if let Err(e) = outcome {
            return InitProgress::Done(Err(e));
        }
        match self.init_step(
            step,
            target_output_data_rate_hz,
            gyro_sensitivity,
            gyro_units,
            acc_sensitivity,
            acc_units,
        ) {
            Some(op) => InitProgress::Perform(op),
            None => InitProgress::Done(
                Ok((self.common.gyro_sample_rate_hz, self.common.acc_sample_rate_hz)),
            ),
        }
    }

    /// Step `step` of `init`: the bus operation to perform next, or `None` when
    /// initialisation is complete. Both sensors are configured at the step that
    /// completes it, the accelerometer first.
    pub fn init_step(
        &mut self,
        step: usize,
        target_output_data_rate_hz: u32,
        gyro_sensitivity: GyroFullScale,
        gyro_units: GyroUnits,
        acc_sensitivity: AccFullScale,
        acc_units: AccUnits,
    ) -> (op: Option<InitOp>)
        ensures
            op == init_op(step),
            final(self).common == step_common(
                old(self).common,
                step,
                (InitRequest {
                    target_hz: target_output_data_rate_hz,
                    gyro_sensitivity,
                    gyro_units,
                    acc_sensitivity,
                    acc_units,
                }),
            ),
            final(self).bus == old(self).bus,
            final(self).config == old(self).config,
    {
        if step == 0 {
            write_op(0, 0, 0)
        } else if step == CONFIGURE_STEP {
            self.calculate_acc_scale(acc_sensitivity, acc_units);
            self.calculate_gyro_scale_and_odr(
                gyro_sensitivity,
                gyro_units,
                target_output_data_rate_hz,
            );
            None
        } else {
            None
        }
    }

    /// Where the samples are: accelerometer from ACC_XL, gyro from GYRO_XL; a
    /// combined read of 12 bytes from ACC_XL holds the accelerometer and then the
    /// gyro. Values are little-endian.
    pub fn sample_layout() -> (r: SampleLayout)
        ensures
            r == (SampleLayout {
                acc_register: REG_ACC_XL,
                gyro_register: REG_GYRO_XL,
                burst_register: REG_ACC_XL,
                burst_len: 12,
                acc_at: 0,
                gyro_at: 6,
                big_endian: false,
            }),
            r.wf(),
    {
        SampleLayout {
            acc_register: REG_ACC_XL,
            gyro_register: REG_GYRO_XL,
            burst_register: REG_ACC_XL,
            burst_len: 12,
            acc_at: 0,
            gyro_at: 6,
            big_endian: false,
        }
    }

    /// The bytes to store at ACC_XL (the first element) so that the device reports
    /// the raw accelerometer sample `(x, y, z)`.
    pub fn acc_sample_write(x: i16, y: i16, z: i16) -> (r: (u8, [u8; 6]))
        ensures
            r.0 == REG_ACC_XL,
            le_i16_value(r.1[0], r.1[1]) == x,
            le_i16_value(r.1[2], r.1[3]) == y,
            le_i16_value(r.1[4], r.1[5]) == z,
    {
        (REG_ACC_XL, sample_to_le_bytes(x, y, z))
    }

    /// The bytes to store at GYRO_XL (the first element) so that the device reports
    /// the raw gyro sample `(x, y, z)`.
    pub fn gyro_sample_write(x: i16, y: i16, z: i16) -> (r: (u8, [u8; 6]))
        ensures
            r.0 == REG_GYRO_XL,
            le_i16_value(r.1[0], r.1[1]) == x,
            le_i16_value(r.1[2], r.1[3]) == y,
            le_i16_value(r.1[4], r.1[5]) == z,
    {
        (REG_GYRO_XL, sample_to_le_bytes(x, y, z))
    }
}

/// `init` performs exactly one bus operation, at step zero; every later step reports
/// completion.
pub proof fn lemma_init_steps(step: usize)
    ensures
        step < CONFIGURE_STEP <==> init_op(step) is Some,
{
}

/// A complete `init`, whose last step configures the accelerometer and then the
/// gyro: afterwards both scales are those requested and the gyro sample rate is the
/// target.
pub proof fn lemma_init_configures(c: ImuCommon, r: InitRequest)
    ensures
        common_after_steps(c, (CONFIGURE_STEP + 1) as nat, r) == gyro_configured(
            acc_configured(c, r.acc_sensitivity, r.acc_units),
            r.gyro_sensitivity,
            r.gyro_units,
            r.target_hz,
        ),
{
    lemma_common_after_steps(c, (CONFIGURE_STEP + 1) as nat, r);
}

proof fn lemma_common_after_steps(c: ImuCommon, n: nat, r: InitRequest)
    requires
        n <= (CONFIGURE_STEP + 1),
    ensures
        common_after_steps(c, n, r) == (if n <= CONFIGURE_STEP {
            c
        } else {
            gyro_configured(
                acc_configured(c, r.acc_sensitivity, r.acc_units),
                r.gyro_sensitivity,
                r.gyro_units,
                r.target_hz,
            )
        }),
    decreases n,
{
    if n > 0 {
        lemma_common_after_steps(c, (n - 1) as nat, r);
    }
}

/// The stored full scales are the ones requested, and the largest (2000 dps, 16 g)
/// for `Max`.
pub proof fn lemma_full_scale_is_requested(
    gyro_sensitivity: GyroFullScale,
    acc_sensitivity: AccFullScale,
)
    ensures
        requested_dps(gyro_sensitivity) matches Some(dps) ==> gyro_full_scale(gyro_sensitivity)
            == dps,
        requested_dps(gyro_sensitivity) is None ==> gyro_full_scale(gyro_sensitivity) == 2000,
        requested_g(acc_sensitivity) matches Some(g) ==> acc_full_scale(acc_sensitivity) == g,
        requested_g(acc_sensitivity) is None ==> acc_full_scale(acc_sensitivity) == 16,
{
}

} // verus!

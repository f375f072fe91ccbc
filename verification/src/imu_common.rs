use vstd::prelude::*;

use crate::axis::ImuAxisOrder;

verus! {

/// Gyroscope full-scale range requested by the caller.
#[derive(Clone, Copy, Debug, PartialEq, Eq, Structural)]
pub enum GyroFullScale {
    Scale125Dps,
    Scale250Dps,
    Scale500Dps,
    Scale1000Dps,
    Scale2000Dps,
    Max,
}

/// Accelerometer full-scale range requested by the caller.
#[derive(Clone, Copy, Debug, PartialEq, Eq, Structural)]
pub enum AccFullScale {
    Scale2G,
    Scale4G,
    Scale8G,
    Scale16G,
    Max,
}

/// Units of gyroscope readings: degrees or radians per second.
#[derive(Clone, Copy, Debug, PartialEq, Eq, Structural)]
pub enum GyroUnits {
    Dps,
    Rps,
}

/// Units of accelerometer readings: standard gravities or metres per second squared.
#[derive(Clone, Copy, Debug, PartialEq, Eq, Structural)]
pub enum AccUnits {
    G,
    Mps2,
}

/// Gyroscope scale factor, exactly: one count is `full_scale_dps / counts` degrees
/// per second, expressed in `units` (radians per second when `units` is `Rps`).
#[derive(Clone, Copy, Debug, PartialEq, Eq, Structural)]
pub struct GyroScale {
    pub full_scale_dps: u32,
    pub counts: u32,
    pub units: GyroUnits,
}

/// Accelerometer scale factor, exactly: one count is `full_scale_g / counts`
/// standard gravities, expressed in `units` (times standard gravity when `units`
/// is `Mps2`).
#[derive(Clone, Copy, Debug, PartialEq, Eq, Structural)]
pub struct AccScale {
    pub full_scale_g: u32,
    pub counts: u32,
    pub units: AccUnits,
}

/// State shared by every driver: axis order, scale factors and the output data
/// rates actually configured.
#[derive(Clone, Copy, Debug, PartialEq, Eq, Structural)]
pub struct ImuCommon {
    pub axis_order: ImuAxisOrder,
    pub acc_scale: AccScale,
    pub gyro_scale: GyroScale,
    pub acc_sample_rate_hz: u32,
    pub gyro_sample_rate_hz: u32,
}

/// Number of counts in the positive half of a signed 16-bit reading.
pub const COUNTS_16_BIT: u32 = 32768;

/// The state of a driver before `init`: 8 g and 2000 degrees per second full scale,
/// 1000 Hz for both sensors.
pub open spec fn spec_common_new(axis_order: ImuAxisOrder) -> ImuCommon {
    ImuCommon {
        axis_order,
        acc_scale: AccScale { full_scale_g: 8, counts: 32768, units: AccUnits::G },
        gyro_scale: GyroScale { full_scale_dps: 2000, counts: 32768, units: GyroUnits::Dps },
        acc_sample_rate_hz: 1000,
        gyro_sample_rate_hz: 1000,
    }
}

impl ImuCommon {
    /// Constructor.
    pub fn new(axis_order: ImuAxisOrder) -> (r: Self)
        ensures
            r == spec_common_new(axis_order),
    {
        ImuCommon {
            axis_order,
            acc_scale: AccScale { full_scale_g: 8, counts: COUNTS_16_BIT, units: AccUnits::G },
            gyro_scale: GyroScale {
                full_scale_dps: 2000,
                counts: COUNTS_16_BIT,
                units: GyroUnits::Dps,
            },
            acc_sample_rate_hz: 1000,
            gyro_sample_rate_hz: 1000,
        }
    }
}

impl Default for ImuCommon {
    fn default() -> (r: Self)
        ensures
            r == spec_common_new(ImuAxisOrder::XPOS_YPOS_ZPOS),
    {
        ImuCommon::new(ImuAxisOrder::XPOS_YPOS_ZPOS)
    }
}

/// What `init` is asked for: a target output data rate, and the full scale and
/// units of each sensor.
#[derive(Clone, Copy, Debug, PartialEq, Eq, Structural)]
pub struct InitRequest {
    pub target_hz: u32,
    pub gyro_sensitivity: GyroFullScale,
    pub gyro_units: GyroUnits,
    pub acc_sensitivity: AccFullScale,
    pub acc_units: AccUnits,
}

/// One step of a device's initialisation sequence.
#[derive(Clone, Copy, Debug, PartialEq, Eq, Structural)]
pub enum InitOp {
    /// Write `value` to register `reg` of the device at `address`; an error ends
    /// the initialisation with that error.
    WriteRegister { address: u8, reg: u8, value: u8 },
    /// Read register `reg` of the device at `address`; the value and any error are
    /// discarded.
    ReadRegister { address: u8, reg: u8 },
    /// Wait `ms` milliseconds.
    DelayMs { ms: u32 },
}

/// What a driver's `init_next` asks for: the next operation to perform, or the
/// end of initialisation with its result, the gyro and accelerometer sample rates
/// actually set, or the error that ended it.
#[derive(Debug)]
pub enum InitProgress<E> {
    Perform(InitOp),
    Done(Result<(u32, u32), E>),
}

pub open spec fn spec_write_op(address: u8, reg: u8, value: u8) -> Option<InitOp> {
    Some(InitOp::WriteRegister { address, reg, value })
}

pub open spec fn spec_read_op(address: u8, reg: u8) -> Option<InitOp> {
    Some(InitOp::ReadRegister { address, reg })
}

pub open spec fn spec_delay_op(ms: u32) -> Option<InitOp> {
    Some(InitOp::DelayMs { ms })
}

/// The step that writes `value` to register `reg` of the device at `address`.
pub fn write_op(address: u8, reg: u8, value: u8) -> (r: Option<InitOp>)
    ensures
        r == spec_write_op(address, reg, value),
{
    Some(InitOp::WriteRegister { address, reg, value })
}

/// The step that reads register `reg` of the device at `address`.
pub fn read_op(address: u8, reg: u8) -> (r: Option<InitOp>)
    ensures
        r == spec_read_op(address, reg),
{
    Some(InitOp::ReadRegister { address, reg })
}

/// The step that waits `ms` milliseconds.
pub fn delay_op(ms: u32) -> (r: Option<InitOp>)
    ensures
        r == spec_delay_op(ms),
{
    Some(InitOp::DelayMs { ms })
}

/// Where a driver finds its samples: the first register of the accelerometer and
/// of the gyroscope triple, the register a combined read starts at, how many bytes
/// it reads and at which offsets of that buffer the two triples stand, and whether
/// each 16-bit value is stored big-endian.
#[derive(Clone, Copy, Debug, PartialEq, Eq, Structural)]
pub struct SampleLayout {
    pub acc_register: u8,
    pub gyro_register: u8,
    pub burst_register: u8,
    pub burst_len: usize,
    pub acc_at: usize,
    pub gyro_at: usize,
    pub big_endian: bool,
}

impl SampleLayout {
    /// Both 6-byte triples lie inside the combined read.
    pub open spec fn wf(self) -> bool {
        &&& self.acc_at + 6 <= self.burst_len
        &&& self.gyro_at + 6 <= self.burst_len
    }

    /// The accelerometer and gyroscope triples of a combined read.
    pub fn split_acc_gyro(&self, buf: &[u8]) -> (r: ([u8; 6], [u8; 6]))
        requires
            self.wf(),
            buf@.len() == self.burst_len,
        ensures
            r.0@ == buf@.subrange(self.acc_at as int, self.acc_at + 6),
            r.1@ == buf@.subrange(self.gyro_at as int, self.gyro_at + 6),
    {
        (take6(buf, self.acc_at), take6(buf, self.gyro_at))
    }
}

/// The six bytes of `buf` that start at `start`.
pub fn take6(buf: &[u8], start: usize) -> (r: [u8; 6])
    requires
        start + 6 <= buf@.len(),
    ensures
        r@ == buf@.subrange(start as int, start + 6),
{
    let r = [
        buf[start],
        buf[start + 1],
        buf[start + 2],
        buf[start + 3],
        buf[start + 4],
        buf[start + 5],
    ];
    assert(r@ =~= buf@.subrange(start as int, start + 6));
    r
}

/// The signed 16-bit value whose little-endian bytes are `lo` and `hi`.
pub open spec fn le_i16_value(lo: u8, hi: u8) -> int {
    let u = hi as int * 256 + lo as int;
    if u >= 32768 {
        u - 65536
    } else {
        u
    }
}

/// Little-endian bytes of a signed 16-bit value.
pub fn i16_to_le_bytes(v: i16) -> (r: (u8, u8))
    ensures
        le_i16_value(r.0, r.1) == v,
{
    let u: u16 = v as u16;
    let lo: u8 = (u & 0xff) as u8;
    let hi: u8 = (u >> 8) as u8;
    assert(hi as int * 256 + lo as int == u as int) by (bit_vector)
        requires
            lo == (u & 0xff) as u8,
            hi == (u >> 8) as u8,
    ;
    assert(u as int == if v >= 0 { v as int } else { v as int + 65536 }) by (bit_vector)
        requires
            u == v as u16,
    ;
    (lo, hi)
}

/// The six little-endian bytes of a raw sample `(x, y, z)`, as the sensor stores it.
pub fn sample_to_le_bytes(x: i16, y: i16, z: i16) -> (r: [u8; 6])
    ensures
        le_i16_value(r[0], r[1]) == x,
        le_i16_value(r[2], r[3]) == y,
        le_i16_value(r[4], r[5]) == z,
{
    let (x0, x1) = i16_to_le_bytes(x);
    let (y0, y1) = i16_to_le_bytes(y);
    let (z0, z1) = i16_to_le_bytes(z);
    [x0, x1, y0, y1, z0, z1]
}

/// A value below 16 and a multiple of 16, or-ed together in either order, keep
/// their own nibbles.
pub proof fn lemma_nibbles(low: u8, high: u8)
    requires
        low < 16,
        high % 16 == 0,
    ensures
        (low | high) & 0x0F == low,
        (low | high) & 0xF0 == high,
        (high | low) & 0x0F == low,
        (high | low) & 0xF0 == high,
        (low | high) == low + high,
        (high | low) == low + high,
{
    assert((low | high) & 0x0F == low && (low | high) & 0xF0 == high && (high | low) & 0x0F == low
        && (high | low) & 0xF0 == high) by (bit_vector)
        requires
            low < 16,
            high % 16 == 0,
    ;
    assert((low | high) == low + high && (high | low) == low + high) by (bit_vector)
        requires
            low < 16,
            high % 16 == 0,
    ;
}

/// A multiple of 8 below 32 or-ed with a value below 8 is their sum: the two
/// occupy separate bits.
pub proof fn lemma_low_three_bits(high: u8, low: u8)
    requires
        low < 8,
        high % 8 == 0,
    ensures
        (high | low) == high + low,
{
    assert((high | low) == high + low) by (bit_vector)
        requires
            low < 8,
            high % 8 == 0,
    ;
}

/// The gyro full scale a request names, in degrees per second; `Max` names none
/// (it asks for the largest the device offers).
pub open spec fn requested_dps(gyro_sensitivity: GyroFullScale) -> Option<u32> {
    match gyro_sensitivity {
        GyroFullScale::Scale125Dps => Some(125),
        GyroFullScale::Scale250Dps => Some(250),
        GyroFullScale::Scale500Dps => Some(500),
        GyroFullScale::Scale1000Dps => Some(1000),
        GyroFullScale::Scale2000Dps => Some(2000),
        GyroFullScale::Max => None,
    }
}

/// The accelerometer full scale a request names, in g; `Max` names none (it asks
/// for the largest the device offers).
pub open spec fn requested_g(acc_sensitivity: AccFullScale) -> Option<u32> {
    match acc_sensitivity {
        AccFullScale::Scale2G => Some(2),
        AccFullScale::Scale4G => Some(4),
        AccFullScale::Scale8G => Some(8),
        AccFullScale::Scale16G => Some(16),
        AccFullScale::Max => None,
    }
}

/// `base` doubled `n` times.
pub open spec fn doubled(base: int, n: int) -> int
    decreases n,
{
    if n <= 0 {
        base
    } else {
        2 * doubled(base, n - 1)
    }
}

} // verus!

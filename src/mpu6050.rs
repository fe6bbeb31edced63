//! Driver for the MPU-6050 inertial measurement unit.
//!
//! Readings are returned as raw signed counts together with the sensitivity
//! that was configured when they were taken, so that a reading can never be
//! scaled with another range's divisor. Bias calibration accumulates exact
//! integer sums of stationary samples.
use crate::bits::{read_word_2c, word_2c};
use crate::consts::{
    accel_out, gyro_out, ACCEL_CONFIG, GYRO_CONFIG, MPU_ADDR, PWR_MGMT_1, TEMP_OUT, WHO_AM_I,
};
use crate::i2c::{
    is_field_update, issued, lemma_issued_concat, lemma_issued_push, BusEvent, DelayMs, I2cBus,
    I2cDevice, I2cWrapperError,
};
use crate::vector::Vector3;
use vstd::prelude::*;

verus! {

/// Settle time after a reset or a wake, in milliseconds.
pub const SETTLE_MS: u8 = 100;

/// A scale factor of `counts / units` raw counts per physical unit.
#[derive(Clone, Copy, Debug, PartialEq, Eq)]
pub struct Sensitivity {
    pub counts: u32,
    pub units: u32,
}

/// Accelerometer full-scale range, in g.
#[derive(Clone, Copy, Debug, PartialEq, Eq)]
pub enum AccelRange {
    G2,
    G4,
    G8,
    G16,
}

/// Gyroscope full-scale range, in degrees per second.
#[derive(Clone, Copy, Debug, PartialEq, Eq)]
pub enum GyroRange {
    D250,
    D500,
    D1000,
    D2000,
}

impl AccelRange {
    /// The code written into the range field of the configuration register.
    pub open spec fn spec_code(self) -> u8 {
        match self {
            AccelRange::G2 => 0,
            AccelRange::G4 => 1,
            AccelRange::G8 => 2,
            AccelRange::G16 => 3,
        }
    }

    /// Raw counts per g.
    pub open spec fn spec_sensitivity(self) -> Sensitivity {
        match self {
            AccelRange::G2 => Sensitivity { counts: 16384, units: 1 },
            AccelRange::G4 => Sensitivity { counts: 8192, units: 1 },
            AccelRange::G8 => Sensitivity { counts: 4096, units: 1 },
            AccelRange::G16 => Sensitivity { counts: 2048, units: 1 },
        }
    }

    pub fn code(&self) -> (c: u8)
        ensures
            c == self.spec_code(),
    {
        match self {
            AccelRange::G2 => 0,
            AccelRange::G4 => 1,
            AccelRange::G8 => 2,
            AccelRange::G16 => 3,
        }
    }

    /// Raw counts per g in this range.
    pub fn sensitivity(&self) -> (s: Sensitivity)
        ensures
            s == self.spec_sensitivity(),
    {
        match self {
            AccelRange::G2 => Sensitivity { counts: 16384, units: 1 },
            AccelRange::G4 => Sensitivity { counts: 8192, units: 1 },
            AccelRange::G8 => Sensitivity { counts: 4096, units: 1 },
            AccelRange::G16 => Sensitivity { counts: 2048, units: 1 },
        }
    }
}

impl GyroRange {
    /// The code written into the range field of the configuration register.
    pub open spec fn spec_code(self) -> u8 {
        match self {
            GyroRange::D250 => 0,
            GyroRange::D500 => 1,
            GyroRange::D1000 => 2,
            GyroRange::D2000 => 3,
        }
    }

    /// Raw counts per degree per second: 131, 65.5, 32.8 and 16.4.
    pub open spec fn spec_sensitivity(self) -> Sensitivity {
        match self {
            GyroRange::D250 => Sensitivity { counts: 1310, units: 10 },
            GyroRange::D500 => Sensitivity { counts: 655, units: 10 },
            GyroRange::D1000 => Sensitivity { counts: 328, units: 10 },
            GyroRange::D2000 => Sensitivity { counts: 164, units: 10 },
        }
    }

    pub fn code(&self) -> (c: u8)
        ensures
            c == self.spec_code(),
    {
        match self {
            GyroRange::D250 => 0,
            GyroRange::D500 => 1,
            GyroRange::D1000 => 2,
            GyroRange::D2000 => 3,
        }
    }

    /// Raw counts per degree per second in this range.
    pub fn sensitivity(&self) -> (s: Sensitivity)
        ensures
            s == self.spec_sensitivity(),
    {
        match self {
            GyroRange::D250 => Sensitivity { counts: 1310, units: 10 },
            GyroRange::D500 => Sensitivity { counts: 655, units: 10 },
            GyroRange::D1000 => Sensitivity { counts: 328, units: 10 },
            GyroRange::D2000 => Sensitivity { counts: 164, units: 10 },
        }
    }
}

/// A three-axis sample in raw counts, with the sensitivity in force when it
/// was read: the physical value of an axis is `counts * units / counts_per`,
/// that is `counts / (sensitivity.counts / sensitivity.units)`.
#[derive(Clone, Copy, Debug)]
pub struct Reading {
    pub counts: Vector3<i32>,
    pub sensitivity: Sensitivity,
}

/// The sum of `samples` stationary readings taken at `sensitivity`; the bias
/// is `sum / samples` counts.
#[derive(Clone, Copy, Debug)]
pub struct BiasSum {
    pub sum: Vector3<i64>,
    pub samples: u32,
    pub sensitivity: Sensitivity,
}

/// An error of the driver.
#[derive(Debug)]
pub enum Mpu6050Error<T> {
    /// The transport failed.
    I2c(T),
    /// The identity register held this value instead of the device address.
    InvalidChipId(u8),
}

/// The three signed words of a six-byte sensor block.
pub open spec fn decode_vector(b: Seq<u8>) -> Vector3<i32> {
    Vector3 {
        x: word_2c(b[0], b[1]) as i32,
        y: word_2c(b[2], b[3]) as i32,
        z: word_2c(b[4], b[5]) as i32,
    }
}

/// The samples carried by a run of six-byte sensor reads.
pub open spec fn samples_of(ops: Seq<BusEvent>) -> Seq<Vector3<i32>> {
    ops.map_values(|op: BusEvent| decode_vector(op.data()))
}

/// Component-wise sum of a sequence of samples.
pub open spec fn sum_of(s: Seq<Vector3<i32>>) -> Vector3<int>
    decreases s.len(),
{
    if s.len() == 0 {
        Vector3 { x: 0, y: 0, z: 0 }
    } else {
        let r = sum_of(s.drop_last());
        Vector3 { x: r.x + s.last().x, y: r.y + s.last().y, z: r.z + s.last().z }
    }
}

/// Every transaction of `ops` is a successful six-byte read of block `reg`.
pub open spec fn all_block_reads(ops: Seq<BusEvent>, reg: u8) -> bool {
    forall|i: int|
        0 <= i < ops.len() ==> (#[trigger] ops[i]).is_register_read(MPU_ADDR, reg, 6)
            && ops[i].succeeded()
}

/// A calibration of `iters` samples that stopped at its first failed read:
/// the reads before it were successful six-byte reads of block `reg`, and the
/// failed read of that block is the last thing issued.
pub open spec fn block_reads_failed(ops: Seq<BusEvent>, reg: u8, iters: u32) -> bool {
    &&& 1 <= ops.len() <= iters
    &&& all_block_reads(ops.drop_last(), reg)
    &&& ops.last().is_register_read(MPU_ADDR, reg, 6)
    &&& !ops.last().succeeded()
}

/// `b` is the bias of the stationary reads `ops`, taken at `sensitivity`.
pub open spec fn is_bias_of(b: BiasSum, ops: Seq<BusEvent>, sensitivity: Sensitivity) -> bool {
    &&& b.samples == ops.len()
    &&& b.sensitivity == sensitivity
    &&& b.sum.x == sum_of(samples_of(ops)).x
    &&& b.sum.y == sum_of(samples_of(ops)).y
    &&& b.sum.z == sum_of(samples_of(ops)).z
}

/// Calibrating on samples that all equal `v` yields a bias of exactly `v`:
/// the sum is the number of samples times `v`, whatever that number is.
pub proof fn lemma_constant_samples_bias(ops: Seq<BusEvent>, v: Vector3<i32>)
    requires
        forall|i: int| 0 <= i < ops.len() ==> decode_vector(#[trigger] ops[i].data()) == v,
    ensures
        sum_of(samples_of(ops)) == (Vector3::<int> {
            x: ops.len() * v.x,
            y: ops.len() * v.y,
            z: ops.len() * v.z,
        }),
    decreases ops.len(),
{
    if ops.len() > 0 {
        let init = ops.drop_last();
        assert forall|i: int| 0 <= i < init.len() implies decode_vector(
            #[trigger] init[i].data(),
        ) == v by {
            assert(init[i] == ops[i]);
        }
        lemma_constant_samples_bias(init, v);
        assert(samples_of(ops).drop_last() =~= samples_of(init));
        let last = ops.len() - 1;
        assert(decode_vector(ops[last].data()) == v);
        assert(samples_of(ops).last() == v);
        let n = init.len() as int;
        let r = sum_of(samples_of(init));
        assert(sum_of(samples_of(ops)) == (Vector3::<int> { x: r.x + v.x, y: r.y + v.y, z: r.z + v.z }));
        assert((n + 1) * v.x == n * v.x + v.x) by (nonlinear_arith);
        assert((n + 1) * v.y == n * v.y + v.y) by (nonlinear_arith);
        assert((n + 1) * v.z == n * v.z + v.z) by (nonlinear_arith);
        assert(ops.len() == n + 1);
        assert(r.x == n * v.x && r.y == n * v.y && r.z == n * v.z);
    } else {
        assert(samples_of(ops) =~= Seq::<Vector3<i32>>::empty());
        assert(sum_of(samples_of(ops)) == (Vector3::<int> { x: 0, y: 0, z: 0 }));
    }
}

/// A zero bias over no samples.
pub open spec fn no_bias(b: BiasSum, sensitivity: Sensitivity) -> bool {
    b.sum.x == 0 && b.sum.y == 0 && b.sum.z == 0 && b.samples == 0 && b.sensitivity == sensitivity
}

/// The write that wakes the device: the power-management register cleared.
pub open spec fn wake_write(ok: bool) -> BusEvent {
    BusEvent::Write { addr: MPU_ADDR, bytes: seq![PWR_MGMT_1::ADDR, 0], ok }
}

/// `ops` sets the reset bit of the power-management register (read, modify,
/// write); `ok` tells whether both transactions succeeded.
pub open spec fn is_reset_write(ops: Seq<BusEvent>, ok: bool) -> bool {
    is_field_update(ops, MPU_ADDR, PWR_MGMT_1::ADDR, PWR_MGMT_1::RESET_BIT, 1, 1, ok)
}

/// `ops` writes the most sensitive range code into the range field of
/// configuration register `reg`.
pub open spec fn is_default_range_write(ops: Seq<BusEvent>, reg: u8, ok: bool) -> bool {
    is_field_update(ops, MPU_ADDR, reg, 4, 2, 0, ok)
}

/// The identity register read back as the device address.
pub open spec fn identity_confirmed(op: BusEvent) -> bool {
    op.is_register_read(MPU_ADDR, WHO_AM_I::ADDR, 1) && op.succeeded() && op.data()[0] == MPU_ADDR
}

/// The first `k` events of a successful initialization: the reset bit set (two
/// events), a settle delay, the power register cleared, a settle delay, the
/// identity confirmed, then the accelerometer and the gyroscope range fields
/// set to their most sensitive codes (two events each).
pub open spec fn init_done_upto(ops: Seq<BusEvent>, k: int) -> bool {
    &&& ops.len() >= k
    &&& k >= 2 ==> is_reset_write(ops.subrange(0, 2), true)
    &&& k >= 3 ==> ops[2] == (BusEvent::Delay { ms: SETTLE_MS })
    &&& k >= 4 ==> ops[3] == wake_write(true)
    &&& k >= 5 ==> ops[4] == (BusEvent::Delay { ms: SETTLE_MS })
    &&& k >= 6 ==> identity_confirmed(ops[5])
    &&& k >= 8 ==> is_default_range_write(ops.subrange(6, 8), ACCEL_CONFIG::ADDR, true)
    &&& k >= 10 ==> is_default_range_write(ops.subrange(8, 10), GYRO_CONFIG::ADDR, true)
}

/// An initialization that stopped at its first failing step: the steps before
/// it completed, and the failing step is the last thing issued.
pub open spec fn init_failed(ops: Seq<BusEvent>) -> bool {
    ||| is_reset_write(ops, false)
    ||| init_done_upto(ops, 3) && ops.len() == 4 && ops[3] == wake_write(false)
    ||| init_done_upto(ops, 5) && ops.len() == 6 && ops[5].is_register_read(
        MPU_ADDR,
        WHO_AM_I::ADDR,
        1,
    ) && !identity_confirmed(ops[5])
    ||| init_done_upto(ops, 6) && is_default_range_write(ops.skip(6), ACCEL_CONFIG::ADDR, false)
    ||| init_done_upto(ops, 8) && is_default_range_write(ops.skip(8), GYRO_CONFIG::ADDR, false)
}

/// The last event of `ops` is a failed transaction, and every earlier one
/// succeeded.
pub open spec fn fails_last(ops: Seq<BusEvent>) -> bool {
    &&& ops.len() >= 1
    &&& !ops.last().succeeded()
    &&& forall|i: int| 0 <= i < ops.len() - 1 ==> (#[trigger] ops[i]).succeeded()
}

proof fn lemma_init_reset_failed(ops: Seq<BusEvent>)
    ensures
        is_reset_write(ops, false) ==> init_failed(ops) && fails_last(ops) && !init_done_upto(ops, 6),
{
}

proof fn lemma_init_wake_failed(ops: Seq<BusEvent>, ok: bool)
    requires
        ops.len() == if ok { 5int } else { 4int },
        init_done_upto(ops, 3),
        ops[3] == wake_write(ok),
        ok ==> ops[4] == (BusEvent::Delay { ms: SETTLE_MS }),
    ensures
        ok ==> init_done_upto(ops, 5),
        !ok ==> init_failed(ops) && fails_last(ops) && !init_done_upto(ops, 6),
{
    assert(ops[0] == ops.subrange(0, 2)[0]);
    assert(ops[1] == ops.subrange(0, 2)[1]);
}

proof fn lemma_init_verify_failed(ops: Seq<BusEvent>, ok: bool)
    requires
        ops.len() == 6,
        init_done_upto(ops, 5),
        ops[5].is_register_read(MPU_ADDR, WHO_AM_I::ADDR, 1),
        ok <==> identity_confirmed(ops[5]),
    ensures
        ok ==> init_done_upto(ops, 6),
        !ok ==> init_failed(ops) && !init_done_upto(ops, 6),
        !ok && !ops[5].succeeded() ==> fails_last(ops),
{
    assert(ops[0] == ops.subrange(0, 2)[0]);
    assert(ops[1] == ops.subrange(0, 2)[1]);
}

proof fn lemma_init_range_failed(ops: Seq<BusEvent>, k: int, reg: u8, ok: bool)
    requires
        k == 6 || k == 8,
        init_done_upto(ops, k),
        k == 6 ==> reg == ACCEL_CONFIG::ADDR,
        k == 8 ==> reg == GYRO_CONFIG::ADDR,
        is_default_range_write(ops.skip(k), reg, ok),
        ok ==> ops.len() == k + 2 && is_default_range_write(ops.subrange(k, k + 2), reg, true),
    ensures
        ok ==> init_done_upto(ops, k + 2),
        !ok ==> init_failed(ops) && fails_last(ops) && !init_done_upto(ops, k + 2),
{
    assert(ops[0] == ops.subrange(0, 2)[0]);
    assert(ops[1] == ops.subrange(0, 2)[1]);
    assert(ops[k] == ops.skip(k)[0]);
    if ops.len() >= k + 2 {
        assert(ops[k + 1] == ops.skip(k)[1]);
        assert(ops[k] == ops.subrange(k, k + 2)[0]);
        assert(ops[k + 1] == ops.subrange(k, k + 2)[1]);
    }
    if k == 8 {
        assert(ops[6] == ops.subrange(6, 8)[0]);
        assert(ops[7] == ops.subrange(6, 8)[1]);
    }
}

/// The MPU-6050 driver.
pub struct Mpu6050<T> {
    i2c: I2cDevice<T>,
    accel_range: AccelRange,
    gyro_range: GyroRange,
    gyro_err: BiasSum,
    acc_err: BiasSum,
}

impl<T: I2cBus> Mpu6050<T> {
    /// Every transaction issued to the device and delay waited, oldest first.
    pub closed spec fn events(&self) -> Seq<BusEvent> {
        self.i2c.events()
    }

    /// The accelerometer range in force.
    pub closed spec fn accel_range(&self) -> AccelRange {
        self.accel_range
    }

    /// The gyroscope range in force.
    pub closed spec fn gyro_range(&self) -> GyroRange {
        self.gyro_range
    }

    /// Gyroscope bias, accumulated by [`Mpu6050::calculate_imu_gyro_error`].
    pub closed spec fn gyro_bias(&self) -> BiasSum {
        self.gyro_err
    }

    /// Accelerometer bias, accumulated by [`Mpu6050::calculate_imu_acc_error`].
    pub closed spec fn acc_bias(&self) -> BiasSum {
        self.acc_err
    }

    /// The invariant of the driver: it talks to the device's address.
    pub closed spec fn wf(&self) -> bool {
        self.i2c.address() == MPU_ADDR
    }

    /// `self` and `other` differ at most in their event logs.
    pub open spec fn same_settings(&self, other: &Self) -> bool {
        &&& self.wf() == other.wf()
        &&& self.accel_range() == other.accel_range()
        &&& self.gyro_range() == other.gyro_range()
        &&& self.gyro_bias() == other.gyro_bias()
        &&& self.acc_bias() == other.acc_bias()
    }

    /// What a call `set_accel_range(range)` does, `ok` telling whether it
    /// succeeded: the range field is written by read-modify-write, and the
    /// range in force becomes `range` exactly when that succeeded.
    pub open spec fn accel_range_switched(before: Self, after: Self, range: AccelRange, ok: bool) -> bool {
        &&& after.wf()
        &&& after.accel_range() == if ok { range } else { before.accel_range() }
        &&& after.gyro_range() == before.gyro_range()
        &&& after.gyro_bias() == before.gyro_bias()
        &&& after.acc_bias() == before.acc_bias()
        &&& before.events().is_prefix_of(after.events())
        &&& is_field_update(
            issued(before.events(), after.events()),
            MPU_ADDR,
            ACCEL_CONFIG::ADDR,
            ACCEL_CONFIG::ACCEL_FS_SEL_START,
            ACCEL_CONFIG::ACCEL_FS_SEL_LEN,
            range.spec_code(),
            ok,
        )
    }

    /// What a call `read_acceleration_raw()` does, `ok` telling whether it
    /// succeeded with `reading`: one six-byte read of the acceleration block,
    /// decoded and scaled by the range in force before the call.
    pub open spec fn acceleration_read(before: Self, after: Self, ok: bool, reading: Reading) -> bool {
        &&& after.same_settings(&before)
        &&& before.events().is_prefix_of(after.events())
        &&& issued(before.events(), after.events()) == seq![after.events().last()]
        &&& after.events().last().is_register_read(MPU_ADDR, accel_out::ADDR, 6)
        &&& after.events().last().succeeded() == ok
        &&& ok ==> reading.counts == decode_vector(after.events().last().data())
            && reading.sensitivity == before.accel_range().spec_sensitivity()
    }

    /// Creates a driver on bus `i2c`, with the most sensitive ranges selected
    /// and no bias.
    pub fn new(i2c: T) -> (m: Self)
        ensures
            m.wf(),
            m.events() == Seq::<BusEvent>::empty(),
            m.accel_range() == AccelRange::G2,
            m.gyro_range() == GyroRange::D250,
            no_bias(m.gyro_bias(), GyroRange::D250.spec_sensitivity()),
            no_bias(m.acc_bias(), AccelRange::G2.spec_sensitivity()),
    {
        let zero = Vector3::new(0i64, 0i64, 0i64);
        Mpu6050 {
            i2c: I2cDevice::new(i2c, MPU_ADDR),
            accel_range: AccelRange::G2,
            gyro_range: GyroRange::D250,
            gyro_err: BiasSum { sum: zero, samples: 0, sensitivity: GyroRange::D250.sensitivity() },
            acc_err: BiasSum { sum: zero, samples: 0, sensitivity: AccelRange::G2.sensitivity() },
        }
    }

    /// Wakes the device: clears the power-management register, then waits
    /// the settle time.
    pub fn wake<D: DelayMs>(&mut self, delay: &mut D) -> (r: Result<(), Mpu6050Error<T::Error>>)
        requires
            old(self).wf(),
        ensures
            final(self).same_settings(old(self)),
            final(self).events() == if r is Ok {
                old(self).events().push(wake_write(true)).push(BusEvent::Delay { ms: SETTLE_MS })
            } else {
                old(self).events().push(wake_write(false))
            },
            r is Err ==> r->Err_0 is I2c,
    {
        self.write_byte(PWR_MGMT_1::ADDR, 0x0)?;
        self.i2c.settle(delay, SETTLE_MS);
        Ok(())
    }

    /// Resets the device: sets the reset bit, then waits the settle time.
    /// Completion is not polled; the settle time is the protocol's.
    pub fn reset_device<D: DelayMs>(&mut self, delay: &mut D) -> (r: Result<
        (),
        Mpu6050Error<T::Error>,
    >)
        requires
            old(self).wf(),
        ensures
            final(self).same_settings(old(self)),
            old(self).events().is_prefix_of(final(self).events()),
            ({
                let ops = issued(old(self).events(), final(self).events());
                &&& r is Ok ==> ops.len() == 3 && is_reset_write(ops.subrange(0, 2), true)
                    && ops[2] == (BusEvent::Delay { ms: SETTLE_MS })
                &&& r is Err ==> is_reset_write(ops, false) && r->Err_0 is I2c
            }),
    {
        let ghost t0 = self.events();
        self.write_bit(PWR_MGMT_1::ADDR, PWR_MGMT_1::RESET_BIT, true)?;
        let ghost t1 = self.events();
        self.i2c.settle(delay, SETTLE_MS);
        proof {
            lemma_issued_push(t1, self.events().last());
            lemma_issued_concat(t0, t1, self.events());
            assert(issued(t0, self.events()).subrange(0, 2) =~= issued(t0, t1));
        }
        Ok(())
    }

    /// Verifies the device's identity: its identity register must hold the
    /// device address.
    pub fn verify(&mut self) -> (r: Result<(), Mpu6050Error<T::Error>>)
        requires
            old(self).wf(),
        ensures
            final(self).same_settings(old(self)),
            old(self).events().is_prefix_of(final(self).events()),
            issued(old(self).events(), final(self).events()).len() == 1,
            final(self).events().last().is_register_read(MPU_ADDR, WHO_AM_I::ADDR, 1),
            r is Ok <==> identity_confirmed(final(self).events().last()),
            (r matches Err(Mpu6050Error::I2c(_))) <==> !final(self).events().last().succeeded(),
            r matches Err(Mpu6050Error::InvalidChipId(a)) ==> a == final(self).events().last().data()[0],
    {
        let addr = self.read_byte(WHO_AM_I::ADDR)?;
        if addr != MPU_ADDR {
            Err(Mpu6050Error::InvalidChipId(addr))
        } else {
            Ok(())
        }
    }

    /// Initializes the device: reset, wake, identity check, then the most
    /// sensitive ranges. Stops at the first error; what was done before it is
    /// not undone.
    pub fn init<D: DelayMs>(&mut self, delay: &mut D) -> (r: Result<(), Mpu6050Error<T::Error>>)
        requires
            old(self).wf(),
        ensures
            final(self).wf(),
            final(self).gyro_bias() == old(self).gyro_bias(),
            final(self).acc_bias() == old(self).acc_bias(),
            old(self).events().is_prefix_of(final(self).events()),
            ({
                let ops = issued(old(self).events(), final(self).events());
                &&& r is Ok <==> ops.len() == 10 && init_done_upto(ops, 10)
                &&& r is Err ==> init_failed(ops)
                &&& r matches Err(Mpu6050Error::InvalidChipId(a)) ==> ops.len() == 6
                    && init_done_upto(ops, 5) && ops[5].is_register_read(MPU_ADDR, WHO_AM_I::ADDR, 1)
                    && ops[5].succeeded() && a == ops[5].data()[0] && a != MPU_ADDR
                &&& r matches Err(Mpu6050Error::I2c(_)) ==> fails_last(ops)
                &&& final(self).accel_range() == if init_done_upto(ops, 8) {
                    AccelRange::G2
                } else {
                    old(self).accel_range()
                }
                &&& final(self).gyro_range() == if init_done_upto(ops, 10) {
                    GyroRange::D250
                } else {
                    old(self).gyro_range()
                }
                &&& (forall|i: int| 0 <= i < ops.len() ==> (#[trigger] ops[i]).succeeded()) && (
                ops.len() >= 6 ==> ops[5].data()[0] == MPU_ADDR) ==> r is Ok
            }),
    {
        let ghost t0 = self.events();
        let res = self.reset_device(delay);
        let ghost t1 = self.events();
        proof {
            lemma_init_reset_failed(issued(t0, t1));
        }
        res?;
        let res = self.wake(delay);
        let ghost t2 = self.events();
        proof {
            let w = t2.subrange(t1.len() as int, t2.len() as int);
            assert(t1.is_prefix_of(t2)) by {
                assert(t2.subrange(0, t1.len() as int) =~= t1);
            }
            lemma_issued_concat(t0, t1, t2);
            let ops = issued(t0, t2);
            assert(ops.subrange(0, 2) =~= issued(t0, t1).subrange(0, 2));
            assert(ops[2] == issued(t0, t1)[2]);
            assert(ops[3] == t2[t1.len() as int]);
            if res is Ok {
                assert(ops[4] == t2.last());
            }
            lemma_init_wake_failed(ops, res is Ok);
        }
        res?;
        let res = self.verify();
        let ghost t3 = self.events();
        proof {
            lemma_issued_concat(t0, t2, t3);
            let ops = issued(t0, t3);
            assert(ops.subrange(0, 2) =~= issued(t0, t2).subrange(0, 2));
            assert(ops[5] == t3.last());
            lemma_init_verify_failed(ops, res is Ok);
        }
        res?;
        let res = self.set_accel_range(AccelRange::G2);
        let ghost t4 = self.events();
        proof {
            lemma_issued_concat(t0, t3, t4);
            let ops = issued(t0, t4);
            assert(ops.subrange(0, 2) =~= issued(t0, t3).subrange(0, 2));
            assert(ops.skip(6) =~= issued(t3, t4));
            if res is Ok {
                assert(ops.subrange(6, 8) =~= issued(t3, t4));
            }
            lemma_init_range_failed(ops, 6, ACCEL_CONFIG::ADDR, res is Ok);
        }
        res?;
        let res = self.set_gyro_range(GyroRange::D250);
        let ghost t5 = self.events();
        proof {
            lemma_issued_concat(t0, t4, t5);
            let ops = issued(t0, t5);
            assert(ops.subrange(0, 2) =~= issued(t0, t4).subrange(0, 2));
            assert(ops.subrange(6, 8) =~= issued(t0, t4).subrange(6, 8));
            assert(ops.skip(8) =~= issued(t4, t5));
            if res is Ok {
                assert(ops.subrange(8, 10) =~= issued(t4, t5));
            }
            lemma_init_range_failed(ops, 8, GYRO_CONFIG::ADDR, res is Ok);
        }
        res?;
        Ok(())
    }

    /// Enables or disables the temperature sensor.
    pub fn set_temp_enabled(&mut self, enabled: bool) -> (r: Result<(), Mpu6050Error<T::Error>>)
        requires
            old(self).wf(),
        ensures
            final(self).same_settings(old(self)),
            old(self).events().is_prefix_of(final(self).events()),
            is_field_update(
                issued(old(self).events(), final(self).events()),
                MPU_ADDR,
                PWR_MGMT_1::ADDR,
                PWR_MGMT_1::TEMP_DIS_BIT,
                1,
                if enabled { 0 } else { 1 },
                r is Ok,
            ),
            r is Err ==> r->Err_0 is I2c,
    {
        self.write_bit(PWR_MGMT_1::ADDR, PWR_MGMT_1::TEMP_DIS_BIT, !enabled)?;
        Ok(())
    }

    /// Selects the accelerometer range: writes its code into the range field,
    /// and on success makes it the range that later readings are scaled by.
    pub fn set_accel_range(&mut self, range: AccelRange) -> (r: Result<(), Mpu6050Error<T::Error>>)
        requires
            old(self).wf(),
        ensures
            Self::accel_range_switched(*old(self), *final(self), range, r is Ok),
            r is Err ==> r->Err_0 is I2c,
    {
        self.write_bits(
            ACCEL_CONFIG::ADDR,
            ACCEL_CONFIG::ACCEL_FS_SEL_START,
            ACCEL_CONFIG::ACCEL_FS_SEL_LEN,
            range.code(),
        )?;
        self.accel_range = range;
        Ok(())
    }

    /// Selects the gyroscope range: writes its code into the range field,
    /// and on success makes it the range that later readings are scaled by.
    pub fn set_gyro_range(&mut self, range: GyroRange) -> (r: Result<(), Mpu6050Error<T::Error>>)
        requires
            old(self).wf(),
        ensures
            final(self).wf(),
            final(self).gyro_range() == if r is Ok { range } else { old(self).gyro_range() },
            final(self).accel_range() == old(self).accel_range(),
            final(self).gyro_bias() == old(self).gyro_bias(),
            final(self).acc_bias() == old(self).acc_bias(),
            old(self).events().is_prefix_of(final(self).events()),
            is_field_update(
                issued(old(self).events(), final(self).events()),
                MPU_ADDR,
                GYRO_CONFIG::ADDR,
                GYRO_CONFIG::GYRO_FS_SEL_START,
                GYRO_CONFIG::GYRO_FS_SEL_LEN,
                range.spec_code(),
                r is Ok,
            ),
            r is Err ==> r->Err_0 is I2c,
    {
        self.write_bits(
            GYRO_CONFIG::ADDR,
            GYRO_CONFIG::GYRO_FS_SEL_START,
            GYRO_CONFIG::GYRO_FS_SEL_LEN,
            range.code(),
        )?;
        self.gyro_range = range;
        Ok(())
    }

    /// Reads a six-byte sensor block starting at `reg` and decodes its three
    /// signed words.
    fn read_vector(&mut self, reg: u8) -> (r: Result<Vector3<i32>, Mpu6050Error<T::Error>>)
        requires
            old(self).wf(),
        ensures
            final(self).same_settings(old(self)),
            old(self).events().is_prefix_of(final(self).events()),
            issued(old(self).events(), final(self).events()) == seq![
                final(self).events().last(),
            ],
            final(self).events().last().is_register_read(MPU_ADDR, reg, 6),
            final(self).events().last().succeeded() == r is Ok,
            r is Ok ==> r->Ok_0 == decode_vector(final(self).events().last().data()),
            r is Err ==> r->Err_0 is I2c,
    {
        let mut buf: [u8; 6] = [0; 6];
        let res = self.read_bytes(reg, &mut buf);
        proof {
            lemma_issued_push(old(self).events(), self.events().last());
        }
        res?;
        let x = read_word_2c(&[buf[0], buf[1]]);
        let y = read_word_2c(&[buf[2], buf[3]]);
        let z = read_word_2c(&[buf[4], buf[5]]);
        Ok(Vector3::new(x, y, z))
    }

    /// Reads the acceleration in raw counts, with the accelerometer
    /// sensitivity in force.
    pub fn read_acceleration_raw(&mut self) -> (r: Result<Reading, Mpu6050Error<T::Error>>)
        requires
            old(self).wf(),
        ensures
            Self::acceleration_read(*old(self), *final(self), r is Ok, r->Ok_0),
            r is Err ==> r->Err_0 is I2c,
    {
        let counts = self.read_vector(accel_out::ADDR)?;
        Ok(Reading { counts, sensitivity: self.accel_range.sensitivity() })
    }

    /// Reads the angular rate in raw counts, with the gyroscope sensitivity
    /// in force.
    pub fn read_angular_rate_raw(&mut self) -> (r: Result<Reading, Mpu6050Error<T::Error>>)
        requires
            old(self).wf(),
        ensures
            final(self).same_settings(old(self)),
            old(self).events().is_prefix_of(final(self).events()),
            issued(old(self).events(), final(self).events()) == seq![
                final(self).events().last(),
            ],
            final(self).events().last().is_register_read(MPU_ADDR, gyro_out::ADDR, 6),
            final(self).events().last().succeeded() == r is Ok,
            r is Ok ==> r->Ok_0.counts == decode_vector(final(self).events().last().data())
                && r->Ok_0.sensitivity == old(self).gyro_range().spec_sensitivity(),
            r is Err ==> r->Err_0 is I2c,
    {
        let counts = self.read_vector(gyro_out::ADDR)?;
        Ok(Reading { counts, sensitivity: self.gyro_range.sensitivity() })
    }

    /// Reads the temperature word in raw counts.
    pub fn read_temperature_raw(&mut self) -> (r: Result<i32, Mpu6050Error<T::Error>>)
        requires
            old(self).wf(),
        ensures
            final(self).same_settings(old(self)),
            old(self).events().is_prefix_of(final(self).events()),
            issued(old(self).events(), final(self).events()) == seq![
                final(self).events().last(),
            ],
            final(self).events().last().is_register_read(MPU_ADDR, TEMP_OUT::ADDR, 2),
            final(self).events().last().succeeded() == r is Ok,
            r is Ok ==> r->Ok_0 == word_2c(
                final(self).events().last().data()[0],
                final(self).events().last().data()[1],
            ),
            r is Err ==> r->Err_0 is I2c,
    {
        let mut buf: [u8; 2] = [0; 2];
        let res = self.read_bytes(TEMP_OUT::ADDR, &mut buf);
        proof {
            lemma_issued_push(old(self).events(), self.events().last());
        }
        res?;
        Ok(read_word_2c(&buf))
    }

    /// Reads `iters` six-byte blocks at `reg` and sums their samples.
    fn sum_block_reads(&mut self, reg: u8, iters: u32) -> (r: Result<
        Vector3<i64>,
        Mpu6050Error<T::Error>,
    >)
        requires
            old(self).wf(),
        ensures
            final(self).same_settings(old(self)),
            old(self).events().is_prefix_of(final(self).events()),
            r is Ok ==> {
                let ops = issued(old(self).events(), final(self).events());
                &&& ops.len() == iters
                &&& all_block_reads(ops, reg)
                &&& r->Ok_0.x == sum_of(samples_of(ops)).x
                &&& r->Ok_0.y == sum_of(samples_of(ops)).y
                &&& r->Ok_0.z == sum_of(samples_of(ops)).z
            },
            r is Err ==> block_reads_failed(
                issued(old(self).events(), final(self).events()),
                reg,
                iters,
            ),
            r is Err ==> r->Err_0 is I2c,
    {
        let ghost t0 = self.events();
        let mut sx: i64 = 0;
        let mut sy: i64 = 0;
        let mut sz: i64 = 0;
        let mut i: u32 = 0;
        proof {
            assert(t0.subrange(0, t0.len() as int) =~= t0);
            assert(issued(t0, t0) =~= Seq::<BusEvent>::empty());
            assert(samples_of(issued(t0, t0)) =~= Seq::<Vector3<i32>>::empty());
        }
        while i < iters
            invariant
                self.wf(),
                self.same_settings(old(self)),
                t0 == old(self).events(),
                t0.is_prefix_of(self.events()),
                i <= iters,
                issued(t0, self.events()).len() == i,
                all_block_reads(issued(t0, self.events()), reg),
                sx == sum_of(samples_of(issued(t0, self.events()))).x,
                sy == sum_of(samples_of(issued(t0, self.events()))).y,
                sz == sum_of(samples_of(issued(t0, self.events()))).z,
                -32768 * i <= sx <= 32767 * i,
                -32768 * i <= sy <= 32767 * i,
                -32768 * i <= sz <= 32767 * i,
            decreases iters - i,
        {
            let ghost before = self.events();
            let res = self.read_vector(reg);
            let ghost after = self.events();
            proof {
                lemma_issued_concat(t0, before, after);
                assert(issued(t0, after) =~= issued(t0, before).push(after.last()));
                assert(issued(t0, after).drop_last() =~= issued(t0, before));
            }
            let v = res?;
            proof {
                let prev = issued(t0, before);
                let ops = issued(t0, after);
                assert(ops =~= prev.push(after.last()));
                assert(samples_of(ops).drop_last() =~= samples_of(prev));
                assert(samples_of(ops).last() == v);
                assert forall|k: int| 0 <= k < ops.len() implies (#[trigger] ops[k]).is_register_read(
                    MPU_ADDR,
                    reg,
                    6,
                ) && ops[k].succeeded() by {
                    if k < prev.len() {
                        assert(ops[k] == prev[k]);
                    }
                }
            }
            sx = sx + v.x as i64;
            sy = sy + v.y as i64;
            sz = sz + v.z as i64;
            i = i + 1;
        }
        Ok(Vector3::new(sx, sy, sz))
    }

    /// Calibrates the gyroscope bias from `iters` stationary samples. The
    /// device must be motionless; this is not checked. On error the previous
    /// bias is kept.
    pub fn calculate_imu_gyro_error(&mut self, iters: u32) -> (r: Result<
        (),
        Mpu6050Error<T::Error>,
    >)
        requires
            old(self).wf(),
        ensures
            final(self).wf(),
            final(self).accel_range() == old(self).accel_range(),
            final(self).gyro_range() == old(self).gyro_range(),
            final(self).acc_bias() == old(self).acc_bias(),
            old(self).events().is_prefix_of(final(self).events()),
            r is Ok ==> {
                let ops = issued(old(self).events(), final(self).events());
                &&& all_block_reads(ops, gyro_out::ADDR)
                &&& is_bias_of(final(self).gyro_bias(), ops, old(self).gyro_range().spec_sensitivity())
            },
            r is Ok ==> final(self).gyro_bias().samples == iters,
            r is Err ==> final(self).gyro_bias() == old(self).gyro_bias() && r->Err_0 is I2c,
            r is Err ==> block_reads_failed(
                issued(old(self).events(), final(self).events()),
                gyro_out::ADDR,
                iters,
            ),
    {
        let sum = self.sum_block_reads(gyro_out::ADDR, iters)?;
        self.gyro_err = BiasSum { sum, samples: iters, sensitivity: self.gyro_range.sensitivity() };
        Ok(())
    }

    /// Calibrates the accelerometer bias from `iters` stationary samples. The
    /// device must be motionless and level; this is not checked. On error the
    /// previous bias is kept.
    pub fn calculate_imu_acc_error(&mut self, iters: u32) -> (r: Result<
        (),
        Mpu6050Error<T::Error>,
    >)
        requires
            old(self).wf(),
        ensures
            final(self).wf(),
            final(self).accel_range() == old(self).accel_range(),
            final(self).gyro_range() == old(self).gyro_range(),
            final(self).gyro_bias() == old(self).gyro_bias(),
            old(self).events().is_prefix_of(final(self).events()),
            r is Ok ==> {
                let ops = issued(old(self).events(), final(self).events());
                &&& all_block_reads(ops, accel_out::ADDR)
                &&& is_bias_of(final(self).acc_bias(), ops, old(self).accel_range().spec_sensitivity())
            },
            r is Ok ==> final(self).acc_bias().samples == iters,
            r is Err ==> final(self).acc_bias() == old(self).acc_bias() && r->Err_0 is I2c,
            r is Err ==> block_reads_failed(
                issued(old(self).events(), final(self).events()),
                accel_out::ADDR,
                iters,
            ),
    {
        let sum = self.sum_block_reads(accel_out::ADDR, iters)?;
        self.acc_err = BiasSum { sum, samples: iters, sensitivity: self.accel_range.sensitivity() };
        Ok(())
    }

    /// The gyroscope bias.
    pub fn gyro_err(&self) -> (b: BiasSum)
        ensures
            b == self.gyro_bias(),
    {
        self.gyro_err
    }

    /// The accelerometer bias.
    pub fn acc_err(&self) -> (b: BiasSum)
        ensures
            b == self.acc_bias(),
    {
        self.acc_err
    }

    /// Writes a single byte to the device at the provided register.
    pub fn write_byte(&mut self, reg: u8, val: u8) -> (r: Result<(), Mpu6050Error<T::Error>>)
        requires
            old(self).wf(),
        ensures
            final(self).same_settings(old(self)),
            final(self).events() == old(self).events().push(
                BusEvent::Write { addr: MPU_ADDR, bytes: seq![reg, val], ok: r is Ok },
            ),
            r is Err ==> r->Err_0 is I2c,
    {
        match self.i2c.write_byte(reg, val) {
            Ok(()) => Ok(()),
            Err(e) => Err(lift_error(e)),
        }
    }

    /// Reads a single byte from the device at the register provided.
    pub fn read_byte(&mut self, reg: u8) -> (r: Result<u8, Mpu6050Error<T::Error>>)
        requires
            old(self).wf(),
        ensures
            final(self).same_settings(old(self)),
            old(self).events().is_prefix_of(final(self).events()),
            issued(old(self).events(), final(self).events()).len() == 1,
            final(self).events().last().is_register_read(MPU_ADDR, reg, 1),
            final(self).events().last().succeeded() == r is Ok,
            r is Ok ==> r->Ok_0 == final(self).events().last().data()[0],
            r is Err ==> r->Err_0 is I2c,
    {
        match self.i2c.read_byte(reg) {
            Ok(b) => Ok(b),
            Err(e) => Err(lift_error(e)),
        }
    }

    /// Reads `buff.len()` consecutive bytes, starting at register `reg`.
    pub fn read_bytes(&mut self, reg: u8, buff: &mut [u8]) -> (r: Result<
        (),
        Mpu6050Error<T::Error>,
    >)
        requires
            old(self).wf(),
        ensures
            final(self).same_settings(old(self)),
            final(self).events() == old(self).events().push(
                BusEvent::WriteRead {
                    addr: MPU_ADDR,
                    bytes: seq![reg],
                    read: final(buff)@,
                    ok: r is Ok,
                },
            ),
            r is Err ==> r->Err_0 is I2c,
    {
        match self.i2c.read_bytes(reg, buff) {
            Ok(()) => Ok(()),
            Err(e) => Err(lift_error(e)),
        }
    }

    /// Writes `data` into a bit field of register `reg` (read, modify, write).
    pub fn write_bits(&mut self, reg: u8, start_bit: u8, length: u8, data: u8) -> (r: Result<
        (),
        Mpu6050Error<T::Error>,
    >)
        requires
            old(self).wf(),
            start_bit < 8,
            1 <= length <= 8,
        ensures
            final(self).same_settings(old(self)),
            old(self).events().is_prefix_of(final(self).events()),
            is_field_update(
                issued(old(self).events(), final(self).events()),
                MPU_ADDR,
                reg,
                start_bit,
                length,
                data,
                r is Ok,
            ),
            r is Err ==> r->Err_0 is I2c,
    {
        match self.i2c.write_bits(reg, start_bit, length, data) {
            Ok(()) => Ok(()),
            Err(e) => Err(lift_error(e)),
        }
    }

    /// Writes a single bit of register `reg`.
    pub fn write_bit(&mut self, reg: u8, bit: u8, value: bool) -> (r: Result<
        (),
        Mpu6050Error<T::Error>,
    >)
        requires
            old(self).wf(),
            bit < 8,
        ensures
            final(self).same_settings(old(self)),
            old(self).events().is_prefix_of(final(self).events()),
            is_field_update(
                issued(old(self).events(), final(self).events()),
                MPU_ADDR,
                reg,
                bit,
                1,
                if value { 1 } else { 0 },
                r is Ok,
            ),
            r is Err ==> r->Err_0 is I2c,
    {
        self.write_bits(reg, bit, 1, if value { 1 } else { 0 })
    }
}

/// Switching the accelerometer range takes effect for the very next reading:
/// after `set_accel_range(range)` has succeeded, the next acceleration reading
/// carries `range`'s sensitivity, never the previous range's (8192 counts per
/// g for the 4 g range).
pub proof fn lemma_range_switch_scales_next_read<T: I2cBus>(
    before: Mpu6050<T>,
    switched: Mpu6050<T>,
    range: AccelRange,
    after: Mpu6050<T>,
    reading: Reading,
)
    requires
        Mpu6050::accel_range_switched(before, switched, range, true),
        Mpu6050::acceleration_read(switched, after, true, reading),
    ensures
        reading.sensitivity == range.spec_sensitivity(),
        after.accel_range() == range,
        range == AccelRange::G4 ==> reading.sensitivity == (Sensitivity { counts: 8192, units: 1 }),
{
}

/// The driver's form of an adapter error.
fn lift_error<E>(e: I2cWrapperError<E>) -> (r: Mpu6050Error<E>)
    ensures
        e is I2c ==> r is I2c,
        e matches I2cWrapperError::InvalidChipId(a) ==> r == Mpu6050Error::<E>::InvalidChipId(a),
{
    match e {
        I2cWrapperError::I2c(x) => Mpu6050Error::I2c(x),
        I2cWrapperError::InvalidChipId(a) => Mpu6050Error::InvalidChipId(a),
    }
}

} // verus!

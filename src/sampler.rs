//! The sampling step of the orientation estimator: elapsed time from a
//! wrapping millisecond clock, then one acceleration and one angular-rate
//! reading, committed together or not at all.
use crate::i2c::{issued, lemma_issued_concat, I2cBus};
use crate::consts::{accel_out, gyro_out, MPU_ADDR};
use crate::mpu6050::{decode_vector, Mpu6050, Mpu6050Error, Reading};
use vstd::prelude::*;

verus! {

/// Milliseconds from `last` to `now` on a 32-bit clock that wraps around:
/// the difference modulo 2^32.
pub open spec fn spec_elapsed_ms(last: u32, now: u32) -> int {
    (now - last) % 0x1_0000_0000
}

/// Milliseconds elapsed from `last` to `now`, tolerating one wraparound of the
/// clock between the two.
pub fn elapsed_ms(last: u32, now: u32) -> (dt: u32)
    ensures
        dt == spec_elapsed_ms(last, now),
        now >= last ==> dt == now - last,
{
    if now >= last {
        now - last
    } else {
        (u32::MAX - last) + now + 1
    }
}

/// What one update of the estimator reads.
#[derive(Clone, Copy, Debug)]
pub struct MotionSample {
    /// Time since the previous sample, in milliseconds.
    pub dt_ms: u32,
    pub acceleration: Reading,
    pub angular_rate: Reading,
}

/// The driver together with the time of the last committed sample.
pub struct ImuSampler<T> {
    pub mpu: Mpu6050<T>,
    /// Time of the last committed sample, in clock milliseconds.
    pub last_sample_time_ms: u32,
}

impl<T: I2cBus> ImuSampler<T> {
    /// Starts sampling with the clock seeded at `now_ms`.
    pub fn new(mpu: Mpu6050<T>, now_ms: u32) -> (s: Self)
        ensures
            s.mpu == mpu,
            s.last_sample_time_ms == now_ms,
    {
        ImuSampler { mpu, last_sample_time_ms: now_ms }
    }

    /// Reseeds the clock, as after a calibration, so that the next sample
    /// does not integrate over the time the calibration took.
    pub fn restart_clock(&mut self, now_ms: u32)
        ensures
            final(self).mpu == old(self).mpu,
            final(self).last_sample_time_ms == now_ms,
    {
        self.last_sample_time_ms = now_ms;
    }

    /// Takes one sample at clock time `now_ms`: reads the acceleration, then
    /// the angular rate. Only when both reads succeed is `now_ms` committed as
    /// the last sample time; on error nothing changes but the bus log.
    pub fn sample(&mut self, now_ms: u32) -> (r: Result<MotionSample, Mpu6050Error<T::Error>>)
        requires
            old(self).mpu.wf(),
        ensures
            final(self).mpu.same_settings(&old(self).mpu),
            old(self).mpu.events().is_prefix_of(final(self).mpu.events()),
            final(self).last_sample_time_ms == if r is Ok { now_ms } else { old(self).last_sample_time_ms },
            r is Ok ==> {
                let ops = issued(old(self).mpu.events(), final(self).mpu.events());
                let s = r->Ok_0;
                &&& ops.len() == 2
                &&& ops[0].is_register_read(MPU_ADDR, accel_out::ADDR, 6) && ops[0].succeeded()
                &&& ops[1].is_register_read(MPU_ADDR, gyro_out::ADDR, 6) && ops[1].succeeded()
                &&& s.dt_ms == spec_elapsed_ms(old(self).last_sample_time_ms, now_ms)
                &&& s.acceleration.counts == decode_vector(ops[0].data())
                &&& s.acceleration.sensitivity == old(self).mpu.accel_range().spec_sensitivity()
                &&& s.angular_rate.counts == decode_vector(ops[1].data())
                &&& s.angular_rate.sensitivity == old(self).mpu.gyro_range().spec_sensitivity()
            },
            r is Err ==> ({
                let ops = issued(old(self).mpu.events(), final(self).mpu.events());
                ||| ops.len() == 1 && ops[0].is_register_read(MPU_ADDR, accel_out::ADDR, 6)
                    && !ops[0].succeeded()
                ||| ops.len() == 2 && ops[0].is_register_read(MPU_ADDR, accel_out::ADDR, 6)
                    && ops[0].succeeded() && ops[1].is_register_read(MPU_ADDR, gyro_out::ADDR, 6)
                    && !ops[1].succeeded()
            }),
            r is Err ==> r->Err_0 is I2c,
    {
        let ghost t0 = self.mpu.events();
        let acceleration = self.mpu.read_acceleration_raw()?;
        let ghost t1 = self.mpu.events();
        let res = self.mpu.read_angular_rate_raw();
        let ghost t2 = self.mpu.events();
        proof {
            lemma_issued_concat(t0, t1, t2);
            assert(issued(t0, t2) =~= seq![t1.last(), t2.last()]);
        }
        let angular_rate = res?;
        let dt_ms = elapsed_ms(self.last_sample_time_ms, now_ms);
        self.last_sample_time_ms = now_ms;
        proof {
            assert(issued(t0, t2) =~= seq![t1.last(), t2.last()]);
        }
        Ok(MotionSample { dt_ms, acceleration, angular_rate })
    }
}

} // verus!

use drone_imu::consts::{ACCEL_CONFIG, GYRO_CONFIG, PWR_MGMT_1};
use drone_imu::{
    AccelRange, Adafruit1893, Adafruit1893Error, DelayMs, GyroRange, I2cBus, I2cDevice,
    I2cWrapperError, ImuSampler, Mpu6050, Mpu6050Error, Reading, Sensitivity,
};

#[derive(Debug, PartialEq)]
struct BusFault;

/// A device register file behind a bus: writes store consecutive registers
/// from the first byte's address on, reads return them.
struct SimBus {
    addr: u8,
    regs: [u8; 256],
    writes: Vec<Vec<u8>>,
    reads: Vec<(u8, usize)>,
    transactions: usize,
    fail_at: Option<usize>,
    reset_polls: u32,
}

impl SimBus {
    fn new(addr: u8) -> Self {
        SimBus {
            addr,
            regs: [0; 256],
            writes: Vec::new(),
            reads: Vec::new(),
            transactions: 0,
            fail_at: None,
            reset_polls: 0,
        }
    }

    fn mpu() -> Self {
        let mut bus = SimBus::new(0x68);
        bus.regs[0x75] = 0x68;
        bus
    }

    fn set_words(&mut self, reg: u8, words: &[i16]) {
        for (i, w) in words.iter().enumerate() {
            let b = w.to_be_bytes();
            self.regs[reg as usize + 2 * i] = b[0];
            self.regs[reg as usize + 2 * i + 1] = b[1];
        }
    }

    fn next(&mut self, addr: u8) -> Result<(), BusFault> {
        let n = self.transactions;
        self.transactions += 1;
        if self.fail_at == Some(n) || addr != self.addr {
            Err(BusFault)
        } else {
            Ok(())
        }
    }
}

impl I2cBus for SimBus {
    type Error = BusFault;

    fn write(&mut self, addr: u8, bytes: &[u8]) -> Result<(), BusFault> {
        self.next(addr)?;
        self.writes.push(bytes.to_vec());
        let reg = bytes[0] as usize;
        for (i, b) in bytes[1..].iter().enumerate() {
            self.regs[reg + i] = *b;
        }
        Ok(())
    }

    fn write_read(&mut self, addr: u8, bytes: &[u8], buffer: &mut [u8]) -> Result<(), BusFault> {
        self.next(addr)?;
        let reg = bytes[0] as usize;
        self.reads.push((bytes[0], buffer.len()));
        if reg == 0x26 && self.regs[reg] & 0x04 != 0 {
            if self.reset_polls > 0 {
                self.reset_polls -= 1;
            } else {
                self.regs[reg] &= !0x04;
            }
        }
        for (i, b) in buffer.iter_mut().enumerate() {
            *b = self.regs[reg + i];
        }
        Ok(())
    }
}

struct CountingDelay {
    total_ms: u32,
}

impl DelayMs for CountingDelay {
    fn delay_ms(&mut self, ms: u8) {
        self.total_ms += ms as u32;
    }
}

fn sim_mpu(bus: SimBus) -> Mpu6050<SimBus> {
    Mpu6050::new(bus)
}

fn physical(r: &Reading) -> (f32, f32, f32) {
    let s = r.sensitivity.counts as f32 / r.sensitivity.units as f32;
    (r.counts.x as f32 / s, r.counts.y as f32 / s, r.counts.z as f32 / s)
}

#[test]
fn device_write_byte_sends_register_and_value() {
    let mut dev = I2cDevice::new(SimBus::new(0x20), 0x20);
    assert!(dev.write_byte(0x10, 0xAB).is_ok());
    assert!(matches!(dev.read_byte(0x10), Ok(0xAB)));
}

#[test]
fn device_read_bytes_reads_consecutive_registers() {
    let mut bus = SimBus::new(0x20);
    bus.regs[0x30] = 1;
    bus.regs[0x31] = 2;
    bus.regs[0x32] = 3;
    let mut dev = I2cDevice::new(bus, 0x20);
    let mut buf = [0u8; 3];
    assert!(dev.read_bytes(0x30, &mut buf).is_ok());
    assert_eq!(buf, [1, 2, 3]);
}

#[test]
fn device_write_bits_reads_modifies_and_writes_back() {
    let mut bus = SimBus::new(0x20);
    bus.regs[0x1c] = 0xFF;
    let mut dev = I2cDevice::new(bus, 0x20);
    assert!(dev.write_bits(0x1c, 4, 2, 2).is_ok());
    assert!(matches!(dev.read_byte(0x1c), Ok(0xF7)));
}

#[test]
fn device_write_bit_sets_and_clears() {
    let mut dev = I2cDevice::new(SimBus::new(0x20), 0x20);
    assert!(dev.write_bit(0x6b, 7, true).is_ok());
    assert!(matches!(dev.read_byte(0x6b), Ok(0x80)));
    assert!(dev.write_bit(0x6b, 7, false).is_ok());
    assert!(matches!(dev.read_byte(0x6b), Ok(0x00)));
}

#[test]
fn device_whoami_accepts_expected_and_reports_actual() {
    let mut bus = SimBus::new(0x20);
    bus.regs[0x0f] = 0x33;
    let mut dev = I2cDevice::new(bus, 0x20);
    assert!(dev.whoami(0x0f, 0x33).is_ok());
    assert!(matches!(dev.whoami(0x0f, 0x44), Err(I2cWrapperError::InvalidChipId(0x33))));
}

#[test]
fn device_transport_failure_is_reported() {
    let mut dev = I2cDevice::new(SimBus::new(0x20), 0x21);
    assert!(matches!(dev.write_byte(0, 0), Err(I2cWrapperError::I2c(BusFault))));
    assert!(matches!(dev.read_byte(0), Err(I2cWrapperError::I2c(BusFault))));
    assert!(matches!(dev.whoami(0, 0), Err(I2cWrapperError::I2c(BusFault))));
}

#[test]
fn write_bits_stops_after_failed_read() {
    let mut bus = SimBus::new(0x20);
    bus.fail_at = Some(0);
    let mut dev = I2cDevice::new(bus, 0x20);
    assert!(matches!(dev.write_bits(0x1c, 4, 2, 1), Err(I2cWrapperError::I2c(BusFault))));
    assert!(matches!(dev.read_byte(0x1c), Ok(0)));
}

#[test]
fn range_sensitivities_and_codes() {
    assert_eq!(AccelRange::G2.sensitivity(), Sensitivity { counts: 16384, units: 1 });
    assert_eq!(AccelRange::G4.sensitivity(), Sensitivity { counts: 8192, units: 1 });
    assert_eq!(AccelRange::G8.sensitivity(), Sensitivity { counts: 4096, units: 1 });
    assert_eq!(AccelRange::G16.sensitivity(), Sensitivity { counts: 2048, units: 1 });
    assert_eq!(GyroRange::D250.sensitivity(), Sensitivity { counts: 1310, units: 10 });
    assert_eq!(GyroRange::D500.sensitivity(), Sensitivity { counts: 655, units: 10 });
    assert_eq!(GyroRange::D1000.sensitivity(), Sensitivity { counts: 328, units: 10 });
    assert_eq!(GyroRange::D2000.sensitivity(), Sensitivity { counts: 164, units: 10 });
    assert_eq!(AccelRange::G16.code(), 3);
    assert_eq!(GyroRange::D500.code(), 1);
}

#[test]
fn gyro_sensitivities_match_datasheet_floats() {
    let f = |s: Sensitivity| s.counts as f32 / s.units as f32;
    assert_eq!(f(GyroRange::D250.sensitivity()), 131.0f32);
    assert_eq!(f(GyroRange::D500.sensitivity()), 65.5f32);
    assert_eq!(f(GyroRange::D1000.sensitivity()), 32.8f32);
    assert_eq!(f(GyroRange::D2000.sensitivity()), 16.4f32);
}

#[test]
fn init_resets_wakes_verifies_and_selects_default_ranges() {
    let mut bus = SimBus::mpu();
    bus.regs[ACCEL_CONFIG::ADDR as usize] = 0xFF;
    bus.regs[GYRO_CONFIG::ADDR as usize] = 0xFF;
    bus.regs[PWR_MGMT_1::ADDR as usize] = 0x40;
    let mut mpu = sim_mpu(bus);
    let mut delay = CountingDelay { total_ms: 0 };
    assert!(mpu.init(&mut delay).is_ok());
    assert_eq!(delay.total_ms, 200);
    let mut buf = [0u8; 1];
    assert!(mpu.read_bytes(ACCEL_CONFIG::ADDR, &mut buf).is_ok());
    assert_eq!(buf[0], 0xE7);
    assert!(mpu.read_bytes(GYRO_CONFIG::ADDR, &mut buf).is_ok());
    assert_eq!(buf[0], 0xE7);
    assert!(matches!(mpu.read_byte(PWR_MGMT_1::ADDR), Ok(0x00)));
}

#[test]
fn init_fails_on_wrong_identity() {
    let mut bus = SimBus::mpu();
    bus.regs[0x75] = 0x70;
    bus.regs[ACCEL_CONFIG::ADDR as usize] = 0xFF;
    let mut mpu = sim_mpu(bus);
    let mut delay = CountingDelay { total_ms: 0 };
    assert!(matches!(mpu.init(&mut delay), Err(Mpu6050Error::InvalidChipId(0x70))));
    assert!(matches!(mpu.read_byte(ACCEL_CONFIG::ADDR), Ok(0xFF)));
}

#[test]
fn verify_reports_transport_failure() {
    let mut bus = SimBus::mpu();
    bus.fail_at = Some(0);
    let mut mpu = sim_mpu(bus);
    assert!(matches!(mpu.verify(), Err(Mpu6050Error::I2c(BusFault))));
    assert!(mpu.verify().is_ok());
}

#[test]
fn wake_clears_power_register_and_reset_sets_reset_bit() {
    let mut bus = SimBus::mpu();
    bus.regs[PWR_MGMT_1::ADDR as usize] = 0x41;
    let mut mpu = sim_mpu(bus);
    let mut delay = CountingDelay { total_ms: 0 };
    assert!(mpu.reset_device(&mut delay).is_ok());
    assert!(matches!(mpu.read_byte(PWR_MGMT_1::ADDR), Ok(0xC1)));
    assert!(mpu.wake(&mut delay).is_ok());
    assert!(matches!(mpu.read_byte(PWR_MGMT_1::ADDR), Ok(0x00)));
    assert_eq!(delay.total_ms, 200);
}

#[test]
fn temperature_enable_toggles_disable_bit() {
    let mut mpu = sim_mpu(SimBus::mpu());
    assert!(mpu.set_temp_enabled(false).is_ok());
    assert!(matches!(mpu.read_byte(PWR_MGMT_1::ADDR), Ok(0x08)));
    assert!(mpu.set_temp_enabled(true).is_ok());
    assert!(matches!(mpu.read_byte(PWR_MGMT_1::ADDR), Ok(0x00)));
}

#[test]
fn accel_range_switch_scales_next_reading() {
    let mut bus = SimBus::mpu();
    bus.set_words(0x3b, &[8192, -8192, 16384]);
    let mut mpu = sim_mpu(bus);
    let before = mpu.read_acceleration_raw().ok().unwrap();
    assert_eq!(before.sensitivity, Sensitivity { counts: 16384, units: 1 });
    assert!(mpu.set_accel_range(AccelRange::G4).is_ok());
    assert!(matches!(mpu.read_byte(ACCEL_CONFIG::ADDR), Ok(0x08)));
    let after = mpu.read_acceleration_raw().ok().unwrap();
    assert_eq!(after.sensitivity, Sensitivity { counts: 8192, units: 1 });
    assert_eq!((after.counts.x, after.counts.y, after.counts.z), (8192, -8192, 16384));
    assert_eq!(physical(&after), (1.0, -1.0, 2.0));
}

#[test]
fn failed_range_switch_keeps_previous_sensitivity() {
    let mut bus = SimBus::mpu();
    bus.fail_at = Some(1);
    let mut mpu = sim_mpu(bus);
    assert!(matches!(mpu.set_accel_range(AccelRange::G16), Err(Mpu6050Error::I2c(BusFault))));
    let r = mpu.read_acceleration_raw().ok().unwrap();
    assert_eq!(r.sensitivity, Sensitivity { counts: 16384, units: 1 });
}

#[test]
fn gyro_range_switch_writes_code_and_scales() {
    let mut bus = SimBus::mpu();
    bus.set_words(0x43, &[164, -328, 0]);
    let mut mpu = sim_mpu(bus);
    assert!(mpu.set_gyro_range(GyroRange::D2000).is_ok());
    assert!(matches!(mpu.read_byte(GYRO_CONFIG::ADDR), Ok(0x18)));
    let r = mpu.read_angular_rate_raw().ok().unwrap();
    assert_eq!(r.sensitivity, Sensitivity { counts: 164, units: 10 });
    assert_eq!((r.counts.x, r.counts.y, r.counts.z), (164, -328, 0));
    assert_eq!(physical(&r), (10.0, -20.0, 0.0));
}

#[test]
fn angular_rate_decodes_signed_words() {
    let mut bus = SimBus::mpu();
    bus.set_words(0x43, &[-1, 32767, -32768]);
    let mut mpu = sim_mpu(bus);
    let r = mpu.read_angular_rate_raw().ok().unwrap();
    assert_eq!((r.counts.x, r.counts.y, r.counts.z), (-1, 32767, -32768));
    assert_eq!(r.sensitivity, Sensitivity { counts: 1310, units: 10 });
}

#[test]
fn temperature_word_is_signed() {
    let mut bus = SimBus::mpu();
    bus.set_words(0x41, &[-420]);
    let mut mpu = sim_mpu(bus);
    assert!(matches!(mpu.read_temperature_raw(), Ok(-420)));
}

#[test]
fn gyro_calibration_of_constant_input_is_exact_for_any_count() {
    for &n in &[1u32, 7, 100, 150] {
        let mut bus = SimBus::mpu();
        bus.set_words(0x43, &[131, -262, 5]);
        let mut mpu = sim_mpu(bus);
        assert!(mpu.calculate_imu_gyro_error(n).is_ok());
        let b = mpu.gyro_err();
        assert_eq!(b.samples, n);
        assert_eq!((b.sum.x, b.sum.y, b.sum.z), (131 * n as i64, -262 * n as i64, 5 * n as i64));
        assert_eq!(b.sum.x / b.samples as i64, 131);
        assert_eq!(b.sensitivity, Sensitivity { counts: 1310, units: 10 });
    }
}

#[test]
fn accel_calibration_sums_stationary_samples() {
    let mut bus = SimBus::mpu();
    bus.set_words(0x3b, &[0, 0, 16384]);
    let mut mpu = sim_mpu(bus);
    assert!(mpu.calculate_imu_acc_error(150).is_ok());
    let b = mpu.acc_err();
    assert_eq!((b.sum.x, b.sum.y, b.sum.z, b.samples), (0, 0, 150 * 16384, 150));
}

#[test]
fn calibration_with_no_samples_leaves_zero_sum() {
    let mut mpu = sim_mpu(SimBus::mpu());
    assert!(mpu.calculate_imu_gyro_error(0).is_ok());
    let b = mpu.gyro_err();
    assert_eq!((b.sum.x, b.sum.y, b.sum.z, b.samples), (0, 0, 0, 0));
}

#[test]
fn failed_calibration_keeps_previous_bias() {
    let mut bus = SimBus::mpu();
    bus.set_words(0x43, &[10, 20, 30]);
    bus.fail_at = Some(6);
    let mut mpu = sim_mpu(bus);
    assert!(mpu.calculate_imu_gyro_error(4).is_ok());
    assert!(matches!(mpu.calculate_imu_gyro_error(6), Err(Mpu6050Error::I2c(BusFault))));
    let kept = mpu.gyro_err();
    assert_eq!((kept.sum.x, kept.sum.y, kept.sum.z, kept.samples), (40, 80, 120, 4));
}

#[test]
fn sampler_measures_elapsed_time_across_wraparound() {
    let mut bus = SimBus::mpu();
    bus.set_words(0x3b, &[0, 0, 16384]);
    bus.set_words(0x43, &[0, 0, 262]);
    let mut sampler = ImuSampler::new(sim_mpu(bus), 0xFFFF_FFF0);
    let s = sampler.sample(0x0000_000A).ok().unwrap();
    assert_eq!(s.dt_ms, 26);
    assert_eq!(sampler.last_sample_time_ms, 0x0000_000A);
    assert_eq!((s.acceleration.counts.z, s.angular_rate.counts.z), (16384, 262));
    assert_eq!(s.acceleration.sensitivity, Sensitivity { counts: 16384, units: 1 });
    assert_eq!(s.angular_rate.sensitivity, Sensitivity { counts: 1310, units: 10 });
    let s2 = sampler.sample(0x0000_0014).ok().unwrap();
    assert_eq!(s2.dt_ms, 10);
}

#[test]
fn failed_sample_keeps_last_sample_time() {
    let mut bus = SimBus::mpu();
    bus.fail_at = Some(1);
    let mut sampler = ImuSampler::new(sim_mpu(bus), 1000);
    assert!(matches!(sampler.sample(1020), Err(Mpu6050Error::I2c(BusFault))));
    assert_eq!(sampler.last_sample_time_ms, 1000);
    let s = sampler.sample(1050).ok().unwrap();
    assert_eq!(s.dt_ms, 50);
    assert_eq!(sampler.last_sample_time_ms, 1050);
}

#[test]
fn restart_clock_reseeds_elapsed_time() {
    let mut sampler = ImuSampler::new(sim_mpu(SimBus::mpu()), 0);
    sampler.restart_clock(5000);
    let s = sampler.sample(5004).ok().unwrap();
    assert_eq!(s.dt_ms, 4);
}

#[test]
fn device_at_rest_reads_gravity_and_no_rotation() {
    let mut bus = SimBus::mpu();
    bus.set_words(0x3b, &[0, 0, 16384]);
    bus.set_words(0x43, &[0, 0, 0]);
    let mut mpu = sim_mpu(bus);
    let mut delay = CountingDelay { total_ms: 0 };
    assert!(mpu.init(&mut delay).is_ok());
    assert!(mpu.calculate_imu_gyro_error(100).is_ok());
    let g = mpu.gyro_err();
    assert_eq!((g.sum.x, g.sum.y, g.sum.z), (0, 0, 0));
    let mut sampler = ImuSampler::new(mpu, 0);
    let s = sampler.sample(10).ok().unwrap();
    assert_eq!(physical(&s.acceleration), (0.0, 0.0, 1.0));
    assert_eq!(physical(&s.angular_rate), (0.0, 0.0, 0.0));
}

#[test]
fn adafruit_init_checks_identity_then_resets() {
    let mut bus = SimBus::new(0x60);
    bus.regs[0x00] = 0xC4;
    bus.reset_polls = 2;
    let mut dev = Adafruit1893::new(bus);
    let mut delay = CountingDelay { total_ms: 0 };
    assert!(dev.init(&mut delay).is_ok());
    assert_eq!(delay.total_ms, 20);
}

#[test]
fn adafruit_rejects_wrong_identity() {
    let mut bus = SimBus::new(0x60);
    bus.regs[0x00] = 0x11;
    let mut dev = Adafruit1893::new(bus);
    let mut delay = CountingDelay { total_ms: 0 };
    assert!(matches!(dev.init(&mut delay), Err(Adafruit1893Error::InvalidChipId(0x11))));
    assert_eq!(delay.total_ms, 0);
}

#[test]
fn adafruit_reset_gives_up_after_ten_polls() {
    let mut bus = SimBus::new(0x60);
    bus.reset_polls = 100;
    let mut dev = Adafruit1893::new(bus);
    let mut delay = CountingDelay { total_ms: 0 };
    assert!(matches!(dev.reset_chip(&mut delay), Err(Adafruit1893Error::NoResponse)));
    assert_eq!(delay.total_ms, 100);
}

#[test]
fn adafruit_reset_succeeds_on_last_allowed_poll() {
    let mut bus = SimBus::new(0x60);
    bus.reset_polls = 9;
    let mut dev = Adafruit1893::new(bus);
    let mut delay = CountingDelay { total_ms: 0 };
    assert!(dev.reset_chip(&mut delay).is_ok());
    assert_eq!(delay.total_ms, 90);
}

#[test]
fn adafruit_reset_reports_transport_failure() {
    let mut bus = SimBus::new(0x60);
    bus.fail_at = Some(0);
    let mut dev = Adafruit1893::new(bus);
    let mut delay = CountingDelay { total_ms: 0 };
    assert!(matches!(dev.reset_chip(&mut delay), Err(Adafruit1893Error::I2c(BusFault))));
}

#[test]
fn init_wrong_identity_leaves_range_registers_and_ranges() {
    let mut bus = SimBus::mpu();
    bus.regs[0x75] = 0x71;
    bus.regs[ACCEL_CONFIG::ADDR as usize] = 0xFF;
    bus.regs[GYRO_CONFIG::ADDR as usize] = 0xFF;
    let mut mpu = sim_mpu(bus);
    assert!(mpu.set_accel_range(AccelRange::G8).is_ok());
    let mut delay = CountingDelay { total_ms: 0 };
    assert!(matches!(mpu.init(&mut delay), Err(Mpu6050Error::InvalidChipId(0x71))));
    assert_eq!(delay.total_ms, 200);
    assert!(matches!(mpu.read_byte(ACCEL_CONFIG::ADDR), Ok(0xF7)));
    assert!(matches!(mpu.read_byte(GYRO_CONFIG::ADDR), Ok(0xFF)));
    let r = mpu.read_acceleration_raw().ok().unwrap();
    assert_eq!(r.sensitivity, Sensitivity { counts: 4096, units: 1 });
}

#[test]
fn init_stops_at_failed_wake_without_second_delay() {
    let mut bus = SimBus::mpu();
    bus.fail_at = Some(2);
    let mut mpu = sim_mpu(bus);
    let mut delay = CountingDelay { total_ms: 0 };
    assert!(matches!(mpu.init(&mut delay), Err(Mpu6050Error::I2c(BusFault))));
    assert_eq!(delay.total_ms, 100);
}

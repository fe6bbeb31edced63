//! Driver for the Adafruit 1893 (MPL3115A2) pressure sensor: identity check
//! and a software reset that is polled for completion a bounded number of
//! times.
use crate::i2c::{
    issued, lemma_issued_concat, lemma_issued_push, BusEvent, DelayMs, I2cBus, I2cDevice, I2cWrapperError,
};
use vstd::prelude::*;

verus! {

/// Slave address of the device.
pub const ADAFRUIT1893_ADDR: u8 = 0x60;

/// Identity register.
pub struct WHOAMI;

impl WHOAMI {
    pub const ADDR: u8 = 0x0;
    pub const EXP_RESULT: u8 = 0xC4;
}

/// First control register.
pub struct CTRL_REG1;

impl CTRL_REG1 {
    pub const ADDR: u8 = 0x26;
    pub const RESET: u8 = 0x04;
}

/// How many times the reset bit is polled, 10 ms apart, before giving up.
pub const RESET_POLLS: u8 = 10;

/// An error of the driver.
#[derive(Debug)]
pub enum Adafruit1893Error<T> {
    /// The transport failed.
    I2c(T),
    /// The identity register held this value instead of the expected one.
    InvalidChipId(u8),
    /// The reset bit did not clear in time.
    NoResponse,
}

impl<E> From<I2cWrapperError<E>> for Adafruit1893Error<E> {
    fn from(e: I2cWrapperError<E>) -> (r: Self) {
        match e {
            I2cWrapperError::I2c(x) => Adafruit1893Error::I2c(x),
            I2cWrapperError::InvalidChipId(x) => Adafruit1893Error::InvalidChipId(x),
        }
    }
}

impl<E> vstd::std_specs::convert::FromSpecImpl<I2cWrapperError<E>> for Adafruit1893Error<E> {
    open spec fn obeys_from_spec() -> bool {
        true
    }

    open spec fn from_spec(e: I2cWrapperError<E>) -> Self {
        match e {
            I2cWrapperError::I2c(x) => Adafruit1893Error::I2c(x),
            I2cWrapperError::InvalidChipId(x) => Adafruit1893Error::InvalidChipId(x),
        }
    }
}

/// A successful read of the control register that shows the reset still in
/// progress.
pub open spec fn still_resetting(op: BusEvent) -> bool {
    op.succeeded() && op.data()[0] & CTRL_REG1::RESET != 0
}

/// Wait between two polls of the reset bit, in milliseconds.
pub const POLL_INTERVAL_MS: u8 = 10;

/// The reset command.
pub open spec fn reset_command(addr: u8, ok: bool) -> BusEvent {
    BusEvent::Write { addr, bytes: seq![CTRL_REG1::ADDR, CTRL_REG1::RESET], ok }
}

/// `ops` is a software reset followed by its polls: the reset command, then
/// one-byte reads of the control register at the odd positions, each read but
/// the last having seen the reset still in progress and being followed by a
/// poll interval.
pub open spec fn is_reset_sequence(ops: Seq<BusEvent>, addr: u8) -> bool {
    &&& ops.len() >= 1
    &&& ops[0] == reset_command(addr, ops[0].succeeded())
    &&& !ops[0].succeeded() ==> ops.len() == 1
    &&& ops.len() > 1 ==> ops.len() % 2 == 0
    &&& forall|i: int|
        1 <= i < ops.len() && i % 2 == 1 ==> (#[trigger] ops[i]).is_register_read(
            addr,
            CTRL_REG1::ADDR,
            1,
        )
    &&& forall|i: int|
        2 <= i < ops.len() && i % 2 == 0 ==> (#[trigger] ops[i]) == (BusEvent::Delay {
            ms: POLL_INTERVAL_MS,
        }) && still_resetting(ops[i - 1])
}

/// How a software reset ends, given the events it issued: `Ok` when a poll
/// among the first ten saw the reset done, `NoResponse` after the eleventh
/// read, `I2c` when the last transaction failed.
pub open spec fn reset_outcome<E>(
    ops: Seq<BusEvent>,
    addr: u8,
    r: Result<(), Adafruit1893Error<E>>,
) -> bool {
    &&& is_reset_sequence(ops, addr)
    &&& r is Ok <==> 2 <= ops.len() <= 2 * RESET_POLLS && ops.last().succeeded() && !still_resetting(
        ops.last(),
    )
    &&& (r matches Err(Adafruit1893Error::NoResponse)) <==> ops.len() == 2 * RESET_POLLS + 2
        && ops.last().succeeded()
    &&& (r matches Err(Adafruit1893Error::I2c(_))) <==> !ops.last().succeeded()
    &&& !(r matches Err(Adafruit1893Error::InvalidChipId(_)))
}

/// The polls so far of a reset still in progress: the reset command
/// succeeded, every read at an odd position saw the reset in progress, and a
/// poll interval follows each.
pub open spec fn polling(ops: Seq<BusEvent>, addr: u8) -> bool {
    &&& ops.len() % 2 == 1
    &&& ops[0] == reset_command(addr, true)
    &&& forall|i: int|
        1 <= i < ops.len() && i % 2 == 1 ==> (#[trigger] ops[i]).is_register_read(
            addr,
            CTRL_REG1::ADDR,
            1,
        ) && still_resetting(ops[i])
    &&& forall|i: int|
        2 <= i < ops.len() && i % 2 == 0 ==> (#[trigger] ops[i]) == (BusEvent::Delay {
            ms: POLL_INTERVAL_MS,
        })
}

/// The Adafruit 1893 driver.
pub struct Adafruit1893<T> {
    pub i2c: I2cDevice<T>,
}

impl<T: I2cBus> Adafruit1893<T> {
    /// Creates a driver on bus `i2c`.
    pub fn new(i2c: T) -> (d: Self)
        ensures
            d.i2c.address() == ADAFRUIT1893_ADDR,
            d.i2c.events() == Seq::<BusEvent>::empty(),
    {
        Adafruit1893 { i2c: I2cDevice::new(i2c, ADAFRUIT1893_ADDR) }
    }

    /// Initializes the device: identity check, then software reset.
    pub fn init<D: DelayMs>(&mut self, delay: &mut D) -> (r: Result<(), Adafruit1893Error<T::Error>>)
        ensures
            final(self).i2c.address() == old(self).i2c.address(),
            old(self).i2c.events().is_prefix_of(final(self).i2c.events()),
            ({
                let ops = issued(old(self).i2c.events(), final(self).i2c.events());
                let id = ops[0];
                &&& ops.len() >= 1
                &&& id.is_register_read(old(self).i2c.address(), WHOAMI::ADDR, 1)
                &&& !id.succeeded() ==> ops.len() == 1 && (r matches Err(Adafruit1893Error::I2c(_)))
                &&& id.succeeded() && id.data()[0] != WHOAMI::EXP_RESULT ==> ops.len() == 1 && r
                    == Err::<(), Adafruit1893Error<T::Error>>(
                    Adafruit1893Error::InvalidChipId(id.data()[0]),
                )
                &&& id.succeeded() && id.data()[0] == WHOAMI::EXP_RESULT ==> reset_outcome(
                    ops.skip(1),
                    old(self).i2c.address(),
                    r,
                )
            }),
    {
        let ghost t0 = self.i2c.events();
        let res = self.i2c.whoami(WHOAMI::ADDR, WHOAMI::EXP_RESULT);
        let ghost t1 = self.i2c.events();
        proof {
            assert(issued(t0, t1) =~= seq![t1.last()]);
        }
        match res {
            Ok(()) => {},
            Err(e) => {
                return Err(Adafruit1893Error::from(e));
            },
        }
        let r = self.reset_chip(delay);
        proof {
            let t2 = self.i2c.events();
            lemma_issued_concat(t0, t1, t2);
            assert(issued(t0, t2).skip(1) =~= issued(t1, t2));
            assert(issued(t0, t2)[0] == t1.last());
        }
        r
    }

    /// Resets the device and waits, polling every 10 ms, for the reset bit to
    /// clear. Gives up with `NoResponse` after the bit has been seen set at
    /// ten polls.
    pub fn reset_chip<D: DelayMs>(&mut self, delay: &mut D) -> (r: Result<
        (),
        Adafruit1893Error<T::Error>,
    >)
        ensures
            final(self).i2c.address() == old(self).i2c.address(),
            old(self).i2c.events().is_prefix_of(final(self).i2c.events()),
            reset_outcome(
                issued(old(self).i2c.events(), final(self).i2c.events()),
                old(self).i2c.address(),
                r,
            ),
    {
        let ghost t0 = self.i2c.events();
        let ghost addr = self.i2c.address();
        let res = self.i2c.write_byte(CTRL_REG1::ADDR, CTRL_REG1::RESET);
        proof {
            lemma_issued_push(t0, self.i2c.events().last());
        }
        if let Err(e) = res {
            return Err(Adafruit1893Error::from(e));
        }
        let mut ctr: u8 = 0;
        loop
            invariant
                t0 == old(self).i2c.events(),
                addr == old(self).i2c.address(),
                self.i2c.address() == addr,
                t0.is_prefix_of(self.i2c.events()),
                ctr <= RESET_POLLS,
                issued(t0, self.i2c.events()).len() == 2 * ctr + 1,
                polling(issued(t0, self.i2c.events()), addr),
            decreases RESET_POLLS - ctr,
        {
            let ghost before = self.i2c.events();
            let res = self.i2c.read_byte(CTRL_REG1::ADDR);
            let ghost after = self.i2c.events();
            proof {
                lemma_issued_concat(t0, before, after);
                let prev = issued(t0, before);
                let ops = issued(t0, after);
                assert(ops =~= prev.push(after.last()));
                assert forall|i: int| 0 <= i < prev.len() implies ops[i] == prev[i] by {}
                assert forall|i: int|
                    1 <= i < ops.len() && i % 2 == 1 implies (#[trigger] ops[i]).is_register_read(
                    addr,
                    CTRL_REG1::ADDR,
                    1,
                ) by {
                    if i < prev.len() {
                        assert(ops[i] == prev[i]);
                    }
                }
                assert forall|i: int| 2 <= i < ops.len() && i % 2 == 0 implies (#[trigger] ops[i])
                    == (BusEvent::Delay { ms: POLL_INTERVAL_MS }) && still_resetting(ops[i - 1]) by {
                    assert(ops[i] == prev[i]);
                    assert(ops[i - 1] == prev[i - 1]);
                }
            }
            let byte = match res {
                Ok(b) => b,
                Err(e) => {
                    return Err(Adafruit1893Error::from(e));
                },
            };
            if byte & CTRL_REG1::RESET == 0 || ctr >= RESET_POLLS {
                if ctr >= RESET_POLLS {
                    return Err(Adafruit1893Error::NoResponse);
                } else {
                    return Ok(());
                }
            }
            self.i2c.settle(delay, POLL_INTERVAL_MS);
            proof {
                let mid = after;
                let fin = self.i2c.events();
                lemma_issued_push(mid, fin.last());
                lemma_issued_concat(t0, mid, fin);
                let prev = issued(t0, mid);
                let ops = issued(t0, fin);
                assert(ops =~= prev.push(fin.last()));
                assert forall|i: int|
                    1 <= i < ops.len() && i % 2 == 1 implies (#[trigger] ops[i]).is_register_read(
                    addr,
                    CTRL_REG1::ADDR,
                    1,
                ) && still_resetting(ops[i]) by {
                    assert(ops[i] == prev[i]);
                    if i < prev.len() - 1 {
                        assert(prev[i] == issued(t0, before)[i]);
                    }
                }
                assert forall|i: int| 2 <= i < ops.len() && i % 2 == 0 implies (#[trigger] ops[i])
                    == (BusEvent::Delay { ms: POLL_INTERVAL_MS }) by {
                    if i < prev.len() {
                        assert(ops[i] == prev[i]);
                        assert(prev[i] == issued(t0, before)[i]);
                    }
                }
            }
            ctr = ctr + 1;
        }
    }
}

} // verus!

//! Register-level operations over an addressed serial bus.
//!
//! [`I2cDevice`] owns the bus and one slave address. Each operation issues one
//! or two bus transactions and never retries. A ghost log of the device's
//! timeline, every transaction issued (with the bytes sent, the bytes received
//! and the outcome) and every settle delay waited, is the model that the
//! contracts speak of.
use crate::bits::{apply_bits, set_bits};
use vstd::prelude::*;

verus! {

/// The two transactions of an addressed serial bus that a register device
/// needs.
pub trait I2cBus {
    /// The transport's own error.
    type Error;

    /// Sends `bytes` to the device at `addr`.
    fn write(&mut self, addr: u8, bytes: &[u8]) -> Result<(), Self::Error>;

    /// Sends `bytes` to the device at `addr`, then reads `buffer.len()` bytes
    /// back into `buffer`, in one combined transaction. A slice cannot change
    /// its length through a mutable borrow.
    fn write_read(&mut self, addr: u8, bytes: &[u8], buffer: &mut [u8]) -> (r: Result<
        (),
        Self::Error,
    >)
        ensures
            final(buffer)@.len() == old(buffer)@.len(),
    ;
}

/// A blocking millisecond delay.
pub trait DelayMs {
    /// Pauses execution for `ms` milliseconds.
    fn delay_ms(&mut self, ms: u8);
}

/// One step of a device's timeline as the adapter performed it.

pub enum BusEvent {
    /// `bytes` sent to `addr`.
    Write { addr: u8, bytes: Seq<u8>, ok: bool },
    /// `bytes` sent to `addr`, then `read` received from it.
    WriteRead { addr: u8, bytes: Seq<u8>, read: Seq<u8>, ok: bool },
    /// A wait of `ms` milliseconds.
    Delay { ms: u8 },
}

impl BusEvent {
    /// Whether the transport reported success (a delay always completes).
    pub open spec fn succeeded(self) -> bool {
        match self {
            BusEvent::Write { ok, .. } => ok,
            BusEvent::WriteRead { ok, .. } => ok,
            BusEvent::Delay { .. } => true,
        }
    }

    /// The bytes received (none for a plain write or a delay).
    pub open spec fn data(self) -> Seq<u8> {
        match self {
            BusEvent::WriteRead { read, .. } => read,
            _ => Seq::empty(),
        }
    }

    /// A read of `n` bytes starting at register `reg` of the device at `addr`.
    pub open spec fn is_register_read(self, addr: u8, reg: u8, n: nat) -> bool {
        match self {
            BusEvent::WriteRead { addr: a, bytes, read, .. } => a == addr && bytes == seq![reg]
                && read.len() == n,
            _ => false,
        }
    }
}

/// The events issued after `before`, when `before` is a prefix of `after`.
pub open spec fn issued(before: Seq<BusEvent>, after: Seq<BusEvent>) -> Seq<BusEvent> {
    after.skip(before.len() as int)
}

/// The concatenation of the events issued in two steps.
pub proof fn lemma_issued_concat(a: Seq<BusEvent>, b: Seq<BusEvent>, c: Seq<BusEvent>)
    requires
        a.is_prefix_of(b),
        b.is_prefix_of(c),
    ensures
        a.is_prefix_of(c),
        issued(a, c) == issued(a, b) + issued(b, c),
{
    assert(issued(a, c) =~= issued(a, b) + issued(b, c));
    assert(c.subrange(0, a.len() as int) =~= a) by {
        assert forall|i: int| 0 <= i < a.len() implies c[i] == a[i] by {
            assert(c[i] == b[i]);
        }
    }
}

/// One more event issued.
pub proof fn lemma_issued_push(a: Seq<BusEvent>, x: BusEvent)
    ensures
        a.is_prefix_of(a.push(x)),
        issued(a, a.push(x)) == seq![x],
{
    assert(a.push(x).subrange(0, a.len() as int) =~= a);
    assert(issued(a, a.push(x)) =~= seq![x]);
}

/// `ops` is the read-modify-write of a bit field: a one-byte read of `reg`,
/// then, if it succeeded, the write of that byte with the field set to `data`.
/// `ok` tells whether both transactions succeeded.
pub open spec fn is_field_update(
    ops: Seq<BusEvent>,
    addr: u8,
    reg: u8,
    start: u8,
    length: u8,
    data: u8,
    ok: bool,
) -> bool {
    &&& ops.len() >= 1
    &&& ops[0].is_register_read(addr, reg, 1)
    &&& if ops[0].succeeded() {
        &&& ops.len() == 2
        &&& ops[1] == BusEvent::Write {
            addr,
            bytes: seq![reg, apply_bits(ops[0].data()[0], start, length, data)],
            ok,
        }
    } else {
        ops.len() == 1 && !ok
    }
}

/// An error of a register operation.
pub enum I2cWrapperError<T> {
    /// The transport failed.
    I2c(T),
    /// The identity register held this value instead of the expected one.
    InvalidChipId(u8),
}

/// An I2C device with an address.
pub struct I2cDevice<T> {
    i2c: T,
    slave_addr: u8,
    log: Ghost<Seq<BusEvent>>,
}

impl<T: I2cBus> I2cDevice<T> {
    /// The slave address every transaction goes to.
    pub closed spec fn address(&self) -> u8 {
        self.slave_addr
    }

    /// Every transaction issued and delay waited since construction, oldest first.
    pub closed spec fn events(&self) -> Seq<BusEvent> {
        self.log@
    }

    /// Creates a new I2C device wrapper.
    pub fn new(i2c: T, slave_addr: u8) -> (d: Self)
        ensures
            d.address() == slave_addr,
            d.events() == Seq::<BusEvent>::empty(),
    {
        I2cDevice { i2c, slave_addr, log: Ghost(Seq::empty()) }
    }

    /// Waits `ms` milliseconds, as the device's protocol asks after a state
    /// change.
    pub fn settle<D: DelayMs>(&mut self, delay: &mut D, ms: u8)
        ensures
            final(self).address() == old(self).address(),
            final(self).events() == old(self).events().push(BusEvent::Delay { ms }),
    {
        delay.delay_ms(ms);
        proof {
            self.log@ = self.log@.push(BusEvent::Delay { ms });
        }
    }

    /// Writes a single byte to the device at the provided register.
    pub fn write_byte(&mut self, reg: u8, val: u8) -> (r: Result<(), I2cWrapperError<T::Error>>)
        ensures
            final(self).address() == old(self).address(),
            final(self).events() == old(self).events().push(
                BusEvent::Write { addr: old(self).address(), bytes: seq![reg, val], ok: r is Ok },
            ),
            r is Err ==> r->Err_0 is I2c,
    {
        let bytes: [u8; 2] = [reg, val];
        let res = self.i2c.write(self.slave_addr, &bytes);
        proof {
            assert(bytes@ =~= seq![reg, val]);
            self.log@ = self.log@.push(
                BusEvent::Write { addr: self.slave_addr, bytes: bytes@, ok: res is Ok },
            );
        }
        match res {
            Ok(()) => Ok(()),
            Err(e) => Err(I2cWrapperError::I2c(e)),
        }
    }

    /// Reads a single byte from the device at the register provided.
    pub fn read_byte(&mut self, reg: u8) -> (r: Result<u8, I2cWrapperError<T::Error>>)
        ensures
            final(self).address() == old(self).address(),
            old(self).events().is_prefix_of(final(self).events()),
            issued(old(self).events(), final(self).events()).len() == 1,
            final(self).events().last().is_register_read(old(self).address(), reg, 1),
            final(self).events().last().succeeded() == r is Ok,
            r is Ok ==> r->Ok_0 == final(self).events().last().data()[0],
            r is Err ==> r->Err_0 is I2c,
    {
        let mut byte: [u8; 1] = [0; 1];
        let addr: [u8; 1] = [reg];
        let res = self.i2c.write_read(self.slave_addr, &addr, &mut byte);
        let b = byte[0];
        proof {
            assert(addr@ =~= seq![reg]);
            let before = self.log@;
            self.log@ = self.log@.push(
                BusEvent::WriteRead {
                    addr: self.slave_addr,
                    bytes: addr@,
                    read: byte@,
                    ok: res is Ok,
                },
            );
            assert(issued(before, self.log@) =~= seq![self.log@.last()]);
        }
        match res {
            Ok(()) => Ok(b),
            Err(e) => Err(I2cWrapperError::I2c(e)),
        }
    }

    /// Reads `buff.len()` consecutive bytes, starting at register `reg`, into
    /// `buff`.
    pub fn read_bytes(&mut self, reg: u8, buff: &mut [u8]) -> (r: Result<
        (),
        I2cWrapperError<T::Error>,
    >)
        ensures
            final(self).address() == old(self).address(),
            final(self).events() == old(self).events().push(
                BusEvent::WriteRead {
                    addr: old(self).address(),
                    bytes: seq![reg],
                    read: final(buff)@,
                    ok: r is Ok,
                },
            ),
            final(buff)@.len() == old(buff)@.len(),
            r is Err ==> r->Err_0 is I2c,
    {
        let addr: [u8; 1] = [reg];
        let res = self.i2c.write_read(self.slave_addr, &addr, buff);
        proof {
            assert(addr@ =~= seq![reg]);
            self.log@ = self.log@.push(
                BusEvent::WriteRead {
                    addr: self.slave_addr,
                    bytes: addr@,
                    read: buff@,
                    ok: res is Ok,
                },
            );
        }
        match res {
            Ok(()) => Ok(()),
            Err(e) => Err(I2cWrapperError::I2c(e)),
        }
    }

    /// Writes `data` into a bit field of register `reg`, by reading the
    /// register, setting the field, and writing the byte back.
    pub fn write_bits(&mut self, reg: u8, start_bit: u8, length: u8, data: u8) -> (r: Result<
        (),
        I2cWrapperError<T::Error>,
    >)
        requires
            start_bit < 8,
            1 <= length <= 8,
        ensures
            final(self).address() == old(self).address(),
            old(self).events().is_prefix_of(final(self).events()),
            is_field_update(
                issued(old(self).events(), final(self).events()),
                old(self).address(),
                reg,
                start_bit,
                length,
                data,
                r is Ok,
            ),
            r is Err ==> r->Err_0 is I2c,
    {
        let mut byte = match self.read_byte(reg) {
            Ok(b) => b,
            Err(e) => {
                return Err(e);
            },
        };
        let ghost read_log = self.log@;
        set_bits(&mut byte, start_bit, length, data);
        let res = self.write_byte(reg, byte);
        proof {
            let ops = issued(old(self).log@, self.log@);
            assert(ops =~= issued(old(self).log@, read_log).push(self.log@.last()));
        }
        res
    }

    /// Writes a single bit of register `reg`.
    pub fn write_bit(&mut self, reg: u8, bit: u8, value: bool) -> (r: Result<
        (),
        I2cWrapperError<T::Error>,
    >)
        requires
            bit < 8,
        ensures
            final(self).address() == old(self).address(),
            old(self).events().is_prefix_of(final(self).events()),
            is_field_update(
                issued(old(self).events(), final(self).events()),
                old(self).address(),
                reg,
                bit,
                1,
                if value { 1 } else { 0 },
                r is Ok,
            ),
            r is Err ==> r->Err_0 is I2c,
    {
        self.write_bits(reg, bit, 1, if value { 1 } else { 0 })
    }

    /// Checks the chip's identity: reads `whoami_addr` and compares it with
    /// `exp_value`.
    pub fn whoami(&mut self, whoami_addr: u8, exp_value: u8) -> (r: Result<
        (),
        I2cWrapperError<T::Error>,
    >)
        ensures
            final(self).address() == old(self).address(),
            old(self).events().is_prefix_of(final(self).events()),
            issued(old(self).events(), final(self).events()).len() == 1,
            final(self).events().last().is_register_read(old(self).address(), whoami_addr, 1),
            r is Ok <==> final(self).events().last().succeeded()
                && final(self).events().last().data()[0] == exp_value,
            (r matches Err(I2cWrapperError::I2c(_))) <==> !final(self).events().last().succeeded(),
            r matches Err(I2cWrapperError::InvalidChipId(a)) ==> a == final(self).events().last().data()[0],
    {
        let addr = self.read_byte(whoami_addr)?;
        if addr != exp_value {
            Err(I2cWrapperError::InvalidChipId(addr))
        } else {
            Ok(())
        }
    }
}

} // verus!

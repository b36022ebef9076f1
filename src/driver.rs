//! The sensor driver.
use vstd::prelude::*;
use crate::bus::{
    BusEvent, I2cBus, byte_outcome, one_more, read_transfer,
    unit_outcome, write_transfer,
};
use crate::distance::Distance;
use crate::register::Register;
use core::marker::PhantomData;

verus! {

/// The 8-bit write address of the chip.
pub const WRITE_ADDRESS: u8 = 0x80;

/// The chip's 7-bit bus address unless configured otherwise.
pub const DEFAULT_ADDRESS: u8 = WRITE_ADDRESS >> 1;

/// Errors of the driver.
#[derive(Copy, Clone, Debug)]
pub enum Error<E> {
    /// Underlying bus error
    BusError(E),
    /// Timeout
    Timeout,
}

impl<E> From<E> for Error<E> {
    fn from(error: E) -> Self {
        Error::BusError(error)
    }
}

impl<E> vstd::std_specs::convert::FromSpecImpl<E> for Error<E> {
    open spec fn obeys_from_spec() -> bool {
        true
    }

    open spec fn from_spec(v: E) -> Self {
        Error::BusError(v)
    }
}

/// The register read at step `i` of a distance measurement.
pub open spec fn distance_register(i: int) -> u8 {
    if i == 0 {
        Register::DISTANCE_11_4.spec_address()
    } else if i == 1 {
        Register::DISTANCE_3_0.spec_address()
    } else {
        Register::SHIFT_BIT.spec_address()
    }
}

/// The transactions of one distance measurement, in order: each reads one
/// byte of the next register (high byte, low byte, shift bit) from
/// `address`, every reply but the last succeeded, and the measurement stops
/// early only at a failed read.
pub open spec fn distance_reads<E>(address: u8, events: Seq<BusEvent<E>>) -> bool {
    &&& 1 <= events.len() <= 3
    &&& forall|i: int|
        0 <= i < events.len() ==> #[trigger] events[i].transfer == read_transfer(
            address,
            distance_register(i),
            1,
        )
    &&& forall|i: int| 0 <= i < events.len() - 1 ==> #[trigger] events[i].reply is Ok
    &&& forall|i: int|
        0 <= i < events.len() && #[trigger] events[i].reply is Ok ==> events[i].reply->Ok_0.len()
            == 1
    &&& events.len() < 3 ==> events.last().reply is Err
}

/// The result of a distance measurement made of `events`: the error of the
/// first failed read, else the reading of the three bytes.
pub open spec fn distance_outcome<E>(events: Seq<BusEvent<E>>) -> Result<Distance, E> {
    match byte_outcome(events[0].reply) {
        Err(e) => Err(e),
        Ok(high) => match byte_outcome(events[1].reply) {
            Err(e) => Err(e),
            Ok(low) => match byte_outcome(events[2].reply) {
                Err(e) => Err(e),
                Ok(shift) => Ok(Distance::spec_from_bytes(high, low, shift)),
            },
        },
    }
}

/// A failed read in a distance measurement is its last read, and the
/// measurement returns that read's error and no distance.
pub proof fn lemma_distance_read_error<E>(address: u8, events: Seq<BusEvent<E>>, i: int)
    requires
        distance_reads(address, events),
        0 <= i < events.len(),
        events[i].reply is Err,
    ensures
        i == events.len() - 1,
        distance_outcome(events) == Err::<Distance, E>(events[i].reply->Err_0),
{
    if i < events.len() - 1 {
        assert(events[i].reply is Ok);
    }
    if i >= 1 {
        assert(events[0].reply is Ok);
    }
    if i >= 2 {
        assert(events[1].reply is Ok);
    }
}

/// A distance measurement that returns a reading made all three reads, and
/// the reading is made of the three bytes they returned.
pub proof fn lemma_distance_read_success<E>(address: u8, events: Seq<BusEvent<E>>)
    requires
        distance_reads(address, events),
        distance_outcome(events) is Ok,
    ensures
        events.len() == 3,
        events[0].reply is Ok && events[1].reply is Ok && events[2].reply is Ok,
        distance_outcome(events) == Ok::<Distance, E>(
            Distance::spec_from_bytes(
                events[0].reply->Ok_0[0],
                events[1].reply->Ok_0[0],
                events[2].reply->Ok_0[0],
            ),
        ),
{
    if events.len() < 3 {
        lemma_distance_read_error(address, events, events.len() - 1);
    }
    if events[2].reply is Err {
        lemma_distance_read_error(address, events, 2);
    }
}

/// Driver of a GP2Y0E02B sensor on the bus `I2C`, whose errors are `E`.
///
/// The driver owns the bus handle; its bus address never changes. Its
/// contracts speak of the bus's log of transactions.
pub struct GP2Y0E02B<I2C, E> {
    com: I2C,
    address: u8,
    error: PhantomData<E>,
}

impl<I2C, E> GP2Y0E02B<I2C, E> {
    /// The 7-bit bus address of the sensor.
    pub closed spec fn spec_address(&self) -> u8 {
        self.address
    }
}

impl<I2C, E> GP2Y0E02B<I2C, E> where I2C: I2cBus<E> {
    /// The transactions made so far on the driver's bus, oldest first.
    pub closed spec fn history(&self) -> Seq<BusEvent<E>> {
        self.com.log()
    }

    /// Creates a driver for the sensor at `address` on `i2c`; makes no
    /// transaction.
    pub fn new(i2c: I2C, address: u8) -> (r: Result<GP2Y0E02B<I2C, E>, Error<E>>)
        ensures
            r is Ok,
            r->Ok_0.spec_address() == address,
            r->Ok_0.history() == i2c.log(),
    {
        Ok(GP2Y0E02B { com: i2c, address, error: PhantomData })
    }

    /// Creates a driver for the sensor at its default address.
    pub fn default(i2c: I2C) -> (r: Result<GP2Y0E02B<I2C, E>, Error<E>>)
        ensures
            r is Ok,
            r->Ok_0.spec_address() == 0x40,
            r->Ok_0.history() == i2c.log(),
    {
        assert(DEFAULT_ADDRESS == 0x40) by (bit_vector);
        GP2Y0E02B::new(i2c, DEFAULT_ADDRESS)
    }

    /// The 7-bit bus address of the sensor.
    pub fn address(&self) -> (r: u8)
        ensures
            r == self.spec_address(),
    {
        self.address
    }

    /// Reads one byte from a register of the map.
    pub fn read_register(&mut self, reg: Register) -> (r: Result<u8, E>)
        ensures
            final(self).spec_address() == old(self).spec_address(),
            one_more(
                old(self).history(),
                final(self).history(),
                read_transfer(old(self).spec_address(), reg.spec_address(), 1),
            ),
            r == byte_outcome(final(self).history().last().reply),
    {
        self.read_byte(reg.address())
    }

    /// Writes one byte into a register of the map.
    pub fn write_register(&mut self, reg: Register, byte: u8) -> (r: Result<(), E>)
        ensures
            final(self).spec_address() == old(self).spec_address(),
            one_more(
                old(self).history(),
                final(self).history(),
                write_transfer(old(self).spec_address(), reg.spec_address(), byte),
            ),
            r == unit_outcome(final(self).history().last().reply),
    {
        self.write_byte(reg.address(), byte)
    }

    /// Reads a distance measurement: the high distance byte, the low
    /// distance byte and the shift bit, one transaction each, stopping at
    /// the first failed read.
    pub fn read_distance(&mut self) -> (r: Result<Distance, E>)
        ensures
            final(self).spec_address() == old(self).spec_address(),
            final(self).history().len() > old(self).history().len(),
            final(self).history().take(old(self).history().len() as int) == old(self).history(),
            distance_reads(
                old(self).spec_address(),
                final(self).history().skip(old(self).history().len() as int),
            ),
            r == distance_outcome(final(self).history().skip(old(self).history().len() as int)),
    {
        let ghost start = self.history();
        let high = match self.read_byte(Register::DISTANCE_11_4.address()) {
            Ok(b) => b,
            Err(e) => {
                assert(self.history().skip(start.len() as int) =~= seq![self.history().last()]);
                return Err(e);
            },
        };
        let ghost after_high = self.history();
        let low = match self.read_byte(Register::DISTANCE_3_0.address()) {
            Ok(b) => b,
            Err(e) => {
                assert(self.history().skip(start.len() as int) =~= seq![
                    after_high.last(),
                    self.history().last(),
                ]);
                return Err(e);
            },
        };
        let ghost after_low = self.history();
        let res = self.read_byte(Register::SHIFT_BIT.address());
        assert(self.history().skip(start.len() as int) =~= seq![
            after_high.last(),
            after_low.last(),
            self.history().last(),
        ]);
        match res {
            Ok(shift) => Ok(Distance::from_bytes(high, low, shift)),
            Err(e) => Err(e),
        }
    }

    /// Reads one byte from the register at `reg`, in one transaction that
    /// writes the register address and reads the byte back.
    pub fn read_byte(&mut self, reg: u8) -> (r: Result<u8, E>)
        ensures
            final(self).spec_address() == old(self).spec_address(),
            one_more(
                old(self).history(),
                final(self).history(),
                read_transfer(old(self).spec_address(), reg, 1),
            ),
            final(self).history().last().reply is Ok
                ==> final(self).history().last().reply->Ok_0.len() == 1,
            r == byte_outcome(final(self).history().last().reply),
    {
        let mut data: [u8; 1] = [0];
        let request: [u8; 1] = [reg];
        let res = self.com.bus_write_read(self.address, &request, &mut data);
        assert(request@ =~= seq![reg]);
        match res {
            Ok(()) => Ok(data[0]),
            Err(e) => Err(e),
        }
    }

    /// Reads two bytes starting at the register at `reg`, in one
    /// transaction; the bytes come in the order the bus delivered them.
    pub fn read_bytes(&mut self, reg: u8) -> (r: Result<[u8; 2], E>)
        ensures
            final(self).spec_address() == old(self).spec_address(),
            one_more(
                old(self).history(),
                final(self).history(),
                read_transfer(old(self).spec_address(), reg, 2),
            ),
            match final(self).history().last().reply {
                Ok(bytes) => r is Ok && r->Ok_0@ == bytes,
                Err(e) => r == Err::<[u8; 2], E>(e),
            },
    {
        let mut data: [u8; 2] = [0, 0];
        let request: [u8; 1] = [reg];
        let res = self.com.bus_write_read(self.address, &request, &mut data);
        assert(request@ =~= seq![reg]);
        match res {
            Ok(()) => Ok(data),
            Err(e) => Err(e),
        }
    }

    /// Writes `byte` into the register at `reg`, in one transaction that
    /// carries the register address and the value.
    pub fn write_byte(&mut self, reg: u8, byte: u8) -> (r: Result<(), E>)
        ensures
            final(self).spec_address() == old(self).spec_address(),
            one_more(
                old(self).history(),
                final(self).history(),
                write_transfer(old(self).spec_address(), reg, byte),
            ),
            r == unit_outcome(final(self).history().last().reply),
    {
        let request: [u8; 2] = [reg, byte];
        let res = self.com.bus_write(self.address, &request);
        assert(request@ =~= seq![reg, byte]);
        match res {
            Ok(()) => Ok(()),
            Err(e) => Err(e),
        }
    }
}

} // verus!

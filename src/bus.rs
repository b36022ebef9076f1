//! Bus transactions: the trait the driver talks through, and the record of
//! transactions that its contracts speak of.
use vstd::prelude::*;

verus! {

/// One transaction on the I2C bus, as the driver hands it over.
pub enum Transfer {
    /// A plain write of `bytes` to the device at `address`.
    Write { address: u8, bytes: Seq<u8> },
    /// A write of `bytes` followed, in the same transaction, by a read of
    /// `read_len` bytes from the device at `address`.
    WriteRead { address: u8, bytes: Seq<u8>, read_len: nat },
}

/// A transaction and what the bus answered: the bytes read (none for a
/// plain write), or the bus's error.
pub struct BusEvent<E> {
    pub transfer: Transfer,
    pub reply: Result<Seq<u8>, E>,
}

/// The transaction that reads `len` bytes from register `reg`.
pub open spec fn read_transfer(address: u8, reg: u8, len: nat) -> Transfer {
    Transfer::WriteRead { address, bytes: seq![reg], read_len: len }
}

/// The transaction that writes `value` into register `reg`.
pub open spec fn write_transfer(address: u8, reg: u8, value: u8) -> Transfer {
    Transfer::Write { address, bytes: seq![reg, value] }
}

/// The first byte of a reply, or its error.
pub open spec fn byte_outcome<E>(reply: Result<Seq<u8>, E>) -> Result<u8, E> {
    match reply {
        Ok(bytes) => Ok(bytes[0]),
        Err(e) => Err(e),
    }
}

/// The success of a reply, or its error.
pub open spec fn unit_outcome<E>(reply: Result<Seq<u8>, E>) -> Result<(), E> {
    match reply {
        Ok(_) => Ok(()),
        Err(e) => Err(e),
    }
}

/// Whether `after` is `before` with one more transaction, `transfer`,
/// whatever the bus replied to it.
pub open spec fn one_more<E>(
    before: Seq<BusEvent<E>>,
    after: Seq<BusEvent<E>>,
    transfer: Transfer,
) -> bool {
    after == before.push(BusEvent { transfer, reply: after.last().reply })
}

/// The reply to a transaction that filled `buffer` and returned `res`.
pub open spec fn reply_of<E>(res: Result<(), E>, buffer: Seq<u8>) -> Result<Seq<u8>, E> {
    match res {
        Ok(_) => Ok(buffer),
        Err(e) => Err(e),
    }
}

/// What the registers hold after `events`, on a bus that keeps each
/// successful one-register write as storage, starting from `mem`.
pub open spec fn stored<E>(mem: Map<u8, u8>, events: Seq<BusEvent<E>>) -> Map<u8, u8>
    decreases events.len(),
{
    if events.len() == 0 {
        mem
    } else {
        let before = stored(mem, events.drop_last());
        let last = events.last();
        match last.transfer {
            Transfer::Write { address: _, bytes } => if last.reply is Ok && bytes.len() == 2 {
                before.insert(bytes[0], bytes[1])
            } else {
                before
            },
            Transfer::WriteRead { .. } => before,
        }
    }
}

/// Whether each successful one-byte register read in `events` returned
/// what storage held at that point, starting from `mem`.
pub open spec fn storage_replies<E>(mem: Map<u8, u8>, events: Seq<BusEvent<E>>) -> bool {
    forall|i: int|
        0 <= i < events.len() ==> match #[trigger] events[i].transfer {
            Transfer::WriteRead { address: _, bytes, read_len } => (events[i].reply is Ok
                && bytes.len() == 1 && read_len == 1 && stored(mem, events.take(i)).contains_key(
                bytes[0],
            )) ==> events[i].reply->Ok_0 == seq![stored(mem, events.take(i))[bytes[0]]],
            Transfer::Write { .. } => true,
        }
}

/// On a bus that keeps register writes as storage, a successful write of
/// `value` into a register, followed by a successful read of one byte from
/// the same register, reads back `value`.
pub proof fn lemma_write_then_read<E>(
    mem: Map<u8, u8>,
    events: Seq<BusEvent<E>>,
    address: u8,
    reg: u8,
    value: u8,
)
    requires
        events.len() == 2,
        events[0].transfer == write_transfer(address, reg, value),
        events[0].reply is Ok,
        events[1].transfer == read_transfer(address, reg, 1),
        events[1].reply is Ok,
        storage_replies(mem, events),
    ensures
        byte_outcome(events[1].reply) == Ok::<u8, E>(value),
{
    let first = events.take(1);
    assert(first.drop_last() =~= Seq::<BusEvent<E>>::empty());
    assert(first.last() == events[0]);
    assert(stored(mem, first.drop_last()) == mem);
    assert(seq![reg, value][0] == reg && seq![reg, value][1] == value);
    assert(stored(mem, first) == mem.insert(reg, value));
    assert(stored(mem, first).contains_key(reg));
    let t = events[1].transfer;
    assert(match t {
        Transfer::WriteRead { address: _, bytes, read_len } => bytes == seq![reg] && read_len == 1,
        _ => false,
    });
}

/// The two I2C bus transactions that the driver makes.
///
/// An implementation keeps, as its log, the record of the transactions made
/// on it: each call adds the transaction it was handed and what it replied.
pub trait I2cBus<E> {
    /// The transactions made on this bus so far, oldest first.
    ///
    /// An implementation that Verus checks defines it, and its methods meet
    /// the contracts below. The default, a log that stays empty, is there for
    /// implementations written outside Verus: the driver's contracts then say
    /// nothing of them.
    closed spec fn log(&self) -> Seq<BusEvent<E>> {
        Seq::empty()
    }

    /// Writes `bytes` to the device at `address` and then fills `buffer`
    /// from it, in one transaction.
    fn bus_write_read(&mut self, address: u8, bytes: &[u8], buffer: &mut [u8]) -> (r: Result<
        (),
        E,
    >)
        ensures
            final(buffer)@.len() == old(buffer)@.len(),
            final(self).log() == old(self).log().push(
                (BusEvent {
                    transfer: Transfer::WriteRead {
                        address,
                        bytes: bytes@,
                        read_len: old(buffer)@.len(),
                    },
                    reply: reply_of(r, final(buffer)@),
                }),
            ),
    ;

    /// Writes `bytes` to the device at `address`, in one transaction.
    fn bus_write(&mut self, address: u8, bytes: &[u8]) -> (r: Result<(), E>)
        ensures
            final(self).log() == old(self).log().push(
                (BusEvent {
                    transfer: Transfer::Write { address, bytes: bytes@ },
                    reply: reply_of(r, Seq::empty()),
                }),
            ),
    ;
}

} // verus!

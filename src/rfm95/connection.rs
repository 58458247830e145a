//! RFM95 SPI connection
//!
//! Every register access is one or two select cycles: the chip-select line is pulled low, a command byte
//! (the operation bit followed by the 7-bit register address) and a payload byte are exchanged, and the line
//! is released. The connection keeps two ghost records of what it did: the register-level accesses, and every
//! call it made on the hardware, in order and with its outcome.
use crate::error::Error;
use crate::rfm95::hal::{delay_ms, pin_set_high, pin_set_low, spi_transfer};
use crate::rfm95::registers::{RegField, Register};
use embedded_hal::delay::DelayNs;
use embedded_hal::digital::OutputPin;
use embedded_hal::spi::SpiBus;
use vstd::prelude::*;

verus! {

/// A register read operation
pub const RO: u8 = 0b0000_0000;

/// A register write operation
pub const RW: u8 = 0b1000_0000;

/// One register-level access, with the field value read or written
#[derive(Debug, Clone, Copy, PartialEq, Eq, Structural)]
pub enum Access {
    /// The field was read and held the given value
    Read(RegField, u8),
    /// The given value was written into the field
    Write(RegField, u8),
}

/// One call on the modem's hardware lines, with whether it succeeded
#[derive(Debug, Clone, Copy, PartialEq, Eq, Structural)]
pub enum Call {
    /// The reset line was pulled low
    ResetLow(bool),
    /// The reset line was released high
    ResetHigh(bool),
    /// The driver waited for the given number of milliseconds
    DelayMs(u32),
    /// The chip-select line was pulled low
    SelectLow(bool),
    /// A command byte and a payload byte were exchanged; the byte received, if the transfer succeeded
    Exchange(u8, u8, Option<u8>),
    /// The chip-select line was released high
    SelectHigh(bool),
}

/// The command byte of an operation on a register address
pub open spec fn command_byte(operation: u8, address: u8) -> u8 {
    operation | (address & 0x7F)
}

/// The byte that holds `value` in `field` and keeps every other bit of `current`
pub open spec fn merged(current: u8, field: RegField, value: u8) -> u8 {
    (current & !field.mask()) | ((value << field.offset) as u8)
}

/// The field's value inside a register byte
pub open spec fn extracted(byte: u8, field: RegField) -> u8 {
    (byte & field.mask()) >> field.offset
}

/// The number of calls of a select cycle: one when selecting failed, three otherwise
pub open spec fn cycle_len(calls: Seq<Call>) -> int {
    if calls[0] == Call::SelectLow(true) {
        3
    } else {
        1
    }
}

/// `calls` is one select cycle exchanging `command` and `payload`, whatever its outcome: select low; if that
/// worked, the exchange, then select high, which is attempted also when the exchange failed
pub open spec fn cycle(calls: Seq<Call>, command: u8, payload: u8) -> bool {
    &&& calls.len() >= 1
    &&& calls[0] is SelectLow
    &&& calls.len() == cycle_len(calls)
    &&& calls[0] == Call::SelectLow(true) ==> {
        &&& calls[1] == Call::Exchange(command, payload, calls[1]->Exchange_2)
        &&& calls[2] is SelectHigh
    }
}

/// Every call of a select cycle succeeded
pub open spec fn cycle_ok(calls: Seq<Call>) -> bool {
    &&& calls.len() == 3
    &&& calls[0] == Call::SelectLow(true)
    &&& calls[1]->Exchange_2 is Some
    &&& calls[2] == Call::SelectHigh(true)
}

/// The byte the modem answered in a successful select cycle
pub open spec fn cycle_response(calls: Seq<Call>) -> u8 {
    calls[1]->Exchange_2->Some_0
}

/// `calls` reads the register of `field`
pub open spec fn read_calls(calls: Seq<Call>, field: RegField) -> bool {
    cycle(calls, command_byte(RO, field.address), 0)
}

/// `calls` writes `value` into `field`, whatever the outcome: a whole-byte field takes one write cycle; a
/// narrower one is read first and, if that read succeeded, written back with all bits outside the field kept
pub open spec fn write_calls(calls: Seq<Call>, field: RegField, value: u8) -> bool {
    if field.mask() == 0xFF {
        cycle(calls, command_byte(RW, field.address), value)
    } else {
        let first = calls.take(cycle_len(calls));
        &&& calls.len() >= 1
        &&& cycle(first, command_byte(RO, field.address), 0)
        &&& if cycle_ok(first) {
            cycle(calls.skip(3), command_byte(RW, field.address), merged(cycle_response(first), field, value))
        } else {
            calls.len() == cycle_len(calls)
        }
    }
}

/// Every cycle of a write succeeded
pub open spec fn write_ok(calls: Seq<Call>, field: RegField) -> bool {
    if field.mask() == 0xFF {
        cycle_ok(calls)
    } else {
        calls.len() >= 3 && cycle_ok(calls.take(3)) && cycle_ok(calls.skip(3))
    }
}

/// A call that did not succeed
pub open spec fn failed(call: Call) -> bool {
    match call {
        Call::ResetLow(ok) => !ok,
        Call::ResetHigh(ok) => !ok,
        Call::DelayMs(_) => false,
        Call::SelectLow(ok) => !ok,
        Call::Exchange(_, _, response) => response is None,
        Call::SelectHigh(ok) => !ok,
    }
}

/// The number of calls that did not succeed
pub open spec fn failure_count(calls: Seq<Call>) -> nat
    decreases calls.len(),
{
    if calls.len() == 0 {
        0
    } else {
        failure_count(calls.drop_last()) + if failed(calls.last()) { 1nat } else { 0nat }
    }
}

/// Appending a call adds one failure exactly when the call failed
pub proof fn lemma_failure_count_push(calls: Seq<Call>, call: Call)
    ensures
        failure_count(calls.push(call)) == failure_count(calls) + if failed(call) { 1nat } else { 0nat },
{
    assert(calls.push(call).drop_last() =~= calls);
}

/// When the failure count grew between a log and a later one, one of the calls made in between failed
pub proof fn lemma_failure_in_new_calls(before: Seq<Call>, after: Seq<Call>)
    requires
        before.is_prefix_of(after),
        failure_count(after) > failure_count(before),
    ensures
        exists|i: int| 0 <= i < calls_since(before, after).len() && failed(#[trigger] calls_since(before, after)[i]),
    decreases after.len(),
{
    if before.len() == after.len() {
        assert(before =~= after);
    }
    let last = after.len() - 1;
    let init = after.drop_last();
    if failed(after.last()) {
        assert(calls_since(before, after)[last - before.len()] == after[last]);
    } else {
        assert(failure_count(after) == failure_count(init));
        assert(before.is_prefix_of(init));
        lemma_failure_in_new_calls(before, init);
        let i = choose|i: int| 0 <= i < calls_since(before, init).len() && failed(#[trigger] calls_since(before, init)[i]);
        assert(calls_since(before, after)[i] == calls_since(before, init)[i]);
    }
}

/// The calls made after `before`
pub open spec fn calls_since(before: Seq<Call>, after: Seq<Call>) -> Seq<Call> {
    after.subrange(before.len() as int, after.len() as int)
}

/// Writing a field by read-modify-write leaves every bit of a sibling field in the same register as it was,
/// and the field then reads back as the value written.
pub proof fn lemma_write_keeps_siblings(current: u8, field: RegField, sibling: RegField, value: u8)
    requires
        field.valid(),
        sibling.valid(),
        field.address == sibling.address,
        field.mask() & sibling.mask() == 0,
        field.fits(value),
    ensures
        merged(current, field, value) & sibling.mask() == current & sibling.mask(),
        extracted(merged(current, field, value), sibling) == extracted(current, sibling),
        extracted(merged(current, field, value), field) == value,
{
    let m = field.mask();
    let o = field.offset;
    let w = field.width;
    let s = sibling.mask();
    let so = sibling.offset;
    assert(((current & !m) | ((value << o) as u8)) & s == current & s && ((((current & !m) | ((value << o) as u8))
        & s) >> so) == ((current & s) >> so) && ((((current & !m) | ((value << o) as u8)) & m) >> o) == value)
        by (bit_vector)
        requires
            m == ((0xFFu8 >> ((8 - w) as u8)) << o) as u8,
            1 <= w,
            o + w <= 8,
            value >> w == 0,
            m & s == 0,
    ;
}

/// The number of calls a completed register access takes: one select cycle, or two for a read-modify-write
pub open spec fn access_len(access: Access) -> int {
    match access {
        Access::Read(_, _) => 3,
        Access::Write(field, _) => if field.mask() == 0xFF {
            3
        } else {
            6
        },
    }
}

/// `calls` are exactly the successful select cycles that carry out `access`
pub open spec fn carried_out_by(access: Access, calls: Seq<Call>) -> bool {
    match access {
        Access::Read(field, value) => {
            &&& read_calls(calls, field)
            &&& cycle_ok(calls)
            &&& value == extracted(cycle_response(calls), field)
        },
        Access::Write(field, value) => write_calls(calls, field, value) && write_ok(calls, field),
    }
}

/// Each access was carried out by its own select cycles, which start in `calls` at its entry in `starts`;
/// the cycles of later accesses come later
pub open spec fn accesses_carried_out(accesses: Seq<Access>, starts: Seq<int>, calls: Seq<Call>) -> bool {
    &&& starts.len() == accesses.len()
    &&& forall|i: int|
        0 <= i < accesses.len() ==> {
            &&& 0 <= #[trigger] starts[i]
            &&& starts[i] + access_len(accesses[i]) <= calls.len()
            &&& carried_out_by(accesses[i], calls.subrange(starts[i], starts[i] + access_len(accesses[i])))
        }
    &&& forall|i: int, j: int| 0 <= i < j < accesses.len() ==> #[trigger] starts[i] + access_len(accesses[i]) <= #[trigger] starts[j]
}

/// Further calls leave the cycles of earlier accesses where they were
proof fn lemma_carried_out_extend(accesses: Seq<Access>, starts: Seq<int>, before: Seq<Call>, after: Seq<Call>)
    requires
        accesses_carried_out(accesses, starts, before),
        before.is_prefix_of(after),
    ensures
        accesses_carried_out(accesses, starts, after),
{
    assert forall|i: int| 0 <= i < accesses.len() implies carried_out_by(
        accesses[i],
        after.subrange(starts[i], starts[i] + access_len(accesses[i])),
    ) by {
        assert(after.subrange(starts[i], starts[i] + access_len(accesses[i])) =~= before.subrange(
            starts[i],
            starts[i] + access_len(accesses[i]),
        ));
    }
}

/// A completed access, carried out by the calls made after `before`, joins the record
proof fn lemma_carried_out_push(
    accesses: Seq<Access>,
    starts: Seq<int>,
    before: Seq<Call>,
    after: Seq<Call>,
    access: Access,
)
    requires
        accesses_carried_out(accesses, starts, before),
        before.is_prefix_of(after),
        calls_since(before, after).len() == access_len(access),
        carried_out_by(access, calls_since(before, after)),
    ensures
        accesses_carried_out(accesses.push(access), starts.push(before.len() as int), after),
{
    lemma_carried_out_extend(accesses, starts, before, after);
    let a2 = accesses.push(access);
    let s2 = starts.push(before.len() as int);
    assert(after.subrange(before.len() as int, before.len() + access_len(access)) =~= calls_since(before, after));
    assert forall|i: int| 0 <= i < a2.len() implies {
        &&& 0 <= #[trigger] s2[i]
        &&& s2[i] + access_len(a2[i]) <= after.len()
        &&& carried_out_by(a2[i], after.subrange(s2[i], s2[i] + access_len(a2[i])))
    } by {
        if i < accesses.len() {
            assert(s2[i] == starts[i] && a2[i] == accesses[i]);
        }
    }
    assert forall|i: int, j: int| 0 <= i < j < a2.len() implies #[trigger] s2[i] + access_len(a2[i]) <= #[trigger] s2[j] by {
        if j < accesses.len() {
            assert(s2[i] == starts[i] && a2[i] == accesses[i] && s2[j] == starts[j]);
        } else {
            assert(s2[i] == starts[i] && a2[i] == accesses[i]);
        }
    }
}

/// A RFM95 SPI connection
pub struct Rfm95Connection<Bus, Select> {
    /// The SPI bus
    bus: Bus,
    /// The chip select line
    select: Select,
    /// The register accesses completed so far
    accesses: Ghost<Seq<Access>>,
    /// The calls made on the hardware so far
    calls: Ghost<Seq<Call>>,
    /// For each completed access, where its select cycles start among the calls
    starts: Ghost<Seq<int>>,
}

impl<Bus: SpiBus, Select: OutputPin> Rfm95Connection<Bus, Select> {
    /// The register accesses completed over this connection, oldest first
    pub closed spec fn accesses(&self) -> Seq<Access> {
        self.accesses@
    }

    /// The calls made on the hardware, oldest first
    pub closed spec fn calls(&self) -> Seq<Call> {
        self.calls@
    }

    /// For each completed access, where its select cycles start among the calls
    pub closed spec fn access_starts(&self) -> Seq<int> {
        self.starts@
    }


    /// Creates a new RFM95 SPI connection; this makes no call on the hardware
    pub fn init(bus: Bus, select: Select) -> (r: Self)
        ensures
            accesses_carried_out(r.accesses(), r.access_starts(), r.calls()),
            r.accesses() == Seq::<Access>::empty(),
            r.calls() == Seq::<Call>::empty(),
    {
        Rfm95Connection {
            bus,
            select,
            accesses: Ghost(Seq::empty()),
            calls: Ghost(Seq::empty()),
            starts: Ghost(Seq::empty()),
        }
    }

    /// Drives the modem's reset line low, and records the call with its outcome
    pub fn reset_low<Reset: OutputPin>(&mut self, reset: &mut Reset) -> (r: Result<(), Error>)
        requires
            accesses_carried_out(old(self).accesses(), old(self).access_starts(), old(self).calls()),
        ensures
            accesses_carried_out(final(self).accesses(), final(self).access_starts(), final(self).calls()),
            final(self).calls() == old(self).calls().push(Call::ResetLow(r is Ok)),
            final(self).accesses() == old(self).accesses(),
            r matches Err(e) ==> e == Error::CommunicationFailure,
            r is Ok <==> failure_count(final(self).calls()) == failure_count(old(self).calls()),
            failure_count(final(self).calls()) >= failure_count(old(self).calls()),
    {
        let pulled = pin_set_low(reset);
        proof {
            lemma_failure_count_push(self.calls@, Call::ResetLow(pulled is Ok));
            lemma_carried_out_extend(self.accesses@, self.starts@, self.calls@, self.calls@.push(Call::ResetLow(pulled is Ok)));
            self.calls@ = self.calls@.push(Call::ResetLow(pulled is Ok));
        }
        match pulled {
            Ok(()) => Ok(()),
            Err(()) => Err(Error::CommunicationFailure),
        }
    }

    /// Releases the modem's reset line high, and records the call with its outcome
    pub fn reset_high<Reset: OutputPin>(&mut self, reset: &mut Reset) -> (r: Result<(), Error>)
        requires
            accesses_carried_out(old(self).accesses(), old(self).access_starts(), old(self).calls()),
        ensures
            accesses_carried_out(final(self).accesses(), final(self).access_starts(), final(self).calls()),
            final(self).calls() == old(self).calls().push(Call::ResetHigh(r is Ok)),
            final(self).accesses() == old(self).accesses(),
            r matches Err(e) ==> e == Error::CommunicationFailure,
            r is Ok <==> failure_count(final(self).calls()) == failure_count(old(self).calls()),
            failure_count(final(self).calls()) >= failure_count(old(self).calls()),
    {
        let released = pin_set_high(reset);
        proof {
            lemma_failure_count_push(self.calls@, Call::ResetHigh(released is Ok));
            lemma_carried_out_extend(self.accesses@, self.starts@, self.calls@, self.calls@.push(Call::ResetHigh(released is Ok)));
            self.calls@ = self.calls@.push(Call::ResetHigh(released is Ok));
        }
        match released {
            Ok(()) => Ok(()),
            Err(()) => Err(Error::CommunicationFailure),
        }
    }

    /// Waits for `ms` milliseconds, and records the call
    pub fn wait_ms<Timer: DelayNs>(&mut self, timer: &mut Timer, ms: u32)
        requires
            accesses_carried_out(old(self).accesses(), old(self).access_starts(), old(self).calls()),
        ensures
            accesses_carried_out(final(self).accesses(), final(self).access_starts(), final(self).calls()),
            final(self).calls() == old(self).calls().push(Call::DelayMs(ms)),
            final(self).accesses() == old(self).accesses(),
            failure_count(final(self).calls()) == failure_count(old(self).calls()),
    {
        delay_ms(timer, ms);
        proof {
            lemma_failure_count_push(self.calls@, Call::DelayMs(ms));
            lemma_carried_out_extend(self.accesses@, self.starts@, self.calls@, self.calls@.push(Call::DelayMs(ms)));
            self.calls@ = self.calls@.push(Call::DelayMs(ms));
        }
    }

    /// Reads a RFM95 register via SPI and extracts the field's value
    pub fn read<T: Register>(&mut self, register: T) -> (r: Result<u8, Error>)
        requires
            accesses_carried_out(old(self).accesses(), old(self).access_starts(), old(self).calls()),
            register.field().valid(),
        ensures
            accesses_carried_out(final(self).accesses(), final(self).access_starts(), final(self).calls()),
            old(self).calls().is_prefix_of(final(self).calls()),
            read_calls(calls_since(old(self).calls(), final(self).calls()), register.field()),
            r is Ok <==> cycle_ok(calls_since(old(self).calls(), final(self).calls())),
            r is Ok <==> failure_count(final(self).calls()) == failure_count(old(self).calls()),
            failure_count(final(self).calls()) >= failure_count(old(self).calls()),
            match r {
                Ok(value) => {
                    &&& value == extracted(cycle_response(calls_since(old(self).calls(), final(self).calls())), register.field())
                    &&& final(self).accesses() == old(self).accesses().push(Access::Read(register.field(), value))
                },
                Err(e) => e == Error::CommunicationFailure && final(self).accesses() == old(self).accesses(),
            },
    {
        let address = register.address();
        let mask = register.mask();
        let offset = register.offset();
        let ghost start = self.calls@;
        let response = self.register(RO, address, 0x00)?;
        let value = (response & mask) >> offset;
        proof {
            lemma_carried_out_push(self.accesses@, self.starts@, start, self.calls@, Access::Read(register.field(), value));
            self.starts@ = self.starts@.push(start.len() as int);
            self.accesses@ = self.accesses@.push(Access::Read(register.field(), value));
        }
        Ok(value)
    }

    /// Updates a RFM95 register field via SPI
    ///
    /// A field narrower than the whole register is updated by read-modify-write, so the other fields packed
    /// into the same register keep their values.
    pub fn write<T: Register>(&mut self, register: T, value: u8) -> (r: Result<(), Error>)
        requires
            accesses_carried_out(old(self).accesses(), old(self).access_starts(), old(self).calls()),
            register.field().valid(),
        ensures
            accesses_carried_out(final(self).accesses(), final(self).access_starts(), final(self).calls()),
            old(self).calls().is_prefix_of(final(self).calls()),
            write_calls(calls_since(old(self).calls(), final(self).calls()), register.field(), value),
            r is Ok <==> write_ok(calls_since(old(self).calls(), final(self).calls()), register.field()),
            r is Ok <==> failure_count(final(self).calls()) == failure_count(old(self).calls()),
            failure_count(final(self).calls()) >= failure_count(old(self).calls()),
            match r {
                Ok(()) => final(self).accesses() == old(self).accesses().push(Access::Write(register.field(), value)),
                Err(e) => e == Error::CommunicationFailure && final(self).accesses() == old(self).accesses(),
            },
    {
        let ghost start = self.calls@;
        let address = register.address();
        let mask = register.mask();
        let offset = register.offset();
        if mask == u8::MAX {
            // Fast-path as we overwrite the entire register
            self.register(RW, address, value)?;
        } else {
            // Read-Modify-Write of the register value to apply a partial update
            let old_value = self.register(RO, address, 0x00);
            let ghost middle = self.calls@;
            proof {
                assert(calls_since(start, middle).take(cycle_len(calls_since(start, middle))) =~= calls_since(start, middle));
            }
            let old_value = old_value?;
            let new_value = (old_value & !mask) | (value << offset);
            let written = self.register(RW, address, new_value);
            proof {
                let all = calls_since(start, self.calls@);
                assert(all =~= calls_since(start, middle) + calls_since(middle, self.calls@));
                assert(all.take(3) =~= calls_since(start, middle));
                assert(all.skip(3) =~= calls_since(middle, self.calls@));
            }
            written?;
        }
        proof {
            if mask != u8::MAX {
                assert(calls_since(start, self.calls@).len() == 6);
            }
            lemma_carried_out_push(self.accesses@, self.starts@, start, self.calls@, Access::Write(register.field(), value));
            self.starts@ = self.starts@.push(start.len() as int);
            self.accesses@ = self.accesses@.push(Access::Write(register.field(), value));
        }
        Ok(())
    }

    /// Performs one RFM95 register transfer and returns the byte received alongside the payload
    ///
    /// The chip-select line is pulled low for the transfer and released afterwards, also when the transfer
    /// itself fails.
    fn register(&mut self, operation: u8, address: u8, payload: u8) -> (r: Result<u8, Error>)
        requires
            accesses_carried_out(old(self).accesses(), old(self).access_starts(), old(self).calls()),
        ensures
            final(self).access_starts() == old(self).access_starts(),
            accesses_carried_out(final(self).accesses(), final(self).access_starts(), final(self).calls()),
            final(self).accesses() == old(self).accesses(),
            old(self).calls().is_prefix_of(final(self).calls()),
            cycle(calls_since(old(self).calls(), final(self).calls()), command_byte(operation, address), payload),
            r is Ok <==> cycle_ok(calls_since(old(self).calls(), final(self).calls())),
            r is Ok <==> failure_count(final(self).calls()) == failure_count(old(self).calls()),
            failure_count(final(self).calls()) >= failure_count(old(self).calls()),
            match r {
                Ok(response) => response == cycle_response(calls_since(old(self).calls(), final(self).calls())),
                Err(e) => e == Error::CommunicationFailure,
            },
    {
        let ghost start = self.calls@;
        let command = operation | (address & 0b0111_1111);
        let selected = pin_set_low(&mut self.select);
        proof {
            lemma_failure_count_push(self.calls@, Call::SelectLow(selected is Ok));
            lemma_carried_out_extend(self.accesses@, self.starts@, self.calls@, self.calls@.push(Call::SelectLow(selected is Ok)));
            self.calls@ = self.calls@.push(Call::SelectLow(selected is Ok));
        }
        if selected.is_err() {
            assert(calls_since(start, self.calls@) =~= seq![Call::SelectLow(false)]);
            return Err(Error::CommunicationFailure);
        }
        let exchanged = spi_transfer(&mut self.bus, command, payload);
        let ghost exchange = Call::Exchange(command, payload, match exchanged {
            Ok(response) => Some(response),
            Err(_) => None,
        });
        proof {
            lemma_failure_count_push(self.calls@, exchange);
            lemma_carried_out_extend(self.accesses@, self.starts@, self.calls@, self.calls@.push(exchange));
            self.calls@ = self.calls@.push(exchange);
        }
        let released = pin_set_high(&mut self.select);
        proof {
            lemma_failure_count_push(self.calls@, Call::SelectHigh(released is Ok));
            lemma_carried_out_extend(self.accesses@, self.starts@, self.calls@, self.calls@.push(Call::SelectHigh(released is Ok)));
            self.calls@ = self.calls@.push(Call::SelectHigh(released is Ok));
            assert(calls_since(start, self.calls@) =~= seq![
                Call::SelectLow(true),
                Call::Exchange(command, payload, match exchanged {
                    Ok(response) => Some(response),
                    Err(_) => None,
                }),
                Call::SelectHigh(released is Ok),
            ]);
        }
        match exchanged {
            Ok(response) => {
                if released.is_err() {
                    return Err(Error::CommunicationFailure);
                }
                Ok(response)
            },
            Err(()) => Err(Error::CommunicationFailure),
        }
    }
}

} // verus!

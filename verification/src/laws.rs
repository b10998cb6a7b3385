//! What the driver's operations do to a simulated chip: the bytes that end
//! up in its registers, and where an operation stops when a transaction
//! fails.

use crate::access::{
    bit_update, bits_updated, decoded_read, read_sequence, register_read, register_update,
    register_write, registers_read, registers_written, update_sequence, write_sequence, BitUpdate,
    RegisterWrite,
};
use crate::bcd::{bcd_decode, bcd_encode, lemma_bcd_encode_ordered, lemma_bcd_round_trip};
use crate::bits::{bit_is_set, lemma_with_bit, with_bit};
use crate::calendar::{lemma_composed_of_fields, DateTimeView};
use crate::clock::{composed_of, datetime_registers, datetime_writes};
use crate::init::init_updates;
use crate::registers::{lemma_addresses_distinct, RegisterTable};
use crate::simulated::{lemma_register_count, BusError, RegisterFile};
use crate::weekday::weekday_encode;
use vstd::prelude::*;

verus! {

/// The registers after a run of writes: each write replaces one byte.
pub open spec fn written_over(registers: Seq<u8>, writes: Seq<RegisterWrite>) -> Seq<u8>
    decreases writes.len(),
{
    if writes.len() == 0 {
        registers
    } else {
        written_over(registers, writes.drop_last()).update(
            writes.last().register.spec_address() as int,
            writes.last().value,
        )
    }
}

/// The registers after a run of bit updates: each update replaces one bit
/// of the byte that the register held before it.
pub open spec fn updated_over(registers: Seq<u8>, updates: Seq<BitUpdate>) -> Seq<u8>
    decreases updates.len(),
{
    if updates.len() == 0 {
        registers
    } else {
        let earlier = updated_over(registers, updates.drop_last());
        let address = updates.last().register.spec_address() as int;
        earlier.update(address, with_bit(earlier[address], updates.last().bit, updates.last().data))
    }
}

/// The bytes that a run of reads finds in the registers.
pub open spec fn held_at(registers: Seq<u8>, read: Seq<RegisterTable>) -> Seq<u8> {
    Seq::new(read.len(), |i: int| registers[read[i].spec_address() as int])
}

/// A register read on a simulated chip hands back what the register holds
/// and changes no register, unless it is the transaction that fails.
pub proof fn lemma_simulated_read(
    pre: RegisterFile,
    register: RegisterTable,
    post: RegisterFile,
    outcome: Result<u8, BusError>,
)
    requires
        register_read(pre, register, post, outcome),
    ensures
        pre@.fails_next() ==> outcome == Err::<u8, BusError>(BusError::Injected) && post@
            == pre@.failed(),
        !pre@.fails_next() ==> outcome == Ok::<u8, BusError>(pre@.at(register)) && post@
            == pre@.ticked(),
{
    if let Ok(value) = outcome {
        assert(seq![value][0] == value);
    }
}

/// A register write on a simulated chip stores the byte in that register
/// and in no other, unless it is the transaction that fails.
pub proof fn lemma_simulated_write(
    pre: RegisterFile,
    register: RegisterTable,
    value: u8,
    post: RegisterFile,
    outcome: Result<(), BusError>,
)
    requires
        register_write(pre, register, value, post, outcome),
    ensures
        pre@.fails_next() ==> outcome == Err::<(), BusError>(BusError::Injected) && post@
            == pre@.failed(),
        !pre@.fails_next() ==> outcome is Ok && post@ == pre@.ticked().stored(
            register.spec_address(),
            value,
        ),
{
}

/// A read-modify-write on a simulated chip replaces the register's byte by
/// the changed byte and touches no other register. If the read is the
/// transaction that fails, or the write is, the registers stay as they
/// were.
pub proof fn lemma_simulated_update(
    pre: RegisterFile,
    register: RegisterTable,
    change: spec_fn(u8) -> u8,
    post: RegisterFile,
    outcome: Result<(), BusError>,
)
    requires
        register_update(pre, register, change, post, outcome),
    ensures
        pre@.fails_within(2) ==> outcome == Err::<(), BusError>(BusError::Injected) && post@
            == pre@.failed(),
        !pre@.fails_within(2) ==> outcome is Ok && post@ == pre@.ticked_by(2).stored(
            register.spec_address(),
            change(pre@.at(register)),
        ),
{
    let (mid, current) = choose|mid: RegisterFile, current: Result<u8, BusError>| #[trigger]
        register_read(pre, register, mid, current) && match current {
            Ok(value) => register_write(mid, register, change(value), post, outcome),
            Err(e) => post == mid && outcome == Err::<(), BusError>(e),
        };
    lemma_simulated_read(pre, register, mid, current);
    match current {
        Ok(value) => {
            lemma_simulated_write(mid, register, change(value), post, outcome);
        },
        Err(e) => {},
    }
}

/// A register of a simulated chip reads back the byte written to it, as
/// long as the transaction that fails is neither the write nor the read.
/// No other register changes.
pub proof fn lemma_write_then_read(
    pre: RegisterFile,
    register: RegisterTable,
    value: u8,
    mid: RegisterFile,
    written: Result<(), BusError>,
    post: RegisterFile,
    read: Result<u8, BusError>,
)
    requires
        !pre@.fails_within(2),
        register_write(pre, register, value, mid, written),
        register_read(mid, register, post, read),
    ensures
        written is Ok,
        read == Ok::<u8, BusError>(value),
        forall|other: RegisterTable|
            other != register ==> #[trigger] mid@.at(other) == pre@.at(other),
        post@.registers == mid@.registers,
{
    lemma_register_count(pre);
    lemma_simulated_write(pre, register, value, mid, written);
    lemma_simulated_read(mid, register, post, read);
    assert forall|other: RegisterTable| other != register implies #[trigger] mid@.at(other)
        == pre@.at(other) by {
        lemma_addresses_distinct(other, register);
    }
}

/// Setting a bit on a simulated chip and reading it back gives the value
/// set, as long as the transaction that fails is not among the three that
/// this takes. Every other bit of the register, and every other register,
/// is what it was before.
pub proof fn lemma_set_bit_then_read_bit(
    pre: RegisterFile,
    register: RegisterTable,
    bit: u8,
    data: bool,
    mid: RegisterFile,
    written: Result<(), BusError>,
    post: RegisterFile,
    read: Result<bool, BusError>,
)
    requires
        bit < 8,
        !pre@.fails_within(3),
        register_update(pre, register, |current: u8| with_bit(current, bit, data), mid, written),
        decoded_read(mid, register, |raw: u8| bit_is_set(raw, bit), post, read),
    ensures
        written is Ok,
        read == Ok::<bool, BusError>(data),
        forall|other: u8|
            other < 8 && other != bit ==> #[trigger] bit_is_set(mid@.at(register), other)
                == bit_is_set(pre@.at(register), other),
        forall|other: RegisterTable|
            other != register ==> #[trigger] mid@.at(other) == pre@.at(other),
        post@.registers == mid@.registers,
{
    lemma_register_count(pre);
    lemma_simulated_update(pre, register, |current: u8| with_bit(current, bit, data), mid, written);
    lemma_with_bit(pre@.at(register), bit, data);
    assert forall|other: RegisterTable| other != register implies #[trigger] mid@.at(other)
        == pre@.at(other) by {
        lemma_addresses_distinct(other, register);
    }
    match read {
        Ok(value) => {
            let raw = choose|raw: u8| #[trigger]
                register_read(mid, register, post, Ok(raw)) && value == bit_is_set(raw, bit);
            lemma_simulated_read(mid, register, post, Ok(raw));
        },
        Err(e) => {
            lemma_simulated_read(mid, register, post, Err(e));
        },
    }
}

/// A run of successful reads on a simulated chip finds what the registers
/// hold, changes no register, and is not reached by the transaction that
/// fails.
pub proof fn lemma_simulated_reads(
    pre: RegisterFile,
    registers: Seq<RegisterTable>,
    values: Seq<u8>,
    post: RegisterFile,
)
    requires
        registers_read(pre, registers, values, post),
    ensures
        !pre@.fails_within(registers.len()),
        values == held_at(pre@.registers, registers),
        post@ == pre@.ticked_by(registers.len()),
    decreases registers.len(),
{
    if registers.len() > 0 {
        let mid = choose|mid: RegisterFile|
            registers_read(pre, registers.drop_last(), values.drop_last(), mid) && #[trigger]
            register_read(mid, registers.last(), post, Ok(values.last()));
        lemma_simulated_reads(pre, registers.drop_last(), values.drop_last(), mid);
        lemma_simulated_read(mid, registers.last(), post, Ok(values.last()));
        assert(values =~= held_at(pre@.registers, registers)) by {
            assert forall|i: int| 0 <= i < values.len() implies values[i] == held_at(
                pre@.registers,
                registers,
            )[i] by {
                if i < values.len() - 1 {
                    assert(values[i] == values.drop_last()[i]);
                }
            }
        }
    }
}

/// A sequence of reads on a simulated chip succeeds exactly if the
/// transaction that fails is not among its reads. It changes no register
/// either way.
pub proof fn lemma_simulated_read_sequence(
    pre: RegisterFile,
    registers: Seq<RegisterTable>,
    post: RegisterFile,
    outcome: Result<Seq<u8>, BusError>,
)
    requires
        read_sequence(pre, registers, post, outcome),
    ensures
        pre@.fails_within(registers.len()) ==> outcome == Err::<Seq<u8>, BusError>(
            BusError::Injected,
        ) && post@ == pre@.failed(),
        !pre@.fails_within(registers.len()) ==> outcome == Ok::<Seq<u8>, BusError>(
            held_at(pre@.registers, registers),
        ) && post@ == pre@.ticked_by(registers.len()),
{
    match outcome {
        Ok(values) => {
            lemma_simulated_reads(pre, registers, values, post);
        },
        Err(e) => {
            let (done, values, mid) = choose|done: int, values: Seq<u8>, mid: RegisterFile|
                0 <= done < registers.len() && #[trigger] registers_read(
                    pre,
                    registers.take(done),
                    values,
                    mid,
                ) && register_read(mid, registers[done], post, Err(e));
            lemma_simulated_reads(pre, registers.take(done), values, mid);
            lemma_simulated_read(mid, registers[done], post, Err(e));
        },
    }
}

/// A run of successful writes on a simulated chip leaves every byte
/// written in its register and is not reached by the transaction that
/// fails.
pub proof fn lemma_simulated_writes(pre: RegisterFile, writes: Seq<RegisterWrite>, post: RegisterFile)
    requires
        registers_written(pre, writes, post),
    ensures
        !pre@.fails_within(writes.len()),
        post@ == pre@.ticked_by(writes.len()).holding(written_over(pre@.registers, writes)),
    decreases writes.len(),
{
    if writes.len() > 0 {
        let mid = choose|mid: RegisterFile|
            registers_written(pre, writes.drop_last(), mid) && #[trigger] register_write(
                mid,
                writes.last().register,
                writes.last().value,
                post,
                Ok(()),
            );
        lemma_simulated_writes(pre, writes.drop_last(), mid);
        lemma_simulated_write(mid, writes.last().register, writes.last().value, post, Ok(()));
    }
}

/// A sequence of writes on a simulated chip stops at the transaction that
/// fails, if that is one of its writes: the bytes written before it are in
/// their registers, and nothing is undone. Otherwise every write is made.
pub proof fn lemma_simulated_write_sequence(
    pre: RegisterFile,
    writes: Seq<RegisterWrite>,
    post: RegisterFile,
    outcome: Result<(), BusError>,
)
    requires
        write_sequence(pre, writes, post, outcome),
    ensures
        pre@.fails_within(writes.len()) ==> outcome == Err::<(), BusError>(BusError::Injected)
            && post@ == pre@.failed().holding(
            written_over(pre@.registers, writes.take(pre@.countdown->Some_0 as int)),
        ),
        !pre@.fails_within(writes.len()) ==> outcome is Ok && post@ == pre@.ticked_by(
            writes.len(),
        ).holding(written_over(pre@.registers, writes)),
{
    match outcome {
        Ok(_) => {
            lemma_simulated_writes(pre, writes, post);
        },
        Err(e) => {
            let (done, mid) = choose|done: int, mid: RegisterFile|
                0 <= done < writes.len() && #[trigger] registers_written(
                    pre,
                    writes.take(done),
                    mid,
                ) && register_write(mid, writes[done].register, writes[done].value, post, Err(e));
            lemma_simulated_writes(pre, writes.take(done), mid);
            lemma_simulated_write(mid, writes[done].register, writes[done].value, post, Err(e));
        },
    }
}

/// A run of successful bit updates on a simulated chip leaves every bit as
/// updated and is not reached by the transaction that fails.
pub proof fn lemma_simulated_updates(pre: RegisterFile, updates: Seq<BitUpdate>, post: RegisterFile)
    requires
        bits_updated(pre, updates, post),
    ensures
        !pre@.fails_within(2 * updates.len()),
        post@ == pre@.ticked_by(2 * updates.len()).holding(updated_over(pre@.registers, updates)),
    decreases updates.len(),
{
    if updates.len() > 0 {
        let mid = choose|mid: RegisterFile|
            bits_updated(pre, updates.drop_last(), mid) && #[trigger] bit_update(
                mid,
                updates.last(),
                post,
                Ok(()),
            );
        lemma_simulated_updates(pre, updates.drop_last(), mid);
        let last = updates.last();
        lemma_simulated_update(
            mid,
            last.register,
            |current: u8| with_bit(current, last.bit, last.data),
            post,
            Ok(()),
        );
    }
}

/// A sequence of bit updates on a simulated chip stops at the update whose
/// read or write is the transaction that fails: the updates made before it
/// stand, and the failing one changes nothing. Otherwise every update is
/// made.
pub proof fn lemma_simulated_update_sequence(
    pre: RegisterFile,
    updates: Seq<BitUpdate>,
    post: RegisterFile,
    outcome: Result<(), BusError>,
)
    requires
        update_sequence(pre, updates, post, outcome),
    ensures
        pre@.fails_within(2 * updates.len()) ==> outcome == Err::<(), BusError>(
            BusError::Injected,
        ) && post@ == pre@.failed().holding(
            updated_over(pre@.registers, updates.take(pre@.countdown->Some_0 as int / 2)),
        ),
        !pre@.fails_within(2 * updates.len()) ==> outcome is Ok && post@ == pre@.ticked_by(
            2 * updates.len(),
        ).holding(updated_over(pre@.registers, updates)),
{
    match outcome {
        Ok(_) => {
            lemma_simulated_updates(pre, updates, post);
        },
        Err(e) => {
            let (done, mid) = choose|done: int, mid: RegisterFile|
                0 <= done < updates.len() && #[trigger] bits_updated(pre, updates.take(done), mid)
                    && bit_update(mid, updates[done], post, Err(e));
            lemma_simulated_updates(pre, updates.take(done), mid);
            let failing = updates[done];
            lemma_simulated_update(
                mid,
                failing.register,
                |current: u8| with_bit(current, failing.bit, failing.data),
                post,
                Err(e),
            );
        },
    }
}

/// A run of writes changes no register count.
pub proof fn lemma_written_over_len(registers: Seq<u8>, writes: Seq<RegisterWrite>)
    requires
        registers.len() == 32,
    ensures
        written_over(registers, writes).len() == 32,
    decreases writes.len(),
{
    if writes.len() > 0 {
        lemma_written_over_len(registers, writes.drop_last());
    }
}

/// Whether no two writes of a run name the same register.
pub open spec fn distinct_registers(writes: Seq<RegisterWrite>) -> bool {
    forall|i: int, j: int|
        0 <= i < j < writes.len() ==> (#[trigger] writes[i]).register != (#[trigger] writes[j]).register
}

/// After a run of writes to distinct registers each of them holds the byte
/// written to it.
pub proof fn lemma_written_over_at(registers: Seq<u8>, writes: Seq<RegisterWrite>, index: int)
    requires
        registers.len() == 32,
        distinct_registers(writes),
        0 <= index < writes.len(),
    ensures
        written_over(registers, writes)[writes[index].register.spec_address() as int]
            == writes[index].value,
    decreases writes.len(),
{
    let earlier = writes.drop_last();
    lemma_written_over_len(registers, earlier);
    if index < writes.len() - 1 {
        assert(distinct_registers(earlier)) by {
            assert forall|i: int, j: int| 0 <= i < j < earlier.len() implies (#[trigger] earlier[i]).register
                != (#[trigger] earlier[j]).register by {
            }
        }
        lemma_written_over_at(registers, earlier, index);
        lemma_addresses_distinct(writes.last().register, writes[index].register);
    }
}

/// After a run of writes a register that none of them names holds what it
/// held before.
pub proof fn lemma_written_over_elsewhere(
    registers: Seq<u8>,
    writes: Seq<RegisterWrite>,
    register: RegisterTable,
)
    requires
        registers.len() == 32,
        forall|index: int|
            0 <= index < writes.len() ==> (#[trigger] writes[index]).register != register,
    ensures
        written_over(registers, writes)[register.spec_address() as int]
            == registers[register.spec_address() as int],
    decreases writes.len(),
{
    if writes.len() > 0 {
        let earlier = writes.drop_last();
        lemma_written_over_len(registers, earlier);
        assert forall|index: int| 0 <= index < earlier.len() implies (#[trigger] earlier[index]).register
            != register by {
        }
        lemma_written_over_elsewhere(registers, earlier, register);
        lemma_addresses_distinct(writes.last().register, register);
    }
}

/// The writes that store a date and time name seven different registers.
pub proof fn lemma_datetime_writes_distinct(data: DateTimeView)
    ensures
        distinct_registers(datetime_writes(data)),
{
}

/// The bytes that the date and time registers hold once a date and time
/// has been stored over any registers.
pub proof fn lemma_datetime_stored(registers: Seq<u8>, data: DateTimeView)
    requires
        registers.len() == 32,
    ensures
        held_at(written_over(registers, datetime_writes(data)), datetime_registers()) == seq![
            bcd_encode(data.second as u8),
            bcd_encode(data.minute as u8),
            bcd_encode(data.hour as u8),
            bcd_encode(data.day as u8),
            bcd_encode(data.month as u8),
            bcd_encode((data.year % 100) as u8),
        ],
        written_over(registers, datetime_writes(data))[RegisterTable::CompatibleWEEK.spec_address() as int]
            == weekday_encode(data.weekday),
{
    let writes = datetime_writes(data);
    lemma_datetime_writes_distinct(data);
    lemma_written_over_at(registers, writes, 0);
    lemma_written_over_at(registers, writes, 1);
    lemma_written_over_at(registers, writes, 2);
    lemma_written_over_at(registers, writes, 3);
    lemma_written_over_at(registers, writes, 4);
    lemma_written_over_at(registers, writes, 5);
    lemma_written_over_at(registers, writes, 6);
}

/// A number within a field's range, written through the field's setter,
/// is read back by the field's getter: its BCD byte keeps all its bits
/// under the field's mask.
pub proof fn lemma_field_decodes(value: u8, limit: u8, mask: u8)
    requires
        value <= limit <= 99,
        bcd_encode(limit) <= mask,
        mask == 0b00011111 || mask == 0b00111111 || mask == 0b01111111,
    ensures
        bcd_encode(value & mask) == bcd_encode(value),
        bcd_decode(bcd_encode(value) & mask) == value,
{
    let byte = bcd_encode(value);
    lemma_bcd_encode_ordered(value, limit);
    lemma_bcd_round_trip(value);
    assert(byte & mask == byte && value & mask == value) by (bit_vector)
        requires
            byte <= mask,
            value <= byte,
            mask == 0b00011111 || mask == 0b00111111 || mask == 0b01111111,
    ;
}

/// The bytes of a stored date and time are read as the fields that were
/// stored, the year as its last two digits.
pub proof fn lemma_datetime_fields_decode(data: DateTimeView)
    requires
        data.is_valid(),
    ensures
        bcd_decode(bcd_encode(data.second as u8)) == data.second,
        bcd_decode(bcd_encode(data.minute as u8)) == data.minute,
        bcd_decode(bcd_encode(data.hour as u8)) == data.hour,
        bcd_decode(bcd_encode(data.day as u8)) == data.day,
        bcd_decode(bcd_encode(data.month as u8)) == data.month,
        bcd_decode(bcd_encode((data.year % 100) as u8)) == data.year % 100,
{
    lemma_bcd_round_trip(data.second as u8);
    lemma_bcd_round_trip(data.minute as u8);
    lemma_bcd_round_trip(data.hour as u8);
    lemma_bcd_round_trip(data.day as u8);
    lemma_bcd_round_trip(data.month as u8);
    lemma_bcd_round_trip((data.year % 100) as u8);
}

/// The bytes of a stored date and time of the years 2000 to 2099 are read
/// as that date and time.
pub proof fn lemma_datetime_decodes(data: DateTimeView)
    requires
        data.is_valid(),
        2000 <= data.year <= 2099,
    ensures
        composed_of(
            seq![
                bcd_encode(data.second as u8),
                bcd_encode(data.minute as u8),
                bcd_encode(data.hour as u8),
                bcd_encode(data.day as u8),
                bcd_encode(data.month as u8),
                bcd_encode((data.year % 100) as u8),
            ],
        ) == Some(data),
{
    lemma_datetime_fields_decode(data);
    lemma_composed_of_fields(data);
}

/// Storing a date and time of the years 2000 to 2099 on a simulated chip
/// and reading the date and time back gives what was stored, as long as
/// the transaction that fails is not among the thirteen that this takes.
/// The weekday register then holds the byte of the date's weekday.
pub proof fn lemma_datetime_round_trip(
    pre: RegisterFile,
    data: DateTimeView,
    mid: RegisterFile,
    written: Result<(), BusError>,
    post: RegisterFile,
    read: Result<Seq<u8>, BusError>,
)
    requires
        data.is_valid(),
        2000 <= data.year <= 2099,
        !pre@.fails_within(13),
        write_sequence(pre, datetime_writes(data), mid, written),
        read_sequence(mid, datetime_registers(), post, read),
    ensures
        written is Ok,
        read matches Ok(raw) && composed_of(raw) == Some(data),
        mid@.at(RegisterTable::CompatibleWEEK) == weekday_encode(data.weekday),
{
    lemma_register_count(pre);
    lemma_simulated_write_sequence(pre, datetime_writes(data), mid, written);
    lemma_simulated_read_sequence(mid, datetime_registers(), post, read);
    lemma_datetime_stored(pre@.registers, data);
    lemma_datetime_decodes(data);
}

/// The registers after the power-on configuration: in the extension
/// register the test bit, the timer enable bit and both output frequency
/// selection bits are clear; in the flag register the two voltage flags
/// are clear; in the control register the three interrupt enable bits are
/// clear; in the backup function register the voltage detector off bit is
/// clear and the switch off bit is set. Every other bit is as it was.
pub open spec fn configured(registers: Seq<u8>) -> Seq<u8> {
    let extension = RegisterTable::CompatibleExtensionRegister.spec_address() as int;
    let flag = RegisterTable::CompatibleFlagRegister.spec_address() as int;
    let control = RegisterTable::CompatibleControlRegister.spec_address() as int;
    let backup = RegisterTable::ExtendedBackupFunction.spec_address() as int;
    registers.update(extension, registers[extension] & 0b01100011).update(
        flag,
        registers[flag] & 0b11111100,
    ).update(control, registers[control] & 0b11000111).update(
        backup,
        (registers[backup] & 0b11110111) | 0b00000100,
    )
}

/// The bit updates of the power-on configuration, applied to registers,
/// give the configured registers.
pub proof fn lemma_init_updates_configure(registers: Seq<u8>)
    requires
        registers.len() == 32,
    ensures
        updated_over(registers, init_updates()) == configured(registers),
{
    let updates = init_updates();
    let e = registers[RegisterTable::CompatibleExtensionRegister.spec_address() as int];
    let f = registers[RegisterTable::CompatibleFlagRegister.spec_address() as int];
    let c = registers[RegisterTable::CompatibleControlRegister.spec_address() as int];
    let b = registers[RegisterTable::ExtendedBackupFunction.spec_address() as int];
    lemma_updated_over_step(registers, updates, 0);
    lemma_updated_over_step(registers, updates, 1);
    lemma_updated_over_step(registers, updates, 2);
    lemma_updated_over_step(registers, updates, 3);
    lemma_updated_over_step(registers, updates, 4);
    lemma_updated_over_step(registers, updates, 5);
    lemma_updated_over_step(registers, updates, 6);
    lemma_updated_over_step(registers, updates, 7);
    lemma_updated_over_step(registers, updates, 8);
    lemma_updated_over_step(registers, updates, 9);
    lemma_updated_over_step(registers, updates, 10);
    assert(with_bit(with_bit(with_bit(with_bit(e, 4, false), 2, false), 3, false), 7, false) == e
        & 0b01100011 && with_bit(with_bit(f, 0, false), 1, false) == f & 0b11111100 && with_bit(
        with_bit(with_bit(c, 3, false), 4, false),
        5,
        false,
    ) == c & 0b11000111 && with_bit(with_bit(b, 3, false), 2, true) == (b & 0b11110111)
        | 0b00000100) by (bit_vector);
}

/// One more bit update of a run changes one bit of the register that it
/// names.
pub proof fn lemma_updated_over_step(registers: Seq<u8>, updates: Seq<BitUpdate>, done: int)
    requires
        registers.len() == 32,
        0 <= done < updates.len(),
    ensures
        updated_over(registers, updates.take(done)).len() == 32,
        updated_over(registers, updates.take(done + 1)) == ({
            let earlier = updated_over(registers, updates.take(done));
            let address = updates[done].register.spec_address() as int;
            earlier.update(address, with_bit(earlier[address], updates[done].bit, updates[done].data))
        }),
{
    lemma_updated_over_len(registers, updates.take(done));
    assert(updates.take(done + 1).drop_last() =~= updates.take(done));
}

/// A run of bit updates changes no register count.
pub proof fn lemma_updated_over_len(registers: Seq<u8>, updates: Seq<BitUpdate>)
    requires
        registers.len() == 32,
    ensures
        updated_over(registers, updates).len() == 32,
    decreases updates.len(),
{
    if updates.len() > 0 {
        lemma_updated_over_len(registers, updates.drop_last());
    }
}

/// The power-on configuration on a simulated chip leaves the configured
/// registers, as long as the transaction that fails is not among the
/// twenty-two that it takes.
pub proof fn lemma_init_configures(
    pre: RegisterFile,
    post: RegisterFile,
    outcome: Result<(), BusError>,
)
    requires
        !pre@.fails_within(22),
        update_sequence(pre, init_updates(), post, outcome),
    ensures
        outcome is Ok,
        post@.registers == configured(pre@.registers),
{
    lemma_register_count(pre);
    lemma_simulated_update_sequence(pre, init_updates(), post, outcome);
    lemma_init_updates_configure(pre@.registers);
}

} // verus!

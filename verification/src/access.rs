//! What the driver's bus traffic means: single register reads and writes,
//! read-modify-write updates, and runs of them that stop at the first
//! failure. Everything here relates the transport before an operation to the
//! transport after it, through the transport's own account of its
//! transactions.

use crate::bits::with_bit;
use crate::registers::{RegisterTable, RX8900_ADDR};
use crate::transport::Transport;
use vstd::prelude::*;

verus! {

/// One register read: a single transaction that writes the register's
/// address to the chip and reads one byte back. The outcome is the byte, or
/// the transport's failure as it was reported.
pub open spec fn register_read<B: Transport>(
    pre: B,
    register: RegisterTable,
    post: B,
    outcome: Result<u8, B::Error>,
) -> bool {
    B::write_read_spec(
        pre,
        RX8900_ADDR,
        seq![register.spec_address()],
        1,
        post,
        match outcome {
            Ok(value) => Ok(seq![value]),
            Err(e) => Err(e),
        },
    )
}

/// One register write: a single transaction that carries the register's
/// address followed by the byte.
pub open spec fn register_write<B: Transport>(
    pre: B,
    register: RegisterTable,
    value: u8,
    post: B,
    outcome: Result<(), B::Error>,
) -> bool {
    B::write_spec(pre, RX8900_ADDR, seq![register.spec_address(), value], post, outcome)
}

/// One register read whose byte is handed on through `decode`. A failure is
/// handed on as it is.
pub open spec fn decoded_read<B: Transport, T>(
    pre: B,
    register: RegisterTable,
    decode: spec_fn(u8) -> T,
    post: B,
    outcome: Result<T, B::Error>,
) -> bool {
    match outcome {
        Ok(value) => exists|raw: u8| #[trigger]
            register_read(pre, register, post, Ok(raw)) && value == decode(raw),
        Err(e) => register_read(pre, register, post, Err(e)),
    }
}

/// A read-modify-write of one register: the register is read, and if that
/// succeeds, `change` of the byte read is written back. If the read fails
/// nothing is written and the read's failure is the outcome; otherwise the
/// outcome is that of the write.
pub open spec fn register_update<B: Transport>(
    pre: B,
    register: RegisterTable,
    change: spec_fn(u8) -> u8,
    post: B,
    outcome: Result<(), B::Error>,
) -> bool {
    exists|mid: B, current: Result<u8, B::Error>| #[trigger]
        register_read(pre, register, mid, current) && match current {
            Ok(value) => register_write(mid, register, change(value), post, outcome),
            Err(e) => post == mid && outcome == Err::<(), B::Error>(e),
        }
}

/// A register and the byte to store in it.
pub struct RegisterWrite {
    pub register: RegisterTable,
    pub value: u8,
}

/// A register, one of its bits, and the value to give that bit.
pub struct BitUpdate {
    pub register: RegisterTable,
    pub bit: u8,
    pub data: bool,
}

/// The read-modify-write that carries out one bit update.
pub open spec fn bit_update<B: Transport>(
    pre: B,
    update: BitUpdate,
    post: B,
    outcome: Result<(), B::Error>,
) -> bool {
    register_update(
        pre,
        update.register,
        |current: u8| with_bit(current, update.bit, update.data),
        post,
        outcome,
    )
}

/// The registers were read one after the other, first to last, every read
/// succeeded, and `values` holds the bytes in the order read.
pub open spec fn registers_read<B: Transport>(
    pre: B,
    registers: Seq<RegisterTable>,
    values: Seq<u8>,
    post: B,
) -> bool
    decreases registers.len(),
{
    if registers.len() == 0 {
        values.len() == 0 && post == pre
    } else {
        values.len() == registers.len() && exists|mid: B|
            registers_read(pre, registers.drop_last(), values.drop_last(), mid) && #[trigger]
            register_read(mid, registers.last(), post, Ok(values.last()))
    }
}

/// The registers were read one after the other until a read failed or all
/// were read. On failure the registers after the failing one were not
/// touched.
pub open spec fn read_sequence<B: Transport>(
    pre: B,
    registers: Seq<RegisterTable>,
    post: B,
    outcome: Result<Seq<u8>, B::Error>,
) -> bool {
    match outcome {
        Ok(values) => registers_read(pre, registers, values, post),
        Err(e) => exists|done: int, values: Seq<u8>, mid: B|
            0 <= done < registers.len() && #[trigger] registers_read(
                pre,
                registers.take(done),
                values,
                mid,
            ) && register_read(mid, registers[done], post, Err(e)),
    }
}

/// The writes were carried out one after the other, first to last, and every
/// one succeeded.
pub open spec fn registers_written<B: Transport>(pre: B, writes: Seq<RegisterWrite>, post: B) -> bool
    decreases writes.len(),
{
    if writes.len() == 0 {
        post == pre
    } else {
        exists|mid: B|
            registers_written(pre, writes.drop_last(), mid) && #[trigger] register_write(
                mid,
                writes.last().register,
                writes.last().value,
                post,
                Ok(()),
            )
    }
}

/// The writes were carried out one after the other until one failed or all
/// were done. On failure the earlier writes stand and the later ones were
/// not attempted.
pub open spec fn write_sequence<B: Transport>(
    pre: B,
    writes: Seq<RegisterWrite>,
    post: B,
    outcome: Result<(), B::Error>,
) -> bool {
    match outcome {
        Ok(_) => registers_written(pre, writes, post),
        Err(e) => exists|done: int, mid: B|
            0 <= done < writes.len() && #[trigger] registers_written(pre, writes.take(done), mid)
                && register_write(mid, writes[done].register, writes[done].value, post, Err(e)),
    }
}

/// The bit updates were carried out one after the other, first to last, and
/// every one succeeded.
pub open spec fn bits_updated<B: Transport>(pre: B, updates: Seq<BitUpdate>, post: B) -> bool
    decreases updates.len(),
{
    if updates.len() == 0 {
        post == pre
    } else {
        exists|mid: B|
            bits_updated(pre, updates.drop_last(), mid) && #[trigger] bit_update(
                mid,
                updates.last(),
                post,
                Ok(()),
            )
    }
}

/// The bit updates were carried out one after the other until one failed or
/// all were done. On failure the earlier updates stand and the later ones
/// were not attempted.
pub open spec fn update_sequence<B: Transport>(
    pre: B,
    updates: Seq<BitUpdate>,
    post: B,
    outcome: Result<(), B::Error>,
) -> bool {
    match outcome {
        Ok(_) => bits_updated(pre, updates, post),
        Err(e) => exists|done: int, mid: B|
            0 <= done < updates.len() && #[trigger] bits_updated(pre, updates.take(done), mid)
                && bit_update(mid, updates[done], post, Err(e)),
    }
}

/// One more successful read extends a run of reads.
pub proof fn lemma_registers_read_push<B: Transport>(
    pre: B,
    registers: Seq<RegisterTable>,
    values: Seq<u8>,
    mid: B,
    register: RegisterTable,
    value: u8,
    post: B,
)
    requires
        registers_read(pre, registers, values, mid),
        register_read(mid, register, post, Ok(value)),
    ensures
        registers_read(pre, registers.push(register), values.push(value), post),
{
    let longer = registers.push(register);
    let read = values.push(value);
    assert(values.len() == registers.len()) by {
        if registers.len() == 0 {
        }
    }
    assert(longer.drop_last() =~= registers);
    assert(read.drop_last() =~= values);
    assert(register_read(mid, longer.last(), post, Ok(read.last())));
}

/// One more successful write extends a run of writes.
pub proof fn lemma_registers_written_push<B: Transport>(
    pre: B,
    writes: Seq<RegisterWrite>,
    mid: B,
    write: RegisterWrite,
    post: B,
)
    requires
        registers_written(pre, writes, mid),
        register_write(mid, write.register, write.value, post, Ok(())),
    ensures
        registers_written(pre, writes.push(write), post),
{
    let longer = writes.push(write);
    assert(longer.drop_last() =~= writes);
}

/// One more successful bit update extends a run of bit updates.
pub proof fn lemma_bits_updated_push<B: Transport>(
    pre: B,
    updates: Seq<BitUpdate>,
    mid: B,
    update: BitUpdate,
    post: B,
)
    requires
        bits_updated(pre, updates, mid),
        bit_update(mid, update, post, Ok(())),
    ensures
        bits_updated(pre, updates.push(update), post),
{
    let longer = updates.push(update);
    assert(longer.drop_last() =~= updates);
    assert(longer.last() == update);
}

/// The next read of a run either extends the run or ends the whole
/// sequence with its failure. The byte read is handed back.
pub proof fn lemma_read_sequence_step<B: Transport, T>(
    pre: B,
    registers: Seq<RegisterTable>,
    done: int,
    values: Seq<u8>,
    mid: B,
    decode: spec_fn(u8) -> T,
    post: B,
    outcome: Result<T, B::Error>,
) -> (raw: u8)
    requires
        0 <= done < registers.len(),
        registers_read(pre, registers.take(done), values, mid),
        decoded_read(mid, registers[done], decode, post, outcome),
    ensures
        outcome matches Ok(value) ==> value == decode(raw) && registers_read(
            pre,
            registers.take(done + 1),
            values.push(raw),
            post,
        ),
        outcome matches Err(e) ==> read_sequence(pre, registers, post, Err(e)),
{
    match outcome {
        Ok(value) => {
            let raw = choose|raw: u8| #[trigger]
                register_read(mid, registers[done], post, Ok(raw)) && value == decode(raw);
            lemma_registers_read_push(pre, registers.take(done), values, mid, registers[done], raw, post);
            assert(registers.take(done).push(registers[done]) =~= registers.take(done + 1));
            raw
        },
        Err(e) => 0,
    }
}

/// A run of reads that covers the whole sequence is the sequence's success.
pub proof fn lemma_read_sequence_done<B: Transport>(
    pre: B,
    registers: Seq<RegisterTable>,
    values: Seq<u8>,
    post: B,
)
    requires
        registers_read(pre, registers.take(registers.len() as int), values, post),
    ensures
        read_sequence(pre, registers, post, Ok(values)),
{
    assert(registers.take(registers.len() as int) =~= registers);
}

/// The next write of a run either extends the run or ends the whole
/// sequence with its failure.
pub proof fn lemma_write_sequence_step<B: Transport>(
    pre: B,
    writes: Seq<RegisterWrite>,
    done: int,
    mid: B,
    post: B,
    outcome: Result<(), B::Error>,
)
    requires
        0 <= done < writes.len(),
        registers_written(pre, writes.take(done), mid),
        register_write(mid, writes[done].register, writes[done].value, post, outcome),
    ensures
        outcome is Ok ==> registers_written(pre, writes.take(done + 1), post),
        outcome matches Err(e) ==> write_sequence(pre, writes, post, Err(e)),
        outcome is Ok && done + 1 == writes.len() ==> write_sequence(pre, writes, post, Ok(())),
{
    if outcome is Ok {
        assert(outcome->Ok_0 == ());
        lemma_registers_written_push(pre, writes.take(done), mid, writes[done], post);
        assert(writes.take(done).push(writes[done]) =~= writes.take(done + 1));
        if done + 1 == writes.len() {
        }
    }
}

/// The next bit update of a run either extends the run or ends the whole
/// sequence with its failure.
pub proof fn lemma_update_sequence_step<B: Transport>(
    pre: B,
    updates: Seq<BitUpdate>,
    done: int,
    mid: B,
    post: B,
    outcome: Result<(), B::Error>,
)
    requires
        0 <= done < updates.len(),
        bits_updated(pre, updates.take(done), mid),
        bit_update(mid, updates[done], post, outcome),
    ensures
        outcome is Ok ==> bits_updated(pre, updates.take(done + 1), post),
        outcome matches Err(e) ==> update_sequence(pre, updates, post, Err(e)),
        outcome is Ok && done + 1 == updates.len() ==> update_sequence(pre, updates, post, Ok(())),
{
    if outcome is Ok {
        assert(outcome->Ok_0 == ());
        lemma_bits_updated_push(pre, updates.take(done), mid, updates[done], post);
        assert(updates.take(done).push(updates[done]) =~= updates.take(done + 1));
        if done + 1 == updates.len() {
            assert(updates.take(done + 1) =~= updates);
        }
    }
}

} // verus!

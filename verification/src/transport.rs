//! The two-wire bus as the driver sees it: two blocking transactions to a
//! peripheral address, each of which may fail.

use vstd::prelude::*;

verus! {

/// A bus over which the clock chip can be reached.
///
/// A transport may say what its transactions do by giving `write_spec` and
/// `write_read_spec` a body of its own. One that keeps the defaults promises
/// nothing: every outcome is then possible, and what the driver states of
/// its own calls still holds.
pub trait Transport: Sized {
    /// What a failed transaction reports.
    type Error;

    /// Whether writing `bytes` to the peripheral at `address` can take the
    /// transport from `pre` to `post` with the given outcome.
    open spec fn write_spec(
        pre: Self,
        address: u8,
        bytes: Seq<u8>,
        post: Self,
        outcome: Result<(), Self::Error>,
    ) -> bool {
        true
    }

    /// Whether writing `bytes` to the peripheral at `address` and then
    /// reading `length` bytes from it, in one transaction, can take the
    /// transport from `pre` to `post` with the given outcome: the bytes
    /// received, or the failure.
    open spec fn write_read_spec(
        pre: Self,
        address: u8,
        bytes: Seq<u8>,
        length: nat,
        post: Self,
        outcome: Result<Seq<u8>, Self::Error>,
    ) -> bool {
        true
    }

    /// Writes `bytes` to the peripheral at `address`.
    fn write(&mut self, address: u8, bytes: &[u8]) -> (outcome: Result<(), Self::Error>)
        ensures
            Self::write_spec(*old(self), address, bytes@, *final(self), outcome),
    ;

    /// Writes `bytes` to the peripheral at `address`, then reads as many
    /// bytes as `buffer` holds, in one transaction. What `buffer` holds
    /// after a failure is not specified.
    fn write_read(&mut self, address: u8, bytes: &[u8], buffer: &mut [u8]) -> (outcome: Result<
        (),
        Self::Error,
    >)
        ensures
            final(buffer)@.len() == old(buffer)@.len(),
            Self::write_read_spec(
                *old(self),
                address,
                bytes@,
                old(buffer)@.len(),
                *final(self),
                match outcome {
                    Ok(_) => Ok(final(buffer)@),
                    Err(e) => Err(e),
                },
            ),
    ;
}

} // verus!

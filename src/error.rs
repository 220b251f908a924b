use vstd::prelude::*;

verus! {

/// Why an invocation was refused.
#[derive(Debug, Clone, Copy, PartialEq, Eq, Structural)]
pub enum MovieRevieError {
    /// The rating lies outside 1 to 5.
    InvalidRating,
    /// The record would not fit in its slot.
    InvalidDataLength,
    /// A supplied slot is not at the address derived from its seeds.
    InvalidPDA,
    /// The payload, or the bytes of a record, do not decode.
    DecodeError,
    /// The acting identity did not sign.
    MissingSignature,
    /// The record slot belongs to another program.
    IllegalOwner,
    /// The record already exists.
    AlreadyInitialized,
    /// The record has not been created yet.
    UninitializedAccount,
    /// The comment counter is at the largest value it can hold.
    CounterOverflow,
    /// Fewer slots were supplied than the operation reads.
    NotEnoughAccountKeys,
}

} // verus!

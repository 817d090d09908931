use vstd::prelude::*;

verus! {

/// The error kinds surfaced by the voting core and its storage collaborator.
///
/// `AlreadyExists` and `Unauthorized` are raised only by the hosting
/// collaborator (record creation and signature checking happen at its edge);
/// the core itself raises `CapacityExceeded` and `NotFound`.
#[derive(Clone, Copy, Debug, PartialEq, Eq, Structural)]
pub enum VoteError {
    /// A record already occupies the derived address.
    AlreadyExists,
    /// The record would exceed its fixed storage budget.
    CapacityExceeded,
    /// A referenced record or registry entry does not exist.
    NotFound,
    /// The calling actor's identity fails authentication.
    Unauthorized,
}

} // verus!

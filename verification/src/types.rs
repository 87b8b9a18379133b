use vstd::prelude::*;

verus! {

/// A kitty: sixteen bytes of DNA.
#[derive(Clone, Copy, Debug, PartialEq, Eq)]
pub struct Kitty(pub [u8; 16]);

/// Who dispatched a call: the root, a signed account, or nobody.
#[derive(Clone, Copy, Debug, PartialEq, Eq, Structural)]
pub enum Origin {
    Root,
    Signed(u64),
    Unsigned,
}

/// The pallet's own errors.
#[derive(Clone, Copy, Debug, PartialEq, Eq, Structural)]
pub enum Error {
    /// The kitty counter has reached the largest index.
    KittiesCountOverflow,
    /// No kitty is stored under the given index.
    InvalidKittyId,
    /// Both parents given to `breed` are the same kitty.
    RequireDifferentParent,
}

/// Why a dispatched call failed.
#[derive(Clone, Copy, Debug, PartialEq, Eq, Structural)]
pub enum DispatchError {
    /// The call needs a signed origin.
    BadOrigin,
    /// An error of this pallet.
    Module(Error),
}

/// What the pallet announces.
#[derive(Clone, Copy, Debug, PartialEq, Eq, Structural)]
pub enum Event {
    /// An account got a new kitty: `(owner, kitty index)`.
    Created(u64, u32),
    /// An owner entry was set: `(sender, receiver, kitty index)`.
    Transferred(u64, u64, u32),
}

/// The phase of block execution in which an event was deposited.
#[derive(Clone, Copy, Debug, PartialEq, Eq, Structural)]
pub enum Phase {
    ApplyExtrinsic(u32),
    Finalization,
    Initialization,
}

/// A deposited event with the phase it was deposited in.
#[derive(Clone, Copy, Debug, PartialEq, Eq, Structural)]
pub struct EventRecord {
    pub phase: Phase,
    pub event: Event,
}

/// Accepts a signed origin and hands back its account; any other origin is refused.
pub fn ensure_signed(origin: Origin) -> (r: Result<u64, DispatchError>)
    ensures
        r == (match origin {
            Origin::Signed(who) => Ok(who),
            _ => Err(DispatchError::BadOrigin),
        }),
{
    match origin {
        Origin::Signed(who) => Ok(who),
        _ => Err(DispatchError::BadOrigin),
    }
}

} // verus!

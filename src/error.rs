//! Why a request could not be prepared.
use vstd::prelude::*;

verus! {

#[derive(Debug, Clone, Copy, PartialEq, Eq, Structural)]
pub enum PreconfError {
    /// A head-slot text that is not an unsigned 64-bit decimal.
    Decode,
    /// The signer could not sign the digest.
    Signing,
    /// The head slot is the largest slot, so there is no next one.
    SlotOverflow,
    /// A relay or beacon URL that does not parse or join.
    InvalidUrl,
}

} // verus!

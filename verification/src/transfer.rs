use vstd::prelude::*;

verus! {

/// Opaque handle for an account: a signer, a custodial token account, a
/// stored record's key. The engine never derives or verifies identities, it
/// only compares them; the host supplies them already authenticated.
pub type AccountId = u64;

/// One value transfer the host must perform on the engine's behalf.
///
/// Operations that move funds return one of these instead of touching any
/// custody themselves. When funds leave pool custody, `authority` is the
/// pool's own delegated authority, never the caller's.
#[derive(Clone, Copy, Debug, PartialEq, Eq, Structural)]
pub struct TransferRequest {
    /// Custodial account the funds leave.
    pub from: AccountId,
    /// Custodial account the funds enter.
    pub to: AccountId,
    /// Identity that must sign the transfer.
    pub authority: AccountId,
    /// Quote-asset amount to move.
    pub amount: u64,
}

} // verus!

//! The transfer orchestrator's vocabulary: asset accounts as the core sees
//! them, the derived-authority credential that substitutes for a private key,
//! and the operations handed to the external ledger service.

use vstd::prelude::*;
use crate::Address;

verus! {

/// An asset-holding account as the custody core reads it: its address and its
/// current balance. The external ledger owns the real bookkeeping; the core
/// only decides whether and how balances may move.
#[derive(Clone, Copy, Debug)]
pub struct AssetAccount {
    pub addr: Address,
    pub balance: u64,
}

/// The capability proof with which program logic signs for a derived address:
/// the address itself and the discriminant that, together with the fixed
/// seeds, re-derives it. Never a real secret key.
#[derive(Clone, Copy, Debug)]
pub struct DerivedAuthority {
    pub address: Address,
    pub bump: u8,
}

/// Who authorizes a ledger operation: the end user's own signature, or the
/// program's derived-authority credential.
#[derive(Clone, Copy, Debug)]
pub enum Authority {
    User(Address),
    Derived(DerivedAuthority),
}

/// A plain transfer of `amount` from one account to another, to be issued to
/// the external ledger under the given authority.
#[derive(Clone, Copy, Debug)]
pub struct TransferOp {
    pub from: Address,
    pub to: Address,
    pub amount: u64,
    pub authority: Authority,
}

/// A checked token transfer: as `TransferOp`, but naming the token mint so the
/// ledger can validate the asset kind. The amount is supplied at the call.
#[derive(Clone, Copy, Debug)]
pub struct TransferCheckedOp {
    pub from: Address,
    pub mint: Address,
    pub to: Address,
    pub authority: Authority,
}

/// Closing of a now-empty custody account, returning its residual reserved
/// balance to `destination`.
#[derive(Clone, Copy, Debug)]
pub struct CloseOp {
    pub account: Address,
    pub destination: Address,
    pub authority: Authority,
}

} // verus!

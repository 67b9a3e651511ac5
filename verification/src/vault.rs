//! The simple custody vault: a per-owner record whose two derived addresses
//! (an authority chained off the record, and a vault chained off the
//! authority) custody native and token assets. Deposit and withdraw are
//! freely repeatable; the record's `score` field is an audit marker of the
//! operation that last succeeded, not a gate.

use vstd::prelude::*;
use crate::Address;
use crate::addr::{auth_tag, vault_tag, auth_tag_vec, vault_tag_vec, addr_seed, spec_derive};
use crate::ledger::{AssetAccount, Authority, DerivedAuthority, TransferOp};

verus! {

/// The failure conditions of the vault instructions.
#[derive(Clone, Copy, Debug, PartialEq, Eq, Structural)]
pub enum Errors {
    /// A balance is smaller than the amount the operation needs to move.
    InsufficientFunds,
    /// The signer is not the identity the operation is restricted to.
    Unauthorized,
    /// A supplied address does not match its re-derivation.
    AddressMismatch,
    /// No discriminant in range yields a valid derived address.
    DerivationFailed,
}

/// The persisted vault custody record: the depositor's identity, the
/// discriminants fixing the two derived addresses tied to the record, and the
/// audit score (0 initialized, 1 deposited, 2 withdrawn, 3 token-deposited,
/// 4 token-withdrawn).
#[derive(Clone, Copy, Debug)]
pub struct Vault {
    pub owner: Address,
    pub auth_bump: u8,
    pub vault_bump: u8,
    pub score: u8,
}

/// The accounts supplied to `initialize`: the depositor, the address the
/// record will live at, and the two derived addresses to be fixed.
#[derive(Clone, Copy, Debug)]
pub struct Initialize {
    pub owner: Address,
    pub owner_signed: bool,
    pub vault_state: Address,
    pub vault_auth: Address,
    pub vault: Address,
}

/// What `initialize` returns, as a function of the supplied accounts and the
/// two derivation results (authority from the record address, vault from the
/// authority address).
pub open spec fn spec_initialize(
    ix: Initialize,
    d_auth: Option<(Seq<u8>, u8)>,
    d_vault: Option<(Seq<u8>, u8)>,
) -> Result<Vault, Errors> {
    if !ix.owner_signed {
        Err(Errors::Unauthorized)
    } else {
        match d_auth {
            None => Err(Errors::DerivationFailed),
            Some((auth, auth_bump)) => if auth != ix.vault_auth@ {
                Err(Errors::AddressMismatch)
            } else {
                match d_vault {
                    None => Err(Errors::DerivationFailed),
                    Some((vault, vault_bump)) => if vault != ix.vault@ {
                        Err(Errors::AddressMismatch)
                    } else {
                        Ok(Vault { owner: ix.owner, auth_bump, vault_bump, score: 0 })
                    },
                }
            },
        }
    }
}

/// Creates the vault custody record: checks the depositor's signature,
/// re-derives the authority address from the record address and the vault
/// address from the authority address, and fixes their discriminants in the
/// new record with the audit score cleared.
pub fn initialize(program: &Address, ix: &Initialize) -> (r: Result<Vault, Errors>)
    ensures
        r == spec_initialize(
            *ix,
            spec_derive(auth_tag(), seq![ix.vault_state@], program@),
            spec_derive(vault_tag(), seq![ix.vault_auth@], program@),
        ),
{
    if !ix.owner_signed {
        return Err(Errors::Unauthorized);
    }
    let auth_t = auth_tag_vec();
    let mut auth_seeds: Vec<Vec<u8>> = Vec::new();
    auth_seeds.push(addr_seed(&ix.vault_state));
    proof {
        assert(crate::addr::seeds_view(auth_seeds@) =~= seq![ix.vault_state@]);
    }
    let (auth, auth_bump) = match crate::addr::derive(&auth_t, &auth_seeds, program) {
        None => { return Err(Errors::DerivationFailed); },
        Some(d) => d,
    };
    if !(auth == ix.vault_auth) {
        return Err(Errors::AddressMismatch);
    }
    let vault_t = vault_tag_vec();
    let mut vault_seeds: Vec<Vec<u8>> = Vec::new();
    vault_seeds.push(addr_seed(&ix.vault_auth));
    proof {
        assert(crate::addr::seeds_view(vault_seeds@) =~= seq![ix.vault_auth@]);
    }
    let (vault, vault_bump) = match crate::addr::derive(&vault_t, &vault_seeds, program) {
        None => { return Err(Errors::DerivationFailed); },
        Some(d) => d,
    };
    if !(vault == ix.vault) {
        return Err(Errors::AddressMismatch);
    }
    Ok(Vault { owner: ix.owner, auth_bump, vault_bump, score: 0 })
}

/// The accounts supplied to `deposit` and `withdraw`: the owner's account
/// with its balance, the record address, and the two derived addresses, the
/// vault with its balance.
#[derive(Clone, Copy, Debug)]
pub struct Deposit {
    pub owner: AssetAccount,
    pub owner_signed: bool,
    pub vault_state: Address,
    pub vault_auth: Address,
    pub vault: AssetAccount,
}

/// The accounts supplied to `withdraw`; the same shape as `Deposit`.
#[derive(Clone, Copy, Debug)]
pub struct Withdraw {
    pub owner: AssetAccount,
    pub owner_signed: bool,
    pub vault_state: Address,
    pub vault_auth: Address,
    pub vault: AssetAccount,
}

/// Whether the two derivation results match the supplied authority and vault
/// addresses; shared by every vault instruction's gate.
pub open spec fn derivations_match(
    d_auth: Option<(Seq<u8>, u8)>,
    d_vault: Option<(Seq<u8>, u8)>,
    vault_auth: Address,
    vault: Address,
) -> Result<(), Errors> {
    match d_auth {
        None => Err(Errors::DerivationFailed),
        Some((auth, _)) => if auth != vault_auth@ {
            Err(Errors::AddressMismatch)
        } else {
            match d_vault {
                None => Err(Errors::DerivationFailed),
                Some((v, _)) => if v != vault@ {
                    Err(Errors::AddressMismatch)
                } else {
                    Ok(())
                },
            }
        },
    }
}

/// What `deposit` returns and changes, as a function of the record, the
/// supplied accounts, the amount and the two derivation results: the updated
/// record and accounts together with the user-signed transfer handed to the
/// ledger.
pub open spec fn spec_deposit(
    state: Vault,
    ix: Deposit,
    amount: u64,
    d_auth: Option<(Seq<u8>, u8)>,
    d_vault: Option<(Seq<u8>, u8)>,
) -> Result<(Vault, Deposit, TransferOp), Errors> {
    if !ix.owner_signed {
        Err(Errors::Unauthorized)
    } else {
        match derivations_match(d_auth, d_vault, ix.vault_auth, ix.vault.addr) {
            Err(e) => Err(e),
            Ok(()) => if ix.owner.balance < amount {
                Err(Errors::InsufficientFunds)
            } else {
                Ok(
                    (
                        Vault { score: 1, ..state },
                        Deposit {
                            owner: AssetAccount {
                                addr: ix.owner.addr,
                                balance: (ix.owner.balance - amount) as u64,
                            },
                            vault: AssetAccount {
                                addr: ix.vault.addr,
                                balance: (ix.vault.balance + amount) as u64,
                            },
                            ..ix
                        },
                        TransferOp {
                            from: ix.owner.addr,
                            to: ix.vault.addr,
                            amount,
                            authority: Authority::User(ix.owner.addr),
                        },
                    ),
                )
            },
        }
    }
}

/// Moves `amount` from the owner's account into the custody vault under the
/// owner's own signature, after the signer and address re-derivation checks,
/// and marks the record's audit score. On failure nothing changes.
pub fn deposit(program: &Address, state: &mut Vault, ix: &mut Deposit, amount: u64) -> (r: Result<
    TransferOp,
    Errors,
>)
    requires
        old(ix).vault.balance + amount <= u64::MAX,
    ensures
        ({
            let s = spec_deposit(
                *old(state),
                *old(ix),
                amount,
                spec_derive(auth_tag(), seq![old(ix).vault_state@], program@),
                spec_derive(vault_tag(), seq![old(ix).vault_auth@], program@),
            );
            &&& (r is Ok <==> s is Ok)
            &&& (r is Ok ==> r.unwrap() == s.unwrap().2 && *final(state) == s.unwrap().0
                && *final(ix) == s.unwrap().1)
            &&& (r is Err ==> r.unwrap_err() == s.unwrap_err() && *final(state) == *old(state)
                && *final(ix) == *old(ix))
        }),
{
    if !ix.owner_signed {
        return Err(Errors::Unauthorized);
    }
    match check_vault_derivations(program, &ix.vault_state, &ix.vault_auth, &ix.vault.addr) {
        Err(e) => { return Err(e); },
        Ok(()) => {},
    }
    if ix.owner.balance < amount {
        return Err(Errors::InsufficientFunds);
    }
    ix.owner.balance = ix.owner.balance - amount;
    ix.vault.balance = ix.vault.balance + amount;
    state.score = 1;
    Ok(
        TransferOp {
            from: ix.owner.addr,
            to: ix.vault.addr,
            amount,
            authority: Authority::User(ix.owner.addr),
        },
    )
}

/// Re-derives the authority address from the record address and the vault
/// address from the authority address, comparing each with what the caller
/// supplied: the address re-derivation check of the authorization gate.
fn check_vault_derivations(
    program: &Address,
    vault_state: &Address,
    vault_auth: &Address,
    vault: &Address,
) -> (r: Result<(), Errors>)
    ensures
        r == derivations_match(
            spec_derive(auth_tag(), seq![vault_state@], program@),
            spec_derive(vault_tag(), seq![vault_auth@], program@),
            *vault_auth,
            *vault,
        ),
{
    let auth_t = auth_tag_vec();
    let mut auth_seeds: Vec<Vec<u8>> = Vec::new();
    auth_seeds.push(addr_seed(vault_state));
    proof {
        assert(crate::addr::seeds_view(auth_seeds@) =~= seq![vault_state@]);
    }
    let auth = match crate::addr::derive(&auth_t, &auth_seeds, program) {
        None => { return Err(Errors::DerivationFailed); },
        Some((a, _)) => a,
    };
    if !(auth == *vault_auth) {
        return Err(Errors::AddressMismatch);
    }
    let vault_t = vault_tag_vec();
    let mut vault_seeds: Vec<Vec<u8>> = Vec::new();
    vault_seeds.push(addr_seed(vault_auth));
    proof {
        assert(crate::addr::seeds_view(vault_seeds@) =~= seq![vault_auth@]);
    }
    let v = match crate::addr::derive(&vault_t, &vault_seeds, program) {
        None => { return Err(Errors::DerivationFailed); },
        Some((a, _)) => a,
    };
    if !(v == *vault) {
        return Err(Errors::AddressMismatch);
    }
    Ok(())
}

/// What `withdraw` returns and changes: like `spec_deposit`, but restricted
/// to the recorded owner, gated on the vault's balance, and signed by the
/// derived vault credential.
pub open spec fn spec_withdraw(
    state: Vault,
    ix: Withdraw,
    amount: u64,
    d_auth: Option<(Seq<u8>, u8)>,
    d_vault: Option<(Seq<u8>, u8)>,
) -> Result<(Vault, Withdraw, TransferOp), Errors> {
    if !(ix.owner_signed && ix.owner.addr@ == state.owner@) {
        Err(Errors::Unauthorized)
    } else {
        match derivations_match(d_auth, d_vault, ix.vault_auth, ix.vault.addr) {
            Err(e) => Err(e),
            Ok(()) => if ix.vault.balance < amount {
                Err(Errors::InsufficientFunds)
            } else {
                Ok(
                    (
                        Vault { score: 2, ..state },
                        Withdraw {
                            owner: AssetAccount {
                                addr: ix.owner.addr,
                                balance: (ix.owner.balance + amount) as u64,
                            },
                            vault: AssetAccount {
                                addr: ix.vault.addr,
                                balance: (ix.vault.balance - amount) as u64,
                            },
                            ..ix
                        },
                        TransferOp {
                            from: ix.vault.addr,
                            to: ix.owner.addr,
                            amount,
                            authority: Authority::Derived(
                                DerivedAuthority { address: ix.vault.addr, bump: state.vault_bump },
                            ),
                        },
                    ),
                )
            },
        }
    }
}

/// Moves `amount` from the custody vault back to the recorded owner under the
/// derived vault credential. Only the recorded owner may withdraw; the vault
/// must hold at least `amount`, else the instruction fails with
/// `InsufficientFunds` and every balance is left unchanged.
pub fn withdraw(program: &Address, state: &mut Vault, ix: &mut Withdraw, amount: u64) -> (r: Result<
    TransferOp,
    Errors,
>)
    requires
        old(ix).owner.balance + amount <= u64::MAX,
    ensures
        ({
            let s = spec_withdraw(
                *old(state),
                *old(ix),
                amount,
                spec_derive(auth_tag(), seq![old(ix).vault_state@], program@),
                spec_derive(vault_tag(), seq![old(ix).vault_auth@], program@),
            );
            &&& (r is Ok <==> s is Ok)
            &&& (r is Ok ==> r.unwrap() == s.unwrap().2 && *final(state) == s.unwrap().0
                && *final(ix) == s.unwrap().1)
            &&& (r is Err ==> r.unwrap_err() == s.unwrap_err() && *final(state) == *old(state)
                && *final(ix) == *old(ix))
        }),
{
    if !(ix.owner_signed && ix.owner.addr == state.owner) {
        return Err(Errors::Unauthorized);
    }
    match check_vault_derivations(program, &ix.vault_state, &ix.vault_auth, &ix.vault.addr) {
        Err(e) => { return Err(e); },
        Ok(()) => {},
    }
    if ix.vault.balance < amount {
        return Err(Errors::InsufficientFunds);
    }
    ix.vault.balance = ix.vault.balance - amount;
    ix.owner.balance = ix.owner.balance + amount;
    state.score = 2;
    Ok(
        TransferOp {
            from: ix.vault.addr,
            to: ix.owner.addr,
            amount,
            authority: Authority::Derived(
                DerivedAuthority { address: ix.vault.addr, bump: state.vault_bump },
            ),
        },
    )
}

/// The accounts supplied to `deposit_spl`: the owner, the record and
/// authority addresses, and the two token accounts whose balances move.
#[derive(Clone, Copy, Debug)]
pub struct DepositSPL {
    pub owner: Address,
    pub owner_signed: bool,
    pub vault_state: Address,
    pub vault_auth: Address,
    pub owner_ata: AssetAccount,
    pub vault_ata: AssetAccount,
}

/// The accounts supplied to `withdraw_spl`; the same shape as `DepositSPL`.
#[derive(Clone, Copy, Debug)]
pub struct WithdrawSPL {
    pub owner: Address,
    pub owner_signed: bool,
    pub vault_state: Address,
    pub vault_auth: Address,
    pub owner_ata: AssetAccount,
    pub vault_ata: AssetAccount,
}

/// Whether the authority derivation result matches the supplied authority
/// address; the re-derivation check of the token instructions, which
/// reference no other derived address.
pub open spec fn auth_derivation_match(d_auth: Option<(Seq<u8>, u8)>, vault_auth: Address) -> Result<
    (),
    Errors,
> {
    match d_auth {
        None => Err(Errors::DerivationFailed),
        Some((auth, _)) => if auth != vault_auth@ {
            Err(Errors::AddressMismatch)
        } else {
            Ok(())
        },
    }
}

/// Re-derives the authority address from the record address and compares it
/// with what the caller supplied.
fn check_auth_derivation(program: &Address, vault_state: &Address, vault_auth: &Address) -> (r:
    Result<(), Errors>)
    ensures
        r == auth_derivation_match(
            spec_derive(auth_tag(), seq![vault_state@], program@),
            *vault_auth,
        ),
{
    let auth_t = auth_tag_vec();
    let mut auth_seeds: Vec<Vec<u8>> = Vec::new();
    auth_seeds.push(addr_seed(vault_state));
    proof {
        assert(crate::addr::seeds_view(auth_seeds@) =~= seq![vault_state@]);
    }
    let auth = match crate::addr::derive(&auth_t, &auth_seeds, program) {
        None => { return Err(Errors::DerivationFailed); },
        Some((a, _)) => a,
    };
    if !(auth == *vault_auth) {
        return Err(Errors::AddressMismatch);
    }
    Ok(())
}

/// What `deposit_spl` returns and changes, as a function of the record, the
/// supplied accounts, the amount and the authority derivation result.
pub open spec fn spec_deposit_spl(
    state: Vault,
    ix: DepositSPL,
    amount: u64,
    d_auth: Option<(Seq<u8>, u8)>,
) -> Result<(Vault, DepositSPL, TransferOp), Errors> {
    if !ix.owner_signed {
        Err(Errors::Unauthorized)
    } else {
        match auth_derivation_match(d_auth, ix.vault_auth) {
            Err(e) => Err(e),
            Ok(()) => if ix.owner_ata.balance < amount {
                Err(Errors::InsufficientFunds)
            } else {
                Ok(
                    (
                        Vault { score: 3, ..state },
                        DepositSPL {
                            owner_ata: AssetAccount {
                                addr: ix.owner_ata.addr,
                                balance: (ix.owner_ata.balance - amount) as u64,
                            },
                            vault_ata: AssetAccount {
                                addr: ix.vault_ata.addr,
                                balance: (ix.vault_ata.balance + amount) as u64,
                            },
                            ..ix
                        },
                        TransferOp {
                            from: ix.owner_ata.addr,
                            to: ix.vault_ata.addr,
                            amount,
                            authority: Authority::User(ix.owner),
                        },
                    ),
                )
            },
        }
    }
}

/// Moves `amount` of a token from the owner's token account into the vault's
/// under the owner's own signature, after the signer and authority
/// re-derivation checks, and marks the record's audit score. On failure
/// nothing changes.
pub fn deposit_spl(program: &Address, state: &mut Vault, ix: &mut DepositSPL, amount: u64) -> (r:
    Result<TransferOp, Errors>)
    requires
        old(ix).vault_ata.balance + amount <= u64::MAX,
    ensures
        ({
            let s = spec_deposit_spl(
                *old(state),
                *old(ix),
                amount,
                spec_derive(auth_tag(), seq![old(ix).vault_state@], program@),
            );
            &&& (r is Ok <==> s is Ok)
            &&& (r is Ok ==> r.unwrap() == s.unwrap().2 && *final(state) == s.unwrap().0
                && *final(ix) == s.unwrap().1)
            &&& (r is Err ==> r.unwrap_err() == s.unwrap_err() && *final(state) == *old(state)
                && *final(ix) == *old(ix))
        }),
{
    if !ix.owner_signed {
        return Err(Errors::Unauthorized);
    }
    match check_auth_derivation(program, &ix.vault_state, &ix.vault_auth) {
        Err(e) => { return Err(e); },
        Ok(()) => {},
    }
    if ix.owner_ata.balance < amount {
        return Err(Errors::InsufficientFunds);
    }
    ix.owner_ata.balance = ix.owner_ata.balance - amount;
    ix.vault_ata.balance = ix.vault_ata.balance + amount;
    state.score = 3;
    Ok(
        TransferOp {
            from: ix.owner_ata.addr,
            to: ix.vault_ata.addr,
            amount,
            authority: Authority::User(ix.owner),
        },
    )
}

/// What `withdraw_spl` returns and changes: like `spec_deposit_spl`, but
/// restricted to the recorded owner, gated on the vault token account's
/// balance, and signed by the derived authority credential.
pub open spec fn spec_withdraw_spl(
    state: Vault,
    ix: WithdrawSPL,
    amount: u64,
    d_auth: Option<(Seq<u8>, u8)>,
) -> Result<(Vault, WithdrawSPL, TransferOp), Errors> {
    if !(ix.owner_signed && ix.owner@ == state.owner@) {
        Err(Errors::Unauthorized)
    } else {
        match auth_derivation_match(d_auth, ix.vault_auth) {
            Err(e) => Err(e),
            Ok(()) => if ix.vault_ata.balance < amount {
                Err(Errors::InsufficientFunds)
            } else {
                Ok(
                    (
                        Vault { score: 4, ..state },
                        WithdrawSPL {
                            owner_ata: AssetAccount {
                                addr: ix.owner_ata.addr,
                                balance: (ix.owner_ata.balance + amount) as u64,
                            },
                            vault_ata: AssetAccount {
                                addr: ix.vault_ata.addr,
                                balance: (ix.vault_ata.balance - amount) as u64,
                            },
                            ..ix
                        },
                        TransferOp {
                            from: ix.vault_ata.addr,
                            to: ix.owner_ata.addr,
                            amount,
                            authority: Authority::Derived(
                                DerivedAuthority { address: ix.vault_auth, bump: state.auth_bump },
                            ),
                        },
                    ),
                )
            },
        }
    }
}

/// Moves `amount` of a token from the vault's token account back to the
/// recorded owner's under the derived authority credential. Only the recorded
/// owner may withdraw; the vault token account must hold at least `amount`,
/// else the instruction fails with `InsufficientFunds` and every balance is
/// left unchanged.
pub fn withdraw_spl(program: &Address, state: &mut Vault, ix: &mut WithdrawSPL, amount: u64) -> (r:
    Result<TransferOp, Errors>)
    requires
        old(ix).owner_ata.balance + amount <= u64::MAX,
    ensures
        ({
            let s = spec_withdraw_spl(
                *old(state),
                *old(ix),
                amount,
                spec_derive(auth_tag(), seq![old(ix).vault_state@], program@),
            );
            &&& (r is Ok <==> s is Ok)
            &&& (r is Ok ==> r.unwrap() == s.unwrap().2 && *final(state) == s.unwrap().0
                && *final(ix) == s.unwrap().1)
            &&& (r is Err ==> r.unwrap_err() == s.unwrap_err() && *final(state) == *old(state)
                && *final(ix) == *old(ix))
        }),
{
    if !(ix.owner_signed && ix.owner == state.owner) {
        return Err(Errors::Unauthorized);
    }
    match check_auth_derivation(program, &ix.vault_state, &ix.vault_auth) {
        Err(e) => { return Err(e); },
        Ok(()) => {},
    }
    if ix.vault_ata.balance < amount {
        return Err(Errors::InsufficientFunds);
    }
    ix.vault_ata.balance = ix.vault_ata.balance - amount;
    ix.owner_ata.balance = ix.owner_ata.balance + amount;
    state.score = 4;
    Ok(
        TransferOp {
            from: ix.vault_ata.addr,
            to: ix.owner_ata.addr,
            amount,
            authority: Authority::Derived(
                DerivedAuthority { address: ix.vault_auth, bump: state.auth_bump },
            ),
        },
    )
}

/// A token withdrawal of more than the vault's token account holds always
/// fails, and when the signer and re-derivation checks pass it fails exactly
/// with `InsufficientFunds`; `withdraw_spl`'s contract adds that every
/// balance is then left unchanged.
pub proof fn lemma_withdraw_spl_insufficient_funds(
    state: Vault,
    ix: WithdrawSPL,
    amount: u64,
    d_auth: Option<(Seq<u8>, u8)>,
)
    ensures
        amount > ix.vault_ata.balance ==> spec_withdraw_spl(state, ix, amount, d_auth) is Err,
        (amount > ix.vault_ata.balance && ix.owner_signed && ix.owner@ == state.owner@
            && auth_derivation_match(d_auth, ix.vault_auth) is Ok) ==> spec_withdraw_spl(
            state,
            ix,
            amount,
            d_auth,
        ) == Err::<(Vault, WithdrawSPL, TransferOp), Errors>(Errors::InsufficientFunds),
{
}

/// A withdrawal of more than the vault holds always fails, and when the
/// signer and re-derivation checks pass it fails exactly with
/// `InsufficientFunds`; `withdraw`'s contract adds that every balance is then
/// left unchanged.
pub proof fn lemma_withdraw_insufficient_funds(
    state: Vault,
    ix: Withdraw,
    amount: u64,
    d_auth: Option<(Seq<u8>, u8)>,
    d_vault: Option<(Seq<u8>, u8)>,
)
    ensures
        amount > ix.vault.balance ==> spec_withdraw(state, ix, amount, d_auth, d_vault) is Err,
        (amount > ix.vault.balance && ix.owner_signed && ix.owner.addr@ == state.owner@
            && derivations_match(d_auth, d_vault, ix.vault_auth, ix.vault.addr) is Ok)
            ==> spec_withdraw(state, ix, amount, d_auth, d_vault) == Err::<
            (Vault, Withdraw, TransferOp),
            Errors,
        >(Errors::InsufficientFunds),
{
}

} // verus!

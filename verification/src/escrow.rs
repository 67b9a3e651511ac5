//! The expiring escrow: a maker locks a deposit into a custody vault,
//! recording the two asset accounts to exchange, the amount expected in
//! return, and an optional expiry height. The maker may update or cancel the
//! offer; any party may settle it before expiry by paying the offer amount.

use vstd::prelude::*;
use crate::Address;
use crate::addr::{
    auth_tag, vault_tag, escrow_tag, auth_tag_vec, vault_tag_vec, escrow_tag_vec, addr_seed,
    u64_le_bytes, u64_le_seq, spec_derive, spec_check_derived, check_derived,
};
use crate::errors::EscrowError;
use crate::ledger::{AssetAccount, Authority, CloseOp, DerivedAuthority, TransferOp};

verus! {

/// Expiry windows must lie strictly below this bound; larger requests are
/// rejected as unreasonable multi-year windows.
pub const EXPIRY_BOUND: u64 = 100_000;

/// The persisted escrow record: the maker's identity, the two asset accounts
/// whose balances are exchanged, the maker-chosen nonce, the amount the maker
/// will accept in return, the absolute expiry height (0 meaning never), and
/// the discriminants fixing the three derived addresses.
#[derive(Clone, Copy, Debug)]
pub struct Escrow {
    pub maker: Address,
    pub maker_token: Address,
    pub taker_token: Address,
    pub seed: u64,
    pub offer_amount: u64,
    pub expiry: u64,
    pub auth_bump: u8,
    pub vault_bump: u8,
    pub escrow_bump: u8,
}

/// The accounts supplied to `make`: the maker and their asset account, the
/// recorded taker-side asset account, and the three derived addresses (the
/// authority, the vault with its balance, and the record's own address).
#[derive(Clone, Copy, Debug)]
pub struct MakeAccounts {
    pub maker: Address,
    pub maker_signed: bool,
    pub maker_token: AssetAccount,
    pub taker_token: Address,
    pub auth: Address,
    pub vault: AssetAccount,
    pub escrow: Address,
}

/// What `make` returns and changes, as a function of the supplied accounts,
/// the arguments, the current height and the three derivation results: the
/// new record, the updated accounts, and the user-signed deposit transfer.
pub open spec fn spec_make(
    acc: MakeAccounts,
    seed: u64,
    deposit_amount: u64,
    offer_amount: u64,
    expiry: u64,
    now: u64,
    d_escrow: Option<(Seq<u8>, u8)>,
    d_auth: Option<(Seq<u8>, u8)>,
    d_vault: Option<(Seq<u8>, u8)>,
) -> Result<(Escrow, MakeAccounts, TransferOp), EscrowError> {
    if expiry >= EXPIRY_BOUND {
        Err(EscrowError::ExpiryOutOfBounds)
    } else if !acc.maker_signed {
        Err(EscrowError::Unauthorized)
    } else {
        match d_escrow {
            None => Err(EscrowError::EscrowBumpError),
            Some((e, escrow_bump)) => if e != acc.escrow@ {
                Err(EscrowError::AddressMismatch)
            } else {
                match d_auth {
                    None => Err(EscrowError::AuthBumpError),
                    Some((a, auth_bump)) => if a != acc.auth@ {
                        Err(EscrowError::AddressMismatch)
                    } else {
                        match d_vault {
                            None => Err(EscrowError::VaultBumpError),
                            Some((v, vault_bump)) => if v != acc.vault.addr@ {
                                Err(EscrowError::AddressMismatch)
                            } else if acc.maker_token.balance < deposit_amount {
                                Err(EscrowError::InsufficientFunds)
                            } else {
                                Ok(
                                    (
                                        Escrow {
                                            maker: acc.maker,
                                            maker_token: acc.maker_token.addr,
                                            taker_token: acc.taker_token,
                                            seed,
                                            offer_amount,
                                            expiry: if expiry == 0 {
                                                0
                                            } else {
                                                (now + expiry) as u64
                                            },
                                            auth_bump,
                                            vault_bump,
                                            escrow_bump,
                                        },
                                        MakeAccounts {
                                            maker_token: AssetAccount {
                                                addr: acc.maker_token.addr,
                                                balance: (acc.maker_token.balance
                                                    - deposit_amount) as u64,
                                            },
                                            vault: AssetAccount {
                                                addr: acc.vault.addr,
                                                balance: (acc.vault.balance
                                                    + deposit_amount) as u64,
                                            },
                                            ..acc
                                        },
                                        TransferOp {
                                            from: acc.maker_token.addr,
                                            to: acc.vault.addr,
                                            amount: deposit_amount,
                                            authority: Authority::User(acc.maker),
                                        },
                                    ),
                                )
                            },
                        }
                    },
                }
            },
        }
    }
}

/// Creates an escrow: validates the expiry window, the maker's signature and
/// the three derived addresses, records the parties, amounts and
/// discriminants, and moves the maker's deposit into the custody vault under
/// the maker's own signature. On failure nothing changes and no transfer is
/// issued.
pub fn make(
    program: &Address,
    acc: &mut MakeAccounts,
    seed: u64,
    deposit_amount: u64,
    offer_amount: u64,
    expiry: u64,
    now_slot: u64,
) -> (r: Result<(Escrow, TransferOp), EscrowError>)
    requires
        now_slot + expiry <= u64::MAX,
        old(acc).vault.balance + deposit_amount <= u64::MAX,
    ensures
        ({
            let s = spec_make(
                *old(acc),
                seed,
                deposit_amount,
                offer_amount,
                expiry,
                now_slot,
                spec_derive(escrow_tag(), seq![old(acc).maker@, u64_le_seq(seed)], program@),
                spec_derive(auth_tag(), Seq::empty(), program@),
                spec_derive(vault_tag(), seq![old(acc).escrow@], program@),
            );
            &&& (r is Ok <==> s is Ok)
            &&& (r is Ok ==> r.unwrap().0 == s.unwrap().0 && r.unwrap().1 == s.unwrap().2
                && *final(acc) == s.unwrap().1)
            &&& (r is Err ==> r.unwrap_err() == s.unwrap_err() && *final(acc) == *old(acc))
        }),
{
    if expiry >= EXPIRY_BOUND {
        return Err(EscrowError::ExpiryOutOfBounds);
    }
    if !acc.maker_signed {
        return Err(EscrowError::Unauthorized);
    }
    let escrow_t = escrow_tag_vec();
    let mut escrow_seeds: Vec<Vec<u8>> = Vec::new();
    escrow_seeds.push(addr_seed(&acc.maker));
    escrow_seeds.push(u64_le_bytes(seed));
    proof {
        assert(crate::addr::seeds_view(escrow_seeds@) =~= seq![acc.maker@, u64_le_seq(seed)]);
    }
    let (e_addr, escrow_bump) = match crate::addr::derive(&escrow_t, &escrow_seeds, program) {
        None => { return Err(EscrowError::EscrowBumpError); },
        Some(d) => d,
    };
    if !(e_addr == acc.escrow) {
        return Err(EscrowError::AddressMismatch);
    }
    let auth_t = auth_tag_vec();
    let auth_seeds: Vec<Vec<u8>> = Vec::new();
    proof {
        assert(crate::addr::seeds_view(auth_seeds@) =~= Seq::<Seq<u8>>::empty());
    }
    let (a_addr, auth_bump) = match crate::addr::derive(&auth_t, &auth_seeds, program) {
        None => { return Err(EscrowError::AuthBumpError); },
        Some(d) => d,
    };
    if !(a_addr == acc.auth) {
        return Err(EscrowError::AddressMismatch);
    }
    let vault_t = vault_tag_vec();
    let mut vault_seeds: Vec<Vec<u8>> = Vec::new();
    vault_seeds.push(addr_seed(&acc.escrow));
    proof {
        assert(crate::addr::seeds_view(vault_seeds@) =~= seq![acc.escrow@]);
    }
    let (v_addr, vault_bump) = match crate::addr::derive(&vault_t, &vault_seeds, program) {
        None => { return Err(EscrowError::VaultBumpError); },
        Some(d) => d,
    };
    if !(v_addr == acc.vault.addr) {
        return Err(EscrowError::AddressMismatch);
    }
    if acc.maker_token.balance < deposit_amount {
        return Err(EscrowError::InsufficientFunds);
    }
    let esc = Escrow {
        maker: acc.maker,
        maker_token: acc.maker_token.addr,
        taker_token: acc.taker_token,
        seed,
        offer_amount,
        expiry: if expiry == 0 {
            0
        } else {
            now_slot + expiry
        },
        auth_bump,
        vault_bump,
        escrow_bump,
    };
    acc.maker_token.balance = acc.maker_token.balance - deposit_amount;
    acc.vault.balance = acc.vault.balance + deposit_amount;
    Ok(
        (
            esc,
            TransferOp {
                from: acc.maker_token.addr,
                to: acc.vault.addr,
                amount: deposit_amount,
                authority: Authority::User(acc.maker),
            },
        ),
    )
}

/// What `update` returns and changes, as a function of the record, the
/// signer, the replacement values and the current height.
pub open spec fn spec_update(
    esc: Escrow,
    maker: Address,
    maker_signed: bool,
    new_taker_token: Address,
    offer_amount: u64,
    expiry: u64,
    now: u64,
) -> Result<Escrow, EscrowError> {
    if !(maker_signed && maker@ == esc.maker@) {
        Err(EscrowError::Unauthorized)
    } else if expiry >= EXPIRY_BOUND {
        Err(EscrowError::ExpiryOutOfBounds)
    } else {
        Ok(
            Escrow {
                taker_token: new_taker_token,
                offer_amount,
                expiry: if expiry == 0 {
                    0
                } else {
                    (now + expiry) as u64
                },
                ..esc
            },
        )
    }
}

/// Replaces the taker asset target, the offer amount and the expiry of a
/// still-unfulfilled escrow. Only the recorded maker may update; the locked
/// deposit is not touched. On failure the record is left unchanged.
pub fn update(
    esc: &mut Escrow,
    maker: &Address,
    maker_signed: bool,
    new_taker_token: &Address,
    offer_amount: u64,
    expiry: u64,
    now_slot: u64,
) -> (r: Result<(), EscrowError>)
    requires
        now_slot + expiry <= u64::MAX,
    ensures
        ({
            let s = spec_update(
                *old(esc),
                *maker,
                maker_signed,
                *new_taker_token,
                offer_amount,
                expiry,
                now_slot,
            );
            &&& (r is Ok <==> s is Ok)
            &&& (r is Ok ==> *final(esc) == s.unwrap())
            &&& (r is Err ==> r.unwrap_err() == s.unwrap_err() && *final(esc) == *old(esc))
        }),
{
    if !(maker_signed && *maker == esc.maker) {
        return Err(EscrowError::Unauthorized);
    }
    if expiry >= EXPIRY_BOUND {
        return Err(EscrowError::ExpiryOutOfBounds);
    }
    esc.taker_token = *new_taker_token;
    esc.offer_amount = offer_amount;
    esc.expiry = if expiry == 0 {
        0
    } else {
        now_slot + expiry
    };
    Ok(())
}

/// The accounts supplied to `take`: the settling party (any signer), the two
/// asset accounts recorded in the escrow, the authority and vault addresses,
/// and the record's own address.
#[derive(Clone, Copy, Debug)]
pub struct TakeAccounts {
    pub taker: Address,
    pub taker_signed: bool,
    pub maker_token: AssetAccount,
    pub taker_token: AssetAccount,
    pub auth: Address,
    pub vault: AssetAccount,
    pub escrow: Address,
}

/// The three ledger operations of a settlement, in the fixed order they are
/// issued: the counter-asset to the maker, the vault's deposit to the taker,
/// and the closing of the now-empty vault.
#[derive(Clone, Copy, Debug)]
pub struct Settlement {
    pub deposit_to_maker: TransferOp,
    pub empty_vault_to_taker: TransferOp,
    pub close_vault: CloseOp,
}

/// What `take` returns and changes, as a function of the record, the supplied
/// accounts, the current height and the three re-derivation check results.
pub open spec fn spec_take(
    esc: Escrow,
    acc: TakeAccounts,
    now: u64,
    escrow_ok: bool,
    auth_ok: bool,
    vault_ok: bool,
) -> Result<(TakeAccounts, Settlement), EscrowError> {
    if !acc.taker_signed {
        Err(EscrowError::Unauthorized)
    } else if !(escrow_ok && auth_ok && vault_ok) {
        Err(EscrowError::AddressMismatch)
    } else if acc.taker_token.balance < esc.offer_amount {
        Err(EscrowError::InsufficientFunds)
    } else if esc.expiry != 0 && now >= esc.expiry {
        Err(EscrowError::Expired)
    } else if !(acc.maker_token.addr@ == esc.maker_token@ && acc.taker_token.addr@
        == esc.taker_token@) {
        Err(EscrowError::AddressMismatch)
    } else {
        Ok(
            (
                TakeAccounts {
                    maker_token: AssetAccount {
                        addr: acc.maker_token.addr,
                        balance: (acc.maker_token.balance + esc.offer_amount) as u64,
                    },
                    taker_token: AssetAccount {
                        addr: acc.taker_token.addr,
                        balance: (acc.taker_token.balance - esc.offer_amount
                            + acc.vault.balance) as u64,
                    },
                    vault: AssetAccount { addr: acc.vault.addr, balance: 0 },
                    ..acc
                },
                Settlement {
                    deposit_to_maker: TransferOp {
                        from: acc.taker_token.addr,
                        to: acc.maker_token.addr,
                        amount: esc.offer_amount,
                        authority: Authority::User(acc.taker),
                    },
                    empty_vault_to_taker: TransferOp {
                        from: acc.vault.addr,
                        to: acc.taker_token.addr,
                        amount: acc.vault.balance,
                        authority: Authority::Derived(
                            DerivedAuthority { address: acc.auth, bump: esc.auth_bump },
                        ),
                    },
                    close_vault: CloseOp {
                        account: acc.vault.addr,
                        destination: esc.maker,
                        authority: Authority::Derived(
                            DerivedAuthority { address: acc.auth, bump: esc.auth_bump },
                        ),
                    },
                },
            ),
        )
    }
}

/// The re-derivation checks of the escrow gate: the record's own address from
/// the recorded maker and nonce, the authority from the bare authority tag,
/// and the vault from the record's address, each against its recorded
/// discriminant and the supplied account.
pub open spec fn spec_escrow_derivations(
    esc: Escrow,
    supplied_escrow: Address,
    supplied_auth: Address,
    supplied_vault: Address,
    program: Seq<u8>,
) -> (bool, bool, bool) {
    (
        spec_check_derived(
            escrow_tag(),
            seq![esc.maker@, u64_le_seq(esc.seed)],
            esc.escrow_bump,
            program,
            supplied_escrow@,
        ),
        spec_check_derived(auth_tag(), Seq::empty(), esc.auth_bump, program, supplied_auth@),
        spec_check_derived(
            vault_tag(),
            seq![supplied_escrow@],
            esc.vault_bump,
            program,
            supplied_vault@,
        ),
    )
}

/// Runs the three re-derivation checks of the escrow gate.
fn check_escrow_derivations(
    program: &Address,
    esc: &Escrow,
    supplied_escrow: &Address,
    supplied_auth: &Address,
    supplied_vault: &Address,
) -> (r: (bool, bool, bool))
    ensures
        r == spec_escrow_derivations(
            *esc,
            *supplied_escrow,
            *supplied_auth,
            *supplied_vault,
            program@,
        ),
{
    let escrow_t = escrow_tag_vec();
    let mut escrow_seeds: Vec<Vec<u8>> = Vec::new();
    escrow_seeds.push(addr_seed(&esc.maker));
    escrow_seeds.push(u64_le_bytes(esc.seed));
    proof {
        assert(crate::addr::seeds_view(escrow_seeds@) =~= seq![
            esc.maker@,
            u64_le_seq(esc.seed),
        ]);
    }
    let escrow_ok = check_derived(&escrow_t, &escrow_seeds, esc.escrow_bump, program, supplied_escrow);
    let auth_t = auth_tag_vec();
    let auth_seeds: Vec<Vec<u8>> = Vec::new();
    proof {
        assert(crate::addr::seeds_view(auth_seeds@) =~= Seq::<Seq<u8>>::empty());
    }
    let auth_ok = check_derived(&auth_t, &auth_seeds, esc.auth_bump, program, supplied_auth);
    let vault_t = vault_tag_vec();
    let mut vault_seeds: Vec<Vec<u8>> = Vec::new();
    vault_seeds.push(addr_seed(supplied_escrow));
    proof {
        assert(crate::addr::seeds_view(vault_seeds@) =~= seq![supplied_escrow@]);
    }
    let vault_ok = check_derived(&vault_t, &vault_seeds, esc.vault_bump, program, supplied_vault);
    (escrow_ok, auth_ok, vault_ok)
}

/// Settles an escrow: any signer may fulfill it by paying the recorded offer
/// amount from the recorded taker-side account, in exchange for the vault's
/// whole deposit. Settlement validates, in order, the signature, the three
/// address re-derivations, the payer's balance, the expiry window, and that
/// the supplied asset accounts are the recorded ones. On success the caller
/// issues the settlement's three operations and destroys the record; on
/// failure nothing changes.
pub fn take(program: &Address, esc: &Escrow, acc: &mut TakeAccounts, now_slot: u64) -> (r: Result<
    Settlement,
    EscrowError,
>)
    requires
        old(acc).maker_token.balance + esc.offer_amount <= u64::MAX,
        old(acc).taker_token.balance + old(acc).vault.balance <= u64::MAX,
    ensures
        ({
            let d = spec_escrow_derivations(*esc, old(acc).escrow, old(acc).auth, old(acc).vault.addr, program@);
            let s = spec_take(*esc, *old(acc), now_slot, d.0, d.1, d.2);
            &&& (r is Ok <==> s is Ok)
            &&& (r is Ok ==> r.unwrap() == s.unwrap().1 && *final(acc) == s.unwrap().0)
            &&& (r is Err ==> r.unwrap_err() == s.unwrap_err() && *final(acc) == *old(acc))
        }),
{
    if !acc.taker_signed {
        return Err(EscrowError::Unauthorized);
    }
    let (escrow_ok, auth_ok, vault_ok) = check_escrow_derivations(
        program,
        esc,
        &acc.escrow,
        &acc.auth,
        &acc.vault.addr,
    );
    if !(escrow_ok && auth_ok && vault_ok) {
        return Err(EscrowError::AddressMismatch);
    }
    if acc.taker_token.balance < esc.offer_amount {
        return Err(EscrowError::InsufficientFunds);
    }
    if esc.expiry != 0 && now_slot >= esc.expiry {
        return Err(EscrowError::Expired);
    }
    if !(acc.maker_token.addr == esc.maker_token && acc.taker_token.addr == esc.taker_token) {
        return Err(EscrowError::AddressMismatch);
    }
    let settlement = Settlement {
        deposit_to_maker: TransferOp {
            from: acc.taker_token.addr,
            to: acc.maker_token.addr,
            amount: esc.offer_amount,
            authority: Authority::User(acc.taker),
        },
        empty_vault_to_taker: TransferOp {
            from: acc.vault.addr,
            to: acc.taker_token.addr,
            amount: acc.vault.balance,
            authority: Authority::Derived(
                DerivedAuthority { address: acc.auth, bump: esc.auth_bump },
            ),
        },
        close_vault: CloseOp {
            account: acc.vault.addr,
            destination: esc.maker,
            authority: Authority::Derived(
                DerivedAuthority { address: acc.auth, bump: esc.auth_bump },
            ),
        },
    };
    acc.maker_token.balance = acc.maker_token.balance + esc.offer_amount;
    acc.taker_token.balance = acc.taker_token.balance - esc.offer_amount + acc.vault.balance;
    acc.vault.balance = 0;
    Ok(settlement)
}

/// The accounts supplied to `refund`: the maker and their recorded asset
/// account, the authority and vault addresses, and the record's own address.
#[derive(Clone, Copy, Debug)]
pub struct RefundAccounts {
    pub maker: Address,
    pub maker_signed: bool,
    pub maker_token: AssetAccount,
    pub auth: Address,
    pub vault: AssetAccount,
    pub escrow: Address,
}

/// The two ledger operations of a cancellation, in order: the vault's whole
/// balance back to the maker, then the closing of the empty vault.
#[derive(Clone, Copy, Debug)]
pub struct RefundSettlement {
    pub empty_vault: TransferOp,
    pub close_vault: CloseOp,
}

/// What `refund` returns and changes, as a function of the record, the
/// supplied accounts and the three re-derivation check results. Expiry is
/// deliberately not consulted: cancellation remains available to the maker
/// whether or not the escrow has expired.
pub open spec fn spec_refund(
    esc: Escrow,
    acc: RefundAccounts,
    escrow_ok: bool,
    auth_ok: bool,
    vault_ok: bool,
) -> Result<(RefundAccounts, RefundSettlement), EscrowError> {
    if !(acc.maker_signed && acc.maker@ == esc.maker@) {
        Err(EscrowError::Unauthorized)
    } else if !(escrow_ok && auth_ok && vault_ok) {
        Err(EscrowError::AddressMismatch)
    } else if acc.maker_token.addr@ != esc.maker_token@ {
        Err(EscrowError::AddressMismatch)
    } else {
        Ok(
            (
                RefundAccounts {
                    maker_token: AssetAccount {
                        addr: acc.maker_token.addr,
                        balance: (acc.maker_token.balance + acc.vault.balance) as u64,
                    },
                    vault: AssetAccount { addr: acc.vault.addr, balance: 0 },
                    ..acc
                },
                RefundSettlement {
                    empty_vault: TransferOp {
                        from: acc.vault.addr,
                        to: acc.maker_token.addr,
                        amount: acc.vault.balance,
                        authority: Authority::Derived(
                            DerivedAuthority { address: acc.auth, bump: esc.auth_bump },
                        ),
                    },
                    close_vault: CloseOp {
                        account: acc.vault.addr,
                        destination: esc.maker,
                        authority: Authority::Derived(
                            DerivedAuthority { address: acc.auth, bump: esc.auth_bump },
                        ),
                    },
                },
            ),
        )
    }
}

/// Cancels an escrow: only the recorded maker may cancel, at any time,
/// expired or not. The vault's whole balance returns to the maker's recorded
/// asset account and the vault is closed; on success the caller issues the
/// two operations and destroys the record, on failure nothing changes.
pub fn refund(program: &Address, esc: &Escrow, acc: &mut RefundAccounts) -> (r: Result<
    RefundSettlement,
    EscrowError,
>)
    requires
        old(acc).maker_token.balance + old(acc).vault.balance <= u64::MAX,
    ensures
        ({
            let d = spec_escrow_derivations(*esc, old(acc).escrow, old(acc).auth, old(acc).vault.addr, program@);
            let s = spec_refund(*esc, *old(acc), d.0, d.1, d.2);
            &&& (r is Ok <==> s is Ok)
            &&& (r is Ok ==> r.unwrap() == s.unwrap().1 && *final(acc) == s.unwrap().0)
            &&& (r is Err ==> r.unwrap_err() == s.unwrap_err() && *final(acc) == *old(acc))
        }),
{
    if !(acc.maker_signed && acc.maker == esc.maker) {
        return Err(EscrowError::Unauthorized);
    }
    let (escrow_ok, auth_ok, vault_ok) = check_escrow_derivations(
        program,
        esc,
        &acc.escrow,
        &acc.auth,
        &acc.vault.addr,
    );
    if !(escrow_ok && auth_ok && vault_ok) {
        return Err(EscrowError::AddressMismatch);
    }
    if !(acc.maker_token.addr == esc.maker_token) {
        return Err(EscrowError::AddressMismatch);
    }
    let settlement = RefundSettlement {
        empty_vault: TransferOp {
            from: acc.vault.addr,
            to: acc.maker_token.addr,
            amount: acc.vault.balance,
            authority: Authority::Derived(
                DerivedAuthority { address: acc.auth, bump: esc.auth_bump },
            ),
        },
        close_vault: CloseOp {
            account: acc.vault.addr,
            destination: esc.maker,
            authority: Authority::Derived(
                DerivedAuthority { address: acc.auth, bump: esc.auth_bump },
            ),
        },
    };
    acc.maker_token.balance = acc.maker_token.balance + acc.vault.balance;
    acc.vault.balance = 0;
    Ok(settlement)
}

/// Settlement succeeds only within the expiry window: a fulfilled `take`
/// implies the escrow never expires or the current height is strictly below
/// the recorded expiry; and once the earlier validations pass, any
/// attempt at or after the expiry (the boundary included) fails with
/// `Expired`.
pub proof fn lemma_take_expiry_gate(
    esc: Escrow,
    acc: TakeAccounts,
    now: u64,
    escrow_ok: bool,
    auth_ok: bool,
    vault_ok: bool,
)
    ensures
        spec_take(esc, acc, now, escrow_ok, auth_ok, vault_ok) is Ok ==> (esc.expiry == 0 || now
            < esc.expiry),
        (acc.taker_signed && escrow_ok && auth_ok && vault_ok && acc.taker_token.balance
            >= esc.offer_amount && esc.expiry != 0 && now >= esc.expiry) ==> spec_take(
            esc,
            acc,
            now,
            escrow_ok,
            auth_ok,
            vault_ok,
        ) == Err::<(TakeAccounts, Settlement), EscrowError>(EscrowError::Expired),
{
}

/// Operations restricted to the maker reject every other identity: an
/// `update` or a `refund` whose signer is not the recorded maker (or did not
/// sign at all) fails with `Unauthorized`; the contracts of `update` and
/// `refund` add that the record and every balance are then left unchanged.
pub proof fn lemma_unauthorized_update_refund(
    esc: Escrow,
    maker: Address,
    maker_signed: bool,
    new_taker_token: Address,
    offer_amount: u64,
    expiry: u64,
    now: u64,
    racc: RefundAccounts,
    escrow_ok: bool,
    auth_ok: bool,
    vault_ok: bool,
)
    ensures
        !(maker_signed && maker@ == esc.maker@) ==> spec_update(
            esc,
            maker,
            maker_signed,
            new_taker_token,
            offer_amount,
            expiry,
            now,
        ) == Err::<Escrow, EscrowError>(EscrowError::Unauthorized),
        !(racc.maker_signed && racc.maker@ == esc.maker@) ==> spec_refund(
            esc,
            racc,
            escrow_ok,
            auth_ok,
            vault_ok,
        ) == Err::<(RefundAccounts, RefundSettlement), EscrowError>(EscrowError::Unauthorized),
{
}

/// An expiry request at or above the accepted bound is rejected outright:
/// `make` fails with `ExpiryOutOfBounds` before any other check, so before
/// any transfer; `make`'s contract adds that the maker's balance is then left
/// untouched.
pub proof fn lemma_make_expiry_bound(
    acc: MakeAccounts,
    seed: u64,
    deposit_amount: u64,
    offer_amount: u64,
    expiry: u64,
    now: u64,
    d_escrow: Option<(Seq<u8>, u8)>,
    d_auth: Option<(Seq<u8>, u8)>,
    d_vault: Option<(Seq<u8>, u8)>,
)
    ensures
        expiry >= EXPIRY_BOUND ==> spec_make(
            acc,
            seed,
            deposit_amount,
            offer_amount,
            expiry,
            now,
            d_escrow,
            d_auth,
            d_vault,
        ) == Err::<(Escrow, MakeAccounts, TransferOp), EscrowError>(
            EscrowError::ExpiryOutOfBounds,
        ),
{
}

/// Round trip: a successful `make` on an empty vault, followed immediately by
/// a `refund` signed by the maker on accounts whose re-derivation checks
/// pass, succeeds, returns the whole deposit to the maker's asset account
/// (restoring its original balance exactly), and leaves the vault empty; the
/// record and the vault are then destroyed by the caller, so no residual
/// record remains.
pub proof fn lemma_make_refund_round_trip(
    acc: MakeAccounts,
    seed: u64,
    deposit_amount: u64,
    offer_amount: u64,
    expiry: u64,
    now: u64,
    d_escrow: Option<(Seq<u8>, u8)>,
    d_auth: Option<(Seq<u8>, u8)>,
    d_vault: Option<(Seq<u8>, u8)>,
)
    requires
        acc.vault.balance == 0,
        spec_make(acc, seed, deposit_amount, offer_amount, expiry, now, d_escrow, d_auth, d_vault)
            is Ok,
    ensures
        ({
            let (esc, acc2, _deposit) = spec_make(
                acc,
                seed,
                deposit_amount,
                offer_amount,
                expiry,
                now,
                d_escrow,
                d_auth,
                d_vault,
            ).unwrap();
            let racc = RefundAccounts {
                maker: acc.maker,
                maker_signed: true,
                maker_token: acc2.maker_token,
                auth: acc.auth,
                vault: acc2.vault,
                escrow: acc.escrow,
            };
            let r = spec_refund(esc, racc, true, true, true);
            &&& r is Ok
            &&& r.unwrap().0.maker_token.balance == acc.maker_token.balance
            &&& r.unwrap().0.vault.balance == 0
            &&& r.unwrap().1.empty_vault.amount == deposit_amount
            &&& r.unwrap().1.empty_vault.to == acc.maker_token.addr
        }),
{
}

/// Exchange correctness: after a successful `make` of `deposit_amount`
/// expecting `offer_amount` in return, a `take` by any signer holding at
/// least the offer amount in the recorded taker-side account, before expiry
/// and on accounts whose re-derivation checks pass, succeeds; the maker's
/// asset account has then decreased by the deposit and increased by the offer
/// (net), the taker's mirrors the inverse, the vault balance is zero, and the
/// caller destroys the record.
pub proof fn lemma_make_take_settlement(
    acc: MakeAccounts,
    seed: u64,
    deposit_amount: u64,
    offer_amount: u64,
    expiry: u64,
    now_make: u64,
    now_take: u64,
    d_escrow: Option<(Seq<u8>, u8)>,
    d_auth: Option<(Seq<u8>, u8)>,
    d_vault: Option<(Seq<u8>, u8)>,
    taker: Address,
    taker_account: AssetAccount,
)
    requires
        acc.vault.balance == 0,
        spec_make(acc, seed, deposit_amount, offer_amount, expiry, now_make, d_escrow, d_auth, d_vault)
            is Ok,
        now_make + expiry <= u64::MAX,
        expiry == 0 || now_take < now_make + expiry,
        taker_account.addr@ == acc.taker_token@,
        taker_account.balance >= offer_amount,
        taker_account.balance + deposit_amount <= u64::MAX,
        acc.maker_token.balance + offer_amount <= u64::MAX,
    ensures
        ({
            let (esc, acc2, _deposit) = spec_make(
                acc,
                seed,
                deposit_amount,
                offer_amount,
                expiry,
                now_make,
                d_escrow,
                d_auth,
                d_vault,
            ).unwrap();
            let tacc = TakeAccounts {
                taker,
                taker_signed: true,
                maker_token: acc2.maker_token,
                taker_token: taker_account,
                auth: acc.auth,
                vault: acc2.vault,
                escrow: acc.escrow,
            };
            let r = spec_take(esc, tacc, now_take, true, true, true);
            &&& r is Ok
            &&& r.unwrap().0.maker_token.balance == acc.maker_token.balance - deposit_amount
                + offer_amount
            &&& r.unwrap().0.taker_token.balance == taker_account.balance - offer_amount
                + deposit_amount
            &&& r.unwrap().0.vault.balance == 0
            &&& r.unwrap().1.deposit_to_maker.amount == offer_amount
            &&& r.unwrap().1.empty_vault_to_taker.amount == deposit_amount
        }),
{
}

} // verus!

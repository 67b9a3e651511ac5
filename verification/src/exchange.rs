//! The token escrow: an initializer locks a token deposit in a vault owned by
//! a single program-wide derived authority, recording the two token accounts
//! of the exchange and the amount expected in return. The initializer may
//! cancel; a taker settles by paying the recorded taker amount, receiving the
//! deposit, after which the emptied vault is closed.

use vstd::prelude::*;
use crate::Address;
use crate::addr::{
    authority_tag, state_tag, authority_tag_vec, state_tag_vec, u64_le_bytes, u64_le_seq,
    spec_derive, spec_check_derived, check_derived,
};
use crate::errors::EscrowError;
use crate::ledger::{AssetAccount, Authority, CloseOp, DerivedAuthority, TransferCheckedOp};

verus! {

/// The persisted escrow state record: the initializer's identity, the two
/// token accounts recorded for the exchange, the deposited and expected
/// amounts, the initializer-chosen nonce, and the discriminant of the
/// program-wide vault authority.
#[derive(Clone, Copy, Debug)]
pub struct EscrowState {
    pub random_seed: u64,
    pub initializer_key: Address,
    pub initializer_deposit_token_account: Address,
    pub initializer_receive_token_account: Address,
    pub initializer_amount: u64,
    pub taker_amount: u64,
    pub vault_authority_bump: u8,
}

impl EscrowState {
    /// The persisted size of the record: an 8-byte discriminator tag, three
    /// 32-byte identities, the nonce and the two 8-byte amounts, and the
    /// 1-byte discriminant.
    pub fn space() -> (r: usize)
        ensures
            r == 129,
    {
        8 + 32 + 32 + 32 + 8 + 8 + 8 + 1
    }
}

/// The accounts supplied to `initialize`: the initializer, the token mint,
/// the derived vault authority, the vault token account, the initializer's
/// deposit and receive token accounts, and the address the record will live
/// at.
#[derive(Clone, Copy, Debug)]
pub struct Initialize {
    pub initializer: Address,
    pub initializer_signed: bool,
    pub mint: Address,
    pub vault_authority: Address,
    pub vault: AssetAccount,
    pub initializer_deposit_token_account: AssetAccount,
    pub initializer_receive_token_account: Address,
    pub escrow_state: Address,
}

impl Initialize {
    /// The user-signed transfer that moves the initializer's deposit into the
    /// custody vault.
    pub fn into_transfer_to_pda_context(&self) -> (r: TransferCheckedOp)
        ensures
            r == (TransferCheckedOp {
                from: self.initializer_deposit_token_account.addr,
                mint: self.mint,
                to: self.vault.addr,
                authority: Authority::User(self.initializer),
            }),
    {
        TransferCheckedOp {
            from: self.initializer_deposit_token_account.addr,
            mint: self.mint,
            to: self.vault.addr,
            authority: Authority::User(self.initializer),
        }
    }
}

/// What `initialize` returns and changes, as a function of the supplied
/// accounts, the arguments and the two derivation results (the program-wide
/// authority, and the record address from the nonce).
pub open spec fn spec_initialize(
    acc: Initialize,
    escrow_seed: u64,
    initializer_amount: u64,
    taker_amount: u64,
    d_authority: Option<(Seq<u8>, u8)>,
    d_state: Option<(Seq<u8>, u8)>,
) -> Result<(EscrowState, Initialize, TransferCheckedOp), EscrowError> {
    if !acc.initializer_signed {
        Err(EscrowError::Unauthorized)
    } else {
        match d_authority {
            None => Err(EscrowError::AuthBumpError),
            Some((a, authority_bump)) => if a != acc.vault_authority@ {
                Err(EscrowError::AddressMismatch)
            } else {
                match d_state {
                    None => Err(EscrowError::EscrowBumpError),
                    Some((s, _)) => if s != acc.escrow_state@ {
                        Err(EscrowError::AddressMismatch)
                    } else if acc.initializer_deposit_token_account.balance
                        < initializer_amount {
                        Err(EscrowError::InsufficientFunds)
                    } else {
                        Ok(
                            (
                                EscrowState {
                                    random_seed: escrow_seed,
                                    initializer_key: acc.initializer,
                                    initializer_deposit_token_account:
                                        acc.initializer_deposit_token_account.addr,
                                    initializer_receive_token_account:
                                        acc.initializer_receive_token_account,
                                    initializer_amount,
                                    taker_amount,
                                    vault_authority_bump: authority_bump,
                                },
                                Initialize {
                                    initializer_deposit_token_account: AssetAccount {
                                        addr: acc.initializer_deposit_token_account.addr,
                                        balance: (acc.initializer_deposit_token_account.balance
                                            - initializer_amount) as u64,
                                    },
                                    vault: AssetAccount {
                                        addr: acc.vault.addr,
                                        balance: (acc.vault.balance + initializer_amount) as u64,
                                    },
                                    ..acc
                                },
                                TransferCheckedOp {
                                    from: acc.initializer_deposit_token_account.addr,
                                    mint: acc.mint,
                                    to: acc.vault.addr,
                                    authority: Authority::User(acc.initializer),
                                },
                            ),
                        )
                    },
                }
            },
        }
    }
}

/// Creates the escrow state record: checks the initializer's signature,
/// re-derives the program-wide vault authority and the record address from
/// the nonce, requires the deposit account to hold the deposit, records the
/// parties and amounts with the authority's discriminant, and moves the
/// deposit into the vault under the initializer's own signature. On failure
/// nothing changes.
pub fn initialize(
    program: &Address,
    acc: &mut Initialize,
    escrow_seed: u64,
    initializer_amount: u64,
    taker_amount: u64,
) -> (r: Result<(EscrowState, TransferCheckedOp), EscrowError>)
    requires
        old(acc).vault.balance + initializer_amount <= u64::MAX,
    ensures
        ({
            let s = spec_initialize(
                *old(acc),
                escrow_seed,
                initializer_amount,
                taker_amount,
                spec_derive(authority_tag(), Seq::empty(), program@),
                spec_derive(state_tag(), seq![u64_le_seq(escrow_seed)], program@),
            );
            &&& (r is Ok <==> s is Ok)
            &&& (r is Ok ==> r.unwrap().0 == s.unwrap().0 && r.unwrap().1 == s.unwrap().2
                && *final(acc) == s.unwrap().1)
            &&& (r is Err ==> r.unwrap_err() == s.unwrap_err() && *final(acc) == *old(acc))
        }),
{
    if !acc.initializer_signed {
        return Err(EscrowError::Unauthorized);
    }
    let authority_t = authority_tag_vec();
    let authority_seeds: Vec<Vec<u8>> = Vec::new();
    proof {
        assert(crate::addr::seeds_view(authority_seeds@) =~= Seq::<Seq<u8>>::empty());
    }
    let (a_addr, authority_bump) = match crate::addr::derive(&authority_t, &authority_seeds, program) {
        None => { return Err(EscrowError::AuthBumpError); },
        Some(d) => d,
    };
    if !(a_addr == acc.vault_authority) {
        return Err(EscrowError::AddressMismatch);
    }
    let state_t = state_tag_vec();
    let mut state_seeds: Vec<Vec<u8>> = Vec::new();
    state_seeds.push(u64_le_bytes(escrow_seed));
    proof {
        assert(crate::addr::seeds_view(state_seeds@) =~= seq![u64_le_seq(escrow_seed)]);
    }
    let s_addr = match crate::addr::derive(&state_t, &state_seeds, program) {
        None => { return Err(EscrowError::EscrowBumpError); },
        Some((a, _)) => a,
    };
    if !(s_addr == acc.escrow_state) {
        return Err(EscrowError::AddressMismatch);
    }
    if acc.initializer_deposit_token_account.balance < initializer_amount {
        return Err(EscrowError::InsufficientFunds);
    }
    let state = EscrowState {
        random_seed: escrow_seed,
        initializer_key: acc.initializer,
        initializer_deposit_token_account: acc.initializer_deposit_token_account.addr,
        initializer_receive_token_account: acc.initializer_receive_token_account,
        initializer_amount,
        taker_amount,
        vault_authority_bump: authority_bump,
    };
    let op = acc.into_transfer_to_pda_context();
    acc.initializer_deposit_token_account.balance = acc.initializer_deposit_token_account.balance
        - initializer_amount;
    acc.vault.balance = acc.vault.balance + initializer_amount;
    Ok((state, op))
}

/// The accounts supplied to `cancel`: the initializer, the mint, the vault
/// with its balance, the derived authority, the initializer's deposit token
/// account, and the record's address.
#[derive(Clone, Copy, Debug)]
pub struct Cancel {
    pub initializer: Address,
    pub initializer_signed: bool,
    pub mint: Address,
    pub vault: AssetAccount,
    pub vault_authority: Address,
    pub initializer_deposit_token_account: AssetAccount,
    pub escrow_state: Address,
}

impl Cancel {
    /// The authority-signed transfer that returns the deposit from the vault
    /// to the initializer's deposit token account.
    pub fn into_transfer_to_initializer_context(&self, bump: u8) -> (r: TransferCheckedOp)
        ensures
            r == (TransferCheckedOp {
                from: self.vault.addr,
                mint: self.mint,
                to: self.initializer_deposit_token_account.addr,
                authority: Authority::Derived(
                    DerivedAuthority { address: self.vault_authority, bump },
                ),
            }),
    {
        TransferCheckedOp {
            from: self.vault.addr,
            mint: self.mint,
            to: self.initializer_deposit_token_account.addr,
            authority: Authority::Derived(
                DerivedAuthority { address: self.vault_authority, bump },
            ),
        }
    }

    /// The authority-signed closing of the vault, returning its residual
    /// reserved balance to the initializer.
    pub fn into_close_context(&self, bump: u8) -> (r: CloseOp)
        ensures
            r == (CloseOp {
                account: self.vault.addr,
                destination: self.initializer,
                authority: Authority::Derived(
                    DerivedAuthority { address: self.vault_authority, bump },
                ),
            }),
    {
        CloseOp {
            account: self.vault.addr,
            destination: self.initializer,
            authority: Authority::Derived(
                DerivedAuthority { address: self.vault_authority, bump },
            ),
        }
    }
}

/// The two ledger operations of a cancellation, in order: the deposit back
/// to the initializer, then the closing of the vault.
#[derive(Clone, Copy, Debug)]
pub struct CancelSettlement {
    pub transfer_to_initializer: TransferCheckedOp,
    pub close_vault: CloseOp,
}

/// What `cancel` returns and changes, as a function of the record, the
/// supplied accounts and the authority re-derivation check result.
pub open spec fn spec_cancel(state: EscrowState, acc: Cancel, authority_ok: bool) -> Result<
    (Cancel, CancelSettlement),
    EscrowError,
> {
    if !(acc.initializer_signed && acc.initializer@ == state.initializer_key@) {
        Err(EscrowError::Unauthorized)
    } else if !authority_ok {
        Err(EscrowError::AddressMismatch)
    } else if acc.vault.balance < state.initializer_amount {
        Err(EscrowError::InsufficientFunds)
    } else if acc.initializer_deposit_token_account.addr@
        != state.initializer_deposit_token_account@ {
        Err(EscrowError::AddressMismatch)
    } else {
        Ok(
            (
                Cancel {
                    vault: AssetAccount {
                        addr: acc.vault.addr,
                        balance: (acc.vault.balance - state.initializer_amount) as u64,
                    },
                    initializer_deposit_token_account: AssetAccount {
                        addr: acc.initializer_deposit_token_account.addr,
                        balance: (acc.initializer_deposit_token_account.balance
                            + state.initializer_amount) as u64,
                    },
                    ..acc
                },
                CancelSettlement {
                    transfer_to_initializer: TransferCheckedOp {
                        from: acc.vault.addr,
                        mint: acc.mint,
                        to: acc.initializer_deposit_token_account.addr,
                        authority: Authority::Derived(
                            DerivedAuthority {
                                address: acc.vault_authority,
                                bump: state.vault_authority_bump,
                            },
                        ),
                    },
                    close_vault: CloseOp {
                        account: acc.vault.addr,
                        destination: acc.initializer,
                        authority: Authority::Derived(
                            DerivedAuthority {
                                address: acc.vault_authority,
                                bump: state.vault_authority_bump,
                            },
                        ),
                    },
                },
            ),
        )
    }
}

/// Cancels the escrow: only the recorded initializer may cancel. The deposit
/// returns from the vault to the recorded deposit token account under the
/// derived authority credential and the vault is closed; on success the
/// caller issues the two operations and destroys the record, on failure
/// nothing changes.
pub fn cancel(program: &Address, state: &EscrowState, acc: &mut Cancel) -> (r: Result<
    CancelSettlement,
    EscrowError,
>)
    requires
        old(acc).initializer_deposit_token_account.balance + state.initializer_amount
            <= u64::MAX,
    ensures
        ({
            let s = spec_cancel(
                *state,
                *old(acc),
                spec_check_derived(
                    authority_tag(),
                    Seq::empty(),
                    state.vault_authority_bump,
                    program@,
                    old(acc).vault_authority@,
                ),
            );
            &&& (r is Ok <==> s is Ok)
            &&& (r is Ok ==> r.unwrap() == s.unwrap().1 && *final(acc) == s.unwrap().0)
            &&& (r is Err ==> r.unwrap_err() == s.unwrap_err() && *final(acc) == *old(acc))
        }),
{
    if !(acc.initializer_signed && acc.initializer == state.initializer_key) {
        return Err(EscrowError::Unauthorized);
    }
    let authority_t = authority_tag_vec();
    let authority_seeds: Vec<Vec<u8>> = Vec::new();
    proof {
        assert(crate::addr::seeds_view(authority_seeds@) =~= Seq::<Seq<u8>>::empty());
    }
    let authority_ok = check_derived(
        &authority_t,
        &authority_seeds,
        state.vault_authority_bump,
        program,
        &acc.vault_authority,
    );
    if !authority_ok {
        return Err(EscrowError::AddressMismatch);
    }
    if acc.vault.balance < state.initializer_amount {
        return Err(EscrowError::InsufficientFunds);
    }
    if !(acc.initializer_deposit_token_account.addr == state.initializer_deposit_token_account) {
        return Err(EscrowError::AddressMismatch);
    }
    let settlement = CancelSettlement {
        transfer_to_initializer: acc.into_transfer_to_initializer_context(
            state.vault_authority_bump,
        ),
        close_vault: acc.into_close_context(state.vault_authority_bump),
    };
    acc.vault.balance = acc.vault.balance - state.initializer_amount;
    acc.initializer_deposit_token_account.balance = acc.initializer_deposit_token_account.balance
        + state.initializer_amount;
    Ok(settlement)
}

/// The accounts supplied to `exchange`: the taker (the settling signer), the
/// recorded initializer, the two mints, the taker's pay and receive token
/// accounts, the initializer's recorded deposit and receive token accounts,
/// the record's address, the vault with its balance, and the derived
/// authority.
#[derive(Clone, Copy, Debug)]
pub struct Exchange {
    pub taker: Address,
    pub taker_signed: bool,
    pub initializer: Address,
    pub initializer_deposit_token_mint: Address,
    pub taker_deposit_token_mint: Address,
    pub taker_deposit_token_account: AssetAccount,
    pub taker_receive_token_account: AssetAccount,
    pub initializer_deposit_token_account: AssetAccount,
    pub initializer_receive_token_account: AssetAccount,
    pub escrow_state: Address,
    pub vault: AssetAccount,
    pub vault_authority: Address,
}

impl Exchange {
    /// The taker-signed transfer that pays the expected counter-asset to the
    /// initializer's receive token account.
    pub fn into_transfer_to_initializer_context(&self) -> (r: TransferCheckedOp)
        ensures
            r == (TransferCheckedOp {
                from: self.taker_deposit_token_account.addr,
                mint: self.taker_deposit_token_mint,
                to: self.initializer_receive_token_account.addr,
                authority: Authority::User(self.taker),
            }),
    {
        TransferCheckedOp {
            from: self.taker_deposit_token_account.addr,
            mint: self.taker_deposit_token_mint,
            to: self.initializer_receive_token_account.addr,
            authority: Authority::User(self.taker),
        }
    }

    /// The authority-signed transfer that releases the vault's deposit to the
    /// taker's receive token account.
    pub fn into_transfer_to_taker_context(&self, bump: u8) -> (r: TransferCheckedOp)
        ensures
            r == (TransferCheckedOp {
                from: self.vault.addr,
                mint: self.initializer_deposit_token_mint,
                to: self.taker_receive_token_account.addr,
                authority: Authority::Derived(
                    DerivedAuthority { address: self.vault_authority, bump },
                ),
            }),
    {
        TransferCheckedOp {
            from: self.vault.addr,
            mint: self.initializer_deposit_token_mint,
            to: self.taker_receive_token_account.addr,
            authority: Authority::Derived(
                DerivedAuthority { address: self.vault_authority, bump },
            ),
        }
    }

    /// The authority-signed closing of the vault, returning its residual
    /// reserved balance to the initializer.
    pub fn into_close_context(&self, bump: u8) -> (r: CloseOp)
        ensures
            r == (CloseOp {
                account: self.vault.addr,
                destination: self.initializer,
                authority: Authority::Derived(
                    DerivedAuthority { address: self.vault_authority, bump },
                ),
            }),
    {
        CloseOp {
            account: self.vault.addr,
            destination: self.initializer,
            authority: Authority::Derived(
                DerivedAuthority { address: self.vault_authority, bump },
            ),
        }
    }
}

/// The three ledger operations of a settlement, in the fixed order they are
/// issued: the counter-asset to the initializer, the deposit to the taker,
/// and the closing of the now-empty vault.
#[derive(Clone, Copy, Debug)]
pub struct ExchangeSettlement {
    pub transfer_to_initializer: TransferCheckedOp,
    pub transfer_to_taker: TransferCheckedOp,
    pub close_vault: CloseOp,
}

/// What `exchange` returns and changes, as a function of the record, the
/// supplied accounts and the authority re-derivation check result.
pub open spec fn spec_exchange(state: EscrowState, acc: Exchange, authority_ok: bool) -> Result<
    (Exchange, ExchangeSettlement),
    EscrowError,
> {
    if !acc.taker_signed {
        Err(EscrowError::Unauthorized)
    } else if !authority_ok {
        Err(EscrowError::AddressMismatch)
    } else if acc.taker_deposit_token_account.balance < state.taker_amount
        || acc.vault.balance < state.initializer_amount {
        Err(EscrowError::InsufficientFunds)
    } else if !(acc.initializer_deposit_token_account.addr@
        == state.initializer_deposit_token_account@
        && acc.initializer_receive_token_account.addr@
        == state.initializer_receive_token_account@ && acc.initializer@
        == state.initializer_key@) {
        Err(EscrowError::AddressMismatch)
    } else {
        Ok(
            (
                Exchange {
                    taker_deposit_token_account: AssetAccount {
                        addr: acc.taker_deposit_token_account.addr,
                        balance: (acc.taker_deposit_token_account.balance
                            - state.taker_amount) as u64,
                    },
                    initializer_receive_token_account: AssetAccount {
                        addr: acc.initializer_receive_token_account.addr,
                        balance: (acc.initializer_receive_token_account.balance
                            + state.taker_amount) as u64,
                    },
                    taker_receive_token_account: AssetAccount {
                        addr: acc.taker_receive_token_account.addr,
                        balance: (acc.taker_receive_token_account.balance
                            + state.initializer_amount) as u64,
                    },
                    vault: AssetAccount {
                        addr: acc.vault.addr,
                        balance: (acc.vault.balance - state.initializer_amount) as u64,
                    },
                    ..acc
                },
                ExchangeSettlement {
                    transfer_to_initializer: TransferCheckedOp {
                        from: acc.taker_deposit_token_account.addr,
                        mint: acc.taker_deposit_token_mint,
                        to: acc.initializer_receive_token_account.addr,
                        authority: Authority::User(acc.taker),
                    },
                    transfer_to_taker: TransferCheckedOp {
                        from: acc.vault.addr,
                        mint: acc.initializer_deposit_token_mint,
                        to: acc.taker_receive_token_account.addr,
                        authority: Authority::Derived(
                            DerivedAuthority {
                                address: acc.vault_authority,
                                bump: state.vault_authority_bump,
                            },
                        ),
                    },
                    close_vault: CloseOp {
                        account: acc.vault.addr,
                        destination: acc.initializer,
                        authority: Authority::Derived(
                            DerivedAuthority {
                                address: acc.vault_authority,
                                bump: state.vault_authority_bump,
                            },
                        ),
                    },
                },
            ),
        )
    }
}

/// Settles the escrow: any signer pays the recorded taker amount from their
/// token account to the initializer's receive account, receives the vault's
/// recorded deposit under the derived authority credential, and the emptied
/// vault is closed. Settlement validates, in order, the signature, the
/// authority re-derivation, both balances, and that the supplied accounts
/// and initializer are those recorded. On success the caller issues the three
/// operations and destroys the record; on failure nothing changes.
pub fn exchange(program: &Address, state: &EscrowState, acc: &mut Exchange) -> (r: Result<
    ExchangeSettlement,
    EscrowError,
>)
    requires
        old(acc).initializer_receive_token_account.balance + state.taker_amount <= u64::MAX,
        old(acc).taker_receive_token_account.balance + state.initializer_amount <= u64::MAX,
    ensures
        ({
            let s = spec_exchange(
                *state,
                *old(acc),
                spec_check_derived(
                    authority_tag(),
                    Seq::empty(),
                    state.vault_authority_bump,
                    program@,
                    old(acc).vault_authority@,
                ),
            );
            &&& (r is Ok <==> s is Ok)
            &&& (r is Ok ==> r.unwrap() == s.unwrap().1 && *final(acc) == s.unwrap().0)
            &&& (r is Err ==> r.unwrap_err() == s.unwrap_err() && *final(acc) == *old(acc))
        }),
{
    if !acc.taker_signed {
        return Err(EscrowError::Unauthorized);
    }
    let authority_t = authority_tag_vec();
    let authority_seeds: Vec<Vec<u8>> = Vec::new();
    proof {
        assert(crate::addr::seeds_view(authority_seeds@) =~= Seq::<Seq<u8>>::empty());
    }
    let authority_ok = check_derived(
        &authority_t,
        &authority_seeds,
        state.vault_authority_bump,
        program,
        &acc.vault_authority,
    );
    if !authority_ok {
        return Err(EscrowError::AddressMismatch);
    }
    if acc.taker_deposit_token_account.balance < state.taker_amount || acc.vault.balance
        < state.initializer_amount {
        return Err(EscrowError::InsufficientFunds);
    }
    if !(acc.initializer_deposit_token_account.addr == state.initializer_deposit_token_account
        && acc.initializer_receive_token_account.addr == state.initializer_receive_token_account
        && acc.initializer == state.initializer_key) {
        return Err(EscrowError::AddressMismatch);
    }
    let settlement = ExchangeSettlement {
        transfer_to_initializer: acc.into_transfer_to_initializer_context(),
        transfer_to_taker: acc.into_transfer_to_taker_context(state.vault_authority_bump),
        close_vault: acc.into_close_context(state.vault_authority_bump),
    };
    acc.taker_deposit_token_account.balance = acc.taker_deposit_token_account.balance
        - state.taker_amount;
    acc.initializer_receive_token_account.balance = acc.initializer_receive_token_account.balance
        + state.taker_amount;
    acc.taker_receive_token_account.balance = acc.taker_receive_token_account.balance
        + state.initializer_amount;
    acc.vault.balance = acc.vault.balance - state.initializer_amount;
    Ok(settlement)
}

} // verus!

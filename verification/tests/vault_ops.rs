use custody_core::Address;
use custody_core::ledger::{AssetAccount, Authority};
use custody_core::vault::{
    deposit, deposit_spl, initialize, withdraw, withdraw_spl, Deposit, DepositSPL, Errors,
    Initialize, Vault, Withdraw, WithdrawSPL,
};

fn addr(b: u8) -> Address {
    Address { bytes: [b; 32] }
}

fn program() -> Address {
    addr(7)
}

/// The two derived addresses of a vault record: the authority chained off the
/// record address, the vault chained off the authority.
fn derived_pair(vault_state: &Address) -> (Address, Address, u8, u8) {
    let (auth, auth_bump) = custody_core::addr::derive(
        &b"auth".to_vec(),
        &vec![vault_state.bytes.to_vec()],
        &program(),
    )
    .unwrap();
    let (vault, vault_bump) = custody_core::addr::derive(
        &b"vault".to_vec(),
        &vec![auth.bytes.to_vec()],
        &program(),
    )
    .unwrap();
    (auth, vault, auth_bump, vault_bump)
}

fn fresh_record() -> (Vault, Address, Address, Address) {
    let owner = addr(1);
    let vault_state = addr(2);
    let (auth, vault, _, _) = derived_pair(&vault_state);
    let ix = Initialize {
        owner,
        owner_signed: true,
        vault_state,
        vault_auth: auth,
        vault,
    };
    let state = initialize(&program(), &ix).unwrap();
    (state, vault_state, auth, vault)
}

#[test]
fn initialize_records_owner_and_bumps() {
    let vault_state = addr(2);
    let (auth, vault, auth_bump, vault_bump) = derived_pair(&vault_state);
    let ix = Initialize {
        owner: addr(1),
        owner_signed: true,
        vault_state,
        vault_auth: auth,
        vault,
    };
    let state = initialize(&program(), &ix).unwrap();
    assert_eq!(state.owner, addr(1));
    assert_eq!(state.auth_bump, auth_bump);
    assert_eq!(state.vault_bump, vault_bump);
    assert_eq!(state.score, 0);
}

#[test]
fn initialize_requires_signature() {
    let vault_state = addr(2);
    let (auth, vault, _, _) = derived_pair(&vault_state);
    let ix = Initialize {
        owner: addr(1),
        owner_signed: false,
        vault_state,
        vault_auth: auth,
        vault,
    };
    assert_eq!(initialize(&program(), &ix).unwrap_err(), Errors::Unauthorized);
}

#[test]
fn initialize_rejects_wrong_authority_address() {
    let vault_state = addr(2);
    let (_auth, vault, _, _) = derived_pair(&vault_state);
    let ix = Initialize {
        owner: addr(1),
        owner_signed: true,
        vault_state,
        vault_auth: addr(9),
        vault,
    };
    assert_eq!(initialize(&program(), &ix).unwrap_err(), Errors::AddressMismatch);
}

#[test]
fn deposit_moves_balance_into_vault() {
    let (mut state, vault_state, auth, vault) = fresh_record();
    let mut ix = Deposit {
        owner: AssetAccount { addr: addr(1), balance: 300 },
        owner_signed: true,
        vault_state,
        vault_auth: auth,
        vault: AssetAccount { addr: vault, balance: 0 },
    };
    let op = deposit(&program(), &mut state, &mut ix, 120).unwrap();
    assert_eq!(ix.owner.balance, 180);
    assert_eq!(ix.vault.balance, 120);
    assert_eq!(state.score, 1);
    assert_eq!(op.from, addr(1));
    assert_eq!(op.to, vault);
    assert_eq!(op.amount, 120);
    assert!(matches!(op.authority, Authority::User(a) if a == addr(1)));
}

#[test]
fn withdraw_returns_balance_to_owner() {
    let (mut state, vault_state, auth, vault) = fresh_record();
    let mut ix = Withdraw {
        owner: AssetAccount { addr: addr(1), balance: 180 },
        owner_signed: true,
        vault_state,
        vault_auth: auth,
        vault: AssetAccount { addr: vault, balance: 120 },
    };
    let op = withdraw(&program(), &mut state, &mut ix, 50).unwrap();
    assert_eq!(ix.owner.balance, 230);
    assert_eq!(ix.vault.balance, 70);
    assert_eq!(state.score, 2);
    assert_eq!(op.from, vault);
    assert_eq!(op.to, addr(1));
    assert_eq!(op.amount, 50);
    match op.authority {
        Authority::Derived(cred) => {
            assert_eq!(cred.address, vault);
            assert_eq!(cred.bump, state.vault_bump);
        }
        Authority::User(_) => panic!("withdrawal must be signed by the derived credential"),
    }
}

#[test]
fn withdraw_rejects_insufficient_funds_and_changes_nothing() {
    let (mut state, vault_state, auth, vault) = fresh_record();
    let mut ix = Withdraw {
        owner: AssetAccount { addr: addr(1), balance: 180 },
        owner_signed: true,
        vault_state,
        vault_auth: auth,
        vault: AssetAccount { addr: vault, balance: 120 },
    };
    let r = withdraw(&program(), &mut state, &mut ix, 121);
    assert_eq!(r.unwrap_err(), Errors::InsufficientFunds);
    assert_eq!(ix.owner.balance, 180);
    assert_eq!(ix.vault.balance, 120);
    assert_eq!(state.score, 0);
}

#[test]
fn withdraw_rejects_foreign_signer() {
    let (mut state, vault_state, auth, vault) = fresh_record();
    let mut ix = Withdraw {
        owner: AssetAccount { addr: addr(8), balance: 0 },
        owner_signed: true,
        vault_state,
        vault_auth: auth,
        vault: AssetAccount { addr: vault, balance: 120 },
    };
    assert_eq!(
        withdraw(&program(), &mut state, &mut ix, 10).unwrap_err(),
        Errors::Unauthorized
    );
    assert_eq!(ix.vault.balance, 120);
}

#[test]
fn deposit_spl_moves_token_balance() {
    let (mut state, vault_state, auth, _vault) = fresh_record();
    let mut ix = DepositSPL {
        owner: addr(1),
        owner_signed: true,
        vault_state,
        vault_auth: auth,
        owner_ata: AssetAccount { addr: addr(11), balance: 40 },
        vault_ata: AssetAccount { addr: addr(12), balance: 5 },
    };
    let op = deposit_spl(&program(), &mut state, &mut ix, 40).unwrap();
    assert_eq!(ix.owner_ata.balance, 0);
    assert_eq!(ix.vault_ata.balance, 45);
    assert_eq!(state.score, 3);
    assert_eq!(op.from, addr(11));
    assert_eq!(op.to, addr(12));
}

#[test]
fn withdraw_spl_uses_authority_credential() {
    let (mut state, vault_state, auth, _vault) = fresh_record();
    let mut ix = WithdrawSPL {
        owner: addr(1),
        owner_signed: true,
        vault_state,
        vault_auth: auth,
        owner_ata: AssetAccount { addr: addr(11), balance: 0 },
        vault_ata: AssetAccount { addr: addr(12), balance: 45 },
    };
    let op = withdraw_spl(&program(), &mut state, &mut ix, 45).unwrap();
    assert_eq!(ix.owner_ata.balance, 45);
    assert_eq!(ix.vault_ata.balance, 0);
    assert_eq!(state.score, 4);
    match op.authority {
        Authority::Derived(cred) => {
            assert_eq!(cred.address, auth);
            assert_eq!(cred.bump, state.auth_bump);
        }
        Authority::User(_) => panic!("token withdrawal must be signed by the derived credential"),
    }
}

#[test]
fn withdraw_spl_rejects_insufficient_funds() {
    let (mut state, vault_state, auth, _vault) = fresh_record();
    let mut ix = WithdrawSPL {
        owner: addr(1),
        owner_signed: true,
        vault_state,
        vault_auth: auth,
        owner_ata: AssetAccount { addr: addr(11), balance: 0 },
        vault_ata: AssetAccount { addr: addr(12), balance: 45 },
    };
    assert_eq!(
        withdraw_spl(&program(), &mut state, &mut ix, 46).unwrap_err(),
        Errors::InsufficientFunds
    );
    assert_eq!(ix.vault_ata.balance, 45);
}

use custody_core::Address;
use custody_core::errors::EscrowError;
use custody_core::exchange::{
    cancel, exchange, initialize, Cancel, EscrowState, Exchange, Initialize,
};
use custody_core::ledger::{AssetAccount, Authority};

fn addr(b: u8) -> Address {
    Address { bytes: [b; 32] }
}

fn program() -> Address {
    addr(7)
}

fn derived_authority() -> Address {
    custody_core::addr::derive(&b"authority".to_vec(), &vec![], &program()).unwrap().0
}

fn derived_state(seed: u64) -> Address {
    custody_core::addr::derive(
        &b"state".to_vec(),
        &vec![seed.to_le_bytes().to_vec()],
        &program(),
    )
    .unwrap()
    .0
}

fn initialized(seed: u64) -> (EscrowState, Initialize) {
    let mut acc = Initialize {
        initializer: addr(1),
        initializer_signed: true,
        mint: addr(2),
        vault_authority: derived_authority(),
        vault: AssetAccount { addr: addr(3), balance: 0 },
        initializer_deposit_token_account: AssetAccount { addr: addr(4), balance: 500 },
        initializer_receive_token_account: addr(5),
        escrow_state: derived_state(seed),
    };
    let (state, _op) = initialize(&program(), &mut acc, seed, 100, 50).unwrap();
    (state, acc)
}

#[test]
fn space_counts_the_record_layout() {
    assert_eq!(EscrowState::space(), 129);
}

#[test]
fn initialize_records_terms_and_locks_deposit() {
    let (state, acc) = initialized(5);
    assert_eq!(state.random_seed, 5);
    assert_eq!(state.initializer_key, addr(1));
    assert_eq!(state.initializer_deposit_token_account, addr(4));
    assert_eq!(state.initializer_receive_token_account, addr(5));
    assert_eq!(state.initializer_amount, 100);
    assert_eq!(state.taker_amount, 50);
    assert_eq!(acc.initializer_deposit_token_account.balance, 400);
    assert_eq!(acc.vault.balance, 100);
}

#[test]
fn initialize_emits_user_signed_deposit_transfer() {
    let mut acc = Initialize {
        initializer: addr(1),
        initializer_signed: true,
        mint: addr(2),
        vault_authority: derived_authority(),
        vault: AssetAccount { addr: addr(3), balance: 0 },
        initializer_deposit_token_account: AssetAccount { addr: addr(4), balance: 500 },
        initializer_receive_token_account: addr(5),
        escrow_state: derived_state(5),
    };
    let (_state, op) = initialize(&program(), &mut acc, 5, 100, 50).unwrap();
    assert_eq!(op.from, addr(4));
    assert_eq!(op.mint, addr(2));
    assert_eq!(op.to, addr(3));
    assert!(matches!(op.authority, Authority::User(a) if a == addr(1)));
}

#[test]
fn initialize_rejects_underfunded_deposit_account() {
    let mut acc = Initialize {
        initializer: addr(1),
        initializer_signed: true,
        mint: addr(2),
        vault_authority: derived_authority(),
        vault: AssetAccount { addr: addr(3), balance: 0 },
        initializer_deposit_token_account: AssetAccount { addr: addr(4), balance: 99 },
        initializer_receive_token_account: addr(5),
        escrow_state: derived_state(5),
    };
    assert_eq!(
        initialize(&program(), &mut acc, 5, 100, 50).unwrap_err(),
        EscrowError::InsufficientFunds
    );
    assert_eq!(acc.initializer_deposit_token_account.balance, 99);
}

#[test]
fn initialize_rejects_wrong_state_address() {
    let mut acc = Initialize {
        initializer: addr(1),
        initializer_signed: true,
        mint: addr(2),
        vault_authority: derived_authority(),
        vault: AssetAccount { addr: addr(3), balance: 0 },
        initializer_deposit_token_account: AssetAccount { addr: addr(4), balance: 500 },
        initializer_receive_token_account: addr(5),
        escrow_state: addr(9),
    };
    assert_eq!(
        initialize(&program(), &mut acc, 5, 100, 50).unwrap_err(),
        EscrowError::AddressMismatch
    );
}

#[test]
fn cancel_returns_deposit_and_closes_vault() {
    let (state, acc) = initialized(5);
    let mut cacc = Cancel {
        initializer: addr(1),
        initializer_signed: true,
        mint: addr(2),
        vault: acc.vault,
        vault_authority: acc.vault_authority,
        initializer_deposit_token_account: acc.initializer_deposit_token_account,
        escrow_state: acc.escrow_state,
    };
    let settlement = cancel(&program(), &state, &mut cacc).unwrap();
    assert_eq!(cacc.initializer_deposit_token_account.balance, 500);
    assert_eq!(cacc.vault.balance, 0);
    assert_eq!(settlement.transfer_to_initializer.from, addr(3));
    assert_eq!(settlement.transfer_to_initializer.to, addr(4));
    assert_eq!(settlement.close_vault.account, addr(3));
    assert_eq!(settlement.close_vault.destination, addr(1));
    match settlement.transfer_to_initializer.authority {
        Authority::Derived(cred) => {
            assert_eq!(cred.address, acc.vault_authority);
            assert_eq!(cred.bump, state.vault_authority_bump);
        }
        Authority::User(_) => panic!("refund must be signed by the derived credential"),
    }
}

#[test]
fn cancel_rejects_foreign_initializer() {
    let (state, acc) = initialized(5);
    let mut cacc = Cancel {
        initializer: addr(8),
        initializer_signed: true,
        mint: addr(2),
        vault: acc.vault,
        vault_authority: acc.vault_authority,
        initializer_deposit_token_account: acc.initializer_deposit_token_account,
        escrow_state: acc.escrow_state,
    };
    assert_eq!(
        cancel(&program(), &state, &mut cacc).unwrap_err(),
        EscrowError::Unauthorized
    );
    assert_eq!(cacc.vault.balance, 100);
}

#[test]
fn cancel_rejects_substituted_deposit_account() {
    let (state, acc) = initialized(5);
    let mut cacc = Cancel {
        initializer: addr(1),
        initializer_signed: true,
        mint: addr(2),
        vault: acc.vault,
        vault_authority: acc.vault_authority,
        initializer_deposit_token_account: AssetAccount { addr: addr(9), balance: 0 },
        escrow_state: acc.escrow_state,
    };
    assert_eq!(
        cancel(&program(), &state, &mut cacc).unwrap_err(),
        EscrowError::AddressMismatch
    );
}

fn exchange_accounts(state: &EscrowState, acc: &Initialize) -> Exchange {
    Exchange {
        taker: addr(6),
        taker_signed: true,
        initializer: addr(1),
        initializer_deposit_token_mint: addr(2),
        taker_deposit_token_mint: addr(10),
        taker_deposit_token_account: AssetAccount { addr: addr(11), balance: 80 },
        taker_receive_token_account: AssetAccount { addr: addr(12), balance: 0 },
        initializer_deposit_token_account: AssetAccount {
            addr: state.initializer_deposit_token_account,
            balance: acc.initializer_deposit_token_account.balance,
        },
        initializer_receive_token_account: AssetAccount { addr: addr(5), balance: 7 },
        escrow_state: acc.escrow_state,
        vault: acc.vault,
        vault_authority: acc.vault_authority,
    }
}

#[test]
fn exchange_settles_both_transfers_and_closes_vault() {
    let (state, acc) = initialized(5);
    let mut eacc = exchange_accounts(&state, &acc);
    let settlement = exchange(&program(), &state, &mut eacc).unwrap();
    assert_eq!(eacc.taker_deposit_token_account.balance, 30);
    assert_eq!(eacc.initializer_receive_token_account.balance, 57);
    assert_eq!(eacc.taker_receive_token_account.balance, 100);
    assert_eq!(eacc.vault.balance, 0);
    assert_eq!(settlement.transfer_to_initializer.from, addr(11));
    assert_eq!(settlement.transfer_to_initializer.to, addr(5));
    assert_eq!(settlement.transfer_to_initializer.mint, addr(10));
    assert_eq!(settlement.transfer_to_taker.from, addr(3));
    assert_eq!(settlement.transfer_to_taker.to, addr(12));
    assert_eq!(settlement.transfer_to_taker.mint, addr(2));
    assert_eq!(settlement.close_vault.destination, addr(1));
}

#[test]
fn exchange_rejects_underfunded_taker() {
    let (state, acc) = initialized(5);
    let mut eacc = exchange_accounts(&state, &acc);
    eacc.taker_deposit_token_account.balance = 49;
    assert_eq!(
        exchange(&program(), &state, &mut eacc).unwrap_err(),
        EscrowError::InsufficientFunds
    );
    assert_eq!(eacc.vault.balance, 100);
}

#[test]
fn exchange_rejects_substituted_initializer_accounts() {
    let (state, acc) = initialized(5);
    let mut eacc = exchange_accounts(&state, &acc);
    eacc.initializer_receive_token_account.addr = addr(9);
    assert_eq!(
        exchange(&program(), &state, &mut eacc).unwrap_err(),
        EscrowError::AddressMismatch
    );
}

#[test]
fn exchange_rejects_unsigned_taker() {
    let (state, acc) = initialized(5);
    let mut eacc = exchange_accounts(&state, &acc);
    eacc.taker_signed = false;
    assert_eq!(
        exchange(&program(), &state, &mut eacc).unwrap_err(),
        EscrowError::Unauthorized
    );
}

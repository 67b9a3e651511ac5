use custody_core::Address;
use custody_core::addr::{check_derived, u64_le_bytes};

fn addr(b: u8) -> Address {
    Address { bytes: [b; 32] }
}

#[test]
fn derive_is_deterministic() {
    let program = addr(7);
    let tag: Vec<u8> = b"auth".to_vec();
    let seeds: Vec<Vec<u8>> = vec![vec![1, 2, 3]];
    let first = custody_core::addr::derive(&tag, &seeds, &program).unwrap();
    let second = custody_core::addr::derive(&tag, &seeds, &program).unwrap();
    assert_eq!(first.0, second.0);
    assert_eq!(first.1, second.1);
}

#[test]
fn derive_matches_external_derivation() {
    let program = addr(7);
    let tag: Vec<u8> = b"auth".to_vec();
    let seeds: Vec<Vec<u8>> = vec![addr(1).bytes.to_vec()];
    let (a, bump) = custody_core::addr::derive(&tag, &seeds, &program).unwrap();
    let program_pk = anchor_lang::prelude::Pubkey::new_from_array([7; 32]);
    let (pk, pk_bump) = anchor_lang::prelude::Pubkey::find_program_address(
        &[b"auth", &[1; 32]],
        &program_pk,
    );
    assert_eq!(a.bytes, pk.to_bytes());
    assert_eq!(bump, pk_bump);
}

#[test]
fn derived_address_passes_rederivation_check() {
    let program = addr(7);
    let tag: Vec<u8> = b"vault".to_vec();
    let seeds: Vec<Vec<u8>> = vec![addr(2).bytes.to_vec()];
    let (a, bump) = custody_core::addr::derive(&tag, &seeds, &program).unwrap();
    assert!(check_derived(&tag, &seeds, bump, &program, &a));
}

#[test]
fn wrong_address_fails_rederivation_check() {
    let program = addr(7);
    let tag: Vec<u8> = b"vault".to_vec();
    let seeds: Vec<Vec<u8>> = vec![addr(2).bytes.to_vec()];
    let (a, bump) = custody_core::addr::derive(&tag, &seeds, &program).unwrap();
    let mut wrong = a;
    wrong.bytes[0] = wrong.bytes[0].wrapping_add(1);
    assert!(!check_derived(&tag, &seeds, bump, &program, &wrong));
}

#[test]
fn wrong_bump_fails_rederivation_check() {
    let program = addr(7);
    let tag: Vec<u8> = b"escrow".to_vec();
    let seeds: Vec<Vec<u8>> = vec![addr(3).bytes.to_vec(), 5u64.to_le_bytes().to_vec()];
    let (a, bump) = custody_core::addr::derive(&tag, &seeds, &program).unwrap();
    assert!(!check_derived(&tag, &seeds, bump.wrapping_sub(1), &program, &a));
}

#[test]
fn derive_fails_on_oversized_seed_list() {
    let program = addr(7);
    let tag: Vec<u8> = b"auth".to_vec();
    let seeds: Vec<Vec<u8>> = (0..15).map(|i: u8| vec![i]).collect();
    assert!(custody_core::addr::derive(&tag, &seeds, &program).is_none());
}

#[test]
fn u64_le_bytes_is_little_endian() {
    let bytes = u64_le_bytes(0x0102030405060708);
    assert_eq!(bytes, vec![8, 7, 6, 5, 4, 3, 2, 1]);
    assert_eq!(u64_le_bytes(5), 5u64.to_le_bytes().to_vec());
}

#[test]
fn address_equality_compares_bytes() {
    assert_eq!(addr(1), addr(1));
    assert_ne!(addr(1), addr(2));
    let mut nearly = addr(1);
    nearly.bytes[31] = 9;
    assert_ne!(addr(1), nearly);
}

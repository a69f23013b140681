//! The deterministic address derivations.

use escrow::pda::{
    create_escrow_address, derive_associated_token_address, find_escrow_address,
};

fn key(n: u8) -> [u8; 32] {
    let mut k = [0u8; 32];
    k[0] = n;
    k[31] = n;
    k
}

#[test]
fn derivation_is_deterministic() {
    let maker = key(1);
    let first = find_escrow_address(&maker, 42).unwrap();
    let second = find_escrow_address(&maker, 42).unwrap();
    assert_eq!(first, second);
}

#[test]
fn derivation_revalidates_with_stored_bump() {
    let maker = key(1);
    let (addr, bump) = find_escrow_address(&maker, 42).unwrap();
    assert_eq!(create_escrow_address(&maker, 42, bump), Some(addr));
    assert_ne!(addr, maker);
}

#[test]
fn distinct_seeds_give_distinct_addresses() {
    let maker = key(1);
    let (a42, _) = find_escrow_address(&maker, 42).unwrap();
    let (a43, _) = find_escrow_address(&maker, 43).unwrap();
    let (a44, _) = find_escrow_address(&maker, 44).unwrap();
    assert_ne!(a42, a43);
    assert_ne!(a42, a44);
    assert_ne!(a43, a44);
}

#[test]
fn distinct_makers_give_distinct_addresses() {
    let (a1, _) = find_escrow_address(&key(1), 42).unwrap();
    let (a2, _) = find_escrow_address(&key(2), 42).unwrap();
    assert_ne!(a1, a2);
}

#[test]
fn associated_account_derivation_distinguishes_pairs() {
    let owner1 = key(1);
    let owner2 = key(2);
    let mint1 = key(10);
    let mint2 = key(11);
    let a11 = derive_associated_token_address(&owner1, &mint1).unwrap();
    let a12 = derive_associated_token_address(&owner1, &mint2).unwrap();
    let a21 = derive_associated_token_address(&owner2, &mint1).unwrap();
    assert_ne!(a11, a12);
    assert_ne!(a11, a21);
    assert_eq!(a11, derive_associated_token_address(&owner1, &mint1).unwrap());
    assert_ne!(a11, owner1);
    assert_ne!(a11, mint1);
}

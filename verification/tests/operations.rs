//! End-to-end scenarios for the two operations, run over the account model.

use escrow::accounts::AccountState;
use escrow::error::EscrowError;
use escrow::ids::{ata_program_id, program_id, system_program_id, token_program_id};
use escrow::pda::{derive_associated_token_address, find_escrow_address};
use escrow::process::process_request;
use escrow::state::Escrow;

const SEED: u64 = 42;
const RECEIVE_AMOUNT: u64 = 100_000_000;
const GIVE_AMOUNT: u64 = 500_000_000;
const LAMPORTS_PER_SOL: u64 = 1_000_000_000;
const RECORD_DEPOSIT: u64 = (128 + 113) * 6960;
const TOKEN_DEPOSIT: u64 = (128 + 165) * 6960;

fn key(n: u8) -> [u8; 32] {
    let mut k = [0u8; 32];
    k[0] = n;
    k[31] = n;
    k
}

fn wallet(k: [u8; 32], lamports: u64, signer: bool) -> AccountState {
    AccountState {
        key: k,
        owner: system_program_id(),
        is_signer: signer,
        lamports,
        data: Vec::new(),
    }
}

fn absent(k: [u8; 32]) -> AccountState {
    AccountState {
        key: k,
        owner: system_program_id(),
        is_signer: false,
        lamports: 0,
        data: Vec::new(),
    }
}

fn mint(k: [u8; 32]) -> AccountState {
    AccountState {
        key: k,
        owner: token_program_id(),
        is_signer: false,
        lamports: 1_000_000,
        data: vec![0u8; 82],
    }
}

fn token_account(k: [u8; 32], mint_key: [u8; 32], owner_key: [u8; 32], amount: u64) -> AccountState {
    let mut data = vec![0u8; 165];
    data[0..32].copy_from_slice(&mint_key);
    data[32..64].copy_from_slice(&owner_key);
    data[64..72].copy_from_slice(&amount.to_le_bytes());
    data[108] = 1;
    AccountState {
        key: k,
        owner: token_program_id(),
        is_signer: false,
        lamports: TOKEN_DEPOSIT,
        data,
    }
}

fn balance(acc: &AccountState) -> u64 {
    u64::from_le_bytes(acc.data[64..72].try_into().unwrap())
}

fn payload(seed: u64, receive: u64, amount: u64) -> Vec<u8> {
    let mut p = vec![0u8];
    p.extend_from_slice(&seed.to_le_bytes());
    p.extend_from_slice(&receive.to_le_bytes());
    p.extend_from_slice(&amount.to_le_bytes());
    p
}

/// The nine Open-Trade accounts for a fresh maker with one funded token
/// account of the offered mint.
fn make_accounts() -> Vec<AccountState> {
    let maker_key = key(1);
    let mint_a_key = key(10);
    let mint_b_key = key(11);
    let maker = wallet(maker_key, LAMPORTS_PER_SOL, true);
    let maker_ata_a = token_account(
        derive_associated_token_address(&maker_key, &mint_a_key).unwrap(),
        mint_a_key,
        maker_key,
        1_000_000_000,
    );
    let (escrow_key, _) = find_escrow_address(&maker_key, SEED).unwrap();
    let vault_key = derive_associated_token_address(&escrow_key, &mint_a_key).unwrap();
    vec![
        maker,
        absent(escrow_key),
        mint(mint_a_key),
        mint(mint_b_key),
        maker_ata_a,
        absent(vault_key),
        wallet(system_program_id(), 1, false),
        wallet(token_program_id(), 1, false),
        wallet(ata_program_id(), 1, false),
    ]
}

/// The twelve Settle-Trade accounts continuing from a successful Open-Trade,
/// with a taker holding `taker_b_amount` of the wanted mint.
fn take_accounts(opened: &[AccountState], taker_b_amount: u64) -> Vec<AccountState> {
    let taker_key = key(2);
    let maker_key = opened[0].key;
    let mint_a_key = opened[2].key;
    let mint_b_key = opened[3].key;
    let taker = wallet(taker_key, LAMPORTS_PER_SOL, true);
    let taker_ata_a = absent(derive_associated_token_address(&taker_key, &mint_a_key).unwrap());
    let taker_ata_b = token_account(
        derive_associated_token_address(&taker_key, &mint_b_key).unwrap(),
        mint_b_key,
        taker_key,
        taker_b_amount,
    );
    let maker_ata_b = absent(derive_associated_token_address(&maker_key, &mint_b_key).unwrap());
    vec![
        taker,
        opened[0].duplicate(),
        opened[1].duplicate(),
        opened[2].duplicate(),
        opened[3].duplicate(),
        opened[5].duplicate(),
        taker_ata_a,
        taker_ata_b,
        maker_ata_b,
        wallet(system_program_id(), 1, false),
        wallet(token_program_id(), 1, false),
        wallet(ata_program_id(), 1, false),
    ]
}

#[test]
fn make() {
    let accounts = make_accounts();
    let data = payload(SEED, RECEIVE_AMOUNT, GIVE_AMOUNT);
    let out = process_request(&accounts, &data).unwrap();

    let escrow = Escrow::load(&out[1].data).unwrap();
    assert_eq!(escrow.seed, SEED);
    assert_eq!(escrow.maker, accounts[0].key);
    assert_eq!(escrow.mint_a, accounts[2].key);
    assert_eq!(escrow.mint_b, accounts[3].key);
    assert_eq!(escrow.receive, RECEIVE_AMOUNT);
}

#[test]
fn take() {
    let opened = process_request(&make_accounts(), &payload(SEED, RECEIVE_AMOUNT, GIVE_AMOUNT))
        .unwrap();
    let accounts = take_accounts(&opened, 1_000_000_000);
    let pre_taker_ata_a_bal = 0u64;
    let pre_maker_ata_b_bal = 0u64;

    let out = process_request(&accounts, &[1u8]).unwrap();

    assert_eq!(out[2].owner, system_program_id());
    assert_eq!(out[2].data.len(), 0);
    assert_eq!(out[5].owner, system_program_id());
    assert_eq!(out[5].data.len(), 0);
    let post_maker_ata_b_bal = balance(&out[8]);
    assert_eq!(pre_maker_ata_b_bal, post_maker_ata_b_bal - RECEIVE_AMOUNT);
    let post_taker_ata_a_bal = balance(&out[6]);
    assert_eq!(pre_taker_ata_a_bal, post_taker_ata_a_bal - GIVE_AMOUNT);
}

#[test]
fn creation_populates_record_and_vault() {
    let accounts = make_accounts();
    let out = process_request(&accounts, &payload(SEED, RECEIVE_AMOUNT, GIVE_AMOUNT)).unwrap();
    assert_eq!(balance(&out[5]), GIVE_AMOUNT);
    assert_eq!(balance(&out[4]), 1_000_000_000 - GIVE_AMOUNT);
    assert_eq!(out[1].owner, program_id());
    assert_eq!(out[1].lamports, RECORD_DEPOSIT);
    assert_eq!(out[5].lamports, TOKEN_DEPOSIT);
    assert_eq!(
        out[0].lamports,
        LAMPORTS_PER_SOL - RECORD_DEPOSIT - TOKEN_DEPOSIT
    );
}

#[test]
fn zero_deposit_is_rejected() {
    let accounts = make_accounts();
    assert_eq!(process_request(&accounts, &payload(SEED, RECEIVE_AMOUNT, 0)).unwrap_err(), EscrowError::InvalidInstructionData);
}

#[test]
fn wrong_payload_length_is_rejected() {
    let accounts = make_accounts();
    let mut data = payload(SEED, RECEIVE_AMOUNT, GIVE_AMOUNT);
    data.pop();
    assert_eq!(process_request(&accounts, &data).unwrap_err(), EscrowError::InvalidInstructionData);
    let full = payload(SEED, RECEIVE_AMOUNT, GIVE_AMOUNT);
    let mut long = full.clone();
    long.push(0);
    assert_eq!(process_request(&accounts, &long).unwrap_err(), EscrowError::InvalidInstructionData);
}

#[test]
fn settlement_requires_matching_derivation() {
    let opened = process_request(&make_accounts(), &payload(SEED, RECEIVE_AMOUNT, GIVE_AMOUNT))
        .unwrap();
    let mut accounts = take_accounts(&opened, 1_000_000_000);
    // Present a program-owned record at a different address, with the vault
    // moved to that address's canonical token account so that only the
    // derivation check can object.
    let fake_key = key(77);
    accounts[2].key = fake_key;
    accounts[5].key =
        derive_associated_token_address(&fake_key, &accounts[3].key).unwrap();
    let pre_vault_balance = balance(&accounts[5]);
    assert_eq!(process_request(&accounts, &[1u8]).unwrap_err(), EscrowError::InvalidAccountOwner);
    assert_eq!(balance(&accounts[5]), pre_vault_balance);
}

#[test]
fn settlement_round_trip_returns_deposits() {
    let opened = process_request(&make_accounts(), &payload(SEED, RECEIVE_AMOUNT, GIVE_AMOUNT))
        .unwrap();
    let accounts = take_accounts(&opened, 1_000_000_000);
    let out = process_request(&accounts, &[1u8]).unwrap();
    assert_eq!(
        out[1].lamports,
        accounts[1].lamports + RECORD_DEPOSIT + TOKEN_DEPOSIT
    );
    assert_eq!(balance(&out[7]), 1_000_000_000 - RECEIVE_AMOUNT);
    assert_eq!(
        out[0].lamports,
        LAMPORTS_PER_SOL - 2 * TOKEN_DEPOSIT
    );
}

#[test]
fn settlement_with_existing_receiving_accounts() {
    let opened = process_request(&make_accounts(), &payload(SEED, RECEIVE_AMOUNT, GIVE_AMOUNT))
        .unwrap();
    let mut accounts = take_accounts(&opened, 1_000_000_000);
    let taker_key = accounts[0].key;
    let maker_key = accounts[1].key;
    let mint_a_key = accounts[3].key;
    let mint_b_key = accounts[4].key;
    accounts[6] = token_account(
        derive_associated_token_address(&taker_key, &mint_a_key).unwrap(),
        mint_a_key,
        taker_key,
        7,
    );
    accounts[8] = token_account(
        derive_associated_token_address(&maker_key, &mint_b_key).unwrap(),
        mint_b_key,
        maker_key,
        3,
    );
    let out = process_request(&accounts, &[1u8]).unwrap();
    assert_eq!(balance(&out[6]), 7 + GIVE_AMOUNT);
    assert_eq!(balance(&out[8]), 3 + RECEIVE_AMOUNT);
    // Nothing had to be created, so the taker pays no storage deposit.
    assert_eq!(out[0].lamports, LAMPORTS_PER_SOL);
}

#[test]
fn settling_twice_fails() {
    let opened = process_request(&make_accounts(), &payload(SEED, RECEIVE_AMOUNT, GIVE_AMOUNT))
        .unwrap();
    let accounts = take_accounts(&opened, 1_000_000_000);
    let out = process_request(&accounts, &[1u8]).unwrap();
    assert_eq!(process_request(&out, &[1u8]).unwrap_err(), EscrowError::InvalidAccountOwner);
}

#[test]
fn short_taker_cannot_settle() {
    let opened = process_request(&make_accounts(), &payload(SEED, RECEIVE_AMOUNT, GIVE_AMOUNT))
        .unwrap();
    let accounts = take_accounts(&opened, RECEIVE_AMOUNT - 1);
    let pre_vault_balance = balance(&accounts[5]);
    assert_eq!(process_request(&accounts, &[1u8]).unwrap_err(), EscrowError::InsufficientFunds);
    // The operation is functional: a failing request hands back no new
    // states, so the supplied accounts stand exactly as before.
    assert_eq!(balance(&accounts[5]), pre_vault_balance);
    assert_eq!(balance(&accounts[7]), RECEIVE_AMOUNT - 1);
    let reloaded = Escrow::load(&accounts[2].data).unwrap();
    assert_eq!(reloaded.seed, SEED);
}

#[test]
fn reopening_an_open_trade_fails() {
    let opened = process_request(&make_accounts(), &payload(SEED, RECEIVE_AMOUNT, GIVE_AMOUNT))
        .unwrap();
    assert_eq!(process_request(&opened, &payload(SEED, RECEIVE_AMOUNT, GIVE_AMOUNT)).unwrap_err(), EscrowError::AccountAlreadyInUse);
}

#[test]
fn too_few_accounts_are_rejected() {
    let mut accounts = make_accounts();
    accounts.pop();
    assert_eq!(process_request(&accounts, &payload(SEED, RECEIVE_AMOUNT, GIVE_AMOUNT)).unwrap_err(), EscrowError::NotEnoughAccountKeys);
}

#[test]
fn unsigned_maker_is_rejected() {
    let mut accounts = make_accounts();
    accounts[0].is_signer = false;
    assert_eq!(process_request(&accounts, &payload(SEED, RECEIVE_AMOUNT, GIVE_AMOUNT)).unwrap_err(), EscrowError::MissingRequiredSignature);
}

#[test]
fn malformed_mint_is_rejected() {
    let mut accounts = make_accounts();
    accounts[2].data.pop();
    assert_eq!(process_request(&accounts, &payload(SEED, RECEIVE_AMOUNT, GIVE_AMOUNT)).unwrap_err(), EscrowError::InvalidAccountData);
}

#[test]
fn non_canonical_token_account_is_rejected() {
    let mut accounts = make_accounts();
    accounts[4].key = key(99);
    assert_eq!(process_request(&accounts, &payload(SEED, RECEIVE_AMOUNT, GIVE_AMOUNT)).unwrap_err(), EscrowError::InvalidAssociatedAccount);
}

#[test]
fn poor_maker_cannot_open() {
    let mut accounts = make_accounts();
    accounts[0].lamports = RECORD_DEPOSIT - 1;
    assert_eq!(process_request(&accounts, &payload(SEED, RECEIVE_AMOUNT, GIVE_AMOUNT)).unwrap_err(), EscrowError::InsufficientFunds);
}

#[test]
fn maker_short_of_tokens_cannot_open() {
    let accounts = make_accounts();
    assert_eq!(process_request(&accounts, &payload(SEED, RECEIVE_AMOUNT, 1_000_000_001)).unwrap_err(), EscrowError::InsufficientFunds);
}

#[test]
fn unknown_discriminator_is_rejected() {
    let accounts = make_accounts();
    assert_eq!(process_request(&accounts, &[2u8]).unwrap_err(), EscrowError::InvalidInstructionData);
    assert_eq!(process_request(&accounts, &[]).unwrap_err(), EscrowError::InvalidInstructionData);
}

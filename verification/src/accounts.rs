//! The account model, the validators that every operation runs before
//! mutating anything, and the effects of the external collaborators.
//!
//! All state a request can touch is carried in caller-supplied accounts, each
//! an address plus an owner program, a signer flag, a balance of lamports and
//! a raw data buffer. The validators are pure checks; the collaborator
//! operations (account creation, token transfer, account closure) are modeled
//! functionally: they return the new account values on success and leave
//! every input untouched on failure, mirroring the host's all-or-nothing
//! commit.

use vstd::prelude::*;

use vstd::bytes::{
    lemma_auto_spec_u64_to_from_le_bytes, spec_u64_from_le_bytes, spec_u64_to_le_bytes,
    u64_from_le_bytes, u64_to_le_bytes,
};
use vstd::slice::slice_to_vec;

use crate::error::EscrowError;
use crate::ids::{
    spec_program_id, spec_system_program_id, spec_token_program_id, program_id,
    system_program_id, token_program_id, MINT_LEN, TOKEN_ACCOUNT_LEN,
};
use crate::pda::{ata_derivation, derive_associated_token_address};

verus! {

broadcast use vstd::array::group_array_axioms;

/// One account as a request sees it: its address, the program that owns it,
/// whether it signed the request, its balance of lamports, and its raw data.
#[derive(Debug)]
pub struct AccountState {
    /// The account's address.
    pub key: [u8; 32],
    /// The program that owns (may mutate) the account.
    pub owner: [u8; 32],
    /// Whether this account authorized the current request.
    pub is_signer: bool,
    /// The account's balance of lamports (its storage deposit, for accounts
    /// that carry data).
    pub lamports: u64,
    /// The account's raw data buffer.
    pub data: Vec<u8>,
}

/// Two accounts hold the same observable state.
pub open spec fn acc_eqv(a: AccountState, b: AccountState) -> bool {
    &&& b.key == a.key
    &&& b.owner == a.owner
    &&& b.is_signer == a.is_signer
    &&& b.lamports == a.lamports
    &&& b.data@ == a.data@
}

impl AccountState {
    /// An independent copy of this account's state.
    pub fn duplicate(&self) -> (r: AccountState)
        ensures
            acc_eqv(*self, r),
    {
        AccountState {
            key: self.key,
            owner: self.owner,
            is_signer: self.is_signer,
            lamports: self.lamports,
            data: slice_to_vec(self.data.as_slice()),
        }
    }
}

/// Compare two addresses byte for byte.
pub fn key_eq(a: &[u8; 32], b: &[u8; 32]) -> (r: bool)
    ensures
        r <==> a@ == b@,
{
    let mut i: usize = 0;
    while i < 32
        invariant
            0 <= i <= 32,
            forall|j: int| 0 <= j < i ==> a@[j] == b@[j],
        decreases 32 - i,
    {
        if a[i] != b[i] {
            return false;
        }
        i = i + 1;
    }
    proof {
        assert(a@ =~= b@);
    }
    true
}

/// An account that does not exist: owned by the system program, with no data
/// and no funds. Creation is only possible at such an account, which is what
/// rejects opening the same trade twice.
pub open spec fn is_absent(a: AccountState) -> bool {
    &&& a.owner@ == spec_system_program_id()
    &&& a.data@.len() == 0
    &&& a.lamports == 0
}

/// Structurally a mint record: owned by the token program and exactly a mint
/// record's size.
pub open spec fn is_mint(a: AccountState) -> bool {
    &&& a.owner@ == spec_token_program_id()
    &&& a.data@.len() == MINT_LEN
}

/// A structurally valid token account: owned by the token program with the
/// fixed token-account layout.
pub open spec fn is_token_account(a: AccountState) -> bool {
    &&& a.owner@ == spec_token_program_id()
    &&& token_data_ok(a.data@)
}

/// The buffer has the token-account layout's exact size.
pub open spec fn token_data_ok(data: Seq<u8>) -> bool {
    data.len() == TOKEN_ACCOUNT_LEN
}

/// The mint a token account holds, at the layout's first field.
pub open spec fn token_mint(data: Seq<u8>) -> Seq<u8> {
    data.subrange(0, 32)
}

/// The wallet that may spend from a token account, at the layout's second
/// field.
pub open spec fn token_owner(data: Seq<u8>) -> Seq<u8> {
    data.subrange(32, 64)
}

/// The balance a token account holds, little-endian at the layout's third
/// field.
pub open spec fn token_amount(data: Seq<u8>) -> u64 {
    spec_u64_from_le_bytes(data.subrange(64, 72))
}

/// `a` is the canonical associated token account for (owner, mint).
pub open spec fn is_canonical_ata(a: AccountState, owner_key: Seq<u8>, mint_key: Seq<u8>) -> bool {
    ata_derivation(owner_key, mint_key) == Some(a.key@)
}

/// Signer check: the account must have authorized the current request.
pub fn check_signer(a: &AccountState) -> (r: Result<(), EscrowError>)
    ensures
        r is Ok <==> a.is_signer,
        r is Err ==> r == Err::<(), EscrowError>(EscrowError::MissingRequiredSignature),
{
    if a.is_signer {
        Ok(())
    } else {
        Err(EscrowError::MissingRequiredSignature)
    }
}

/// Mint check: the account must structurally be a valid token-mint record.
pub fn check_mint(a: &AccountState) -> (r: Result<(), EscrowError>)
    ensures
        r is Ok <==> is_mint(*a),
        r is Err ==> r == Err::<(), EscrowError>(EscrowError::InvalidAccountData),
{
    let token_id = token_program_id();
    if key_eq(&a.owner, &token_id) && a.data.len() == MINT_LEN {
        Ok(())
    } else {
        Err(EscrowError::InvalidAccountData)
    }
}

/// Program-owned check: the account must be owned by this program, which
/// guards against a forged escrow record supplied from elsewhere.
pub fn check_program_owned(a: &AccountState) -> (r: Result<(), EscrowError>)
    ensures
        r is Ok <==> a.owner@ == spec_program_id(),
        r is Err ==> r == Err::<(), EscrowError>(EscrowError::InvalidAccountOwner),
{
    let own_id = program_id();
    if key_eq(&a.owner, &own_id) {
        Ok(())
    } else {
        Err(EscrowError::InvalidAccountOwner)
    }
}

/// Associated-account check: the account's address must equal the canonical
/// derivation for the (owner, mint) pair.
pub fn check_associated_token_account(
    a: &AccountState,
    owner: &AccountState,
    mint: &AccountState,
) -> (r: Result<(), EscrowError>)
    ensures
        r is Ok <==> is_canonical_ata(*a, owner.key@, mint.key@),
        r is Err ==> r == Err::<(), EscrowError>(EscrowError::InvalidAssociatedAccount),
{
    match derive_associated_token_address(&owner.key, &mint.key) {
        Some(expected) => {
            if key_eq(&a.key, &expected) {
                Ok(())
            } else {
                Err(EscrowError::InvalidAssociatedAccount)
            }
        },
        None => Err(EscrowError::InvalidAssociatedAccount),
    }
}

/// The storage deposit (rent) that keeps an account of `space` data bytes
/// alive, under the host's default rent parameters: the account overhead of
/// 128 bytes plus the data, at 6960 lamports per byte.
pub open spec fn spec_storage_deposit(space: nat) -> nat {
    (128 + space) * 6960
}

/// Largest data size the host allows for one account.
pub const MAX_ACCOUNT_SPACE: usize = 10485760;

/// The storage deposit for an account of `space` data bytes.
pub fn storage_deposit(space: usize) -> (r: u64)
    requires
        space <= MAX_ACCOUNT_SPACE,
    ensures
        r == spec_storage_deposit(space as nat),
{
    (space as u64 + 128) * 6960
}

/// A buffer of `len` zero bytes.
fn zero_vec(len: usize) -> (r: Vec<u8>)
    ensures
        r@ == Seq::new(len as nat, |i: int| 0u8),
{
    let mut r: Vec<u8> = Vec::new();
    let mut i: usize = 0;
    while i < len
        invariant
            0 <= i <= len,
            r@ == Seq::new(i as nat, |j: int| 0u8),
        decreases len - i,
    {
        r.push(0);
        proof {
            assert(r@ =~= Seq::new((i + 1) as nat, |j: int| 0u8));
        }
        i = i + 1;
    }
    r
}

/// Read a token account's balance out of its raw buffer.
pub fn read_token_amount(data: &[u8]) -> (r: Result<u64, EscrowError>)
    ensures
        r is Ok <==> token_data_ok(data@),
        r matches Ok(v) ==> v == token_amount(data@),
        r is Err ==> r == Err::<u64, EscrowError>(EscrowError::InvalidAccountData),
{
    if data.len() != TOKEN_ACCOUNT_LEN {
        return Err(EscrowError::InvalidAccountData);
    }
    Ok(u64_from_le_bytes(&data[64..72]))
}

/// `data` with its balance field replaced by `amount`.
pub open spec fn with_token_amount(data: Seq<u8>, amount: u64) -> Seq<u8> {
    data.subrange(0, 64) + spec_u64_to_le_bytes(amount) + data.subrange(72, 165)
}

/// Replacing the balance field touches nothing else in the layout.
pub proof fn lemma_with_token_amount(data: Seq<u8>, amount: u64)
    requires
        token_data_ok(data),
    ensures
        token_data_ok(with_token_amount(data, amount)),
        token_mint(with_token_amount(data, amount)) == token_mint(data),
        token_owner(with_token_amount(data, amount)) == token_owner(data),
        token_amount(with_token_amount(data, amount)) == amount,
{
    lemma_auto_spec_u64_to_from_le_bytes();
    let d = with_token_amount(data, amount);
    assert(d.subrange(0, 32) =~= data.subrange(0, 32));
    assert(d.subrange(32, 64) =~= data.subrange(32, 64));
    assert(d.subrange(64, 72) =~= spec_u64_to_le_bytes(amount));
}

/// Overwrite the balance field of a token account's raw buffer.
fn write_token_amount(data: &mut Vec<u8>, amount: u64)
    requires
        token_data_ok(old(data)@),
    ensures
        final(data)@ == with_token_amount(old(data)@, amount),
{
    let bytes = u64_to_le_bytes(amount);
    let mut i: usize = 0;
    while i < 8
        invariant
            0 <= i <= 8,
            bytes@ == spec_u64_to_le_bytes(amount),
            bytes@.len() == 8,
            data@.len() == 165,
            forall|j: int| 0 <= j < 64 ==> data@[j] == old(data)@[j],
            forall|j: int| 64 <= j < 64 + i ==> data@[j] == bytes@[j - 64],
            forall|j: int| 64 + i <= j < 165 ==> data@[j] == old(data)@[j],
        decreases 8 - i,
    {
        data[64 + i] = bytes[i];
        i = i + 1;
    }
    proof {
        assert(data@ =~= with_token_amount(old(data)@, amount));
    }
}

/// The raw buffer of a freshly created token account for (mint, owner):
/// its mint, its owner, a zero balance, the initialized marker, and nothing
/// else set.
pub open spec fn spec_new_token_data(mint: Seq<u8>, owner: Seq<u8>) -> Seq<u8> {
    mint + owner + spec_u64_to_le_bytes(0u64) + Seq::new(36, |i: int| 0u8) + seq![1u8] + Seq::new(
        56,
        |i: int| 0u8,
    )
}

/// A fresh token account's buffer has the layout's size, the given mint and
/// owner, and a zero balance.
pub proof fn lemma_new_token_data(mint: Seq<u8>, owner: Seq<u8>)
    requires
        mint.len() == 32,
        owner.len() == 32,
    ensures
        token_data_ok(spec_new_token_data(mint, owner)),
        token_mint(spec_new_token_data(mint, owner)) == mint,
        token_owner(spec_new_token_data(mint, owner)) == owner,
        token_amount(spec_new_token_data(mint, owner)) == 0,
{
    lemma_auto_spec_u64_to_from_le_bytes();
    let d = spec_new_token_data(mint, owner);
    assert(d.subrange(0, 32) =~= mint);
    assert(d.subrange(32, 64) =~= owner);
    assert(d.subrange(64, 72) =~= spec_u64_to_le_bytes(0u64));
}

/// Build the raw buffer of a fresh token account for (mint, owner).
fn new_token_data(mint: &[u8; 32], owner: &[u8; 32]) -> (r: Vec<u8>)
    ensures
        r@ == spec_new_token_data(mint@, owner@),
{
    let mut r = zero_vec(0);
    crate::state::push_address(&mut r, mint);
    crate::state::push_address(&mut r, owner);
    let mut amount = u64_to_le_bytes(0);
    r.append(&mut amount);
    let mut pad = zero_vec(36);
    r.append(&mut pad);
    r.push(1);
    let mut tail = zero_vec(56);
    r.append(&mut tail);
    proof {
        assert(r@ =~= spec_new_token_data(mint@, owner@));
    }
    r
}

/// Creation of an account is possible: nothing lives at it yet and the payer
/// can fund its storage deposit.
pub open spec fn create_ok(payer: AccountState, new_account: AccountState, space: nat) -> bool {
    &&& is_absent(new_account)
    &&& payer.lamports >= spec_storage_deposit(space)
}

/// Model of the system collaborator's account creation: the payer funds the
/// storage deposit of a fresh, zeroed account owned by `owner`. Fails when
/// something already lives at the address or the payer cannot pay; on failure
/// the inputs come back unchanged.
pub fn create_owned_account(
    payer: AccountState,
    new_account: AccountState,
    space: usize,
    owner: &[u8; 32],
) -> (r: Result<(AccountState, AccountState), EscrowError>)
    requires
        space <= MAX_ACCOUNT_SPACE,
    ensures
        r is Ok <==> create_ok(payer, new_account, space as nat),
        r matches Ok(p) ==> {
            &&& p.0.key == payer.key
            &&& p.0.owner == payer.owner
            &&& p.0.is_signer == payer.is_signer
            &&& p.0.lamports == payer.lamports - spec_storage_deposit(space as nat)
            &&& p.0.data@ == payer.data@
            &&& p.1.key == new_account.key
            &&& p.1.owner@ == owner@
            &&& p.1.is_signer == new_account.is_signer
            &&& p.1.lamports == spec_storage_deposit(space as nat)
            &&& p.1.data@ == Seq::new(space as nat, |i: int| 0u8)
        },
        r matches Err(e) ==> e == (if !is_absent(new_account) {
            EscrowError::AccountAlreadyInUse
        } else {
            EscrowError::InsufficientFunds
        }),
{
    let sys_id = system_program_id();
    if !(key_eq(&new_account.owner, &sys_id) && new_account.data.len() == 0
        && new_account.lamports == 0) {
        return Err(EscrowError::AccountAlreadyInUse);
    }
    let deposit = storage_deposit(space);
    if payer.lamports < deposit {
        return Err(EscrowError::InsufficientFunds);
    }
    let funded = AccountState {
        key: new_account.key,
        owner: *owner,
        is_signer: new_account.is_signer,
        lamports: deposit,
        data: zero_vec(space),
    };
    let debited = AccountState { lamports: payer.lamports - deposit, ..payer };
    Ok((debited, funded))
}

/// Creation of the canonical token account for (wallet, mint) is possible:
/// the supplied account is at the canonical address, nothing lives there yet,
/// and the payer can fund its storage deposit.
pub open spec fn create_ata_ok(
    payer: AccountState,
    new_account: AccountState,
    wallet_key: Seq<u8>,
    mint_key: Seq<u8>,
) -> bool {
    &&& is_canonical_ata(new_account, wallet_key, mint_key)
    &&& is_absent(new_account)
    &&& payer.lamports >= spec_storage_deposit(TOKEN_ACCOUNT_LEN as nat)
}

/// The account value that creating the canonical token account for
/// (wallet, mint) leaves at the address.
pub open spec fn fresh_ata(
    new_account: AccountState,
    wallet_key: Seq<u8>,
    mint_key: Seq<u8>,
    post: AccountState,
) -> bool {
    &&& post.key == new_account.key
    &&& post.owner@ == spec_token_program_id()
    &&& post.is_signer == new_account.is_signer
    &&& post.lamports == spec_storage_deposit(TOKEN_ACCOUNT_LEN as nat)
    &&& post.data@ == spec_new_token_data(mint_key, wallet_key)
}

/// Model of the associated-token collaborator's creation: the payer funds a
/// fresh token account of `mint_key`, owned (at the token level) by
/// `wallet_key`, at the pair's canonical address. On failure the inputs come
/// back unchanged.
pub fn create_associated_token_account(
    payer: AccountState,
    new_account: AccountState,
    wallet_key: &[u8; 32],
    mint_key: &[u8; 32],
) -> (r: Result<(AccountState, AccountState), EscrowError>)
    ensures
        r is Ok <==> create_ata_ok(payer, new_account, wallet_key@, mint_key@),
        r matches Ok(p) ==> {
            &&& p.0.key == payer.key
            &&& p.0.owner == payer.owner
            &&& p.0.is_signer == payer.is_signer
            &&& p.0.lamports == payer.lamports - spec_storage_deposit(TOKEN_ACCOUNT_LEN as nat)
            &&& p.0.data@ == payer.data@
            &&& fresh_ata(new_account, wallet_key@, mint_key@, p.1)
        },
        r matches Err(e) ==> e == (if !is_canonical_ata(new_account, wallet_key@, mint_key@) {
            EscrowError::InvalidAssociatedAccount
        } else if !is_absent(new_account) {
            EscrowError::AccountAlreadyInUse
        } else {
            EscrowError::InsufficientFunds
        }),
{
    let canonical = match derive_associated_token_address(wallet_key, mint_key) {
        Some(expected) => key_eq(&new_account.key, &expected),
        None => false,
    };
    if !canonical {
        return Err(EscrowError::InvalidAssociatedAccount);
    }
    match create_owned_account(payer, new_account, TOKEN_ACCOUNT_LEN, &token_program_id()) {
        Ok((debited, created)) => {
            let filled = AccountState { data: new_token_data(mint_key, wallet_key), ..created };
            Ok((debited, filled))
        },
        Err(e) => Err(e),
    }
}

/// The storage deposit that create-if-absent will cost its payer for this
/// account: one token account's deposit when it has to be created, nothing
/// when it is already present.
pub open spec fn deposit_if_created(acc: AccountState) -> nat {
    if acc.data@.len() > 0 {
        0
    } else {
        spec_storage_deposit(TOKEN_ACCOUNT_LEN as nat)
    }
}

/// An already-present associated token account is acceptable: it sits at the
/// canonical address and really is a token account of the right mint and
/// token-level owner.
pub open spec fn ata_present_ok(
    acc: AccountState,
    wallet_key: Seq<u8>,
    mint_key: Seq<u8>,
) -> bool {
    &&& is_canonical_ata(acc, wallet_key, mint_key)
    &&& is_token_account(acc)
    &&& token_mint(acc.data@) == mint_key
    &&& token_owner(acc.data@) == wallet_key
}

/// Create-if-absent is possible: either the account is already the pair's
/// canonical token account, or it can be created and the payer can fund it.
pub open spec fn init_ata_ok(
    payer_lamports: int,
    acc: AccountState,
    wallet_key: Seq<u8>,
    mint_key: Seq<u8>,
) -> bool {
    if acc.data@.len() > 0 {
        ata_present_ok(acc, wallet_key, mint_key)
    } else {
        &&& is_canonical_ata(acc, wallet_key, mint_key)
        &&& is_absent(acc)
        &&& payer_lamports >= spec_storage_deposit(TOKEN_ACCOUNT_LEN as nat)
    }
}

/// The first reason create-if-absent fails.
pub open spec fn init_ata_err(
    payer_lamports: int,
    acc: AccountState,
    wallet_key: Seq<u8>,
    mint_key: Seq<u8>,
) -> EscrowError {
    if acc.data@.len() > 0 {
        if !is_canonical_ata(acc, wallet_key, mint_key) {
            EscrowError::InvalidAssociatedAccount
        } else {
            EscrowError::InvalidAccountData
        }
    } else {
        if !is_canonical_ata(acc, wallet_key, mint_key) {
            EscrowError::InvalidAssociatedAccount
        } else if !is_absent(acc) {
            EscrowError::AccountAlreadyInUse
        } else {
            EscrowError::InsufficientFunds
        }
    }
}

/// Model of the associated-token collaborator's idempotent creation: accept
/// an account that already is the pair's canonical token account, or create
/// it as `create_associated_token_account` does. Settlement uses this so a
/// trade never fails merely because a recipient lacks a receiving account.
pub fn init_ata_if_needed(
    payer: AccountState,
    acc: AccountState,
    wallet_key: &[u8; 32],
    mint_key: &[u8; 32],
) -> (r: Result<(AccountState, AccountState), EscrowError>)
    ensures
        r is Ok <==> init_ata_ok(payer.lamports as int, acc, wallet_key@, mint_key@),
        r matches Ok(p) ==> {
            &&& acc.data@.len() > 0 ==> acc_eqv(payer, p.0) && acc_eqv(acc, p.1)
            &&& acc.data@.len() == 0 ==> {
                &&& p.0.key == payer.key
                &&& p.0.owner == payer.owner
                &&& p.0.is_signer == payer.is_signer
                &&& p.0.lamports == payer.lamports - spec_storage_deposit(
                    TOKEN_ACCOUNT_LEN as nat,
                )
                &&& p.0.data@ == payer.data@
                &&& fresh_ata(acc, wallet_key@, mint_key@, p.1)
            }
        },
        r matches Err(e) ==> e == init_ata_err(payer.lamports as int, acc, wallet_key@, mint_key@),
{
    if acc.data.len() > 0 {
        let canonical = match derive_associated_token_address(wallet_key, mint_key) {
            Some(expected) => key_eq(&acc.key, &expected),
            None => false,
        };
        if !canonical {
            return Err(EscrowError::InvalidAssociatedAccount);
        }
        let token_id = token_program_id();
        if !(key_eq(&acc.owner, &token_id) && acc.data.len() == TOKEN_ACCOUNT_LEN) {
            return Err(EscrowError::InvalidAccountData);
        }
        let acc_mint = crate::state::read_address(acc.data.as_slice(), 0);
        let acc_owner = crate::state::read_address(acc.data.as_slice(), 32);
        if !(key_eq(&acc_mint, mint_key) && key_eq(&acc_owner, wallet_key)) {
            return Err(EscrowError::InvalidAccountData);
        }
        Ok((payer, acc))
    } else {
        create_associated_token_account(payer, acc, wallet_key, mint_key)
    }
}

/// A token transfer is possible: both sides are structurally token accounts,
/// the source is spendable by the presented authority, the mints agree, the
/// source holds enough, and the destination's balance does not overflow.
pub open spec fn transfer_ok(
    from: AccountState,
    to: AccountState,
    authority: Seq<u8>,
    amount: u64,
) -> bool {
    &&& is_token_account(from)
    &&& is_token_account(to)
    &&& token_owner(from.data@) == authority
    &&& token_mint(from.data@) == token_mint(to.data@)
    &&& token_amount(from.data@) >= amount
    &&& token_amount(to.data@) + amount <= u64::MAX
}

/// The first reason a token transfer fails.
pub open spec fn transfer_err(
    from: AccountState,
    to: AccountState,
    authority: Seq<u8>,
    amount: u64,
) -> EscrowError {
    if !is_token_account(from) || !is_token_account(to) {
        EscrowError::InvalidAccountData
    } else if token_owner(from.data@) != authority {
        EscrowError::InvalidAccountOwner
    } else if token_mint(from.data@) != token_mint(to.data@) {
        EscrowError::InvalidAccountData
    } else if token_amount(from.data@) < amount {
        EscrowError::InsufficientFunds
    } else {
        EscrowError::ArithmeticOverflow
    }
}

/// Model of the token collaborator's transfer: moves `amount` from `from` to
/// `to`, authorized by the token-level owner of `from`. Only the two balance
/// fields change; on failure the inputs come back unchanged.
pub fn token_transfer(
    from: AccountState,
    to: AccountState,
    authority: &[u8; 32],
    amount: u64,
) -> (r: Result<(AccountState, AccountState), EscrowError>)
    ensures
        r is Ok <==> transfer_ok(from, to, authority@, amount),
        r matches Ok(p) ==> {
            &&& p.0.key == from.key
            &&& p.0.owner == from.owner
            &&& p.0.is_signer == from.is_signer
            &&& p.0.lamports == from.lamports
            &&& p.0.data@ == with_token_amount(
                from.data@,
                (token_amount(from.data@) - amount) as u64,
            )
            &&& p.1.key == to.key
            &&& p.1.owner == to.owner
            &&& p.1.is_signer == to.is_signer
            &&& p.1.lamports == to.lamports
            &&& p.1.data@ == with_token_amount(to.data@, (token_amount(to.data@) + amount) as u64)
        },
        r matches Err(e) ==> e == transfer_err(from, to, authority@, amount),
{
    let token_id = token_program_id();
    if !(key_eq(&from.owner, &token_id) && from.data.len() == TOKEN_ACCOUNT_LEN) || !(key_eq(
        &to.owner,
        &token_id,
    ) && to.data.len() == TOKEN_ACCOUNT_LEN) {
        return Err(EscrowError::InvalidAccountData);
    }
    let from_owner = crate::state::read_address(from.data.as_slice(), 32);
    if !key_eq(&from_owner, authority) {
        return Err(EscrowError::InvalidAccountOwner);
    }
    let from_mint = crate::state::read_address(from.data.as_slice(), 0);
    let to_mint = crate::state::read_address(to.data.as_slice(), 0);
    if !key_eq(&from_mint, &to_mint) {
        return Err(EscrowError::InvalidAccountData);
    }
    let from_amount = u64_from_le_bytes(&from.data.as_slice()[64..72]);
    if from_amount < amount {
        return Err(EscrowError::InsufficientFunds);
    }
    let to_amount = u64_from_le_bytes(&to.data.as_slice()[64..72]);
    if to_amount > u64::MAX - amount {
        return Err(EscrowError::ArithmeticOverflow);
    }
    let mut from_post = from;
    write_token_amount(&mut from_post.data, from_amount - amount);
    let mut to_post = to;
    write_token_amount(&mut to_post.data, to_amount + amount);
    Ok((from_post, to_post))
}

/// Closing `target` into `destination` is possible: the destination's balance
/// of lamports does not overflow.
pub open spec fn close_ok(target: AccountState, destination: AccountState) -> bool {
    destination.lamports + target.lamports <= u64::MAX
}

/// The observable result of closing `target` into `destination`: the target's
/// storage is gone and its deposit moved to the destination.
pub open spec fn close_post(
    target: AccountState,
    destination: AccountState,
    target_post: AccountState,
    destination_post: AccountState,
) -> bool {
    &&& target_post.key == target.key
    &&& target_post.owner@ == spec_system_program_id()
    &&& target_post.is_signer == target.is_signer
    &&& target_post.lamports == 0
    &&& target_post.data@.len() == 0
    &&& destination_post.key == destination.key
    &&& destination_post.owner == destination.owner
    &&& destination_post.is_signer == destination.is_signer
    &&& destination_post.lamports == destination.lamports + target.lamports
    &&& destination_post.data@ == destination.data@
}

/// Model of a token account's closure: requires an empty balance and the
/// token-level owner's authority, then zeroes the account and returns its
/// storage deposit to the destination.
pub fn close_token_account(
    target: AccountState,
    destination: AccountState,
    authority: &[u8; 32],
) -> (r: Result<(AccountState, AccountState), EscrowError>)
    ensures
        r is Ok <==> is_token_account(target) && token_owner(target.data@) == authority@
            && token_amount(target.data@) == 0 && close_ok(target, destination),
        r matches Ok(p) ==> close_post(target, destination, p.0, p.1),
        r matches Err(e) ==> e == (if !is_token_account(target) {
            EscrowError::InvalidAccountData
        } else if token_owner(target.data@) != authority@ {
            EscrowError::InvalidAccountOwner
        } else if token_amount(target.data@) != 0 {
            EscrowError::InvalidAccountData
        } else {
            EscrowError::ArithmeticOverflow
        }),
{
    let token_id = token_program_id();
    if !(key_eq(&target.owner, &token_id) && target.data.len() == TOKEN_ACCOUNT_LEN) {
        return Err(EscrowError::InvalidAccountData);
    }
    let target_owner = crate::state::read_address(target.data.as_slice(), 32);
    if !key_eq(&target_owner, authority) {
        return Err(EscrowError::InvalidAccountOwner);
    }
    let amount = u64_from_le_bytes(&target.data.as_slice()[64..72]);
    if amount != 0 {
        return Err(EscrowError::InvalidAccountData);
    }
    close_into(target, destination)
}

/// Model of this program's record closure: zeroes the record account and
/// returns its storage deposit to the destination. The caller has already
/// established that the record is owned by this program.
pub fn close_program_account(
    target: AccountState,
    destination: AccountState,
) -> (r: Result<(AccountState, AccountState), EscrowError>)
    ensures
        r is Ok <==> close_ok(target, destination),
        r matches Ok(p) ==> close_post(target, destination, p.0, p.1),
        r matches Err(e) ==> e == EscrowError::ArithmeticOverflow,
{
    close_into(target, destination)
}

/// Zero an account and move its lamports to the destination.
fn close_into(target: AccountState, destination: AccountState) -> (r: Result<
    (AccountState, AccountState),
    EscrowError,
>)
    ensures
        r is Ok <==> close_ok(target, destination),
        r matches Ok(p) ==> close_post(target, destination, p.0, p.1),
        r matches Err(e) ==> e == EscrowError::ArithmeticOverflow,
{
    if destination.lamports > u64::MAX - target.lamports {
        return Err(EscrowError::ArithmeticOverflow);
    }
    let credited = AccountState { lamports: destination.lamports + target.lamports, ..destination };
    let cleared = AccountState {
        key: target.key,
        owner: system_program_id(),
        is_signer: target.is_signer,
        lamports: 0,
        data: zero_vec(0),
    };
    Ok((cleared, credited))
}

} // verus!

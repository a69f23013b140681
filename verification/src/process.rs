//! The request entry point: the leading byte selects Open-Trade or
//! Settle-Trade, and each operation is a pure function from the supplied
//! accounts and payload to the accounts' new states or an error.
//!
//! The contracts here state each operation end to end over the supplied
//! accounts: exactly when it succeeds, which error it fails with, and every
//! account's state afterwards.

use vstd::prelude::*;

use crate::accounts::{
    acc_eqv, deposit_if_created, is_token_account, spec_new_token_data, spec_storage_deposit,
    token_amount, token_mint, token_owner, with_token_amount, AccountState,
};
use crate::error::EscrowError;
use crate::ids::{spec_program_id, spec_system_program_id, spec_token_program_id};
use crate::make::{
    amount_of, make_setup_err, make_setup_ok, receive_of, seed_of, Make,
};
use crate::pda::{escrow_address_for, escrow_derivation};
use crate::state::Escrow;
use crate::take::{take_setup_err, take_setup_ok, Take};
use vstd::slice::slice_subrange;

verus! {

broadcast use vstd::array::group_array_axioms;

/// Open-Trade succeeds: its validation and creation phase passes, and the
/// maker's token account really is a token account of the offered mint,
/// spendable by the maker, holding at least the deposit.
pub open spec fn make_ok(a: Seq<AccountState>, data: Seq<u8>) -> bool {
    &&& make_setup_ok(a, data)
    &&& is_token_account(a[4])
    &&& token_owner(a[4].data@) == a[0].key@
    &&& token_mint(a[4].data@) == a[2].key@
    &&& token_amount(a[4].data@) >= amount_of(data)
}

/// The error a failing Open-Trade returns.
pub open spec fn make_err(a: Seq<AccountState>, data: Seq<u8>) -> EscrowError {
    if !make_setup_ok(a, data) {
        make_setup_err(a, data)
    } else if !is_token_account(a[4]) {
        EscrowError::InvalidAccountData
    } else if token_owner(a[4].data@) != a[0].key@ {
        EscrowError::InvalidAccountOwner
    } else if token_mint(a[4].data@) != a[2].key@ {
        EscrowError::InvalidAccountData
    } else {
        EscrowError::InsufficientFunds
    }
}

/// What a successful Open-Trade leaves behind: the maker debited of both
/// storage deposits and of the deposit amount, the escrow record populated at
/// its derived address with the canonical bump, and the vault holding exactly
/// the deposit.
pub open spec fn make_post(a: Seq<AccountState>, data: Seq<u8>, o: Seq<AccountState>) -> bool {
    &&& o.len() == 9
    &&& o[0].key == a[0].key
    &&& o[0].owner == a[0].owner
    &&& o[0].is_signer == a[0].is_signer
    &&& o[0].lamports == a[0].lamports - spec_storage_deposit(113) - spec_storage_deposit(165)
    &&& o[0].data@ == a[0].data@
    &&& o[1].key == a[1].key
    &&& o[1].owner@ == spec_program_id()
    &&& o[1].is_signer == a[1].is_signer
    &&& o[1].lamports == spec_storage_deposit(113)
    &&& match escrow_derivation(a[0].key@, seed_of(data)) {
        Some(d) => {
            let rec = Escrow {
                seed: seed_of(data),
                maker: a[0].key,
                mint_a: a[2].key,
                mint_b: a[3].key,
                receive: receive_of(data),
                bump: d.1,
            };
            &&& o[1].data@ == rec.spec_encode()
            &&& Escrow::decodes_to(o[1].data@, rec)
            &&& escrow_address_for(a[0].key@, seed_of(data), d.1) == Some(a[1].key@)
        },
        None => false,
    }
    &&& acc_eqv(a[2], o[2])
    &&& acc_eqv(a[3], o[3])
    &&& o[4].key == a[4].key
    &&& o[4].owner == a[4].owner
    &&& o[4].is_signer == a[4].is_signer
    &&& o[4].lamports == a[4].lamports
    &&& o[4].data@ == with_token_amount(
        a[4].data@,
        (token_amount(a[4].data@) - amount_of(data)) as u64,
    )
    &&& token_amount(o[4].data@) == token_amount(a[4].data@) - amount_of(data)
    &&& o[5].key == a[5].key
    &&& o[5].owner@ == spec_token_program_id()
    &&& o[5].is_signer == a[5].is_signer
    &&& o[5].lamports == spec_storage_deposit(165)
    &&& o[5].data@ == with_token_amount(
        spec_new_token_data(a[2].key@, a[1].key@),
        amount_of(data),
    )
    &&& token_amount(o[5].data@) == amount_of(data)
    &&& token_mint(o[5].data@) == a[2].key@
    &&& token_owner(o[5].data@) == a[1].key@
    &&& is_token_account(o[5])
    &&& acc_eqv(a[6], o[6])
    &&& acc_eqv(a[7], o[7])
    &&& acc_eqv(a[8], o[8])
}

/// Open a trade: validate the nine accounts and the 24-byte payload, create
/// the escrow record and vault, write the record, and deposit the maker's
/// offered tokens into the vault. Returns the accounts' new states in
/// positional order, or an error and no change.
pub fn make(accounts: &Vec<AccountState>, data: &[u8]) -> (r: Result<
    Vec<AccountState>,
    EscrowError,
>)
    ensures
        r is Ok <==> make_ok(accounts@, data@),
        r matches Ok(v) ==> make_post(accounts@, data@, v@),
        r matches Err(e) ==> e == make_err(accounts@, data@),
{
    let m = match Make::try_from(data, accounts) {
        Ok(m) => m,
        Err(e) => {
            return Err(e);
        },
    };
    proof {
        crate::accounts::lemma_new_token_data(accounts@[2].key@, accounts@[1].key@);
    }
    let ghost pre = m;
    let r = m.process();
    proof {
        if r is Ok {
            let o = r->Ok_0@;
            crate::accounts::lemma_with_token_amount(
                accounts@[4].data@,
                (token_amount(accounts@[4].data@) - amount_of(data@)) as u64,
            );
            crate::accounts::lemma_with_token_amount(
                spec_new_token_data(accounts@[2].key@, accounts@[1].key@),
                amount_of(data@),
            );
            assert(pre.spec_record() == (Escrow {
                seed: seed_of(data@),
                maker: accounts@[0].key,
                mint_a: accounts@[2].key,
                mint_b: accounts@[3].key,
                receive: receive_of(data@),
                bump: pre.bump,
            }));
        }
    }
    r
}

/// Settle-Trade succeeds: its validation and creation phase passes, the
/// stored derivation authenticates the escrow, the vault is the escrow's
/// token account of the offered mint, the taker can receive the vault's
/// balance and pay the recorded amount, and no balance overflows.
pub open spec fn take_ok(a: Seq<AccountState>) -> bool {
    let ed = a[2].data@;
    &&& take_setup_ok(a)
    &&& ed.len() >= 113
    &&& escrow_address_for(a[1].key@, Escrow::stored_seed(ed), Escrow::stored_bump(ed)) == Some(
        a[2].key@,
    )
    &&& is_token_account(a[5])
    &&& token_owner(a[5].data@) == a[2].key@
    &&& token_mint(a[5].data@) == a[3].key@
    &&& (a[6].data@.len() > 0 ==> token_amount(a[6].data@) + token_amount(a[5].data@)
        <= u64::MAX)
    &&& a[1].lamports + a[5].lamports <= u64::MAX
    &&& is_token_account(a[7])
    &&& token_owner(a[7].data@) == a[0].key@
    &&& token_mint(a[7].data@) == a[4].key@
    &&& token_amount(a[7].data@) >= Escrow::stored_receive(ed)
    &&& (a[8].data@.len() > 0 ==> token_amount(a[8].data@) + Escrow::stored_receive(ed)
        <= u64::MAX)
    &&& a[1].lamports + a[5].lamports + a[2].lamports <= u64::MAX
}

/// The error a failing Settle-Trade returns.
pub open spec fn take_err(a: Seq<AccountState>) -> EscrowError {
    let ed = a[2].data@;
    if !take_setup_ok(a) {
        take_setup_err(a)
    } else if ed.len() < 113 {
        EscrowError::InvalidAccountData
    } else if escrow_address_for(a[1].key@, Escrow::stored_seed(ed), Escrow::stored_bump(ed))
        is None {
        EscrowError::InvalidSeeds
    } else if escrow_address_for(a[1].key@, Escrow::stored_seed(ed), Escrow::stored_bump(ed))
        != Some(a[2].key@) {
        EscrowError::InvalidAccountOwner
    } else if !is_token_account(a[5]) {
        EscrowError::InvalidAccountData
    } else if token_owner(a[5].data@) != a[2].key@ {
        EscrowError::InvalidAccountOwner
    } else if token_mint(a[5].data@) != a[3].key@ {
        EscrowError::InvalidAccountData
    } else if a[6].data@.len() > 0 && token_amount(a[6].data@) + token_amount(a[5].data@)
        > u64::MAX {
        EscrowError::ArithmeticOverflow
    } else if a[1].lamports + a[5].lamports > u64::MAX {
        EscrowError::ArithmeticOverflow
    } else if !is_token_account(a[7]) {
        EscrowError::InvalidAccountData
    } else if token_owner(a[7].data@) != a[0].key@ {
        EscrowError::InvalidAccountOwner
    } else if token_mint(a[7].data@) != a[4].key@ {
        EscrowError::InvalidAccountData
    } else if token_amount(a[7].data@) < Escrow::stored_receive(ed) {
        EscrowError::InsufficientFunds
    } else if a[8].data@.len() > 0 && token_amount(a[8].data@) + Escrow::stored_receive(ed)
        > u64::MAX {
        EscrowError::ArithmeticOverflow
    } else {
        EscrowError::ArithmeticOverflow
    }
}

/// What a successful Settle-Trade leaves behind: the record and vault gone,
/// both storage deposits with the maker, the vault's whole balance with the
/// taker, the recorded amount moved from taker to maker, and the taker
/// debited only for receiving accounts that had to be created.
pub open spec fn take_post(a: Seq<AccountState>, o: Seq<AccountState>) -> bool {
    let ed = a[2].data@;
    let vault_amount = token_amount(a[5].data@);
    let receive = Escrow::stored_receive(ed);
    &&& o.len() == 12
    &&& o[0].key == a[0].key
    &&& o[0].owner == a[0].owner
    &&& o[0].is_signer == a[0].is_signer
    &&& o[0].lamports == a[0].lamports - deposit_if_created(a[6]) - deposit_if_created(a[8])
    &&& o[0].data@ == a[0].data@
    &&& o[1].key == a[1].key
    &&& o[1].owner == a[1].owner
    &&& o[1].is_signer == a[1].is_signer
    &&& o[1].lamports == a[1].lamports + a[5].lamports + a[2].lamports
    &&& o[1].data@ == a[1].data@
    &&& o[2].key == a[2].key
    &&& o[2].is_signer == a[2].is_signer
    &&& o[2].owner@ == spec_system_program_id()
    &&& o[2].lamports == 0
    &&& o[2].data@.len() == 0
    &&& acc_eqv(a[3], o[3])
    &&& acc_eqv(a[4], o[4])
    &&& o[5].key == a[5].key
    &&& o[5].is_signer == a[5].is_signer
    &&& o[5].owner@ == spec_system_program_id()
    &&& o[5].lamports == 0
    &&& o[5].data@.len() == 0
    &&& o[6].key == a[6].key
    &&& is_token_account(o[6])
    &&& token_mint(o[6].data@) == a[3].key@
    &&& token_owner(o[6].data@) == a[0].key@
    &&& token_amount(o[6].data@) == (if a[6].data@.len() > 0 {
        token_amount(a[6].data@) as int
    } else {
        0int
    }) + vault_amount
    &&& o[7].key == a[7].key
    &&& o[7].owner == a[7].owner
    &&& o[7].is_signer == a[7].is_signer
    &&& o[7].lamports == a[7].lamports
    &&& o[7].data@ == with_token_amount(
        a[7].data@,
        (token_amount(a[7].data@) - receive) as u64,
    )
    &&& token_amount(o[7].data@) == token_amount(a[7].data@) - receive
    &&& o[8].key == a[8].key
    &&& is_token_account(o[8])
    &&& token_mint(o[8].data@) == a[4].key@
    &&& token_owner(o[8].data@) == a[1].key@
    &&& token_amount(o[8].data@) == (if a[8].data@.len() > 0 {
        token_amount(a[8].data@) as int
    } else {
        0int
    }) + receive
    &&& acc_eqv(a[9], o[9])
    &&& acc_eqv(a[10], o[10])
    &&& acc_eqv(a[11], o[11])
}

/// Settle a trade: validate the twelve accounts, create the receiving
/// accounts if absent, authenticate the escrow, pay out and tear down.
/// Returns the accounts' new states in positional order, or an error and no
/// change.
pub fn take(accounts: &Vec<AccountState>) -> (r: Result<Vec<AccountState>, EscrowError>)
    ensures
        r is Ok <==> take_ok(accounts@),
        r matches Ok(v) ==> take_post(accounts@, v@),
        r matches Err(e) ==> e == take_err(accounts@),
{
    let t = match Take::try_from(accounts) {
        Ok(t) => t,
        Err(e) => {
            return Err(e);
        },
    };
    proof {
        crate::accounts::lemma_new_token_data(accounts@[3].key@, accounts@[0].key@);
        crate::accounts::lemma_new_token_data(accounts@[4].key@, accounts@[1].key@);
    }
    let ghost pre = t;
    let r = t.process();
    proof {
        let a = accounts@;
        if r is Ok {
            let o = r->Ok_0@;
            crate::accounts::lemma_with_token_amount(
                pre.accounts.taker_ata_a.data@,
                (token_amount(pre.accounts.taker_ata_a.data@) + token_amount(a[5].data@)) as u64,
            );
            crate::accounts::lemma_with_token_amount(
                a[7].data@,
                (token_amount(a[7].data@) - Escrow::stored_receive(a[2].data@)) as u64,
            );
            crate::accounts::lemma_with_token_amount(
                pre.accounts.maker_ata_b.data@,
                (token_amount(pre.accounts.maker_ata_b.data@) + Escrow::stored_receive(
                    a[2].data@,
                )) as u64,
            );
        }
    }
    r
}

/// Process one request: the leading byte selects the operation, the rest of
/// the payload belongs to it. An empty request or an unknown discriminator is
/// malformed.
pub fn process_request(accounts: &Vec<AccountState>, data: &[u8]) -> (r: Result<
    Vec<AccountState>,
    EscrowError,
>)
    ensures
        data@.len() == 0 || (data@[0] != 0 && data@[0] != 1) ==> r == Err::<
            Vec<AccountState>,
            EscrowError,
        >(EscrowError::InvalidInstructionData),
        data@.len() > 0 && data@[0] == 0 ==> {
            &&& r is Ok <==> make_ok(accounts@, data@.skip(1))
            &&& (r matches Ok(v) ==> make_post(accounts@, data@.skip(1), v@))
            &&& (r matches Err(e) ==> e == make_err(accounts@, data@.skip(1)))
        },
        data@.len() > 0 && data@[0] == 1 ==> {
            &&& r is Ok <==> take_ok(accounts@)
            &&& (r matches Ok(v) ==> take_post(accounts@, v@))
            &&& (r matches Err(e) ==> e == take_err(accounts@))
        },
{
    if data.len() == 0 {
        return Err(EscrowError::InvalidInstructionData);
    }
    let disc = data[0];
    if disc == 0 {
        let payload = slice_subrange(data, 1, data.len());
        proof {
            assert(payload@ =~= data@.skip(1));
        }
        make(accounts, payload)
    } else if disc == 1 {
        take(accounts)
    } else {
        Err(EscrowError::InvalidInstructionData)
    }
}

} // verus!

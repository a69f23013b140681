//! The properties that hold of the escrow as a whole: derivation stability
//! across the two paths, authentication on settlement, the settlement round
//! trip, the impossibility of settling twice, and the atomicity of a failed
//! settlement. Each is stated over the operations' end-to-end contracts.

use vstd::prelude::*;

use crate::accounts::{
    deposit_if_created, init_ata_ok, is_canonical_ata, is_token_account, spec_storage_deposit,
    token_amount, token_mint, token_owner, AccountState,
};
use crate::error::EscrowError;
use crate::ids::{spec_program_id, spec_system_program_id};
use crate::make::{amount_of, receive_of, seed_of};
use crate::pda::escrow_address_for;
use crate::process::{make_ok, make_post, take_err, take_ok, take_post};
use crate::state::Escrow;
use crate::take::{take_accounts_ok, take_setup_ok};

verus! {

broadcast use vstd::array::group_array_axioms;

/// Derivation is stable across the creation and settlement paths: the record
/// a successful Open-Trade writes authenticates, through its stored seed and
/// bump, against the very address the escrow was created at — which is what
/// the settlement path recomputes.
pub proof fn lemma_derivation_round_trip(
    a: Seq<AccountState>,
    data: Seq<u8>,
    o: Seq<AccountState>,
)
    requires
        make_ok(a, data),
        make_post(a, data, o),
    ensures
        o[1].data@.len() >= 113,
        Escrow::stored_seed(o[1].data@) == seed_of(data),
        Escrow::stored_receive(o[1].data@) == receive_of(data),
        escrow_address_for(
            a[0].key@,
            Escrow::stored_seed(o[1].data@),
            Escrow::stored_bump(o[1].data@),
        ) == Some(o[1].key@),
{
}

/// Settlement authenticates the escrow: when the supplied escrow account's
/// address differs from the derivation recomputed from the record's stored
/// seed and bump, Settle-Trade fails with an authentication error, and —
/// being functional — changes no account.
pub proof fn lemma_settlement_authenticates(a: Seq<AccountState>)
    requires
        take_setup_ok(a),
        a[2].data@.len() >= 113,
        escrow_address_for(
            a[1].key@,
            Escrow::stored_seed(a[2].data@),
            Escrow::stored_bump(a[2].data@),
        ) is Some,
        escrow_address_for(
            a[1].key@,
            Escrow::stored_seed(a[2].data@),
            Escrow::stored_bump(a[2].data@),
        ) != Some(a[2].key@),
    ensures
        !take_ok(a),
        take_err(a) == EscrowError::InvalidAccountOwner,
{
}

/// Settling the same trade twice fails: a successful settlement leaves the
/// escrow account owned by the system program, so a second Settle-Trade on
/// the settled accounts fails the program-ownership check and — being
/// functional — changes no account.
pub proof fn lemma_settle_twice_fails(a: Seq<AccountState>, o: Seq<AccountState>)
    requires
        take_ok(a),
        take_post(a, o),
    ensures
        !take_ok(o),
        take_err(o) == EscrowError::InvalidAccountOwner,
{
    assert(spec_program_id()[0] == 11);
    assert(spec_system_program_id()[0] == 0);
    assert(o[2].owner@ != spec_program_id());
}

/// A taker short of the recorded settlement amount cannot settle: with every
/// earlier check passing, the request fails with an insufficient-funds error
/// before any effect, and — being functional — leaves the vault, the record
/// and every balance exactly as they were.
pub proof fn lemma_short_taker_cannot_settle(a: Seq<AccountState>)
    requires
        take_setup_ok(a),
        a[2].data@.len() >= 113,
        escrow_address_for(
            a[1].key@,
            Escrow::stored_seed(a[2].data@),
            Escrow::stored_bump(a[2].data@),
        ) == Some(a[2].key@),
        is_token_account(a[5]),
        token_owner(a[5].data@) == a[2].key@,
        token_mint(a[5].data@) == a[3].key@,
        a[6].data@.len() > 0 ==> token_amount(a[6].data@) + token_amount(a[5].data@)
            <= u64::MAX,
        a[1].lamports + a[5].lamports <= u64::MAX,
        is_token_account(a[7]),
        token_owner(a[7].data@) == a[0].key@,
        token_mint(a[7].data@) == a[4].key@,
        token_amount(a[7].data@) < Escrow::stored_receive(a[2].data@),
    ensures
        !take_ok(a),
        take_err(a) == EscrowError::InsufficientFunds,
{
}

/// Exactly one open trade per (maker, seed): opening the same trade again on
/// the accounts a successful Open-Trade left behind fails, because something
/// already lives at the derived escrow address, and — being functional —
/// changes no account.
pub proof fn lemma_reopen_fails(a: Seq<AccountState>, data: Seq<u8>, o: Seq<AccountState>)
    requires
        make_ok(a, data),
        make_post(a, data, o),
    ensures
        !make_ok(o, data),
        crate::process::make_err(o, data) == EscrowError::AccountAlreadyInUse,
{
    assert(spec_program_id()[0] == 11);
    assert(spec_system_program_id()[0] == 0);
    assert(o[1].owner@ != spec_system_program_id());
}

/// Settling a trade that does not exist fails: an absent escrow account is
/// owned by the system program, so Settle-Trade fails its program-ownership
/// check and — being functional — changes no account.
pub proof fn lemma_settle_absent_fails(a: Seq<AccountState>)
    requires
        a.len() == 12,
        a[0].is_signer,
        crate::accounts::is_absent(a[2]),
    ensures
        !take_ok(a),
        take_err(a) == EscrowError::InvalidAccountOwner,
{
    assert(spec_program_id()[0] == 11);
    assert(spec_system_program_id()[0] == 0);
    assert(a[2].owner@ != spec_program_id());
}

/// The settlement round trip: accounts settled straight out of a successful
/// Open-Trade — the maker's side from that trade, plus a signing taker who
/// holds enough of the wanted mint — settle successfully, and afterwards the
/// record and vault are gone, the taker holds the whole deposit, the maker
/// holds the recorded settlement amount, and both storage deposits are back
/// with the maker.
pub proof fn lemma_settlement_round_trip(
    a: Seq<AccountState>,
    data: Seq<u8>,
    o: Seq<AccountState>,
    taker: AccountState,
    taker_ata_a: AccountState,
    taker_ata_b: AccountState,
    maker_ata_b: AccountState,
    settled: Seq<AccountState>,
)
    requires
        make_ok(a, data),
        make_post(a, data, o),
        taker.is_signer,
        init_ata_ok(taker.lamports as int, taker_ata_a, taker.key@, a[2].key@),
        init_ata_ok(
            taker.lamports - deposit_if_created(taker_ata_a),
            maker_ata_b,
            a[0].key@,
            a[3].key@,
        ),
        is_canonical_ata(taker_ata_b, taker.key@, a[3].key@),
        is_token_account(taker_ata_b),
        token_owner(taker_ata_b.data@) == taker.key@,
        token_mint(taker_ata_b.data@) == a[3].key@,
        token_amount(taker_ata_b.data@) >= receive_of(data),
        taker_ata_a.data@.len() > 0 ==> token_amount(taker_ata_a.data@) + amount_of(data)
            <= u64::MAX,
        maker_ata_b.data@.len() > 0 ==> token_amount(maker_ata_b.data@) + receive_of(data)
            <= u64::MAX,
        o[0].lamports + spec_storage_deposit(165) + spec_storage_deposit(113) <= u64::MAX,
        take_post(
            seq![
                taker,
                o[0],
                o[1],
                o[2],
                o[3],
                o[5],
                taker_ata_a,
                taker_ata_b,
                maker_ata_b,
                o[6],
                o[7],
                o[8],
            ],
            settled,
        ),
    ensures
        take_ok(
            seq![
                taker,
                o[0],
                o[1],
                o[2],
                o[3],
                o[5],
                taker_ata_a,
                taker_ata_b,
                maker_ata_b,
                o[6],
                o[7],
                o[8],
            ],
        ),
        settled[2].owner@ == spec_system_program_id() && settled[2].data@.len() == 0,
        settled[5].owner@ == spec_system_program_id() && settled[5].data@.len() == 0,
        token_amount(settled[6].data@) == (if taker_ata_a.data@.len() > 0 {
            token_amount(taker_ata_a.data@) as int
        } else {
            0int
        }) + amount_of(data),
        token_amount(settled[8].data@) == (if maker_ata_b.data@.len() > 0 {
            token_amount(maker_ata_b.data@) as int
        } else {
            0int
        }) + receive_of(data),
        settled[1].lamports == o[0].lamports + spec_storage_deposit(165) + spec_storage_deposit(
            113,
        ),
{
    let t = seq![
        taker,
        o[0],
        o[1],
        o[2],
        o[3],
        o[5],
        taker_ata_a,
        taker_ata_b,
        maker_ata_b,
        o[6],
        o[7],
        o[8],
    ];
    assert(t[0] == taker && t[1] == o[0] && t[2] == o[1] && t[3] == o[2] && t[4] == o[3] && t[5]
        == o[5] && t[6] == taker_ata_a && t[7] == taker_ata_b && t[8] == maker_ata_b);
    lemma_derivation_round_trip(a, data, o);
    assert(take_accounts_ok(t));
    assert(take_setup_ok(t));
    assert(Escrow::stored_receive(t[2].data@) == receive_of(data));
    assert(token_amount(t[5].data@) == amount_of(data));
    assert(take_ok(t));
}

} // verus!

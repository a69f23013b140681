//! The Settle-Trade operation: authenticates the escrow against its
//! deterministic derivation, pays the whole vault out to the taker, closes
//! the vault, moves the recorded settlement amount from the taker to the
//! maker, and closes the escrow record, returning both storage deposits to
//! the maker.
//!
//! The vault payout and its closure come before the reverse leg, so a failure
//! there (say, a taker short of funds) aborts the whole request before the
//! maker's side is paid. Every effect is functional: the operation returns
//! the twelve accounts' new states in positional order, or an error and no
//! change at all.

use vstd::prelude::*;

use crate::accounts::{
    acc_eqv, check_associated_token_account, check_mint, check_program_owned, check_signer,
    close_program_account, close_token_account, deposit_if_created, fresh_ata, init_ata_err,
    init_ata_if_needed, init_ata_ok, is_canonical_ata, is_mint, is_token_account, key_eq,
    read_token_amount, token_amount, token_data_ok, token_transfer, transfer_err, transfer_ok,
    with_token_amount, AccountState,
};
use crate::error::EscrowError;
use crate::ids::spec_program_id;
use crate::pda::{create_escrow_address, escrow_address_for};
use crate::state::Escrow;

verus! {

broadcast use vstd::array::group_array_axioms;

/// The twelve accounts of a Settle-Trade request, in positional order, after
/// the basic validators have passed.
pub struct TakeAccounts {
    /// The signer settling the trade.
    pub taker: AccountState,
    /// The maker who opened the trade, recipient of the reverse leg and of
    /// both storage deposits.
    pub maker: AccountState,
    /// The escrow record account.
    pub escrow: AccountState,
    /// The mint of the deposited token.
    pub mint_a: AccountState,
    /// The mint of the wanted token.
    pub mint_b: AccountState,
    /// The vault: the escrow's token account of `mint_a`.
    pub vault: AccountState,
    /// The taker's token account of `mint_a`, created here if absent.
    pub taker_ata_a: AccountState,
    /// The taker's token account of `mint_b`, the reverse leg's source.
    pub taker_ata_b: AccountState,
    /// The maker's token account of `mint_b`, created here if absent.
    pub maker_ata_b: AccountState,
    /// The system collaborator.
    pub system_program: AccountState,
    /// The token collaborator.
    pub token_program: AccountState,
    /// The associated-token collaborator.
    pub associated_token_account_program: AccountState,
}

/// The basic account validators of Settle-Trade pass: twelve accounts, a
/// signing taker, an escrow owned by this program, two structurally valid
/// mints, the taker's canonical token account of the wanted mint, and the
/// vault at its canonical address for (escrow, offered mint).
pub open spec fn take_accounts_ok(a: Seq<AccountState>) -> bool {
    &&& a.len() == 12
    &&& a[0].is_signer
    &&& a[2].owner@ == spec_program_id()
    &&& is_mint(a[3])
    &&& is_mint(a[4])
    &&& is_canonical_ata(a[7], a[0].key@, a[4].key@)
    &&& is_canonical_ata(a[5], a[2].key@, a[3].key@)
}

/// The first reason the basic Settle-Trade validators fail.
pub open spec fn take_accounts_err(a: Seq<AccountState>) -> EscrowError {
    if a.len() != 12 {
        EscrowError::NotEnoughAccountKeys
    } else if !a[0].is_signer {
        EscrowError::MissingRequiredSignature
    } else if a[2].owner@ != spec_program_id() {
        EscrowError::InvalidAccountOwner
    } else if !is_mint(a[3]) || !is_mint(a[4]) {
        EscrowError::InvalidAccountData
    } else {
        EscrowError::InvalidAssociatedAccount
    }
}

impl TakeAccounts {
    /// Validate and take the twelve accounts of a Settle-Trade request.
    pub fn try_from(accounts: &Vec<AccountState>) -> (r: Result<TakeAccounts, EscrowError>)
        ensures
            r is Ok <==> take_accounts_ok(accounts@),
            r matches Ok(t) ==> {
                &&& acc_eqv(accounts@[0], t.taker)
                &&& acc_eqv(accounts@[1], t.maker)
                &&& acc_eqv(accounts@[2], t.escrow)
                &&& acc_eqv(accounts@[3], t.mint_a)
                &&& acc_eqv(accounts@[4], t.mint_b)
                &&& acc_eqv(accounts@[5], t.vault)
                &&& acc_eqv(accounts@[6], t.taker_ata_a)
                &&& acc_eqv(accounts@[7], t.taker_ata_b)
                &&& acc_eqv(accounts@[8], t.maker_ata_b)
                &&& acc_eqv(accounts@[9], t.system_program)
                &&& acc_eqv(accounts@[10], t.token_program)
                &&& acc_eqv(accounts@[11], t.associated_token_account_program)
            },
            r matches Err(e) ==> e == take_accounts_err(accounts@),
    {
        if accounts.len() != 12 {
            return Err(EscrowError::NotEnoughAccountKeys);
        }
        if let Err(e) = check_signer(&accounts[0]) {
            return Err(e);
        }
        if let Err(e) = check_program_owned(&accounts[2]) {
            return Err(e);
        }
        if let Err(e) = check_mint(&accounts[3]) {
            return Err(e);
        }
        if let Err(e) = check_mint(&accounts[4]) {
            return Err(e);
        }
        if let Err(e) = check_associated_token_account(&accounts[7], &accounts[0], &accounts[4]) {
            return Err(e);
        }
        if let Err(e) = check_associated_token_account(&accounts[5], &accounts[2], &accounts[3]) {
            return Err(e);
        }
        Ok(TakeAccounts {
            taker: accounts[0].duplicate(),
            maker: accounts[1].duplicate(),
            escrow: accounts[2].duplicate(),
            mint_a: accounts[3].duplicate(),
            mint_b: accounts[4].duplicate(),
            vault: accounts[5].duplicate(),
            taker_ata_a: accounts[6].duplicate(),
            taker_ata_b: accounts[7].duplicate(),
            maker_ata_b: accounts[8].duplicate(),
            system_program: accounts[9].duplicate(),
            token_program: accounts[10].duplicate(),
            associated_token_account_program: accounts[11].duplicate(),
        })
    }
}

/// The validations and creations of Settle-Trade all pass: the basic checks,
/// and both receiving accounts either already canonical or creatable at the
/// taker's expense.
pub open spec fn take_setup_ok(a: Seq<AccountState>) -> bool {
    &&& take_accounts_ok(a)
    &&& init_ata_ok(a[0].lamports as int, a[6], a[0].key@, a[3].key@)
    &&& init_ata_ok(
        a[0].lamports - deposit_if_created(a[6]),
        a[8],
        a[1].key@,
        a[4].key@,
    )
}

/// The first reason Settle-Trade's validation or creation phase fails.
pub open spec fn take_setup_err(a: Seq<AccountState>) -> EscrowError {
    if !take_accounts_ok(a) {
        take_accounts_err(a)
    } else if !init_ata_ok(a[0].lamports as int, a[6], a[0].key@, a[3].key@) {
        init_ata_err(a[0].lamports as int, a[6], a[0].key@, a[3].key@)
    } else {
        init_ata_err(a[0].lamports - deposit_if_created(a[6]), a[8], a[1].key@, a[4].key@)
    }
}

/// What Settle-Trade's validation and creation phase leaves behind: the taker
/// debited of a storage deposit for each receiving account that had to be
/// created, those accounts present and canonical, and everything else as
/// supplied.
pub open spec fn take_setup_post(a: Seq<AccountState>, t: Take) -> bool {
    &&& t.accounts.taker.key == a[0].key
    &&& t.accounts.taker.owner == a[0].owner
    &&& t.accounts.taker.is_signer == a[0].is_signer
    &&& t.accounts.taker.lamports == a[0].lamports - deposit_if_created(a[6])
        - deposit_if_created(a[8])
    &&& t.accounts.taker.data@ == a[0].data@
    &&& acc_eqv(a[1], t.accounts.maker)
    &&& acc_eqv(a[2], t.accounts.escrow)
    &&& acc_eqv(a[3], t.accounts.mint_a)
    &&& acc_eqv(a[4], t.accounts.mint_b)
    &&& acc_eqv(a[5], t.accounts.vault)
    &&& (if a[6].data@.len() > 0 {
        acc_eqv(a[6], t.accounts.taker_ata_a)
    } else {
        fresh_ata(a[6], a[0].key@, a[3].key@, t.accounts.taker_ata_a)
    })
    &&& acc_eqv(a[7], t.accounts.taker_ata_b)
    &&& (if a[8].data@.len() > 0 {
        acc_eqv(a[8], t.accounts.maker_ata_b)
    } else {
        fresh_ata(a[8], a[1].key@, a[4].key@, t.accounts.maker_ata_b)
    })
    &&& acc_eqv(a[9], t.accounts.system_program)
    &&& acc_eqv(a[10], t.accounts.token_program)
    &&& acc_eqv(a[11], t.accounts.associated_token_account_program)
}

/// A validated Settle-Trade request, with both receiving accounts already
/// carried through the create-if-absent phase.
pub struct Take {
    /// The request's accounts after validation and creation.
    pub accounts: TakeAccounts,
}

/// The settlement itself can run: the record loads, the escrow address
/// authenticates against the stored derivation, the vault pays out to the
/// taker, the vault and the record close into the maker, and the taker can
/// pay the recorded settlement amount to the maker.
pub open spec fn take_process_ok(t: Take) -> bool {
    let ed = t.accounts.escrow.data@;
    &&& ed.len() >= 113
    &&& escrow_address_for(
        t.accounts.maker.key@,
        Escrow::stored_seed(ed),
        Escrow::stored_bump(ed),
    ) == Some(t.accounts.escrow.key@)
    &&& transfer_ok(
        t.accounts.vault,
        t.accounts.taker_ata_a,
        t.accounts.escrow.key@,
        token_amount(t.accounts.vault.data@),
    )
    &&& t.accounts.maker.lamports + t.accounts.vault.lamports <= u64::MAX
    &&& transfer_ok(
        t.accounts.taker_ata_b,
        t.accounts.maker_ata_b,
        t.accounts.taker.key@,
        Escrow::stored_receive(ed),
    )
    &&& t.accounts.maker.lamports + t.accounts.vault.lamports + t.accounts.escrow.lamports
        <= u64::MAX
}

/// The first reason the settlement itself fails.
pub open spec fn take_process_err(t: Take) -> EscrowError {
    let ed = t.accounts.escrow.data@;
    if ed.len() < 113 {
        EscrowError::InvalidAccountData
    } else if escrow_address_for(
        t.accounts.maker.key@,
        Escrow::stored_seed(ed),
        Escrow::stored_bump(ed),
    ) is None {
        EscrowError::InvalidSeeds
    } else if escrow_address_for(
        t.accounts.maker.key@,
        Escrow::stored_seed(ed),
        Escrow::stored_bump(ed),
    ) != Some(t.accounts.escrow.key@) {
        EscrowError::InvalidAccountOwner
    } else if !token_data_ok(t.accounts.vault.data@) {
        EscrowError::InvalidAccountData
    } else if !transfer_ok(
        t.accounts.vault,
        t.accounts.taker_ata_a,
        t.accounts.escrow.key@,
        token_amount(t.accounts.vault.data@),
    ) {
        transfer_err(
            t.accounts.vault,
            t.accounts.taker_ata_a,
            t.accounts.escrow.key@,
            token_amount(t.accounts.vault.data@),
        )
    } else if t.accounts.maker.lamports + t.accounts.vault.lamports > u64::MAX {
        EscrowError::ArithmeticOverflow
    } else if !transfer_ok(
        t.accounts.taker_ata_b,
        t.accounts.maker_ata_b,
        t.accounts.taker.key@,
        Escrow::stored_receive(ed),
    ) {
        transfer_err(
            t.accounts.taker_ata_b,
            t.accounts.maker_ata_b,
            t.accounts.taker.key@,
            Escrow::stored_receive(ed),
        )
    } else {
        EscrowError::ArithmeticOverflow
    }
}

/// What a successful settlement leaves behind, over the validated accounts:
/// record and vault gone, their deposits with the maker, the vault's whole
/// balance with the taker, and the recorded amount moved to the maker.
pub open spec fn take_process_post(t: Take, o: Seq<AccountState>) -> bool {
    let ed = t.accounts.escrow.data@;
    let vault_amount = token_amount(t.accounts.vault.data@);
    let receive = Escrow::stored_receive(ed);
    &&& o.len() == 12
    &&& acc_eqv(t.accounts.taker, o[0])
    &&& o[1].key == t.accounts.maker.key
    &&& o[1].owner == t.accounts.maker.owner
    &&& o[1].is_signer == t.accounts.maker.is_signer
    &&& o[1].lamports == t.accounts.maker.lamports + t.accounts.vault.lamports
        + t.accounts.escrow.lamports
    &&& o[1].data@ == t.accounts.maker.data@
    &&& o[2].key == t.accounts.escrow.key
    &&& o[2].is_signer == t.accounts.escrow.is_signer
    &&& o[2].owner@ == crate::ids::spec_system_program_id()
    &&& o[2].lamports == 0
    &&& o[2].data@.len() == 0
    &&& acc_eqv(t.accounts.mint_a, o[3])
    &&& acc_eqv(t.accounts.mint_b, o[4])
    &&& o[5].key == t.accounts.vault.key
    &&& o[5].is_signer == t.accounts.vault.is_signer
    &&& o[5].owner@ == crate::ids::spec_system_program_id()
    &&& o[5].lamports == 0
    &&& o[5].data@.len() == 0
    &&& o[6].key == t.accounts.taker_ata_a.key
    &&& o[6].owner == t.accounts.taker_ata_a.owner
    &&& o[6].is_signer == t.accounts.taker_ata_a.is_signer
    &&& o[6].lamports == t.accounts.taker_ata_a.lamports
    &&& o[6].data@ == with_token_amount(
        t.accounts.taker_ata_a.data@,
        (token_amount(t.accounts.taker_ata_a.data@) + vault_amount) as u64,
    )
    &&& o[7].key == t.accounts.taker_ata_b.key
    &&& o[7].owner == t.accounts.taker_ata_b.owner
    &&& o[7].is_signer == t.accounts.taker_ata_b.is_signer
    &&& o[7].lamports == t.accounts.taker_ata_b.lamports
    &&& o[7].data@ == with_token_amount(
        t.accounts.taker_ata_b.data@,
        (token_amount(t.accounts.taker_ata_b.data@) - receive) as u64,
    )
    &&& o[8].key == t.accounts.maker_ata_b.key
    &&& o[8].owner == t.accounts.maker_ata_b.owner
    &&& o[8].is_signer == t.accounts.maker_ata_b.is_signer
    &&& o[8].lamports == t.accounts.maker_ata_b.lamports
    &&& o[8].data@ == with_token_amount(
        t.accounts.maker_ata_b.data@,
        (token_amount(t.accounts.maker_ata_b.data@) + receive) as u64,
    )
    &&& acc_eqv(t.accounts.system_program, o[9])
    &&& acc_eqv(t.accounts.token_program, o[10])
    &&& acc_eqv(t.accounts.associated_token_account_program, o[11])
}

impl Take {
    /// The request byte selecting Settle-Trade.
    pub const DISCRIMINATOR: u8 = 1;

    /// Validate a Settle-Trade request and run its creation phase: create the
    /// taker's receiving account and the maker's receiving account if either
    /// is absent, funded by the taker.
    pub fn try_from(accounts: &Vec<AccountState>) -> (r: Result<Take, EscrowError>)
        ensures
            r is Ok <==> take_setup_ok(accounts@),
            r matches Ok(t) ==> take_setup_post(accounts@, t),
            r matches Err(e) ==> e == take_setup_err(accounts@),
    {
        let t = match TakeAccounts::try_from(accounts) {
            Ok(t) => t,
            Err(e) => {
                return Err(e);
            },
        };
        let (taker, taker_ata_a) = match init_ata_if_needed(
            t.taker,
            t.taker_ata_a,
            &accounts[0].key,
            &t.mint_a.key,
        ) {
            Ok(p) => p,
            Err(e) => {
                return Err(e);
            },
        };
        let (taker, maker_ata_b) = match init_ata_if_needed(
            taker,
            t.maker_ata_b,
            &t.maker.key,
            &t.mint_b.key,
        ) {
            Ok(p) => p,
            Err(e) => {
                return Err(e);
            },
        };
        Ok(Take {
            accounts: TakeAccounts {
                taker,
                maker: t.maker,
                escrow: t.escrow,
                mint_a: t.mint_a,
                mint_b: t.mint_b,
                vault: t.vault,
                taker_ata_a,
                taker_ata_b: t.taker_ata_b,
                maker_ata_b,
                system_program: t.system_program,
                token_program: t.token_program,
                associated_token_account_program: t.associated_token_account_program,
            },
        })
    }

    /// Settle the trade: authenticate the escrow, pay the vault out to the
    /// taker, close the vault, move the recorded amount from the taker to the
    /// maker, and close the record, returning the twelve accounts' new states
    /// in positional order.
    pub fn process(self) -> (r: Result<Vec<AccountState>, EscrowError>)
        ensures
            r is Ok <==> take_process_ok(self),
            r matches Ok(v) ==> take_process_post(self, v@),
            r matches Err(e) ==> e == take_process_err(self),
    {
        let TakeAccounts {
            taker,
            maker,
            escrow,
            mint_a,
            mint_b,
            vault,
            taker_ata_a,
            taker_ata_b,
            maker_ata_b,
            system_program,
            token_program,
            associated_token_account_program,
        } = self.accounts;
        let record = match Escrow::load(escrow.data.as_slice()) {
            Ok(r) => r,
            Err(e) => {
                return Err(e);
            },
        };
        let expected = match create_escrow_address(&maker.key, record.seed, record.bump) {
            Some(k) => k,
            None => {
                return Err(EscrowError::InvalidSeeds);
            },
        };
        if !key_eq(&expected, &escrow.key) {
            return Err(EscrowError::InvalidAccountOwner);
        }
        let vault_amount = match read_token_amount(vault.data.as_slice()) {
            Ok(v) => v,
            Err(e) => {
                return Err(e);
            },
        };
        let (vault, taker_ata_a) = match token_transfer(
            vault,
            taker_ata_a,
            &escrow.key,
            vault_amount,
        ) {
            Ok(p) => p,
            Err(e) => {
                return Err(e);
            },
        };
        proof {
            crate::accounts::lemma_with_token_amount(self.accounts.vault.data@, 0u64);
        }
        let (vault, maker) = match close_token_account(vault, maker, &escrow.key) {
            Ok(p) => p,
            Err(e) => {
                return Err(e);
            },
        };
        let (taker_ata_b, maker_ata_b) = match token_transfer(
            taker_ata_b,
            maker_ata_b,
            &taker.key,
            record.receive,
        ) {
            Ok(p) => p,
            Err(e) => {
                return Err(e);
            },
        };
        let (escrow, maker) = match close_program_account(escrow, maker) {
            Ok(p) => p,
            Err(e) => {
                return Err(e);
            },
        };
        let mut out: Vec<AccountState> = Vec::new();
        out.push(taker);
        out.push(maker);
        out.push(escrow);
        out.push(mint_a);
        out.push(mint_b);
        out.push(vault);
        out.push(taker_ata_a);
        out.push(taker_ata_b);
        out.push(maker_ata_b);
        out.push(system_program);
        out.push(token_program);
        out.push(associated_token_account_program);
        Ok(out)
    }
}

} // verus!

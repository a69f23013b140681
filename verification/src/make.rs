//! The Open-Trade operation: validates the maker's accounts and payload,
//! creates the escrow record and its token vault at their deterministic
//! addresses, writes the record, and deposits the maker's offered tokens into
//! the vault.
//!
//! Every effect is functional: the operation returns the nine accounts' new
//! states in their positional order, or an error and no change at all.

use vstd::prelude::*;

use vstd::bytes::{spec_u64_from_le_bytes, u64_from_le_bytes};

use crate::accounts::{
    acc_eqv, check_associated_token_account, check_mint, check_signer,
    create_associated_token_account, create_owned_account, is_absent, is_canonical_ata, is_mint,
    spec_new_token_data, spec_storage_deposit, token_amount, token_transfer, transfer_ok,
    with_token_amount, AccountState,
};
use crate::error::EscrowError;
use crate::ids::{program_id, spec_program_id, spec_token_program_id};
use crate::pda::{escrow_address_for, escrow_derivation, find_escrow_address};
use crate::state::Escrow;

verus! {

broadcast use vstd::array::group_array_axioms;

/// The caller-chosen salt in an Open-Trade payload.
pub open spec fn seed_of(data: Seq<u8>) -> u64 {
    spec_u64_from_le_bytes(data.subrange(0, 8))
}

/// The required settlement amount in an Open-Trade payload.
pub open spec fn receive_of(data: Seq<u8>) -> u64 {
    spec_u64_from_le_bytes(data.subrange(8, 16))
}

/// The deposit amount in an Open-Trade payload.
pub open spec fn amount_of(data: Seq<u8>) -> u64 {
    spec_u64_from_le_bytes(data.subrange(16, 24))
}

/// The parsed Open-Trade payload: the trade's salt, the amount of the wanted
/// token required to settle, and the amount deposited now.
#[derive(Clone, Copy, Debug, PartialEq, Eq, Structural)]
pub struct MakeInstructionData {
    /// Caller-chosen salt distinguishing trades from the same maker.
    pub seed: u64,
    /// Exact amount of the wanted token required to settle.
    pub receive: u64,
    /// Amount of the offered token deposited into the vault.
    pub amount: u64,
}

impl MakeInstructionData {
    /// The payload parses: exactly 24 bytes, and a non-zero deposit.
    pub open spec fn spec_parse_ok(data: Seq<u8>) -> bool {
        &&& data.len() == 24
        &&& amount_of(data) != 0
    }

    /// Parse an Open-Trade payload: three little-endian 64-bit integers.
    /// Any other length is rejected, as is a zero deposit.
    pub fn try_from(data: &[u8]) -> (r: Result<MakeInstructionData, EscrowError>)
        ensures
            r is Ok <==> Self::spec_parse_ok(data@),
            r matches Ok(d) ==> d == (MakeInstructionData {
                seed: seed_of(data@),
                receive: receive_of(data@),
                amount: amount_of(data@),
            }),
            r is Err ==> r == Err::<MakeInstructionData, EscrowError>(
                EscrowError::InvalidInstructionData,
            ),
    {
        if data.len() != 24 {
            return Err(EscrowError::InvalidInstructionData);
        }
        let seed = u64_from_le_bytes(&data[0..8]);
        let receive = u64_from_le_bytes(&data[8..16]);
        let amount = u64_from_le_bytes(&data[16..24]);
        if amount == 0 {
            return Err(EscrowError::InvalidInstructionData);
        }
        Ok(MakeInstructionData { seed, receive, amount })
    }
}

/// The nine accounts of an Open-Trade request, in positional order, after the
/// basic validators have passed.
pub struct MakeAccounts {
    /// The signer opening the trade.
    pub maker: AccountState,
    /// The escrow record account, at its derived address.
    pub escrow: AccountState,
    /// The mint of the token being deposited.
    pub mint_a: AccountState,
    /// The mint of the token wanted in return.
    pub mint_b: AccountState,
    /// The maker's token account of `mint_a`.
    pub maker_ata_a: AccountState,
    /// The vault: the escrow's token account of `mint_a`.
    pub vault: AccountState,
    /// The system collaborator.
    pub system_program: AccountState,
    /// The token collaborator.
    pub token_program: AccountState,
    /// The associated-token collaborator.
    pub associated_token_account_program: AccountState,
}

/// The basic account validators of Open-Trade pass: nine accounts, a signing
/// maker, two structurally valid mints, and the maker's canonical token
/// account of the offered mint.
pub open spec fn make_accounts_ok(a: Seq<AccountState>) -> bool {
    &&& a.len() == 9
    &&& a[0].is_signer
    &&& is_mint(a[2])
    &&& is_mint(a[3])
    &&& is_canonical_ata(a[4], a[0].key@, a[2].key@)
}

/// The first reason the basic Open-Trade validators fail.
pub open spec fn make_accounts_err(a: Seq<AccountState>) -> EscrowError {
    if a.len() != 9 {
        EscrowError::NotEnoughAccountKeys
    } else if !a[0].is_signer {
        EscrowError::MissingRequiredSignature
    } else if !is_mint(a[2]) || !is_mint(a[3]) {
        EscrowError::InvalidAccountData
    } else {
        EscrowError::InvalidAssociatedAccount
    }
}

impl MakeAccounts {
    /// Validate and take the nine accounts of an Open-Trade request.
    pub fn try_from(accounts: &Vec<AccountState>) -> (r: Result<MakeAccounts, EscrowError>)
        ensures
            r is Ok <==> make_accounts_ok(accounts@),
            r matches Ok(m) ==> {
                &&& acc_eqv(accounts@[0], m.maker)
                &&& acc_eqv(accounts@[1], m.escrow)
                &&& acc_eqv(accounts@[2], m.mint_a)
                &&& acc_eqv(accounts@[3], m.mint_b)
                &&& acc_eqv(accounts@[4], m.maker_ata_a)
                &&& acc_eqv(accounts@[5], m.vault)
                &&& acc_eqv(accounts@[6], m.system_program)
                &&& acc_eqv(accounts@[7], m.token_program)
                &&& acc_eqv(accounts@[8], m.associated_token_account_program)
            },
            r matches Err(e) ==> e == make_accounts_err(accounts@),
    {
        if accounts.len() != 9 {
            return Err(EscrowError::NotEnoughAccountKeys);
        }
        if let Err(e) = check_signer(&accounts[0]) {
            return Err(e);
        }
        if let Err(e) = check_mint(&accounts[2]) {
            return Err(e);
        }
        if let Err(e) = check_mint(&accounts[3]) {
            return Err(e);
        }
        if let Err(e) = check_associated_token_account(&accounts[4], &accounts[0], &accounts[2]) {
            return Err(e);
        }
        Ok(MakeAccounts {
            maker: accounts[0].duplicate(),
            escrow: accounts[1].duplicate(),
            mint_a: accounts[2].duplicate(),
            mint_b: accounts[3].duplicate(),
            maker_ata_a: accounts[4].duplicate(),
            vault: accounts[5].duplicate(),
            system_program: accounts[6].duplicate(),
            token_program: accounts[7].duplicate(),
            associated_token_account_program: accounts[8].duplicate(),
        })
    }
}

/// The validations and creations of Open-Trade all pass: the basic checks,
/// a well-formed payload, an escrow account supplied at its derived address
/// and not yet in use, a vault supplied at its canonical address and not yet
/// in use, and a maker able to fund both storage deposits.
pub open spec fn make_setup_ok(a: Seq<AccountState>, data: Seq<u8>) -> bool {
    &&& make_accounts_ok(a)
    &&& MakeInstructionData::spec_parse_ok(data)
    &&& match escrow_derivation(a[0].key@, seed_of(data)) {
        Some(d) => a[1].key@ == d.0,
        None => false,
    }
    &&& is_absent(a[1])
    &&& a[0].lamports >= spec_storage_deposit(113) + spec_storage_deposit(165)
    &&& is_canonical_ata(a[5], a[1].key@, a[2].key@)
    &&& is_absent(a[5])
}

/// The first reason Open-Trade's validation or creation phase fails.
pub open spec fn make_setup_err(a: Seq<AccountState>, data: Seq<u8>) -> EscrowError {
    if !make_accounts_ok(a) {
        make_accounts_err(a)
    } else if !MakeInstructionData::spec_parse_ok(data) {
        EscrowError::InvalidInstructionData
    } else if escrow_derivation(a[0].key@, seed_of(data)) is None {
        EscrowError::InvalidSeeds
    } else if !match escrow_derivation(a[0].key@, seed_of(data)) {
        Some(d) => a[1].key@ == d.0,
        None => false,
    } {
        EscrowError::InvalidAccountOwner
    } else if !is_absent(a[1]) {
        EscrowError::AccountAlreadyInUse
    } else if a[0].lamports < spec_storage_deposit(113) {
        EscrowError::InsufficientFunds
    } else if !is_canonical_ata(a[5], a[1].key@, a[2].key@) {
        EscrowError::InvalidAssociatedAccount
    } else if !is_absent(a[5]) {
        EscrowError::AccountAlreadyInUse
    } else {
        EscrowError::InsufficientFunds
    }
}

/// What Open-Trade's validation and creation phase leaves behind: the maker
/// debited of both storage deposits, a zeroed escrow record account owned by
/// this program at the derived address, and a fresh, empty vault.
pub open spec fn make_setup_post(a: Seq<AccountState>, data: Seq<u8>, m: Make) -> bool {
    &&& m.instruction_data == (MakeInstructionData {
        seed: seed_of(data),
        receive: receive_of(data),
        amount: amount_of(data),
    })
    &&& escrow_derivation(a[0].key@, seed_of(data)) == Some((a[1].key@, m.bump))
    &&& escrow_address_for(a[0].key@, seed_of(data), m.bump) == Some(a[1].key@)
    &&& m.accounts.maker.key == a[0].key
    &&& m.accounts.maker.owner == a[0].owner
    &&& m.accounts.maker.is_signer == a[0].is_signer
    &&& m.accounts.maker.lamports == a[0].lamports - spec_storage_deposit(113)
        - spec_storage_deposit(165)
    &&& m.accounts.maker.data@ == a[0].data@
    &&& m.accounts.escrow.key == a[1].key
    &&& m.accounts.escrow.owner@ == spec_program_id()
    &&& m.accounts.escrow.is_signer == a[1].is_signer
    &&& m.accounts.escrow.lamports == spec_storage_deposit(113)
    &&& m.accounts.escrow.data@ == Seq::new(113, |i: int| 0u8)
    &&& acc_eqv(a[2], m.accounts.mint_a)
    &&& acc_eqv(a[3], m.accounts.mint_b)
    &&& acc_eqv(a[4], m.accounts.maker_ata_a)
    &&& m.accounts.vault.key == a[5].key
    &&& m.accounts.vault.owner@ == spec_token_program_id()
    &&& m.accounts.vault.is_signer == a[5].is_signer
    &&& m.accounts.vault.lamports == spec_storage_deposit(165)
    &&& m.accounts.vault.data@ == spec_new_token_data(a[2].key@, a[1].key@)
    &&& acc_eqv(a[6], m.accounts.system_program)
    &&& acc_eqv(a[7], m.accounts.token_program)
    &&& acc_eqv(a[8], m.accounts.associated_token_account_program)
}

/// A validated Open-Trade request, with its accounts already carried through
/// the creation phase and the derived bump of the escrow's address.
pub struct Make {
    /// The request's accounts after validation and creation.
    pub accounts: MakeAccounts,
    /// The parsed payload.
    pub instruction_data: MakeInstructionData,
    /// The canonical bump of the escrow's derived address.
    pub bump: u8,
}

impl Make {
    /// The request byte selecting Open-Trade.
    pub const DISCRIMINATOR: u8 = 0;

    /// Validate an Open-Trade request and run its creation phase: create the
    /// escrow record account at its derived address and the vault at its
    /// canonical address, both funded by the maker.
    pub fn try_from(data: &[u8], accounts: &Vec<AccountState>) -> (r: Result<Make, EscrowError>)
        ensures
            r is Ok <==> make_setup_ok(accounts@, data@),
            r matches Ok(m) ==> make_setup_post(accounts@, data@, m),
            r matches Err(e) ==> e == make_setup_err(accounts@, data@),
    {
        let m = match MakeAccounts::try_from(accounts) {
            Ok(m) => m,
            Err(e) => {
                return Err(e);
            },
        };
        let instruction_data = match MakeInstructionData::try_from(data) {
            Ok(d) => d,
            Err(e) => {
                return Err(e);
            },
        };
        let (derived, bump) = match find_escrow_address(&m.maker.key, instruction_data.seed) {
            Some(p) => p,
            None => {
                return Err(EscrowError::InvalidSeeds);
            },
        };
        if !crate::accounts::key_eq(&m.escrow.key, &derived) {
            return Err(EscrowError::InvalidAccountOwner);
        }
        let own_id = program_id();
        let (maker, escrow) = match create_owned_account(m.maker, m.escrow, 113, &own_id) {
            Ok(p) => p,
            Err(e) => {
                return Err(e);
            },
        };
        let (maker, vault) = match create_associated_token_account(
            maker,
            m.vault,
            &escrow.key,
            &m.mint_a.key,
        ) {
            Ok(p) => p,
            Err(e) => {
                return Err(e);
            },
        };
        Ok(Make {
            accounts: MakeAccounts {
                maker,
                escrow,
                mint_a: m.mint_a,
                mint_b: m.mint_b,
                maker_ata_a: m.maker_ata_a,
                vault,
                system_program: m.system_program,
                token_program: m.token_program,
                associated_token_account_program: m.associated_token_account_program,
            },
            instruction_data,
            bump,
        })
    }

    /// The record this request writes into the escrow account.
    pub open spec fn spec_record(self) -> Escrow {
        Escrow {
            seed: self.instruction_data.seed,
            maker: self.accounts.maker.key,
            mint_a: self.accounts.mint_a.key,
            mint_b: self.accounts.mint_b.key,
            receive: self.instruction_data.receive,
            bump: self.bump,
        }
    }

    /// Populate the escrow record and deposit the maker's offered tokens into
    /// the vault, returning the nine accounts' new states in positional
    /// order.
    pub fn process(self) -> (r: Result<Vec<AccountState>, EscrowError>)
        ensures
            r is Ok <==> transfer_ok(
                self.accounts.maker_ata_a,
                self.accounts.vault,
                self.accounts.maker.key@,
                self.instruction_data.amount,
            ),
            r matches Ok(v) ==> {
                &&& v@.len() == 9
                &&& acc_eqv(self.accounts.maker, v@[0])
                &&& v@[1].key == self.accounts.escrow.key
                &&& v@[1].owner == self.accounts.escrow.owner
                &&& v@[1].is_signer == self.accounts.escrow.is_signer
                &&& v@[1].lamports == self.accounts.escrow.lamports
                &&& v@[1].data@ == self.spec_record().spec_encode()
                &&& Escrow::decodes_to(v@[1].data@, self.spec_record())
                &&& acc_eqv(self.accounts.mint_a, v@[2])
                &&& acc_eqv(self.accounts.mint_b, v@[3])
                &&& v@[4].key == self.accounts.maker_ata_a.key
                &&& v@[4].owner == self.accounts.maker_ata_a.owner
                &&& v@[4].is_signer == self.accounts.maker_ata_a.is_signer
                &&& v@[4].lamports == self.accounts.maker_ata_a.lamports
                &&& v@[4].data@ == with_token_amount(
                    self.accounts.maker_ata_a.data@,
                    (token_amount(self.accounts.maker_ata_a.data@)
                        - self.instruction_data.amount) as u64,
                )
                &&& v@[5].key == self.accounts.vault.key
                &&& v@[5].owner == self.accounts.vault.owner
                &&& v@[5].is_signer == self.accounts.vault.is_signer
                &&& v@[5].lamports == self.accounts.vault.lamports
                &&& v@[5].data@ == with_token_amount(
                    self.accounts.vault.data@,
                    (token_amount(self.accounts.vault.data@)
                        + self.instruction_data.amount) as u64,
                )
                &&& acc_eqv(self.accounts.system_program, v@[6])
                &&& acc_eqv(self.accounts.token_program, v@[7])
                &&& acc_eqv(self.accounts.associated_token_account_program, v@[8])
            },
            r matches Err(e) ==> e == crate::accounts::transfer_err(
                self.accounts.maker_ata_a,
                self.accounts.vault,
                self.accounts.maker.key@,
                self.instruction_data.amount,
            ),
    {
        let record = Escrow {
            seed: self.instruction_data.seed,
            maker: self.accounts.maker.key,
            mint_a: self.accounts.mint_a.key,
            mint_b: self.accounts.mint_b.key,
            receive: self.instruction_data.receive,
            bump: self.bump,
        };
        let record_bytes = record.to_bytes();
        proof {
            Escrow::lemma_encode_decodes(record);
        }
        let escrow = AccountState { data: record_bytes, ..self.accounts.escrow };
        let (maker_ata_a, vault) = match token_transfer(
            self.accounts.maker_ata_a,
            self.accounts.vault,
            &self.accounts.maker.key,
            self.instruction_data.amount,
        ) {
            Ok(p) => p,
            Err(e) => {
                return Err(e);
            },
        };
        let mut out: Vec<AccountState> = Vec::new();
        out.push(self.accounts.maker);
        out.push(escrow);
        out.push(self.accounts.mint_a);
        out.push(self.accounts.mint_b);
        out.push(maker_ata_a);
        out.push(vault);
        out.push(self.accounts.system_program);
        out.push(self.accounts.token_program);
        out.push(self.accounts.associated_token_account_program);
        Ok(out)
    }
}

} // verus!

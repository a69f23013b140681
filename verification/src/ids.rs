//! The fixed program identities this escrow interacts with, as 32-byte
//! addresses, together with the sizes of the account records it reads.

use vstd::prelude::*;

verus! {

/// This escrow program's own identity: every escrow record account is owned
/// by this address, and every escrow address is derived under it.
pub open spec fn spec_program_id() -> Seq<u8> {
    seq![
        11u8, 17, 183, 34, 92, 5, 201, 78, 164, 240, 33, 147, 58, 96, 12, 220, 41, 7, 153, 66,
        129, 250, 23, 88, 170, 45, 199, 102, 61, 14, 236, 73,
    ]
}

/// This escrow program's own identity, as the 32 bytes of its address.
pub fn program_id() -> (r: [u8; 32])
    ensures
        r@ == spec_program_id(),
{
    let r: [u8; 32] = [
        11, 17, 183, 34, 92, 5, 201, 78, 164, 240, 33, 147, 58, 96, 12, 220, 41, 7, 153, 66, 129,
        250, 23, 88, 170, 45, 199, 102, 61, 14, 236, 73,
    ];
    proof {
        assert(r@ =~= spec_program_id());
    }
    r
}

/// The system program's identity: the owner of wallet accounts and of every
/// account that has not been created yet.
pub open spec fn spec_system_program_id() -> Seq<u8> {
    Seq::new(32, |i: int| 0u8)
}

/// The system program's identity, as the 32 bytes of its address.
pub fn system_program_id() -> (r: [u8; 32])
    ensures
        r@ == spec_system_program_id(),
{
    let r: [u8; 32] = [0; 32];
    proof {
        assert(r@ =~= spec_system_program_id());
    }
    r
}

/// The token program's identity: the owner of every mint and token account.
pub open spec fn spec_token_program_id() -> Seq<u8> {
    seq![
        6u8, 221, 246, 225, 215, 101, 161, 147, 217, 203, 225, 70, 206, 235, 121, 172, 28, 180,
        133, 237, 95, 91, 55, 145, 58, 140, 245, 133, 126, 255, 0, 169,
    ]
}

/// The token program's identity, as the 32 bytes of its address.
pub fn token_program_id() -> (r: [u8; 32])
    ensures
        r@ == spec_token_program_id(),
{
    let r: [u8; 32] = [
        6, 221, 246, 225, 215, 101, 161, 147, 217, 203, 225, 70, 206, 235, 121, 172, 28, 180, 133,
        237, 95, 91, 55, 145, 58, 140, 245, 133, 126, 255, 0, 169,
    ];
    proof {
        assert(r@ =~= spec_token_program_id());
    }
    r
}

/// The associated-token-account program's identity: the namespace under which
/// the canonical token account of an (owner, mint) pair is derived.
pub open spec fn spec_ata_program_id() -> Seq<u8> {
    seq![
        140u8, 151, 37, 143, 78, 36, 137, 241, 187, 61, 16, 41, 20, 142, 13, 131, 11, 90, 19, 153,
        218, 255, 16, 132, 4, 142, 123, 216, 219, 233, 248, 89,
    ]
}

/// The associated-token-account program's identity, as the 32 bytes of its
/// address.
pub fn ata_program_id() -> (r: [u8; 32])
    ensures
        r@ == spec_ata_program_id(),
{
    let r: [u8; 32] = [
        140, 151, 37, 143, 78, 36, 137, 241, 187, 61, 16, 41, 20, 142, 13, 131, 11, 90, 19, 153,
        218, 255, 16, 132, 4, 142, 123, 216, 219, 233, 248, 89,
    ];
    proof {
        assert(r@ =~= spec_ata_program_id());
    }
    r
}

/// Size of a mint record, in bytes.
pub const MINT_LEN: usize = 82;

/// Size of a token account record, in bytes.
pub const TOKEN_ACCOUNT_LEN: usize = 165;

} // verus!

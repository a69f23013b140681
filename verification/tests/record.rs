//! The escrow record's fixed layout and the Open-Trade payload.

use escrow::error::EscrowError;
use escrow::make::MakeInstructionData;
use escrow::state::Escrow;

fn key(n: u8) -> [u8; 32] {
    let mut k = [0u8; 32];
    k[0] = n;
    k[31] = n;
    k
}

fn payload(seed: u64, receive: u64, amount: u64) -> Vec<u8> {
    let mut p = Vec::new();
    p.extend_from_slice(&seed.to_le_bytes());
    p.extend_from_slice(&receive.to_le_bytes());
    p.extend_from_slice(&amount.to_le_bytes());
    p
}

#[test]
fn record_round_trips() {
    let rec = Escrow {
        seed: 42,
        maker: key(1),
        mint_a: key(2),
        mint_b: key(3),
        receive: 100_000_000,
        bump: 254,
    };
    let bytes = rec.to_bytes();
    assert_eq!(bytes.len(), 113);
    let back = Escrow::load(&bytes).unwrap();
    assert_eq!(back, rec);
}

#[test]
fn record_layout_is_fixed() {
    let rec = Escrow {
        seed: 0x0102030405060708,
        maker: key(9),
        mint_a: key(10),
        mint_b: key(11),
        receive: 7,
        bump: 200,
    };
    let bytes = rec.to_bytes();
    assert_eq!(&bytes[0..8], &[8, 7, 6, 5, 4, 3, 2, 1]);
    assert_eq!(&bytes[8..40], &key(9));
    assert_eq!(&bytes[40..72], &key(10));
    assert_eq!(&bytes[72..104], &key(11));
    assert_eq!(&bytes[104..112], &7u64.to_le_bytes());
    assert_eq!(bytes[112], 200);
}

#[test]
fn record_rejects_short_buffer() {
    let bytes = vec![0u8; 112];
    assert_eq!(Escrow::load(&bytes), Err(EscrowError::InvalidAccountData));
}

#[test]
fn payload_parses_exact_fields() {
    let p = payload(42, 100_000_000, 500_000_000);
    let d = MakeInstructionData::try_from(&p).unwrap();
    assert_eq!(d.seed, 42);
    assert_eq!(d.receive, 100_000_000);
    assert_eq!(d.amount, 500_000_000);
}

#[test]
fn payload_rejects_zero_amount() {
    let p = payload(42, 100_000_000, 0);
    assert_eq!(
        MakeInstructionData::try_from(&p),
        Err(EscrowError::InvalidInstructionData)
    );
}

#[test]
fn payload_rejects_wrong_length() {
    let p = payload(42, 100_000_000, 500_000_000);
    let short = &p[0..23];
    assert_eq!(
        MakeInstructionData::try_from(short),
        Err(EscrowError::InvalidInstructionData)
    );
    let mut long = p.clone();
    long.push(0);
    assert_eq!(
        MakeInstructionData::try_from(&long),
        Err(EscrowError::InvalidInstructionData)
    );
    assert_eq!(
        MakeInstructionData::try_from(&[]),
        Err(EscrowError::InvalidInstructionData)
    );
}

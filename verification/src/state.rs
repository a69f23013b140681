//! The escrow record: the sole persistent entity, stored as a fixed-layout
//! 113-byte buffer (`seed | maker | mint_a | mint_b | receive | bump`, with
//! the two integers little-endian).
//!
//! The record is written once when a trade is opened and destroyed when it is
//! settled; there is no update path. Reading a buffer shorter than the fixed
//! size is a fatal format error.

use vstd::prelude::*;

use vstd::bytes::{
    lemma_auto_spec_u64_to_from_le_bytes, spec_u64_from_le_bytes, spec_u64_to_le_bytes,
    u64_from_le_bytes, u64_to_le_bytes,
};

use crate::error::EscrowError;

verus! {

broadcast use vstd::array::group_array_axioms;

/// One open trade: who opened it, what they deposited, what they want back,
/// and the bump value that validates the escrow's derived address.
#[derive(Clone, Copy, Debug, PartialEq, Eq)]
pub struct Escrow {
    /// Caller-chosen salt distinguishing trades from the same maker.
    pub seed: u64,
    /// The account that opened the trade.
    pub maker: [u8; 32],
    /// The token type the maker deposited.
    pub mint_a: [u8; 32],
    /// The token type the maker wants in return.
    pub mint_b: [u8; 32],
    /// The exact amount of `mint_b` required to settle.
    pub receive: u64,
    /// The canonical derivation parameter of the escrow's address.
    pub bump: u8,
}

/// Copy the 32 bytes of `data` starting at `off` into an address.
pub(crate) fn read_address(data: &[u8], off: usize) -> (r: [u8; 32])
    requires
        off + 32 <= data@.len(),
    ensures
        r@ == data@.subrange(off as int, off + 32),
{
    let n: usize = data.len();
    let mut r: [u8; 32] = [0; 32];
    let mut i: usize = 0;
    while i < 32
        invariant
            0 <= i <= 32,
            off + 32 <= n == data@.len(),
            forall|j: int| 0 <= j < i ==> r@[j] == data@[off + j],
        decreases 32 - i,
    {
        r[i] = data[off + i];
        i = i + 1;
    }
    proof {
        assert(r@ =~= data@.subrange(off as int, off + 32));
    }
    r
}

/// Append the 32 bytes of an address to `out`.
pub(crate) fn push_address(out: &mut Vec<u8>, addr: &[u8; 32])
    ensures
        final(out)@ == old(out)@ + addr@,
{
    let mut i: usize = 0;
    while i < 32
        invariant
            0 <= i <= 32,
            out@ == old(out)@ + addr@.subrange(0, i as int),
        decreases 32 - i,
    {
        out.push(addr[i]);
        proof {
            assert(out@ =~= old(out)@ + addr@.subrange(0, i + 1));
        }
        i = i + 1;
    }
    proof {
        assert(addr@.subrange(0, 32) =~= addr@);
    }
}

impl Escrow {
    /// Size of the stored record, in bytes.
    pub const LEN: usize = 113;

    /// The salt stored in a record buffer.
    pub open spec fn stored_seed(data: Seq<u8>) -> u64 {
        spec_u64_from_le_bytes(data.subrange(0, 8))
    }

    /// The required settlement amount stored in a record buffer.
    pub open spec fn stored_receive(data: Seq<u8>) -> u64 {
        spec_u64_from_le_bytes(data.subrange(104, 112))
    }

    /// The derivation bump stored in a record buffer.
    pub open spec fn stored_bump(data: Seq<u8>) -> u8 {
        data[112]
    }

    /// What it means for a buffer to hold this record at the fixed layout.
    pub open spec fn decodes_to(data: Seq<u8>, e: Escrow) -> bool {
        &&& data.len() >= 113
        &&& e.seed == spec_u64_from_le_bytes(data.subrange(0, 8))
        &&& e.maker@ == data.subrange(8, 40)
        &&& e.mint_a@ == data.subrange(40, 72)
        &&& e.mint_b@ == data.subrange(72, 104)
        &&& e.receive == spec_u64_from_le_bytes(data.subrange(104, 112))
        &&& e.bump == data[112]
    }

    /// The exact 113-byte encoding of this record.
    pub open spec fn spec_encode(self) -> Seq<u8> {
        spec_u64_to_le_bytes(self.seed) + self.maker@ + self.mint_a@ + self.mint_b@
            + spec_u64_to_le_bytes(self.receive) + seq![self.bump]
    }

    /// Read a record out of a raw buffer, rejecting a buffer shorter than the
    /// fixed layout as a format error.
    pub fn load(data: &[u8]) -> (r: Result<Escrow, EscrowError>)
        ensures
            r is Ok <==> data@.len() >= 113,
            r matches Ok(e) ==> Self::decodes_to(data@, e),
            r is Err ==> r == Err::<Escrow, EscrowError>(EscrowError::InvalidAccountData),
    {
        if data.len() < 113 {
            return Err(EscrowError::InvalidAccountData);
        }
        let seed = u64_from_le_bytes(&data[0..8]);
        let maker = read_address(data, 8);
        let mint_a = read_address(data, 40);
        let mint_b = read_address(data, 72);
        let receive = u64_from_le_bytes(&data[104..112]);
        let bump = data[112];
        Ok(Escrow { seed, maker, mint_a, mint_b, receive, bump })
    }

    /// Write the record out at the fixed layout.
    pub fn to_bytes(&self) -> (r: Vec<u8>)
        ensures
            r@ == self.spec_encode(),
            r@.len() == 113,
    {
        proof {
            lemma_auto_spec_u64_to_from_le_bytes();
        }
        let mut r = u64_to_le_bytes(self.seed);
        push_address(&mut r, &self.maker);
        push_address(&mut r, &self.mint_a);
        push_address(&mut r, &self.mint_b);
        let mut tail = u64_to_le_bytes(self.receive);
        r.append(&mut tail);
        r.push(self.bump);
        proof {
            assert(r@ =~= self.spec_encode());
        }
        r
    }

    /// A written record reads back as itself: the encoding round-trips.
    pub proof fn lemma_encode_decodes(e: Escrow)
        ensures
            Self::decodes_to(e.spec_encode(), e),
    {
        lemma_auto_spec_u64_to_from_le_bytes();
        let d = e.spec_encode();
        assert(d.subrange(0, 8) =~= spec_u64_to_le_bytes(e.seed));
        assert(d.subrange(8, 40) =~= e.maker@);
        assert(d.subrange(40, 72) =~= e.mint_a@);
        assert(d.subrange(72, 104) =~= e.mint_b@);
        assert(d.subrange(104, 112) =~= spec_u64_to_le_bytes(e.receive));
        assert(d[112] == e.bump);
    }

    /// A buffer holds at most one record: decoding is unambiguous.
    pub proof fn lemma_decode_unique(data: Seq<u8>, e1: Escrow, e2: Escrow)
        requires
            Self::decodes_to(data, e1),
            Self::decodes_to(data, e2),
        ensures
            e1 == e2,
    {
        assert(e1.maker =~= e2.maker);
        assert(e1.mint_a =~= e2.mint_a);
        assert(e1.mint_b =~= e2.mint_b);
    }
}

} // verus!

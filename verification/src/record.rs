//! The fixed 49-byte persisted layout of a wallet record.
//!
//! A stored record is an 8-byte type discriminator, the 32-byte owner
//! identity, the signed 64-bit release time in little-endian order, and the
//! one-byte derivation discriminant. The balance is not part of the record:
//! it is the value held at the record's address.

use vstd::bytes::{
    lemma_auto_spec_u64_to_from_le_bytes, spec_u64_to_le_bytes, u64_from_le_bytes,
    u64_to_le_bytes,
};
use vstd::prelude::*;
use vstd::slice::slice_subrange;

use crate::wallet::Wallet;

verus! {

/// Size of a persisted record in bytes: discriminator, owner, release time,
/// derivation tag.
pub const RECORD_BYTES: usize = 49;

/// The 8-byte type discriminator opening every record; its little-endian
/// bytes spell out the record type.
pub const WALLET_DISCRIMINATOR: u64 = 0x6b636f6c656d6974;

/// The bytes that persist a wallet record.
pub open spec fn spec_record_bytes(w: Wallet) -> Seq<u8> {
    spec_u64_to_le_bytes(WALLET_DISCRIMINATOR) + w.owner@ + spec_u64_to_le_bytes(
        w.release_time as u64,
    ) + seq![w.derivation_tag]
}

/// Whether a byte string has the size and discriminator of a record.
pub open spec fn is_record(s: Seq<u8>) -> bool {
    &&& s.len() == RECORD_BYTES
    &&& s.subrange(0, 8) == spec_u64_to_le_bytes(WALLET_DISCRIMINATOR)
}

/// Record encodings are injective: byte-identical encodings come from the
/// same record.
pub proof fn lemma_record_bytes_injective(w1: Wallet, w2: Wallet)
    requires
        spec_record_bytes(w1) == spec_record_bytes(w2),
    ensures
        w1 == w2,
{
    lemma_auto_spec_u64_to_from_le_bytes();
    let s = spec_record_bytes(w1);
    assert(w1.owner@ =~= s.subrange(8, 40));
    assert(w2.owner@ =~= s.subrange(8, 40));
    assert(w1.owner =~= w2.owner);
    assert(spec_u64_to_le_bytes(w1.release_time as u64) =~= s.subrange(40, 48));
    assert(spec_u64_to_le_bytes(w2.release_time as u64) =~= s.subrange(40, 48));
    let r1 = w1.release_time;
    let r2 = w2.release_time;
    assert(r1 as u64 == r2 as u64 ==> r1 == r2) by (bit_vector);
    assert(w1.derivation_tag == s[48] && w2.derivation_tag == s[48]);
}

/// Writes a wallet record in its persisted 49-byte layout.
pub fn encode_record(w: &Wallet) -> (out: Vec<u8>)
    ensures
        out@ == spec_record_bytes(*w),
        out@.len() == RECORD_BYTES,
        is_record(out@),
{
    proof {
        lemma_auto_spec_u64_to_from_le_bytes();
    }
    let mut out = u64_to_le_bytes(WALLET_DISCRIMINATOR);
    let mut k: usize = 0;
    while k < 32
        invariant
            k <= 32,
            out@ == spec_u64_to_le_bytes(WALLET_DISCRIMINATOR) + w.owner@.subrange(0, k as int),
        decreases 32 - k,
    {
        out.push(w.owner[k]);
        proof {
            assert(out@ =~= spec_u64_to_le_bytes(WALLET_DISCRIMINATOR) + w.owner@.subrange(
                0,
                k + 1,
            ));
        }
        k += 1;
    }
    let mut release = u64_to_le_bytes(w.release_time as u64);
    out.append(&mut release);
    out.push(w.derivation_tag);
    proof {
        assert(w.owner@.subrange(0, 32) =~= w.owner@);
        assert(out@ =~= spec_record_bytes(*w));
        assert(out@.subrange(0, 8) =~= spec_u64_to_le_bytes(WALLET_DISCRIMINATOR));
    }
    out
}

/// Reads a wallet record back from its persisted layout. Returns the record
/// exactly when the bytes have the record size and discriminator; whatever
/// is returned re-encodes to the very bytes given.
pub fn decode_record(bytes: &Vec<u8>) -> (r: Option<Wallet>)
    ensures
        r is Some <==> is_record(bytes@),
        r matches Some(w) ==> spec_record_bytes(w) == bytes@,
{
    proof {
        lemma_auto_spec_u64_to_from_le_bytes();
    }
    if bytes.len() != RECORD_BYTES {
        return None;
    }
    let disc = u64_from_le_bytes(slice_subrange(bytes.as_slice(), 0, 8));
    if disc != WALLET_DISCRIMINATOR {
        return None;
    }
    let mut owner = [0u8; 32];
    let mut k: usize = 0;
    while k < 32
        invariant
            k <= 32,
            bytes@.len() == RECORD_BYTES,
            forall|j: int| 0 <= j < k ==> owner@[j] == bytes@[8 + j],
        decreases 32 - k,
    {
        owner[k] = bytes[8 + k];
        k += 1;
    }
    let release_u = u64_from_le_bytes(slice_subrange(bytes.as_slice(), 40, 48));
    let release_time = release_u as i64;
    let derivation_tag = bytes[48];
    let w = Wallet { owner, release_time, derivation_tag };
    proof {
        assert(w.owner@ =~= bytes@.subrange(8, 40));
        assert(release_time as u64 == release_u) by (bit_vector)
            requires
                release_time == release_u as i64,
        ;
        assert(spec_u64_to_le_bytes(release_u) =~= bytes@.subrange(40, 48));
        assert(spec_record_bytes(w) =~= bytes@);
    }
    Some(w)
}

} // verus!

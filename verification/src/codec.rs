//! Fixed-width encoding and decoding of the persisted escrow record.
//!
//! The on-wire layout, field order significant and every integer
//! little-endian: depositor identity (32 bytes), recipient identity
//! (32 bytes), amount (8 bytes, unsigned), expiry (8 bytes, signed,
//! unix seconds), status (1 byte, `0` Pending / `1` Completed /
//! `2` Cancelled), signing bump (1 byte).

use vstd::bytes::*;
use vstd::prelude::*;

use crate::errors::EscrowError;
use crate::record::{Escrow, EscrowStatus, EscrowView};

verus! {

/// Width in bytes of one persisted record.
pub const RECORD_LEN: usize = 82;

/// The single-byte tag a status is persisted as.
pub open spec fn spec_status_byte(s: EscrowStatus) -> u8 {
    match s {
        EscrowStatus::Pending => 0,
        EscrowStatus::Completed => 1,
        EscrowStatus::Cancelled => 2,
    }
}

/// The status a persisted byte stands for; `None` for a byte outside
/// the known tags, which an exhaustive decode must reject.
pub open spec fn spec_status_from_byte(b: u8) -> Option<EscrowStatus> {
    if b == 0 {
        Some(EscrowStatus::Pending)
    } else if b == 1 {
        Some(EscrowStatus::Completed)
    } else if b == 2 {
        Some(EscrowStatus::Cancelled)
    } else {
        None
    }
}

/// Writes a status as its single-byte tag.
pub fn status_byte(s: EscrowStatus) -> (b: u8)
    ensures
        b == spec_status_byte(s),
{
    match s {
        EscrowStatus::Pending => 0,
        EscrowStatus::Completed => 1,
        EscrowStatus::Cancelled => 2,
    }
}

/// Reads a status back from its single-byte tag, rejecting unknown tags.
pub fn status_from_byte(b: u8) -> (r: Option<EscrowStatus>)
    ensures
        r == spec_status_from_byte(b),
{
    if b == 0 {
        Some(EscrowStatus::Pending)
    } else if b == 1 {
        Some(EscrowStatus::Completed)
    } else if b == 2 {
        Some(EscrowStatus::Cancelled)
    } else {
        None
    }
}

/// The unsigned 64-bit word that carries a signed expiry on the wire:
/// the two's-complement image of `x`.
pub open spec fn spec_i64_to_u64(x: i64) -> u64 {
    if x >= 0 {
        x as u64
    } else {
        (x + 0x1_0000_0000_0000_0000) as u64
    }
}

/// Reads a signed expiry back out of its two's-complement wire word.
pub open spec fn spec_u64_to_i64(x: u64) -> i64 {
    if x <= 0x7fff_ffff_ffff_ffff {
        x as i64
    } else {
        (x - 0x1_0000_0000_0000_0000) as i64
    }
}

/// The two's-complement images of the signed and unsigned 64-bit ranges
/// are inverse to one another.
pub proof fn lemma_i64_u64_round_trip(x: i64)
    ensures
        spec_u64_to_i64(spec_i64_to_u64(x)) == x,
{
}

fn i64_to_u64(x: i64) -> (r: u64)
    ensures
        r == spec_i64_to_u64(x),
{
    if x >= 0 {
        x as u64
    } else {
        let magnitude: u64 = (-(x + 1)) as u64;
        0xffff_ffff_ffff_ffffu64 - magnitude
    }
}

fn u64_to_i64(x: u64) -> (r: i64)
    ensures
        r == spec_u64_to_i64(x),
{
    if x <= 0x7fff_ffff_ffff_ffff {
        x as i64
    } else {
        let magnitude: u64 = 0xffff_ffff_ffff_ffffu64 - x;
        -(magnitude as i64) - 1
    }
}

/// The bytes a record is persisted as.
pub open spec fn spec_encode(v: EscrowView) -> Seq<u8>
    recommends
        v.wf(),
{
    v.depositor + v.recipient + spec_u64_to_le_bytes(v.amount) + spec_u64_to_le_bytes(
        spec_i64_to_u64(v.expiry),
    ) + seq![spec_status_byte(v.status), v.bump]
}

/// The record a persisted byte region holds: `Truncated` when fewer than
/// [`RECORD_LEN`] bytes are supplied, `InvalidStatus` when the status
/// byte is outside the known tags, and the decoded record otherwise.
pub open spec fn spec_decode(bytes: Seq<u8>) -> Result<EscrowView, EscrowError> {
    if bytes.len() < RECORD_LEN {
        Err(EscrowError::Truncated)
    } else {
        match spec_status_from_byte(bytes[80]) {
            None => Err(EscrowError::InvalidStatus),
            Some(st) => Ok(
                EscrowView {
                    depositor: bytes.subrange(0, 32),
                    recipient: bytes.subrange(32, 64),
                    amount: spec_u64_from_le_bytes(bytes.subrange(64, 72)),
                    expiry: spec_u64_to_i64(spec_u64_from_le_bytes(bytes.subrange(72, 80))),
                    status: st,
                    bump: bytes[81],
                },
            ),
        }
    }
}

/// Encodes a record into its fixed-width persisted form. Never fails.
pub fn encode(record: &Escrow) -> (out: Vec<u8>)
    ensures
        out@ == spec_encode(record@),
        out@.len() == RECORD_LEN,
{
    let mut out: Vec<u8> = Vec::new();
    let mut i: usize = 0;
    while i < 32
        invariant
            0 <= i <= 32,
            out@ == record.depositor@.take(i as int),
        decreases 32 - i,
    {
        out.push(record.depositor[i]);
        proof {
            assert(record.depositor@.take(i + 1) =~= record.depositor@.take(i as int).push(
                record.depositor@[i as int],
            ));
        }
        i += 1;
    }
    proof {
        assert(record.depositor@.take(32) =~= record.depositor@);
    }
    let mut i: usize = 0;
    while i < 32
        invariant
            0 <= i <= 32,
            out@ == record.depositor@ + record.recipient@.take(i as int),
        decreases 32 - i,
    {
        out.push(record.recipient[i]);
        proof {
            assert(record.recipient@.take(i + 1) =~= record.recipient@.take(i as int).push(
                record.recipient@[i as int],
            ));
            assert(record.depositor@ + record.recipient@.take(i + 1) =~= (record.depositor@
                + record.recipient@.take(i as int)).push(record.recipient@[i as int]));
        }
        i += 1;
    }
    proof {
        assert(record.recipient@.take(32) =~= record.recipient@);
    }
    let mut amount_bytes = u64_to_le_bytes(record.amount);
    out.append(&mut amount_bytes);
    let mut expiry_bytes = u64_to_le_bytes(i64_to_u64(record.expiry));
    out.append(&mut expiry_bytes);
    out.push(status_byte(record.status));
    out.push(record.bump);
    proof {
        lemma_auto_spec_u64_to_from_le_bytes();
        assert(out@ =~= spec_encode(record@));
    }
    out
}

/// The model of what `decode` hands back.
pub open spec fn decode_result_view(r: Result<Escrow, EscrowError>) -> Result<
    EscrowView,
    EscrowError,
> {
    match r {
        Ok(e) => Ok(e@),
        Err(err) => Err(err),
    }
}

/// Decodes a persisted byte region back into a record, rejecting short
/// regions and unknown status tags exactly as [`spec_decode`] says.
pub fn decode(bytes: &[u8]) -> (r: Result<Escrow, EscrowError>)
    ensures
        decode_result_view(r) == spec_decode(bytes@),
{
    if bytes.len() < RECORD_LEN {
        return Err(EscrowError::Truncated);
    }
    let status = match status_from_byte(bytes[80]) {
        None => {
            return Err(EscrowError::InvalidStatus);
        },
        Some(st) => st,
    };
    let mut depositor: [u8; 32] = [0u8; 32];
    let mut i: usize = 0;
    while i < 32
        invariant
            0 <= i <= 32,
            bytes@.len() >= 82,
            forall|j: int| 0 <= j < i ==> depositor@[j] == bytes@[j],
        decreases 32 - i,
    {
        depositor[i] = bytes[i];
        i += 1;
    }
    let mut recipient: [u8; 32] = [0u8; 32];
    let mut i: usize = 0;
    while i < 32
        invariant
            0 <= i <= 32,
            bytes@.len() >= 82,
            forall|j: int| 0 <= j < i ==> recipient@[j] == bytes@[32 + j],
        decreases 32 - i,
    {
        recipient[i] = bytes[32 + i];
        i += 1;
    }
    let amount = u64_from_le_bytes(vstd::slice::slice_subrange(bytes, 64, 72));
    let expiry = u64_to_i64(u64_from_le_bytes(vstd::slice::slice_subrange(bytes, 72, 80)));
    let record = Escrow { depositor, recipient, amount, expiry, status, bump: bytes[81] };
    proof {
        assert(record.depositor@ =~= bytes@.subrange(0, 32));
        assert(record.recipient@ =~= bytes@.subrange(32, 64));
        assert(record@ =~= spec_decode(bytes@)->Ok_0);
    }
    Ok(record)
}

/// Round-trip law: decoding an encoded record yields the record back,
/// for every well-formed record.
pub proof fn lemma_encode_decode(v: EscrowView)
    requires
        v.wf(),
    ensures
        spec_decode(spec_encode(v)) == Ok::<EscrowView, EscrowError>(v),
{
    lemma_auto_spec_u64_to_from_le_bytes();
    lemma_i64_u64_round_trip(v.expiry);
    let b = spec_encode(v);
    assert(b.len() == 82);
    assert(b[80] == spec_status_byte(v.status));
    assert(b[81] == v.bump);
    assert(b.subrange(0, 32) =~= v.depositor);
    assert(b.subrange(32, 64) =~= v.recipient);
    assert(b.subrange(64, 72) =~= spec_u64_to_le_bytes(v.amount));
    assert(b.subrange(72, 80) =~= spec_u64_to_le_bytes(spec_i64_to_u64(v.expiry)));
    assert(spec_decode(spec_encode(v))->Ok_0 =~= v);
}

} // verus!

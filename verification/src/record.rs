//! The persisted state of one escrow instance.

use vstd::prelude::*;

verus! {

/// A party's public identity: an opaque 32-byte public key.
pub type Identity = [u8; 32];

/// Status of an escrow record.
///
/// The status moves exactly once out of `Pending`, to `Completed` when the
/// locked amount has been transferred to the recipient, or to `Cancelled`
/// (reserved for a future depositor-initiated reclaim; no operation here
/// enters it). No transition ever leaves a terminal state.
#[derive(Clone, Copy, PartialEq, Eq, Structural, Debug)]
pub enum EscrowStatus {
    Pending,
    Completed,
    Cancelled,
}

/// One escrow instance: the metadata record persisted alongside the
/// custody account that holds the locked tokens.
///
/// `depositor`, `recipient`, `amount` and `bump` are set at creation and
/// never change; `expiry` is the instant (unix seconds) at which the time
/// gate opens; only `status` is ever mutated, and only from `Pending`.
#[derive(Clone, Copy, PartialEq, Eq, Debug)]
pub struct Escrow {
    pub depositor: Identity,
    pub recipient: Identity,
    pub amount: u64,
    pub expiry: i64,
    pub status: EscrowStatus,
    pub bump: u8,
}

/// The mathematical model of a record: each identity as a byte sequence.
#[verifier::ext_equal]
pub ghost struct EscrowView {
    pub depositor: Seq<u8>,
    pub recipient: Seq<u8>,
    pub amount: u64,
    pub expiry: i64,
    pub status: EscrowStatus,
    pub bump: u8,
}

impl EscrowView {
    /// Both identities are exactly 32 bytes wide.
    pub open spec fn wf(self) -> bool {
        self.depositor.len() == 32 && self.recipient.len() == 32
    }
}

impl View for Escrow {
    type V = EscrowView;

    open spec fn view(&self) -> EscrowView {
        EscrowView {
            depositor: self.depositor@,
            recipient: self.recipient@,
            amount: self.amount,
            expiry: self.expiry,
            status: self.status,
            bump: self.bump,
        }
    }
}

/// The view of any record is well formed.
pub broadcast proof fn lemma_escrow_view_wf(e: Escrow)
    ensures
        #[trigger] e@.wf(),
{
}

/// Compares two identities byte for byte.
pub fn identity_eq(a: &Identity, b: &Identity) -> (r: bool)
    ensures
        r <==> (a@ == b@),
{
    let mut i: usize = 0;
    while i < 32
        invariant
            0 <= i <= 32,
            forall|j: int| 0 <= j < i ==> a@[j] == b@[j],
        decreases 32 - i,
    {
        if a[i] != b[i] {
            return false;
        }
        i += 1;
    }
    proof {
        assert(a@ =~= b@);
    }
    true
}

} // verus!

//! Identities, asset transfers, call messages and responses.

use vstd::prelude::*;

verus! {

/// A ledger-wide identity: the realm (`block`) and the sequence (`tx`).
#[derive(Clone, Copy, Debug, PartialEq, Eq, Structural)]
pub struct AlkaneId {
    pub block: u128,
    pub tx: u128,
}

/// An amount of the asset named by `id`.
#[derive(Clone, Copy, Debug, PartialEq, Eq, Structural)]
pub struct AlkaneTransfer {
    pub id: AlkaneId,
    pub value: u128,
}

/// A message to another contract: its target and its numeric inputs,
/// the operation code first.
#[derive(Clone, Debug)]
pub struct Cellpack {
    pub target: AlkaneId,
    pub inputs: Vec<u128>,
}

/// What an invocation hands back: asset transfers and a raw payload.
#[derive(Clone, Debug)]
pub struct CallResponse {
    pub alkanes: Vec<AlkaneTransfer>,
    pub data: Vec<u8>,
}

/// What the host tells an invocation: the contract's own identity and the
/// transfers the caller sent in.
#[derive(Clone, Debug)]
pub struct Context {
    pub myself: AlkaneId,
    pub incoming_alkanes: Vec<AlkaneTransfer>,
}

/// Why an operation failed. Every failure aborts the whole invocation.
#[derive(Clone, Copy, Debug, PartialEq, Eq, Structural)]
pub enum CollectionError {
    /// The call did not present exactly one transfer, of at least one unit of
    /// the collection's own token.
    AuthenticationError,
    /// All orbitals have been minted.
    SupplyExhausted,
    /// The template contract returned no asset.
    MintFailed,
    /// A query index past the fixed table size.
    IndexOutOfBounds,
    /// A stored instance record does not have its fixed length.
    CorruptState,
    /// The instance counter would overflow.
    CounterOverflow,
    /// The contract was already initialized.
    AlreadyInitialized,
}

/// A response that hands the incoming transfers back, with an empty payload.
pub fn forward(incoming: &Vec<AlkaneTransfer>) -> (r: CallResponse)
    ensures
        r.alkanes@ == incoming@,
        r.data@.len() == 0,
{
    let mut alkanes: Vec<AlkaneTransfer> = Vec::new();
    let mut i: usize = 0;
    while i < incoming.len()
        invariant
            i <= incoming@.len(),
            alkanes@ == incoming@.subrange(0, i as int),
        decreases incoming@.len() - i,
    {
        alkanes.push(incoming[i]);
        i = i + 1;
        assert(alkanes@ =~= incoming@.subrange(0, i as int));
    }
    assert(alkanes@ =~= incoming@);
    CallResponse { alkanes, data: Vec::new() }
}

} // verus!

//! Value types shared with the host: chain identity, the per-invocation
//! context the host supplies, and the result shapes handlers hand back.

use vstd::prelude::*;

verus! {

/// The identity of a chain: a fixed-width identifier held as raw bytes.
///
/// Chains are compared only for equality; the view of a `ChainId` is the
/// byte sequence it holds.
#[derive(Clone, Copy, Debug, PartialEq, Eq)]
pub struct ChainId {
    pub bytes: [u8; 32],
}

impl View for ChainId {
    type V = Seq<u8>;

    open spec fn view(&self) -> Seq<u8> {
        self.bytes@
    }
}

impl DeepView for ChainId {
    type V = Seq<u8>;

    open spec fn deep_view(&self) -> Seq<u8> {
        self.view()
    }
}

impl ChainId {
    /// Equality test on chain identities.
    pub fn same_as(&self, other: &ChainId) -> (r: bool)
        ensures
            r == (self@ == other@),
    {
        let mut i: usize = 0;
        while i < 32
            invariant
                0 <= i <= 32,
                forall|j: int| 0 <= j < i ==> self.bytes@[j] == other.bytes@[j],
            decreases 32 - i,
        {
            if self.bytes[i] != other.bytes[i] {
                proof {
                    assert(self@[i as int] != other@[i as int]);
                }
                return false;
            }
            i += 1;
        }
        proof {
            assert(self@ =~= other@);
        }
        true
    }
}

impl From<[u8; 32]> for ChainId {
    fn from(bytes: [u8; 32]) -> (r: ChainId) {
        ChainId { bytes }
    }
}

impl vstd::std_specs::convert::FromSpecImpl<[u8; 32]> for ChainId {
    open spec fn obeys_from_spec() -> bool {
        true
    }

    open spec fn from_spec(bytes: [u8; 32]) -> ChainId {
        ChainId { bytes }
    }
}

/// What the host supplies about the current invocation: the identity of the
/// chain whose handler is running, and a wall-clock timestamp in
/// milliseconds.
#[derive(Clone, Copy, Debug)]
pub struct ExecutionContext {
    pub chain_id: ChainId,
    pub timestamp: u64,
}

/// What an operation or message handler hands back to the host: the outbound
/// effects the host must deliver.
#[derive(Debug)]
pub struct ExecutionResult<E> {
    pub effects: Vec<E>,
}

impl<E> ExecutionResult<E> {
    /// A result that carries no outbound effect.
    pub fn new() -> (r: Self)
        ensures
            r.effects@ == Seq::<E>::empty(),
    {
        let r = ExecutionResult { effects: Vec::new() };
        proof {
            assert(r.effects@ =~= Seq::<E>::empty());
        }
        r
    }
}

impl<E> Default for ExecutionResult<E> {
    fn default() -> (r: Self)
        ensures
            r.effects@ == Seq::<E>::empty(),
    {
        ExecutionResult::new()
    }
}

/// What an application-call handler hands back: an optional response value
/// for the caller and the outbound effects the host must deliver.
#[derive(Debug)]
pub struct ApplicationCallResult<V, E> {
    pub value: Option<V>,
    pub effects: Vec<E>,
}

impl<V, E> ApplicationCallResult<V, E> {
    /// A result with no response value and no outbound effect.
    pub fn new() -> (r: Self)
        ensures
            r.value is None,
            r.effects@ == Seq::<E>::empty(),
    {
        let r = ApplicationCallResult { value: None, effects: Vec::new() };
        proof {
            assert(r.effects@ =~= Seq::<E>::empty());
        }
        r
    }
}

impl<V, E> Default for ApplicationCallResult<V, E> {
    fn default() -> (r: Self)
        ensures
            r.value is None,
            r.effects@ == Seq::<E>::empty(),
    {
        ApplicationCallResult::new()
    }
}

/// Why a handler refused a call.
#[derive(Clone, Copy, Debug, PartialEq, Eq, Structural)]
pub enum ContractError {
    /// Session-style calls are uniformly rejected: the feature is not
    /// offered.
    UnsupportedCall,
}

} // verus!

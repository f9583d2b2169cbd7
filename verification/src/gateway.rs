//! Proof submission gateway: packages a validated state delta together with
//! the caller-asserted tree context for the external tree-verification
//! authority, and turns the authority's verdict into the instruction's
//! outcome.
//!
//! This is the engine's one trust boundary. The gateway never verifies
//! inclusion proofs itself: the host forwards the packet across the boundary
//! under the engine's own authority, and the authority's accept-or-reject
//! verdict comes back as a plain value that is propagated verbatim, with no
//! local retry.

use vstd::prelude::*;

use crate::address::Identity;
use crate::schema::CounterCompressedAccount;
use crate::validate::{AccountState, TreeContext};
use crate::EngineError;

verus! {

/// The state delta one instruction commits: the post-state for a creation,
/// both states for a mutation, and the final audit snapshot — a nullification
/// marker — for a closure.
#[derive(Clone, Copy, Debug, PartialEq, Eq, Structural)]
pub enum Delta {
    Creation { post: CounterCompressedAccount },
    Mutation { pre: CounterCompressedAccount, post: CounterCompressedAccount },
    Closure { last: CounterCompressedAccount },
}

/// The lifecycle state an account is in once a delta commits.
pub open spec fn delta_new_state(d: Delta) -> AccountState {
    match d {
        Delta::Creation { .. } => AccountState::Active,
        Delta::Mutation { .. } => AccountState::Active,
        Delta::Closure { .. } => AccountState::Closed,
    }
}

/// Everything the external authority needs for one commitment: the delta,
/// the caller-asserted tree context, and the engine's authorizing identity.
#[derive(Clone, Debug, PartialEq, Eq)]
pub struct SubmissionPacket {
    pub delta: Delta,
    pub context: TreeContext,
    pub authority: Identity,
}

/// The authority's confirmation of one committed delta: where in the tree
/// the commitment landed.
#[derive(Clone, Debug, PartialEq, Eq)]
pub struct CommitReceipt {
    pub address: Vec<u8>,
    pub tree_id: u64,
    pub leaf_index: u64,
}

/// Turns the external authority's verdict on a packet into the instruction's
/// outcome: a receipt for the committed position when the authority confirmed
/// the claim, or its verification failure, propagated verbatim.
pub fn conclude(packet: SubmissionPacket, accepted: bool) -> (r: Result<
    CommitReceipt,
    EngineError,
>)
    ensures
        r is Ok <==> accepted,
        r matches Ok(c) ==> c.address@ == packet.context.address@ && c.tree_id
            == packet.context.tree_id && c.leaf_index == packet.context.leaf_index,
        !accepted ==> r == Err::<CommitReceipt, EngineError>(EngineError::SubmissionError),
{
    if accepted {
        Ok(
            CommitReceipt {
                address: packet.context.address,
                tree_id: packet.context.tree_id,
                leaf_index: packet.context.leaf_index,
            },
        )
    } else {
        Err(EngineError::SubmissionError)
    }
}

} // verus!

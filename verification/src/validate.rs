//! Constraint validator: the per-instruction preconditions, evaluated as an
//! explicit constraint table with the first broken rule winning.
//!
//! The rules, in order: the presented tree context must carry exactly the
//! address derived for the signer under the schema's namespace; the account's
//! existence state must match the operation's precondition; and an operation
//! on an existing account must be signed by its recorded owner. A pure
//! predicate over the supplied state: no side effects.

use vstd::prelude::*;

use crate::address::{derived_address, truncate_identity, truncated_owner, Identity};
use crate::bytes::bytes_eq;
use crate::schema::{counter_tag, counter_tag_bytes, CounterCompressedAccount};
use crate::EngineError;

verus! {

/// Lifecycle position of a logical account. `Closed` is terminal: a later
/// creation at the same address is a distinct instance, not a reopening.
#[derive(Clone, Copy, Debug, PartialEq, Eq, Structural)]
pub enum AccountState {
    NonExistent,
    Active,
    Closed,
}

/// The four operation kinds of the instruction surface.
#[derive(Clone, Copy, Debug, PartialEq, Eq, Structural)]
pub enum InstructionKind {
    Create,
    Mutate,
    Close,
    NoOperation,
}

/// The caller-supplied reference that asserts an address's proof-relevant
/// position: which tree holds it and at which leaf. Owned by the external
/// tree authority; the engine never mutates it.
#[derive(Clone, Debug, PartialEq, Eq)]
pub struct TreeContext {
    pub address: Vec<u8>,
    pub tree_id: u64,
    pub leaf_index: u64,
}

/// A logical account as one instruction presents it: the asserted lifecycle
/// state, the prior payload, and the tree context that proves both.
#[derive(Clone, Debug, PartialEq, Eq)]
pub struct PresentedAccount {
    pub state: AccountState,
    pub payload: CounterCompressedAccount,
    pub context: TreeContext,
}

/// First rule: the presented context carries exactly the address derived for
/// the signer under the counter namespace.
pub open spec fn address_consistent(p: PresentedAccount, signer: Identity) -> bool {
    p.context.address@ == derived_address(counter_tag(), signer.bytes@)
}

/// The existence state each account-bearing operation requires.
pub open spec fn required_state(kind: InstructionKind) -> AccountState
    recommends
        kind != InstructionKind::NoOperation,
{
    match kind {
        InstructionKind::Create => AccountState::NonExistent,
        _ => AccountState::Active,
    }
}

/// The ownership rule binds only the operations that touch an existing
/// account.
pub open spec fn needs_ownership(kind: InstructionKind) -> bool {
    kind == InstructionKind::Mutate || kind == InstructionKind::Close
}

/// Third rule: the recorded owner equals the signer's stored form.
pub open spec fn owner_matches(p: PresentedAccount, signer: Identity) -> bool {
    p.payload.owner == truncated_owner(signer.bytes@)
}

/// The constraint table's verdict on one instruction: the first rule it
/// breaks, or nothing when every rule holds. The no-operation kind bypasses
/// the compressed-account path and validates nothing here.
pub open spec fn constraint_verdict(
    kind: InstructionKind,
    p: PresentedAccount,
    signer: Identity,
) -> Option<EngineError> {
    if kind == InstructionKind::NoOperation {
        None
    } else if !address_consistent(p, signer) {
        Some(EngineError::MalformedAddressContext)
    } else if p.state != required_state(kind) {
        Some(EngineError::PreconditionViolation)
    } else if needs_ownership(kind) && !owner_matches(p, signer) {
        Some(EngineError::Unauthorized)
    } else {
        None
    }
}

/// Evaluates the constraint table for one instruction, in rule order with
/// the first failure winning.
pub fn validate(kind: InstructionKind, p: &PresentedAccount, signer: &Identity) -> (r: Result<
    (),
    EngineError,
>)
    ensures
        r is Ok <==> constraint_verdict(kind, *p, *signer) is None,
        r matches Err(e) ==> constraint_verdict(kind, *p, *signer) == Some(e),
{
    match kind {
        InstructionKind::NoOperation => {
            return Ok(());
        },
        _ => {},
    }
    let tag: Vec<u8> = counter_tag_bytes();
    // The schema's own tag always fits, so derivation cannot fail here.
    assert(tag@.len() <= crate::address::MAX_TAG_LEN);
    let expected: Vec<u8> = crate::address::derive(&tag, signer).unwrap();
    if !bytes_eq(&p.context.address, &expected) {
        return Err(EngineError::MalformedAddressContext);
    }
    let required: AccountState = match kind {
        InstructionKind::Create => AccountState::NonExistent,
        _ => AccountState::Active,
    };
    proof {
        assert(required == required_state(kind));
    }
    if p.state != required {
        return Err(EngineError::PreconditionViolation);
    }
    let owned: bool = match kind {
        InstructionKind::Mutate | InstructionKind::Close => true,
        _ => false,
    };
    if owned && p.payload.owner != truncate_identity(signer) {
        return Err(EngineError::Unauthorized);
    }
    Ok(())
}

/// Lifecycle ordering: with a consistent context, a mutate or close on an
/// account that is not active — never created, or already closed — is refused
/// as a precondition violation, and so is a create on an account that is
/// already there.
pub proof fn lemma_lifecycle_ordering(p: PresentedAccount, signer: Identity)
    requires
        address_consistent(p, signer),
    ensures
        p.state != AccountState::Active ==> constraint_verdict(InstructionKind::Mutate, p, signer)
            == Some(EngineError::PreconditionViolation),
        p.state != AccountState::Active ==> constraint_verdict(InstructionKind::Close, p, signer)
            == Some(EngineError::PreconditionViolation),
        p.state != AccountState::NonExistent ==> constraint_verdict(
            InstructionKind::Create,
            p,
            signer,
        ) == Some(EngineError::PreconditionViolation),
{
}

/// Ownership enforcement: with a consistent context and an active account, a
/// mutate or close signed by any identity whose stored form differs from the
/// recorded owner is refused as unauthorized, whatever the payload holds.
pub proof fn lemma_ownership_enforced(p: PresentedAccount, signer: Identity)
    requires
        address_consistent(p, signer),
        p.state == AccountState::Active,
        !owner_matches(p, signer),
    ensures
        constraint_verdict(InstructionKind::Mutate, p, signer) == Some(EngineError::Unauthorized),
        constraint_verdict(InstructionKind::Close, p, signer) == Some(EngineError::Unauthorized),
{
}

} // verus!

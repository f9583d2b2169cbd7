//! A compressed-account state engine for a single-owner counter record.
//!
//! Account state is not kept in local storage: it is committed into an
//! external Merkle tree, and every instruction carries the caller's assertion
//! of the account's current state. The engine derives the deterministic
//! address of a logical account, checks the per-instruction constraints,
//! applies the lifecycle transition in memory, and packages the resulting
//! state delta for the external tree-verification authority. The authority's
//! verdict comes back as a plain value; the engine never inspects proofs.
//!
//! Each instruction is all-or-nothing: either the constraint check, the
//! in-memory transition and the delta packaging all succeed and exactly one
//! packet is returned for submission, or the instruction aborts with an
//! error and nothing is handed to the gateway.

use vstd::prelude::*;

pub mod address;
pub mod bytes;
pub mod gateway;
pub mod schema;
pub mod validate;

use crate::address::{truncate_identity, truncated_owner, Identity};
use crate::gateway::{Delta, SubmissionPacket};
use crate::schema::{CounterCompressedAccount, State};
use crate::validate::{constraint_verdict, InstructionKind, PresentedAccount};

verus! {

/// The failure taxonomy of the engine. Every failure is fatal to its
/// instruction: nothing is mutated and nothing is handed to the gateway.
#[derive(Clone, Copy, Debug, PartialEq, Eq, Structural)]
pub enum EngineError {
    /// The presented tree context does not carry the derived address.
    MalformedAddressContext,
    /// The account's existence state does not match the operation's
    /// precondition.
    PreconditionViolation,
    /// The recorded owner differs from the signer.
    Unauthorized,
    /// The payload mutation would leave its declared numeric range.
    ArithmeticOverflow,
    /// The external tree authority rejected the proof or the delta.
    SubmissionError,
}

/// The dedicated authorization-denied code surfaced to callers.
#[derive(Clone, Copy, Debug, PartialEq, Eq, Structural)]
pub enum CustomError {
    Unauthorized,
}

/// The caller-facing authorization code of an engine failure, where one
/// exists: exactly the ownership failure carries one.
pub fn authorization_code(e: &EngineError) -> (r: Option<CustomError>)
    ensures
        r is Some <==> *e == EngineError::Unauthorized,
        r matches Some(c) ==> c == CustomError::Unauthorized,
{
    match e {
        EngineError::Unauthorized => Some(CustomError::Unauthorized),
        _ => None,
    }
}

/// Accounts of the create instruction: the fee-paying signer, the engine's
/// own authority for the cross-boundary call, and the presented account.
#[derive(Clone, Debug, PartialEq, Eq)]
pub struct Create {
    pub signer: Identity,
    pub cpi_signer: Identity,
    pub counter: PresentedAccount,
}

/// Accounts of the increment instruction, shaped as for `Create`.
#[derive(Clone, Debug, PartialEq, Eq)]
pub struct Increment {
    pub signer: Identity,
    pub cpi_signer: Identity,
    pub counter: PresentedAccount,
}

/// Accounts of the delete instruction, shaped as for `Create`.
#[derive(Clone, Debug, PartialEq, Eq)]
pub struct Delete {
    pub signer: Identity,
    pub cpi_signer: Identity,
    pub counter: PresentedAccount,
}

/// The no-operation instruction names no account at all.
#[derive(Clone, Debug, PartialEq, Eq)]
pub struct NoOperator {}

/// Creates the counter account at the signer's derived address. Requires a
/// context proving non-existence; records the signer's stored form as owner,
/// zero-initializes the payload, and packages the post-state for submission.
pub fn create(ctx: Create) -> (r: Result<SubmissionPacket, EngineError>)
    ensures
        r is Ok <==> constraint_verdict(InstructionKind::Create, ctx.counter, ctx.signer) is None,
        constraint_verdict(InstructionKind::Create, ctx.counter, ctx.signer) matches Some(e) ==> r
            == Err::<SubmissionPacket, EngineError>(e),
        r matches Ok(p) ==> p.delta == (Delta::Creation {
            post: CounterCompressedAccount {
                owner: truncated_owner(ctx.signer.bytes@),
                counter: 0,
            },
        }) && p.context.address@ == ctx.counter.context.address@ && p.context.tree_id
            == ctx.counter.context.tree_id && p.context.leaf_index
            == ctx.counter.context.leaf_index && p.authority.bytes@ == ctx.cpi_signer.bytes@,
        r matches Ok(p) ==> gateway::delta_new_state(p.delta) == validate::AccountState::Active,
{
    match validate::validate(InstructionKind::Create, &ctx.counter, &ctx.signer) {
        Err(e) => Err(e),
        Ok(_) => {
            let owner: u64 = truncate_identity(&ctx.signer);
            let post = CounterCompressedAccount { owner, counter: 0 };
            let Create { signer: _, cpi_signer, counter } = ctx;
            Ok(
                SubmissionPacket {
                    delta: Delta::Creation { post },
                    context: counter.context,
                    authority: cpi_signer,
                },
            )
        },
    }
}

/// Increments the counter payload in place. Requires a context proving the
/// account active and a signer matching the recorded owner; an increment
/// past the counter's numeric range aborts as an arithmetic error before any
/// delta is packaged.
pub fn increment(ctx: Increment) -> (r: Result<SubmissionPacket, EngineError>)
    ensures
        r is Ok <==> constraint_verdict(InstructionKind::Mutate, ctx.counter, ctx.signer) is None
            && ctx.counter.payload.counter < u64::MAX,
        constraint_verdict(InstructionKind::Mutate, ctx.counter, ctx.signer) matches Some(e) ==> r
            == Err::<SubmissionPacket, EngineError>(e),
        constraint_verdict(InstructionKind::Mutate, ctx.counter, ctx.signer) is None
            && ctx.counter.payload.counter == u64::MAX ==> r == Err::<
            SubmissionPacket,
            EngineError,
        >(EngineError::ArithmeticOverflow),
        r matches Ok(p) ==> p.delta == (Delta::Mutation {
            pre: ctx.counter.payload,
            post: CounterCompressedAccount {
                owner: ctx.counter.payload.owner,
                counter: (ctx.counter.payload.counter + 1) as u64,
            },
        }) && p.context.address@ == ctx.counter.context.address@ && p.context.tree_id
            == ctx.counter.context.tree_id && p.context.leaf_index
            == ctx.counter.context.leaf_index && p.authority.bytes@ == ctx.cpi_signer.bytes@,
        r matches Ok(p) ==> gateway::delta_new_state(p.delta) == validate::AccountState::Active,
{
    match validate::validate(InstructionKind::Mutate, &ctx.counter, &ctx.signer) {
        Err(e) => Err(e),
        Ok(_) => {
            let pre = ctx.counter.payload;
            if pre.counter == u64::MAX {
                return Err(EngineError::ArithmeticOverflow);
            }
            let post = CounterCompressedAccount { owner: pre.owner, counter: pre.counter + 1 };
            let Increment { signer: _, cpi_signer, counter } = ctx;
            Ok(
                SubmissionPacket {
                    delta: Delta::Mutation { pre, post },
                    context: counter.context,
                    authority: cpi_signer,
                },
            )
        },
    }
}

/// Closes the counter account. Requires a context proving the account active
/// and a signer matching the recorded owner; emits the final payload snapshot
/// as the nullification marker. The address is retired for this instance.
pub fn delete(ctx: Delete) -> (r: Result<SubmissionPacket, EngineError>)
    ensures
        r is Ok <==> constraint_verdict(InstructionKind::Close, ctx.counter, ctx.signer) is None,
        constraint_verdict(InstructionKind::Close, ctx.counter, ctx.signer) matches Some(e) ==> r
            == Err::<SubmissionPacket, EngineError>(e),
        r matches Ok(p) ==> p.delta == (Delta::Closure { last: ctx.counter.payload })
            && p.context.address@ == ctx.counter.context.address@ && p.context.tree_id
            == ctx.counter.context.tree_id && p.context.leaf_index
            == ctx.counter.context.leaf_index && p.authority.bytes@ == ctx.cpi_signer.bytes@,
        r matches Ok(p) ==> gateway::delta_new_state(p.delta) == validate::AccountState::Closed,
{
    match validate::validate(InstructionKind::Close, &ctx.counter, &ctx.signer) {
        Err(e) => Err(e),
        Ok(_) => {
            let last = ctx.counter.payload;
            let Delete { signer: _, cpi_signer, counter } = ctx;
            Ok(
                SubmissionPacket {
                    delta: Delta::Closure { last },
                    context: counter.context,
                    authority: cpi_signer,
                },
            )
        },
    }
}

/// The stateless no-operation instruction: it names no logical account,
/// builds no packet, and always succeeds once its arguments are decoded.
/// Repeating it changes nothing, because it has nothing to change and no
/// value of its result ever reaches the gateway.
pub fn no_operation(_ctx: NoOperator, _state: State) -> (r: Result<(), EngineError>)
    ensures
        r == Ok::<(), EngineError>(()),
{
    Ok(())
}

} // verus!

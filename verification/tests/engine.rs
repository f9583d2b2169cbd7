use counter_engine::address::Identity;
use counter_engine::gateway::Delta;
use counter_engine::schema::{counter_tag_bytes, CounterCompressedAccount, State};
use counter_engine::validate::{AccountState, PresentedAccount, TreeContext};
use counter_engine::{
    authorization_code, create, delete, increment, no_operation, Create, CustomError, Delete,
    EngineError, Increment, NoOperator,
};

fn identity(bytes: &[u8]) -> Identity {
    Identity { bytes: bytes.to_vec() }
}

fn derived(owner: &Identity) -> Vec<u8> {
    let tag = counter_tag_bytes();
    counter_engine::address::derive(&tag, owner).unwrap()
}

fn presented(owner: &Identity, state: AccountState, payload: CounterCompressedAccount) -> PresentedAccount {
    PresentedAccount {
        state,
        payload,
        context: TreeContext { address: derived(owner), tree_id: 7, leaf_index: 11 },
    }
}

fn create_ctx(signer: &[u8], state: AccountState) -> Create {
    let s = identity(signer);
    let counter = presented(&s, state, CounterCompressedAccount { owner: 0, counter: 0 });
    Create { signer: s, cpi_signer: identity(&[200]), counter }
}

fn increment_ctx(signer: &[u8], counter: PresentedAccount) -> Increment {
    Increment { signer: identity(signer), cpi_signer: identity(&[200]), counter }
}

fn delete_ctx(signer: &[u8], counter: PresentedAccount) -> Delete {
    Delete { signer: identity(signer), cpi_signer: identity(&[200]), counter }
}

#[test]
fn create_records_signer_and_zeroes_payload() {
    let r = create(create_ctx(&[1], AccountState::NonExistent)).unwrap();
    assert_eq!(r.delta, Delta::Creation { post: CounterCompressedAccount { owner: 1, counter: 0 } });
    assert_eq!(r.context.tree_id, 7);
    assert_eq!(r.context.leaf_index, 11);
    assert_eq!(r.authority.bytes, vec![200]);
}

#[test]
fn create_rejects_foreign_address() {
    let mut ctx = create_ctx(&[1], AccountState::NonExistent);
    ctx.counter.context.address = derived(&identity(&[2]));
    assert_eq!(create(ctx), Err(EngineError::MalformedAddressContext));
}

#[test]
fn create_rejects_mangled_address() {
    let mut ctx = create_ctx(&[1], AccountState::NonExistent);
    ctx.counter.context.address.push(0);
    assert_eq!(create(ctx), Err(EngineError::MalformedAddressContext));
}

#[test]
fn second_create_at_active_address_fails() {
    assert_eq!(
        create(create_ctx(&[1], AccountState::Active)),
        Err(EngineError::PreconditionViolation)
    );
}

#[test]
fn mutate_without_prior_create_fails() {
    let signer = identity(&[1]);
    let acct = presented(&signer, AccountState::NonExistent, CounterCompressedAccount { owner: 1, counter: 0 });
    assert_eq!(increment(increment_ctx(&[1], acct)), Err(EngineError::PreconditionViolation));
}

#[test]
fn close_without_prior_create_fails() {
    let signer = identity(&[1]);
    let acct = presented(&signer, AccountState::NonExistent, CounterCompressedAccount { owner: 1, counter: 0 });
    assert_eq!(delete(delete_ctx(&[1], acct)), Err(EngineError::PreconditionViolation));
}

#[test]
fn mutate_by_other_identity_is_unauthorized() {
    // Account owned by identity 1, mutate signed by identity 2 at 2's own
    // derived address: the ownership rule refuses it and the payload the
    // caller holds is untouched.
    let intruder = identity(&[2]);
    let before = CounterCompressedAccount { owner: 1, counter: 5 };
    let acct = presented(&intruder, AccountState::Active, before);
    assert_eq!(increment(increment_ctx(&[2], acct)), Err(EngineError::Unauthorized));
    assert_eq!(before, CounterCompressedAccount { owner: 1, counter: 5 });
}

#[test]
fn close_by_other_identity_is_unauthorized() {
    let intruder = identity(&[2]);
    let acct = presented(&intruder, AccountState::Active, CounterCompressedAccount { owner: 1, counter: 5 });
    assert_eq!(delete(delete_ctx(&[2], acct)), Err(EngineError::Unauthorized));
}

#[test]
fn increment_at_range_end_overflows() {
    let signer = identity(&[1]);
    let acct = presented(&signer, AccountState::Active, CounterCompressedAccount { owner: 1, counter: u64::MAX });
    assert_eq!(increment(increment_ctx(&[1], acct)), Err(EngineError::ArithmeticOverflow));
}

#[test]
fn create_then_three_increments_counts_to_three() {
    let signer = identity(&[1]);
    let created = create(create_ctx(&[1], AccountState::NonExistent)).unwrap();
    let mut payload = match created.delta {
        Delta::Creation { post } => post,
        _ => panic!("creation delta expected"),
    };
    for _ in 0..3 {
        let acct = presented(&signer, AccountState::Active, payload);
        let r = increment(increment_ctx(&[1], acct)).unwrap();
        payload = match r.delta {
            Delta::Mutation { pre, post } => {
                assert_eq!(pre.counter + 1, post.counter);
                assert_eq!(pre.owner, post.owner);
                post
            },
            _ => panic!("mutation delta expected"),
        };
    }
    assert_eq!(payload, CounterCompressedAccount { owner: 1, counter: 3 });
}

#[test]
fn close_emits_final_snapshot_and_retires_address() {
    let signer = identity(&[1]);
    let last = CounterCompressedAccount { owner: 1, counter: 3 };
    let acct = presented(&signer, AccountState::Active, last);
    let r = delete(delete_ctx(&[1], acct)).unwrap();
    assert_eq!(r.delta, Delta::Closure { last });

    // A mutate by the owner at the now-closed address fails its precondition.
    let closed = presented(&signer, AccountState::Closed, last);
    assert_eq!(increment(increment_ctx(&[1], closed)), Err(EngineError::PreconditionViolation));
}

#[test]
fn no_operation_changes_nothing_and_repeats() {
    let state = State { counter: CounterCompressedAccount { owner: 4, counter: 9 } };
    assert_eq!(no_operation(NoOperator {}, state), Ok(()));
    assert_eq!(no_operation(NoOperator {}, state), Ok(()));
    assert_eq!(state.counter, CounterCompressedAccount { owner: 4, counter: 9 });
}

#[test]
fn only_ownership_failures_carry_the_authorization_code() {
    assert_eq!(authorization_code(&EngineError::Unauthorized), Some(CustomError::Unauthorized));
    assert_eq!(authorization_code(&EngineError::PreconditionViolation), None);
    assert_eq!(authorization_code(&EngineError::MalformedAddressContext), None);
    assert_eq!(authorization_code(&EngineError::ArithmeticOverflow), None);
    assert_eq!(authorization_code(&EngineError::SubmissionError), None);
}

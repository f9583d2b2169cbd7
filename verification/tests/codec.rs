use counter_engine::gateway::{conclude, Delta, SubmissionPacket};
use counter_engine::address::Identity;
use counter_engine::schema::{
    decode, decode_state, encode, encode_state, CounterCompressedAccount, State, ENCODED_LEN,
};
use counter_engine::validate::{validate, AccountState, InstructionKind, PresentedAccount, TreeContext};
use counter_engine::EngineError;

#[test]
fn encode_layout_is_little_endian() {
    let p = CounterCompressedAccount { owner: 0x0102030405060708, counter: 1 };
    let bytes = encode(&p);
    assert_eq!(bytes.len(), ENCODED_LEN);
    assert_eq!(&bytes[0..8], &[8, 7, 6, 5, 4, 3, 2, 1]);
    assert_eq!(&bytes[8..16], &[1, 0, 0, 0, 0, 0, 0, 0]);
}

#[test]
fn round_trip_over_range_edges() {
    let cases = [
        CounterCompressedAccount { owner: 0, counter: 0 },
        CounterCompressedAccount { owner: u64::MAX, counter: u64::MAX },
        CounterCompressedAccount { owner: 1, counter: 3 },
        CounterCompressedAccount { owner: 0xdead_beef_0102_0304, counter: 42 },
    ];
    for p in cases {
        assert_eq!(decode(&encode(&p)), Some(p));
    }
}

#[test]
fn wrong_length_is_rejected() {
    assert_eq!(decode(&vec![0u8; ENCODED_LEN - 1]), None);
    assert_eq!(decode(&vec![0u8; ENCODED_LEN + 1]), None);
    assert_eq!(decode(&vec![]), None);
}

#[test]
fn state_round_trips_too() {
    let s = State { counter: CounterCompressedAccount { owner: 9, counter: 10 } };
    assert_eq!(decode_state(&encode_state(&s)), Some(s));
    assert_eq!(decode_state(&vec![1u8; 3]), None);
}

#[test]
fn no_operation_kind_validates_nothing() {
    let presented = PresentedAccount {
        state: AccountState::Closed,
        payload: CounterCompressedAccount { owner: 3, counter: 4 },
        context: TreeContext { address: vec![], tree_id: 0, leaf_index: 0 },
    };
    let signer = Identity { bytes: vec![8] };
    assert_eq!(validate(InstructionKind::NoOperation, &presented, &signer), Ok(()));
}

#[test]
fn gateway_propagates_the_authority_verdict() {
    let packet = || SubmissionPacket {
        delta: Delta::Creation { post: CounterCompressedAccount { owner: 1, counter: 0 } },
        context: TreeContext { address: vec![1, 2, 3], tree_id: 5, leaf_index: 6 },
        authority: Identity { bytes: vec![200] },
    };
    let receipt = conclude(packet(), true).unwrap();
    assert_eq!(receipt.address, vec![1, 2, 3]);
    assert_eq!(receipt.tree_id, 5);
    assert_eq!(receipt.leaf_index, 6);
    assert_eq!(
        conclude(packet(), false).map(|_| ()),
        Err(EngineError::SubmissionError)
    );
}

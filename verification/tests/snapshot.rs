use ale::{ALEInterface, ALEState, AleState, Call, Origin, Reply, Violation};

fn snapshot_of(addr: usize, origin: Origin) -> AleState {
    let engine = ALEInterface { addr: 0x1000 };
    let call = match origin {
        Origin::Environment => Call::CloneState { engine },
        Origin::System => Call::CloneSystemState { engine },
        Origin::Decoded => Call::DecodeState { serialized: Vec::new(), len: 0 },
    };
    AleState::from_reply(&call, Reply::State(ALEState { addr })).unwrap()
}

fn snapshot() -> AleState {
    snapshot_of(0x2000, Origin::Environment)
}

fn state() -> ALEState {
    ALEState { addr: 0x2000 }
}

#[test]
fn snapshot_keeps_reference_and_origin() {
    let s = snapshot_of(0x2000, Origin::System);
    assert_eq!(s.state(), state());
    assert_eq!(s.origin(), Origin::System);
    assert!(s.is_live());
    let d = snapshot_of(0x2008, Origin::Decoded);
    assert_eq!(d.origin(), Origin::Decoded);
    assert_eq!(snapshot().origin(), Origin::Environment);
}

#[test]
fn null_snapshot_owns_nothing() {
    let mut s = snapshot_of(0, Origin::Decoded);
    assert!(!s.is_live());
    assert_eq!(s.release(), None);
    assert_eq!(s.try_encode_state(&[0u8; 8], 4), Err(Violation::Released));
}

#[test]
fn encoded_length_is_asked_of_the_snapshot() {
    assert_eq!(snapshot().encode_state_len(), Call::EncodeStateLen { state: state() });
}

#[test]
fn encode_into_exact_buffer() {
    let s = snapshot();
    let buf = [0u8; 300];
    assert_eq!(s.encode_state(&buf, 300), Call::EncodeState { state: state(), len: 300 });
    assert_eq!(
        s.try_encode_state(&buf, 300),
        Ok(Call::EncodeState { state: state(), len: 300 })
    );
}

#[test]
fn encode_into_buffer_one_byte_short() {
    let s = snapshot();
    let buf = [0u8; 299];
    assert_eq!(
        s.try_encode_state(&buf, 300),
        Err(Violation::BufferTooSmall { required: 300, got: 299 })
    );
}

#[test]
fn encode_into_longer_buffer_writes_the_stated_length() {
    let s = snapshot();
    let buf = [0u8; 512];
    assert_eq!(
        s.try_encode_state(&buf, 300),
        Ok(Call::EncodeState { state: state(), len: 300 })
    );
    assert_eq!(s.try_encode_state(&[], 0), Ok(Call::EncodeState { state: state(), len: 0 }));
}

#[test]
fn encoded_length_beyond_the_interface() {
    let s = snapshot();
    let len = i32::MAX as usize + 1;
    assert_eq!(
        s.try_encode_state(&[0u8; 4], len),
        Err(Violation::LengthTooLong { len })
    );
}

#[test]
fn decode_passes_the_bytes_and_their_count() {
    let bytes = [7u8, 0, 0, 9, 0];
    assert_eq!(
        AleState::decode_state(&bytes),
        Call::DecodeState { serialized: vec![7, 0, 0, 9, 0], len: 5 }
    );
    assert_eq!(
        AleState::try_decode_state(&bytes),
        Ok(Call::DecodeState { serialized: vec![7, 0, 0, 9, 0], len: 5 })
    );
}

#[test]
fn decode_of_nothing() {
    assert_eq!(
        AleState::try_decode_state(&[]),
        Ok(Call::DecodeState { serialized: Vec::new(), len: 0 })
    );
}

#[test]
fn first_release_destroys_the_snapshot() {
    let mut s = snapshot();
    assert_eq!(s.release(), Some(Call::DeleteState { state: state() }));
    assert!(!s.is_live());
    assert_eq!(s.state(), ALEState { addr: 0 });
    assert_eq!(s.origin(), Origin::Environment);
}

#[test]
fn second_release_of_a_snapshot_is_a_no_op() {
    let mut s = snapshot();
    assert_eq!(s.release(), Some(Call::DeleteState { state: state() }));
    assert_eq!(s.release(), None);
    assert_eq!(s.release(), None);
    assert_eq!(s.state(), ALEState { addr: 0 });
}

#[test]
fn released_snapshot_is_not_encoded() {
    let mut s = snapshot();
    s.release();
    assert_eq!(s.try_encode_state(&[0u8; 16], 8), Err(Violation::Released));
}

#[test]
fn call_fixes_the_origin() {
    let engine = ALEInterface { addr: 0x1000 };
    let reply = || Reply::State(ALEState { addr: 0x2000 });
    let s = AleState::from_reply(&Call::CloneState { engine }, reply()).unwrap();
    assert_eq!(s.origin(), Origin::Environment);
    assert_eq!(s.state(), ALEState { addr: 0x2000 });
    let s = AleState::from_reply(&Call::CloneSystemState { engine }, reply()).unwrap();
    assert_eq!(s.origin(), Origin::System);
    let call = Call::DecodeState { serialized: vec![1, 0, 2], len: 3 };
    let s = AleState::from_reply(&call, reply()).unwrap();
    assert_eq!(s.origin(), Origin::Decoded);
}

#[test]
fn no_snapshot_from_another_call_or_answer() {
    let engine = ALEInterface { addr: 0x1000 };
    let reply = || Reply::State(ALEState { addr: 0x2000 });
    assert_eq!(
        AleState::from_reply(&Call::SaveState { engine }, reply()).unwrap_err(),
        Violation::UnexpectedReply
    );
    assert_eq!(
        AleState::from_reply(&Call::Act { engine, action: 1 }, reply()).unwrap_err(),
        Violation::UnexpectedReply
    );
    assert_eq!(
        AleState::from_reply(&Call::CloneState { engine }, Reply::Int(0x2000)).unwrap_err(),
        Violation::UnexpectedReply
    );
    assert_eq!(
        AleState::from_reply(&Call::CloneState { engine }, Reply::Done).unwrap_err(),
        Violation::UnexpectedReply
    );
}

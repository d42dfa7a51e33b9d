//! Detached snapshots of the engine's state, and their byte form.
//!
//! A snapshot lives apart from the engine it was taken from and gives up its
//! native resource once. Its byte form is a blob of a length that the engine
//! states; zero bytes may stand anywhere in it.

use vstd::prelude::*;
use vstd::slice::slice_to_vec;
use crate::buffer::{spec_validate, validate};
use crate::call::{Call, Reply};
use crate::violation::Violation;

verus! {

/// Reference to a native snapshot. The address 0 refers to none.
#[derive(Clone, Copy, Debug, PartialEq, Eq, Structural)]
pub struct ALEState {
    pub addr: usize,
}

/// How a snapshot came to be, which fixes what it holds.
#[derive(Clone, Copy, Debug, PartialEq, Eq, Structural)]
pub enum Origin {
    /// Copied from the environment: the pseudorandom generator is left out,
    /// so restoring it twice replays the same way. Meant for planning.
    Environment,
    /// Copied from the whole system, pseudorandom generator included. Meant
    /// for storing.
    System,
    /// Built from serialised bytes; what they held is the engine's to know.
    Decoded,
}

/// What a snapshot handle knows: the native reference it owns, and where the
/// snapshot came from.
pub struct SnapshotState {
    pub state: ALEState,
    pub origin: Origin,
}

impl SnapshotState {
    /// The native snapshot has not been given up.
    pub open spec fn is_live(self) -> bool {
        self.state.addr != 0
    }

    /// The origin of a snapshot that the engine hands out in answer to
    /// `call`, if the call makes a snapshot.
    pub open spec fn spec_origin(call: Call) -> Option<Origin> {
        match call {
            Call::CloneState { .. } => Some(Origin::Environment),
            Call::CloneSystemState { .. } => Some(Origin::System),
            Call::DecodeState { .. } => Some(Origin::Decoded),
            _ => None,
        }
    }

    /// The snapshot that the engine's answer to `call` stands for.
    pub open spec fn spec_from_reply(call: Call, reply: Reply) -> Result<
        SnapshotState,
        Violation,
    > {
        match SnapshotState::spec_origin(call) {
            None => Err(Violation::UnexpectedReply),
            Some(origin) => match reply {
                Reply::State(state) => Ok(SnapshotState { state, origin }),
                _ => Err(Violation::UnexpectedReply),
            },
        }
    }

    /// The call that serialises the snapshot, for a caller whose buffer holds
    /// `buffer_len` bytes, where the engine stated that the byte form takes
    /// `encoded_len`.
    pub open spec fn spec_encode_state(self, buffer_len: usize, encoded_len: usize) -> Result<
        Call,
        Violation,
    > {
        if !self.is_live() {
            Err(Violation::Released)
        } else if encoded_len > i32::MAX {
            Err(Violation::LengthTooLong { len: encoded_len })
        } else {
            match spec_validate(buffer_len, encoded_len) {
                Err(v) => Err(v),
                Ok(_) => Ok(Call::EncodeState { state: self.state, len: encoded_len as i32 }),
            }
        }
    }

    /// The handle after it has given up its snapshot, and the call that
    /// destroys the snapshot. A handle that owns none stays as it is, and
    /// there is no call.
    pub open spec fn spec_release(self) -> (SnapshotState, Option<Call>) {
        if self.is_live() {
            (
                SnapshotState { state: ALEState { addr: 0 }, origin: self.origin },
                Some(Call::DeleteState { state: self.state }),
            )
        } else {
            (self, None)
        }
    }
}

/// Owner of one native snapshot.
#[derive(Debug)]
pub struct AleState {
    state: ALEState,
    origin: Origin,
}

impl View for AleState {
    type V = SnapshotState;

    closed spec fn view(&self) -> SnapshotState {
        SnapshotState { state: self.state, origin: self.origin }
    }
}

impl AleState {
    /// Takes ownership of the snapshot that the engine handed out in answer
    /// to `call`. The call fixes the origin: a copy of the environment, a
    /// copy of the system, or a decoding. An answer to any other call, or an
    /// answer that is no reference, makes no snapshot. A null reference
    /// makes a handle that owns nothing.
    pub fn from_reply(call: &Call, reply: Reply) -> (snapshot: Result<AleState, Violation>)
        ensures
            match snapshot {
                Ok(s) => Ok::<SnapshotState, Violation>(s@) == SnapshotState::spec_from_reply(
                    *call,
                    reply,
                ),
                Err(v) => Err::<SnapshotState, Violation>(v) == SnapshotState::spec_from_reply(
                    *call,
                    reply,
                ),
            },
    {
        let origin: Origin = match call {
            Call::CloneState { .. } => Origin::Environment,
            Call::CloneSystemState { .. } => Origin::System,
            Call::DecodeState { .. } => Origin::Decoded,
            _ => { return Err(Violation::UnexpectedReply); },
        };
        match reply {
            Reply::State(state) => Ok(AleState { state, origin }),
            _ => Err(Violation::UnexpectedReply),
        }
    }

    /// The native reference that this handle owns; null once released.
    pub fn state(&self) -> (state: ALEState)
        ensures
            state == self@.state,
    {
        self.state
    }

    /// How the snapshot came to be.
    pub fn origin(&self) -> (origin: Origin)
        ensures
            origin == self@.origin,
    {
        self.origin
    }

    /// Whether the native snapshot has not been given up.
    pub fn is_live(&self) -> (live: bool)
        ensures
            live == self@.is_live(),
    {
        self.state.addr != 0
    }

    /// Asks how many bytes the snapshot serialises to.
    pub fn encode_state_len(&self) -> (call: Call)
        requires
            self@.is_live(),
        ensures
            call == (Call::EncodeStateLen { state: self@.state }),
    {
        Call::EncodeStateLen { state: self.state }
    }

    /// Serialises the snapshot for a caller who will take the bytes into
    /// `buf`. `encoded_len` is the length that the engine stated; the call
    /// makes it write exactly that many bytes.
    pub fn encode_state(&self, buf: &[u8], encoded_len: usize) -> (call: Call)
        requires
            self@.is_live(),
            encoded_len <= i32::MAX,
            buf@.len() >= encoded_len,
        ensures
            call == (Call::EncodeState { state: self@.state, len: encoded_len as i32 }),
            Ok::<Call, Violation>(call) == self@.spec_encode_state(
                buf.len(),
                encoded_len,
            ),
    {
        Call::EncodeState { state: self.state, len: encoded_len as i32 }
    }

    /// Serialises the snapshot as [`AleState::encode_state`] does, or says
    /// why the engine must not be asked: the handle owns no snapshot, the
    /// stated length is none the engine could have stated, or `buf` is too
    /// short for it.
    pub fn try_encode_state(&self, buf: &[u8], encoded_len: usize) -> (call: Result<
        Call,
        Violation,
    >)
        ensures
            call == self@.spec_encode_state(buf.len(), encoded_len),
            call is Ok <==> self@.is_live() && encoded_len <= i32::MAX && buf@.len()
                >= encoded_len,
    {
        self.encode_call(buf.len(), encoded_len)
    }

    /// Decides on serialising the snapshot by the length of the caller's
    /// buffer alone.
    pub(crate) fn encode_call(&self, buffer_len: usize, encoded_len: usize) -> (call: Result<
        Call,
        Violation,
    >)
        ensures
            call == self@.spec_encode_state(buffer_len, encoded_len),
            call is Ok <==> self@.is_live() && encoded_len <= i32::MAX && buffer_len
                >= encoded_len,
    {
        if !self.is_live() {
            Err(Violation::Released)
        } else if encoded_len > i32::MAX as usize {
            Err(Violation::LengthTooLong { len: encoded_len })
        } else {
            match validate(buffer_len, encoded_len) {
                Err(v) => Err(v),
                Ok(()) => Ok(Call::EncodeState { state: self.state, len: encoded_len as i32 }),
            }
        }
    }

    /// Builds a snapshot from its byte form. The bytes go to the engine as
    /// they are, with their count.
    pub fn decode_state(serialized: &[u8]) -> (call: Call)
        requires
            serialized@.len() <= i32::MAX,
        ensures
            call matches Call::DecodeState { serialized: bytes, len } && bytes@ == serialized@
                && len == serialized@.len(),
    {
        Call::DecodeState { serialized: slice_to_vec(serialized), len: serialized.len() as i32 }
    }

    /// Builds a snapshot as [`AleState::decode_state`] does, or says that the
    /// bytes are more than the engine can be told of.
    pub fn try_decode_state(serialized: &[u8]) -> (call: Result<Call, Violation>)
        ensures
            call is Ok <==> serialized@.len() <= i32::MAX,
            match call {
                Ok(Call::DecodeState { serialized: bytes, len }) => bytes@ == serialized@ && len
                    == serialized@.len(),
                Ok(_) => false,
                Err(v) => v == (Violation::LengthTooLong { len: serialized.len() }),
            },
    {
        if serialized.len() > i32::MAX as usize {
            Err(Violation::LengthTooLong { len: serialized.len() })
        } else {
            Ok(AleState::decode_state(serialized))
        }
    }

    /// Gives up the native snapshot. The first call yields the call that
    /// destroys it and clears the reference at once; any later call yields
    /// nothing and changes nothing.
    pub fn release(&mut self) -> (call: Option<Call>)
        ensures
            (final(self)@, call) == old(self)@.spec_release(),
            !final(self)@.is_live(),
            call is Some <==> old(self)@.is_live(),
    {
        if self.state.addr != 0 {
            let state: ALEState = self.state;
            self.state = ALEState { addr: 0 };
            Some(Call::DeleteState { state })
        } else {
            None
        }
    }
}

/// A buffer of exactly the length of a snapshot's byte form is taken for it,
/// and the engine is told to write that many bytes; a buffer one byte shorter
/// is refused.
pub proof fn lemma_encode_buffer_boundary(snapshot: SnapshotState, encoded_len: usize)
    requires
        snapshot.is_live(),
        encoded_len <= i32::MAX,
    ensures
        snapshot.spec_encode_state(encoded_len, encoded_len) == Ok::<Call, Violation>(
            Call::EncodeState { state: snapshot.state, len: encoded_len as i32 },
        ),
        encoded_len > 0 ==> snapshot.spec_encode_state((encoded_len - 1) as usize, encoded_len)
            == Err::<Call, Violation>(
            Violation::BufferTooSmall { required: encoded_len, got: (encoded_len - 1) as usize },
        ),
{
}

/// Releasing a snapshot twice destroys it once: the second release yields no
/// call and leaves the handle as the first left it.
pub proof fn lemma_snapshot_released_once(snapshot: SnapshotState)
    ensures
        snapshot.spec_release().0.spec_release() == (snapshot.spec_release().0, None::<Call>),
        !snapshot.spec_release().0.is_live(),
{
}

} // verus!

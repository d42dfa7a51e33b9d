//! The calls that may cross the native boundary.

use vstd::prelude::*;
use crate::engine::ALEInterface;
use crate::snapshot::ALEState;
use crate::text::CText;
use crate::violation::Violation;

verus! {

/// One call into the engine, with every argument that this crate decides.
///
/// The handles give out a call only where the checks for it have passed, so
/// a call that came from a handle may be made as it stands. Buffers are not
/// among the arguments. Where the engine fills one, `len` is the number of
/// elements it will write, and whoever makes the call provides exactly that
/// many.
#[allow(inconsistent_fields)]
#[must_use]
#[derive(Debug, PartialEq, Eq)]
pub enum Call {
    /// Destroys the engine instance.
    Delete { engine: ALEInterface },
    /// Reads an integer setting.
    GetInt { engine: ALEInterface, key: CText },
    /// Reads a boolean setting.
    GetBool { engine: ALEInterface, key: CText },
    /// Reads a floating-point setting.
    GetFloat { engine: ALEInterface, key: CText },
    /// Writes a text setting.
    SetString { engine: ALEInterface, key: CText, value: CText },
    /// Writes an integer setting.
    SetInt { engine: ALEInterface, key: CText, value: i32 },
    /// Writes a boolean setting.
    SetBool { engine: ALEInterface, key: CText, value: bool },
    /// Writes a floating-point setting; the value goes with the call unseen.
    SetFloat { engine: ALEInterface, key: CText },
    /// Resets the machine and loads the ROM image at a path.
    LoadRom { engine: ALEInterface, rom_file: CText },
    /// Applies one action and yields the reward.
    Act { engine: ALEInterface, action: i32 },
    /// Asks whether the episode has ended.
    GameOver { engine: ALEInterface },
    /// Starts a new episode.
    ResetGame { engine: ALEInterface },
    /// Counts the available modes.
    GetAvailableModesSize { engine: ALEInterface },
    /// Lists the available modes into `len` entries.
    GetAvailableModes { engine: ALEInterface, len: usize },
    /// Selects a game mode.
    SetMode { engine: ALEInterface, mode: i32 },
    /// Counts the available difficulties.
    GetAvailableDifficultiesSize { engine: ALEInterface },
    /// Lists the available difficulties into `len` entries.
    GetAvailableDifficulties { engine: ALEInterface, len: usize },
    /// Selects a difficulty.
    SetDifficulty { engine: ALEInterface, difficulty: i32 },
    /// Counts the legal actions.
    GetLegalActionSize { engine: ALEInterface },
    /// Lists the legal actions into `len` entries.
    GetLegalActionSet { engine: ALEInterface, len: usize },
    /// Counts the minimal actions.
    GetMinimalActionSize { engine: ALEInterface },
    /// Lists the minimal actions into `len` entries.
    GetMinimalActionSet { engine: ALEInterface, len: usize },
    /// Reads the number of frames since the ROM was loaded.
    GetFrameNumber { engine: ALEInterface },
    /// Reads the number of lives left.
    Lives { engine: ALEInterface },
    /// Reads the number of frames since the episode began.
    GetEpisodeFrameNumber { engine: ALEInterface },
    /// Dumps the machine's memory into `len` bytes.
    GetRam { engine: ALEInterface, len: usize },
    /// Reads the size of the machine's memory.
    GetRamSize { engine: ALEInterface },
    /// Reads the screen's width in pixels.
    GetScreenWidth { engine: ALEInterface },
    /// Reads the screen's height in pixels.
    GetScreenHeight { engine: ALEInterface },
    /// Dumps the screen, three bytes per pixel, into `len` bytes.
    GetScreenRgb { engine: ALEInterface, len: usize },
    /// Dumps the screen, one byte per pixel, into `len` bytes.
    GetScreenGrayscale { engine: ALEInterface, len: usize },
    /// Saves the state in the engine's own slot.
    SaveState { engine: ALEInterface },
    /// Restores the state from the engine's own slot.
    LoadState { engine: ALEInterface },
    /// Copies the environment state into a new snapshot.
    CloneState { engine: ALEInterface },
    /// Replaces the environment state with a snapshot's.
    RestoreState { engine: ALEInterface, state: ALEState },
    /// Copies the system state into a new snapshot.
    CloneSystemState { engine: ALEInterface },
    /// Replaces the system state with a snapshot's.
    RestoreSystemState { engine: ALEInterface, state: ALEState },
    /// Destroys a snapshot.
    DeleteState { state: ALEState },
    /// Writes the screen to an image file.
    SaveScreenPng { engine: ALEInterface, filename: CText },
    /// Serialises a snapshot into `len` bytes.
    EncodeState { state: ALEState, len: i32 },
    /// Reads the number of bytes that a snapshot serialises to.
    EncodeStateLen { state: ALEState },
    /// Builds a snapshot from `len` serialised bytes.
    DecodeState { serialized: Vec<u8>, len: i32 },
    /// Sets the verbosity of the engine's log, for the whole process.
    SetLoggerMode { mode: i32 },
}

impl Call {
    /// The engine instance that the call is made on, if it is made on one.
    pub open spec fn spec_engine(self) -> Option<ALEInterface> {
        match self {
            Call::Delete { engine, .. } => Some(engine),
            Call::GetInt { engine, .. } => Some(engine),
            Call::GetBool { engine, .. } => Some(engine),
            Call::GetFloat { engine, .. } => Some(engine),
            Call::SetString { engine, .. } => Some(engine),
            Call::SetInt { engine, .. } => Some(engine),
            Call::SetBool { engine, .. } => Some(engine),
            Call::SetFloat { engine, .. } => Some(engine),
            Call::LoadRom { engine, .. } => Some(engine),
            Call::Act { engine, .. } => Some(engine),
            Call::GameOver { engine, .. } => Some(engine),
            Call::ResetGame { engine, .. } => Some(engine),
            Call::GetAvailableModesSize { engine, .. } => Some(engine),
            Call::GetAvailableModes { engine, .. } => Some(engine),
            Call::SetMode { engine, .. } => Some(engine),
            Call::GetAvailableDifficultiesSize { engine, .. } => Some(engine),
            Call::GetAvailableDifficulties { engine, .. } => Some(engine),
            Call::SetDifficulty { engine, .. } => Some(engine),
            Call::GetLegalActionSize { engine, .. } => Some(engine),
            Call::GetLegalActionSet { engine, .. } => Some(engine),
            Call::GetMinimalActionSize { engine, .. } => Some(engine),
            Call::GetMinimalActionSet { engine, .. } => Some(engine),
            Call::GetFrameNumber { engine, .. } => Some(engine),
            Call::Lives { engine, .. } => Some(engine),
            Call::GetEpisodeFrameNumber { engine, .. } => Some(engine),
            Call::GetRam { engine, .. } => Some(engine),
            Call::GetRamSize { engine, .. } => Some(engine),
            Call::GetScreenWidth { engine, .. } => Some(engine),
            Call::GetScreenHeight { engine, .. } => Some(engine),
            Call::GetScreenRgb { engine, .. } => Some(engine),
            Call::GetScreenGrayscale { engine, .. } => Some(engine),
            Call::SaveState { engine, .. } => Some(engine),
            Call::LoadState { engine, .. } => Some(engine),
            Call::CloneState { engine, .. } => Some(engine),
            Call::RestoreState { engine, .. } => Some(engine),
            Call::CloneSystemState { engine, .. } => Some(engine),
            Call::RestoreSystemState { engine, .. } => Some(engine),
            Call::SaveScreenPng { engine, .. } => Some(engine),
            _ => None,
        }
    }

    /// The snapshot that the call reads or destroys, if it names one.
    pub open spec fn spec_state(self) -> Option<ALEState> {
        match self {
            Call::RestoreState { state, .. } => Some(state),
            Call::RestoreSystemState { state, .. } => Some(state),
            Call::DeleteState { state, .. } => Some(state),
            Call::EncodeState { state, .. } => Some(state),
            Call::EncodeStateLen { state, .. } => Some(state),
            _ => None,
        }
    }
}

/// What the engine answered to a call.
#[derive(Debug, PartialEq, Eq)]
pub enum Reply {
    /// The call has been made; it answers nothing.
    Done,
    /// A number: a reward, a counter, a size or a setting.
    Int(i32),
    /// A truth value.
    Flag(bool),
    /// The reference to a new snapshot.
    State(ALEState),
    /// The codes that the engine listed.
    Codes(Vec<i32>),
    /// The bytes that the engine wrote.
    Bytes(Vec<u8>),
}

impl Reply {
    /// The number that the engine answered with; any other answer is a
    /// violation.
    pub fn into_int(self) -> (number: Result<i32, Violation>)
        ensures
            number == (match self {
                Reply::Int(n) => Ok(n),
                _ => Err::<i32, Violation>(Violation::UnexpectedReply),
            }),
    {
        match self {
            Reply::Int(n) => Ok(n),
            _ => Err(Violation::UnexpectedReply),
        }
    }

    /// The truth value that the engine answered with; any other answer is a
    /// violation.
    pub fn into_flag(self) -> (flag: Result<bool, Violation>)
        ensures
            flag == (match self {
                Reply::Flag(b) => Ok(b),
                _ => Err::<bool, Violation>(Violation::UnexpectedReply),
            }),
    {
        match self {
            Reply::Flag(b) => Ok(b),
            _ => Err(Violation::UnexpectedReply),
        }
    }
}

/// Verbosity of the engine's log.
#[derive(Clone, Copy, Debug, PartialEq, Eq, Structural)]
pub enum LoggerMode {
    Info,
    Warning,
    Error,
}

impl LoggerMode {
    /// The number by which the engine knows this verbosity.
    pub open spec fn spec_code(self) -> i32 {
        match self {
            LoggerMode::Info => 0,
            LoggerMode::Warning => 1,
            LoggerMode::Error => 2,
        }
    }

    /// The number by which the engine knows this verbosity.
    #[verifier::when_used_as_spec(spec_code)]
    pub fn code(self) -> (code: i32)
        ensures
            code == self.spec_code(),
    {
        match self {
            LoggerMode::Info => 0,
            LoggerMode::Warning => 1,
            LoggerMode::Error => 2,
        }
    }
}

} // verus!

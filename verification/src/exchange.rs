//! Operations that take more than one call.
//!
//! Some operations need an answer from the engine before the call they are
//! named after can be decided: the legal actions before an action is applied,
//! the size of the machine's memory before it is dumped. An [`Exchange`] runs
//! such an operation. It borrows the handle, says which call to make, takes
//! the answer and says what comes next, until the operation finishes or is
//! refused. The answer that a decision rests on is always the one to the call
//! made just before.

use vstd::prelude::*;
use crate::buffer::{
    fill, filled, screen_bytes, spec_required_size, spec_validate, try_required_size, validate,
    PixelFormat,
};
use crate::call::{Call, Reply};
use crate::engine::{ALEInterface, Ale, HandleState};
use crate::snapshot::{AleState, SnapshotState};
use crate::violation::Violation;

verus! {

/// A set of codes that the engine reports for the loaded game.
#[derive(Clone, Copy, Debug, PartialEq, Eq, Structural)]
pub enum CodeSet {
    /// The game's modes.
    Modes,
    /// The game's difficulties.
    Difficulties,
    /// Every action that the game accepts.
    LegalActions,
    /// The actions that are enough to play the game.
    MinimalActions,
}

impl CodeSet {
    /// The call that counts the set.
    pub open spec fn spec_count_call(self, engine: ALEInterface) -> Call {
        match self {
            CodeSet::Modes => Call::GetAvailableModesSize { engine },
            CodeSet::Difficulties => Call::GetAvailableDifficultiesSize { engine },
            CodeSet::LegalActions => Call::GetLegalActionSize { engine },
            CodeSet::MinimalActions => Call::GetMinimalActionSize { engine },
        }
    }

    /// The call that lists the set into `len` entries.
    pub open spec fn spec_list_call(self, engine: ALEInterface, len: usize) -> Call {
        match self {
            CodeSet::Modes => Call::GetAvailableModes { engine, len },
            CodeSet::Difficulties => Call::GetAvailableDifficulties { engine, len },
            CodeSet::LegalActions => Call::GetLegalActionSet { engine, len },
            CodeSet::MinimalActions => Call::GetMinimalActionSet { engine, len },
        }
    }
}

/// An operation that is carried out in several calls.
#[derive(Clone, Copy, Debug, PartialEq, Eq, Structural)]
pub enum Goal {
    /// List a set of codes.
    Codes { set: CodeSet },
    /// Apply an action for one step, if it is legal now.
    Act { action: i32 },
    /// Select a game mode, if the game has it.
    SetMode { mode: i32 },
    /// Select a difficulty, if the game has it.
    SetDifficulty { difficulty: i32 },
    /// Learn the size of the machine's memory.
    RamSize,
    /// Learn the screen's width.
    ScreenWidth,
    /// Learn the screen's height.
    ScreenHeight,
    /// Dump the machine's memory for a buffer of `buffer_len` bytes.
    Ram { buffer_len: usize },
    /// Dump the screen in `format` for a buffer of `buffer_len` bytes.
    Screen { buffer_len: usize, format: PixelFormat },
}

/// What an operation yields once it has finished.
#[derive(Debug, PartialEq, Eq)]
pub enum Outcome {
    /// The effect has taken place.
    Done,
    /// The reward for the action.
    Reward(i32),
    /// A size or a dimension.
    Size(usize),
    /// The codes of the set.
    Codes(Vec<i32>),
    /// The dump, to be written into the caller's buffer.
    Bytes(Vec<u8>),
}

impl Outcome {
    /// The reward that the operation yielded; any other outcome is a
    /// violation.
    pub fn into_reward(self) -> (reward: Result<i32, Violation>)
        ensures
            reward == (match self {
                Outcome::Reward(r) => Ok(r),
                _ => Err::<i32, Violation>(Violation::UnexpectedReply),
            }),
    {
        match self {
            Outcome::Reward(r) => Ok(r),
            _ => Err(Violation::UnexpectedReply),
        }
    }

    /// The size that the operation yielded; any other outcome is a violation.
    pub fn into_size(self) -> (size: Result<usize, Violation>)
        ensures
            size == (match self {
                Outcome::Size(n) => Ok(n),
                _ => Err::<usize, Violation>(Violation::UnexpectedReply),
            }),
    {
        match self {
            Outcome::Size(n) => Ok(n),
            _ => Err(Violation::UnexpectedReply),
        }
    }

    /// The codes that the operation yielded; any other outcome is a
    /// violation.
    pub fn into_codes(self) -> (codes: Result<Vec<i32>, Violation>)
        ensures
            codes == (match self {
                Outcome::Codes(c) => Ok(c),
                _ => Err::<Vec<i32>, Violation>(Violation::UnexpectedReply),
            }),
    {
        match self {
            Outcome::Codes(c) => Ok(c),
            _ => Err(Violation::UnexpectedReply),
        }
    }

    /// Writes the dump that the operation yielded at the start of `buffer`.
    /// Any other outcome is a violation, and so is a dump that is longer than
    /// the buffer; the buffer is then left as it was.
    pub fn write_to(self, buffer: &mut [u8]) -> (written: Result<(), Violation>)
        ensures
            written == (match self {
                Outcome::Bytes(dump) => spec_validate(old(buffer).len(), dump.len()),
                _ => Err::<(), Violation>(Violation::UnexpectedReply),
            }),
            final(buffer)@ == (match self {
                Outcome::Bytes(dump) if written is Ok => filled(old(buffer)@, dump@),
                _ => old(buffer)@,
            }),
    {
        match self {
            Outcome::Bytes(dump) => match validate(buffer.len(), dump.len()) {
                Ok(()) => {
                    fill(buffer, dump.as_slice());
                    Ok(())
                },
                Err(v) => Err(v),
            },
            _ => Err(Violation::UnexpectedReply),
        }
    }
}

/// What an exchange wants next.
#[must_use]
#[derive(Debug, PartialEq, Eq)]
pub enum Step {
    /// Make this call and come back with the engine's answer.
    Ask(Call),
    /// The operation has finished.
    Finish(Outcome),
    /// The operation must not go on; no further call is made.
    Refuse(Violation),
}

/// Where an exchange stands: what the call that is under way was asked for.
#[derive(Clone, Copy, Debug, PartialEq, Eq, Structural)]
pub enum Stage {
    /// A size or a count.
    Size,
    /// The screen's height; its width is known.
    Height { width: usize },
    /// `len` codes.
    Codes { len: usize },
    /// `len` bytes.
    Bytes { len: usize },
    /// The call that the operation is named after.
    Effect,
    /// No call is under way: the operation has finished or was refused.
    Over,
}

/// An exchange as a value: the handle it runs on, the operation, and where
/// it stands.
pub struct ExchangeState {
    pub handle: HandleState,
    pub goal: Goal,
    pub stage: Stage,
}

impl ExchangeState {
    /// The exchange at another stage.
    pub open spec fn at(self, stage: Stage) -> ExchangeState {
        ExchangeState { handle: self.handle, goal: self.goal, stage }
    }

    /// The exchange ends with a violation.
    pub open spec fn refuse(self, violation: Violation) -> (ExchangeState, Step) {
        (self.at(Stage::Over), Step::Refuse(violation))
    }

    /// The exchange ends with what the operation yields.
    pub open spec fn finish(self, outcome: Outcome) -> (ExchangeState, Step) {
        (self.at(Stage::Over), Step::Finish(outcome))
    }

    /// The exchange goes on with a call, if the call was decided on.
    pub open spec fn go_on(self, stage: Stage, call: Result<Call, Violation>) -> (
        ExchangeState,
        Step,
    ) {
        match call {
            Ok(c) => (self.at(stage), Step::Ask(c)),
            Err(v) => self.refuse(v),
        }
    }

    /// The call that counts or lists a set of codes, which needs a live
    /// instance with a ROM.
    pub open spec fn for_codes(self, call: Call) -> Result<Call, Violation> {
        if !self.handle.is_live() {
            Err(Violation::Released)
        } else if !self.handle.rom_loaded {
            Err(Violation::RomNotLoaded)
        } else {
            Ok(call)
        }
    }

    /// A call that needs no more than a live instance.
    pub open spec fn for_live(self, call: Call) -> Result<Call, Violation> {
        if !self.handle.is_live() {
            Err(Violation::Released)
        } else {
            Ok(call)
        }
    }

    /// The first step of an operation on a handle.
    pub open spec fn spec_start(handle: HandleState, goal: Goal) -> (ExchangeState, Step) {
        let fresh = ExchangeState { handle, goal, stage: Stage::Over };
        let engine = handle.engine;
        match goal {
            Goal::RamSize => fresh.go_on(Stage::Size, fresh.for_live(Call::GetRamSize { engine })),
            Goal::Ram { .. } => fresh.go_on(
                Stage::Size,
                fresh.for_live(Call::GetRamSize { engine }),
            ),
            Goal::ScreenWidth => fresh.go_on(
                Stage::Size,
                fresh.for_live(Call::GetScreenWidth { engine }),
            ),
            Goal::Screen { .. } => fresh.go_on(
                Stage::Size,
                fresh.for_live(Call::GetScreenWidth { engine }),
            ),
            Goal::ScreenHeight => fresh.go_on(
                Stage::Size,
                fresh.for_live(Call::GetScreenHeight { engine }),
            ),
            Goal::Codes { set } => fresh.go_on(
                Stage::Size,
                fresh.for_codes(set.spec_count_call(engine)),
            ),
            Goal::Act { .. } => fresh.go_on(
                Stage::Size,
                fresh.for_codes(CodeSet::LegalActions.spec_count_call(engine)),
            ),
            Goal::SetMode { .. } => fresh.go_on(
                Stage::Size,
                fresh.for_codes(CodeSet::Modes.spec_count_call(engine)),
            ),
            Goal::SetDifficulty { .. } => fresh.go_on(
                Stage::Size,
                fresh.for_codes(CodeSet::Difficulties.spec_count_call(engine)),
            ),
        }
    }

    /// The step after the engine has reported a size or a count.
    pub open spec fn sized(self, size: usize) -> (ExchangeState, Step) {
        let engine = self.handle.engine;
        match self.goal {
            Goal::RamSize => self.finish(Outcome::Size(size)),
            Goal::ScreenWidth => self.finish(Outcome::Size(size)),
            Goal::ScreenHeight => self.finish(Outcome::Size(size)),
            Goal::Ram { buffer_len } => self.go_on(
                Stage::Bytes { len: size },
                self.handle.spec_get_ram(buffer_len, size),
            ),
            Goal::Screen { .. } => self.go_on(
                Stage::Height { width: size },
                self.for_live(Call::GetScreenHeight { engine }),
            ),
            Goal::Codes { set } => self.go_on(
                Stage::Codes { len: size },
                self.for_codes(set.spec_list_call(engine, size)),
            ),
            Goal::Act { .. } => self.go_on(
                Stage::Codes { len: size },
                self.for_codes(CodeSet::LegalActions.spec_list_call(engine, size)),
            ),
            Goal::SetMode { .. } => self.go_on(
                Stage::Codes { len: size },
                self.for_codes(CodeSet::Modes.spec_list_call(engine, size)),
            ),
            Goal::SetDifficulty { .. } => self.go_on(
                Stage::Codes { len: size },
                self.for_codes(CodeSet::Difficulties.spec_list_call(engine, size)),
            ),
        }
    }

    /// The step after the engine has reported the screen's height.
    pub open spec fn measured(self, width: usize, height: usize) -> (ExchangeState, Step) {
        match self.goal {
            Goal::Screen { buffer_len, format } => match self.handle.spec_get_screen(
                buffer_len,
                width,
                height,
                format,
            ) {
                Ok(Call::GetScreenRgb { engine, len }) => (
                    self.at(Stage::Bytes { len }),
                    Step::Ask(Call::GetScreenRgb { engine, len }),
                ),
                Ok(Call::GetScreenGrayscale { engine, len }) => (
                    self.at(Stage::Bytes { len }),
                    Step::Ask(Call::GetScreenGrayscale { engine, len }),
                ),
                Ok(_) => self.refuse(Violation::UnexpectedReply),
                Err(v) => self.refuse(v),
            },
            _ => self.refuse(Violation::UnexpectedReply),
        }
    }

    /// The step after the engine has listed the codes.
    pub open spec fn listed(self, codes: Vec<i32>) -> (ExchangeState, Step) {
        match self.goal {
            Goal::Codes { .. } => self.finish(Outcome::Codes(codes)),
            Goal::Act { action } => self.go_on(Stage::Effect, self.handle.spec_act(codes@, action)),
            Goal::SetMode { mode } => self.go_on(
                Stage::Effect,
                self.handle.spec_set_mode(codes@, mode),
            ),
            Goal::SetDifficulty { difficulty } => self.go_on(
                Stage::Effect,
                self.handle.spec_set_difficulty(codes@, difficulty),
            ),
            _ => self.refuse(Violation::UnexpectedReply),
        }
    }

    /// The step after the engine has written the dump.
    pub open spec fn dumped(self, bytes: Vec<u8>) -> (ExchangeState, Step) {
        match self.goal {
            Goal::Ram { buffer_len } => if bytes@.len() <= buffer_len {
                self.finish(Outcome::Bytes(bytes))
            } else {
                self.refuse(Violation::UnexpectedReply)
            },
            Goal::Screen { buffer_len, .. } => if bytes@.len() <= buffer_len {
                self.finish(Outcome::Bytes(bytes))
            } else {
                self.refuse(Violation::UnexpectedReply)
            },
            _ => self.refuse(Violation::UnexpectedReply),
        }
    }

    /// The step after the call that the operation is named after.
    pub open spec fn effected(self, reply: Reply) -> (ExchangeState, Step) {
        match self.goal {
            Goal::Act { .. } => match reply {
                Reply::Int(reward) => self.finish(Outcome::Reward(reward)),
                _ => self.refuse(Violation::UnexpectedReply),
            },
            Goal::SetMode { .. } => match reply {
                Reply::Done => self.finish(Outcome::Done),
                _ => self.refuse(Violation::UnexpectedReply),
            },
            Goal::SetDifficulty { .. } => match reply {
                Reply::Done => self.finish(Outcome::Done),
                _ => self.refuse(Violation::UnexpectedReply),
            },
            _ => self.refuse(Violation::UnexpectedReply),
        }
    }

    /// The step that follows the engine's answer to the call under way. An
    /// answer of the wrong kind or length ends the exchange, and so does any
    /// answer once the exchange is over.
    pub open spec fn spec_next(self, reply: Reply) -> (ExchangeState, Step) {
        match self.stage {
            Stage::Size => match reply {
                Reply::Int(reported) => match spec_required_size(reported) {
                    Ok(size) => self.sized(size),
                    Err(v) => self.refuse(v),
                },
                _ => self.refuse(Violation::UnexpectedReply),
            },
            Stage::Height { width } => match reply {
                Reply::Int(reported) => match spec_required_size(reported) {
                    Ok(height) => self.measured(width, height),
                    Err(v) => self.refuse(v),
                },
                _ => self.refuse(Violation::UnexpectedReply),
            },
            Stage::Codes { len } => match reply {
                Reply::Codes(codes) => if codes@.len() == len {
                    self.listed(codes)
                } else {
                    self.refuse(Violation::UnexpectedReply)
                },
                _ => self.refuse(Violation::UnexpectedReply),
            },
            Stage::Bytes { len } => match reply {
                Reply::Bytes(bytes) => if bytes@.len() == len {
                    self.dumped(bytes)
                } else {
                    self.refuse(Violation::UnexpectedReply)
                },
                _ => self.refuse(Violation::UnexpectedReply),
            },
            Stage::Effect => self.effected(reply),
            Stage::Over => self.refuse(Violation::UnexpectedReply),
        }
    }
}

/// An operation under way on a handle. While it runs, the handle can be
/// neither released nor given another ROM.
#[derive(Debug)]
pub struct Exchange<'a> {
    ale: &'a Ale,
    goal: Goal,
    stage: Stage,
}

impl<'a> View for Exchange<'a> {
    type V = ExchangeState;

    closed spec fn view(&self) -> ExchangeState {
        ExchangeState { handle: self.ale@, goal: self.goal, stage: self.stage }
    }
}

impl<'a> Exchange<'a> {
    /// Begins an operation on a handle, and says which call to make first.
    pub fn start(ale: &'a Ale, goal: Goal) -> (begun: (Exchange<'a>, Step))
        ensures
            (begun.0@, begun.1) == ExchangeState::spec_start(ale@, goal),
    {
        let mut exchange = Exchange { ale, goal, stage: Stage::Over };
        let call = match goal {
            Goal::RamSize => exchange.for_live(Call::GetRamSize { engine: ale.engine() }),
            Goal::Ram { .. } => exchange.for_live(Call::GetRamSize { engine: ale.engine() }),
            Goal::ScreenWidth => exchange.for_live(Call::GetScreenWidth { engine: ale.engine() }),
            Goal::Screen { .. } => exchange.for_live(
                Call::GetScreenWidth { engine: ale.engine() },
            ),
            Goal::ScreenHeight => exchange.for_live(
                Call::GetScreenHeight { engine: ale.engine() },
            ),
            Goal::Codes { set } => exchange.count(set),
            Goal::Act { .. } => exchange.count(CodeSet::LegalActions),
            Goal::SetMode { .. } => exchange.count(CodeSet::Modes),
            Goal::SetDifficulty { .. } => exchange.count(CodeSet::Difficulties),
        };
        let step = exchange.go_on(Stage::Size, call);
        (exchange, step)
    }

    /// The operation that this exchange runs.
    pub fn goal(&self) -> (goal: Goal)
        ensures
            goal == self@.goal,
    {
        self.goal
    }

    /// Where the exchange stands.
    pub fn stage(&self) -> (stage: Stage)
        ensures
            stage == self@.stage,
    {
        self.stage
    }

    /// Takes the engine's answer to the call that was asked for last, and
    /// says what comes next.
    pub fn next(&mut self, reply: Reply) -> (step: Step)
        ensures
            (final(self)@, step) == old(self)@.spec_next(reply),
    {
        match self.stage {
            Stage::Size => match reply {
                Reply::Int(reported) => match try_required_size(reported) {
                    Ok(size) => self.sized(size),
                    Err(v) => self.refuse(v),
                },
                _ => self.refuse(Violation::UnexpectedReply),
            },
            Stage::Height { width } => match reply {
                Reply::Int(reported) => match try_required_size(reported) {
                    Ok(height) => self.measured(width, height),
                    Err(v) => self.refuse(v),
                },
                _ => self.refuse(Violation::UnexpectedReply),
            },
            Stage::Codes { len } => match reply {
                Reply::Codes(codes) => if codes.len() == len {
                    self.listed(codes)
                } else {
                    self.refuse(Violation::UnexpectedReply)
                },
                _ => self.refuse(Violation::UnexpectedReply),
            },
            Stage::Bytes { len } => match reply {
                Reply::Bytes(bytes) => if bytes.len() == len {
                    self.dumped(bytes)
                } else {
                    self.refuse(Violation::UnexpectedReply)
                },
                _ => self.refuse(Violation::UnexpectedReply),
            },
            Stage::Effect => self.effected(reply),
            Stage::Over => self.refuse(Violation::UnexpectedReply),
        }
    }

    fn refuse(&mut self, violation: Violation) -> (step: Step)
        ensures
            (final(self)@, step) == old(self)@.refuse(violation),
    {
        self.stage = Stage::Over;
        Step::Refuse(violation)
    }

    fn finish(&mut self, outcome: Outcome) -> (step: Step)
        ensures
            (final(self)@, step) == old(self)@.finish(outcome),
    {
        self.stage = Stage::Over;
        Step::Finish(outcome)
    }

    fn go_on(&mut self, stage: Stage, call: Result<Call, Violation>) -> (step: Step)
        ensures
            (final(self)@, step) == old(self)@.go_on(stage, call),
    {
        match call {
            Ok(c) => {
                self.stage = stage;
                Step::Ask(c)
            },
            Err(v) => self.refuse(v),
        }
    }

    fn for_live(&self, call: Call) -> (decided: Result<Call, Violation>)
        ensures
            decided == self@.for_live(call),
    {
        if !self.ale.is_live() {
            Err(Violation::Released)
        } else {
            Ok(call)
        }
    }

    fn count(&self, set: CodeSet) -> (decided: Result<Call, Violation>)
        ensures
            decided == self@.for_codes(set.spec_count_call(self@.handle.engine)),
    {
        if !self.ale.is_live() {
            Err(Violation::Released)
        } else if !self.ale.has_rom() {
            Err(Violation::RomNotLoaded)
        } else {
            Ok(
                match set {
                    CodeSet::Modes => self.ale.available_modes_size(),
                    CodeSet::Difficulties => self.ale.available_difficulties_size(),
                    CodeSet::LegalActions => self.ale.legal_action_size(),
                    CodeSet::MinimalActions => self.ale.minimal_action_size(),
                },
            )
        }
    }

    fn list(&self, set: CodeSet, len: usize) -> (decided: Result<Call, Violation>)
        ensures
            decided == self@.for_codes(set.spec_list_call(self@.handle.engine, len)),
    {
        if !self.ale.is_live() {
            Err(Violation::Released)
        } else if !self.ale.has_rom() {
            Err(Violation::RomNotLoaded)
        } else {
            Ok(
                match set {
                    CodeSet::Modes => self.ale.available_modes(len),
                    CodeSet::Difficulties => self.ale.available_difficulties(len),
                    CodeSet::LegalActions => self.ale.legal_action_set(len),
                    CodeSet::MinimalActions => self.ale.minimal_action_set(len),
                },
            )
        }
    }

    fn sized(&mut self, size: usize) -> (step: Step)
        ensures
            (final(self)@, step) == old(self)@.sized(size),
    {
        match self.goal {
            Goal::RamSize => self.finish(Outcome::Size(size)),
            Goal::ScreenWidth => self.finish(Outcome::Size(size)),
            Goal::ScreenHeight => self.finish(Outcome::Size(size)),
            Goal::Ram { buffer_len } => {
                let call = self.ale.ram_call(buffer_len, size);
                self.go_on(Stage::Bytes { len: size }, call)
            },
            Goal::Screen { .. } => {
                let call = self.for_live(Call::GetScreenHeight { engine: self.ale.engine() });
                self.go_on(Stage::Height { width: size }, call)
            },
            Goal::Codes { set } => {
                let call = self.list(set, size);
                self.go_on(Stage::Codes { len: size }, call)
            },
            Goal::Act { .. } => {
                let call = self.list(CodeSet::LegalActions, size);
                self.go_on(Stage::Codes { len: size }, call)
            },
            Goal::SetMode { .. } => {
                let call = self.list(CodeSet::Modes, size);
                self.go_on(Stage::Codes { len: size }, call)
            },
            Goal::SetDifficulty { .. } => {
                let call = self.list(CodeSet::Difficulties, size);
                self.go_on(Stage::Codes { len: size }, call)
            },
        }
    }

    fn measured(&mut self, width: usize, height: usize) -> (step: Step)
        ensures
            (final(self)@, step) == old(self)@.measured(width, height),
    {
        match self.goal {
            Goal::Screen { buffer_len, format } => match self.ale.screen_call(
                buffer_len,
                width,
                height,
                format,
            ) {
                Ok(Call::GetScreenRgb { engine, len }) => {
                    self.stage = Stage::Bytes { len };
                    Step::Ask(Call::GetScreenRgb { engine, len })
                },
                Ok(Call::GetScreenGrayscale { engine, len }) => {
                    self.stage = Stage::Bytes { len };
                    Step::Ask(Call::GetScreenGrayscale { engine, len })
                },
                Ok(_) => self.refuse(Violation::UnexpectedReply),
                Err(v) => self.refuse(v),
            },
            _ => self.refuse(Violation::UnexpectedReply),
        }
    }

    fn listed(&mut self, codes: Vec<i32>) -> (step: Step)
        ensures
            (final(self)@, step) == old(self)@.listed(codes),
    {
        match self.goal {
            Goal::Codes { .. } => self.finish(Outcome::Codes(codes)),
            Goal::Act { action } => {
                let call = self.ale.try_act(codes.as_slice(), action);
                self.go_on(Stage::Effect, call)
            },
            Goal::SetMode { mode } => {
                let call = self.ale.try_set_mode(codes.as_slice(), mode);
                self.go_on(Stage::Effect, call)
            },
            Goal::SetDifficulty { difficulty } => {
                let call = self.ale.try_set_difficulty(codes.as_slice(), difficulty);
                self.go_on(Stage::Effect, call)
            },
            _ => self.refuse(Violation::UnexpectedReply),
        }
    }

    fn dumped(&mut self, bytes: Vec<u8>) -> (step: Step)
        ensures
            (final(self)@, step) == old(self)@.dumped(bytes),
    {
        match self.goal {
            Goal::Ram { buffer_len } => if bytes.len() <= buffer_len {
                self.finish(Outcome::Bytes(bytes))
            } else {
                self.refuse(Violation::UnexpectedReply)
            },
            Goal::Screen { buffer_len, .. } => if bytes.len() <= buffer_len {
                self.finish(Outcome::Bytes(bytes))
            } else {
                self.refuse(Violation::UnexpectedReply)
            },
            _ => self.refuse(Violation::UnexpectedReply),
        }
    }

    fn effected(&mut self, reply: Reply) -> (step: Step)
        ensures
            (final(self)@, step) == old(self)@.effected(reply),
    {
        match self.goal {
            Goal::Act { .. } => match reply {
                Reply::Int(reward) => self.finish(Outcome::Reward(reward)),
                _ => self.refuse(Violation::UnexpectedReply),
            },
            Goal::SetMode { .. } => match reply {
                Reply::Done => self.finish(Outcome::Done),
                _ => self.refuse(Violation::UnexpectedReply),
            },
            Goal::SetDifficulty { .. } => match reply {
                Reply::Done => self.finish(Outcome::Done),
                _ => self.refuse(Violation::UnexpectedReply),
            },
            _ => self.refuse(Violation::UnexpectedReply),
        }
    }
}

/// The first call of an exchange asks for a size or a count, never for an
/// effect or a dump.
pub proof fn lemma_start_asks_for_a_size(handle: HandleState, goal: Goal)
    ensures
        ExchangeState::spec_start(handle, goal).0.handle == handle,
        ExchangeState::spec_start(handle, goal).0.goal == goal,
        ExchangeState::spec_start(handle, goal).1 matches Step::Ask(call) ==> {
            &&& handle.is_live()
            &&& ExchangeState::spec_start(handle, goal).0.stage == Stage::Size
            &&& call !is Act
            &&& call !is SetMode
            &&& call !is SetDifficulty
            &&& call !is GetRam
            &&& call !is GetScreenRgb
            &&& call !is GetScreenGrayscale
        },
        ExchangeState::spec_start(handle, goal).1 !is Ask ==> ExchangeState::spec_start(
            handle,
            goal,
        ).0.stage == Stage::Over,
{
}

/// An action is applied, a mode or a difficulty selected, only in answer to
/// a listing of the set that holds it: the set as the engine listed it to
/// the call just before.
pub proof fn lemma_effect_follows_its_listing(state: ExchangeState, reply: Reply)
    ensures
        state.spec_next(reply).1 matches Step::Ask(Call::Act { engine, action }) ==> {
            &&& state.handle.is_live()
            &&& engine == state.handle.engine
            &&& state.goal == Goal::Act { action }
            &&& state.stage is Codes
            &&& reply matches Reply::Codes(codes) && codes@.contains(action)
        },
        state.spec_next(reply).1 matches Step::Ask(Call::SetMode { engine, mode }) ==> {
            &&& state.handle.is_live()
            &&& engine == state.handle.engine
            &&& state.goal == Goal::SetMode { mode }
            &&& state.stage is Codes
            &&& reply matches Reply::Codes(codes) && codes@.contains(mode)
        },
        state.spec_next(reply).1 matches Step::Ask(Call::SetDifficulty { engine, difficulty })
            ==> {
            &&& state.handle.is_live()
            &&& engine == state.handle.engine
            &&& state.goal == Goal::SetDifficulty { difficulty }
            &&& state.stage is Codes
            &&& reply matches Reply::Codes(codes) && codes@.contains(difficulty)
        },
{
}

/// A dump is asked for only where it fits the caller's buffer, with the
/// length that the engine reported to the call just before; and a dump that
/// the exchange hands out fits the buffer.
pub proof fn lemma_dump_fits_the_buffer(state: ExchangeState, reply: Reply)
    ensures
        state.spec_next(reply).1 matches Step::Ask(Call::GetRam { engine, len }) ==> {
            &&& state.handle.is_live()
            &&& engine == state.handle.engine
            &&& state.stage == Stage::Size
            &&& reply matches Reply::Int(reported) && reported == len
            &&& state.goal matches Goal::Ram { buffer_len } && len <= buffer_len
            &&& state.spec_next(reply).0.stage == (Stage::Bytes { len })
        },
        state.spec_next(reply).1 matches Step::Ask(Call::GetScreenRgb { engine, len }) ==> {
            &&& state.handle.is_live()
            &&& engine == state.handle.engine
            &&& state.stage matches Stage::Height { width }
            &&& reply matches Reply::Int(height)
            &&& height >= 0
            &&& len == width * height * 3
            &&& state.goal matches Goal::Screen { buffer_len, format }
            &&& format == PixelFormat::Rgb
            &&& len <= buffer_len
            &&& state.spec_next(reply).0.stage == (Stage::Bytes { len })
        },
        state.spec_next(reply).1 matches Step::Ask(Call::GetScreenGrayscale { engine, len })
            ==> {
            &&& state.handle.is_live()
            &&& engine == state.handle.engine
            &&& state.stage matches Stage::Height { width }
            &&& reply matches Reply::Int(height)
            &&& height >= 0
            &&& len == width * height
            &&& state.goal matches Goal::Screen { buffer_len, format }
            &&& format == PixelFormat::Grayscale
            &&& len <= buffer_len
            &&& state.spec_next(reply).0.stage == (Stage::Bytes { len })
        },
        state.spec_next(reply).1 matches Step::Finish(Outcome::Bytes(bytes)) ==> {
            &&& state.stage matches Stage::Bytes { len }
            &&& bytes@.len() == len
            &&& reply == Reply::Bytes(bytes)
            &&& match state.goal {
                Goal::Ram { buffer_len } => bytes@.len() <= buffer_len,
                Goal::Screen { buffer_len, .. } => bytes@.len() <= buffer_len,
                _ => false,
            }
        },
{
    assert forall|w: nat, h: nat| #[trigger] screen_bytes(w, h, PixelFormat::Rgb) == w * h * 3 by {}
    assert forall|w: nat, h: nat| #[trigger]
        screen_bytes(w, h, PixelFormat::Grayscale) == w * h by {
        assert(w * h * 1 == w * h) by (nonlinear_arith);
    }
}

/// For the machine's memory, a buffer of exactly the reported size is taken
/// and a buffer one byte shorter is refused before the dump is asked for.
pub proof fn lemma_ram_exchange_boundary(state: ExchangeState, size: usize)
    requires
        state.handle.is_live(),
        state.stage == Stage::Size,
        size <= i32::MAX,
    ensures
        state.goal == (Goal::Ram { buffer_len: size }) ==> state.spec_next(
            Reply::Int(size as i32),
        ) == (
            state.at(Stage::Bytes { len: size }),
            Step::Ask(Call::GetRam { engine: state.handle.engine, len: size }),
        ),
        size > 0 && state.goal == (Goal::Ram { buffer_len: (size - 1) as usize })
            ==> state.spec_next(Reply::Int(size as i32)) == (
            state.at(Stage::Over),
            Step::Refuse(
                Violation::BufferTooSmall { required: size, got: (size - 1) as usize },
            ),
        ),
{
}

/// Every call that an exchange asks for is made on the instance that the
/// handle owns, and the handle owns one: nothing is asked of an instance
/// that has been given up.
pub proof fn lemma_calls_reach_a_live_instance(
    handle: HandleState,
    goal: Goal,
    state: ExchangeState,
    reply: Reply,
)
    ensures
        ExchangeState::spec_start(handle, goal).1 matches Step::Ask(call) ==> handle.is_live()
            && call.spec_engine() == Some(handle.engine),
        state.spec_next(reply).1 matches Step::Ask(call) ==> state.handle.is_live()
            && call.spec_engine() == Some(state.handle.engine),
{
}

/// An operation finishes with what it was begun for: a listing with codes,
/// an action with its reward, a selection with nothing, a question of size
/// with a size, a dump with bytes.
pub proof fn lemma_outcome_suits_the_goal(state: ExchangeState, reply: Reply)
    ensures
        state.spec_next(reply).1 matches Step::Finish(outcome) ==> match state.goal {
            Goal::Codes { .. } => outcome is Codes,
            Goal::Act { .. } => outcome is Reward,
            Goal::SetMode { .. } => outcome is Done,
            Goal::SetDifficulty { .. } => outcome is Done,
            Goal::RamSize => outcome is Size,
            Goal::ScreenWidth => outcome is Size,
            Goal::ScreenHeight => outcome is Size,
            Goal::Ram { .. } => outcome is Bytes,
            Goal::Screen { .. } => outcome is Bytes,
        },
{
}

/// Every step leaves the handle and the operation as they are, and an
/// exchange that does not ask is over. Once over, it refuses whatever comes.
pub proof fn lemma_exchange_ends(state: ExchangeState, reply: Reply)
    ensures
        state.spec_next(reply).0.handle == state.handle,
        state.spec_next(reply).0.goal == state.goal,
        state.spec_next(reply).1 !is Ask ==> state.spec_next(reply).0.stage == Stage::Over,
        state.stage == Stage::Over ==> state.spec_next(reply) == (
            state,
            Step::Refuse(Violation::UnexpectedReply),
        ),
{
}

/// The serialising of a snapshot as a value: the snapshot, the length of the
/// caller's buffer, or none where only the length of the byte form is
/// wanted, and where the exchange stands.
pub struct EncodingState {
    pub snapshot: SnapshotState,
    pub buffer_len: Option<usize>,
    pub stage: Stage,
}

impl EncodingState {
    /// The exchange at another stage.
    pub open spec fn at(self, stage: Stage) -> EncodingState {
        EncodingState { snapshot: self.snapshot, buffer_len: self.buffer_len, stage }
    }

    /// The exchange ends with a violation.
    pub open spec fn refuse(self, violation: Violation) -> (EncodingState, Step) {
        (self.at(Stage::Over), Step::Refuse(violation))
    }

    /// The first step: the length of the byte form is asked for.
    pub open spec fn spec_start(snapshot: SnapshotState, buffer_len: Option<usize>) -> (
        EncodingState,
        Step,
    ) {
        let fresh = EncodingState { snapshot, buffer_len, stage: Stage::Over };
        if snapshot.is_live() {
            (fresh.at(Stage::Size), Step::Ask(Call::EncodeStateLen { state: snapshot.state }))
        } else {
            fresh.refuse(Violation::Released)
        }
    }

    /// The step after the engine has stated the length of the byte form.
    pub open spec fn sized(self, size: usize) -> (EncodingState, Step) {
        match self.buffer_len {
            None => (self.at(Stage::Over), Step::Finish(Outcome::Size(size))),
            Some(buffer_len) => match self.snapshot.spec_encode_state(buffer_len, size) {
                Ok(call) => (self.at(Stage::Bytes { len: size }), Step::Ask(call)),
                Err(v) => self.refuse(v),
            },
        }
    }

    /// The step that follows the engine's answer to the call under way.
    pub open spec fn spec_next(self, reply: Reply) -> (EncodingState, Step) {
        match self.stage {
            Stage::Size => match reply {
                Reply::Int(reported) => match spec_required_size(reported) {
                    Ok(size) => self.sized(size),
                    Err(v) => self.refuse(v),
                },
                _ => self.refuse(Violation::UnexpectedReply),
            },
            Stage::Bytes { len } => match reply {
                Reply::Bytes(bytes) => match self.buffer_len {
                    Some(buffer_len) => if bytes@.len() == len && len <= buffer_len {
                        (self.at(Stage::Over), Step::Finish(Outcome::Bytes(bytes)))
                    } else {
                        self.refuse(Violation::UnexpectedReply)
                    },
                    None => self.refuse(Violation::UnexpectedReply),
                },
                _ => self.refuse(Violation::UnexpectedReply),
            },
            _ => self.refuse(Violation::UnexpectedReply),
        }
    }
}

/// The serialising of a snapshot, under way. While it runs, the snapshot
/// cannot be released.
#[derive(Debug)]
pub struct Encoding<'a> {
    snapshot: &'a AleState,
    buffer_len: Option<usize>,
    stage: Stage,
}

impl<'a> View for Encoding<'a> {
    type V = EncodingState;

    closed spec fn view(&self) -> EncodingState {
        EncodingState { snapshot: self.snapshot@, buffer_len: self.buffer_len, stage: self.stage }
    }
}

impl<'a> Encoding<'a> {
    /// Begins to serialise a snapshot for a buffer of `buffer_len` bytes, or,
    /// with no buffer, to learn the length of its byte form.
    pub fn start(snapshot: &'a AleState, buffer_len: Option<usize>) -> (begun: (
        Encoding<'a>,
        Step,
    ))
        ensures
            (begun.0@, begun.1) == EncodingState::spec_start(snapshot@, buffer_len),
    {
        if snapshot.is_live() {
            (
                Encoding { snapshot, buffer_len, stage: Stage::Size },
                Step::Ask(snapshot.encode_state_len()),
            )
        } else {
            (
                Encoding { snapshot, buffer_len, stage: Stage::Over },
                Step::Refuse(Violation::Released),
            )
        }
    }

    /// Where the exchange stands.
    pub fn stage(&self) -> (stage: Stage)
        ensures
            stage == self@.stage,
    {
        self.stage
    }

    /// Takes the engine's answer to the call that was asked for last, and
    /// says what comes next.
    pub fn next(&mut self, reply: Reply) -> (step: Step)
        ensures
            (final(self)@, step) == old(self)@.spec_next(reply),
    {
        match self.stage {
            Stage::Size => match reply {
                Reply::Int(reported) => match try_required_size(reported) {
                    Ok(size) => match self.buffer_len {
                        None => {
                            self.stage = Stage::Over;
                            Step::Finish(Outcome::Size(size))
                        },
                        Some(buffer_len) => match self.snapshot.encode_call(buffer_len, size) {
                            Ok(call) => {
                                self.stage = Stage::Bytes { len: size };
                                Step::Ask(call)
                            },
                            Err(v) => self.refuse(v),
                        },
                    },
                    Err(v) => self.refuse(v),
                },
                _ => self.refuse(Violation::UnexpectedReply),
            },
            Stage::Bytes { len } => match reply {
                Reply::Bytes(bytes) => match self.buffer_len {
                    Some(buffer_len) => if bytes.len() == len && len <= buffer_len {
                        self.stage = Stage::Over;
                        Step::Finish(Outcome::Bytes(bytes))
                    } else {
                        self.refuse(Violation::UnexpectedReply)
                    },
                    None => self.refuse(Violation::UnexpectedReply),
                },
                _ => self.refuse(Violation::UnexpectedReply),
            },
            _ => self.refuse(Violation::UnexpectedReply),
        }
    }

    fn refuse(&mut self, violation: Violation) -> (step: Step)
        ensures
            (final(self)@, step) == old(self)@.refuse(violation),
    {
        self.stage = Stage::Over;
        Step::Refuse(violation)
    }
}

/// A snapshot is serialised only where its byte form fits the caller's
/// buffer, with the length that the engine stated to the call just before;
/// and the bytes that the exchange hands out fit the buffer.
pub proof fn lemma_encoding_fits_the_buffer(state: EncodingState, reply: Reply)
    ensures
        state.spec_next(reply).1 matches Step::Ask(Call::EncodeState { state: target, len })
            ==> {
            &&& state.snapshot.is_live()
            &&& target == state.snapshot.state
            &&& state.stage == Stage::Size
            &&& reply == Reply::Int(len)
            &&& len >= 0
            &&& state.buffer_len matches Some(buffer_len) && len <= buffer_len
            &&& state.spec_next(reply).0.stage == (Stage::Bytes { len: len as usize })
        },
        state.spec_next(reply).1 matches Step::Finish(Outcome::Bytes(bytes)) ==> {
            &&& state.stage matches Stage::Bytes { len }
            &&& bytes@.len() == len
            &&& reply == Reply::Bytes(bytes)
            &&& state.buffer_len matches Some(buffer_len) && bytes@.len() <= buffer_len
        },
        state.spec_next(reply).1 !is Ask ==> state.spec_next(reply).0.stage == Stage::Over,
        state.spec_next(reply).0.snapshot == state.snapshot,
{
}

/// Every call that an encoding asks for names the snapshot that the handle
/// owns, and the handle owns one.
pub proof fn lemma_encoding_reaches_a_live_snapshot(
    snapshot: SnapshotState,
    buffer_len: Option<usize>,
    state: EncodingState,
    reply: Reply,
)
    ensures
        EncodingState::spec_start(snapshot, buffer_len).1 matches Step::Ask(call)
            ==> snapshot.is_live() && call.spec_state() == Some(snapshot.state),
        state.spec_next(reply).1 matches Step::Ask(call) ==> state.snapshot.is_live()
            && call.spec_state() == Some(state.snapshot.state),
{
}

} // verus!

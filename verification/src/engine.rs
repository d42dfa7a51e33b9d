//! The handle on a live engine instance, and the decision behind every call
//! made through it.

use vstd::prelude::*;
use vstd::string::StringSliceAdditionalSpecFns;
use crate::buffer::{
    required_screen_bytes, screen_bytes, spec_required_screen_bytes, spec_validate,
    try_required_screen_bytes, validate, PixelFormat,
};
use crate::call::{Call, LoggerMode};
use crate::codes::{contains, lemma_subset_member, spec_is_subset};
use crate::snapshot::AleState;
use crate::text::{is_first_nul, CText};
use crate::violation::Violation;

verus! {

/// Reference to a native engine instance. The address 0 refers to none.
#[derive(Clone, Copy, Debug, PartialEq, Eq, Structural)]
pub struct ALEInterface {
    pub addr: usize,
}

/// What a handle knows: the native reference it owns, and whether a ROM has
/// been loaded through it.
pub struct HandleState {
    pub engine: ALEInterface,
    pub rom_loaded: bool,
}

impl HandleState {
    /// The native instance has not been given up.
    pub open spec fn is_live(self) -> bool {
        self.engine.addr != 0
    }

    /// The instance is live and has a ROM to play.
    pub open spec fn is_ready(self) -> bool {
        self.is_live() && self.rom_loaded
    }

    /// The handle for the reference that the engine handed out on creation.
    pub open spec fn spec_new(engine: ALEInterface) -> Result<HandleState, Violation> {
        if engine.addr == 0 {
            Err(Violation::NullHandle)
        } else {
            Ok(HandleState { engine, rom_loaded: false })
        }
    }

    /// The call that applies `action`, where `legal` is the legal action set
    /// as the engine last reported it.
    pub open spec fn spec_act(self, legal: Seq<i32>, action: i32) -> Result<Call, Violation> {
        if !self.is_live() {
            Err(Violation::Released)
        } else if !legal.contains(action) {
            Err(Violation::IllegalAction { action })
        } else {
            Ok(Call::Act { engine: self.engine, action })
        }
    }

    /// The call that selects `mode`, where `available` are the modes as the
    /// engine last reported them.
    pub open spec fn spec_set_mode(self, available: Seq<i32>, mode: i32) -> Result<
        Call,
        Violation,
    > {
        if !self.is_live() {
            Err(Violation::Released)
        } else if !available.contains(mode) {
            Err(Violation::InvalidMode { mode })
        } else {
            Ok(Call::SetMode { engine: self.engine, mode })
        }
    }

    /// The call that selects `difficulty`, where `available` are the
    /// difficulties as the engine last reported them.
    pub open spec fn spec_set_difficulty(self, available: Seq<i32>, difficulty: i32) -> Result<
        Call,
        Violation,
    > {
        if !self.is_live() {
            Err(Violation::Released)
        } else if !available.contains(difficulty) {
            Err(Violation::InvalidDifficulty { difficulty })
        } else {
            Ok(Call::SetDifficulty { engine: self.engine, difficulty })
        }
    }

    /// The call that dumps the machine's memory, for a caller whose buffer
    /// holds `buffer_len` bytes, where the engine reported `ram_size`.
    pub open spec fn spec_get_ram(self, buffer_len: usize, ram_size: usize) -> Result<
        Call,
        Violation,
    > {
        if !self.is_live() {
            Err(Violation::Released)
        } else {
            match spec_validate(buffer_len, ram_size) {
                Err(v) => Err(v),
                Ok(_) => Ok(Call::GetRam { engine: self.engine, len: ram_size }),
            }
        }
    }

    /// The call that dumps the screen in `format`, for a caller whose buffer
    /// holds `buffer_len` bytes, where the engine reported a screen of
    /// `width` by `height` pixels.
    pub open spec fn spec_get_screen(
        self,
        buffer_len: usize,
        width: usize,
        height: usize,
        format: PixelFormat,
    ) -> Result<Call, Violation> {
        if !self.is_live() {
            Err(Violation::Released)
        } else {
            match spec_required_screen_bytes(width, height, format) {
                Err(v) => Err(v),
                Ok(required) => match spec_validate(buffer_len, required) {
                    Err(v) => Err(v),
                    Ok(_) => match format {
                        PixelFormat::Rgb => Ok(
                            Call::GetScreenRgb { engine: self.engine, len: required },
                        ),
                        PixelFormat::Grayscale => Ok(
                            Call::GetScreenGrayscale { engine: self.engine, len: required },
                        ),
                    },
                },
            }
        }
    }

    /// The handle after it has given up its instance, and the call that
    /// destroys the instance. A handle that owns none stays as it is, and
    /// there is no call.
    pub open spec fn spec_release(self) -> (HandleState, Option<Call>) {
        if self.is_live() {
            (
                HandleState { engine: ALEInterface { addr: 0 }, rom_loaded: false },
                Some(Call::Delete { engine: self.engine }),
            )
        } else {
            (self, None)
        }
    }
}

/// Owner of one native engine instance.
#[derive(Debug)]
pub struct Ale {
    engine: ALEInterface,
    rom_loaded: bool,
}

impl View for Ale {
    type V = HandleState;

    closed spec fn view(&self) -> HandleState {
        HandleState { engine: self.engine, rom_loaded: self.rom_loaded }
    }
}

impl Ale {
    /// Takes ownership of the instance that the engine has just created.
    pub fn new(engine: ALEInterface) -> (ale: Ale)
        requires
            engine.addr != 0,
        ensures
            ale@ == (HandleState { engine, rom_loaded: false }),
            Ok::<HandleState, Violation>(ale@) == HandleState::spec_new(engine),
    {
        Ale { engine, rom_loaded: false }
    }

    /// Takes ownership of the instance that the engine has just created, or
    /// says that it created none.
    pub fn try_new(engine: ALEInterface) -> (ale: Result<Ale, Violation>)
        ensures
            ale is Ok <==> engine.addr != 0,
            match ale {
                Ok(a) => Ok::<HandleState, Violation>(a@) == HandleState::spec_new(engine),
                Err(v) => Err::<HandleState, Violation>(v) == HandleState::spec_new(engine),
            },
    {
        if engine.addr == 0 {
            Err(Violation::NullHandle)
        } else {
            Ok(Ale::new(engine))
        }
    }

    /// The native reference that this handle owns; null once released.
    pub fn engine(&self) -> (engine: ALEInterface)
        ensures
            engine == self@.engine,
    {
        self.engine
    }

    /// Whether the native instance has not been given up.
    pub fn is_live(&self) -> (live: bool)
        ensures
            live == self@.is_live(),
    {
        self.engine.addr != 0
    }

    /// Whether a ROM has been loaded through this handle.
    pub fn has_rom(&self) -> (loaded: bool)
        ensures
            loaded == self@.rom_loaded,
    {
        self.rom_loaded
    }

    /// Reads an integer setting.
    pub fn get_int(&self, key: CText) -> (call: Call)
        requires
            self@.is_live(),
        ensures
            call == (Call::GetInt { engine: self@.engine, key }),
    {
        Call::GetInt { engine: self.engine, key }
    }

    /// Reads a boolean setting.
    pub fn get_bool(&self, key: CText) -> (call: Call)
        requires
            self@.is_live(),
        ensures
            call == (Call::GetBool { engine: self@.engine, key }),
    {
        Call::GetBool { engine: self.engine, key }
    }

    /// Reads a floating-point setting.
    pub fn get_float(&self, key: CText) -> (call: Call)
        requires
            self@.is_live(),
        ensures
            call == (Call::GetFloat { engine: self@.engine, key }),
    {
        Call::GetFloat { engine: self.engine, key }
    }

    /// Writes a text setting.
    pub fn set_string(&self, key: CText, value: CText) -> (call: Call)
        requires
            self@.is_live(),
        ensures
            call == (Call::SetString { engine: self@.engine, key, value }),
    {
        Call::SetString { engine: self.engine, key, value }
    }

    /// Writes a boolean setting.
    pub fn set_bool(&self, key: CText, value: bool) -> (call: Call)
        requires
            self@.is_live(),
        ensures
            call == (Call::SetBool { engine: self@.engine, key, value }),
    {
        Call::SetBool { engine: self.engine, key, value }
    }

    /// Writes an integer setting.
    pub fn set_int(&self, key: CText, value: i32) -> (call: Call)
        requires
            self@.is_live(),
        ensures
            call == (Call::SetInt { engine: self@.engine, key, value }),
    {
        Call::SetInt { engine: self.engine, key, value }
    }

    /// Writes a floating-point setting. The value is no business of this
    /// crate: whoever makes the call adds it.
    pub fn set_float(&self, key: CText) -> (call: Call)
        requires
            self@.is_live(),
        ensures
            call == (Call::SetFloat { engine: self@.engine, key }),
    {
        Call::SetFloat { engine: self.engine, key }
    }

    /// Resets the machine and loads the ROM that has been written to
    /// `rom_path`. The game is ready to play afterwards, and settings changed
    /// before take effect.
    pub fn load_rom(&mut self, rom_path: &str) -> (call: Call)
        requires
            old(self)@.is_live(),
            !rom_path.spec_bytes().contains(0u8),
        ensures
            call matches Call::LoadRom { engine, rom_file } && engine == old(self)@.engine
                && rom_file@ == rom_path.spec_bytes(),
            final(self)@ == (HandleState { engine: old(self)@.engine, rom_loaded: true }),
    {
        self.load_rom_file(CText::terminate(rom_path.as_bytes()))
    }

    /// Loads a ROM as [`Ale::load_rom`] does, or says why the engine must not
    /// be asked: the handle owns no instance, or the path holds a zero byte.
    /// The handle is changed only where the call is made.
    pub fn try_load_rom(&mut self, rom_path: &str) -> (call: Result<Call, Violation>)
        ensures
            call is Ok <==> old(self)@.is_live() && !rom_path.spec_bytes().contains(0u8),
            match call {
                Ok(Call::LoadRom { engine, rom_file }) => {
                    &&& engine == old(self)@.engine
                    &&& rom_file@ == rom_path.spec_bytes()
                    &&& final(self)@ == (HandleState {
                        engine: old(self)@.engine,
                        rom_loaded: true,
                    })
                },
                Ok(_) => false,
                Err(v) => {
                    &&& final(self)@ == old(self)@
                    &&& if !old(self)@.is_live() {
                        v == Violation::Released
                    } else {
                        v matches Violation::InteriorNul { position } && is_first_nul(
                            rom_path.spec_bytes(),
                            position as int,
                        )
                    }
                },
            },
    {
        if !self.is_live() {
            return Err(Violation::Released);
        }
        match CText::new(rom_path.as_bytes()) {
            Ok(rom_file) => Ok(self.load_rom_file(rom_file)),
            Err(v) => Err(v),
        }
    }

    /// Resets the machine and loads the ROM image at `rom_file`.
    pub fn load_rom_file(&mut self, rom_file: CText) -> (call: Call)
        requires
            old(self)@.is_live(),
        ensures
            call == (Call::LoadRom { engine: old(self)@.engine, rom_file }),
            final(self)@ == (HandleState { engine: old(self)@.engine, rom_loaded: true }),
    {
        self.rom_loaded = true;
        Call::LoadRom { engine: self.engine, rom_file }
    }

    /// Applies `action` for one step. `legal` is the legal action set, asked
    /// of the engine just before.
    pub fn act(&self, legal: &[i32], action: i32) -> (call: Call)
        requires
            self@.is_live(),
            legal@.contains(action),
        ensures
            call == (Call::Act { engine: self@.engine, action }),
            Ok::<Call, Violation>(call) == self@.spec_act(legal@, action),
    {
        Call::Act { engine: self.engine, action }
    }

    /// Applies `action` as [`Ale::act`] does, or says why the engine must not
    /// be asked: the handle owns no instance, or the action is not legal.
    pub fn try_act(&self, legal: &[i32], action: i32) -> (call: Result<Call, Violation>)
        ensures
            call == self@.spec_act(legal@, action),
            call is Ok <==> self@.is_live() && legal@.contains(action),
    {
        if !self.is_live() {
            Err(Violation::Released)
        } else if !contains(legal, action) {
            Err(Violation::IllegalAction { action })
        } else {
            Ok(self.act(legal, action))
        }
    }

    /// Asks whether the episode has ended.
    pub fn is_game_over(&self) -> (call: Call)
        requires
            self@.is_live(),
        ensures
            call == (Call::GameOver { engine: self@.engine }),
    {
        Call::GameOver { engine: self.engine }
    }

    /// Starts a new episode; the machine as a whole is not reset.
    pub fn reset_game(&self) -> (call: Call)
        requires
            self@.is_live(),
        ensures
            call == (Call::ResetGame { engine: self@.engine }),
    {
        Call::ResetGame { engine: self.engine }
    }

    /// Asks how many modes the loaded game has.
    pub fn available_modes_size(&self) -> (call: Call)
        requires
            self@.is_ready(),
        ensures
            call == (Call::GetAvailableModesSize { engine: self@.engine }),
    {
        Call::GetAvailableModesSize { engine: self.engine }
    }

    /// Lists the modes of the loaded game, `size` of them as the engine has
    /// just counted.
    pub fn available_modes(&self, size: usize) -> (call: Call)
        requires
            self@.is_ready(),
        ensures
            call == (Call::GetAvailableModes { engine: self@.engine, len: size }),
    {
        Call::GetAvailableModes { engine: self.engine, len: size }
    }

    /// Selects a game mode. `available` are the modes, asked of the engine
    /// just before.
    pub fn set_mode(&self, available: &[i32], mode: i32) -> (call: Call)
        requires
            self@.is_live(),
            available@.contains(mode),
        ensures
            call == (Call::SetMode { engine: self@.engine, mode }),
            Ok::<Call, Violation>(call) == self@.spec_set_mode(available@, mode),
    {
        Call::SetMode { engine: self.engine, mode }
    }

    /// Selects a game mode as [`Ale::set_mode`] does, or says why the engine
    /// must not be asked: the handle owns no instance, or the game has no
    /// such mode.
    pub fn try_set_mode(&self, available: &[i32], mode: i32) -> (call: Result<Call, Violation>)
        ensures
            call == self@.spec_set_mode(available@, mode),
            call is Ok <==> self@.is_live() && available@.contains(mode),
    {
        if !self.is_live() {
            Err(Violation::Released)
        } else if !contains(available, mode) {
            Err(Violation::InvalidMode { mode })
        } else {
            Ok(self.set_mode(available, mode))
        }
    }

    /// Asks how many difficulties the loaded game has.
    pub fn available_difficulties_size(&self) -> (call: Call)
        requires
            self@.is_ready(),
        ensures
            call == (Call::GetAvailableDifficultiesSize { engine: self@.engine }),
    {
        Call::GetAvailableDifficultiesSize { engine: self.engine }
    }

    /// Lists the difficulties of the loaded game, `size` of them as the
    /// engine has just counted.
    pub fn available_difficulties(&self, size: usize) -> (call: Call)
        requires
            self@.is_ready(),
        ensures
            call == (Call::GetAvailableDifficulties { engine: self@.engine, len: size }),
    {
        Call::GetAvailableDifficulties { engine: self.engine, len: size }
    }

    /// Selects a difficulty. `available` are the difficulties, asked of the
    /// engine just before.
    pub fn set_difficulty(&self, available: &[i32], difficulty: i32) -> (call: Call)
        requires
            self@.is_live(),
            available@.contains(difficulty),
        ensures
            call == (Call::SetDifficulty { engine: self@.engine, difficulty }),
            Ok::<Call, Violation>(call) == self@.spec_set_difficulty(available@, difficulty),
    {
        Call::SetDifficulty { engine: self.engine, difficulty }
    }

    /// Selects a difficulty as [`Ale::set_difficulty`] does, or says why the
    /// engine must not be asked: the handle owns no instance, or the game has
    /// no such difficulty.
    pub fn try_set_difficulty(&self, available: &[i32], difficulty: i32) -> (call: Result<
        Call,
        Violation,
    >)
        ensures
            call == self@.spec_set_difficulty(available@, difficulty),
            call is Ok <==> self@.is_live() && available@.contains(difficulty),
    {
        if !self.is_live() {
            Err(Violation::Released)
        } else if !contains(available, difficulty) {
            Err(Violation::InvalidDifficulty { difficulty })
        } else {
            Ok(self.set_difficulty(available, difficulty))
        }
    }

    /// Asks how many actions the loaded game accepts.
    pub fn legal_action_size(&self) -> (call: Call)
        requires
            self@.is_ready(),
        ensures
            call == (Call::GetLegalActionSize { engine: self@.engine }),
    {
        Call::GetLegalActionSize { engine: self.engine }
    }

    /// Lists the actions that the loaded game accepts, `size` of them as the
    /// engine has just counted.
    pub fn legal_action_set(&self, size: usize) -> (call: Call)
        requires
            self@.is_ready(),
        ensures
            call == (Call::GetLegalActionSet { engine: self@.engine, len: size }),
    {
        Call::GetLegalActionSet { engine: self.engine, len: size }
    }

    /// Asks how many actions are needed to play the loaded game.
    pub fn minimal_action_size(&self) -> (call: Call)
        requires
            self@.is_ready(),
        ensures
            call == (Call::GetMinimalActionSize { engine: self@.engine }),
    {
        Call::GetMinimalActionSize { engine: self.engine }
    }

    /// Lists the actions needed to play the loaded game, `size` of them as
    /// the engine has just counted.
    pub fn minimal_action_set(&self, size: usize) -> (call: Call)
        requires
            self@.is_ready(),
        ensures
            call == (Call::GetMinimalActionSet { engine: self@.engine, len: size }),
    {
        Call::GetMinimalActionSet { engine: self.engine, len: size }
    }

    /// Reads the number of frames since the ROM was loaded.
    pub fn frame_number(&self) -> (call: Call)
        requires
            self@.is_live(),
        ensures
            call == (Call::GetFrameNumber { engine: self@.engine }),
    {
        Call::GetFrameNumber { engine: self.engine }
    }

    /// Reads the number of lives left.
    pub fn lives(&self) -> (call: Call)
        requires
            self@.is_live(),
        ensures
            call == (Call::Lives { engine: self@.engine }),
    {
        Call::Lives { engine: self.engine }
    }

    /// Reads the number of frames since the episode began.
    pub fn episode_frame_number(&self) -> (call: Call)
        requires
            self@.is_live(),
        ensures
            call == (Call::GetEpisodeFrameNumber { engine: self@.engine }),
    {
        Call::GetEpisodeFrameNumber { engine: self.engine }
    }

    /// Dumps the machine's memory for a caller who will take it into `ram`.
    /// `ram_size` is the size that the engine has just reported; the call
    /// makes it write exactly that many bytes.
    pub fn get_ram(&self, ram: &[u8], ram_size: usize) -> (call: Call)
        requires
            self@.is_live(),
            ram@.len() >= ram_size,
        ensures
            call == (Call::GetRam { engine: self@.engine, len: ram_size }),
            Ok::<Call, Violation>(call) == self@.spec_get_ram(ram.len(), ram_size),
    {
        Call::GetRam { engine: self.engine, len: ram_size }
    }

    /// Dumps the machine's memory as [`Ale::get_ram`] does, or says why the
    /// engine must not be asked: the handle owns no instance, or `ram` is
    /// too short.
    pub fn try_get_ram(&self, ram: &[u8], ram_size: usize) -> (call: Result<Call, Violation>)
        ensures
            call == self@.spec_get_ram(ram.len(), ram_size),
            call is Ok <==> self@.is_live() && ram@.len() >= ram_size,
    {
        self.ram_call(ram.len(), ram_size)
    }

    /// Decides on a dump of the machine's memory by the length of the
    /// caller's buffer alone.
    pub(crate) fn ram_call(&self, buffer_len: usize, ram_size: usize) -> (call: Result<
        Call,
        Violation,
    >)
        ensures
            call == self@.spec_get_ram(buffer_len, ram_size),
            call is Ok <==> self@.is_live() && buffer_len >= ram_size,
    {
        if !self.is_live() {
            return Err(Violation::Released);
        }
        match validate(buffer_len, ram_size) {
            Err(v) => Err(v),
            Ok(()) => Ok(Call::GetRam { engine: self.engine, len: ram_size }),
        }
    }

    /// Asks for the size of the machine's memory in bytes.
    pub fn ram_size(&self) -> (call: Call)
        requires
            self@.is_live(),
        ensures
            call == (Call::GetRamSize { engine: self@.engine }),
    {
        Call::GetRamSize { engine: self.engine }
    }

    /// Asks for the screen's width in pixels.
    pub fn screen_width(&self) -> (call: Call)
        requires
            self@.is_live(),
        ensures
            call == (Call::GetScreenWidth { engine: self@.engine }),
    {
        Call::GetScreenWidth { engine: self.engine }
    }

    /// Asks for the screen's height in pixels.
    pub fn screen_height(&self) -> (call: Call)
        requires
            self@.is_live(),
        ensures
            call == (Call::GetScreenHeight { engine: self@.engine }),
    {
        Call::GetScreenHeight { engine: self.engine }
    }

    /// Dumps the screen in `format` for a caller who will take it into
    /// `screen_data`. `width` and `height` are the screen's size as the
    /// engine has just reported it; the call makes it write exactly
    /// `width * height` pixels.
    pub fn get_screen(
        &self,
        screen_data: &[u8],
        width: usize,
        height: usize,
        format: PixelFormat,
    ) -> (call: Call)
        requires
            self@.is_live(),
            screen_data@.len() >= screen_bytes(width as nat, height as nat, format),
        ensures
            Ok::<Call, Violation>(call) == self@.spec_get_screen(
                screen_data.len(),
                width,
                height,
                format,
            ),
    {
        let required: usize = required_screen_bytes(width, height, format);
        match format {
            PixelFormat::Rgb => Call::GetScreenRgb { engine: self.engine, len: required },
            PixelFormat::Grayscale => Call::GetScreenGrayscale {
                engine: self.engine,
                len: required,
            },
        }
    }

    /// Dumps the screen as [`Ale::get_screen`] does, or says why the engine
    /// must not be asked: the handle owns no instance, or the dump is longer
    /// than `screen_data`, or than any buffer.
    pub fn try_get_screen(
        &self,
        screen_data: &[u8],
        width: usize,
        height: usize,
        format: PixelFormat,
    ) -> (call: Result<Call, Violation>)
        ensures
            call == self@.spec_get_screen(screen_data.len(), width, height, format),
            call is Ok <==> self@.is_live() && screen_data@.len() >= screen_bytes(
                width as nat,
                height as nat,
                format,
            ),
    {
        self.screen_call(screen_data.len(), width, height, format)
    }

    /// Decides on a dump of the screen by the length of the caller's buffer
    /// alone.
    pub(crate) fn screen_call(
        &self,
        buffer_len: usize,
        width: usize,
        height: usize,
        format: PixelFormat,
    ) -> (call: Result<Call, Violation>)
        ensures
            call == self@.spec_get_screen(buffer_len, width, height, format),
            call is Ok <==> self@.is_live() && buffer_len >= screen_bytes(
                width as nat,
                height as nat,
                format,
            ),
    {
        if !self.is_live() {
            return Err(Violation::Released);
        }
        let required: usize = match try_required_screen_bytes(width, height, format) {
            Err(v) => { return Err(v); },
            Ok(n) => n,
        };
        match validate(buffer_len, required) {
            Err(v) => Err(v),
            Ok(()) => match format {
                PixelFormat::Rgb => Ok(Call::GetScreenRgb { engine: self.engine, len: required }),
                PixelFormat::Grayscale => Ok(
                    Call::GetScreenGrayscale { engine: self.engine, len: required },
                ),
            },
        }
    }

    /// Dumps the screen, three bytes per pixel, for a caller who will take it
    /// into `screen_data`. `width` and `height` are the screen's size as the
    /// engine has just reported it; the call makes it write exactly
    /// `width * height * 3` bytes. The pixel at column `x`, row `y` starts at
    /// `(y * width + x) * 3`.
    pub fn get_screen_rgb(&self, screen_data: &[u8], width: usize, height: usize) -> (call: Call)
        requires
            self@.is_live(),
            screen_data@.len() >= screen_bytes(width as nat, height as nat, PixelFormat::Rgb),
        ensures
            call matches Call::GetScreenRgb { engine, len } && engine == self@.engine && len
                == screen_bytes(width as nat, height as nat, PixelFormat::Rgb),
            Ok::<Call, Violation>(call) == self@.spec_get_screen(
                screen_data.len(),
                width,
                height,
                PixelFormat::Rgb,
            ),
    {
        self.get_screen(screen_data, width, height, PixelFormat::Rgb)
    }

    /// Dumps the screen as [`Ale::get_screen_rgb`] does, or says why the
    /// engine must not be asked: the handle owns no instance, or the dump is
    /// longer than `screen_data`, or than any buffer.
    pub fn try_get_screen_rgb(&self, screen_data: &[u8], width: usize, height: usize) -> (call:
        Result<Call, Violation>)
        ensures
            call == self@.spec_get_screen(screen_data.len(), width, height, PixelFormat::Rgb),
            call is Ok <==> self@.is_live() && screen_data@.len() >= screen_bytes(
                width as nat,
                height as nat,
                PixelFormat::Rgb,
            ),
    {
        self.try_get_screen(screen_data, width, height, PixelFormat::Rgb)
    }

    /// Dumps the screen, one byte per pixel from 0 for black to 255 for
    /// white, for a caller who will take it into `screen_data`. `width` and
    /// `height` are the screen's size as the engine has just reported it; the
    /// call makes it write exactly `width * height` bytes. The pixel at
    /// column `x`, row `y` is at `y * width + x`.
    pub fn get_screen_grayscale(&self, screen_data: &[u8], width: usize, height: usize) -> (call:
        Call)
        requires
            self@.is_live(),
            screen_data@.len() >= screen_bytes(
                width as nat,
                height as nat,
                PixelFormat::Grayscale,
            ),
        ensures
            call matches Call::GetScreenGrayscale { engine, len } && engine == self@.engine
                && len == screen_bytes(width as nat, height as nat, PixelFormat::Grayscale),
            Ok::<Call, Violation>(call) == self@.spec_get_screen(
                screen_data.len(),
                width,
                height,
                PixelFormat::Grayscale,
            ),
    {
        self.get_screen(screen_data, width, height, PixelFormat::Grayscale)
    }

    /// Dumps the screen as [`Ale::get_screen_grayscale`] does, or says why
    /// the engine must not be asked: the handle owns no instance, or the dump
    /// is longer than `screen_data`, or than any buffer.
    pub fn try_get_screen_grayscale(
        &self,
        screen_data: &[u8],
        width: usize,
        height: usize,
    ) -> (call: Result<Call, Violation>)
        ensures
            call == self@.spec_get_screen(
                screen_data.len(),
                width,
                height,
                PixelFormat::Grayscale,
            ),
            call is Ok <==> self@.is_live() && screen_data@.len() >= screen_bytes(
                width as nat,
                height as nat,
                PixelFormat::Grayscale,
            ),
    {
        self.try_get_screen(screen_data, width, height, PixelFormat::Grayscale)
    }

    /// Saves the state in the engine's own slot, for [`Ale::load_state`].
    pub fn save_state(&self) -> (call: Call)
        requires
            self@.is_live(),
        ensures
            call == (Call::SaveState { engine: self@.engine }),
    {
        Call::SaveState { engine: self.engine }
    }

    /// Restores the state that [`Ale::save_state`] saved.
    pub fn load_state(&self) -> (call: Call)
        requires
            self@.is_live(),
        ensures
            call == (Call::LoadState { engine: self@.engine }),
    {
        Call::LoadState { engine: self.engine }
    }

    /// Copies the environment state, without the pseudorandom generator,
    /// into a new snapshot. [`AleState::from_reply`] takes the engine's answer
    /// and marks the snapshot as a copy of the environment.
    pub fn clone_state(&self) -> (call: Call)
        requires
            self@.is_live(),
        ensures
            call == (Call::CloneState { engine: self@.engine }),
    {
        Call::CloneState { engine: self.engine }
    }

    /// Replaces the environment state with that of `state`. The snapshot's
    /// origin is not looked at.
    pub fn restore_state(&self, state: &AleState) -> (call: Call)
        requires
            self@.is_live(),
            state@.is_live(),
        ensures
            call == (Call::RestoreState { engine: self@.engine, state: state@.state }),
    {
        Call::RestoreState { engine: self.engine, state: state.state() }
    }

    /// Copies the system state, pseudorandom generator included, into a new
    /// snapshot. [`AleState::from_reply`] takes the engine's answer and marks
    /// the snapshot as a copy of the system.
    pub fn clone_system_state(&self) -> (call: Call)
        requires
            self@.is_live(),
        ensures
            call == (Call::CloneSystemState { engine: self@.engine }),
    {
        Call::CloneSystemState { engine: self.engine }
    }

    /// Replaces the system state with that of `state`. The snapshot's origin
    /// is not looked at.
    pub fn restore_system_state(&self, state: &AleState) -> (call: Call)
        requires
            self@.is_live(),
            state@.is_live(),
        ensures
            call == (Call::RestoreSystemState { engine: self@.engine, state: state@.state }),
    {
        Call::RestoreSystemState { engine: self.engine, state: state.state() }
    }

    /// Writes the screen to an image file at `filename`.
    pub fn save_screen_png(&self, filename: CText) -> (call: Call)
        requires
            self@.is_live(),
        ensures
            call == (Call::SaveScreenPng { engine: self@.engine, filename }),
    {
        Call::SaveScreenPng { engine: self.engine, filename }
    }

    /// Sets the verbosity of the engine's log. This reaches every instance in
    /// the process, so it belongs to no handle.
    pub fn set_logger_mode(mode: LoggerMode) -> (call: Call)
        ensures
            call == (Call::SetLoggerMode { mode: mode.spec_code() }),
    {
        Call::SetLoggerMode { mode: mode.code() }
    }

    /// Gives up the native instance. The first call yields the call that
    /// destroys it and clears the reference at once; any later call yields
    /// nothing and changes nothing.
    pub fn release(&mut self) -> (call: Option<Call>)
        ensures
            (final(self)@, call) == old(self)@.spec_release(),
            !final(self)@.is_live(),
            call is Some <==> old(self)@.is_live(),
    {
        if self.engine.addr != 0 {
            let engine: ALEInterface = self.engine;
            self.engine = ALEInterface { addr: 0 };
            self.rom_loaded = false;
            Some(Call::Delete { engine })
        } else {
            None
        }
    }
}

/// An action outside the legal set is refused, whatever else holds: no call
/// is made.
pub proof fn lemma_illegal_action_is_refused(handle: HandleState, legal: Seq<i32>, action: i32)
    requires
        !legal.contains(action),
    ensures
        handle.spec_act(legal, action) is Err,
        handle.is_live() ==> handle.spec_act(legal, action) == Err::<Call, Violation>(
            Violation::IllegalAction { action },
        ),
{
}

/// Where the minimal action set lies within the legal one, every action of
/// the minimal set may be applied.
pub proof fn lemma_minimal_action_is_accepted(
    handle: HandleState,
    minimal: Seq<i32>,
    legal: Seq<i32>,
    action: i32,
)
    requires
        handle.is_live(),
        spec_is_subset(minimal, legal),
        minimal.contains(action),
    ensures
        handle.spec_act(legal, action) == Ok::<Call, Violation>(
            Call::Act { engine: handle.engine, action },
        ),
{
    lemma_subset_member(minimal, legal, action);
}

/// A buffer of exactly the size of the machine's memory is taken for a dump
/// of it, and the engine is told to write that many bytes; a buffer one byte
/// shorter is refused.
pub proof fn lemma_ram_buffer_boundary(handle: HandleState, ram_size: usize)
    requires
        handle.is_live(),
    ensures
        handle.spec_get_ram(ram_size, ram_size) == Ok::<Call, Violation>(
            Call::GetRam { engine: handle.engine, len: ram_size },
        ),
        ram_size > 0 ==> handle.spec_get_ram((ram_size - 1) as usize, ram_size) == Err::<
            Call,
            Violation,
        >(Violation::BufferTooSmall { required: ram_size, got: (ram_size - 1) as usize }),
{
}

/// A buffer of exactly `width * height * channels` bytes is taken for a dump
/// of the screen, in either format; a buffer one byte shorter is refused.
pub proof fn lemma_screen_buffer_boundary(
    handle: HandleState,
    width: usize,
    height: usize,
    format: PixelFormat,
)
    requires
        handle.is_live(),
        screen_bytes(width as nat, height as nat, format) <= usize::MAX,
    ensures
        handle.spec_get_screen(
            screen_bytes(width as nat, height as nat, format) as usize,
            width,
            height,
            format,
        ) is Ok,
        screen_bytes(width as nat, height as nat, format) > 0 ==> handle.spec_get_screen(
            (screen_bytes(width as nat, height as nat, format) - 1) as usize,
            width,
            height,
            format,
        ) == Err::<Call, Violation>(
            Violation::BufferTooSmall {
                required: screen_bytes(width as nat, height as nat, format) as usize,
                got: (screen_bytes(width as nat, height as nat, format) - 1) as usize,
            },
        ),
{
}

/// A handle that owns no instance refuses every request that is checked: no
/// call is made through it.
pub proof fn lemma_released_handle_refuses(
    handle: HandleState,
    codes: Seq<i32>,
    code: i32,
    buffer_len: usize,
    ram_size: usize,
    width: usize,
    height: usize,
    format: PixelFormat,
)
    requires
        !handle.is_live(),
    ensures
        handle.spec_act(codes, code) == Err::<Call, Violation>(Violation::Released),
        handle.spec_set_mode(codes, code) == Err::<Call, Violation>(Violation::Released),
        handle.spec_set_difficulty(codes, code) == Err::<Call, Violation>(Violation::Released),
        handle.spec_get_ram(buffer_len, ram_size) == Err::<Call, Violation>(Violation::Released),
        handle.spec_get_screen(buffer_len, width, height, format) == Err::<Call, Violation>(
            Violation::Released,
        ),
{
}

/// Releasing a handle twice destroys the instance once: the second release
/// yields no call and leaves the handle as the first left it.
pub proof fn lemma_handle_released_once(handle: HandleState)
    ensures
        handle.spec_release().0.spec_release() == (handle.spec_release().0, None::<Call>),
        !handle.spec_release().0.is_live(),
{
}

} // verus!

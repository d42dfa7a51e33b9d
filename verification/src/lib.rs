//! Safety layer between a caller and the native Arcade Learning Environment
//! emulator.
//!
//! The emulator is reached through raw references and unchecked buffer
//! writes. This crate decides, for every operation, whether the native call
//! may be made and with which arguments; code outside it performs the call
//! and hands the answer back. A request that would break the boundary
//! contract yields a [`Violation`] and no call.
//!
//! A plain operation is one call. [`Ale`] owns the reference to one engine
//! instance, [`AleState`] the reference to one snapshot; a method named after
//! the operation returns the [`Call`] to make. Where the operation has a rule
//! of its own, such as a legal action or a long enough buffer, the method
//! takes what the engine reported, and has a twin whose name begins with
//! `try_`, which tests the rule and returns the violation where it is broken.
//!
//! An operation that rests on what the engine reports takes several calls,
//! and an [`Exchange`] runs it:
//!
//! ```text
//! let (mut exchange, mut step) = Exchange::start(&ale, Goal::Act { action });
//! loop {
//!     match step {
//!         Step::Ask(call) => step = exchange.next(perform(&call)),
//!         Step::Finish(outcome) => break outcome,
//!         Step::Refuse(violation) => panic!("{}", violation.message()),
//!     }
//! }
//! ```
//!
//! The exchange asks the engine for the legal actions, looks the action up in
//! the answer, and asks for the step only if it is there. The sets of legal
//! actions, modes and difficulties change with the loaded ROM and the
//! selected mode, so no set is kept from one operation to the next.
//!
//! A handle gives up its resource through `release`, which yields the
//! destroying call the first time and nothing afterwards.

pub mod buffer;
pub mod call;
pub mod codes;
pub mod decimal;
pub mod engine;
pub mod exchange;
pub mod rom;
pub mod snapshot;
pub mod text;
pub mod violation;

pub use buffer::PixelFormat;
pub use call::{Call, LoggerMode, Reply};
pub use engine::{ALEInterface, Ale};
pub use exchange::{CodeSet, Encoding, Exchange, Goal, Outcome, Stage, Step};
pub use rom::{BundledRom, RomTable};
pub use snapshot::{ALEState, AleState, Origin};
pub use text::CText;
pub use violation::Violation;

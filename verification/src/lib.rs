//! A declarative OS input-automation engine.
//!
//! An [`enums::InputAction`] describes mouse and keyboard input to simulate:
//! primitive gestures (moves, clicks, key presses, text, scrolls, delays) and
//! composite trees of them (`Sequence`, `Parallel`). The library translates an
//! action tree into two values with exact contracts:
//!
//! - an ordered plan of primitive injection events ([`events::InjectionEvent`]),
//!   the only thing the opaque OS injection capability is ever asked to do, and
//! - a human-readable audit description of what was performed.
//!
//! Logical keys and buttons are resolved to physical codes by the
//! [`keymap::KeyMapper`]; unsupported keys degrade to no-ops and unsupported
//! buttons fall back to the primary button, so composite gestures never abort
//! on a single malformed sub-action. The caller (a transport layer) performs
//! the plan against the operating system under its own exclusive lock; at the
//! transport boundary, [`codec`] gives actions a wire form with a proved
//! round-trip law.

pub mod codec;
pub mod desc;
pub mod enums;
pub mod events;
pub mod executor;
pub mod keyboard;
pub mod keymap;
pub mod mouse;
pub mod simulator;

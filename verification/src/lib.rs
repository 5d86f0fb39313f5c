//! Keyboard-backlight session core.
//!
//! A long-lived background task bridges a hardware brightness service,
//! reached over a system bus, with an event-driven UI. This crate holds the
//! verified heart of that task: the session state machine that connects
//! lazily, hands the UI a command channel, answers `Get` and `Set` requests,
//! and degrades to a terminal `Finished` state on connection failure, plus
//! the exact arithmetic that converts between raw device units and a
//! normalized brightness fraction. The bus transport, the channels and the
//! event-loop subscription around it are ordinary unverified plumbing that
//! drives [`session::step`] in a loop.

pub mod fraction;
pub mod session;

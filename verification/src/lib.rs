//! The library behind a serial-terminal desktop application.
//!
//! The heart of the crate is [`renderer`]: the negotiation that decides, at
//! process start, which rendering backend the application uses. The other
//! modules hold what the application shell keeps and exchanges: the settings
//! of a serial line and named profiles of them, the console and the send
//! panel, the bookkeeping of device scans, and the messages and errors of a
//! serial session.
//!
//! Apart from reading the clock, the library does no input or output.
//! Whatever else it needs from the machine is handed to it as plain values,
//! and what it decides comes back as plain values.

pub mod console;
pub mod device_scan;
pub mod diagnostics;
pub mod profiles;
pub mod renderer;
pub mod send_panel;
pub mod serial;
pub mod session;
pub mod settings;
pub mod text;
pub mod theme;

//! Driver core for an HD44780-family 1602 character display on a 4-bit
//! parallel bus.
//!
//! The driver owns six digital output lines — enable, register select and
//! four data lines — and a microsecond timer, reached through the
//! [`DisplayPort`] capability. It issues timed pin-level pulses without a
//! busy-flag handshake: fixed delays stand in for status polling. Every
//! public operation is specified by the exact sequence of line writes and
//! delays it emits; the sequences themselves are defined in [`protocol`],
//! together with the proved laws of the wire protocol.

pub mod lcd1602;
pub mod port;
pub mod protocol;

pub use lcd1602::BusWidth;
pub use lcd1602::Direction;
pub use lcd1602::Error;
pub use lcd1602::LCD1602;
pub use port::DisplayPort;
pub use port::RecordedPort;
pub use protocol::Event;
pub use protocol::Line;

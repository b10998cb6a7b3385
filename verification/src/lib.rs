//! Driver core for the RX8900 real-time clock.
//!
//! The chip is reached over a two-wire bus and keeps its state in byte-wide
//! registers that pack several fields each: BCD digits of time and date, a
//! one-hot day of the week, and configuration fields one or two bits wide.
//! This crate holds the codecs for those encodings, the rules by which single
//! bits and narrow fields are changed without disturbing their neighbours,
//! and the composer that makes a calendar value of six registers.
//!
//! * [`bcd`], [`weekday`], [`bits`] and [`config`] are the codecs.
//! * [`registers`] is the register map.
//! * [`transport`] is the bus as the driver sees it; [`simulated`] is a chip
//!   made of plain memory that can be made to fail on a chosen transaction.
//! * [`access`] says what register reads, writes, updates and runs of them
//!   mean in terms of the transport.
//! * [`driver`] holds the driver and its field accessor; [`clock`],
//!   [`alarm`], [`timer`], [`extension`], [`flags`], [`control`] and
//!   [`backup`] add the operations on the single registers, and [`init`] the
//!   power-on configuration.
//! * [`calendar`] and [`week_alarm`] hold the values that the driver hands
//!   to its caller.
//! * [`laws`] states what the operations do to a simulated chip.
//!
//! Nothing is cached and nothing is retried: every operation is a fresh run
//! of bus transactions, and the first failure of the transport ends it.

pub mod access;
pub mod alarm;
pub mod backup;
pub mod bcd;
pub mod bits;
pub mod calendar;
pub mod clock;
pub mod config;
pub mod control;
pub mod driver;
pub mod extension;
pub mod flags;
pub mod init;
pub mod laws;
pub mod registers;
pub mod simulated;
pub mod timer;
pub mod transport;
pub mod week_alarm;
pub mod weekday;

pub use calendar::DateTime;
pub use config::{
    AlarmType, CompensationIntervalType, FoutFrequency, SourceClock, UpdateInterruptType,
};
pub use driver::Rx8900;
pub use registers::RegisterTable;
pub use simulated::{BusError, RegisterFile};
pub use transport::Transport;
pub use weekday::Weekday;

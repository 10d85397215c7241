//! Verified core of a UART echo firmware.
//!
//! - [`clock`]: the system clock that the three PLL configuration fields give.
//! - [`plan`]: the planned clock tree and the check of the real one against it.
//! - [`report`]: the text of the startup report.
//! - [`fault`]: the line faults of the receiver and the classification of a
//!   received byte.
//! - [`echo`]: the decisions of the echo loop, as a state machine.
//! - [`session`]: the echo loop over whole runs of events, and what is proved
//!   of it.
//!
//! Nothing here touches the hardware: the caller reads the registers, hands
//! in plain values and performs what the library decides.

pub mod clock;
pub mod echo;
pub mod fault;
pub mod plan;
pub mod report;
pub mod session;

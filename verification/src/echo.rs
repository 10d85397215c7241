//! The decisions of the error-detecting serial echo loop.
//!
//! The loop polls the receiver until a byte is there and looks at the fault
//! flags. On a fault it consumes the byte, which clears the fault latch of the
//! peripheral, and reports the fault. Otherwise it reads the byte, polls the
//! transmitter until it is ready and sends the byte back. Then it starts over,
//! forever.
//!
//! Here that is a state machine. A [`Phase`] names the hardware operation it
//! is waiting for, its [`Action`]; [`Phase::step`] takes what the operation
//! gave, an [`Event`], and moves on. The caller owns the serial peripheral: it
//! performs the action of the current phase and hands back the event.

use vstd::prelude::*;
use crate::fault::{Fault, FaultFlags};

verus! {

/// What a poll of the receiver found.
#[derive(Clone, Copy, Debug, PartialEq, Eq, Structural)]
pub struct ReceiverStatus {
    /// The receive register holds a byte.
    pub not_empty: bool,
    /// The fault flags, read with it.
    pub faults: FaultFlags,
}

/// One hardware operation, asked of the caller.
#[derive(Clone, Copy, Debug, PartialEq, Eq, Structural)]
pub enum Action {
    /// Read the receiver's status flags.
    PollReceiver,
    /// Read the receive register, which consumes the byte in it.
    ReadByte,
    /// Write the message of this fault to the line.
    Report(Fault),
    /// Read the transmitter's ready flag.
    PollTransmitter,
    /// Write this byte to the line.
    Transmit(u8),
    /// Stop: the serial channel is broken and nothing more can be done.
    Halt,
}

/// What a hardware operation gave.
#[derive(Clone, Copy, Debug, PartialEq, Eq, Structural)]
pub enum Event {
    /// The receiver's status flags.
    Receiver(ReceiverStatus),
    /// The receive register was read: the byte, or nothing where the read
    /// gave none.
    Byte(Option<u8>),
    /// The transmitter's ready flag.
    Transmitter(bool),
    /// The write went out.
    Written,
    /// The write failed.
    WriteFailed,
}

impl Event {
    /// Whether the event is what performing `action` can give.
    pub open spec fn answers(self, action: Action) -> bool {
        match action {
            Action::PollReceiver => self is Receiver,
            Action::ReadByte => self is Byte,
            Action::PollTransmitter => self is Transmitter,
            Action::Report(_) | Action::Transmit(_) => self is Written || self is WriteFailed,
            Action::Halt => false,
        }
    }
}

/// Where the loop stands.
#[derive(Clone, Copy, Debug, PartialEq, Eq, Structural)]
pub enum Phase {
    /// Polling the receiver for a byte.
    AwaitByte,
    /// A byte came with this fault and is being consumed.
    Draining(Fault),
    /// The faulty byte is gone and the fault is being reported.
    Reporting(Fault),
    /// A byte came without a fault and is being read.
    Fetching,
    /// This byte was read; polling the transmitter until it is ready.
    AwaitTransmitter(u8),
    /// The transmitter is ready and this byte is being sent back.
    Echoing(u8),
    /// A write failed, or an event came that the phase was not waiting for.
    Halted,
}

impl Phase {
    /// The operation that the phase is waiting for.
    pub open spec fn spec_action(self) -> Action {
        match self {
            Phase::AwaitByte => Action::PollReceiver,
            Phase::Draining(_) => Action::ReadByte,
            Phase::Reporting(fault) => Action::Report(fault),
            Phase::Fetching => Action::ReadByte,
            Phase::AwaitTransmitter(_) => Action::PollTransmitter,
            Phase::Echoing(byte) => Action::Transmit(byte),
            Phase::Halted => Action::Halt,
        }
    }

    /// The phase that follows when the operation gave `event`.
    pub open spec fn spec_next(self, event: Event) -> Phase {
        match (self, event) {
            (Phase::AwaitByte, Event::Receiver(status)) => if !status.not_empty {
                Phase::AwaitByte
            } else {
                match status.faults.spec_dominant() {
                    Some(fault) => Phase::Draining(fault),
                    None => Phase::Fetching,
                }
            },
            (Phase::Draining(fault), Event::Byte(_)) => Phase::Reporting(fault),
            (Phase::Reporting(_), Event::Written) => Phase::AwaitByte,
            (Phase::Fetching, Event::Byte(Some(byte))) => Phase::AwaitTransmitter(byte),
            (Phase::Fetching, Event::Byte(None)) => Phase::AwaitByte,
            (Phase::AwaitTransmitter(byte), Event::Transmitter(ready)) => if ready {
                Phase::Echoing(byte)
            } else {
                Phase::AwaitTransmitter(byte)
            },
            (Phase::Echoing(_), Event::Written) => Phase::AwaitByte,
            _ => Phase::Halted,
        }
    }

    /// The phase in which the loop starts: polling the receiver.
    pub fn start() -> (phase: Phase)
        ensures
            phase == Phase::AwaitByte,
    {
        Phase::AwaitByte
    }

    /// The operation that the phase is waiting for.
    pub fn action(self) -> (action: Action)
        ensures
            action == self.spec_action(),
    {
        match self {
            Phase::AwaitByte => Action::PollReceiver,
            Phase::Draining(_) => Action::ReadByte,
            Phase::Reporting(fault) => Action::Report(fault),
            Phase::Fetching => Action::ReadByte,
            Phase::AwaitTransmitter(_) => Action::PollTransmitter,
            Phase::Echoing(byte) => Action::Transmit(byte),
            Phase::Halted => Action::Halt,
        }
    }

    /// Takes what the awaited operation gave and returns the next phase with
    /// the operation to perform next.
    ///
    /// While the receiver is empty, or the transmitter busy, the phase stays
    /// and the poll is repeated. A byte with a fault flag is consumed first
    /// and reported after; a byte without one is read, and sent back only
    /// once the transmitter is ready. A read that gives no byte sends nothing.
    /// A failed write, or an event that does not answer the awaited
    /// operation, halts the loop for good.
    pub fn step(self, event: Event) -> (next: (Phase, Action))
        ensures
            next.0 == self.spec_next(event),
            next.1 == next.0.spec_action(),
    {
        let phase = match self {
            Phase::AwaitByte => match event {
                Event::Receiver(status) => {
                    if !status.not_empty {
                        Phase::AwaitByte
                    } else {
                        match status.faults.dominant() {
                            Some(fault) => Phase::Draining(fault),
                            None => Phase::Fetching,
                        }
                    }
                },
                _ => Phase::Halted,
            },
            Phase::Draining(fault) => match event {
                Event::Byte(_) => Phase::Reporting(fault),
                _ => Phase::Halted,
            },
            Phase::Reporting(_) => match event {
                Event::Written => Phase::AwaitByte,
                _ => Phase::Halted,
            },
            Phase::Fetching => match event {
                Event::Byte(Some(byte)) => Phase::AwaitTransmitter(byte),
                Event::Byte(None) => Phase::AwaitByte,
                _ => Phase::Halted,
            },
            Phase::AwaitTransmitter(byte) => match event {
                Event::Transmitter(ready) => {
                    if ready {
                        Phase::Echoing(byte)
                    } else {
                        Phase::AwaitTransmitter(byte)
                    }
                },
                _ => Phase::Halted,
            },
            Phase::Echoing(_) => match event {
                Event::Written => Phase::AwaitByte,
                _ => Phase::Halted,
            },
            Phase::Halted => Phase::Halted,
        };
        (phase, phase.action())
    }
}

} // verus!

//! Line faults of the serial receiver and the classification of a received
//! byte.
//!
//! The receiver flags three faults: parity, framing and overrun. A byte is
//! classified by the flags that came with it, looked at in that fixed order,
//! so that exactly one classification holds of every byte even where the
//! hardware asserts several flags at once.

use vstd::prelude::*;

verus! {

/// A line fault that the receiver can flag for a byte.
#[derive(Clone, Copy, Debug, PartialEq, Eq, Structural)]
pub enum Fault {
    /// The parity bit does not match the data bits.
    Parity,
    /// The stop bit is malformed.
    Framing,
    /// An unread byte was overwritten by a new one.
    Overrun,
}

impl Fault {
    /// Place in the order in which the flags are looked at; the lowest wins.
    pub open spec fn rank(self) -> int {
        match self {
            Fault::Parity => 0,
            Fault::Framing => 1,
            Fault::Overrun => 2,
        }
    }

    /// The text that reports the fault on the serial line.
    pub open spec fn spec_message(self) -> Seq<char> {
        match self {
            Fault::Parity => "\r\nParity error detected.\r\n"@,
            Fault::Framing => "\r\nFraming error detected.\r\n"@,
            Fault::Overrun => "\r\nOver run error detected.\r\n"@,
        }
    }

    /// The text that reports the fault on the serial line.
    pub fn message(self) -> (text: &'static str)
        ensures
            text@ == self.spec_message(),
    {
        match self {
            Fault::Parity => "\r\nParity error detected.\r\n",
            Fault::Framing => "\r\nFraming error detected.\r\n",
            Fault::Overrun => "\r\nOver run error detected.\r\n",
        }
    }
}

/// The three fault flags of the receiver, as read together.
#[derive(Clone, Copy, Debug, PartialEq, Eq, Structural)]
pub struct FaultFlags {
    /// Parity error flag.
    pub parity: bool,
    /// Framing error flag.
    pub framing: bool,
    /// Overrun error flag.
    pub overrun: bool,
}

impl FaultFlags {
    /// Whether the flag of `fault` is asserted.
    pub open spec fn asserts(self, fault: Fault) -> bool {
        match fault {
            Fault::Parity => self.parity,
            Fault::Framing => self.framing,
            Fault::Overrun => self.overrun,
        }
    }

    /// Whether any flag is asserted.
    pub open spec fn any(self) -> bool {
        self.parity || self.framing || self.overrun
    }

    /// The fault to report: parity before framing before overrun.
    pub open spec fn spec_dominant(self) -> Option<Fault> {
        if self.parity {
            Some(Fault::Parity)
        } else if self.framing {
            Some(Fault::Framing)
        } else if self.overrun {
            Some(Fault::Overrun)
        } else {
            None
        }
    }

    /// The fault to report, if any flag is asserted: the asserted fault that
    /// comes first in the order parity, framing, overrun.
    pub fn dominant(self) -> (fault: Option<Fault>)
        ensures
            fault == self.spec_dominant(),
            fault is Some <==> self.any(),
            fault matches Some(f) ==> self.asserts(f) && forall|g: Fault|
                self.asserts(g) ==> f.rank() <= g.rank(),
    {
        if self.parity {
            Some(Fault::Parity)
        } else if self.framing {
            Some(Fault::Framing)
        } else if self.overrun {
            Some(Fault::Overrun)
        } else {
            None
        }
    }
}

/// What one received byte turns out to be.
#[derive(Clone, Copy, Debug, PartialEq, Eq, Structural)]
pub enum Classification {
    /// The byte came with a parity error.
    ParityError,
    /// The byte came with a framing error.
    FramingError,
    /// The byte overran an unread one.
    OverrunError,
    /// The byte came without a fault.
    ValidByte(u8),
}

impl Classification {
    /// The classification that reports `fault`.
    pub open spec fn of_fault(fault: Fault) -> Classification {
        match fault {
            Fault::Parity => Classification::ParityError,
            Fault::Framing => Classification::FramingError,
            Fault::Overrun => Classification::OverrunError,
        }
    }

    /// The fault that the classification reports, if it is one.
    pub open spec fn spec_fault(self) -> Option<Fault> {
        match self {
            Classification::ParityError => Some(Fault::Parity),
            Classification::FramingError => Some(Fault::Framing),
            Classification::OverrunError => Some(Fault::Overrun),
            Classification::ValidByte(_) => None,
        }
    }

    /// The fault that the classification reports, if it is one.
    pub fn fault(self) -> (fault: Option<Fault>)
        ensures
            fault == self.spec_fault(),
    {
        match self {
            Classification::ParityError => Some(Fault::Parity),
            Classification::FramingError => Some(Fault::Framing),
            Classification::OverrunError => Some(Fault::Overrun),
            Classification::ValidByte(_) => None,
        }
    }
}

/// What a byte that arrives with these flags is.
pub open spec fn spec_classify(flags: FaultFlags, byte: u8) -> Classification {
    match flags.spec_dominant() {
        Some(fault) => Classification::of_fault(fault),
        None => Classification::ValidByte(byte),
    }
}

/// Classifies a byte by the fault flags that came with it.
///
/// A byte with no flag is valid and keeps its value; otherwise the byte is
/// the fault whose flag is asserted and that comes first in the order parity,
/// framing, overrun, whatever other flags are asserted with it.
pub fn classify(flags: FaultFlags, byte: u8) -> (class: Classification)
    ensures
        class == spec_classify(flags, byte),
        flags.parity ==> class == Classification::ParityError,
        !flags.parity && flags.framing ==> class == Classification::FramingError,
        !flags.parity && !flags.framing && flags.overrun ==> class
            == Classification::OverrunError,
        !flags.any() ==> class == Classification::ValidByte(byte),
{
    match flags.dominant() {
        Some(Fault::Parity) => Classification::ParityError,
        Some(Fault::Framing) => Classification::FramingError,
        Some(Fault::Overrun) => Classification::OverrunError,
        None => Classification::ValidByte(byte),
    }
}

/// Each fault has a message of its own: no two faults are reported by the
/// same text.
pub proof fn lemma_messages_differ(first: Fault, second: Fault)
    requires
        first.spec_message() == second.spec_message(),
    ensures
        first == second,
{
    reveal_strlit("\r\nParity error detected.\r\n");
    reveal_strlit("\r\nFraming error detected.\r\n");
    reveal_strlit("\r\nOver run error detected.\r\n");
    assert(Fault::Parity.spec_message()[2] == 'P');
    assert(Fault::Framing.spec_message()[2] == 'F');
    assert(Fault::Overrun.spec_message()[2] == 'O');
}

/// The fault to report is an asserted one, and no asserted fault comes before
/// it in the order parity, framing, overrun; there is none to report exactly
/// where no flag is asserted.
pub proof fn lemma_dominant_comes_first(flags: FaultFlags)
    ensures
        flags.spec_dominant() is None <==> !flags.any(),
        flags.spec_dominant() matches Some(fault) ==> flags.asserts(fault) && forall|other: Fault|
            flags.asserts(other) ==> fault.rank() <= other.rank(),
{
}

/// Where one flag is asserted and no other, its fault is the one to report.
pub proof fn lemma_sole_fault_is_dominant(flags: FaultFlags, fault: Fault)
    requires
        flags.asserts(fault),
        forall|other: Fault| flags.asserts(other) ==> other == fault,
    ensures
        flags.spec_dominant() == Some(fault),
{
    assert(flags.asserts(Fault::Parity) ==> fault == Fault::Parity);
    assert(flags.asserts(Fault::Framing) ==> fault == Fault::Framing);
    assert(flags.asserts(Fault::Overrun) ==> fault == Fault::Overrun);
}

} // verus!

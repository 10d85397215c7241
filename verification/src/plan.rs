//! The planned clock tree and the check of what the clock configuration
//! produced against it.
//!
//! The clock tree is fed by the external oscillator in bypass mode and is
//! planned for a system clock of 84 MHz, with the first peripheral clock at
//! 42 MHz and the second at 84 MHz.

use vstd::prelude::*;

verus! {

/// Planned system clock, in MHz.
pub const SYSCLK_MHZ: u32 = 84;

/// Planned clock of the first peripheral domain, in MHz.
pub const PCLK1_MHZ: u32 = 42;

/// Planned clock of the second peripheral domain, in MHz.
pub const PCLK2_MHZ: u32 = 84;

/// Hertz in one MHz.
pub const HZ_PER_MHZ: u32 = 1_000_000;

/// What the clock configuration produced, as read back at startup.
#[derive(Clone, Copy, Debug, PartialEq, Eq, Structural)]
pub struct ClockTree {
    /// The external oscillator is bypassed: a square wave feeds the clock
    /// input, not a crystal.
    pub hse_bypassed: bool,
    /// System clock, in Hz.
    pub sysclk_hz: u32,
    /// Clock of the first peripheral domain, in Hz.
    pub pclk1_hz: u32,
    /// Clock of the second peripheral domain, in Hz.
    pub pclk2_hz: u32,
}

/// How a clock tree differs from the plan.
#[derive(Clone, Copy, Debug, PartialEq, Eq, Structural)]
pub enum ClockTreeError {
    /// The external oscillator is not in bypass mode.
    OscillatorNotBypassed,
    /// The system clock is not the planned one.
    SysclkOffPlan,
    /// The clock of the second peripheral domain is not the planned one.
    Pclk2OffPlan,
    /// The clock of the first peripheral domain is not the planned one.
    Pclk1OffPlan,
}

impl ClockTree {
    /// How the tree differs from the plan, if it does: the first that fails
    /// of the checks on the bypass mode, the system clock, the second
    /// peripheral clock and the first peripheral clock, in this order.
    pub open spec fn deviation(self) -> Option<ClockTreeError> {
        if !self.hse_bypassed {
            Some(ClockTreeError::OscillatorNotBypassed)
        } else if self.sysclk_hz != SYSCLK_MHZ * HZ_PER_MHZ {
            Some(ClockTreeError::SysclkOffPlan)
        } else if self.pclk2_hz != PCLK2_MHZ * HZ_PER_MHZ {
            Some(ClockTreeError::Pclk2OffPlan)
        } else if self.pclk1_hz != PCLK1_MHZ * HZ_PER_MHZ {
            Some(ClockTreeError::Pclk1OffPlan)
        } else {
            None
        }
    }

    /// The tree is the planned one: bypassed oscillator, 84 MHz system clock,
    /// 42 MHz and 84 MHz peripheral clocks.
    pub open spec fn as_planned(self) -> bool {
        &&& self.hse_bypassed
        &&& self.sysclk_hz == 84_000_000
        &&& self.pclk1_hz == 42_000_000
        &&& self.pclk2_hz == 84_000_000
    }

    /// Checks the tree against the plan.
    ///
    /// Succeeds exactly on the planned tree; otherwise names the first check
    /// that failed.
    pub fn check(&self) -> (result: Result<(), ClockTreeError>)
        ensures
            result is Ok <==> self.as_planned(),
            result matches Err(error) ==> self.deviation() == Some(error),
    {
        if !self.hse_bypassed {
            Err(ClockTreeError::OscillatorNotBypassed)
        } else if self.sysclk_hz != SYSCLK_MHZ * HZ_PER_MHZ {
            Err(ClockTreeError::SysclkOffPlan)
        } else if self.pclk2_hz != PCLK2_MHZ * HZ_PER_MHZ {
            Err(ClockTreeError::Pclk2OffPlan)
        } else if self.pclk1_hz != PCLK1_MHZ * HZ_PER_MHZ {
            Err(ClockTreeError::Pclk1OffPlan)
        } else {
            Ok(())
        }
    }
}

/// A clock tree deviates from the plan exactly where it is not the planned
/// one.
pub proof fn lemma_deviates_iff_off_plan(tree: ClockTree)
    ensures
        tree.deviation() is None <==> tree.as_planned(),
{
}

} // verus!

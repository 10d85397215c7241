//! Derivation of the system clock frequency from the raw PLL configuration
//! fields.
//!
//! The PLL divides the external clock by M, multiplies it by N and divides the
//! result by 2, 4, 6 or 8, as a two-bit selector says. This module rebuilds the
//! frequency from a snapshot of those three fields, in integer arithmetic that
//! truncates as the hardware does.

use vstd::prelude::*;

verus! {

/// Frequency of the external oscillator that feeds the PLL, in MHz.
pub const EXTERNAL_CLOCK: u16 = 8;

/// Largest value of the six-bit input divider field M.
pub const MAX_M: u8 = 63;

/// Largest value of the nine-bit multiplier field N.
pub const MAX_N: u16 = 511;

/// Largest value of the two-bit output divider selector.
pub const MAX_P_CODE: u8 = 3;

/// Why a register snapshot cannot be a PLL configuration.
#[derive(Clone, Copy, Debug, PartialEq, Eq, Structural)]
pub enum PllConfigError {
    /// The divider M is zero: the frequency is a division by zero.
    ZeroDivider,
    /// The divider M does not fit its six bits.
    DividerOutOfRange,
    /// The multiplier N does not fit its nine bits.
    MultiplierOutOfRange,
    /// The output divider selector does not fit its two bits.
    SelectorOutOfRange,
}

/// The three PLL configuration fields as mathematical integers.
pub struct PllFields {
    /// Divider M: divides the external clock into the PLL input.
    pub m: int,
    /// Multiplier N: scales the PLL input.
    pub n: int,
    /// Two-bit selector of the output divider.
    pub p_code: int,
}

impl PllFields {
    /// Every field fits its register width and the divider M is not zero.
    pub open spec fn valid(self) -> bool {
        &&& 1 <= self.m <= MAX_M
        &&& 0 <= self.n <= MAX_N
        &&& 0 <= self.p_code <= MAX_P_CODE
    }

    /// The division factor that the selector stands for.
    pub open spec fn effective_divisor(self) -> int {
        (self.p_code + 1) * 2
    }

    /// The system clock in whole MHz; the division truncates.
    pub open spec fn sysclk_mhz(self) -> int {
        EXTERNAL_CLOCK * self.n / (self.m * (self.p_code + 1) * 2)
    }

    /// Why a snapshot is refused, if it is: the first of the four checks, in
    /// the order M is zero, M too wide, N too wide, selector too wide, that
    /// it fails.
    pub open spec fn rejection(self) -> Option<PllConfigError> {
        if self.m == 0 {
            Some(PllConfigError::ZeroDivider)
        } else if self.m > MAX_M {
            Some(PllConfigError::DividerOutOfRange)
        } else if self.n > MAX_N {
            Some(PllConfigError::MultiplierOutOfRange)
        } else if self.p_code > MAX_P_CODE {
            Some(PllConfigError::SelectorOutOfRange)
        } else {
            None
        }
    }
}

/// The fields of a register snapshot, as integers.
pub open spec fn fields_of(m: u8, n: u16, p_code: u8) -> PllFields {
    PllFields { m: m as int, n: n as int, p_code: p_code as int }
}

/// A validated snapshot of the PLL configuration fields.
///
/// A value of this type always holds fields that satisfy
/// [`PllFields::valid`]; [`PllConfig::new`] is the only way to make one.
#[derive(Clone, Copy, Debug, PartialEq, Eq, Structural)]
pub struct PllConfig {
    m: u8,
    n: u16,
    p_code: u8,
}

impl View for PllConfig {
    type V = PllFields;

    closed spec fn view(&self) -> PllFields {
        fields_of(self.m, self.n, self.p_code)
    }
}

impl PllConfig {
    #[verifier::type_invariant]
    spec fn well_formed(self) -> bool {
        self@.valid()
    }

    /// Validates a snapshot of the three fields.
    ///
    /// Succeeds exactly on the snapshots whose fields fit their widths with a
    /// nonzero M; otherwise names the first check that failed.
    pub fn new(m: u8, n: u16, p_code: u8) -> (result: Result<PllConfig, PllConfigError>)
        ensures
            result is Ok <==> fields_of(m, n, p_code).valid(),
            result matches Ok(config) ==> config@ == fields_of(m, n, p_code),
            result matches Err(error) ==> fields_of(m, n, p_code).rejection() == Some(error),
    {
        if m == 0 {
            Err(PllConfigError::ZeroDivider)
        } else if m > MAX_M {
            Err(PllConfigError::DividerOutOfRange)
        } else if n > MAX_N {
            Err(PllConfigError::MultiplierOutOfRange)
        } else if p_code > MAX_P_CODE {
            Err(PllConfigError::SelectorOutOfRange)
        } else {
            Ok(PllConfig { m, n, p_code })
        }
    }

    /// The divider M.
    pub fn m(&self) -> (m: u8)
        ensures
            m == self@.m,
            self@.valid(),
    {
        proof {
            use_type_invariant(self);
        }
        self.m
    }

    /// The multiplier N.
    pub fn n(&self) -> (n: u16)
        ensures
            n == self@.n,
            self@.valid(),
    {
        proof {
            use_type_invariant(self);
        }
        self.n
    }

    /// The two-bit selector of the output divider.
    pub fn p_code(&self) -> (p_code: u8)
        ensures
            p_code == self@.p_code,
            self@.valid(),
    {
        proof {
            use_type_invariant(self);
        }
        self.p_code
    }

    /// The division factor that the selector stands for: 2, 4, 6 or 8.
    pub fn effective_divisor(&self) -> (divisor: u8)
        ensures
            divisor == self@.effective_divisor(),
            divisor == (self@.p_code + 1) * 2,
            divisor == 2 || divisor == 4 || divisor == 6 || divisor == 8,
    {
        proof {
            use_type_invariant(self);
        }
        (self.p_code + 1) * 2
    }

    /// The system clock that the configuration produces, in whole MHz.
    ///
    /// The external clock is multiplied by N first and divided afterwards, so
    /// that no precision is lost before the one truncating division.
    pub fn sysclk_mhz(&self) -> (mhz: u16)
        ensures
            mhz == 8 * self@.n / (self@.m * (self@.p_code + 1) * 2),
            mhz == self@.sysclk_mhz(),
            self@.valid(),
    {
        proof {
            use_type_invariant(self);
        }
        let divisor: u16 = self.effective_divisor() as u16;
        let m: u16 = self.m as u16;
        assert(m * divisor == self@.m * (self@.p_code + 1) * 2) by (nonlinear_arith)
            requires
                m == self@.m,
                divisor == (self@.p_code + 1) * 2,
        ;
        assert(1 <= m * divisor <= 504) by (nonlinear_arith)
            requires
                1 <= m <= 63,
                2 <= divisor <= 8,
        ;
        EXTERNAL_CLOCK * self.n / (m * divisor)
    }
}

/// The system clock, in whole MHz, of a snapshot of the three PLL fields.
///
/// Validates the snapshot and derives the frequency from it; a snapshot that
/// is refused gives the reason instead.
pub fn get_sysclk(m: u8, n: u16, p_code: u8) -> (result: Result<u16, PllConfigError>)
    ensures
        result is Ok <==> fields_of(m, n, p_code).valid(),
        result matches Ok(mhz) ==> mhz == 8 * n / (m * (p_code + 1) * 2),
        result matches Err(error) ==> fields_of(m, n, p_code).rejection() == Some(error),
{
    match PllConfig::new(m, n, p_code) {
        Ok(config) => Ok(config.sysclk_mhz()),
        Err(error) => Err(error),
    }
}

/// A snapshot of fields that are not negative is refused exactly where it is
/// not valid.
pub proof fn lemma_refused_iff_invalid(fields: PllFields)
    requires
        0 <= fields.m,
        0 <= fields.n,
        0 <= fields.p_code,
    ensures
        fields.rejection() is None <==> fields.valid(),
{
}

/// The derived frequency is the exact quotient of the multiplied clock by the
/// two dividers, truncated: no fraction of a MHz is kept and none is added.
/// It never exceeds four times N, that is 2044 MHz.
pub proof fn lemma_sysclk_truncates(fields: PllFields)
    requires
        fields.valid(),
    ensures
        fields.sysclk_mhz() * (fields.m * fields.effective_divisor()) <= EXTERNAL_CLOCK
            * fields.n,
        EXTERNAL_CLOCK * fields.n < (fields.sysclk_mhz() + 1) * (fields.m
            * fields.effective_divisor()),
        0 <= fields.sysclk_mhz() <= 4 * fields.n <= 2044,
{
    let numerator = EXTERNAL_CLOCK * fields.n;
    let denominator = fields.m * fields.effective_divisor();
    assert(denominator == fields.m * (fields.p_code + 1) * 2) by (nonlinear_arith)
        requires
            denominator == fields.m * ((fields.p_code + 1) * 2),
    ;
    assert(2 <= denominator) by (nonlinear_arith)
        requires
            denominator == fields.m * ((fields.p_code + 1) * 2),
            1 <= fields.m,
            0 <= fields.p_code,
    ;
    let quotient = numerator / denominator;
    assert(quotient == fields.sysclk_mhz());
    assert(quotient * denominator <= numerator < (quotient + 1) * denominator && 0 <= quotient
        && 2 * quotient <= numerator) by (nonlinear_arith)
        requires
            quotient == numerator / denominator,
            2 <= denominator,
            0 <= numerator,
    ;
}

} // verus!

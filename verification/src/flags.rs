//! The condition-flag outcome of a VMX instruction.
//!
//! Per the IA-32 architecture manual, every VMX instruction reports its
//! outcome through RFLAGS: on success both CF and ZF are clear; on failure
//! CF is set (no current VMCS) or ZF is set (the error code is stored in the
//! VM-instruction error field of the current VMCS). The failure signal
//! carries no further detail at this layer.

use vstd::prelude::*;

verus! {

/// The two RFLAGS bits through which a VMX instruction reports its outcome.
#[derive(Clone, Copy, Debug, PartialEq, Eq, Structural)]
pub struct FlagOutcome {
    /// RFLAGS.CF after the instruction.
    pub cf: bool,
    /// RFLAGS.ZF after the instruction.
    pub zf: bool,
}

impl FlagOutcome {
    /// A VMX instruction failed exactly when it left CF or ZF set.
    pub open spec fn is_failure(self) -> bool {
        self.cf || self.zf
    }

    /// The outcome of a successful instruction: both flags clear.
    pub fn success() -> (r: Self)
        ensures
            !r.is_failure(),
            r.cf == false,
            r.zf == false,
    {
        FlagOutcome { cf: false, zf: false }
    }

    /// Whether this outcome signals failure.
    pub fn failed(&self) -> (r: bool)
        ensures
            r == self.is_failure(),
    {
        self.cf || self.zf
    }
}

/// The result a primitive owes for a flag outcome: success exactly when both
/// flags are clear, failure (with no detail) otherwise.
pub open spec fn spec_result(flags: FlagOutcome) -> Option<()> {
    if flags.is_failure() {
        None
    } else {
        Some(())
    }
}

/// The result a value-carrying primitive owes: the value exactly when both
/// flags are clear, failure (with no value) otherwise.
pub open spec fn spec_value_result(flags: FlagOutcome, value: u64) -> Option<u64> {
    if flags.is_failure() {
        None
    } else {
        Some(value)
    }
}

/// Turns a flag outcome into the unit result every non-reading primitive
/// returns.
pub fn outcome_result(flags: &FlagOutcome) -> (r: Option<()>)
    ensures
        r == spec_result(*flags),
{
    if flags.failed() {
        None
    } else {
        Some(())
    }
}

/// Turns a flag outcome and the value the instruction produced into the
/// result a reading primitive returns.
pub fn outcome_value_result(flags: &FlagOutcome, value: u64) -> (r: Option<u64>)
    ensures
        r == spec_value_result(*flags, value),
{
    if flags.failed() {
        None
    } else {
        Some(value)
    }
}

} // verus!

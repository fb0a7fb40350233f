//! The eight VMX instruction primitives.
//!
//! Each primitive corresponds to exactly one hardware instruction. It builds
//! any descriptor the instruction requires, hands the fully formed operands
//! to an instruction executor, and translates the CF/ZF outcome the executor
//! reports into an `Option` result: `Some` exactly when both flags came back
//! clear, `None` otherwise, with no further detail — mirroring the
//! hardware's own coarse signal.
//!
//! The executor here is the simulated front of the processor: it records the
//! instruction it was handed and answers with a configured flag outcome (and,
//! for VMREAD, a configured value). The contracts therefore pin both sides of
//! the wire: exactly which operands and descriptor reach the hardware, and
//! exactly how the reported flags become the caller's result. A hardware
//! front end issues the same operands with real machine code and feeds the
//! real flags through the same interpretation.
//!
//! Every primitive has caller-enforced preconditions at the hardware level
//! (processor mode, prior VMXON or VMPTRLD); violating them faults the
//! processor outside this layer's control. Those obligations concern the
//! real hardware front end, not the simulated executor, so they are
//! documented on each primitive rather than modeled as state here.

use vstd::prelude::*;
use crate::descriptors::{InvEptDescriptor, InvEptType, InvVpidDescriptor, InvVpidType};
use crate::flags::{FlagOutcome, spec_result, spec_value_result};

verus! {

/// The two interchangeable ways of issuing an instruction: emitting it
/// inline in the calling context, or calling an externally linked routine
/// that wraps the same instruction sequence. The choice is a build-time
/// configuration and is observably transparent to every caller.
#[derive(Clone, Copy, Debug, PartialEq, Eq, Structural)]
pub enum Backend {
    /// Inline machine-code emission; the error signal is materialized by a
    /// `setna` following the instruction.
    Inline,
    /// An externally linked routine returning the same error signal as a
    /// boolean.
    Linked,
}

/// One fully formed instruction hand-off: the operation and every operand
/// exactly as the hardware receives them, descriptors included.
#[derive(Clone, Copy, Debug, PartialEq, Eq, Structural)]
pub enum Issued {
    /// VMXON with the physical address of the VMXON region.
    Vmxon { addr: u64 },
    /// VMXOFF.
    Vmxoff,
    /// VMREAD of one VMCS field encoding.
    Vmread { field: u64 },
    /// VMWRITE of one value to one VMCS field encoding.
    Vmwrite { field: u64, value: u64 },
    /// VMPTRLD with the physical address of a VMCS region.
    Vmptrld { addr: u64 },
    /// VMCLEAR with the physical address of a VMCS region.
    Vmclear { addr: u64 },
    /// INVEPT with its numeric invalidation code and its descriptor.
    Invept { invalidation: u64, descriptor: InvEptDescriptor },
    /// INVVPID with its numeric invalidation code and its descriptor.
    Invvpid { invalidation: u64, descriptor: InvVpidDescriptor },
}

/// The simulated instruction executor: answers every issued instruction
/// with a configured flag outcome, records what was issued, and, for
/// VMREAD, produces a configured value.
#[derive(Clone, Copy, Debug, PartialEq, Eq, Structural)]
pub struct Executor {
    /// How instructions are issued; observably transparent.
    pub backend: Backend,
    /// The flag outcome every issued instruction reports.
    pub flags: FlagOutcome,
    /// The value a successful VMREAD produces.
    pub read_value: u64,
    /// The most recently issued instruction, if any.
    pub last: Option<Issued>,
}

/// The error signal a backend reports for a flag outcome. The inline
/// backend materializes it with `setna`, which sets its operand exactly
/// when CF or ZF is set; the linked routine returns the same condition as
/// a boolean.
pub open spec fn spec_reported(flags: FlagOutcome, backend: Backend) -> bool {
    match backend {
        Backend::Inline => flags.cf || flags.zf,
        Backend::Linked => flags.cf || flags.zf,
    }
}

/// Backend choice is observably transparent: for one flag outcome every
/// backend reports the same error signal, and that signal is exactly the
/// failure condition CF-or-ZF.
pub proof fn lemma_backend_transparent(flags: FlagOutcome, a: Backend, b: Backend)
    ensures
        spec_reported(flags, a) == spec_reported(flags, b),
        spec_reported(flags, a) == flags.is_failure(),
{
}

/// Models the inline emission: after the instruction, `setna` turns the
/// "below or equal" condition CF-or-ZF into the error byte.
fn report_inline(flags: &FlagOutcome) -> (err: bool)
    ensures
        err == spec_reported(*flags, Backend::Inline),
{
    flags.cf || flags.zf
}

/// Models the externally linked routine: it executes the same instruction
/// sequence and returns the same CF-or-ZF condition as a boolean.
fn report_linked(flags: &FlagOutcome) -> (err: bool)
    ensures
        err == spec_reported(*flags, Backend::Linked),
{
    flags.cf || flags.zf
}

/// The executor's configuration — backend, flag outcome, read value — is
/// untouched by issuing an instruction; only the record of what was issued
/// changes.
pub open spec fn same_config(a: Executor, b: Executor) -> bool {
    a.backend == b.backend && a.flags == b.flags && a.read_value == b.read_value
}

impl Executor {
    /// An executor that has issued nothing yet.
    pub fn new(backend: Backend, flags: FlagOutcome, read_value: u64) -> (r: Self)
        ensures
            r.backend == backend,
            r.flags == flags,
            r.read_value == read_value,
            r.last == None::<Issued>,
    {
        Executor { backend, flags, read_value, last: None }
    }

    /// Hands one instruction to the configured backend and reports the
    /// error signal derived from the flag outcome.
    fn issue(&mut self, what: Issued) -> (err: bool)
        ensures
            final(self).last == Some(what),
            same_config(*old(self), *final(self)),
            err == old(self).flags.is_failure(),
    {
        self.last = Some(what);
        match self.backend {
            Backend::Inline => report_inline(&self.flags),
            Backend::Linked => report_linked(&self.flags),
        }
    }
}

/// Enter VMX root operation.
///
/// `addr` must be the physical address of a valid, page-aligned,
/// initialized VMXON region; the hardware enforces further preconditions
/// (processor mode, control-register settings) that are the caller's
/// obligation.
pub fn vmxon(ex: &mut Executor, addr: u64) -> (r: Option<()>)
    ensures
        final(ex).last == Some(Issued::Vmxon { addr }),
        same_config(*old(ex), *final(ex)),
        r == spec_result(old(ex).flags),
{
    let err = ex.issue(Issued::Vmxon { addr });
    if err {
        None
    } else {
        Some(())
    }
}

/// Leave VMX operation.
///
/// The caller must already be in VMX operation; executing VMXOFF outside it
/// faults the processor.
pub fn vmxoff(ex: &mut Executor) -> (r: Option<()>)
    ensures
        final(ex).last == Some(Issued::Vmxoff),
        same_config(*old(ex), *final(ex)),
        r == spec_result(old(ex).flags),
{
    let err = ex.issue(Issued::Vmxoff);
    if err {
        None
    } else {
        Some(())
    }
}

/// Read a specified VMCS field.
///
/// The caller must be in VMX root operation with a current VMCS whose
/// format supports `field`; on success the field's value is returned.
pub fn vmread(ex: &mut Executor, field: u64) -> (r: Option<u64>)
    ensures
        final(ex).last == Some(Issued::Vmread { field }),
        same_config(*old(ex), *final(ex)),
        r == spec_value_result(old(ex).flags, old(ex).read_value),
{
    let err = ex.issue(Issued::Vmread { field });
    if err {
        None
    } else {
        Some(ex.read_value)
    }
}

/// Write a value to a specified VMCS field.
///
/// The caller must be in VMX root operation with a current VMCS; the field
/// must be supported and writable.
pub fn vmwrite(ex: &mut Executor, field: u64, value: u64) -> (r: Option<()>)
    ensures
        final(ex).last == Some(Issued::Vmwrite { field, value }),
        same_config(*old(ex), *final(ex)),
        r == spec_result(old(ex).flags),
{
    let err = ex.issue(Issued::Vmwrite { field, value });
    if err {
        None
    } else {
        Some(())
    }
}

/// Load the current-VMCS pointer from memory.
///
/// `addr` must be the physical address of a properly initialized,
/// page-aligned VMCS region.
pub fn vmptrld(ex: &mut Executor, addr: u64) -> (r: Option<()>)
    ensures
        final(ex).last == Some(Issued::Vmptrld { addr }),
        same_config(*old(ex), *final(ex)),
        r == spec_result(old(ex).flags),
{
    let err = ex.issue(Issued::Vmptrld { addr });
    if err {
        None
    } else {
        Some(())
    }
}

/// Copy VMCS data to a VMCS region in memory and make that region inactive.
///
/// `addr` must be the physical address of a VMCS region.
pub fn vmclear(ex: &mut Executor, addr: u64) -> (r: Option<()>)
    ensures
        final(ex).last == Some(Issued::Vmclear { addr }),
        same_config(*old(ex), *final(ex)),
        r == spec_result(old(ex).flags),
{
    let err = ex.issue(Issued::Vmclear { addr });
    if err {
        None
    } else {
        Some(())
    }
}

/// Invalidate EPT-derived entries in the TLBs and paging-structure caches.
///
/// Builds the INVEPT descriptor on the spot — the given EPTP in its low 64
/// bits, the reserved bits zero — and issues it together with the mandated
/// numeric code of `invalidation`. The caller must be in VMX root operation
/// and `eptp` must be a valid EPT pointer.
pub fn invept(ex: &mut Executor, invalidation: InvEptType, eptp: u64) -> (r: Option<()>)
    ensures
        final(ex).last == Some(
            Issued::Invept {
                invalidation: invalidation.spec_code(),
                descriptor: InvEptDescriptor::spec_new(eptp),
            },
        ),
        same_config(*old(ex), *final(ex)),
        r == spec_result(old(ex).flags),
{
    let descriptor = InvEptDescriptor::new(eptp);
    let err = ex.issue(Issued::Invept { invalidation: invalidation.code(), descriptor });
    if err {
        None
    } else {
        Some(())
    }
}

/// Invalidate entries in the TLBs and paging-structure caches based on VPID.
///
/// Builds the INVVPID descriptor on the spot — the VPID in its low 16 bits,
/// the reserved fields zero, the linear address in its high 64 bits — and
/// issues it together with the mandated numeric code of `invalidation`. The
/// caller must be in VMX root operation.
pub fn invvpid(ex: &mut Executor, invalidation: InvVpidType, vpid: u16, addr: u64) -> (r: Option<
    (),
>)
    ensures
        final(ex).last == Some(
            Issued::Invvpid {
                invalidation: invalidation.spec_code(),
                descriptor: InvVpidDescriptor::spec_new(vpid, addr),
            },
        ),
        same_config(*old(ex), *final(ex)),
        r == spec_result(old(ex).flags),
{
    let descriptor = InvVpidDescriptor::new(vpid, addr);
    let err = ex.issue(Issued::Invvpid { invalidation: invalidation.code(), descriptor });
    if err {
        None
    } else {
        Some(())
    }
}

} // verus!


//! Intel virtual-machine extensions (VMX).
//!
//! VMX supports virtualization of processor hardware: a host software layer
//! enters VMX root operation, manages a virtual-machine control structure
//! (VMCS), and invalidates cached address translations tagged by EPT pointer
//! or virtual-processor identifier.
//!
//! Per the IA-32 architecture manual, software is required to check RFLAGS.CF
//! and RFLAGS.ZF to determine the success or failure of VMX instruction
//! executions. This crate maps that flag-based signal to `Option` results,
//! fixes the exact 16-byte layouts of the INVEPT and INVVPID descriptors, and
//! pins the numeric invalidation codes the hardware mandates.

pub mod descriptors;
pub mod encoding;
pub mod flags;
pub mod instructions;

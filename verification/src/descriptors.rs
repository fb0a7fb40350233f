//! Invalidation types and descriptors for INVEPT and INVVPID.
//!
//! The numeric invalidation codes and the 16-byte descriptor layouts are
//! mandated by the hardware: they are transmitted to the processor as
//! instruction operands and in-memory records, so every value here is part
//! of the bit-level contract and must not drift.

use vstd::prelude::*;
use crate::encoding::{
    u16_le, u32_le, u64_le, u16_le_bytes, u32_le_bytes, u64_le_bytes, u64_from_le, lemma_le_zero,
    lemma_u64_le_round_trip,
};

verus! {

/// The INVEPT invalidation type.
#[derive(Clone, Copy, Debug, PartialEq, Eq, Structural)]
pub enum InvEptType {
    /// The logical processor invalidates all mappings associated with bits
    /// 51:12 of the EPT pointer (EPTP) specified in the INVEPT descriptor.
    /// It may invalidate other mappings as well.
    SingleContext,
    /// The logical processor invalidates mappings associated with all EPTPs.
    Global,
}

impl InvEptType {
    /// The numeric code the hardware mandates for this invalidation type.
    pub open spec fn spec_code(self) -> u64 {
        match self {
            InvEptType::SingleContext => 1,
            InvEptType::Global => 2,
        }
    }

    /// The code transmitted as the register operand of INVEPT.
    pub fn code(&self) -> (r: u64)
        ensures
            r == self.spec_code(),
    {
        match self {
            InvEptType::SingleContext => 1,
            InvEptType::Global => 2,
        }
    }
}

/// The INVVPID invalidation type.
#[derive(Clone, Copy, Debug, PartialEq, Eq, Structural)]
pub enum InvVpidType {
    /// Individual-address invalidation: the logical processor invalidates
    /// mappings for the linear address and VPID specified in the INVVPID
    /// descriptor. In some cases, it may invalidate mappings for other
    /// linear addresses (or other VPIDs) as well.
    IndividualAddress,
    /// Single-context invalidation: the logical processor invalidates all
    /// mappings tagged with the VPID specified in the INVVPID descriptor.
    /// In some cases, it may invalidate mappings for other VPIDs as well.
    SingleContext,
    /// All-contexts invalidation: the logical processor invalidates all
    /// mappings tagged with all VPIDs except VPID 0000H. In some cases, it
    /// may invalidate translations with VPID 0000H as well.
    AllContext,
    /// Single-context invalidation, retaining global translations: the
    /// logical processor invalidates all mappings tagged with the VPID
    /// specified in the INVVPID descriptor except global translations. In
    /// some cases, it may invalidate global translations (and mappings with
    /// other VPIDs) as well.
    SingleContextNonGlobal,
}

impl InvVpidType {
    /// The numeric code the hardware mandates for this invalidation type.
    pub open spec fn spec_code(self) -> u64 {
        match self {
            InvVpidType::IndividualAddress => 0,
            InvVpidType::SingleContext => 1,
            InvVpidType::AllContext => 2,
            InvVpidType::SingleContextNonGlobal => 3,
        }
    }

    /// The code transmitted as the register operand of INVVPID.
    pub fn code(&self) -> (r: u64)
        ensures
            r == self.spec_code(),
    {
        match self {
            InvVpidType::IndividualAddress => 0,
            InvVpidType::SingleContext => 1,
            InvVpidType::AllContext => 2,
            InvVpidType::SingleContextNonGlobal => 3,
        }
    }
}

/// The INVEPT descriptor. It comprises 128 bits and contains a 64-bit EPTP
/// value in bits 63:0; bits 127:64 are reserved and must be zero.
#[derive(Clone, Copy, Debug, PartialEq, Eq, Structural)]
pub struct InvEptDescriptor {
    eptp: u64,
    reserved: u64,
}

impl InvEptDescriptor {
    /// EPT pointer (EPTP) held in bits 63:0.
    pub closed spec fn eptp_spec(self) -> u64 {
        self.eptp
    }

    /// The reserved upper 64 bits.
    pub closed spec fn reserved_spec(self) -> u64 {
        self.reserved
    }

    /// The hardware requires the reserved bits to be zero.
    pub open spec fn wf(self) -> bool {
        self.reserved_spec() == 0
    }

    /// The descriptor a given EPTP yields: that EPTP, reserved bits zero.
    pub closed spec fn spec_new(eptp: u64) -> InvEptDescriptor {
        InvEptDescriptor { eptp, reserved: 0 }
    }

    /// The 16 bytes of the descriptor as the hardware reads them from
    /// memory: the EPTP in bytes 0 to 7, the reserved field in bytes 8 to
    /// 15, each little-endian.
    pub open spec fn spec_bytes(self) -> Seq<u8> {
        u64_le(self.eptp_spec()) + u64_le(self.reserved_spec())
    }

    /// Builds the descriptor for one INVEPT execution, zero-filling the
    /// reserved bits.
    pub fn new(eptp: u64) -> (r: Self)
        ensures
            r == Self::spec_new(eptp),
            r.eptp_spec() == eptp,
            r.wf(),
    {
        InvEptDescriptor { eptp, reserved: 0 }
    }

    /// The EPT pointer this descriptor carries.
    pub fn eptp(&self) -> (r: u64)
        ensures
            r == self.eptp_spec(),
    {
        self.eptp
    }

    /// Serializes the descriptor to the exact 16-byte record the instruction
    /// consumes.
    pub fn bytes(&self) -> (r: Vec<u8>)
        ensures
            r@ == self.spec_bytes(),
            r@.len() == 16,
    {
        let mut r = u64_le_bytes(self.eptp);
        let mut tail = u64_le_bytes(self.reserved);
        r.append(&mut tail);
        r
    }
}

/// The INVVPID descriptor. It comprises 128 bits and consists of a VPID in
/// bits 15:0, reserved zero bits in bits 63:16, and a guest linear address
/// in bits 127:64.
#[derive(Clone, Copy, Debug, PartialEq, Eq, Structural)]
pub struct InvVpidDescriptor {
    vpid: u16,
    reserved_0: u16,
    reserved_1: u32,
    addr: u64,
}

impl InvVpidDescriptor {
    /// Virtual-processor identifier (VPID) held in bits 15:0.
    pub closed spec fn vpid_spec(self) -> u16 {
        self.vpid
    }

    /// The reserved bits 31:16.
    pub closed spec fn reserved_0_spec(self) -> u16 {
        self.reserved_0
    }

    /// The reserved bits 63:32.
    pub closed spec fn reserved_1_spec(self) -> u32 {
        self.reserved_1
    }

    /// Guest linear address held in bits 127:64.
    pub closed spec fn addr_spec(self) -> u64 {
        self.addr
    }

    /// The hardware requires both reserved fields to be zero.
    pub open spec fn wf(self) -> bool {
        self.reserved_0_spec() == 0 && self.reserved_1_spec() == 0
    }

    /// The descriptor a given VPID and linear address yield: those values,
    /// reserved fields zero.
    pub closed spec fn spec_new(vpid: u16, addr: u64) -> InvVpidDescriptor {
        InvVpidDescriptor { vpid, reserved_0: 0, reserved_1: 0, addr }
    }

    /// The 16 bytes of the descriptor as the hardware reads them from
    /// memory: the VPID in bytes 0 and 1, the reserved fields in bytes 2 to
    /// 7, the linear address in bytes 8 to 15, each little-endian.
    pub open spec fn spec_bytes(self) -> Seq<u8> {
        u16_le(self.vpid_spec()) + u16_le(self.reserved_0_spec()) + u32_le(self.reserved_1_spec())
            + u64_le(self.addr_spec())
    }

    /// Builds the descriptor for one INVVPID execution, zero-filling the
    /// reserved fields.
    pub fn new(vpid: u16, addr: u64) -> (r: Self)
        ensures
            r == Self::spec_new(vpid, addr),
            r.vpid_spec() == vpid,
            r.addr_spec() == addr,
            r.wf(),
    {
        InvVpidDescriptor { vpid, reserved_0: 0, reserved_1: 0, addr }
    }

    /// The virtual-processor identifier this descriptor carries.
    pub fn vpid(&self) -> (r: u16)
        ensures
            r == self.vpid_spec(),
    {
        self.vpid
    }

    /// The guest linear address this descriptor carries.
    pub fn addr(&self) -> (r: u64)
        ensures
            r == self.addr_spec(),
    {
        self.addr
    }

    /// Serializes the descriptor to the exact 16-byte record the instruction
    /// consumes.
    pub fn bytes(&self) -> (r: Vec<u8>)
        ensures
            r@ == self.spec_bytes(),
            r@.len() == 16,
    {
        let mut r = u16_le_bytes(self.vpid);
        let mut a = u16_le_bytes(self.reserved_0);
        r.append(&mut a);
        let mut b = u32_le_bytes(self.reserved_1);
        r.append(&mut b);
        let mut c = u64_le_bytes(self.addr);
        r.append(&mut c);
        r
    }
}

/// What the descriptor built from an EPTP holds: exactly that EPTP, with
/// the reserved bits zero.
pub proof fn lemma_invept_spec_new(eptp: u64)
    ensures
        InvEptDescriptor::spec_new(eptp).eptp_spec() == eptp,
        InvEptDescriptor::spec_new(eptp).wf(),
{
}

/// What the descriptor built from a VPID and a linear address holds:
/// exactly those values, with the reserved fields zero.
pub proof fn lemma_invvpid_spec_new(vpid: u16, addr: u64)
    ensures
        InvVpidDescriptor::spec_new(vpid, addr).vpid_spec() == vpid,
        InvVpidDescriptor::spec_new(vpid, addr).addr_spec() == addr,
        InvVpidDescriptor::spec_new(vpid, addr).wf(),
{
}

/// Layout law for the INVEPT descriptor: every well-formed descriptor
/// serializes to exactly 16 bytes, with the EPTP little-endian in bytes 0
/// to 7 and the reserved region, bytes 8 to 15, all zero.
pub proof fn lemma_invept_descriptor_layout(d: InvEptDescriptor)
    requires
        d.wf(),
    ensures
        d.spec_bytes().len() == 16,
        d.spec_bytes().subrange(0, 8) == u64_le(d.eptp_spec()),
        forall|i: int| 8 <= i < 16 ==> d.spec_bytes()[i] == 0,
{
    lemma_le_zero();
    assert(d.spec_bytes().subrange(0, 8) =~= u64_le(d.eptp_spec()));
    assert forall|i: int| 8 <= i < 16 implies d.spec_bytes()[i] == 0 by {
        assert(d.spec_bytes()[i] == u64_le(0)[i - 8]);
    }
}

/// Layout law for the INVVPID descriptor: every well-formed descriptor
/// serializes to exactly 16 bytes, with the VPID little-endian in bytes 0
/// and 1, the reserved region, bytes 2 to 7, all zero, and the linear
/// address little-endian in bytes 8 to 15.
pub proof fn lemma_invvpid_descriptor_layout(d: InvVpidDescriptor)
    requires
        d.wf(),
    ensures
        d.spec_bytes().len() == 16,
        d.spec_bytes().subrange(0, 2) == u16_le(d.vpid_spec()),
        forall|i: int| 2 <= i < 8 ==> d.spec_bytes()[i] == 0,
        d.spec_bytes().subrange(8, 16) == u64_le(d.addr_spec()),
{
    lemma_le_zero();
    assert(d.spec_bytes().subrange(0, 2) =~= u16_le(d.vpid_spec()));
    assert(d.spec_bytes().subrange(8, 16) =~= u64_le(d.addr_spec()));
    assert forall|i: int| 2 <= i < 8 implies d.spec_bytes()[i] == 0 by {
        if i < 4 {
            assert(d.spec_bytes()[i] == u16_le(0)[i - 2]);
        } else {
            assert(d.spec_bytes()[i] == u32_le(0)[i - 4]);
        }
    }
}

/// Round-trip law: building an INVEPT descriptor from an EPTP and reading
/// the first eight bytes of its encoding back as a little-endian value
/// yields that EPTP unchanged.
pub proof fn lemma_invept_descriptor_round_trip(eptp: u64)
    ensures
        u64_from_le(InvEptDescriptor::spec_new(eptp).spec_bytes().subrange(0, 8)) == eptp,
{
    let d = InvEptDescriptor::spec_new(eptp);
    lemma_u64_le_round_trip(eptp);
    assert(d.spec_bytes().subrange(0, 8) =~= u64_le(eptp));
}

/// Round-trip law: building an INVVPID descriptor and reading bytes 8 to
/// 15 of its encoding back as a little-endian value yields the linear
/// address unchanged.
pub proof fn lemma_invvpid_descriptor_round_trip(vpid: u16, addr: u64)
    ensures
        u64_from_le(InvVpidDescriptor::spec_new(vpid, addr).spec_bytes().subrange(8, 16)) == addr,
{
    let d = InvVpidDescriptor::spec_new(vpid, addr);
    lemma_u64_le_round_trip(addr);
    assert(d.spec_bytes().subrange(8, 16) =~= u64_le(addr));
}

} // verus!

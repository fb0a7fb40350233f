use vmx::descriptors::{InvEptType, InvVpidType};
use vmx::flags::{outcome_result, outcome_value_result, FlagOutcome};
use vmx::instructions::{
    invept, invvpid, vmclear, vmptrld, vmread, vmwrite, vmxoff, vmxon, Backend, Executor, Issued,
};

fn run_all(ex: &mut Executor) -> [Option<()>; 7] {
    [
        vmxon(ex, 0x1000),
        vmxoff(ex),
        vmwrite(ex, 0x6C00, 77),
        vmptrld(ex, 0x2000),
        vmclear(ex, 0x3000),
        invept(ex, InvEptType::Global, 0x4000),
        invvpid(ex, InvVpidType::AllContext, 9, 0x5000),
    ]
}

#[test]
fn success_when_flags_clear() {
    // A simulated successful instruction (CF and ZF clear) makes every
    // primitive return success; vmread carries the read value.
    let mut ex = Executor::new(Backend::Inline, FlagOutcome::success(), 42);
    for r in run_all(&mut ex) {
        assert_eq!(r, Some(()));
    }
    assert_eq!(vmread(&mut ex, 0x4402), Some(42));
}

#[test]
fn failure_when_zf_set() {
    // A simulated failing instruction (ZF set) makes every primitive return
    // failure; vmread returns no value.
    let mut ex = Executor::new(Backend::Inline, FlagOutcome { cf: false, zf: true }, 42);
    for r in run_all(&mut ex) {
        assert_eq!(r, None);
    }
    assert_eq!(vmread(&mut ex, 0x4402), None);
}

#[test]
fn failure_when_cf_set() {
    let mut ex = Executor::new(Backend::Linked, FlagOutcome { cf: true, zf: false }, 42);
    for r in run_all(&mut ex) {
        assert_eq!(r, None);
    }
    assert_eq!(vmread(&mut ex, 0x4402), None);
}

#[test]
fn failure_iff_cf_or_zf() {
    for cf in [false, true] {
        for zf in [false, true] {
            let flags = FlagOutcome { cf, zf };
            let expected = if cf || zf { None } else { Some(()) };
            assert_eq!(outcome_result(&flags), expected);
            let expected_read = if cf || zf { None } else { Some(7) };
            assert_eq!(outcome_value_result(&flags, 7), expected_read);
            let mut ex = Executor::new(Backend::Inline, flags, 7);
            assert_eq!(vmxon(&mut ex, 0x1000), expected);
            assert_eq!(vmread(&mut ex, 0x4402), expected_read);
        }
    }
}

#[test]
fn backends_agree() {
    // Backend choice is observably transparent: for every flag outcome both
    // backends give identical results and record identical instructions.
    for cf in [false, true] {
        for zf in [false, true] {
            let flags = FlagOutcome { cf, zf };
            let mut a = Executor::new(Backend::Inline, flags, 42);
            let mut b = Executor::new(Backend::Linked, flags, 42);
            let ra = run_all(&mut a);
            let rb = run_all(&mut b);
            assert_eq!(ra, rb);
            assert_eq!(a.last, b.last);
            assert_eq!(vmread(&mut a, 0x4402), vmread(&mut b, 0x4402));
            assert_eq!(a.last, b.last);
        }
    }
}

#[test]
fn invvpid_individual_address_descriptor() {
    // invvpid(IndividualAddress, vpid 5, addr 0x2000) hands the hardware
    // code 0 and a descriptor whose bytes 0 and 1 hold 5, bytes 2 to 7 are
    // zero, and bytes 8 to 15 hold 0x2000.
    let mut ex = Executor::new(Backend::Inline, FlagOutcome { cf: false, zf: false }, 0);
    assert_eq!(invvpid(&mut ex, InvVpidType::IndividualAddress, 5, 0x2000), Some(()));
    match ex.last {
        Some(Issued::Invvpid { invalidation, descriptor }) => {
            assert_eq!(invalidation, 0);
            let b = descriptor.bytes();
            assert_eq!(b[0], 5);
            assert_eq!(b[1], 0);
            assert!(b[2..8].iter().all(|&x| x == 0));
            assert_eq!(&b[8..16], &[0x00, 0x20, 0x00, 0x00, 0x00, 0x00, 0x00, 0x00]);
        }
        other => panic!("unexpected instruction record: {:?}", other),
    }
}

#[test]
fn invept_records_code_and_descriptor() {
    let mut ex = Executor::new(Backend::Linked, FlagOutcome { cf: false, zf: false }, 0);
    assert_eq!(invept(&mut ex, InvEptType::SingleContext, 0x1000), Some(()));
    match ex.last {
        Some(Issued::Invept { invalidation, descriptor }) => {
            assert_eq!(invalidation, 1);
            assert_eq!(descriptor.eptp(), 0x1000);
            let b = descriptor.bytes();
            assert_eq!(b[0], 0x00);
            assert_eq!(b[1], 0x10);
            assert!(b[2..16].iter().all(|&x| x == 0));
        }
        other => panic!("unexpected instruction record: {:?}", other),
    }
}

#[test]
fn operands_recorded_exactly() {
    let mut ex = Executor::new(Backend::Inline, FlagOutcome { cf: false, zf: false }, 0);
    vmxon(&mut ex, 0xAAAA_1000);
    assert_eq!(ex.last, Some(Issued::Vmxon { addr: 0xAAAA_1000 }));
    vmxoff(&mut ex);
    assert_eq!(ex.last, Some(Issued::Vmxoff));
    vmread(&mut ex, 0x4402);
    assert_eq!(ex.last, Some(Issued::Vmread { field: 0x4402 }));
    vmwrite(&mut ex, 0x6C00, 77);
    assert_eq!(ex.last, Some(Issued::Vmwrite { field: 0x6C00, value: 77 }));
    vmptrld(&mut ex, 0xBBBB_2000);
    assert_eq!(ex.last, Some(Issued::Vmptrld { addr: 0xBBBB_2000 }));
    vmclear(&mut ex, 0xCCCC_3000);
    assert_eq!(ex.last, Some(Issued::Vmclear { addr: 0xCCCC_3000 }));
}

#[test]
fn executor_config_untouched() {
    let flags = FlagOutcome { cf: true, zf: true };
    let mut ex = Executor::new(Backend::Linked, flags, 99);
    assert_eq!(ex.last, None);
    run_all(&mut ex);
    vmread(&mut ex, 0x4402);
    assert_eq!(ex.backend, Backend::Linked);
    assert_eq!(ex.flags, flags);
    assert_eq!(ex.read_value, 99);
}

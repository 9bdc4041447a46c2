use ept_mtrr::errc::ErrcType;
use ept_mtrr::gs::{build_ept_map_next, build_ept_map_step, gs_initialize_start, gs_initialize_step, GsInitEvent, GsInitStep, GsT};
use ept_mtrr::mtrr::{MemoryType, MtrrRange, MtrrT};
use ept_mtrr::vmexit::{dispatch_vmexit, dispatch_vmexit_ept_misconfig, dispatch_vmexit_ept_violation, VmExitHandler};

#[test]
fn exit_reasons() {
    assert_eq!(dispatch_vmexit(0x0), VmExitHandler::Nmi);
    assert_eq!(dispatch_vmexit(0x8), VmExitHandler::NmiWindow);
    assert_eq!(dispatch_vmexit(0xA), VmExitHandler::Cpuid);
    assert_eq!(dispatch_vmexit(48), VmExitHandler::EptViolation);
    assert_eq!(dispatch_vmexit(49), VmExitHandler::EptMisconfig);
    assert_eq!(dispatch_vmexit(1), VmExitHandler::Unsupported);
    assert_eq!(dispatch_vmexit(u64::MAX), VmExitHandler::Unsupported);
}

#[test]
fn ept_exits_are_handled() {
    assert_eq!(dispatch_vmexit_ept_violation(1), ErrcType::Success);
    assert_eq!(dispatch_vmexit_ept_misconfig(7), ErrcType::Success);
    assert!(ErrcType::Success.success());
    assert!(!ErrcType::Failure.success());
}

#[test]
fn gs_initialize_all_steps_succeed() {
    let mut gs = GsT::new();
    let s = gs_initialize_start();
    assert_eq!(s, GsInitStep::AllocMsrBitmap);
    let s = gs_initialize_step(&mut gs, s, GsInitEvent::Allocated { virt: 0x1000, phys: 0x2000 });
    assert_eq!(s, GsInitStep::InitMtrr);
    assert_eq!((gs.msr_bitmap, gs.msr_bitmap_phys), (0x1000, 0x2000));
    let s = gs_initialize_step(&mut gs, s, GsInitEvent::MtrrRead(ErrcType::Success));
    assert_eq!(s, GsInitStep::AllocEpt);
    let s = gs_initialize_step(&mut gs, s, GsInitEvent::Allocated { virt: 0x3000, phys: 0x4000 });
    assert_eq!(s, GsInitStep::Done(ErrcType::Success));
    assert_eq!((gs.ept, gs.ept_phys), (0x3000, 0x4000));
    assert_eq!((gs.msr_bitmap, gs.msr_bitmap_phys), (0x1000, 0x2000));
}

#[test]
fn gs_initialize_stops_at_first_failure() {
    let mut gs = GsT::new();
    assert_eq!(
        gs_initialize_step(&mut gs, GsInitStep::AllocMsrBitmap, GsInitEvent::Allocated { virt: 0, phys: 0x5000 }),
        GsInitStep::Done(ErrcType::Failure)
    );
    assert_eq!((gs.msr_bitmap, gs.msr_bitmap_phys), (0, 0x5000));
    assert_eq!(
        gs_initialize_step(&mut gs, GsInitStep::InitMtrr, GsInitEvent::MtrrRead(ErrcType::Failure)),
        GsInitStep::Done(ErrcType::Failure)
    );
    assert_eq!(
        gs_initialize_step(&mut gs, GsInitStep::AllocEpt, GsInitEvent::Allocated { virt: 0, phys: 0 }),
        GsInitStep::Done(ErrcType::Failure)
    );
    assert_eq!(gs.ept, 0);
}

#[test]
fn ept_map_walk() {
    let mut m = MtrrT::new();
    m.build_vcnt_ranges(36, &vec![(0x6, 0xf_ffff_e800)]);
    assert_eq!(m.max_phys, 0x2000);
    assert_eq!(build_ept_map_step(&m, 0), Some(6));
    assert_eq!(build_ept_map_step(&m, 0x1000), Some(6));
    assert_eq!(build_ept_map_step(&m, 0x2000), None);
    assert_eq!(build_ept_map_next(0), Some(0x1000));
    assert_eq!(build_ept_map_next(u64::MAX - 0xfff), None);
    assert_eq!(build_ept_map_next(u64::MAX - 0x1000), Some(u64::MAX));
    let mut cursor = 0u64;
    let mut visited = 0;
    while let Some(_) = build_ept_map_step(&m, cursor) {
        visited += 1;
        cursor = build_ept_map_next(cursor).unwrap();
    }
    assert_eq!(visited, 2);
    let _ = MtrrRange::new(0, 0, MemoryType::MemoryTypeUC);
}

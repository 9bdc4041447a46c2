use ept_mtrr::ept_entry::{EptEntryT, EptEntryPml4, EptEntryPdpt, EptEntryPdt, EPT_ENTRY_COUNT};
use ept_mtrr::ept_pd_2m::EptMapPd;
use ept_mtrr::ept_pointer::EptPointerT;

#[test]
fn entry_new_is_zero() {
    let e = EptEntryT::new();
    assert_eq!(e.into_bits(), 0);
    assert!(!e.r() && !e.w() && !e.e() && !e.a() && !e.e_user());
    assert_eq!(e.phys(), 0);
}

#[test]
fn entry_flag_bits() {
    assert_eq!(EptEntryT::new().with_r(true).into_bits(), 0x1);
    assert_eq!(EptEntryT::new().with_w(true).into_bits(), 0x2);
    assert_eq!(EptEntryT::new().with_e(true).into_bits(), 0x4);
    assert_eq!(EptEntryT::new().with_a(true).into_bits(), 0x100);
    assert_eq!(EptEntryT::new().with_e_user(true).into_bits(), 0x400);
}

#[test]
fn entry_phys_field() {
    let e = EptEntryT::new().with_phys(0x12345);
    assert_eq!(e.into_bits(), 0x1234_5000);
    assert_eq!(e.phys(), 0x12345);
    let e = EptEntryT::new().with_phys(0xff_ffff_ffff);
    assert_eq!(e.into_bits(), 0x000f_ffff_ffff_f000);
}

#[test]
fn entry_read_after_write_keeps_other_fields() {
    let e = EptEntryT::from_bits(0xffff_ffff_ffff_ffff).with_r(false).with_phys(0);
    assert_eq!(e.into_bits(), 0xfff0_0000_0000_0ffe);
    assert!(!e.r());
    assert!(e.w() && e.e() && e.a() && e.e_user());
    let mut f = e;
    f.set_r(true);
    f.set_phys(7);
    assert_eq!(f.into_bits(), 0xfff0_0000_0000_7fff);
}

#[test]
fn entry_bits_roundtrip() {
    let v: u64 = 0x8123_4567_89ab_cdef;
    assert_eq!(EptEntryT::from_bits(v).into_bits(), v);
    let e = EptEntryT::from_bits(v);
    assert_eq!(e.phys(), ((v >> 12) & 0xff_ffff_ffff) as usize);
    assert!(e.r() && e.w() && e.e());
    assert!(e.a());
}

#[test]
fn map_pd_fields() {
    let e = EptMapPd::new()
        .with_r(true)
        .with_w(true)
        .with_e(true)
        .with_is_map(true)
        .with_memory_type(6);
    assert_eq!(e.into_bits(), 0xb7);
    assert_eq!(e.memory_type(), 6);
    let e = e.with_phys(1);
    assert_eq!(e.into_bits(), 0x20_00b7);
    assert_eq!(e.phys(), 1);
    let e = EptMapPd::new().with_ignore_pat(true).with_a(true).with_d(true).with_e_user(true);
    assert_eq!(e.into_bits(), 0x740);
    assert!(e.ignore_pat() && e.a() && e.d() && e.e_user() && !e.is_map());
}

#[test]
fn map_pd_phys_field_bounds() {
    let e = EptMapPd::new().with_phys(0x7fff_ffff);
    assert_eq!(e.into_bits(), 0x000f_ffff_ffe0_0000);
    let e = EptMapPd::from_bits(0xffff_ffff_ffff_ffff).with_phys(0);
    assert_eq!(e.into_bits(), 0xfff0_0000_001f_ffff);
}

#[test]
fn pointer_fields() {
    let p = EptPointerT::new().with_memory_type(6).with_page_walk_len(3).with_pfn(0x12345);
    assert_eq!(p.into_bits(), 0x1234_501e);
    assert_eq!(p.memory_type(), 6);
    assert_eq!(p.page_walk_len(), 3);
    assert_eq!(p.pfn(), 0x12345);
    assert!(!p.enable_access_and_drity());
    let p = p.with_enable_access_and_drity(true);
    assert_eq!(p.into_bits(), 0x1234_505e);
    let mut q = p;
    q.set_pfn(0xf_ffff_ffff);
    assert_eq!(q.into_bits(), 0x0000_ffff_ffff_f05e);
}

#[test]
fn tables_hold_512_entries() {
    let t = EptEntryPml4 { entries: [EptEntryT::new(); EPT_ENTRY_COUNT], tables: [0; EPT_ENTRY_COUNT] };
    assert_eq!(t.entries.len(), 512);
    let p = EptEntryPdpt { entries: [EptEntryT::new(); EPT_ENTRY_COUNT], tables: [0; EPT_ENTRY_COUNT] };
    assert_eq!(p.tables.len(), 512);
    let d = EptEntryPdt { entries: [0; EPT_ENTRY_COUNT], tables: [0; EPT_ENTRY_COUNT] };
    assert_eq!(d.entries.len(), 512);
}

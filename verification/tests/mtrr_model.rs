use ept_mtrr::errc::ErrcType;
use ept_mtrr::mtrr::{
    pair_is_acceptable, mtrr_physbase_msr, mtrr_physmask_msr, physbase_to_addr, physbase_to_type, physmask_is_valid,
    physmask_to_size, variable_range_count, MemoryType, MtrrRange, MtrrT,
};

#[test]
fn memory_type_encodings() {
    assert_eq!(MemoryType::from_u8(0), MemoryType::MemoryTypeUC);
    assert_eq!(MemoryType::from_u8(6), MemoryType::MemoryTypeWB);
    assert_eq!(MemoryType::MemoryTypeUC.to_u8(), 0);
    assert_eq!(MemoryType::MemoryTypeWB.to_u8(), 6);
}

#[test]
fn range_basics() {
    let d = MtrrRange::default();
    assert_eq!((d.addr, d.size, d.kind), (0, 0, MemoryType::MemoryTypeUC));
    let r = MtrrRange::new(0x1000, 0x2000, MemoryType::MemoryTypeWB);
    assert_eq!(r.end(), 0x3000);
    assert_eq!(MtrrRange::new(u64::MAX - 5, 5, MemoryType::MemoryTypeUC).end(), u64::MAX);
}

#[test]
fn register_decoding() {
    assert!(physmask_is_valid(0x800));
    assert!(!physmask_is_valid(0x7ff));
    assert!(physmask_is_valid(0xf_f000_0800));
    assert_eq!(physbase_to_addr(0x1234_5678_9abc_def6), 0x1234_5678_9abc_d000);
    assert_eq!(physbase_to_type(0x8000_0006), 6);
    assert_eq!(physbase_to_type(0x1ff), 0xff);
}

#[test]
fn mask_to_size() {
    // 256 MByte range in a 36-bit physical address space
    assert_eq!(physmask_to_size(0xf_f000_0800, 36), 0x1000_0000);
    // 4 KByte range
    assert_eq!(physmask_to_size(0xf_ffff_f800, 36), 0x1000);
    // a mask with no address bits covers the whole address space
    assert_eq!(physmask_to_size(0x800, 36), 0x10_0000_0000);
    assert_eq!(physmask_to_size(0x800, 0), 1);
}

#[test]
fn msr_numbers() {
    assert_eq!(variable_range_count(0x0d0a), 0x0a);
    assert_eq!(variable_range_count(0xffff_ffff_ffff_ff08), 8);
    assert_eq!(mtrr_physbase_msr(0), 0x200);
    assert_eq!(mtrr_physmask_msr(0), 0x201);
    assert_eq!(mtrr_physbase_msr(3), 0x206);
    assert_eq!(mtrr_physmask_msr(3), 0x207);
}

#[test]
fn empty_mtrr_is_uncacheable() {
    let m = MtrrT::new();
    assert_eq!(m.max_phys, 0);
    assert_eq!(m.get_memory_type(0), 0);
    assert_eq!(m.get_memory_type(0x1234_5678), 0);
}

#[test]
fn add_range_then_lookup() {
    let mut m = MtrrT::new();
    assert_eq!(m.add_range(MtrrRange::new(0x1000, 0x1000, MemoryType::MemoryTypeWB)), ErrcType::Success);
    assert_eq!(m.get_memory_type(0xfff), 0);
    assert_eq!(m.get_memory_type(0x1000), 6);
    assert_eq!(m.get_memory_type(0x1fff), 6);
    assert_eq!(m.get_memory_type(0x2000), 0);
}

#[test]
fn later_range_wins() {
    let mut m = MtrrT::new();
    m.add_range(MtrrRange::new(0, 0x10000, MemoryType::MemoryTypeWB));
    m.add_range(MtrrRange::new(0x4000, 0x1000, MemoryType::MemoryTypeUC));
    assert_eq!(m.get_memory_type(0x3000), 6);
    assert_eq!(m.get_memory_type(0x4800), 0);
    assert_eq!(m.get_memory_type(0x5000), 6);
    m.add_range(MtrrRange::new(0x4000, 0x800, MemoryType::MemoryTypeWB));
    assert_eq!(m.get_memory_type(0x4000), 6);
    assert_eq!(m.get_memory_type(0x4800), 0);
}

#[test]
fn add_range_fails_when_full() {
    let mut m = MtrrT::new();
    for i in 0..512u64 {
        assert_eq!(m.add_range(MtrrRange::new(i * 0x1000, 0x1000, MemoryType::MemoryTypeUC)), ErrcType::Success);
    }
    assert_eq!(m.add_range(MtrrRange::new(0x1000_0000, 0x1000, MemoryType::MemoryTypeWB)), ErrcType::Failure);
    assert_eq!(m.get_memory_type(0x1000_0000), 0);
}

#[test]
fn build_vcnt_ranges_reads_enabled_pairs() {
    let mut m = MtrrT::new();
    let msrs: Vec<(u64, u64)> = vec![
        (0x0000_0006, 0xf_8000_0800), // 0..2 GByte write-back
        (0x8000_0000, 0xf_f000_0000), // disabled
        (0x8000_0000, 0xf_f000_0800), // 2 GByte..+256 MByte uncacheable
    ];
    assert_eq!(m.build_vcnt_ranges(36, &msrs), ErrcType::Success);
    assert_eq!(m.max_phys, 0x9000_0000);
    assert_eq!(m.get_memory_type(0), 6);
    assert_eq!(m.get_memory_type(0x7fff_ffff), 6);
    assert_eq!(m.get_memory_type(0x8000_0000), 0);
    assert_eq!(m.get_memory_type(0x9000_0000), 0);
}

#[test]
fn build_vcnt_ranges_truncates_sizes_to_32_bits() {
    let mut m = MtrrT::new();
    // an 8 GByte write-back range: its size does not fit the 32-bit size field
    let msrs: Vec<(u64, u64)> = vec![(0x6, 0xe_0000_0800)];
    assert_eq!(m.build_vcnt_ranges(36, &msrs), ErrcType::Success);
    assert_eq!(m.max_phys, 0x2_0000_0000);
    assert_eq!(m.get_memory_type(0), 0);
}

#[test]
fn build_vcnt_ranges_with_no_enabled_pair() {
    let mut m = MtrrT::new();
    let msrs: Vec<(u64, u64)> = vec![(0x6, 0), (0x1000_0006, 0x7ff)];
    assert_eq!(m.build_vcnt_ranges(36, &msrs), ErrcType::Success);
    assert_eq!(m.max_phys, 0);
    assert_eq!(m.get_memory_type(0x1000_0000), 0);
}

#[test]
fn build_vcnt_ranges_fails_when_full_and_keeps_max_phys() {
    let mut m = MtrrT::new();
    for i in 0..511u64 {
        m.add_range(MtrrRange::new(i * 0x1000, 0x1000, MemoryType::MemoryTypeUC));
    }
    let msrs: Vec<(u64, u64)> = vec![(0x1_0000_0006, 0xf_ffff_f800), (0x2_0000_0006, 0xf_ffff_f800)];
    assert_eq!(m.build_vcnt_ranges(36, &msrs), ErrcType::Failure);
    assert_eq!(m.max_phys, 0);
    assert_eq!(m.get_memory_type(0x1_0000_0000), 6);
    assert_eq!(m.get_memory_type(0x2_0000_0000), 0);
}

#[test]
fn initialize_reports_failure_when_full() {
    let mut m = MtrrT::new();
    for i in 0..512u64 {
        m.add_range(MtrrRange::new(i * 0x1000, 0x1000, MemoryType::MemoryTypeUC));
    }
    let msrs: Vec<(u64, u64)> = vec![(0x1_0000_0006, 0xf_ffff_f800)];
    assert_eq!(m.initialize(36, &msrs), ErrcType::Failure);
    assert_eq!(m.range_count(), 512);
    assert_eq!(m.max_phys, 0);
    assert_eq!(m.get_memory_type(0x1_0000_0000), 0);
}

#[test]
fn initialize_reads_ranges() {
    let mut m = MtrrT::new();
    let msrs: Vec<(u64, u64)> = vec![(0x0000_0006, 0xf_f000_0800)];
    assert_eq!(m.initialize(36, &msrs), ErrcType::Success);
    assert_eq!(m.max_phys, 0x1000_0000);
    assert_eq!(m.get_memory_type(0x0fff_ffff), 6);
}

#[test]
fn add_range_takes_any_range() {
    let mut m = MtrrT::new();
    assert_eq!(m.range_count(), 0);
    assert_eq!(m.add_range(MtrrRange::new(u64::MAX, 0x10, MemoryType::MemoryTypeWB)), ErrcType::Success);
    assert_eq!(m.range_count(), 1);
    assert_eq!(m.max_phys, 0);
}

#[test]
fn build_vcnt_ranges_never_decodes_pairs_after_the_full_list() {
    let mut m = MtrrT::new();
    for i in 0..511u64 {
        m.add_range(MtrrRange::new(i * 0x1000, 0x1000, MemoryType::MemoryTypeUC));
    }
    // the third pair has an unknown type (1), but the list is full before it
    let msrs: Vec<(u64, u64)> = vec![
        (0x1_0000_0006, 0xf_ffff_f800),
        (0x2_0000_0006, 0xf_ffff_f800),
        (0x3_0000_0001, 0xf_ffff_f800),
    ];
    assert_eq!(m.build_vcnt_ranges(36, &msrs), ErrcType::Failure);
    assert_eq!(m.range_count(), 512);
}

#[test]
fn fresh_mtrr_debug_shows_default_slots() {
    let m = MtrrT::new();
    let text = format!("{:?}", m);
    assert_eq!(text.matches("MtrrRange { addr: 0, size: 0, kind: MemoryTypeUC }").count(), 512);
}

#[test]
fn reads_next_pair_stops_after_the_pair_that_finds_the_list_full() {
    let mut m = MtrrT::new();
    for i in 0..510u64 {
        m.add_range(MtrrRange::new(i * 0x1000, 0x1000, MemoryType::MemoryTypeUC));
    }
    let pairs: Vec<(u64, u64)> = vec![(0x6, 0xf_ffff_f800), (0x6, 0), (0x6, 0xf_ffff_f800), (0x6, 0xf_ffff_f800)];
    assert!(m.reads_next_pair(&pairs[..0], 36));
    assert!(m.reads_next_pair(&pairs[..1], 36));
    assert!(m.reads_next_pair(&pairs[..2], 36));
    assert!(m.reads_next_pair(&pairs[..3], 36));
    assert!(!m.reads_next_pair(&pairs[..4], 36));
}

#[test]
fn pair_acceptance() {
    assert!(pair_is_acceptable(0x6, 0xf_ffff_f800, 36));
    assert!(pair_is_acceptable(0x0, 0xf_ffff_f800, 36));
    assert!(!pair_is_acceptable(0x1, 0xf_ffff_f800, 36));
    assert!(pair_is_acceptable(0x1, 0xf_ffff_f000, 36));
    assert!(!pair_is_acceptable(0xffff_ffff_ffff_f006, 0xf_ffff_e800, 36));
    assert!(!pair_is_acceptable(0xffff_ffff_ffff_f006, 0xf_ffff_f800, 36));
    assert!(pair_is_acceptable(0xffff_ffff_ffff_e006, 0xf_ffff_f800, 36));
}

#[test]
fn all_ranges_fit_check() {
    let mut m = MtrrT::new();
    assert!(m.all_ranges_fit());
    m.add_range(MtrrRange::new(0x1000, 0x1000, MemoryType::MemoryTypeWB));
    assert!(m.all_ranges_fit());
    m.add_range(MtrrRange::new(u64::MAX, 1, MemoryType::MemoryTypeWB));
    assert!(!m.all_ranges_fit());
}

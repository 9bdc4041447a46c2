use ept_mtrr::ept::{
    alloc_pdpt, alloc_pdt, eptp, get_pml1_index, get_pml2_index, get_pml3_index, get_pml4_index,
    map_2m_page_step, write_2m_entry, Map2mStep,
};
use ept_mtrr::ept_entry::{EptEntryT, EptEntryPml4, EptEntryPdpt, EptEntryPdt, EPT_ENTRY_COUNT};

fn empty_pml4() -> Box<EptEntryPml4> {
    Box::new(EptEntryPml4 { entries: [EptEntryT::new(); EPT_ENTRY_COUNT], tables: [0; EPT_ENTRY_COUNT] })
}

fn empty_pdpt() -> Box<EptEntryPdpt> {
    Box::new(EptEntryPdpt { entries: [EptEntryT::new(); EPT_ENTRY_COUNT], tables: [0; EPT_ENTRY_COUNT] })
}

fn empty_pdt() -> Box<EptEntryPdt> {
    Box::new(EptEntryPdt { entries: [0; EPT_ENTRY_COUNT], tables: [0; EPT_ENTRY_COUNT] })
}

#[test]
fn indices_of_level_boundaries() {
    assert_eq!(get_pml4_index(0x80_0000_0000), 1);
    assert_eq!(get_pml3_index(0x4000_0000), 1);
    assert_eq!(get_pml2_index(0x20_0000), 1);
    assert_eq!(get_pml1_index(0x1000), 1);
    assert_eq!(get_pml4_index(0x7f_ffff_ffff), 0);
    assert_eq!(get_pml4_index(u64::MAX), 511);
    assert_eq!(get_pml1_index(u64::MAX), 511);
}

#[test]
fn indices_compose_address() {
    let phys: u64 = 0x0000_abcd_1234_5678;
    let back = get_pml4_index(phys) * 0x80_0000_0000
        + get_pml3_index(phys) * 0x4000_0000
        + get_pml2_index(phys) * 0x20_0000
        + get_pml1_index(phys) * 0x1000
        + phys % 0x1000;
    assert_eq!(back, phys);
}

#[test]
fn eptp_value() {
    assert_eq!(eptp(0x1234_5000), 0x1234_501e);
    assert_eq!(eptp(0), 0x1e);
    assert_eq!(eptp(0x1234_5fff), 0x1234_501e);
}

#[test]
fn alloc_pdpt_records_table() {
    let mut ept = empty_pml4();
    let r = alloc_pdpt(&mut ept, 0, 0xdead_0000, 0x0030_5000);
    assert_eq!(r, 0xdead_0000);
    assert_eq!(ept.tables[0], 0xdead_0000);
    assert_eq!(ept.entries[0].into_bits(), 0x0030_5007);
    assert_eq!(ept.entries[1].into_bits(), 0);
}

#[test]
fn alloc_pdpt_keeps_other_fields_of_entry() {
    let mut ept = empty_pml4();
    ept.entries[3] = EptEntryT::from_bits(0x8000_0000_0000_0100);
    alloc_pdpt(&mut ept, 3, 0x1000, 0x2000);
    assert_eq!(ept.entries[3].into_bits(), 0x8000_0000_0000_2107);
}

#[test]
fn alloc_pdpt_failed_allocation_changes_nothing() {
    let mut ept = empty_pml4();
    let r = alloc_pdpt(&mut ept, 0, 0, 0x5000);
    assert_eq!(r, 0);
    assert_eq!(ept.tables[0], 0);
    assert_eq!(ept.entries[0].into_bits(), 0);
}

#[test]
fn alloc_pdt_uses_pml3_index() {
    let mut pdpt = empty_pdpt();
    let r = alloc_pdt(&mut pdpt, 0x8000_0000, 0xbeef_0000, 0x0077_7000);
    assert_eq!(r, 0xbeef_0000);
    assert_eq!(pdpt.tables[2], 0xbeef_0000);
    assert_eq!(pdpt.entries[2].into_bits(), 0x0077_7007);
    assert_eq!(pdpt.tables[0], 0);
    let r = alloc_pdt(&mut pdpt, 0x4000_0000, 0, 0x1000);
    assert_eq!(r, 0);
    assert_eq!(pdpt.tables[1], 0);
}

#[test]
fn write_2m_entry_sets_mapping() {
    let mut pdt = empty_pdt();
    write_2m_entry(&mut pdt, 0x40_0000, 6);
    // bits 51:21 of the address land in the field at bit 21
    assert_eq!(pdt.entries[2], 0x40_00b7);
    write_2m_entry(&mut pdt, 0, 0);
    assert_eq!(pdt.entries[0], 0x87);
    assert_eq!(pdt.entries[1], 0);
}

#[test]
fn write_2m_entry_keeps_flags_it_does_not_set() {
    let mut pdt = empty_pdt();
    pdt.entries[1] = 0x0000_0000_0000_0340;
    write_2m_entry(&mut pdt, 0x20_0000, 0);
    assert_eq!(pdt.entries[1], 0x20_03c7);
}

#[test]
fn map_steps() {
    assert_eq!(map_2m_page_step(0x80_0000_0000, 0, 0), Map2mStep::OutOfRange);
    assert_eq!(map_2m_page_step(0x20_0000, 0, 0), Map2mStep::AllocPdpt);
    assert_eq!(map_2m_page_step(0x20_0000, 0x1000, 0), Map2mStep::AllocPdt);
    assert_eq!(map_2m_page_step(0x20_0000, 0x1000, 0x2000), Map2mStep::WriteEntry);
    assert_eq!(map_2m_page_step(0x1_0000_0000_0000, 0x1000, 0x2000), Map2mStep::WriteEntry);
}

#[test]
fn map_walk_end_to_end() {
    let mut ept = empty_pml4();
    let mut pdpt = empty_pdpt();
    let mut pdt = empty_pdt();
    let phys: u64 = 0x4060_0000;
    assert_eq!(map_2m_page_step(phys, ept.tables[0], 0), Map2mStep::AllocPdpt);
    assert_eq!(alloc_pdpt(&mut ept, 0, 0x10_0000, 0x11_0000), 0x10_0000);
    let i3 = get_pml3_index(phys) as usize;
    assert_eq!(map_2m_page_step(phys, ept.tables[0], pdpt.tables[i3]), Map2mStep::AllocPdt);
    assert_eq!(alloc_pdt(&mut pdpt, phys, 0x20_0000, 0x21_0000), 0x20_0000);
    assert_eq!(map_2m_page_step(phys, ept.tables[0], pdpt.tables[i3]), Map2mStep::WriteEntry);
    write_2m_entry(&mut pdt, phys, 6);
    let i2 = get_pml2_index(phys) as usize;
    assert_eq!(i3, 1);
    assert_eq!(i2, 3);
    assert_eq!(pdt.entries[i2], ((phys >> 21) << 21) | 0xb7);
}

#[test]
fn map_2m_page_at_two_megabytes() {
    let mut ept = empty_pml4();
    let mut pdpt = empty_pdpt();
    let mut pdt = empty_pdt();
    let phys: u64 = 0x20_0000;
    assert_eq!(map_2m_page_step(phys, ept.tables[0], 0), Map2mStep::AllocPdpt);
    assert_eq!(alloc_pdpt(&mut ept, 0, 0x7000_0000, 0x100_0000), 0x7000_0000);
    let i3 = get_pml3_index(phys) as usize;
    assert_eq!(map_2m_page_step(phys, ept.tables[0], pdpt.tables[i3]), Map2mStep::AllocPdt);
    assert_eq!(alloc_pdt(&mut pdpt, phys, 0x7100_0000, 0x120_0000), 0x7100_0000);
    assert_eq!(map_2m_page_step(phys, ept.tables[0], pdpt.tables[i3]), Map2mStep::WriteEntry);
    write_2m_entry(&mut pdt, phys, 6);
    assert_eq!(ept.tables[0], 0x7000_0000);
    assert_eq!(ept.entries[0].into_bits(), 0x100_0007);
    assert_eq!(pdpt.tables[0], 0x7100_0000);
    assert_eq!(pdpt.entries[0].into_bits(), 0x120_0007);
    assert_eq!(pdt.entries[1], 0x20_00b7);
    assert!(ept.tables[1..].iter().all(|&t| t == 0));
    assert!(ept.entries[1..].iter().all(|e| e.into_bits() == 0));
    assert!(pdpt.tables[1..].iter().all(|&t| t == 0));
    assert!(pdt.entries.iter().enumerate().all(|(i, &e)| i == 1 || e == 0));
}

#[test]
fn failed_allocation_ignores_physical_address() {
    let mut ept = empty_pml4();
    assert_eq!(alloc_pdpt(&mut ept, 0, 0, u64::MAX), 0);
    assert_eq!(ept.entries[0].into_bits(), 0);
    let mut pdpt = empty_pdpt();
    assert_eq!(alloc_pdt(&mut pdpt, 0, 0, u64::MAX), 0);
    assert_eq!(pdpt.tables[0], 0);
}

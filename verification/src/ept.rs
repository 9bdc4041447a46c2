//! The four-level EPT walk: the index of a physical address in each level,
//! the EPT pointer, and the steps that map a 2-MByte page, creating the
//! intermediate tables on the way.

use vstd::prelude::*;
use crate::ept_entry::{EptEntryFields, EptEntryPml4, EptEntryPdpt, EptEntryPdt, EPT_ENTRY_COUNT};
use crate::ept_pd_2m::{EptMapPd, EptMapPdFields};
use crate::ept_pointer::{EptPointerFields, EptPointerT};

verus! {

/// The table that the EPT pointer references.
pub type ExtentPageTable = EptEntryPml4;

/// Shift from a physical address to its 4-KByte frame number.
pub const PAGE_SHIFT: u64 = 12;

/// Shift from a physical address to its 2-MByte frame number.
pub const LARGE_PAGE_SHIFT: u64 = 21;

/// Index of `phys` in the PML4: which 512-GByte region holds it, modulo 512.
pub open spec fn pml4_index(phys: u64) -> u64 {
    (phys / 0x80_0000_0000) % 512
}

/// Index of `phys` in its PDPT: which 1-GByte region holds it, modulo 512.
pub open spec fn pml3_index(phys: u64) -> u64 {
    (phys / 0x4000_0000) % 512
}

/// Index of `phys` in its PDT: which 2-MByte region holds it, modulo 512.
pub open spec fn pml2_index(phys: u64) -> u64 {
    (phys / 0x20_0000) % 512
}

/// Index of `phys` in its PT: which 4-KByte page holds it, modulo 512.
pub open spec fn pml1_index(phys: u64) -> u64 {
    (phys / 0x1000) % 512
}

/// Returns the index of `phys` in the PML4.
pub fn get_pml4_index(phys: u64) -> (r: u64)
    ensures
        r == pml4_index(phys),
        r < 512,
{
    assert(((phys >> 39u64) & 0x1ffu64) == (phys / 0x80_0000_0000u64) % 512) by (bit_vector);
    (phys >> 39u64) & 0x1ff
}

/// Returns the index of `phys` in its PDPT.
pub fn get_pml3_index(phys: u64) -> (r: u64)
    ensures
        r == pml3_index(phys),
        r < 512,
{
    assert(((phys >> 30u64) & 0x1ffu64) == (phys / 0x4000_0000u64) % 512) by (bit_vector);
    (phys >> 30u64) & 0x1ff
}

/// Returns the index of `phys` in its PDT.
pub fn get_pml2_index(phys: u64) -> (r: u64)
    ensures
        r == pml2_index(phys),
        r < 512,
{
    assert(((phys >> 21u64) & 0x1ffu64) == (phys / 0x20_0000u64) % 512) by (bit_vector);
    (phys >> 21u64) & 0x1ff
}

/// Returns the index of `phys` in its PT.
pub fn get_pml1_index(phys: u64) -> (r: u64)
    ensures
        r == pml1_index(phys),
        r < 512,
{
    assert(((phys >> 12u64) & 0x1ffu64) == (phys / 0x1000u64) % 512) by (bit_vector);
    (phys >> 12u64) & 0x1ff
}

/// A 48-bit physical address is the sum of its four table indices, each
/// scaled by the size that one entry of its level covers, and of its offset
/// in the 4-KByte page.
pub proof fn lemma_indices_compose_address(phys: u64)
    requires
        phys < 0x1_0000_0000_0000,
    ensures
        phys == pml4_index(phys) * 0x80_0000_0000 + pml3_index(phys) * 0x4000_0000
            + pml2_index(phys) * 0x20_0000 + pml1_index(phys) * 0x1000 + phys % 0x1000,
{
    assert(phys == ((phys / 0x80_0000_0000u64) % 512) * 0x80_0000_0000u64 + ((phys
        / 0x4000_0000u64) % 512) * 0x4000_0000u64 + ((phys / 0x20_0000u64) % 512) * 0x20_0000u64
        + ((phys / 0x1000u64) % 512) * 0x1000u64 + phys % 0x1000u64) by (bit_vector)
        requires
            phys < 0x1_0000_0000_0000u64,
    ;
}

/// The fields of the EPT pointer that references a PML4 at `ept_phys`:
/// write-back paging structures, a four-level walk, no accessed and dirty
/// flags.
pub open spec fn eptp_fields(ept_phys: u64) -> EptPointerFields {
    EptPointerFields {
        memory_type: 6,
        page_walk_len: 3,
        enable_access_and_drity: false,
        pfn: ((ept_phys >> 12) as usize) as u64,
        ..EptPointerFields::zero()
    }
}

/// Returns the EPT pointer for the PML4 at physical address `ept_phys`.
pub fn eptp(ept_phys: u64) -> (r: u64)
    requires
        ept_phys < 0x1_0000_0000_0000,
    ensures
        EptPointerFields::decode(r) == eptp_fields(ept_phys),
        r == ((#[verifier::truncate] ((ept_phys >> 12) as usize) as u64) << 12) | 0x1e,
{
    assert(ept_phys >> 12u64 <= 0xf_ffff_ffffu64) by (bit_vector)
        requires
            ept_phys < 0x1_0000_0000_0000u64,
    ;
    let pml4_pfn = #[verifier::truncate] ((ept_phys >> PAGE_SHIFT) as usize);
    let ret = EptPointerT::new().with_memory_type(6).with_enable_access_and_drity(
        false,
    ).with_page_walk_len(3).with_pfn(pml4_pfn);
    let r = ret.into_bits();
    proof {
        crate::bitfield::lemma_low_mask_values();
        let pfn = (#[verifier::truncate] ((ept_phys >> 12u64) as usize)) as u64;
        crate::bitfield::lemma_field_get_bounded(r, 6, 1);
        assert(((ept_phys >> 12u64) as usize) as u64 <= 0xf_ffff_ffffu64) by (bit_vector)
            requires
                ept_phys < 0x1_0000_0000_0000u64,
        ;
        assert(r == (pfn << 12u64) | 0x1eu64) by (bit_vector)
            requires
                pfn <= 0xf_ffff_ffffu64,
                (r >> 0u64) & 0x7 == 6,
                (r >> 3u64) & 0x7 == 3,
                (r >> 6u64) & 0x1 == 0,
                (r >> 7u64) & 0x1f == 0,
                (r >> 12u64) & 0xf_ffff_ffff == pfn,
                (r >> 48u64) & 0xffff == 0,
        ;
    }
    r
}

/// The entry that references a child table at `child_phys`: `old` with read,
/// write and execute access granted and the frame number of the child (the
/// frame number passes through `usize`, as the field's accessors take it).
pub open spec fn table_entry_fields(old: EptEntryFields, child_phys: u64) -> EptEntryFields {
    EptEntryFields { r: true, w: true, e: true, phys: ((child_phys >> 12) as usize) as u64, ..old }
}

/// Records a PDPT that was allocated at virtual address `pdpt_virt` and
/// physical address `pdpt_phys` in entry `pml4_index` of `ept`, and returns
/// `pdpt_virt`. An address of 0 stands for a failed allocation: then `ept` is
/// left as it was, `pdpt_phys` is not looked at, and 0 is returned.
pub fn alloc_pdpt(ept: &mut ExtentPageTable, pml4_index: usize, pdpt_virt: usize, pdpt_phys: u64) -> (r: usize)
    requires
        pml4_index < EPT_ENTRY_COUNT,
        pdpt_virt != 0 ==> pdpt_phys < 0x10_0000_0000_0000,
    ensures
        r == pdpt_virt,
        pdpt_virt == 0 ==> *final(ept) == *old(ept),
        pdpt_virt != 0 ==> {
            &&& final(ept).tables@ == old(ept).tables@.update(pml4_index as int, pdpt_virt)
            &&& final(ept).entries@.len() == old(ept).entries@.len()
            &&& forall|i: int| 0 <= i < EPT_ENTRY_COUNT && i != pml4_index ==>
                    #[trigger] final(ept).entries@[i] == old(ept).entries@[i]
            &&& final(ept).entries@[pml4_index as int]@ == table_entry_fields(
                old(ept).entries@[pml4_index as int]@, pdpt_phys)
        },
{
    let mut pml4_entry = ept.entries[pml4_index];
    if pdpt_virt == 0 {
        return 0;
    }
    ept.tables[pml4_index] = pdpt_virt;
    assert(pdpt_phys >> 12u64 <= 0xff_ffff_ffffu64) by (bit_vector)
        requires
            pdpt_phys < 0x10_0000_0000_0000u64,
    ;
    let pdpt_pfn = pdpt_phys >> PAGE_SHIFT;
    pml4_entry.set_r(true);
    pml4_entry.set_w(true);
    pml4_entry.set_e(true);
    pml4_entry.set_phys(#[verifier::truncate] (pdpt_pfn as usize));
    ept.entries[pml4_index] = pml4_entry;
    pdpt_virt
}

/// Records a PDT that was allocated at virtual address `pdt_virt` and physical
/// address `pdt_phys` in the entry of `pdpt` that covers `phys`, and returns
/// `pdt_virt`. An address of 0 stands for a failed allocation: then `pdpt` is
/// left as it was, `pdt_phys` is not looked at, and 0 is returned.
pub fn alloc_pdt(pdpt: &mut EptEntryPdpt, phys: u64, pdt_virt: usize, pdt_phys: u64) -> (r: usize)
    requires
        pdt_virt != 0 ==> pdt_phys < 0x10_0000_0000_0000,
    ensures
        r == pdt_virt,
        pdt_virt == 0 ==> *final(pdpt) == *old(pdpt),
        pdt_virt != 0 ==> {
            let i = pml3_index(phys) as int;
            &&& final(pdpt).tables@ == old(pdpt).tables@.update(i, pdt_virt)
            &&& final(pdpt).entries@.len() == old(pdpt).entries@.len()
            &&& forall|j: int| 0 <= j < EPT_ENTRY_COUNT && j != i ==>
                    #[trigger] final(pdpt).entries@[j] == old(pdpt).entries@[j]
            &&& final(pdpt).entries@[i]@ == table_entry_fields(old(pdpt).entries@[i]@, pdt_phys)
        },
{
    let pdpt_index = get_pml3_index(phys) as usize;
    let mut pdpt_entry = pdpt.entries[pdpt_index];
    if pdt_virt == 0 {
        return 0;
    }
    pdpt.tables[pdpt_index] = pdt_virt;
    assert(pdt_phys >> 12u64 <= 0xff_ffff_ffffu64) by (bit_vector)
        requires
            pdt_phys < 0x10_0000_0000_0000u64,
    ;
    let pdt_pfn = pdt_phys >> PAGE_SHIFT;
    pdpt_entry.set_r(true);
    pdpt_entry.set_w(true);
    pdpt_entry.set_e(true);
    pdpt_entry.set_phys(#[verifier::truncate] (pdt_pfn as usize));
    pdpt.entries[pdpt_index] = pdpt_entry;
    pdt_virt
}

/// The 2-MByte mapping of `phys` with `memory_type`, written over `old`:
/// read, write and execute access, the page bit, the memory type, and the
/// 2-MByte frame number of `phys` (bits 51:21 of the address) in the address
/// field, passed through `usize` as the field's accessors take it; every other
/// field of `old` stays.
pub open spec fn map_2m_fields(old: EptMapPdFields, phys: u64, memory_type: u8) -> EptMapPdFields {
    EptMapPdFields {
        r: true,
        w: true,
        e: true,
        is_map: true,
        memory_type: memory_type as u64,
        phys: ((phys >> 21) as usize) as u64,
        ..old
    }
}

/// Writes the 2-MByte mapping of `phys` with `memory_type` into the entry of
/// `pdt` that covers `phys`, keeping the fields of that entry that the
/// mapping does not set. The 2-MByte frame number of `phys` must fit the
/// 31-bit address field, which holds for every 52-bit physical address.
pub fn write_2m_entry(pdt: &mut EptEntryPdt, phys: u64, memory_type: u8)
    requires
        memory_type <= 7,
        phys >> 21 <= 0x7fff_ffff,
    ensures
        ({
            let i = pml2_index(phys) as int;
            &&& final(pdt).tables == old(pdt).tables
            &&& final(pdt).entries@ == old(pdt).entries@.update(i, final(pdt).entries@[i])
            &&& EptMapPdFields::decode(final(pdt).entries@[i]) == map_2m_fields(
                EptMapPdFields::decode(old(pdt).entries@[i]), phys, memory_type)
        }),
        EptMapPdFields::decode(final(pdt).entries@[pml2_index(phys) as int]).phys * 0x20_0000
            == phys - phys % 0x20_0000,
{
    proof {
        lemma_2m_entry_maps_containing_page(
            EptMapPdFields::decode(old(pdt).entries@[pml2_index(phys) as int]),
            phys,
            memory_type,
        );
    }
    let pdt_index = get_pml2_index(phys) as usize;
    let pdt_val = pdt.entries[pdt_index];
    let mut pdt_entry = EptMapPd::from_bits(pdt_val);
    let phys_pfn = #[verifier::truncate] ((phys >> LARGE_PAGE_SHIFT) as usize);
    pdt_entry.set_r(true);
    pdt_entry.set_w(true);
    pdt_entry.set_e(true);
    pdt_entry.set_is_map(true);
    pdt_entry.set_memory_type(memory_type);
    pdt_entry.set_phys(phys_pfn);
    let pdt_val = pdt_entry.into_bits();
    pdt.entries[pdt_index] = pdt_val;
}

/// What mapping a 2-MByte page has to do next.
#[derive(Debug, Clone, Copy, PartialEq, Eq, Structural)]
pub enum Map2mStep {
    /// The address is not covered by the first PML4 entry: the mapping fails.
    OutOfRange,
    /// The PML4 has no PDPT yet: allocate one and record it at PML4 index 0.
    AllocPdpt,
    /// The PDPT has no PDT for the address yet: allocate one and record it.
    AllocPdt,
    /// Both tables exist: write the entry into the PDT.
    WriteEntry,
}

/// The next step of mapping `phys`, given the virtual address of the PDPT
/// recorded at PML4 index 0 and that of the PDT recorded in the PDPT entry for
/// `phys` (0 where none is recorded; `pdt_virt` is looked at only once a PDPT
/// exists).
pub open spec fn map_2m_next(phys: u64, pdpt_virt: usize, pdt_virt: usize) -> Map2mStep {
    if pml4_index(phys) != 0 {
        Map2mStep::OutOfRange
    } else if pdpt_virt == 0 {
        Map2mStep::AllocPdpt
    } else if pdt_virt == 0 {
        Map2mStep::AllocPdt
    } else {
        Map2mStep::WriteEntry
    }
}

/// Decides the next step of mapping the 2-MByte page at `phys`.
pub fn map_2m_page_step(phys: u64, pdpt_virt: usize, pdt_virt: usize) -> (s: Map2mStep)
    ensures
        s == map_2m_next(phys, pdpt_virt, pdt_virt),
{
    let pml4_index = get_pml4_index(phys);
    if pml4_index != 0 {
        return Map2mStep::OutOfRange;
    }
    if pdpt_virt == 0 {
        return Map2mStep::AllocPdpt;
    }
    if pdt_virt == 0 {
        return Map2mStep::AllocPdt;
    }
    Map2mStep::WriteEntry
}

/// The entry written for `phys` maps the 2-MByte page that contains `phys`:
/// its address field times 2 MBytes is `phys` rounded down to 2 MBytes, for
/// every address whose 2-MByte frame fits the field, that is every 52-bit
/// address. It grants read, write and execute access, is marked as a page,
/// and carries the memory type asked for.
pub proof fn lemma_2m_entry_maps_containing_page(old: EptMapPdFields, phys: u64, memory_type: u8)
    requires
        phys >> 21 <= 0x7fff_ffff,
    ensures
        map_2m_fields(old, phys, memory_type).phys * 0x20_0000 == phys - phys % 0x20_0000,
        map_2m_fields(old, phys, memory_type).r,
        map_2m_fields(old, phys, memory_type).w,
        map_2m_fields(old, phys, memory_type).e,
        map_2m_fields(old, phys, memory_type).is_map,
        map_2m_fields(old, phys, memory_type).memory_type == memory_type,
{
    let f = phys >> 21u64;
    assert(f as usize as u64 == f);
    assert(f * 0x20_0000 == phys - phys % 0x20_0000) by (bit_vector)
        requires
            f == phys >> 21u64,
    ;
}

/// Mapping a page takes at most two allocations: an address that the first
/// PML4 entry covers asks for a PDPT while none is recorded, then for a PDT
/// while none is recorded for it, and once both are recorded its entry is
/// written; any other address fails at once. Every 52-bit address fits the
/// address field of the entry that is written.
pub proof fn lemma_map_2m_walk(phys: u64, pdpt_virt: usize, pdt_virt: usize)
    ensures
        pml4_index(phys) != 0 ==> map_2m_next(phys, pdpt_virt, pdt_virt) == Map2mStep::OutOfRange,
        pml4_index(phys) == 0 ==> {
            &&& map_2m_next(phys, 0, pdt_virt) == Map2mStep::AllocPdpt
            &&& pdpt_virt != 0 ==> map_2m_next(phys, pdpt_virt, 0) == Map2mStep::AllocPdt
            &&& pdpt_virt != 0 && pdt_virt != 0 ==> map_2m_next(phys, pdpt_virt, pdt_virt)
                == Map2mStep::WriteEntry
        },
        phys < 0x10_0000_0000_0000 ==> phys >> 21 <= 0x7fff_ffff,
{
    assert(phys < 0x10_0000_0000_0000u64 ==> phys >> 21u64 <= 0x7fff_ffffu64) by (bit_vector);
}

} // verus!

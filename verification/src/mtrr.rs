//! The memory-type range registers (MTRRs): the variable ranges that firmware
//! programs, and the memory type that they give each physical address.

use vstd::prelude::*;
use crate::bitfield::low_mask;
use crate::errc::ErrcType;

verus! {

/// The most ranges that an [`MtrrT`] records.
pub const MTRR_MAX_RANGES: usize = 512;

/// The MSR IA32_MTRR_CAPABILITIES.
pub const MSR_IA32_MTRR_CAPABILITIES: u32 = 0xFE;

/// The VCNT field of IA32_MTRR_CAPABILITIES: the number of variable ranges.
pub const MSR_IA32_MTRR_CAP_VCNT: u64 = 0xFF;

/// The MSR IA32_MTRR_PHYSBASE0; range `i` has its base at `0x200 + 2 * i`.
pub const MSR_IA32_MTRR_PHYSBASE0: u32 = 0x200;

/// The MSR IA32_MTRR_PHYSMASK0; range `i` has its mask at `0x201 + 2 * i`.
pub const MSR_IA32_MTRR_PHYSMASK0: u32 = 0x201;

/// The memory types that this hypervisor handles.
#[derive(Debug, Clone, Copy, PartialEq, Eq, Structural)]
pub enum MemoryType {
    /// Uncacheable, encoded as 0.
    MemoryTypeUC,
    /// Write-back, encoded as 6.
    MemoryTypeWB,
}

/// The encodings of the memory types that [`MemoryType`] has.
pub open spec fn is_known_memory_type(value: u64) -> bool {
    value == 0 || value == 6
}

impl MemoryType {
    /// The hardware encoding of the type.
    pub open spec fn encoding(self) -> u8 {
        match self {
            MemoryType::MemoryTypeUC => 0,
            MemoryType::MemoryTypeWB => 6,
        }
    }

    /// The type that `value` encodes: 0 is uncacheable, any other value is
    /// taken for write-back (only 6 is accepted by [`MemoryType::from_u8`]).
    pub open spec fn decode(value: u64) -> MemoryType {
        if value == 0 {
            MemoryType::MemoryTypeUC
        } else {
            MemoryType::MemoryTypeWB
        }
    }

    /// Returns the hardware encoding of the type.
    pub fn to_u8(self) -> (r: u8)
        ensures
            r == self.encoding(),
    {
        match self {
            MemoryType::MemoryTypeUC => 0,
            MemoryType::MemoryTypeWB => 6,
        }
    }

    /// Returns the type that `value` encodes; only 0 and 6 are encodings.
    pub fn from_u8(value: u8) -> (r: MemoryType)
        requires
            is_known_memory_type(value as u64),
        ensures
            r.encoding() == value,
            r == MemoryType::decode(value as u64),
    {
        match value {
            0 => MemoryType::MemoryTypeUC,
            _ => MemoryType::MemoryTypeWB,
        }
    }
}

/// A range of physical memory with one memory type.
#[derive(Debug, Clone, Copy)]
pub struct MtrrRange {
    pub addr: u64,
    pub size: u32,
    pub kind: MemoryType,
}

/// The range ends inside the 64-bit address space.
pub open spec fn range_fits(r: MtrrRange) -> bool {
    r.addr + r.size <= u64::MAX
}

/// Every range of `ranges` ends inside the 64-bit address space.
pub open spec fn ranges_fit(ranges: Seq<MtrrRange>) -> bool {
    forall|i: int| 0 <= i < ranges.len() ==> range_fits(#[trigger] ranges[i])
}

/// The empty uncacheable range at address 0, which fills the unused slots.
pub open spec fn default_range() -> MtrrRange {
    MtrrRange { addr: 0, size: 0, kind: MemoryType::MemoryTypeUC }
}

/// `phys` lies in the range.
pub open spec fn range_contains(r: MtrrRange, phys: u64) -> bool {
    r.addr <= phys && phys < r.addr + r.size
}

impl MtrrRange {
    /// The empty uncacheable range at address 0.
    pub fn default() -> (r: Self)
        ensures
            r.addr == 0,
            r.size == 0,
            r.kind == MemoryType::MemoryTypeUC,
    {
        MtrrRange { addr: 0, size: 0, kind: MemoryType::MemoryTypeUC }
    }

    /// The range of `size` bytes at `addr` with memory type `kind`.
    pub fn new(addr: u64, size: u32, kind: MemoryType) -> (r: Self)
        ensures
            r.addr == addr,
            r.size == size,
            r.kind == kind,
    {
        MtrrRange { addr, size, kind }
    }

    /// The first address past the range.
    pub fn end(&self) -> (r: u64)
        requires
            range_fits(*self),
        ensures
            r == self.addr + self.size,
    {
        self.addr + self.size as u64
    }
}

/// The memory type that `ranges` give `phys`: that of the last range that
/// contains it, or uncacheable (0) where none does.
pub open spec fn memory_type_of(ranges: Seq<MtrrRange>, phys: u64) -> u8
    decreases ranges.len(),
{
    if ranges.len() == 0 {
        0
    } else if range_contains(ranges.last(), phys) {
        ranges.last().kind.encoding()
    } else {
        memory_type_of(ranges.drop_last(), phys)
    }
}

/// Every memory type that the ranges give is uncacheable or write-back.
pub proof fn lemma_memory_type_known(ranges: Seq<MtrrRange>, phys: u64)
    ensures
        is_known_memory_type(memory_type_of(ranges, phys) as u64),
    decreases ranges.len(),
{
    if ranges.len() > 0 {
        lemma_memory_type_known(ranges.drop_last(), phys);
    }
}

/// An address that no range contains is uncacheable.
pub proof fn lemma_memory_type_uncovered(ranges: Seq<MtrrRange>, phys: u64)
    requires
        forall|i: int| 0 <= i < ranges.len() ==> !range_contains(#[trigger] ranges[i], phys),
    ensures
        memory_type_of(ranges, phys) == 0,
    decreases ranges.len(),
{
    if ranges.len() > 0 {
        assert(!range_contains(ranges[ranges.len() - 1], phys));
        assert forall|i: int| 0 <= i < ranges.drop_last().len() implies !range_contains(
            #[trigger] ranges.drop_last()[i],
            phys,
        ) by {
            assert(ranges.drop_last()[i] == ranges[i]);
        }
        lemma_memory_type_uncovered(ranges.drop_last(), phys);
    }
}

/// A range added last decides the type of the addresses that it contains,
/// and leaves that of the others as it was.
pub proof fn lemma_memory_type_push(ranges: Seq<MtrrRange>, r: MtrrRange, phys: u64)
    ensures
        range_contains(r, phys) ==> memory_type_of(ranges.push(r), phys) == r.kind.encoding(),
        !range_contains(r, phys) ==> memory_type_of(ranges.push(r), phys) == memory_type_of(
            ranges,
            phys,
        ),
{
    assert(ranges.push(r).drop_last() =~= ranges);
}

/// The MTRR ranges that were read, and the highest physical address that
/// one of them reaches.
#[derive(Debug, Clone, Copy)]
pub struct MtrrT {
    ranges: [MtrrRange; MTRR_MAX_RANGES],
    ranges_cnt: u32,
    /// the highest physical address that a range reaches
    pub max_phys: u64,
}

#[verifier::ext_equal]
/// What an [`MtrrT`] holds: the ranges recorded so far, in the order in which
/// they were added, and the highest physical address that they reach.
pub struct MtrrState {
    pub ranges: Seq<MtrrRange>,
    pub max_phys: u64,
}

impl View for MtrrT {
    type V = MtrrState;

    closed spec fn view(&self) -> MtrrState {
        MtrrState {
            ranges: self.ranges@.subrange(0, self.ranges_cnt as int),
            max_phys: self.max_phys,
        }
    }
}

impl MtrrT {
    /// All [`MTRR_MAX_RANGES`] slots of the list, the recorded ranges first.
    pub closed spec fn slots(self) -> Seq<MtrrRange> {
        self.ranges@
    }

    /// Well-formedness: at most [`MTRR_MAX_RANGES`] ranges are recorded, and
    /// every slot past them holds the default range.
    pub closed spec fn inv(self) -> bool {
        &&& self.ranges_cnt <= MTRR_MAX_RANGES
        &&& forall|i: int|
            self.ranges_cnt <= i < MTRR_MAX_RANGES ==> #[trigger] self.ranges@[i] == default_range()
    }

    /// What well-formedness says of the slots: the recorded ranges are the
    /// first slots, and each slot past them holds the default range.
    pub proof fn lemma_inv(self)
        requires
            self.inv(),
        ensures
            self.slots().len() == MTRR_MAX_RANGES,
            self@.ranges.len() <= MTRR_MAX_RANGES,
            self@.ranges == self.slots().take(self@.ranges.len() as int),
            forall|i: int|
                self@.ranges.len() <= i < MTRR_MAX_RANGES ==> #[trigger] self.slots()[i]
                    == default_range(),
    {
        assert(self@.ranges =~= self.slots().take(self@.ranges.len() as int));
    }

    /// The highest physical address that a range reaches.
    pub fn max_phys_value(&self) -> (r: u64)
        ensures
            r == self@.max_phys,
    {
        self.max_phys
    }

    /// An empty set of ranges.
    pub fn new() -> (r: Self)
        ensures
            r.inv(),
            r@.ranges == Seq::<MtrrRange>::empty(),
            r@.max_phys == 0,
            r.slots() == Seq::new(MTRR_MAX_RANGES as nat, |i: int| default_range()),
    {
        let r = MtrrT {
            ranges: [MtrrRange::default();MTRR_MAX_RANGES],
            ranges_cnt: 0,
            max_phys: 0,
        };
        assert(r@.ranges =~= Seq::<MtrrRange>::empty());
        assert(r.slots() =~= Seq::new(MTRR_MAX_RANGES as nat, |i: int| default_range()));
        r
    }

    /// Adds a range to the list, without merging it with the ranges already
    /// there. Fails, and changes nothing, when the list is full.
    pub fn add_range(&mut self, r: MtrrRange) -> (res: ErrcType)
        requires
            old(self).inv(),
        ensures
            final(self).inv(),
            final(self)@.max_phys == old(self)@.max_phys,
            old(self)@.ranges.len() >= MTRR_MAX_RANGES ==> {
                &&& res == ErrcType::Failure
                &&& final(self)@.ranges == old(self)@.ranges
                &&& final(self).slots() == old(self).slots()
            },
            old(self)@.ranges.len() < MTRR_MAX_RANGES ==> {
                &&& res == ErrcType::Success
                &&& final(self)@.ranges == old(self)@.ranges.push(r)
                &&& final(self).slots() == old(self).slots().update(
                    old(self)@.ranges.len() as int,
                    r,
                )
            },
    {
        let cnt = self.ranges_cnt as usize;
        if cnt >= MTRR_MAX_RANGES {
            return ErrcType::Failure;
        }
        self.ranges[cnt] = r;
        self.ranges_cnt = self.ranges_cnt + 1;
        assert(self@.ranges =~= old(self)@.ranges.push(r));
        ErrcType::Success
    }

    /// Returns the memory type of the physical address `phys`: that of the
    /// last recorded range that contains it, uncacheable (0) where none does.
    pub fn get_memory_type(&self, phys: u64) -> (r: u8)
        requires
            self.inv(),
            ranges_fit(self@.ranges),
        ensures
            r == memory_type_of(self@.ranges, phys),
    {
        let mut ret: u8 = 0;
        let cnt = self.ranges_cnt;
        for i in 0..cnt
            invariant
                self.inv(),
                ranges_fit(self@.ranges),
                cnt == self.ranges_cnt,
                ret == memory_type_of(self@.ranges.take(i as int), phys),
        {
            let range = self.ranges[i as usize];
            assert(self@.ranges[i as int] == range);
            assert(self@.ranges.take(i + 1).drop_last() =~= self@.ranges.take(i as int));
            assert(self@.ranges.take(i + 1).last() == range);
            if range.addr <= phys && phys < range.end() {
                ret = range.kind.to_u8();
            }
        }
        assert(self@.ranges.take(cnt as int) =~= self@.ranges);
        ret
    }
}

/// The number of variable ranges that the capabilities MSR announces.
pub fn variable_range_count(cap: u64) -> (r: u32)
    ensures
        r == cap & MSR_IA32_MTRR_CAP_VCNT,
        r <= 0xff,
{
    assert(cap & 0xffu64 <= 0xffu64) by (bit_vector);
    (cap & MSR_IA32_MTRR_CAP_VCNT) as u32
}

/// The MSR that holds the base of variable range `i`.
pub fn mtrr_physbase_msr(i: u32) -> (r: u32)
    requires
        MSR_IA32_MTRR_PHYSBASE0 + 2 * i <= u32::MAX,
    ensures
        r == MSR_IA32_MTRR_PHYSBASE0 + 2 * i,
{
    MSR_IA32_MTRR_PHYSBASE0 + (i * 2)
}

/// The MSR that holds the mask of variable range `i`.
pub fn mtrr_physmask_msr(i: u32) -> (r: u32)
    requires
        MSR_IA32_MTRR_PHYSMASK0 + 2 * i <= u32::MAX,
    ensures
        r == MSR_IA32_MTRR_PHYSMASK0 + 2 * i,
{
    MSR_IA32_MTRR_PHYSMASK0 + (i * 2)
}

/// The valid bit (bit 11) of a PHYSMASK register enables its range.
pub open spec fn physmask_valid(physmask: u64) -> bool {
    physmask & 0x800 != 0
}

/// The base address in a PHYSBASE register: all but its low 12 bits.
pub open spec fn physbase_addr(physbase: u64) -> u64 {
    physbase & 0xFFFF_FFFF_FFFF_F000
}

/// The memory type in a PHYSBASE register: its low 8 bits.
pub open spec fn physbase_type(physbase: u64) -> u64 {
    physbase & 0xFF
}

/// The size of the range that a PHYSMASK register describes in a `pas`-bit
/// physical address space: one more than the complement of its mask bits,
/// cut to `pas` bits.
pub open spec fn physmask_size(physmask: u64, pas: u64) -> u64 {
    (((!(physmask & 0xFFFF_FFFF_FFFF_F000)) & low_mask(pas)) + 1) as u64
}

/// Returns true if the valid bit is set in `physmask`, false otherwise.
pub fn physmask_is_valid(physmask: u64) -> (r: bool)
    ensures
        r == physmask_valid(physmask),
{
    let mask: u64 = 0b1000_0000_0000;
    let valid = physmask & mask;
    valid > 0
}

/// Returns the base address portion of `physbase`.
pub fn physbase_to_addr(physbase: u64) -> (r: u64)
    ensures
        r == physbase_addr(physbase),
{
    let mask: u64 = 0xFFFF_FFFF_FFFF_F000;
    physbase & mask
}

/// Returns the size portion of `physmask` in a `pas`-bit physical address
/// space, as the manual defines it.
pub fn physmask_to_size(physmask: u64, pas: u64) -> (r: u64)
    requires
        pas < 64,
    ensures
        r == physmask_size(physmask, pas),
        1 <= r,
{
    let mask: u64 = 0xFFFF_FFFF_FFFF_F000;
    let one: u64 = 1;
    assert((1u64 << pas) >= 1 && (1u64 << pas) - 1 == !(0xffff_ffff_ffff_ffffu64 << pas) && ((!(
    physmask & 0xFFFF_FFFF_FFFF_F000u64)) & !(0xffff_ffff_ffff_ffffu64 << pas))
        < 0xffff_ffff_ffff_ffffu64) by (bit_vector)
        requires
            pas < 64,
    ;
    (!(physmask & mask) & ((one << pas) - one)) + one
}

/// Returns the memory type portion of `physbase`.
pub fn physbase_to_type(physbase: u64) -> (r: u64)
    ensures
        r == physbase_type(physbase),
        r <= 0xff,
{
    let mask: u64 = 0x0000_0000_0000_00FF;
    assert(physbase & 0xffu64 <= 0xffu64) by (bit_vector);
    physbase & mask
}

/// The first address past the range that a register pair describes.
pub open spec fn pair_end(physbase: u64, physmask: u64, pas: u64) -> int {
    physbase_addr(physbase) + physmask_size(physmask, pas)
}

/// The range that a register pair describes, its size cut to 32 bits as
/// [`MtrrRange`] stores it.
pub open spec fn pair_range(physbase: u64, physmask: u64, pas: u64) -> MtrrRange {
    MtrrRange {
        addr: physbase_addr(physbase),
        size: physmask_size(physmask, pas) as u32,
        kind: MemoryType::decode(physbase_type(physbase)),
    }
}

/// A register pair that this hypervisor can take: if it is enabled, its type
/// is uncacheable or write-back and its range ends inside the address space.
pub open spec fn pair_acceptable(physbase: u64, physmask: u64, pas: u64) -> bool {
    physmask_valid(physmask) ==> {
        &&& is_known_memory_type(physbase_type(physbase))
        &&& pair_end(physbase, physmask, pas) <= u64::MAX
    }
}

/// The ranges of the enabled pairs of `msrs` (each a PHYSBASE and PHYSMASK
/// value), in order.
pub open spec fn variable_ranges(msrs: Seq<(u64, u64)>, pas: u64) -> Seq<MtrrRange>
    decreases msrs.len(),
{
    if msrs.len() == 0 {
        Seq::empty()
    } else {
        let prev = variable_ranges(msrs.drop_last(), pas);
        let (b, m) = msrs.last();
        if physmask_valid(m) {
            prev.push(pair_range(b, m, pas))
        } else {
            prev
        }
    }
}

/// The highest end of a range of an enabled pair of `msrs`, 0 where there is
/// none.
pub open spec fn variable_ranges_end(msrs: Seq<(u64, u64)>, pas: u64) -> int
    decreases msrs.len(),
{
    if msrs.len() == 0 {
        0
    } else {
        let prev = variable_ranges_end(msrs.drop_last(), pas);
        let (b, m) = msrs.last();
        if physmask_valid(m) && pair_end(b, m, pas) > prev {
            pair_end(b, m, pas)
        } else {
            prev
        }
    }
}

/// Whether all ranges of `msrs` fit into `old` next to those it holds.
pub open spec fn variable_ranges_fit(old: MtrrState, msrs: Seq<(u64, u64)>, pas: u64) -> bool {
    old.ranges.len() + variable_ranges(msrs, pas).len() <= MTRR_MAX_RANGES
}

/// The state after reading the variable ranges `msrs` into `old`: where they
/// all fit, they are appended and the highest end is recorded; otherwise the
/// list is filled up with the first of them and the recorded end is kept.
pub open spec fn with_variable_ranges(old: MtrrState, msrs: Seq<(u64, u64)>, pas: u64) -> MtrrState {
    let all = old.ranges + variable_ranges(msrs, pas);
    if variable_ranges_fit(old, msrs, pas) {
        MtrrState { ranges: all, max_phys: variable_ranges_end(msrs, pas) as u64 }
    } else {
        MtrrState { ranges: all.take(MTRR_MAX_RANGES as int), max_phys: old.max_phys }
    }
}

/// The recorded end is at least the end of every enabled pair.
pub proof fn lemma_variable_ranges_end_bounds(msrs: Seq<(u64, u64)>, pas: u64, i: int)
    requires
        0 <= i < msrs.len(),
        physmask_valid(msrs[i].1),
    ensures
        pair_end(msrs[i].0, msrs[i].1, pas) <= variable_ranges_end(msrs, pas),
    decreases msrs.len(),
{
    if i < msrs.len() - 1 {
        assert(msrs.drop_last()[i] == msrs[i]);
        lemma_variable_ranges_end_bounds(msrs.drop_last(), pas, i);
    }
}

/// The status of reading the variable ranges `msrs` into `old`: success
/// exactly when all of them fit.
pub open spec fn variable_ranges_status(old: MtrrState, msrs: Seq<(u64, u64)>, pas: u64) -> ErrcType {
    if variable_ranges_fit(old, msrs, pas) {
        ErrcType::Success
    } else {
        ErrcType::Failure
    }
}

/// The pairs of `msrs` that reading them into `old` decodes can be taken:
/// those up to and including the enabled pair that finds the list full.
/// Pairs after that one are never read.
pub open spec fn read_pairs_acceptable(old: MtrrState, msrs: Seq<(u64, u64)>, pas: u64) -> bool {
    forall|i: int|
        0 <= i < msrs.len() && old.ranges.len() + variable_ranges(msrs.take(i), pas).len()
            <= MTRR_MAX_RANGES ==> pair_acceptable(#[trigger] msrs[i].0, msrs[i].1, pas)
}

/// A register pair is taken exactly when it is disabled (bit 11 of the mask
/// clear), or when its type (the low byte of the base) is 0 or 6 and its
/// range, from the base address to base plus size, ends inside the 64-bit
/// address space, whatever its size.
pub proof fn lemma_pair_acceptable(physbase: u64, physmask: u64, pas: u64)
    ensures
        pair_acceptable(physbase, physmask, pas) == (physmask & 0x800 == 0 || ((physbase & 0xff
            == 0 || physbase & 0xff == 6) && (physbase & 0xFFFF_FFFF_FFFF_F000) + physmask_size(
            physmask,
            pas,
        ) <= u64::MAX)),
{
}

/// Whether the register pair can be taken, see [`pair_acceptable`].
pub fn pair_is_acceptable(physbase: u64, physmask: u64, pas: u64) -> (b: bool)
    requires
        pas < 64,
    ensures
        b == pair_acceptable(physbase, physmask, pas),
        b == (physmask & 0x800 == 0 || ((physbase & 0xff == 0 || physbase & 0xff == 6) && (
        physbase & 0xFFFF_FFFF_FFFF_F000) + physmask_size(physmask, pas) <= u64::MAX)),
{
    proof {
        lemma_pair_acceptable(physbase, physmask, pas);
    }
    if !physmask_is_valid(physmask) {
        return true;
    }
    let kind = physbase_to_type(physbase);
    let addr = physbase_to_addr(physbase);
    let size = physmask_to_size(physmask, pas);
    (kind == 0 || kind == 6) && addr <= u64::MAX - size
}

/// The ranges of the first `j` pairs come first among those of all pairs.
proof fn lemma_variable_ranges_prefix(msrs: Seq<(u64, u64)>, pas: u64, j: int)
    requires
        0 <= j <= msrs.len(),
    ensures
        variable_ranges(msrs.take(j), pas).len() <= variable_ranges(msrs, pas).len(),
        variable_ranges(msrs, pas).take(variable_ranges(msrs.take(j), pas).len() as int)
            == variable_ranges(msrs.take(j), pas),
    decreases msrs.len(),
{
    if j == msrs.len() {
        assert(msrs.take(j) =~= msrs);
        assert(variable_ranges(msrs, pas).take(variable_ranges(msrs, pas).len() as int)
            =~= variable_ranges(msrs, pas));
    } else {
        lemma_variable_ranges_prefix(msrs.drop_last(), pas, j);
        assert(msrs.drop_last().take(j) =~= msrs.take(j));
        let k = variable_ranges(msrs.take(j), pas).len() as int;
        let prev = variable_ranges(msrs.drop_last(), pas);
        let (b, m) = msrs.last();
        if physmask_valid(m) {
            assert(prev.push(pair_range(b, m, pas)).take(k) =~= prev.take(k));
        }
    }
}

/// One more pair extends the ranges and their end by that pair alone.
proof fn lemma_variable_ranges_step(msrs: Seq<(u64, u64)>, pas: u64, i: int)
    requires
        0 <= i < msrs.len(),
    ensures
        variable_ranges(msrs.take(i + 1), pas) == (if physmask_valid(msrs[i].1) {
            variable_ranges(msrs.take(i), pas).push(pair_range(msrs[i].0, msrs[i].1, pas))
        } else {
            variable_ranges(msrs.take(i), pas)
        }),
        variable_ranges_end(msrs.take(i + 1), pas) == (if physmask_valid(msrs[i].1)
            && pair_end(msrs[i].0, msrs[i].1, pas) > variable_ranges_end(msrs.take(i), pas) {
            pair_end(msrs[i].0, msrs[i].1, pas)
        } else {
            variable_ranges_end(msrs.take(i), pas)
        }),
{
    assert(msrs.take(i + 1).drop_last() =~= msrs.take(i));
}

impl MtrrT {
    /// Whether the pair after `read` is read when the pairs `read` have been
    /// read into this list: it is, as long as the enabled pairs among `read`
    /// have not overfilled the list. The pair that finds the list full is the
    /// last one read.
    pub fn reads_next_pair(&self, read: &[(u64, u64)], phys_bits: u32) -> (b: bool)
        requires
            self.inv(),
        ensures
            b == (self@.ranges.len() + variable_ranges(read@, phys_bits as u64).len()
                <= MTRR_MAX_RANGES),
    {
        let ghost pas = phys_bits as u64;
        let mut enabled: u64 = 0;
        let n = read.len();
        for i in 0..n
            invariant
                n == read@.len(),
                pas == phys_bits as u64,
                enabled == variable_ranges(read@.take(i as int), pas).len(),
                enabled <= i,
        {
            proof {
                lemma_variable_ranges_step(read@, pas, i as int);
            }
            let (_, phys_mask) = read[i];
            if physmask_is_valid(phys_mask) {
                enabled = enabled + 1;
            }
        }
        proof {
            assert(read@.take(n as int) =~= read@);
        }
        enabled <= MTRR_MAX_RANGES as u64 - self.ranges_cnt as u64
    }

    /// Whether every recorded range ends inside the 64-bit address space.
    pub fn all_ranges_fit(&self) -> (b: bool)
        requires
            self.inv(),
        ensures
            b == ranges_fit(self@.ranges),
    {
        let cnt = self.ranges_cnt;
        for i in 0..cnt
            invariant
                self.inv(),
                cnt == self.ranges_cnt,
                ranges_fit(self@.ranges.take(i as int)),
        {
            let range = self.ranges[i as usize];
            assert(self@.ranges[i as int] == range);
            if range.addr > u64::MAX - range.size as u64 {
                assert(!range_fits(self@.ranges[i as int]));
                return false;
            }
            assert(self@.ranges.take(i + 1) =~= self@.ranges.take(i as int).push(range));
        }
        assert(self@.ranges.take(cnt as int) =~= self@.ranges);
        true
    }

    /// Reads the variable ranges: `msrs[i]` holds the PHYSBASE and PHYSMASK
    /// values of range `i`, and `phys_bits` is the width of physical
    /// addresses. Each enabled range is added in turn; once the list is full
    /// the reading stops and fails. When all ranges were added, the highest
    /// address that one of them reaches becomes `max_phys`. Each added range
    /// ends inside the address space.
    #[verifier::spinoff_prover]
    pub fn build_vcnt_ranges(&mut self, phys_bits: u32, msrs: &[(u64, u64)]) -> (res: ErrcType)
        requires
            old(self).inv(),
            phys_bits < 64,
            read_pairs_acceptable(old(self)@, msrs@, phys_bits as u64),
        ensures
            final(self).inv(),
            final(self)@ == with_variable_ranges(old(self)@, msrs@, phys_bits as u64),
            res == variable_ranges_status(old(self)@, msrs@, phys_bits as u64),
            ranges_fit(old(self)@.ranges) ==> ranges_fit(final(self)@.ranges),
    {
        let ghost pas = phys_bits as u64;
        let ghost s = msrs@;
        let pas_bits = phys_bits as u64;
        let mut max_phys: u64 = 0;
        let n = msrs.len();
        for i in 0..n
            invariant
                n == msrs@.len(),
                s == msrs@,
                pas == pas_bits,
                pas == phys_bits as u64,
                pas < 64,
                read_pairs_acceptable(old(self)@, s, pas),
                self.inv(),
                ranges_fit(old(self)@.ranges) ==> ranges_fit(self@.ranges),
                self@.ranges == old(self)@.ranges + variable_ranges(s.take(i as int), pas),
                self@.ranges.len() <= MTRR_MAX_RANGES,
                self@.max_phys == old(self)@.max_phys,
                max_phys == variable_ranges_end(s.take(i as int), pas),
        {
            let (phys_base, phys_mask) = msrs[i];
            proof {
                lemma_variable_ranges_step(s, pas, i as int);
            }
            if physmask_is_valid(phys_mask) {
                assert(pair_acceptable(s[i as int].0, s[i as int].1, pas));
                let addr = physbase_to_addr(phys_base);
                let size = physmask_to_size(phys_mask, pas_bits);
                let kind = physbase_to_type(phys_base);
                let kind = MemoryType::from_u8(kind as u8);
                let end = addr + size;
                if end > max_phys {
                    max_phys = end;
                }
                assert((size as u32) as u64 <= size) by (bit_vector);
                let ret = self.add_range(MtrrRange::new(addr, #[verifier::truncate] (size as u32), kind));
                if !ret.success() {
                    proof {
                        lemma_variable_ranges_prefix(s, pas, i as int);
                        lemma_variable_ranges_prefix(s, pas, i + 1);
                        let all = old(self)@.ranges + variable_ranges(s, pas);
                        let k = variable_ranges(s.take(i as int), pas).len() as int;
                        assert(all.take(MTRR_MAX_RANGES as int) =~= old(self)@.ranges
                            + variable_ranges(s, pas).take(k));
                    }
                    return ErrcType::Failure;
                }
            }
        }
        proof {
            assert(s.take(n as int) =~= s);
        }
        self.max_phys = max_phys;
        assert(self@ =~= with_variable_ranges(old(self)@, msrs@, phys_bits as u64));
        ErrcType::Success
    }

    /// Reads the MTRRs; so far only the variable ranges are read. Leaves the
    /// state that [`MtrrT::build_vcnt_ranges`] leaves and reports its status:
    /// a failure when the ranges did not all find room.
    pub fn initialize(&mut self, phys_bits: u32, msrs: &[(u64, u64)]) -> (res: ErrcType)
        requires
            old(self).inv(),
            phys_bits < 64,
            read_pairs_acceptable(old(self)@, msrs@, phys_bits as u64),
        ensures
            final(self).inv(),
            final(self)@ == with_variable_ranges(old(self)@, msrs@, phys_bits as u64),
            res == variable_ranges_status(old(self)@, msrs@, phys_bits as u64),
            ranges_fit(old(self)@.ranges) ==> ranges_fit(final(self)@.ranges),
    {
        self.build_vcnt_ranges(phys_bits, msrs)
    }

    /// The number of ranges recorded.
    pub fn range_count(&self) -> (r: u32)
        requires
            self.inv(),
        ensures
            r == self@.ranges.len(),
    {
        self.ranges_cnt
    }
}

} // verus!

//! Initialising the global storage and building the identity EPT map: the
//! decisions between the allocations and MSR reads that the hypervisor
//! performs.

use vstd::prelude::*;
use crate::errc::ErrcType;
use crate::mtrr::{memory_type_of, ranges_fit, MtrrT};

verus! {

/// Where the initialisation of the global storage stands.
#[derive(Debug, Clone, Copy, PartialEq, Eq, Structural)]
pub enum GsInitStep {
    /// Allocate the MSR bitmap page.
    AllocMsrBitmap,
    /// Read the MTRRs.
    InitMtrr,
    /// Allocate the EPT's PML4.
    AllocEpt,
    /// Finished, with this status.
    Done(ErrcType),
}

/// The step after `step`, whose work succeeded exactly when `ok`: a failed
/// step ends the initialisation with a failure, a successful one leads to
/// the next, and the last one to success.
pub open spec fn gs_init_next(step: GsInitStep, ok: bool) -> GsInitStep {
    if !ok {
        GsInitStep::Done(ErrcType::Failure)
    } else {
        match step {
            GsInitStep::AllocMsrBitmap => GsInitStep::InitMtrr,
            GsInitStep::InitMtrr => GsInitStep::AllocEpt,
            GsInitStep::AllocEpt => GsInitStep::Done(ErrcType::Success),
            GsInitStep::Done(e) => GsInitStep::Done(e),
        }
    }
}

/// The first step of initialising the global storage.
pub fn gs_initialize_start() -> (s: GsInitStep)
    ensures
        s == GsInitStep::AllocMsrBitmap,
{
    GsInitStep::AllocMsrBitmap
}

/// The global storage of the extension: the MSR bitmap page, the MTRRs and
/// the EPT's PML4, each allocation as its virtual and physical address.
pub struct GsT {
    pub msr_bitmap: usize,
    pub msr_bitmap_phys: u64,
    pub mtrr: MtrrT,
    pub ept: usize,
    pub ept_phys: u64,
}

impl GsT {
    /// Global storage with nothing allocated and no MTRR range read.
    pub fn new() -> (r: Self)
        ensures
            r.msr_bitmap == 0,
            r.msr_bitmap_phys == 0,
            r.mtrr.inv(),
            r.mtrr@.ranges == Seq::<crate::mtrr::MtrrRange>::empty(),
            r.mtrr@.max_phys == 0,
            r.ept == 0,
            r.ept_phys == 0,
    {
        GsT { msr_bitmap: 0, msr_bitmap_phys: 0, mtrr: MtrrT::new(), ept: 0, ept_phys: 0 }
    }
}

/// What the work of an initialisation step gave.
#[derive(Debug, Clone, Copy, PartialEq, Eq, Structural)]
pub enum GsInitEvent {
    /// An allocation gave memory at `virt` (0 when it failed) and `phys`.
    Allocated { virt: usize, phys: u64 },
    /// Reading the MTRRs reported this status.
    MtrrRead(ErrcType),
}

/// The event that the work of `step` gives.
pub open spec fn gs_event_fits(step: GsInitStep, event: GsInitEvent) -> bool {
    match step {
        GsInitStep::AllocMsrBitmap => event is Allocated,
        GsInitStep::InitMtrr => event is MtrrRead,
        GsInitStep::AllocEpt => event is Allocated,
        GsInitStep::Done(_) => false,
    }
}

/// Whether the work that gave `event` succeeded: an allocation that is not
/// null, or a successful read of the MTRRs.
pub open spec fn gs_event_ok(event: GsInitEvent) -> bool {
    match event {
        GsInitEvent::Allocated { virt, .. } => virt != 0,
        GsInitEvent::MtrrRead(e) => e == ErrcType::Success,
    }
}

/// An allocation step succeeds exactly when the allocation is not null,
/// wherever in physical memory it lies: a null allocation ends the
/// initialisation with a failure, the MSR bitmap leads on to the MTRRs, and
/// the EPT ends it with success. Reading the MTRRs leads on to the EPT exactly
/// when it succeeded.
pub proof fn lemma_gs_step_outcomes(step: GsInitStep, event: GsInitEvent)
    requires
        gs_event_fits(step, event),
    ensures
        event matches GsInitEvent::Allocated { virt, .. } ==> {
            &&& virt == 0 ==> gs_init_next(step, gs_event_ok(event)) == GsInitStep::Done(
                ErrcType::Failure,
            )
            &&& virt != 0 && step is AllocMsrBitmap ==> gs_init_next(step, gs_event_ok(event))
                == GsInitStep::InitMtrr
            &&& virt != 0 && step is AllocEpt ==> gs_init_next(step, gs_event_ok(event))
                == GsInitStep::Done(ErrcType::Success)
        },
        event matches GsInitEvent::MtrrRead(e) ==> gs_init_next(step, gs_event_ok(event)) == (if e
            == ErrcType::Success {
            GsInitStep::AllocEpt
        } else {
            GsInitStep::Done(ErrcType::Failure)
        }),
{
}

/// Records what the work of `step` gave in `gs` (an allocation's addresses
/// in the fields of the MSR bitmap or of the EPT, null or not) and decides
/// the step after it.
pub fn gs_initialize_step(gs: &mut GsT, step: GsInitStep, event: GsInitEvent) -> (s: GsInitStep)
    requires
        gs_event_fits(step, event),
    ensures
        s == gs_init_next(step, gs_event_ok(event)),
        step is AllocMsrBitmap ==> *final(gs) == (GsT {
            msr_bitmap: event->virt,
            msr_bitmap_phys: event->phys,
            ..*old(gs)
        }),
        step is AllocEpt ==> *final(gs) == (GsT { ept: event->virt, ept_phys: event->phys, ..*old(gs) }),
        step is InitMtrr ==> *final(gs) == *old(gs),
        event matches GsInitEvent::Allocated { virt, .. } ==> {
            &&& virt == 0 ==> s == GsInitStep::Done(ErrcType::Failure)
            &&& virt != 0 && step is AllocMsrBitmap ==> s == GsInitStep::InitMtrr
            &&& virt != 0 && step is AllocEpt ==> s == GsInitStep::Done(ErrcType::Success)
        },
        event matches GsInitEvent::MtrrRead(e) ==> s == (if e == ErrcType::Success {
            GsInitStep::AllocEpt
        } else {
            GsInitStep::Done(ErrcType::Failure)
        }),
{
    proof {
        lemma_gs_step_outcomes(step, event);
    }
    let ok = match event {
        GsInitEvent::Allocated { virt, phys } => {
            match step {
                GsInitStep::AllocMsrBitmap => {
                    gs.msr_bitmap = virt;
                    gs.msr_bitmap_phys = phys;
                },
                _ => {
                    gs.ept = virt;
                    gs.ept_phys = phys;
                },
            }
            virt != 0
        },
        GsInitEvent::MtrrRead(e) => e.success(),
    };
    if !ok {
        return GsInitStep::Done(ErrcType::Failure);
    }
    match step {
        GsInitStep::AllocMsrBitmap => GsInitStep::InitMtrr,
        GsInitStep::InitMtrr => GsInitStep::AllocEpt,
        GsInitStep::AllocEpt => GsInitStep::Done(ErrcType::Success),
        GsInitStep::Done(e) => GsInitStep::Done(e),
    }
}

/// The initialisation succeeds exactly when the three steps all succeed, and
/// it stops at the first one that fails.
pub proof fn lemma_gs_initialize_outcome(a: bool, b: bool, c: bool)
    ensures
        ({
            let s1 = gs_init_next(GsInitStep::AllocMsrBitmap, a);
            let s2 = if s1 is Done { s1 } else { gs_init_next(s1, b) };
            let s3 = if s2 is Done { s2 } else { gs_init_next(s2, c) };
            &&& s3 is Done
            &&& (s3 == GsInitStep::Done(ErrcType::Success) <==> a && b && c)
        }),
{
}

/// Size of the step between two addresses that the EPT map visits: 4 KBytes.
pub const EPT_MAP_STEP: u64 = 0x1000;

/// What the EPT map does at `cursor`: map the 2-MByte page there with the
/// memory type that the MTRRs give it while `cursor` is below the highest
/// address that an MTRR range reaches, finish otherwise.
pub fn build_ept_map_step(mtrr: &MtrrT, cursor: u64) -> (r: Option<u8>)
    requires
        mtrr.inv(),
        ranges_fit(mtrr@.ranges),
    ensures
        cursor < mtrr@.max_phys ==> r == Some(memory_type_of(mtrr@.ranges, cursor)),
        cursor >= mtrr@.max_phys ==> r is None,
{
    if cursor < mtrr.max_phys_value() {
        Some(mtrr.get_memory_type(cursor))
    } else {
        None
    }
}

/// The address that the EPT map visits after `cursor`, `None` where it would
/// leave the 64-bit address space.
pub fn build_ept_map_next(cursor: u64) -> (r: Option<u64>)
    ensures
        cursor + EPT_MAP_STEP <= u64::MAX ==> r == Some((cursor + EPT_MAP_STEP) as u64),
        cursor + EPT_MAP_STEP > u64::MAX ==> r is None,
{
    cursor.checked_add(EPT_MAP_STEP)
}

/// The walk of the EPT map visits `k * EPT_MAP_STEP` for `k = 0, 1, ...`
/// while that is below `max_phys`. Every address below `max_phys` lies in the
/// 4-KByte step that starts at a visited cursor: the walk reaches that cursor,
/// since every earlier cursor is below `max_phys` and stepping from it stays
/// inside the 64-bit address space.
pub proof fn lemma_ept_map_covers(max_phys: u64, a: u64)
    requires
        a < max_phys,
    ensures
        ({
            let k = a / EPT_MAP_STEP;
            &&& k * EPT_MAP_STEP <= a < k * EPT_MAP_STEP + EPT_MAP_STEP
            &&& forall|j: int| 0 <= j <= k ==> #[trigger] (j * EPT_MAP_STEP) < max_phys
            &&& forall|j: int| 0 <= j < k ==> #[trigger] (j * EPT_MAP_STEP) + EPT_MAP_STEP <= u64::MAX
        }),
{
    let k = a / EPT_MAP_STEP;
    assert(k * EPT_MAP_STEP <= a < k * EPT_MAP_STEP + EPT_MAP_STEP) by (nonlinear_arith)
        requires
            k == a / 0x1000,
    ;
    assert forall|j: int| 0 <= j <= k implies #[trigger] (j * EPT_MAP_STEP) < max_phys by {
        assert(j * 0x1000 <= k * 0x1000) by (nonlinear_arith)
            requires
                0 <= j <= k,
        ;
    }
    assert forall|j: int| 0 <= j < k implies #[trigger] (j * EPT_MAP_STEP) + EPT_MAP_STEP
        <= u64::MAX by {
        assert(j * 0x1000 + 0x1000 <= k * 0x1000) by (nonlinear_arith)
            requires
                0 <= j < k,
        ;
    }
}

} // verus!

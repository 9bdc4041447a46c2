//! Dispatching a VM exit to its handler by the exit reason.

use vstd::prelude::*;
use crate::errc::ErrcType;

verus! {

/// Exit reason of a non-maskable interrupt.
pub const EXIT_REASON_NMI: u64 = 0x0;

/// Exit reason of an NMI window.
pub const EXIT_REASON_NMI_WINDOW: u64 = 0x8;

/// Exit reason of the CPUID instruction.
pub const EXIT_REASON_CPUID: u64 = 0xA;

/// Exit reason of an EPT violation.
pub const EXIT_REASON_EPT_VIOLATION: u64 = 48;

/// Exit reason of an EPT misconfiguration.
pub const EXIT_REASON_EPT_MISCONFIG: u64 = 49;

/// The handler that a VM exit goes to.
#[derive(Debug, Clone, Copy, PartialEq, Eq, Structural)]
pub enum VmExitHandler {
    Nmi,
    NmiWindow,
    Cpuid,
    EptViolation,
    EptMisconfig,
    /// No handler: the exit is reported and the dispatch fails.
    Unsupported,
}

/// The handler for `exit_reason`.
pub open spec fn exit_handler(exit_reason: u64) -> VmExitHandler {
    if exit_reason == EXIT_REASON_NMI {
        VmExitHandler::Nmi
    } else if exit_reason == EXIT_REASON_NMI_WINDOW {
        VmExitHandler::NmiWindow
    } else if exit_reason == EXIT_REASON_CPUID {
        VmExitHandler::Cpuid
    } else if exit_reason == EXIT_REASON_EPT_VIOLATION {
        VmExitHandler::EptViolation
    } else if exit_reason == EXIT_REASON_EPT_MISCONFIG {
        VmExitHandler::EptMisconfig
    } else {
        VmExitHandler::Unsupported
    }
}

/// Each of the five handled exit reasons (NMI 0x0, NMI window 0x8, CPUID 0xA,
/// EPT violation 48, EPT misconfiguration 49) goes to its own handler, and
/// every other reason gets none.
pub proof fn lemma_exit_handlers(exit_reason: u64)
    ensures
        exit_reason == 0x0 ==> exit_handler(exit_reason) == VmExitHandler::Nmi,
        exit_reason == 0x8 ==> exit_handler(exit_reason) == VmExitHandler::NmiWindow,
        exit_reason == 0xA ==> exit_handler(exit_reason) == VmExitHandler::Cpuid,
        exit_reason == 48 ==> exit_handler(exit_reason) == VmExitHandler::EptViolation,
        exit_reason == 49 ==> exit_handler(exit_reason) == VmExitHandler::EptMisconfig,
        exit_reason != 0x0 && exit_reason != 0x8 && exit_reason != 0xA && exit_reason != 48
            && exit_reason != 49 ==> exit_handler(exit_reason) == VmExitHandler::Unsupported,
{
}

/// Chooses the handler of a VM exit by its exit reason.
pub fn dispatch_vmexit(exit_reason: u64) -> (h: VmExitHandler)
    ensures
        h == exit_handler(exit_reason),
        exit_reason == 0x0 ==> h == VmExitHandler::Nmi,
        exit_reason == 0x8 ==> h == VmExitHandler::NmiWindow,
        exit_reason == 0xA ==> h == VmExitHandler::Cpuid,
        exit_reason == 48 ==> h == VmExitHandler::EptViolation,
        exit_reason == 49 ==> h == VmExitHandler::EptMisconfig,
        exit_reason != 0x0 && exit_reason != 0x8 && exit_reason != 0xA && exit_reason != 48
            && exit_reason != 49 ==> h == VmExitHandler::Unsupported,
{
    proof {
        lemma_exit_handlers(exit_reason);
    }
    match exit_reason {
        EXIT_REASON_NMI => VmExitHandler::Nmi,
        EXIT_REASON_NMI_WINDOW => VmExitHandler::NmiWindow,
        EXIT_REASON_CPUID => VmExitHandler::Cpuid,
        EXIT_REASON_EPT_VIOLATION => VmExitHandler::EptViolation,
        EXIT_REASON_EPT_MISCONFIG => VmExitHandler::EptMisconfig,
        _ => VmExitHandler::Unsupported,
    }
}

/// Handles an EPT violation of the VS `vsid`: nothing is done, and the exit
/// is reported handled.
pub fn dispatch_vmexit_ept_violation(vsid: u16) -> (r: ErrcType)
    ensures
        r == ErrcType::Success,
{
    ErrcType::Success
}

/// Handles an EPT misconfiguration of the VS `vsid`: nothing is done, and
/// the exit is reported handled.
pub fn dispatch_vmexit_ept_misconfig(vsid: u16) -> (r: ErrcType)
    ensures
        r == ErrcType::Success,
{
    ErrcType::Success
}

} // verus!

//! What can go wrong, and how much of the process each failure takes with
//! it.

use vstd::prelude::*;

verus! {

/// The places where the viewer can fail.
#[derive(Clone, Copy, PartialEq, Eq, Debug, Structural)]
pub enum Failure {
    /// The window or the device could not be created.
    DeviceInit,
    /// The shader file could not be put under watch.
    WatchSetup,
    /// The shader did not load when the process started.
    InitialLoad,
    /// The shader did not load after the file changed.
    Reload,
    /// The watch reported an error while the loop was running.
    WatchFault,
    /// A frame could not be drawn or presented.
    Present,
    /// A reload signal could not be passed on because the render loop had
    /// already ended.
    SignalForward,
}

/// How far a failure reaches.
#[derive(Clone, Copy, PartialEq, Eq, Debug, Structural)]
pub enum Severity {
    /// The process ends at once with a diagnostic: there is no state to fall
    /// back on.
    Fatal,
    /// The failure is reported and stays within the turn of the loop that
    /// met it; the picture on screen stays as it is.
    Recoverable,
    /// The failure is logged and changes nothing, not even the exit status.
    BestEffort,
}

/// The severity of each failure.
pub open spec fn severity_of(failure: Failure) -> Severity {
    match failure {
        Failure::DeviceInit | Failure::WatchSetup | Failure::InitialLoad | Failure::Present =>
            Severity::Fatal,
        Failure::Reload | Failure::WatchFault => Severity::Recoverable,
        Failure::SignalForward => Severity::BestEffort,
    }
}

/// Classifies a failure.
pub fn severity(failure: Failure) -> (severity: Severity)
    ensures
        severity == severity_of(failure),
{
    match failure {
        Failure::DeviceInit | Failure::WatchSetup | Failure::InitialLoad | Failure::Present =>
            Severity::Fatal,
        Failure::Reload | Failure::WatchFault => Severity::Recoverable,
        Failure::SignalForward => Severity::BestEffort,
    }
}

/// Whether the process has to end on this failure. It has to when the device,
/// the watch or the first load fails, or a frame cannot be presented, and in
/// no other case.
pub fn ends_process(failure: Failure) -> (fatal: bool)
    ensures
        fatal == (severity_of(failure) == Severity::Fatal),
        fatal == (failure == Failure::DeviceInit || failure == Failure::WatchSetup || failure
            == Failure::InitialLoad || failure == Failure::Present),
{
    match severity(failure) {
        Severity::Fatal => true,
        _ => false,
    }
}

} // verus!

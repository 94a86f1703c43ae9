//! What a background operation reports back to the controller. An
//! operation runs beside the driving loop and speaks to it only through
//! the states it sends; these are the states, step by step.

use vstd::prelude::*;
use vstd::string::*;
use crate::flasher::FlashError;
use crate::model::{AppState, AppStateView, DiskError, DiskErrorView, FileSystemType};
use crate::disk_ops::verdict_view;
use crate::flasher::{flash_outcome_view, FlashErrorView};

verus! {

/// The report of an unmount that has ended.
pub open spec fn unmount_report_view(path: Seq<char>, outcome: Result<(), DiskErrorView>)
    -> AppStateView {
    match outcome {
        Ok(_) => AppStateView::Success("Unmounted "@ + path),
        Err(e) => AppStateView::Error(e.message()),
    }
}

/// The report of a format that has ended.
pub open spec fn format_report_view(
    path: Seq<char>,
    fs_type: FileSystemType,
    outcome: Result<(), DiskErrorView>,
) -> AppStateView {
    match outcome {
        Ok(_) => AppStateView::Success("Formatted "@ + path + " as "@ + fs_type.display_text()),
        Err(e) => AppStateView::Error(e.message()),
    }
}

/// The report of the unmount that precedes a flash: a failure ends the
/// flash, a success announces the write.
pub open spec fn flash_unmounted_view(iso_name: Seq<char>, outcome: Result<(), DiskErrorView>)
    -> AppStateView {
    match outcome {
        Ok(_) => AppStateView::InProgress("Flashing "@ + iso_name + "..."@),
        Err(e) => AppStateView::Error("Failed to unmount: "@ + e.message()),
    }
}

/// The report of the write: a failure ends the flash with the pipeline's
/// error, a success announces the eject.
pub open spec fn flash_written_view(outcome: Result<(), FlashErrorView>) -> AppStateView {
    match outcome {
        Ok(_) => AppStateView::InProgress("Ejecting device..."@),
        Err(e) => AppStateView::Error(e.message()),
    }
}

/// The report of the eject that follows a flash. The image is on the
/// device by then, so a failed eject is a success with a remark.
pub open spec fn flash_ejected_view(outcome: Result<(), DiskErrorView>) -> AppStateView {
    match outcome {
        Ok(_) => AppStateView::Success("Flash complete! Device ejected safely."@),
        Err(e) => AppStateView::Success("Flash complete, but eject failed: "@ + e.message()),
    }
}

/// What an unmount reports when it has ended.
pub fn unmount_report(path: &str, outcome: Result<(), DiskError>) -> (report: AppState)
    ensures
        report@ == unmount_report_view(path@, verdict_view(outcome)),
{
    match outcome {
        Ok(_) => AppState::Success(String::from_str("Unmounted ").concat(path)),
        Err(e) => AppState::Error(e.message()),
    }
}

/// What a format reports when it has ended.
pub fn format_report(path: &str, fs_type: FileSystemType, outcome: Result<(), DiskError>) -> (report:
    AppState)
    ensures
        report@ == format_report_view(path@, fs_type, verdict_view(outcome)),
{
    match outcome {
        Ok(_) => AppState::Success(
            String::from_str("Formatted ").concat(path).concat(" as ").concat(
                fs_type.display_name(),
            ),
        ),
        Err(e) => AppState::Error(e.message()),
    }
}

/// What a flash reports first: the device is unmounted before anything is
/// written to it.
pub fn flash_started(path: &str) -> (report: AppState)
    ensures
        report@ == AppStateView::InProgress("Unmounting "@ + path@ + "..."@),
{
    AppState::InProgress(String::from_str("Unmounting ").concat(path).concat("..."))
}

/// One step of a flash: what it reports, and whether the flash goes on to
/// its next step.
#[derive(Debug, Clone, PartialEq, Eq)]
pub struct Step {
    pub report: AppState,
    pub proceed: bool,
}

/// What a flash reports when its unmount has ended. Only after a
/// successful unmount is anything written.
pub fn flash_unmounted(iso_name: &str, outcome: Result<(), DiskError>) -> (step: Step)
    ensures
        step.report@ == flash_unmounted_view(iso_name@, verdict_view(outcome)),
        step.proceed == outcome is Ok,
{
    match outcome {
        Ok(_) => Step {
            report: AppState::InProgress(
                String::from_str("Flashing ").concat(iso_name).concat("..."),
            ),
            proceed: true,
        },
        Err(e) => {
            let cause = e.message();
            Step {
                report: AppState::Error(
                    String::from_str("Failed to unmount: ").concat(cause.as_str()),
                ),
                proceed: false,
            }
        },
    }
}

/// What a flash reports when its write has ended. Only after a successful
/// write is the device ejected.
pub fn flash_written(outcome: Result<(), FlashError>) -> (step: Step)
    ensures
        step.report@ == flash_written_view(flash_outcome_view(outcome)),
        step.proceed == outcome is Ok,
{
    match outcome {
        Ok(_) => Step {
            report: AppState::InProgress(String::from_str("Ejecting device...")),
            proceed: true,
        },
        Err(e) => Step { report: AppState::Error(e.message()), proceed: false },
    }
}

/// What a flash reports last, when its eject has ended: always a success.
pub fn flash_ejected(outcome: Result<(), DiskError>) -> (report: AppState)
    ensures
        report@ == flash_ejected_view(verdict_view(outcome)),
        report is Success,
{
    match outcome {
        Ok(_) => AppState::Success(String::from_str("Flash complete! Device ejected safely.")),
        Err(e) => {
            let cause = e.message();
            AppState::Success(
                String::from_str("Flash complete, but eject failed: ").concat(cause.as_str()),
            )
        },
    }
}

} // verus!

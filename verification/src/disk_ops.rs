//! The capability set of a platform's device manager. A manager never runs
//! anything itself: it says which native command performs an operation, and
//! what the command's exit status and error output mean.

use vstd::prelude::*;
use vstd::string::*;
use crate::model::{DiskError, DiskErrorView, FileSystemType};
use crate::text::{contains, str_contains};

verus! {

/// A native command: the program and its arguments, in order.
#[derive(Debug, Clone, PartialEq, Eq)]
pub struct CommandLine {
    pub program: String,
    pub args: Vec<String>,
}

/// A command with its strings as sequences of characters.
pub struct CommandLineView {
    pub program: Seq<char>,
    pub args: Seq<Seq<char>>,
}

impl View for CommandLine {
    type V = CommandLineView;

    open spec fn view(&self) -> CommandLineView {
        CommandLineView { program: self.program@, args: self.args.deep_view() }
    }
}

impl CommandLine {
    /// The command that runs `program` with `args`.
    pub fn new(program: &str, args: Vec<String>) -> (command: CommandLine)
        ensures
            command@ == (CommandLineView { program: program@, args: args.deep_view() }),
    {
        CommandLine { program: String::from_str(program), args }
    }
}

/// What a command left behind: whether it exited with success, and what it
/// wrote to its two output streams.
#[derive(Debug, Clone, PartialEq, Eq)]
pub struct CommandOutput {
    pub success: bool,
    pub stdout: String,
    pub stderr: String,
}

/// A command's output with its strings as sequences of characters.
pub struct CommandOutputView {
    pub success: bool,
    pub stdout: Seq<char>,
    pub stderr: Seq<char>,
}

impl View for CommandOutput {
    type V = CommandOutputView;

    open spec fn view(&self) -> CommandOutputView {
        CommandOutputView { success: self.success, stdout: self.stdout@, stderr: self.stderr@ }
    }
}

/// The view of a run: the command's output, or why it could not be run.
pub open spec fn run_view(ran: Result<CommandOutput, String>) -> Result<
    CommandOutputView,
    Seq<char>,
> {
    match ran {
        Ok(output) => Ok(output@),
        Err(detail) => Err(detail@),
    }
}

/// The view of a plan: the command to run, or why none is run.
pub open spec fn plan_view(plan: Result<CommandLine, DiskError>) -> Result<
    CommandLineView,
    DiskErrorView,
> {
    match plan {
        Ok(command) => Ok(command@),
        Err(e) => Err(e@),
    }
}

/// The view of an operation's verdict.
pub open spec fn verdict_view(verdict: Result<(), DiskError>) -> Result<(), DiskErrorView> {
    match verdict {
        Ok(_) => Ok(()),
        Err(e) => Err(e@),
    }
}

/// The verdict on a command that must simply succeed: a command that could
/// not be run is an I/O error, and one that failed is reported as busy where
/// its error output says so (if `busy_matters`) and with its error output
/// otherwise.
pub open spec fn plain_verdict(ran: Result<CommandOutputView, Seq<char>>, busy_matters: bool)
    -> Result<(), DiskErrorView> {
    match ran {
        Err(detail) => Err(DiskErrorView::IoError(detail)),
        Ok(output) => if output.success {
            Ok(())
        } else if busy_matters && contains(output.stderr, "busy"@) {
            Err(DiskErrorView::DeviceBusy)
        } else {
            Err(DiskErrorView::CommandFailed(output.stderr))
        },
    }
}

/// The verdict on an unmount: as `plain_verdict` with busy devices told
/// apart, but a device that was not mounted in the first place counts as
/// unmounted.
pub open spec fn unmount_verdict(ran: Result<CommandOutputView, Seq<char>>) -> Result<
    (),
    DiskErrorView,
> {
    match ran {
        Err(detail) => Err(DiskErrorView::IoError(detail)),
        Ok(output) => if output.success {
            Ok(())
        } else if contains(output.stderr, "busy"@) {
            Err(DiskErrorView::DeviceBusy)
        } else if contains(output.stderr, "not mounted"@) {
            Ok(())
        } else {
            Err(DiskErrorView::CommandFailed(output.stderr))
        },
    }
}

/// Judges a command that must simply succeed.
pub fn judge_plain(ran: Result<CommandOutput, String>, busy_matters: bool) -> (verdict: Result<
    (),
    DiskError,
>)
    ensures
        verdict_view(verdict) == plain_verdict(run_view(ran), busy_matters),
{
    match ran {
        Err(detail) => Err(DiskError::IoError(detail)),
        Ok(output) => {
            if output.success {
                Ok(())
            } else if busy_matters && str_contains(output.stderr.as_str(), "busy") {
                Err(DiskError::DeviceBusy)
            } else {
                Err(DiskError::CommandFailed(output.stderr))
            }
        },
    }
}

/// Judges an unmount.
pub fn judge_unmount(ran: Result<CommandOutput, String>) -> (verdict: Result<(), DiskError>)
    ensures
        verdict_view(verdict) == unmount_verdict(run_view(ran)),
{
    match ran {
        Err(detail) => Err(DiskError::IoError(detail)),
        Ok(output) => {
            if output.success {
                Ok(())
            } else if str_contains(output.stderr.as_str(), "busy") {
                Err(DiskError::DeviceBusy)
            } else if str_contains(output.stderr.as_str(), "not mounted") {
                Ok(())
            } else {
                Err(DiskError::CommandFailed(output.stderr))
            }
        },
    }
}

/// The operations of a platform's device manager. Each mutating operation
/// comes in two steps: the plan, which needs elevated privileges and names
/// the native command, and the verdict on what running that command gave.
pub trait DiskManager {
    /// The command that lists the block devices in the platform's structured
    /// format.
    spec fn list_plan(&self) -> CommandLineView;

    /// How an unmount of `path` is carried out.
    spec fn unmount_plan(&self, privileged: bool, path: Seq<char>) -> Result<
        CommandLineView,
        DiskErrorView,
    >;

    /// How `path` is ejected.
    spec fn eject_plan(&self, privileged: bool, path: Seq<char>) -> Result<
        CommandLineView,
        DiskErrorView,
    >;

    /// How `path` is formatted as `fs_type` under the name `label`.
    spec fn format_plan(
        &self,
        privileged: bool,
        path: Seq<char>,
        fs_type: FileSystemType,
        label: Seq<char>,
    ) -> Result<CommandLineView, DiskErrorView>;

    fn list_command(&self) -> (command: CommandLine)
        ensures
            command@ == self.list_plan(),
    ;

    /// Plans an unmount. Without elevated privileges nothing is run.
    fn unmount(&self, privileged: bool, path: &str) -> (plan: Result<CommandLine, DiskError>)
        ensures
            plan_view(plan) == self.unmount_plan(privileged, path@),
            !privileged ==> plan_view(plan) == Err::<CommandLineView, DiskErrorView>(
                DiskErrorView::InsufficientPrivileges,
            ),
    ;

    /// The verdict on an unmount that was run: a busy device is reported as
    /// such, and a device that was not mounted counts as unmounted.
    fn unmount_result(&self, ran: Result<CommandOutput, String>) -> (verdict: Result<
        (),
        DiskError,
    >)
        ensures
            verdict_view(verdict) == unmount_verdict(run_view(ran)),
    ;

    /// Plans an eject. Without elevated privileges nothing is run.
    fn eject(&self, privileged: bool, path: &str) -> (plan: Result<CommandLine, DiskError>)
        ensures
            plan_view(plan) == self.eject_plan(privileged, path@),
            !privileged ==> plan_view(plan) == Err::<CommandLineView, DiskErrorView>(
                DiskErrorView::InsufficientPrivileges,
            ),
    ;

    /// The verdict on an eject that was run.
    fn eject_result(&self, ran: Result<CommandOutput, String>) -> (verdict: Result<(), DiskError>)
        ensures
            verdict_view(verdict) == plain_verdict(run_view(ran), false),
    ;

    /// Plans a format. Without elevated privileges, or for a filesystem that
    /// the platform cannot make, nothing is run.
    fn format(&self, privileged: bool, path: &str, fs_type: FileSystemType, label: &str) -> (plan:
        Result<CommandLine, DiskError>)
        ensures
            plan_view(plan) == self.format_plan(privileged, path@, fs_type, label@),
            !privileged ==> plan_view(plan) == Err::<CommandLineView, DiskErrorView>(
                DiskErrorView::InsufficientPrivileges,
            ),
    ;

    /// The verdict on a format that was run; a busy device is reported as
    /// such.
    fn format_result(&self, ran: Result<CommandOutput, String>) -> (verdict: Result<(), DiskError>)
        ensures
            verdict_view(verdict) == plain_verdict(run_view(ran), true),
    ;
}

} // verus!

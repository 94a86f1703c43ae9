//! The device managers, one per supported platform, and the choice between
//! them.

pub mod linux;
pub mod macos;

use vstd::prelude::*;
use crate::disk_ops::{
    CommandLine,
    CommandLineView,
    CommandOutput,
    DiskManager,
};
use crate::model::{DiskError, DiskErrorView, FileSystemType};
use crate::platform::linux::LinuxDiskManager;
use crate::platform::macos::{raw_device_path, raw_path, MacOSDiskManager};
use vstd::string::*;
use crate::text::str_eq;

verus! {

/// The device manager of the running platform. The set of platforms is
/// closed: exactly one of them is chosen when the process starts.
#[derive(Debug, Clone, Copy, PartialEq, Eq)]
pub enum PlatformManager {
    Linux(LinuxDiskManager),
    MacOs(MacOSDiskManager),
}

/// The manager for the operating system named `os`, as the standard library
/// names it: `linux` or `macos`. No other platform is supported.
pub fn get_disk_manager(os: &str) -> (manager: Result<PlatformManager, DiskError>)
    ensures
        os@ == "linux"@ ==> manager matches Ok(PlatformManager::Linux(_)),
        os@ == "macos"@ ==> manager matches Ok(PlatformManager::MacOs(_)),
        os@ != "linux"@ && os@ != "macos"@ ==> manager matches Err(
            DiskError::PlatformNotSupported,
        ),
{
    proof {
        reveal_strlit("linux");
        reveal_strlit("macos");
        assert("linux"@[0] != "macos"@[0]);
    }
    if str_eq(os, "linux") {
        Ok(PlatformManager::Linux(LinuxDiskManager::new()))
    } else if str_eq(os, "macos") {
        Ok(PlatformManager::MacOs(MacOSDiskManager::new()))
    } else {
        Err(DiskError::PlatformNotSupported)
    }
}

impl PlatformManager {
    /// The node that an image is written to, for the device at `path`: the
    /// raw node where the platform has one, else the device itself.
    pub fn flash_path(&self, path: &str) -> (node: String)
        ensures
            node@ == (match self {
                PlatformManager::Linux(_) => path@,
                PlatformManager::MacOs(_) => raw_path(path@),
            }),
    {
        match self {
            PlatformManager::Linux(_) => String::from_str(path),
            PlatformManager::MacOs(_) => raw_device_path(path),
        }
    }

    /// The filesystems that the platform offers as format targets.
    pub fn fs_options(&self) -> (options: Vec<FileSystemType>)
        ensures
            options@ == (match self {
                PlatformManager::Linux(_) => seq![
                    FileSystemType::Ext4,
                    FileSystemType::ExFat,
                    FileSystemType::Fat32,
                    FileSystemType::Ntfs,
                ],
                PlatformManager::MacOs(_) => seq![
                    FileSystemType::Apfs,
                    FileSystemType::ExFat,
                    FileSystemType::Fat32,
                ],
            }),
    {
        match self {
            PlatformManager::Linux(_) => FileSystemType::linux_options(),
            PlatformManager::MacOs(_) => FileSystemType::macos_options(),
        }
    }
}

impl DiskManager for PlatformManager {
    open spec fn list_plan(&self) -> CommandLineView {
        match self {
            PlatformManager::Linux(manager) => manager.list_plan(),
            PlatformManager::MacOs(manager) => manager.list_plan(),
        }
    }

    open spec fn unmount_plan(&self, privileged: bool, path: Seq<char>) -> Result<
        CommandLineView,
        DiskErrorView,
    > {
        match self {
            PlatformManager::Linux(manager) => manager.unmount_plan(privileged, path),
            PlatformManager::MacOs(manager) => manager.unmount_plan(privileged, path),
        }
    }

    open spec fn eject_plan(&self, privileged: bool, path: Seq<char>) -> Result<
        CommandLineView,
        DiskErrorView,
    > {
        match self {
            PlatformManager::Linux(manager) => manager.eject_plan(privileged, path),
            PlatformManager::MacOs(manager) => manager.eject_plan(privileged, path),
        }
    }

    open spec fn format_plan(
        &self,
        privileged: bool,
        path: Seq<char>,
        fs_type: FileSystemType,
        label: Seq<char>,
    ) -> Result<CommandLineView, DiskErrorView> {
        match self {
            PlatformManager::Linux(manager) => manager.format_plan(
                privileged,
                path,
                fs_type,
                label,
            ),
            PlatformManager::MacOs(manager) => manager.format_plan(
                privileged,
                path,
                fs_type,
                label,
            ),
        }
    }

    fn list_command(&self) -> (command: CommandLine) {
        match self {
            PlatformManager::Linux(manager) => manager.list_command(),
            PlatformManager::MacOs(manager) => manager.list_command(),
        }
    }

    fn unmount(&self, privileged: bool, path: &str) -> (plan: Result<CommandLine, DiskError>) {
        match self {
            PlatformManager::Linux(manager) => manager.unmount(privileged, path),
            PlatformManager::MacOs(manager) => manager.unmount(privileged, path),
        }
    }

    fn unmount_result(&self, ran: Result<CommandOutput, String>) -> (verdict: Result<
        (),
        DiskError,
    >) {
        match self {
            PlatformManager::Linux(manager) => manager.unmount_result(ran),
            PlatformManager::MacOs(manager) => manager.unmount_result(ran),
        }
    }

    fn eject(&self, privileged: bool, path: &str) -> (plan: Result<CommandLine, DiskError>) {
        match self {
            PlatformManager::Linux(manager) => manager.eject(privileged, path),
            PlatformManager::MacOs(manager) => manager.eject(privileged, path),
        }
    }

    fn eject_result(&self, ran: Result<CommandOutput, String>) -> (verdict: Result<(), DiskError>) {
        match self {
            PlatformManager::Linux(manager) => manager.eject_result(ran),
            PlatformManager::MacOs(manager) => manager.eject_result(ran),
        }
    }

    fn format(&self, privileged: bool, path: &str, fs_type: FileSystemType, label: &str) -> (plan:
        Result<CommandLine, DiskError>) {
        match self {
            PlatformManager::Linux(manager) => manager.format(privileged, path, fs_type, label),
            PlatformManager::MacOs(manager) => manager.format(privileged, path, fs_type, label),
        }
    }

    fn format_result(&self, ran: Result<CommandOutput, String>) -> (verdict: Result<(), DiskError>) {
        match self {
            PlatformManager::Linux(manager) => manager.format_result(ran),
            PlatformManager::MacOs(manager) => manager.format_result(ran),
        }
    }
}

} // verus!

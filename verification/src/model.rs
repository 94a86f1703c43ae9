//! Plain data shared by every component: devices, images, filesystem kinds,
//! the controller's state and the error taxonomy.

use vstd::prelude::*;
use vstd::string::*;
use crate::flasher::FlashProgress;

verus! {

/// Filesystems that a device can be formatted with.
#[derive(Debug, Clone, Copy, PartialEq, Eq, Structural)]
pub enum FileSystemType {
    Fat32,
    ExFat,
    Ntfs,
    Ext4,
    Apfs,
}

impl FileSystemType {
    /// The name `diskutil` uses for this filesystem. ext4 has none: macOS
    /// cannot make it, and no other filesystem's name stands in for it.
    pub open spec fn diskutil_format_text(self) -> Option<Seq<char>> {
        match self {
            FileSystemType::Fat32 => Some("FAT32"@),
            FileSystemType::ExFat => Some("ExFAT"@),
            FileSystemType::Ntfs => Some("NTFS"@),
            FileSystemType::Ext4 => None,
            FileSystemType::Apfs => Some("APFS"@),
        }
    }

    /// The name shown to the user.
    pub open spec fn display_text(self) -> Seq<char> {
        match self {
            FileSystemType::Fat32 => "FAT32"@,
            FileSystemType::ExFat => "exFAT"@,
            FileSystemType::Ntfs => "NTFS"@,
            FileSystemType::Ext4 => "ext4"@,
            FileSystemType::Apfs => "APFS"@,
        }
    }

    /// The filesystem name as `diskutil` expects it, or `None` for ext4,
    /// which `diskutil` cannot make.
    pub fn as_diskutil_format(&self) -> (name: Option<&'static str>)
        ensures
            match name {
                Some(text) => self.diskutil_format_text() == Some(text@),
                None => self.diskutil_format_text() is None,
            },
    {
        match self {
            FileSystemType::Fat32 => Some("FAT32"),
            FileSystemType::ExFat => Some("ExFAT"),
            FileSystemType::Ntfs => Some("NTFS"),
            FileSystemType::Ext4 => None,
            FileSystemType::Apfs => Some("APFS"),
        }
    }

    /// The name shown to the user.
    pub fn display_name(&self) -> (name: &'static str)
        ensures
            name@ == self.display_text(),
    {
        match self {
            FileSystemType::Fat32 => "FAT32",
            FileSystemType::ExFat => "exFAT",
            FileSystemType::Ntfs => "NTFS",
            FileSystemType::Ext4 => "ext4",
            FileSystemType::Apfs => "APFS",
        }
    }

    /// The filesystems offered on macOS, in menu order.
    pub fn macos_options() -> (options: Vec<FileSystemType>)
        ensures
            options@ == seq![FileSystemType::Apfs, FileSystemType::ExFat, FileSystemType::Fat32],
    {
        vec![FileSystemType::Apfs, FileSystemType::ExFat, FileSystemType::Fat32]
    }

    /// The filesystems offered on Linux, in menu order.
    pub fn linux_options() -> (options: Vec<FileSystemType>)
        ensures
            options@ == seq![
                FileSystemType::Ext4,
                FileSystemType::ExFat,
                FileSystemType::Fat32,
                FileSystemType::Ntfs,
            ],
    {
        vec![
            FileSystemType::Ext4,
            FileSystemType::ExFat,
            FileSystemType::Fat32,
            FileSystemType::Ntfs,
        ]
    }
}

/// No filesystem passes for another: two different filesystems never share
/// a `diskutil` name, nor a display name.
pub proof fn lemma_filesystem_names_differ(a: FileSystemType, b: FileSystemType)
    requires
        a != b,
    ensures
        a.diskutil_format_text() is Some && b.diskutil_format_text() is Some
            ==> a.diskutil_format_text() != b.diskutil_format_text(),
        a.display_text() != b.display_text(),
{
    reveal_strlit("FAT32");
    reveal_strlit("ExFAT");
    reveal_strlit("exFAT");
    reveal_strlit("NTFS");
    reveal_strlit("ext4");
    reveal_strlit("APFS");
    assert("FAT32"@[0] == 'F');
    assert("ExFAT"@[0] == 'E');
    assert("exFAT"@[0] == 'e');
    assert("NTFS"@[0] == 'N');
    assert("ext4"@[1] == 'x' && "ext4"@[2] == 't');
    assert("exFAT"@[2] == 'F');
    assert("APFS"@[0] == 'A');
}

/// The view of an optional string.
pub open spec fn text_view(text: Option<String>) -> Option<Seq<char>> {
    match text {
        Some(t) => Some(t@),
        None => None,
    }
}

/// A copy of an optional string.
pub fn copy_text(text: &Option<String>) -> (copy: Option<String>)
    ensures
        text_view(copy) == text_view(*text),
{
    match text {
        Some(t) => Some(t.clone()),
        None => None,
    }
}

/// A block storage device as one enumeration found it. Devices have no
/// identity beyond one scan: every scan makes them anew.
#[derive(Debug, Clone, PartialEq, Eq)]
pub struct Device {
    pub path: String,
    pub name: String,
    pub size_bytes: u64,
    pub filesystem: String,
    pub label: String,
    pub mount_point: Option<String>,
    /// Set for a device that backs the running system; such a device is
    /// never unmounted, formatted or flashed.
    pub is_protected: bool,
    pub is_removable: bool,
}

/// A device with its strings as sequences of characters.
pub struct DeviceView {
    pub path: Seq<char>,
    pub name: Seq<char>,
    pub size_bytes: u64,
    pub filesystem: Seq<char>,
    pub label: Seq<char>,
    pub mount_point: Option<Seq<char>>,
    pub is_protected: bool,
    pub is_removable: bool,
}

impl View for Device {
    type V = DeviceView;

    open spec fn view(&self) -> DeviceView {
        DeviceView {
            path: self.path@,
            name: self.name@,
            size_bytes: self.size_bytes,
            filesystem: self.filesystem@,
            label: self.label@,
            mount_point: text_view(self.mount_point),
            is_protected: self.is_protected,
            is_removable: self.is_removable,
        }
    }
}

impl DeepView for Device {
    type V = DeviceView;

    open spec fn deep_view(&self) -> DeviceView {
        self@
    }
}

impl Device {
    /// A copy of this device.
    pub fn duplicate(&self) -> (copy: Device)
        ensures
            copy@ == self@,
    {
        Device {
            path: self.path.clone(),
            name: self.name.clone(),
            size_bytes: self.size_bytes,
            filesystem: self.filesystem.clone(),
            label: self.label.clone(),
            mount_point: copy_text(&self.mount_point),
            is_protected: self.is_protected,
            is_removable: self.is_removable,
        }
    }
}

/// A disk image that can be flashed; only its `url` matters to the pipeline.
#[derive(Debug, Clone, PartialEq, Eq)]
pub struct Iso {
    pub name: String,
    pub version: String,
    pub arch: String,
    pub url: String,
    pub variety: String,
}

/// An image with its strings as sequences of characters.
pub struct IsoView {
    pub name: Seq<char>,
    pub version: Seq<char>,
    pub arch: Seq<char>,
    pub url: Seq<char>,
    pub variety: Seq<char>,
}

impl View for Iso {
    type V = IsoView;

    open spec fn view(&self) -> IsoView {
        IsoView {
            name: self.name@,
            version: self.version@,
            arch: self.arch@,
            url: self.url@,
            variety: self.variety@,
        }
    }
}

impl DeepView for Iso {
    type V = IsoView;

    open spec fn deep_view(&self) -> IsoView {
        self@
    }
}

/// What the controller is doing, and so what the user may do next.
#[derive(Debug, Clone, PartialEq, Eq)]
pub enum AppState {
    Idle,
    DeviceSelected(usize),
    FormattingMenu,
    /// Waiting for the device's path to be typed before a format.
    ConfirmDestructive(String),
    /// Waiting for the device's path to be typed before a flash.
    ConfirmFlash(String),
    IsoSelection,
    Flashing(FlashProgress),
    InProgress(String),
    Error(String),
    Success(String),
}

/// A state with its strings as sequences of characters.
pub enum AppStateView {
    Idle,
    DeviceSelected(usize),
    FormattingMenu,
    ConfirmDestructive(Seq<char>),
    ConfirmFlash(Seq<char>),
    IsoSelection,
    Flashing(FlashProgress),
    InProgress(Seq<char>),
    Error(Seq<char>),
    Success(Seq<char>),
}

impl View for AppState {
    type V = AppStateView;

    open spec fn view(&self) -> AppStateView {
        match self {
            AppState::Idle => AppStateView::Idle,
            AppState::DeviceSelected(index) => AppStateView::DeviceSelected(*index),
            AppState::FormattingMenu => AppStateView::FormattingMenu,
            AppState::ConfirmDestructive(path) => AppStateView::ConfirmDestructive(path@),
            AppState::ConfirmFlash(path) => AppStateView::ConfirmFlash(path@),
            AppState::IsoSelection => AppStateView::IsoSelection,
            AppState::Flashing(progress) => AppStateView::Flashing(*progress),
            AppState::InProgress(message) => AppStateView::InProgress(message@),
            AppState::Error(message) => AppStateView::Error(message@),
            AppState::Success(message) => AppStateView::Success(message@),
        }
    }
}

impl AppStateView {
    /// A background operation is running: input is inert until it reports.
    pub open spec fn is_busy(self) -> bool {
        self is InProgress || self is Flashing
    }
}

/// Why a device operation failed.
#[derive(Debug, Clone, PartialEq, Eq)]
pub enum DiskError {
    ProtectedDevice,
    DeviceBusy,
    InsufficientPrivileges,
    DeviceNotFound(String),
    UnsupportedFilesystem(String),
    PlatformNotSupported,
    CommandFailed(String),
    ParseError(String),
    IoError(String),
}

/// A device error with its strings as sequences of characters.
pub enum DiskErrorView {
    ProtectedDevice,
    DeviceBusy,
    InsufficientPrivileges,
    DeviceNotFound(Seq<char>),
    UnsupportedFilesystem(Seq<char>),
    PlatformNotSupported,
    CommandFailed(Seq<char>),
    ParseError(Seq<char>),
    IoError(Seq<char>),
}

impl View for DiskError {
    type V = DiskErrorView;

    open spec fn view(&self) -> DiskErrorView {
        match self {
            DiskError::ProtectedDevice => DiskErrorView::ProtectedDevice,
            DiskError::DeviceBusy => DiskErrorView::DeviceBusy,
            DiskError::InsufficientPrivileges => DiskErrorView::InsufficientPrivileges,
            DiskError::DeviceNotFound(path) => DiskErrorView::DeviceNotFound(path@),
            DiskError::UnsupportedFilesystem(what) => DiskErrorView::UnsupportedFilesystem(what@),
            DiskError::PlatformNotSupported => DiskErrorView::PlatformNotSupported,
            DiskError::CommandFailed(detail) => DiskErrorView::CommandFailed(detail@),
            DiskError::ParseError(detail) => DiskErrorView::ParseError(detail@),
            DiskError::IoError(detail) => DiskErrorView::IoError(detail@),
        }
    }
}

impl DiskErrorView {
    pub open spec fn message(self) -> Seq<char> {
        match self {
            DiskErrorView::ProtectedDevice => "Device is protected (system drive)"@,
            DiskErrorView::DeviceBusy => "Device is busy or in use"@,
            DiskErrorView::InsufficientPrivileges => "Insufficient privileges - run as root/admin"@,
            DiskErrorView::DeviceNotFound(path) => "Device not found: "@ + path,
            DiskErrorView::UnsupportedFilesystem(what) => "Unsupported filesystem: "@ + what,
            DiskErrorView::PlatformNotSupported => "Platform not supported"@,
            DiskErrorView::CommandFailed(detail) => "Command failed: "@ + detail,
            DiskErrorView::ParseError(detail) => "Parse error: "@ + detail,
            DiskErrorView::IoError(detail) => "IO error: "@ + detail,
        }
    }
}

impl DiskError {
    /// The error in words, as it is shown to the user.
    pub fn message(&self) -> (text: String)
        ensures
            text@ == self@.message(),
    {
        match self {
            DiskError::ProtectedDevice => String::from_str("Device is protected (system drive)"),
            DiskError::DeviceBusy => String::from_str("Device is busy or in use"),
            DiskError::InsufficientPrivileges => String::from_str(
                "Insufficient privileges - run as root/admin",
            ),
            DiskError::DeviceNotFound(path) => String::from_str("Device not found: ").concat(
                path.as_str(),
            ),
            DiskError::UnsupportedFilesystem(what) => String::from_str(
                "Unsupported filesystem: ",
            ).concat(what.as_str()),
            DiskError::PlatformNotSupported => String::from_str("Platform not supported"),
            DiskError::CommandFailed(detail) => String::from_str("Command failed: ").concat(
                detail.as_str(),
            ),
            DiskError::ParseError(detail) => String::from_str("Parse error: ").concat(
                detail.as_str(),
            ),
            DiskError::IoError(detail) => String::from_str("IO error: ").concat(detail.as_str()),
        }
    }
}

/// The view of a device list, or of the error in its place.
pub open spec fn listing_view(listing: Result<Vec<Device>, DiskError>) -> Result<
    Seq<DeviceView>,
    DiskErrorView,
> {
    match listing {
        Ok(devices) => Ok(devices.deep_view()),
        Err(e) => Err(e@),
    }
}

} // verus!

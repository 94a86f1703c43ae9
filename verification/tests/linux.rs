use pervie::disk_ops::{CommandLine, CommandOutput, DiskManager};
use pervie::model::{Device, DiskError, FileSystemType};
use pervie::platform::linux::{BlockDevice, LinuxDiskManager, LsblkOutput};
use pervie::platform::{get_disk_manager, PlatformManager};

fn block(name: &str, size: &str, device_type: &str) -> BlockDevice {
    BlockDevice {
        name: name.to_string(),
        size: size.to_string(),
        device_type: device_type.to_string(),
        fstype: None,
        label: None,
        mountpoint: None,
        path: None,
        rm: None,
        children: None,
    }
}

fn with_children(mut parent: BlockDevice, children: Vec<BlockDevice>) -> BlockDevice {
    parent.children = Some(children);
    parent
}

fn at(mut device: BlockDevice, path: &str) -> BlockDevice {
    device.path = Some(path.to_string());
    device
}

fn output(success: bool, stdout: &str, stderr: &str) -> CommandOutput {
    CommandOutput { success, stdout: stdout.to_string(), stderr: stderr.to_string() }
}

fn command(program: &str, args: &[&str]) -> CommandLine {
    CommandLine {
        program: program.to_string(),
        args: args.iter().map(|a| a.to_string()).collect(),
    }
}

#[test]
fn lsblk_listing_gives_whole_disks() {
    let mut stick = block("sdb", "14.9G", "disk");
    stick.fstype = Some("vfat".to_string());
    stick.label = Some("STICK".to_string());
    stick.mountpoint = Some("/media/stick".to_string());
    stick.path = Some("/dev/sdb".to_string());
    stick.rm = Some(true);
    let listing = LsblkOutput {
        blockdevices: vec![
            block("loop0", "55.7M", "loop"),
            with_children(
                block("sda", "465.8G", "disk"),
                vec![block("sda1", "512M", "part"), block("sda2", "465G", "part")],
            ),
            block("sda1", "465G", "part"),
            stick,
            block("sr0", "1024M", "rom"),
            block("ram0", "64M", "disk"),
            block("zram0", "8G", "disk"),
            block("sdc", "0B", "disk"),
            block("sdd", "", "disk"),
            block("md0", "1T", "raid1"),
        ],
    };
    let devices =
        LinuxDiskManager::new().parse_lsblk_output(Ok(listing), Some("/dev/sda2")).unwrap();
    assert_eq!(
        devices,
        vec![
            Device {
                path: "/dev/sda".to_string(),
                name: "Disk sda".to_string(),
                size_bytes: 500148941619,
                filesystem: "Unknown".to_string(),
                label: "sda".to_string(),
                mount_point: None,
                is_protected: true,
                is_removable: false,
            },
            Device {
                path: "/dev/sdb".to_string(),
                name: "Disk sdb".to_string(),
                size_bytes: 15998753177,
                filesystem: "vfat".to_string(),
                label: "STICK".to_string(),
                mount_point: Some("/media/stick".to_string()),
                is_protected: false,
                is_removable: true,
            },
            Device {
                path: "/dev/sr0".to_string(),
                name: "Disk sr0".to_string(),
                size_bytes: 1073741824,
                filesystem: "Unknown".to_string(),
                label: "sr0".to_string(),
                mount_point: None,
                is_protected: false,
                is_removable: false,
            },
            Device {
                path: "/dev/zram0".to_string(),
                name: "Disk zram0".to_string(),
                size_bytes: 8589934592,
                filesystem: "Unknown".to_string(),
                label: "zram0".to_string(),
                mount_point: None,
                is_protected: false,
                is_removable: false,
            },
        ]
    );
}

fn two_disks() -> LsblkOutput {
    LsblkOutput {
        blockdevices: vec![
            with_children(
                block("sda", "1G", "disk"),
                vec![
                    at(block("sda1", "512M", "part"), "/dev/sda1"),
                    with_children(
                        at(block("sda2", "512M", "part"), "/dev/sda2"),
                        vec![with_children(
                            at(block("cryptroot", "511M", "crypt"), "/dev/mapper/cryptroot"),
                            vec![at(block("vg-root", "500M", "lvm"), "/dev/mapper/vg-root")],
                        )],
                    ),
                ],
            ),
            with_children(
                block("nvme0n1", "1G", "disk"),
                vec![block("nvme0n1p1", "1M", "part"), block("nvme0n1p2", "1G", "part")],
            ),
            block("sdaa", "1G", "disk"),
        ],
    }
}

fn protection(root: Option<&str>) -> Vec<bool> {
    LinuxDiskManager::new()
        .parse_lsblk_output(Ok(two_disks()), root)
        .unwrap()
        .iter()
        .map(|d| d.is_protected)
        .collect()
}

#[test]
fn lsblk_root_device_is_protected() {
    assert_eq!(protection(Some("/dev/nvme0n1p2")), vec![false, true, false]);
    assert_eq!(protection(Some("/dev/sda1")), vec![true, false, false]);
    assert_eq!(protection(Some("/dev/sda2")), vec![true, false, false]);
    assert_eq!(protection(Some("/dev/sda")), vec![true, false, false]);
    assert_eq!(protection(Some("/dev/nvme0n1")), vec![false, true, false]);
    assert_eq!(protection(Some("/dev/sdaa")), vec![false, false, true]);
}

#[test]
fn lsblk_root_on_a_subvolume_protects_its_disk() {
    let manager = LinuxDiskManager::new();
    let root = manager.get_root_device(Some(output(true, "/dev/sda2[/@]\n", "")));
    let devices = manager.parse_lsblk_output(Ok(two_disks()), root.as_deref()).unwrap();
    let flags: Vec<bool> = devices.iter().map(|d| d.is_protected).collect();
    assert_eq!(flags, vec![true, false, false]);
}

#[test]
fn lsblk_root_on_a_stacked_device_protects_the_disk_below() {
    assert_eq!(protection(Some("/dev/mapper/vg-root")), vec![true, false, false]);
    assert_eq!(protection(Some("/dev/mapper/cryptroot")), vec![true, false, false]);
}

#[test]
fn lsblk_root_that_only_resembles_a_disk_protects_nothing() {
    assert_eq!(protection(None), vec![false, false, false]);
    assert_eq!(protection(Some("/dev/sdaa1")), vec![false, false, false]);
    assert_eq!(protection(Some("/dev/sd")), vec![false, false, false]);
    assert_eq!(protection(Some("/dev")), vec![false, false, false]);
    assert_eq!(protection(Some("sda")), vec![false, false, false]);
    assert_eq!(protection(Some("")), vec![false, false, false]);
    assert_eq!(protection(Some("/dev/mapper/other")), vec![false, false, false]);
    assert_eq!(protection(Some("/dev/nvme0n1p3")), vec![false, false, false]);
}

#[test]
fn lsblk_decoding_failure_is_a_parse_error() {
    let manager = LinuxDiskManager::new();
    assert_eq!(
        manager.parse_lsblk_output(Err("expected value at line 1 column 1".to_string()), None),
        Err(DiskError::ParseError("expected value at line 1 column 1".to_string()))
    );
    assert_eq!(manager.parse_lsblk_output(Ok(LsblkOutput { blockdevices: vec![] }), None), Ok(vec![]));
}

#[test]
fn root_device_is_the_trimmed_output() {
    let manager = LinuxDiskManager::new();
    assert_eq!(
        manager.root_device_command(),
        command("findmnt", &["-n", "-o", "SOURCE", "/"])
    );
    assert_eq!(
        manager.get_root_device(Some(output(true, "/dev/sda2\n", ""))),
        Some("/dev/sda2".to_string())
    );
    assert_eq!(
        manager.get_root_device(Some(output(true, "  /dev/mapper/vg-root \n\n", ""))),
        Some("/dev/mapper/vg-root".to_string())
    );
    assert_eq!(manager.get_root_device(Some(output(true, "", ""))), Some(String::new()));
    assert_eq!(
        manager.get_root_device(Some(output(true, "/dev/sda2[/@]\n", ""))),
        Some("/dev/sda2".to_string())
    );
    assert_eq!(
        manager.get_root_device(Some(output(true, "/dev/nvme0n1p2[/var/lib/x[y]]", ""))),
        Some("/dev/nvme0n1p2".to_string())
    );
    assert_eq!(manager.get_root_device(Some(output(true, "[/@]", ""))), Some(String::new()));
    assert_eq!(manager.get_root_device(Some(output(false, "/dev/sda2\n", ""))), None);
    assert_eq!(manager.get_root_device(None), None);
}

#[test]
fn linux_privileges_are_user_id_zero() {
    let manager = LinuxDiskManager::new();
    assert_eq!(manager.privilege_command(), command("id", &["-u"]));
    assert!(manager.has_privileges(Some(output(true, "0\n", ""))));
    assert!(manager.has_privileges(Some(output(false, " 0 ", ""))));
    assert!(!manager.has_privileges(Some(output(true, "1000\n", ""))));
    assert!(!manager.has_privileges(Some(output(true, "00\n", ""))));
    assert!(!manager.has_privileges(Some(output(true, "", ""))));
    assert!(!manager.has_privileges(None));
}

#[test]
fn linux_list_command_and_output() {
    let manager = LinuxDiskManager::new();
    assert_eq!(
        manager.list_command(),
        command("lsblk", &["--json", "-o", "NAME,SIZE,TYPE,FSTYPE,LABEL,MOUNTPOINT,PATH,RM"])
    );
    assert_eq!(manager.listed_text(Ok(output(true, "{}", "x"))), Ok("{}".to_string()));
    assert_eq!(
        manager.listed_text(Ok(output(false, "{}", "lsblk: failed"))),
        Err(DiskError::CommandFailed("lsblk: failed".to_string()))
    );
    assert_eq!(
        manager.listed_text(Err("not found".to_string())),
        Err(DiskError::IoError("not found".to_string()))
    );
}

#[test]
fn linux_format_commands() {
    let manager = LinuxDiskManager::new();
    assert_eq!(
        manager.format(true, "/dev/sdb", FileSystemType::Fat32, "UNTITLED"),
        Ok(command("mkfs.vfat", &["-F", "32", "-n", "UNTITLED", "/dev/sdb"]))
    );
    assert_eq!(
        manager.format(true, "/dev/sdb", FileSystemType::ExFat, "UNTITLED"),
        Ok(command("mkfs.exfat", &["-n", "UNTITLED", "/dev/sdb"]))
    );
    assert_eq!(
        manager.format(true, "/dev/sdb", FileSystemType::Ntfs, "UNTITLED"),
        Ok(command("mkfs.ntfs", &["-f", "-L", "UNTITLED", "/dev/sdb"]))
    );
    assert_eq!(
        manager.format(true, "/dev/sdb", FileSystemType::Ext4, "UNTITLED"),
        Ok(command("mkfs.ext4", &["-L", "UNTITLED", "/dev/sdb"]))
    );
}

#[test]
fn linux_format_refusals() {
    let manager = LinuxDiskManager::new();
    assert_eq!(
        manager.format(true, "/dev/sdb", FileSystemType::Apfs, "UNTITLED"),
        Err(DiskError::UnsupportedFilesystem("APFS is not supported on Linux".to_string()))
    );
    for fs_type in [
        FileSystemType::Fat32,
        FileSystemType::ExFat,
        FileSystemType::Ntfs,
        FileSystemType::Ext4,
        FileSystemType::Apfs,
    ] {
        assert_eq!(
            manager.format(false, "/dev/sdb", fs_type, "UNTITLED"),
            Err(DiskError::InsufficientPrivileges)
        );
    }
}

#[test]
fn linux_unmount_and_eject_commands() {
    let manager = LinuxDiskManager::new();
    assert_eq!(manager.unmount(true, "/dev/sdb"), Ok(command("umount", &["/dev/sdb"])));
    assert_eq!(manager.eject(true, "/dev/sdb"), Ok(command("eject", &["/dev/sdb"])));
    assert_eq!(manager.unmount(false, "/dev/sdb"), Err(DiskError::InsufficientPrivileges));
    assert_eq!(manager.eject(false, "/dev/sdb"), Err(DiskError::InsufficientPrivileges));
}

#[test]
fn unmount_verdicts() {
    let manager = LinuxDiskManager::new();
    assert_eq!(manager.unmount_result(Ok(output(true, "", "busy"))), Ok(()));
    assert_eq!(
        manager.unmount_result(Ok(output(false, "", "umount: /dev/sdb: target is busy."))),
        Err(DiskError::DeviceBusy)
    );
    assert_eq!(
        manager.unmount_result(Ok(output(false, "", "umount: /dev/sdb: not mounted."))),
        Ok(())
    );
    assert_eq!(
        manager.unmount_result(Ok(output(false, "", "not mounted, busy"))),
        Err(DiskError::DeviceBusy)
    );
    assert_eq!(
        manager.unmount_result(Ok(output(false, "", "umount: bad usage"))),
        Err(DiskError::CommandFailed("umount: bad usage".to_string()))
    );
    assert_eq!(
        manager.unmount_result(Ok(output(false, "", "BUSY"))),
        Err(DiskError::CommandFailed("BUSY".to_string()))
    );
    assert_eq!(
        manager.unmount_result(Err("spawn failed".to_string())),
        Err(DiskError::IoError("spawn failed".to_string()))
    );
}

#[test]
fn format_and_eject_verdicts() {
    let manager = LinuxDiskManager::new();
    assert_eq!(manager.format_result(Ok(output(true, "", ""))), Ok(()));
    assert_eq!(
        manager.format_result(Ok(output(false, "", "Device or resource busy"))),
        Err(DiskError::DeviceBusy)
    );
    assert_eq!(
        manager.format_result(Ok(output(false, "", "not mounted"))),
        Err(DiskError::CommandFailed("not mounted".to_string()))
    );
    assert_eq!(manager.eject_result(Ok(output(true, "", ""))), Ok(()));
    assert_eq!(
        manager.eject_result(Ok(output(false, "", "eject: device busy"))),
        Err(DiskError::CommandFailed("eject: device busy".to_string()))
    );
    assert_eq!(
        manager.eject_result(Err("gone".to_string())),
        Err(DiskError::IoError("gone".to_string()))
    );
}

#[test]
fn disk_manager_of_a_platform() {
    assert_eq!(get_disk_manager("linux"), Ok(PlatformManager::Linux(LinuxDiskManager::new())));
    assert!(matches!(get_disk_manager("macos"), Ok(PlatformManager::MacOs(_))));
    assert_eq!(get_disk_manager("windows"), Err(DiskError::PlatformNotSupported));
    assert_eq!(get_disk_manager(""), Err(DiskError::PlatformNotSupported));
    assert_eq!(get_disk_manager("Linux"), Err(DiskError::PlatformNotSupported));
}

#[test]
fn platform_manager_follows_its_platform() {
    let linux = get_disk_manager("linux").unwrap();
    let macos = get_disk_manager("macos").unwrap();
    assert_eq!(linux.list_command().program, "lsblk");
    assert_eq!(macos.list_command().program, "diskutil");
    assert_eq!(linux.fs_options(), FileSystemType::linux_options());
    assert_eq!(macos.fs_options(), FileSystemType::macos_options());
    assert_eq!(linux.flash_path("/dev/disk2"), "/dev/disk2");
    assert_eq!(macos.flash_path("/dev/disk2"), "/dev/rdisk2");
    assert_eq!(linux.unmount(true, "/dev/sdb").unwrap().program, "umount");
    assert_eq!(macos.unmount(true, "/dev/disk2").unwrap().program, "diskutil");
    assert_eq!(
        macos.format(true, "/dev/disk2", FileSystemType::Ext4, "X"),
        Err(DiskError::UnsupportedFilesystem("ext4 is not supported on macOS".to_string()))
    );
    assert_eq!(
        linux.format(true, "/dev/sdb", FileSystemType::Ext4, "X").unwrap().program,
        "mkfs.ext4"
    );
}

#[test]
fn filesystem_names() {
    assert_eq!(FileSystemType::Fat32.as_diskutil_format(), Some("FAT32"));
    assert_eq!(FileSystemType::ExFat.as_diskutil_format(), Some("ExFAT"));
    assert_eq!(FileSystemType::Ntfs.as_diskutil_format(), Some("NTFS"));
    assert_eq!(FileSystemType::Ext4.as_diskutil_format(), None);
    assert_eq!(FileSystemType::Apfs.as_diskutil_format(), Some("APFS"));
    assert_eq!(FileSystemType::Fat32.display_name(), "FAT32");
    assert_eq!(FileSystemType::ExFat.display_name(), "exFAT");
    assert_eq!(FileSystemType::Ntfs.display_name(), "NTFS");
    assert_eq!(FileSystemType::Ext4.display_name(), "ext4");
    assert_eq!(FileSystemType::Apfs.display_name(), "APFS");
    assert_eq!(
        FileSystemType::macos_options(),
        vec![FileSystemType::Apfs, FileSystemType::ExFat, FileSystemType::Fat32]
    );
    assert_eq!(
        FileSystemType::linux_options(),
        vec![
            FileSystemType::Ext4,
            FileSystemType::ExFat,
            FileSystemType::Fat32,
            FileSystemType::Ntfs
        ]
    );
}

#[test]
fn disk_error_messages() {
    assert_eq!(DiskError::ProtectedDevice.message(), "Device is protected (system drive)");
    assert_eq!(DiskError::DeviceBusy.message(), "Device is busy or in use");
    assert_eq!(
        DiskError::InsufficientPrivileges.message(),
        "Insufficient privileges - run as root/admin"
    );
    assert_eq!(DiskError::DeviceNotFound("x".to_string()).message(), "Device not found: x");
    assert_eq!(
        DiskError::UnsupportedFilesystem("y".to_string()).message(),
        "Unsupported filesystem: y"
    );
    assert_eq!(DiskError::PlatformNotSupported.message(), "Platform not supported");
    assert_eq!(DiskError::CommandFailed("z".to_string()).message(), "Command failed: z");
    assert_eq!(DiskError::ParseError("p".to_string()).message(), "Parse error: p");
    assert_eq!(DiskError::IoError("q".to_string()).message(), "IO error: q");
}

#[test]
fn no_filesystem_passes_for_another() {
    let kinds = [
        FileSystemType::Fat32,
        FileSystemType::ExFat,
        FileSystemType::Ntfs,
        FileSystemType::Ext4,
        FileSystemType::Apfs,
    ];
    for a in kinds {
        for b in kinds {
            if a != b {
                assert_ne!(a.display_name(), b.display_name());
                if let (Some(x), Some(y)) = (a.as_diskutil_format(), b.as_diskutil_format()) {
                    assert_ne!(x, y);
                }
            }
        }
    }
}

use pervie::disk_ops::{CommandLine, CommandOutput, DiskManager};
use pervie::model::{Device, DiskError, FileSystemType};
use pervie::platform::macos::{
    devices_from_plist, extract_parent_disk, is_partition, is_plain, raw_device_path,
    MacOSDiskManager, PlistNode, NESTING_LIMIT,
};

const LISTING: &str = r#"<?xml version="1.0" encoding="UTF-8"?>
<!DOCTYPE plist PUBLIC "-//Apple//DTD PLIST 1.0//EN" "http://www.apple.com/DTDs/PropertyList-1.0.dtd">
<plist version="1.0">
<dict>
	<key>AllDisks</key>
	<array>
		<string>disk0</string>
		<string>disk0s1</string>
		<string>disk4</string>
	</array>
	<key>AllDisksAndPartitions</key>
	<array>
		<dict>
			<key>Content</key>
			<string>GUID_partition_scheme</string>
			<key>DeviceIdentifier</key>
			<string>disk0</string>
			<key>Partitions</key>
			<array>
				<dict>
					<key>Content</key>
					<string>Apple_APFS</string>
					<key>DeviceIdentifier</key>
					<string>disk0s1</string>
					<key>Size</key>
					<integer>524288000</integer>
				</dict>
			</array>
			<key>Size</key>
			<integer>500277792768</integer>
		</dict>
		<dict>
			<key>Content</key>
			<string>FDisk_partition_scheme</string>
			<key>DeviceIdentifier</key>
			<string>disk4</string>
			<key>Partitions</key>
			<array>
				<dict>
					<key>Content</key>
					<string>DOS_FAT_32</string>
					<key>DeviceIdentifier</key>
					<string>disk4s1</string>
					<key>MountPoint</key>
					<string>/Volumes/UNTITLED</string>
					<key>Size</key>
					<integer>31914983424</integer>
				</dict>
			</array>
			<key>Size</key>
			<integer>31914983424</integer>
		</dict>
		<dict>
			<key>Content</key>
			<string>Apple_APFS</string>
			<key>DeviceIdentifier</key>
			<string>disk5s2</string>
			<key>Size</key>
			<integer>1000</integer>
		</dict>
		<dict>
			<key>DeviceIdentifier</key>
			<string>disk6</string>
			<key>Size</key>
			<integer>0</integer>
		</dict>
	</array>
</dict>
</plist>
"#;

fn text(s: &str) -> PlistNode {
    PlistNode::Text(s.to_string())
}

fn dict(entries: Vec<(&str, PlistNode)>) -> PlistNode {
    PlistNode::Dictionary(entries.into_iter().map(|(k, v)| (k.to_string(), v)).collect())
}

fn listing_of(disks: Vec<PlistNode>) -> PlistNode {
    dict(vec![("AllDisksAndPartitions", PlistNode::Array(disks))])
}

fn output(success: bool, stdout: &str, stderr: &str) -> CommandOutput {
    CommandOutput { success, stdout: stdout.to_string(), stderr: stderr.to_string() }
}

#[test]
fn diskutil_listing_gives_whole_disks() {
    let devices = MacOSDiskManager::new().parse_diskutil_output(LISTING).unwrap();
    assert_eq!(
        devices,
        vec![
            Device {
                path: "/dev/disk0".to_string(),
                name: "Disk disk0".to_string(),
                size_bytes: 500277792768,
                filesystem: "GUID_partition_scheme".to_string(),
                label: "disk0".to_string(),
                mount_point: None,
                is_protected: true,
                is_removable: false,
            },
            Device {
                path: "/dev/disk4".to_string(),
                name: "Disk disk4".to_string(),
                size_bytes: 31914983424,
                filesystem: "FDisk_partition_scheme".to_string(),
                label: "disk4".to_string(),
                mount_point: None,
                is_protected: false,
                is_removable: true,
            },
        ]
    );
}

#[test]
fn diskutil_output_that_is_no_plist_is_a_parse_error() {
    let manager = MacOSDiskManager::new();
    assert!(matches!(manager.parse_diskutil_output("not a plist"), Err(DiskError::ParseError(_))));
    assert!(matches!(manager.parse_diskutil_output(""), Err(DiskError::ParseError(_))));
}

#[test]
fn diskutil_output_without_the_disk_array_is_a_parse_error() {
    let manager = MacOSDiskManager::new();
    let no_key = r#"<?xml version="1.0" encoding="UTF-8"?>
<plist version="1.0"><dict><key>AllDisks</key><array/></dict></plist>"#;
    assert_eq!(
        manager.parse_diskutil_output(no_key),
        Err(DiskError::ParseError("Missing AllDisksAndPartitions".to_string()))
    );
    let not_a_dict = r#"<?xml version="1.0" encoding="UTF-8"?>
<plist version="1.0"><array/></plist>"#;
    assert_eq!(
        manager.parse_diskutil_output(not_a_dict),
        Err(DiskError::ParseError("Missing AllDisksAndPartitions".to_string()))
    );
    let not_an_array = dict(vec![("AllDisksAndPartitions", text("disk0"))]);
    assert_eq!(
        devices_from_plist(&not_an_array),
        Err(DiskError::ParseError("Missing AllDisksAndPartitions".to_string()))
    );
}

#[test]
fn disk_with_the_root_mount_is_protected() {
    let disk = dict(vec![
        ("DeviceIdentifier", text("disk3")),
        ("Size", PlistNode::Integer(Some(1000))),
        ("Content", text("GUID_partition_scheme")),
        (
            "Partitions",
            PlistNode::Array(vec![
                PlistNode::Other,
                dict(vec![("MountPoint", text("/Volumes/Data"))]),
                dict(vec![("MountPoint", text("/"))]),
            ]),
        ),
    ]);
    let devices = devices_from_plist(&listing_of(vec![disk])).unwrap();
    assert_eq!(devices.len(), 1);
    assert!(devices[0].is_protected);
    assert!(!devices[0].is_removable);
    assert_eq!(devices[0].path, "/dev/disk3");
}

#[test]
fn disk_entries_fall_back_on_defaults() {
    let nameless = dict(vec![("Size", PlistNode::Integer(Some(7)))]);
    let devices = devices_from_plist(&listing_of(vec![nameless])).unwrap();
    assert_eq!(
        devices,
        vec![Device {
            path: "/dev/unknown".to_string(),
            name: "Disk unknown".to_string(),
            size_bytes: 7,
            filesystem: "Unknown".to_string(),
            label: "unknown".to_string(),
            mount_point: None,
            is_protected: false,
            is_removable: true,
        }]
    );
}

#[test]
fn disk_entries_without_a_size_are_left_out() {
    let disks = vec![
        dict(vec![("DeviceIdentifier", text("disk1"))]),
        dict(vec![("DeviceIdentifier", text("disk2")), ("Size", PlistNode::Integer(None))]),
        dict(vec![("DeviceIdentifier", text("disk3")), ("Size", text("12"))]),
        dict(vec![("DeviceIdentifier", text("disk4")), ("Size", PlistNode::Integer(Some(0)))]),
        text("disk5"),
        PlistNode::Other,
        dict(vec![("DeviceIdentifier", text("disk6s1")), ("Size", PlistNode::Integer(Some(9)))]),
        dict(vec![("DeviceIdentifier", text("disk7")), ("Size", PlistNode::Integer(Some(9)))]),
    ];
    let devices = devices_from_plist(&listing_of(disks)).unwrap();
    assert_eq!(devices.len(), 1);
    assert_eq!(devices[0].label, "disk7");
}

#[test]
fn plist_lookup_takes_the_first_entry() {
    let node = dict(vec![("a", text("1")), ("b", text("2")), ("a", text("3"))]);
    assert_eq!(node.get("a"), Some(&text("1")));
    assert_eq!(node.get("b"), Some(&text("2")));
    assert_eq!(node.get("c"), None);
    assert_eq!(text("a").get("a"), None);
    assert_eq!(text("a").as_string(), Some("a"));
    assert_eq!(text("a").as_unsigned_integer(), None);
    assert_eq!(PlistNode::Integer(Some(5)).as_unsigned_integer(), Some(5));
    assert_eq!(PlistNode::Array(vec![]).as_array(), Some(&vec![]));
    assert_eq!(node.as_array(), None);
}

#[test]
fn partition_identifiers() {
    assert!(is_partition("disk0s1"));
    assert!(is_partition("disk12s34"));
    assert!(is_partition("disks"));
    assert!(is_partition("s"));
    assert!(!is_partition("disk0"));
    assert!(!is_partition("disk0s1a"));
    assert!(!is_partition(""));
    assert!(!is_partition("unknown"));
    assert!(!is_partition("123"));
}

#[test]
fn parent_disk_of_identifiers() {
    assert_eq!(extract_parent_disk("disk4s1"), "disk4");
    assert_eq!(extract_parent_disk("disk4s2"), "disk4");
    assert_eq!(extract_parent_disk("disk0s1"), "disk0");
    assert_eq!(extract_parent_disk("disk4"), "disk4");
    assert_eq!(extract_parent_disk("disk10s3s1"), "disk10s3");
    assert_eq!(extract_parent_disk("disk2s"), "disk2");
    assert_eq!(extract_parent_disk("s1"), "s1");
    assert_eq!(extract_parent_disk(""), "");
    assert_eq!(extract_parent_disk("1s"), "1");
}

#[test]
fn raw_node_of_a_disk() {
    assert_eq!(raw_device_path("/dev/disk2"), "/dev/rdisk2");
    assert_eq!(raw_device_path("/dev/disk2s1"), "/dev/rdisk2s1");
    assert_eq!(raw_device_path("/dev/rdisk2"), "/dev/rdisk2");
    assert_eq!(raw_device_path("/dev/sdb"), "/dev/sdb");
    assert_eq!(raw_device_path("/tmp/dev/disk2"), "/tmp/dev/disk2");
    assert_eq!(raw_device_path(""), "");
}

#[test]
fn macos_commands() {
    let manager = MacOSDiskManager::new();
    assert_eq!(
        manager.list_command(),
        CommandLine {
            program: "diskutil".to_string(),
            args: vec!["list".to_string(), "-plist".to_string()]
        }
    );
    assert_eq!(
        manager.unmount(true, "/dev/disk2"),
        Ok(CommandLine {
            program: "diskutil".to_string(),
            args: vec!["unmountDisk".to_string(), "/dev/disk2".to_string()]
        })
    );
    assert_eq!(
        manager.eject(true, "/dev/disk2"),
        Ok(CommandLine {
            program: "diskutil".to_string(),
            args: vec!["eject".to_string(), "/dev/disk2".to_string()]
        })
    );
    assert_eq!(manager.unmount(false, "/dev/disk2"), Err(DiskError::InsufficientPrivileges));
    assert_eq!(manager.eject(false, "/dev/disk2"), Err(DiskError::InsufficientPrivileges));
}

#[test]
fn macos_format_erases_the_whole_disk() {
    let manager = MacOSDiskManager::new();
    assert_eq!(
        manager.format(true, "/dev/disk4s1", FileSystemType::ExFat, "UNTITLED"),
        Ok(CommandLine {
            program: "diskutil".to_string(),
            args: vec![
                "eraseDisk".to_string(),
                "ExFAT".to_string(),
                "UNTITLED".to_string(),
                "disk4".to_string()
            ]
        })
    );
    assert_eq!(
        manager.format(true, "/dev/disk4", FileSystemType::Apfs, "X").unwrap().args,
        vec!["eraseDisk", "APFS", "X", "disk4"]
    );
    assert_eq!(
        manager.format(true, "/dev/disk4", FileSystemType::Fat32, "X").unwrap().args,
        vec!["eraseDisk", "FAT32", "X", "disk4"]
    );
}

#[test]
fn macos_format_refusals() {
    let manager = MacOSDiskManager::new();
    assert_eq!(
        manager.format(false, "/dev/disk4", FileSystemType::ExFat, "X"),
        Err(DiskError::InsufficientPrivileges)
    );
    assert_eq!(
        manager.format(true, "disk4", FileSystemType::ExFat, "X"),
        Err(DiskError::DeviceNotFound("disk4".to_string()))
    );
    assert_eq!(
        manager.format(true, "/dev/disk4", FileSystemType::Ext4, "X"),
        Err(DiskError::UnsupportedFilesystem("ext4 is not supported on macOS".to_string()))
    );
}

#[test]
fn macos_list_devices_checks_the_command_first() {
    let manager = MacOSDiskManager::new();
    assert_eq!(
        manager.list_devices(Err("No such file or directory".to_string())),
        Err(DiskError::IoError("No such file or directory".to_string()))
    );
    assert_eq!(
        manager.list_devices(Ok(output(false, LISTING, "boom"))),
        Err(DiskError::CommandFailed("boom".to_string()))
    );
    assert_eq!(manager.list_devices(Ok(output(true, LISTING, "warning"))).unwrap().len(), 2);
}

#[test]
fn macos_privileges_are_the_superusers() {
    let manager = MacOSDiskManager::new();
    assert!(manager.has_privileges(0));
    assert!(!manager.has_privileges(501));
}

#[test]
fn macos_verdicts() {
    let manager = MacOSDiskManager::new();
    assert_eq!(manager.unmount_result(Ok(output(true, "", ""))), Ok(()));
    assert_eq!(
        manager.unmount_result(Ok(output(false, "", "Resource busy"))),
        Err(DiskError::DeviceBusy)
    );
    assert_eq!(
        manager.format_result(Ok(output(false, "", "disk is busy"))),
        Err(DiskError::DeviceBusy)
    );
    assert_eq!(
        manager.format_result(Ok(output(false, "", "no such disk"))),
        Err(DiskError::CommandFailed("no such disk".to_string()))
    );
    assert_eq!(
        manager.eject_result(Ok(output(false, "", "busy"))),
        Err(DiskError::CommandFailed("busy".to_string()))
    );
}

const HEAD: &str = "<?xml version=\"1.0\" encoding=\"UTF-8\"?>\n<!DOCTYPE plist PUBLIC \"-//Apple//DTD PLIST 1.0//EN\" \"http://www.apple.com/DTDs/PropertyList-1.0.dtd\">\n<plist version=\"1.0\">\n";

fn document(body: &str) -> String {
    format!("{}{}\n</plist>\n", HEAD, body)
}

fn refused() -> Result<Vec<Device>, DiskError> {
    Err(DiskError::ParseError("Not a plain XML property list".to_string()))
}

#[test]
fn real_listing_is_plain() {
    assert!(is_plain(LISTING));
    assert!(is_plain(&document("<dict/>")));
    assert!(is_plain(&document("<dict><key>a &gt; b</key><string>x > y</string></dict>")));
    assert!(is_plain("<?xml version=\"1.0\" encoding=\"UTF-8\"?>"));
}

#[test]
fn other_encodings_are_refused_unread() {
    let manager = MacOSDiskManager::new();
    for text in ["", "not a plist", "bplist00\u{0}\u{1}", "{ AllDisksAndPartitions = (); }", "((((("] {
        assert!(!is_plain(text));
        assert_eq!(manager.parse_diskutil_output(text), refused());
    }
    let late_declaration = format!(" {}", document("<dict/>"));
    assert_eq!(manager.parse_diskutil_output(&late_declaration), refused());
}

#[test]
fn dates_are_refused_unread() {
    let manager = MacOSDiskManager::new();
    for date in [
        "<date>9999-12-31T23:59:59-01:00</date>",
        "<date>0000-01-01T00:00:00+01:00</date>",
        "<date>2024-01-01T00:00:00Z</date>",
    ] {
        let text = document(&format!("<dict><key>d</key>{}</dict>", date));
        assert!(!is_plain(&text));
        assert_eq!(manager.parse_diskutil_output(&text), refused());
    }
}

#[test]
fn markup_beyond_the_listing_elements_is_refused_unread() {
    let manager = MacOSDiskManager::new();
    for body in [
        "<!-- </dict> --><dict/>",
        "<?target data?><dict/>",
        "<![CDATA[x]]><dict/>",
        "<dict a=\"b\"></dict>",
        "<dict ></dict>",
        "<x:dict></x:dict>",
        "<DICT></DICT>",
        "<dict><key>a</key><string>b<c</string></dict>",
        "<",
    ] {
        let text = document(body);
        assert!(!is_plain(&text), "{}", body);
        assert_eq!(manager.parse_diskutil_output(&text), refused());
    }
}

#[test]
fn nesting_is_bounded_and_proper() {
    let manager = MacOSDiskManager::new();
    let nested = |depth: usize| document(&format!("{}{}", "<array>".repeat(depth), "</array>".repeat(depth)));
    assert_eq!(NESTING_LIMIT, 32);
    assert!(is_plain(&nested(32)));
    assert_eq!(
        manager.parse_diskutil_output(&nested(32)),
        Err(DiskError::ParseError("Missing AllDisksAndPartitions".to_string()))
    );
    assert!(!is_plain(&nested(33)));
    assert_eq!(manager.parse_diskutil_output(&nested(33)), refused());
    assert_eq!(manager.parse_diskutil_output(&nested(200_000)), refused());
    for body in ["<dict></array>", "</dict>", "<array><dict></array></dict>"] {
        assert!(!is_plain(&document(body)), "{}", body);
    }
    let holding = |depth: usize| {
        document(&format!("{}<dict/>{}", "<array>".repeat(depth), "</array>".repeat(depth)))
    };
    assert!(is_plain(&holding(31)));
    assert!(!is_plain(&holding(32)));
    let many_flat = document(&format!("<array>{}</array>", "<dict></dict>".repeat(500)));
    assert!(is_plain(&many_flat));
}

#[test]
fn parser_errors_come_back_in_the_parsers_words() {
    let manager = MacOSDiskManager::new();
    let text = document("<dict><key>Size</key><integer>twelve</integer></dict>");
    assert!(is_plain(&text));
    match manager.parse_diskutil_output(&text) {
        Err(DiskError::ParseError(words)) => {
            assert!(words.contains("InvalidIntegerString"), "{}", words);
        }
        other => panic!("{:?}", other),
    }
    let unclosed = format!("{}<dict><key>a</key>", HEAD);
    assert!(is_plain(&unclosed));
    match manager.parse_diskutil_output(&unclosed) {
        Err(DiskError::ParseError(words)) => {
            assert_ne!(words, "Not a plain XML property list");
            assert_ne!(words, "Missing AllDisksAndPartitions");
        }
        other => panic!("{:?}", other),
    }
}

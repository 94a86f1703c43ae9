//! The macOS device manager: `diskutil` is the native tool, and its
//! property-list output is the source of the device list.

use vstd::prelude::*;
use vstd::string::*;
use crate::disk_ops::{
    judge_plain,
    judge_unmount,
    CommandLine,
    CommandLineView,
    CommandOutput,
    DiskManager,
};
use crate::model::{
    listing_view,
    Device,
    DeviceView,
    DiskError,
    DiskErrorView,
    FileSystemType,
};
use crate::text::{
    char_is_digit,
    chars_of,
    is_digit,
    matches_at,
    occurs_at,
    starts_with,
    str_eq,
    str_starts_with,
};

verus! {

/// A value of a property list, as far as the device list reads one. A
/// dictionary keeps its entries in document order, each key once.
#[derive(Debug, PartialEq, Eq)]
pub enum PlistNode {
    Array(Vec<PlistNode>),
    Dictionary(Vec<(String, PlistNode)>),
    /// An integer; the number is present where it is not negative.
    Integer(Option<u64>),
    Text(String),
    /// Any other kind of value: booleans, reals, dates, data, UIDs.
    Other,
}

/// The first entry of `entries` under `key`.
pub open spec fn lookup(entries: Seq<(String, PlistNode)>, key: Seq<char>) -> Option<PlistNode>
    decreases entries.len(),
{
    if entries.len() == 0 {
        None
    } else if entries[0].0@ == key {
        Some(entries[0].1)
    } else {
        lookup(entries.drop_first(), key)
    }
}

impl PlistNode {
    /// The value under `key`, if this is a dictionary that has one.
    pub open spec fn entry(self, key: Seq<char>) -> Option<PlistNode> {
        match self {
            PlistNode::Dictionary(entries) => lookup(entries@, key),
            _ => None,
        }
    }

    /// The elements, if this is an array.
    pub open spec fn items(self) -> Option<Seq<PlistNode>> {
        match self {
            PlistNode::Array(items) => Some(items@),
            _ => None,
        }
    }

    /// The characters, if this is a string.
    pub open spec fn text(self) -> Option<Seq<char>> {
        match self {
            PlistNode::Text(text) => Some(text@),
            _ => None,
        }
    }

    /// The number, if this is an integer that is not negative.
    pub open spec fn unsigned(self) -> Option<u64> {
        match self {
            PlistNode::Integer(number) => number,
            _ => None,
        }
    }

    /// The string under `key`, or `fallback` where there is none.
    pub open spec fn text_or(self, key: Seq<char>, fallback: Seq<char>) -> Seq<char> {
        match self.entry(key) {
            Some(node) => match node.text() {
                Some(text) => text,
                None => fallback,
            },
            None => fallback,
        }
    }

    /// The number under `key`, or zero where there is none.
    pub open spec fn unsigned_or_zero(self, key: Seq<char>) -> u64 {
        match self.entry(key) {
            Some(node) => match node.unsigned() {
                Some(number) => number,
                None => 0,
            },
            None => 0,
        }
    }

    /// The value under `key`, if this is a dictionary that has one.
    pub fn get(&self, key: &str) -> (found: Option<&PlistNode>)
        ensures
            match found {
                Some(node) => self.entry(key@) == Some(*node),
                None => self.entry(key@) is None,
            },
    {
        match self {
            PlistNode::Dictionary(entries) => {
                let mut i: usize = 0;
                assert(entries@.skip(0) =~= entries@);
                while i < entries.len()
                    invariant
                        i <= entries.len(),
                        self.entry(key@) == lookup(entries@.skip(i as int), key@),
                    decreases entries.len() - i,
                {
                    let ghost rest = entries@.skip(i as int);
                    assert(rest[0] == entries@[i as int]);
                    assert(rest.drop_first() =~= entries@.skip(i + 1));
                    if str_eq(entries[i].0.as_str(), key) {
                        assert(lookup(rest, key@) == Some(rest[0].1));
                        return Some(&entries[i].1);
                    }
                    i += 1;
                }
                None
            },
            _ => None,
        }
    }

    /// The elements, if this is an array.
    pub fn as_array(&self) -> (items: Option<&Vec<PlistNode>>)
        ensures
            match items {
                Some(v) => self.items() == Some(v@),
                None => self.items() is None,
            },
    {
        match self {
            PlistNode::Array(items) => Some(items),
            _ => None,
        }
    }

    /// The characters, if this is a string.
    pub fn as_string(&self) -> (text: Option<&str>)
        ensures
            match text {
                Some(t) => self.text() == Some(t@),
                None => self.text() is None,
            },
    {
        match self {
            PlistNode::Text(text) => Some(text.as_str()),
            _ => None,
        }
    }

    /// The number, if this is an integer that is not negative.
    pub fn as_unsigned_integer(&self) -> (number: Option<u64>)
        ensures
            number == self.unsigned(),
    {
        match self {
            PlistNode::Integer(number) => *number,
            _ => None,
        }
    }

    fn string_or<'a>(&'a self, key: &str, fallback: &'a str) -> (text: &'a str)
        ensures
            text@ == self.text_or(key@, fallback@),
    {
        match self.get(key) {
            Some(node) => match node.as_string() {
                Some(text) => text,
                None => fallback,
            },
            None => fallback,
        }
    }

    fn number_or_zero(&self, key: &str) -> (number: u64)
        ensures
            number == self.unsigned_or_zero(key@),
    {
        match self.get(key) {
            Some(node) => match node.as_unsigned_integer() {
                Some(number) => number,
                None => 0,
            },
            None => 0,
        }
    }
}

/// `id` names a partition: it holds an `s` with nothing but digits behind
/// it, as in `disk0s1`.
pub open spec fn is_partition_identifier(id: Seq<char>) -> bool {
    exists|i: int|
        0 <= i < id.len() && #[trigger] id[i] == 's' && forall|j: int|
            i < j < id.len() ==> is_digit(#[trigger] id[j])
}

/// Whether `identifier` names a partition rather than a whole disk.
pub fn is_partition(identifier: &str) -> (b: bool)
    ensures
        b == is_partition_identifier(identifier@),
{
    let chars = chars_of(identifier);
    let mut j: usize = chars.len();
    while j > 0 && char_is_digit(chars[j - 1])
        invariant
            j <= chars.len(),
            forall|k: int| j <= k < chars.len() ==> is_digit(#[trigger] chars@[k]),
        decreases j,
    {
        j -= 1;
    }
    if j > 0 && chars[j - 1] == 's' {
        assert(chars@[j - 1] == 's');
        true
    } else {
        assert forall|i: int| 0 <= i < chars@.len() && #[trigger] chars@[i] == 's' implies !(
        forall|k: int| i < k < chars@.len() ==> is_digit(#[trigger] chars@[k])) by {
            if i >= j {
                assert(is_digit(chars@[i]));
            } else if j > 0 && i < j - 1 {
                assert(!is_digit(chars@[j - 1]));
            }
        }
        false
    }
}

/// `id` has a partition separator at `at`: an `s` that follows a digit.
pub open spec fn separator_at(id: Seq<char>, at: int) -> bool {
    1 <= at < id.len() && id[at] == 's' && is_digit(id[at - 1])
}

/// The last partition separator of `id` before `below`, or zero where
/// there is none.
pub open spec fn last_separator(id: Seq<char>, below: int) -> int
    decreases below,
{
    if below <= 1 {
        0
    } else if separator_at(id, below - 1) {
        below - 1
    } else {
        last_separator(id, below - 1)
    }
}

/// The whole disk that the identifier `id` belongs to: `id` up to its last
/// partition separator, or all of `id` where it has none.
pub open spec fn parent_disk(id: Seq<char>) -> Seq<char> {
    let at = last_separator(id, id.len() as int);
    if at == 0 {
        id
    } else {
        id.take(at)
    }
}

/// The whole disk of a partition identifier: `disk4s1` gives `disk4`, and
/// an identifier without a partition part is returned as it is.
pub fn extract_parent_disk(identifier: &str) -> (disk: String)
    ensures
        disk@ == parent_disk(identifier@),
{
    let chars = chars_of(identifier);
    let mut i: usize = chars.len();
    while i > 1
        invariant
            i <= chars.len(),
            chars@ == identifier@,
            last_separator(chars@, chars@.len() as int) == last_separator(chars@, i as int),
        decreases i,
    {
        if chars[i - 1] == 's' && char_is_digit(chars[i - 2]) {
            assert(chars@.take(i - 1) =~= chars@.subrange(0, i - 1));
            return String::from_str(identifier.substring_char(0, i - 1));
        }
        i -= 1;
    }
    String::from_str(identifier)
}

/// A partition that is mounted as the root filesystem.
pub open spec fn mounted_at_root(partition: PlistNode) -> bool {
    match partition.entry("MountPoint"@) {
        Some(node) => node.text() == Some("/"@),
        None => false,
    }
}

/// One of the partitions listed under a disk is mounted as the root
/// filesystem.
pub open spec fn hosts_root(disk: PlistNode) -> bool {
    match disk.entry("Partitions"@) {
        Some(node) => match node.items() {
            Some(partitions) => exists|i: int|
                0 <= i < partitions.len() && mounted_at_root(#[trigger] partitions[i]),
            None => false,
        },
        None => false,
    }
}

/// The device that one entry of the disk list stands for. Entries that are
/// no dictionary, that have no size, or that name a partition stand for
/// none. The first disk and the disk that hosts the root filesystem are
/// protected.
pub open spec fn diskutil_device(disk: PlistNode) -> Option<DeviceView> {
    let id = disk.text_or("DeviceIdentifier"@, "unknown"@);
    let size = disk.unsigned_or_zero("Size"@);
    let is_system = id == "disk0"@ || hosts_root(disk);
    if disk is Dictionary && size > 0 && !is_partition_identifier(id) {
        Some(
            DeviceView {
                path: "/dev/"@ + id,
                name: "Disk "@ + id,
                size_bytes: size,
                filesystem: disk.text_or("Content"@, "Unknown"@),
                label: id,
                mount_point: None,
                is_protected: is_system,
                is_removable: !is_system,
            },
        )
    } else {
        None
    }
}

/// The devices that the entries `disks` stand for, in order.
pub open spec fn diskutil_devices(disks: Seq<PlistNode>) -> Seq<DeviceView>
    decreases disks.len(),
{
    if disks.len() == 0 {
        Seq::empty()
    } else {
        let earlier = diskutil_devices(disks.drop_last());
        match diskutil_device(disks.last()) {
            Some(device) => earlier.push(device),
            None => earlier,
        }
    }
}

/// The device list that a property list holds: the devices of its
/// `AllDisksAndPartitions` array, or a parse error where it has none.
pub open spec fn diskutil_listing(root: PlistNode) -> Result<Seq<DeviceView>, DiskErrorView> {
    match root.entry("AllDisksAndPartitions"@) {
        Some(node) => match node.items() {
            Some(disks) => Ok(diskutil_devices(disks)),
            None => Err(DiskErrorView::ParseError("Missing AllDisksAndPartitions"@)),
        },
        None => Err(DiskErrorView::ParseError("Missing AllDisksAndPartitions"@)),
    }
}

fn partition_is_root(partition: &PlistNode) -> (b: bool)
    ensures
        b == mounted_at_root(*partition),
{
    match partition.get("MountPoint") {
        Some(node) => match node.as_string() {
            Some(text) => str_eq(text, "/"),
            None => false,
        },
        None => false,
    }
}

fn disk_hosts_root(disk: &PlistNode) -> (b: bool)
    ensures
        b == hosts_root(*disk),
{
    match disk.get("Partitions") {
        Some(node) => match node.as_array() {
            Some(partitions) => {
                let mut i: usize = 0;
                while i < partitions.len()
                    invariant
                        i <= partitions.len(),
                        disk.entry("Partitions"@) == Some(*node),
                        node.items() == Some(partitions@),
                        forall|k: int| 0 <= k < i ==> !mounted_at_root(#[trigger] partitions@[k]),
                    decreases partitions.len() - i,
                {
                    if partition_is_root(&partitions[i]) {
                        proof {
                            let listed = node.items()->0;
                            assert(0 <= i < listed.len() && mounted_at_root(listed[i as int]));
                            assert(hosts_root(*disk));
                        }
                        return true;
                    }
                    i += 1;
                }
                false
            },
            None => false,
        },
        None => false,
    }
}

fn device_of_disk(disk: &PlistNode) -> (device: Option<Device>)
    ensures
        match device {
            Some(d) => diskutil_device(*disk) == Some(d@),
            None => diskutil_device(*disk) is None,
        },
{
    match disk {
        PlistNode::Dictionary(_) => {},
        _ => {
            return None;
        },
    }
    let id = disk.string_or("DeviceIdentifier", "unknown");
    let size = disk.number_or_zero("Size");
    let content = disk.string_or("Content", "Unknown");
    let is_system = str_eq(id, "disk0") || disk_hosts_root(disk);
    if size > 0 && !is_partition(id) {
        Some(
            Device {
                path: String::from_str("/dev/").concat(id),
                name: String::from_str("Disk ").concat(id),
                size_bytes: size,
                filesystem: String::from_str(content),
                label: String::from_str(id),
                mount_point: None,
                is_protected: is_system,
                is_removable: !is_system,
            },
        )
    } else {
        None
    }
}

/// Reads the device list out of a parsed property list.
pub fn devices_from_plist(root: &PlistNode) -> (listing: Result<Vec<Device>, DiskError>)
    ensures
        listing_view(listing) == diskutil_listing(*root),
{
    let disks = match root.get("AllDisksAndPartitions") {
        Some(node) => match node.as_array() {
            Some(disks) => disks,
            None => {
                return Err(
                    DiskError::ParseError(String::from_str("Missing AllDisksAndPartitions")),
                );
            },
        },
        None => {
            return Err(DiskError::ParseError(String::from_str("Missing AllDisksAndPartitions")));
        },
    };
    let mut devices: Vec<Device> = Vec::new();
    let mut i: usize = 0;
    while i < disks.len()
        invariant
            i <= disks.len(),
            devices.deep_view() == diskutil_devices(disks@.take(i as int)),
        decreases disks.len() - i,
    {
        let ghost before = devices.deep_view();
        assert(disks@.take(i + 1).drop_last() =~= disks@.take(i as int));
        assert(disks@.take(i + 1).last() == disks@[i as int]);
        match device_of_disk(&disks[i]) {
            Some(device) => {
                devices.push(device);
                assert(devices.deep_view() =~= before.push(device@));
            },
            None => {},
        }
        i += 1;
    }
    assert(disks@.take(disks@.len() as int) =~= disks@);
    Ok(devices)
}

/// A piece of markup in a property list, by what it does to the nesting:
/// it opens a dictionary (`true`) or an array (`false`), closes one, is an
/// empty container, which opens and closes at once, or leaves the nesting
/// alone.
#[derive(Debug, Clone, Copy, PartialEq, Eq, Structural)]
pub enum Markup {
    Open(bool),
    Close(bool),
    Empty,
    Other,
}

/// How deep dictionaries and arrays may nest in a listing. `diskutil` nests
/// no deeper than a partition inside a disk inside the list.
pub const NESTING_LIMIT: usize = 32;

/// The markup that a listing is made of: the XML declaration, the document
/// type, and the elements of a property list, dates left out. `diskutil`
/// writes nothing else.
pub open spec fn markups() -> Seq<(Seq<char>, Markup)> {
    seq![
        ("<?xml version=\"1.0\" encoding=\"UTF-8\"?>"@, Markup::Other),
        (
            "<!DOCTYPE plist PUBLIC \"-//Apple//DTD PLIST 1.0//EN\" \"http://www.apple.com/DTDs/PropertyList-1.0.dtd\">"@,
            Markup::Other,
        ),
        (
            "<!DOCTYPE plist PUBLIC \"-//Apple Computer//DTD PLIST 1.0//EN\" \"http://www.apple.com/DTDs/PropertyList-1.0.dtd\">"@,
            Markup::Other,
        ),
        ("<plist version=\"1.0\">"@, Markup::Other),
        ("</plist>"@, Markup::Other),
        ("<dict>"@, Markup::Open(true)),
        ("</dict>"@, Markup::Close(true)),
        ("<dict/>"@, Markup::Empty),
        ("<array>"@, Markup::Open(false)),
        ("</array>"@, Markup::Close(false)),
        ("<array/>"@, Markup::Empty),
        ("<key>"@, Markup::Other),
        ("</key>"@, Markup::Other),
        ("<string>"@, Markup::Other),
        ("</string>"@, Markup::Other),
        ("<string/>"@, Markup::Other),
        ("<integer>"@, Markup::Other),
        ("</integer>"@, Markup::Other),
        ("<real>"@, Markup::Other),
        ("</real>"@, Markup::Other),
        ("<data>"@, Markup::Other),
        ("</data>"@, Markup::Other),
        ("<data/>"@, Markup::Other),
        ("<true/>"@, Markup::Other),
        ("<false/>"@, Markup::Other),
    ]
}

/// The first piece of `list` that stands in `text` at `at`.
pub open spec fn markup_among(text: Seq<char>, at: int, list: Seq<(Seq<char>, Markup)>) -> Option<
    (Seq<char>, Markup),
>
    decreases list.len(),
{
    if list.len() == 0 {
        None
    } else if list[0].0.len() > 0 && occurs_at(text, list[0].0, at) {
        Some(list[0])
    } else {
        markup_among(text, at, list.drop_first())
    }
}

/// From `at` on, with the containers `open` not yet closed, every `<` of
/// `text` begins a piece of `markups()`, every closing tag closes the
/// container that was opened last, and never more than `NESTING_LIMIT`
/// containers are open.
pub open spec fn nests_from(text: Seq<char>, at: int, open: Seq<bool>) -> bool
    decreases text.len() - at,
{
    if at < 0 || at >= text.len() {
        true
    } else if text[at] != '<' {
        nests_from(text, at + 1, open)
    } else {
        match markup_among(text, at, markups()) {
            None => false,
            Some((token, Markup::Open(kind))) => 0 < token.len() <= text.len() - at && open.len()
                < NESTING_LIMIT && nests_from(text, at + token.len(), open.push(kind)),
            Some((token, Markup::Close(kind))) => 0 < token.len() <= text.len() - at && open.len()
                > 0 && open.last() == kind && nests_from(
                text,
                at + token.len(),
                open.drop_last(),
            ),
            Some((token, Markup::Empty)) => 0 < token.len() <= text.len() - at && open.len()
                < NESTING_LIMIT && nests_from(text, at + token.len(), open),
            Some((token, Markup::Other)) => 0 < token.len() <= text.len() - at && nests_from(
                text,
                at + token.len(),
                open,
            ),
        }
    }
}

/// `text` is a plain XML listing: it begins with the XML declaration, its
/// markup is that of `markups()` and nothing else, and its containers nest
/// properly and no deeper than `NESTING_LIMIT`. What `diskutil list -plist`
/// prints is of this form. Text in the binary or the ASCII encoding, text
/// with a date, a comment or a processing instruction, and text that nests
/// without bound are not.
pub open spec fn is_plain_listing(text: Seq<char>) -> bool {
    starts_with(text, "<?xml version=\"1.0\" encoding=\"UTF-8\"?>"@) && nests_from(
        text,
        0,
        Seq::empty(),
    )
}

/// The view of a list of markup.
pub open spec fn markups_view(list: Seq<(&'static str, Markup)>) -> Seq<(Seq<char>, Markup)> {
    Seq::new(list.len(), |i: int| (list[i].0@, list[i].1))
}

fn markup_list() -> (list: Vec<(&'static str, Markup)>)
    ensures
        markups_view(list@) == markups(),
{
    let mut list: Vec<(&'static str, Markup)> = Vec::new();
    list.push(("<?xml version=\"1.0\" encoding=\"UTF-8\"?>", Markup::Other));
    list.push(
        (
            "<!DOCTYPE plist PUBLIC \"-//Apple//DTD PLIST 1.0//EN\" \"http://www.apple.com/DTDs/PropertyList-1.0.dtd\">",
            Markup::Other,
        ),
    );
    list.push(
        (
            "<!DOCTYPE plist PUBLIC \"-//Apple Computer//DTD PLIST 1.0//EN\" \"http://www.apple.com/DTDs/PropertyList-1.0.dtd\">",
            Markup::Other,
        ),
    );
    list.push(("<plist version=\"1.0\">", Markup::Other));
    list.push(("</plist>", Markup::Other));
    list.push(("<dict>", Markup::Open(true)));
    list.push(("</dict>", Markup::Close(true)));
    list.push(("<dict/>", Markup::Empty));
    list.push(("<array>", Markup::Open(false)));
    list.push(("</array>", Markup::Close(false)));
    list.push(("<array/>", Markup::Empty));
    list.push(("<key>", Markup::Other));
    list.push(("</key>", Markup::Other));
    list.push(("<string>", Markup::Other));
    list.push(("</string>", Markup::Other));
    list.push(("<string/>", Markup::Other));
    list.push(("<integer>", Markup::Other));
    list.push(("</integer>", Markup::Other));
    list.push(("<real>", Markup::Other));
    list.push(("</real>", Markup::Other));
    list.push(("<data>", Markup::Other));
    list.push(("</data>", Markup::Other));
    list.push(("<data/>", Markup::Other));
    list.push(("<true/>", Markup::Other));
    list.push(("<false/>", Markup::Other));
    assert(markups_view(list@) =~= markups());
    list
}

/// The piece of `list` that stands in `chars` at `at`, as its length and
/// its kind.
fn find_markup(chars: &Vec<char>, at: usize, list: &Vec<(&'static str, Markup)>) -> (found: Option<
    (usize, Markup),
>)
    requires
        at <= chars.len(),
    ensures
        match found {
            Some((len, kind)) => {
                &&& markup_among(chars@, at as int, markups_view(list@)) matches Some(
                    (token, same),
                )
                &&& token.len() == len
                &&& same == kind
                &&& 0 < len
                &&& at + len <= chars.len()
            },
            None => markup_among(chars@, at as int, markups_view(list@)) is None,
        },
{
    let ghost all = markups_view(list@);
    let mut k: usize = 0;
    assert(all.skip(0) =~= all);
    while k < list.len()
        invariant
            k <= list.len(),
            at <= chars.len(),
            all == markups_view(list@),
            markup_among(chars@, at as int, all) == markup_among(
                chars@,
                at as int,
                all.skip(k as int),
            ),
        decreases list.len() - k,
    {
        let ghost rest = all.skip(k as int);
        assert(rest[0] == all[k as int]);
        assert(rest.drop_first() =~= all.skip(k + 1));
        let token = chars_of(list[k].0);
        if token.len() > 0 && token.len() <= chars.len() - at && matches_at(chars, &token, at) {
            return Some((token.len(), list[k].1));
        }
        k += 1;
    }
    None
}

/// Whether `text` is a plain XML listing.
pub fn is_plain(text: &str) -> (plain: bool)
    ensures
        plain == is_plain_listing(text@),
{
    if !str_starts_with(text, "<?xml version=\"1.0\" encoding=\"UTF-8\"?>") {
        return false;
    }
    let chars = chars_of(text);
    let list = markup_list();
    let n: usize = chars.len();
    let mut open: Vec<bool> = Vec::new();
    let mut i: usize = 0;
    while i < n
        invariant
            i <= n == chars.len(),
            chars@ == text@,
            markups_view(list@) == markups(),
            open.len() <= NESTING_LIMIT,
            nests_from(text@, 0, Seq::empty()) == nests_from(text@, i as int, open@),
        decreases n - i,
    {
        if chars[i] != '<' {
            i += 1;
        } else {
            match find_markup(&chars, i, &list) {
                None => {
                    return false;
                },
                Some((len, kind)) => {
                    let ghost before = open@;
                    match kind {
                        Markup::Open(container) => {
                            if open.len() >= NESTING_LIMIT {
                                return false;
                            }
                            open.push(container);
                        },
                        Markup::Close(container) => {
                            if open.len() == 0 || open[open.len() - 1] != container {
                                return false;
                            }
                            let _ = open.pop();
                            assert(open@ =~= before.drop_last());
                        },
                        Markup::Empty => {
                            if open.len() >= NESTING_LIMIT {
                                return false;
                            }
                        },
                        Markup::Other => {},
                    }
                    i += len;
                },
            }
        }
    }
    true
}

/// `plist::Value`, a parsed property-list value; nothing is known of what
/// is inside one but through `plist_content`.
#[verifier::external_type_specification]
#[verifier::external_body]
pub struct ExPlistValue(plist::Value);

/// `plist::Error`, why a property list could not be parsed; nothing is
/// known of one but its words, through `plist_error_words`.
#[verifier::external_type_specification]
#[verifier::external_body]
pub struct ExPlistError(plist::Error);

/// What parsing `text` as a property list gives: the document, or the
/// parser's words for why there is none.
pub uninterp spec fn plist_document(text: Seq<char>) -> Result<PlistNode, Seq<char>>;

/// What a parsed property-list value holds.
pub uninterp spec fn plist_content(value: plist::Value) -> PlistNode;

/// A parse error in words.
pub uninterp spec fn plist_error_words(error: plist::Error) -> Seq<char>;

/// `plist::from_bytes`, read as a `plist::Value`, on the bytes of `text`.
/// Trusted: the call parses the text and nothing else, so what it returns,
/// document or error, is fixed by the text. Only plain XML listings are
/// handed to it: the parser can panic on a date that is out of range, in
/// either encoding that has dates, and it recurses once for every level
/// of nesting.
#[verifier::external_body]
fn plist_from_text(text: &str) -> (parsed: Result<plist::Value, plist::Error>)
    requires
        is_plain_listing(text@),
    ensures
        match parsed {
            Ok(value) => plist_document(text@) == Ok::<PlistNode, Seq<char>>(
                plist_content(value),
            ),
            Err(e) => plist_document(text@) == Err::<PlistNode, Seq<char>>(plist_error_words(e)),
        },
{
    plist::from_bytes::<plist::Value>(text.as_bytes())
}

/// Copies a `plist::Value` into a `PlistNode`, variant by variant. Trusted:
/// arrays and dictionaries are copied element by element in order, strings
/// as they are, an integer by `plist::Integer::as_unsigned`, and every other
/// variant becomes `Other`.
#[verifier::external_body]
fn plist_node(value: &plist::Value) -> (node: PlistNode)
    ensures
        node == plist_content(*value),
{
    match value {
        plist::Value::Array(items) => PlistNode::Array(items.iter().map(plist_node).collect()),
        plist::Value::Dictionary(entries) => PlistNode::Dictionary(
            entries.iter().map(|(key, item)| (key.clone(), plist_node(item))).collect(),
        ),
        plist::Value::Integer(number) => PlistNode::Integer(number.as_unsigned()),
        plist::Value::String(text) => PlistNode::Text(text.clone()),
        _ => PlistNode::Other,
    }
}

/// The `Display` text of a `plist::Error`. Trusted: the text is fixed by
/// the error.
#[verifier::external_body]
fn plist_error_text(error: &plist::Error) -> (text: String)
    ensures
        text@ == plist_error_words(*error),
{
    error.to_string()
}

/// What parsing `output` as a device list gives. Output that is no plain
/// XML listing is refused unread. Of a plain listing it is the device list
/// of the document that the text holds, or a parse error with the parser's
/// words where it holds none.
pub open spec fn parsed_listing(output: Seq<char>) -> Result<Seq<DeviceView>, DiskErrorView> {
    if !is_plain_listing(output) {
        Err(DiskErrorView::ParseError("Not a plain XML property list"@))
    } else {
        match plist_document(output) {
            Ok(root) => diskutil_listing(root),
            Err(words) => Err(DiskErrorView::ParseError(words)),
        }
    }
}

/// Whether `listing` is what parsing `output` as a device list gives.
pub open spec fn parses_to(output: Seq<char>, listing: Result<Vec<Device>, DiskError>) -> bool {
    listing_view(listing) == parsed_listing(output)
}

/// What the listing command's run amounts to.
pub open spec fn lists_as(
    ran: Result<CommandOutput, String>,
    listing: Result<Vec<Device>, DiskError>,
) -> bool {
    match ran {
        Err(detail) => listing_view(listing) == Err::<Seq<DeviceView>, DiskErrorView>(
            DiskErrorView::IoError(detail@),
        ),
        Ok(output) => if output.success {
            parses_to(output.stdout@, listing)
        } else {
            listing_view(listing) == Err::<Seq<DeviceView>, DiskErrorView>(
                DiskErrorView::CommandFailed(output.stderr@),
            )
        },
    }
}

/// The device manager for macOS.
#[derive(Debug, Clone, Copy, PartialEq, Eq)]
pub struct MacOSDiskManager;

impl MacOSDiskManager {
    /// The manager; it holds no state of its own.
    pub fn new() -> (manager: Self) {
        MacOSDiskManager
    }

    /// Parses the output of `diskutil list -plist` into the device list.
    /// Only a plain XML listing is handed to the parser; anything else is a
    /// parse error at once.
    pub fn parse_diskutil_output(&self, output: &str) -> (listing: Result<Vec<Device>, DiskError>)
        ensures
            parses_to(output@, listing),
    {
        if !is_plain(output) {
            return Err(DiskError::ParseError(String::from_str("Not a plain XML property list")));
        }
        match plist_from_text(output) {
            Ok(value) => {
                let root = plist_node(&value);
                devices_from_plist(&root)
            },
            Err(e) => Err(DiskError::ParseError(plist_error_text(&e))),
        }
    }

    /// The device list, from what running `list_command` gave: a command
    /// that could not be run is an I/O error, one that failed is reported
    /// with its error output, and the output of one that succeeded is
    /// parsed.
    pub fn list_devices(&self, ran: Result<CommandOutput, String>) -> (listing: Result<
        Vec<Device>,
        DiskError,
    >)
        ensures
            lists_as(ran, listing),
    {
        match ran {
            Err(detail) => Err(DiskError::IoError(detail)),
            Ok(output) => {
                if output.success {
                    self.parse_diskutil_output(output.stdout.as_str())
                } else {
                    Err(DiskError::CommandFailed(output.stderr))
                }
            },
        }
    }

    /// Whether a process of user `uid` has elevated privileges: only the
    /// superuser has.
    pub fn has_privileges(&self, uid: u32) -> (privileged: bool)
        ensures
            privileged == (uid == 0),
    {
        uid == 0
    }
}

/// A command with one argument.
pub open spec fn diskutil_plan(verb: Seq<char>, path: Seq<char>) -> CommandLineView {
    CommandLineView { program: "diskutil"@, args: seq![verb, path] }
}

fn diskutil_command(verb: &str, path: &str) -> (command: CommandLine)
    ensures
        command@ == diskutil_plan(verb@, path@),
{
    let mut args: Vec<String> = Vec::new();
    args.push(String::from_str(verb));
    args.push(String::from_str(path));
    assert(args.deep_view() =~= seq![verb@, path@]);
    CommandLine::new("diskutil", args)
}

impl DiskManager for MacOSDiskManager {
    open spec fn list_plan(&self) -> CommandLineView {
        diskutil_plan("list"@, "-plist"@)
    }

    open spec fn unmount_plan(&self, privileged: bool, path: Seq<char>) -> Result<
        CommandLineView,
        DiskErrorView,
    > {
        if privileged {
            Ok(diskutil_plan("unmountDisk"@, path))
        } else {
            Err(DiskErrorView::InsufficientPrivileges)
        }
    }

    open spec fn eject_plan(&self, privileged: bool, path: Seq<char>) -> Result<
        CommandLineView,
        DiskErrorView,
    > {
        if privileged {
            Ok(diskutil_plan("eject"@, path))
        } else {
            Err(DiskErrorView::InsufficientPrivileges)
        }
    }

    /// `diskutil eraseDisk` works on whole disks, so the target is the
    /// parent disk of whatever `path` names under `/dev/`. A filesystem
    /// that `diskutil` has no name for cannot be made on macOS.
    open spec fn format_plan(
        &self,
        privileged: bool,
        path: Seq<char>,
        fs_type: FileSystemType,
        label: Seq<char>,
    ) -> Result<CommandLineView, DiskErrorView> {
        if !privileged {
            Err(DiskErrorView::InsufficientPrivileges)
        } else if !starts_with(path, "/dev/"@) {
            Err(DiskErrorView::DeviceNotFound(path))
        } else {
            match fs_type.diskutil_format_text() {
                Some(format) => Ok(
                    CommandLineView {
                        program: "diskutil"@,
                        args: seq!["eraseDisk"@, format, label, parent_disk(path.skip(5))],
                    },
                ),
                None => Err(
                    DiskErrorView::UnsupportedFilesystem(
                        fs_type.display_text() + " is not supported on macOS"@,
                    ),
                ),
            }
        }
    }

    fn list_command(&self) -> (command: CommandLine) {
        diskutil_command("list", "-plist")
    }

    fn unmount(&self, privileged: bool, path: &str) -> (plan: Result<CommandLine, DiskError>) {
        if !privileged {
            return Err(DiskError::InsufficientPrivileges);
        }
        Ok(diskutil_command("unmountDisk", path))
    }

    fn unmount_result(&self, ran: Result<CommandOutput, String>) -> (verdict: Result<
        (),
        DiskError,
    >) {
        judge_unmount(ran)
    }

    fn eject(&self, privileged: bool, path: &str) -> (plan: Result<CommandLine, DiskError>) {
        if !privileged {
            return Err(DiskError::InsufficientPrivileges);
        }
        Ok(diskutil_command("eject", path))
    }

    fn eject_result(&self, ran: Result<CommandOutput, String>) -> (verdict: Result<(), DiskError>) {
        judge_plain(ran, false)
    }

    fn format(&self, privileged: bool, path: &str, fs_type: FileSystemType, label: &str) -> (plan:
        Result<CommandLine, DiskError>) {
        if !privileged {
            return Err(DiskError::InsufficientPrivileges);
        }
        let chars = chars_of(path);
        let prefix = chars_of("/dev/");
        proof {
            reveal_strlit("/dev/");
        }
        if prefix.len() > chars.len() || !matches_at(&chars, &prefix, 0) {
            return Err(DiskError::DeviceNotFound(String::from_str(path)));
        }
        let format = match fs_type.as_diskutil_format() {
            Some(format) => format,
            None => {
                return Err(
                    DiskError::UnsupportedFilesystem(
                        String::from_str(fs_type.display_name()).concat(
                            " is not supported on macOS",
                        ),
                    ),
                );
            },
        };
        let identifier = path.substring_char(5, chars.len());
        assert(identifier@ =~= path@.skip(5));
        let target = extract_parent_disk(identifier);
        let mut args: Vec<String> = Vec::new();
        args.push(String::from_str("eraseDisk"));
        args.push(String::from_str(format));
        args.push(String::from_str(label));
        args.push(target);
        assert(args.deep_view() =~= seq![
            "eraseDisk"@,
            format@,
            label@,
            parent_disk(path@.skip(5)),
        ]);
        Ok(CommandLine::new("diskutil", args))
    }

    fn format_result(&self, ran: Result<CommandOutput, String>) -> (verdict: Result<(), DiskError>) {
        judge_plain(ran, true)
    }
}

/// The raw node of a device: macOS has a buffered node `/dev/diskN` and a
/// raw node `/dev/rdiskN` for every disk, and whole-disk writes go to the
/// raw one. A path that names no buffered node stays as it is.
pub open spec fn raw_path(path: Seq<char>) -> Seq<char> {
    if starts_with(path, "/dev/disk"@) {
        "/dev/rdisk"@ + path.skip(9)
    } else {
        path
    }
}

/// The path of the raw node that belongs to `path`.
pub fn raw_device_path(path: &str) -> (raw: String)
    ensures
        raw@ == raw_path(path@),
{
    let chars = chars_of(path);
    let prefix = chars_of("/dev/disk");
    proof {
        reveal_strlit("/dev/disk");
    }
    if prefix.len() <= chars.len() && matches_at(&chars, &prefix, 0) {
        let rest = path.substring_char(9, chars.len());
        assert(rest@ =~= path@.skip(9));
        String::from_str("/dev/rdisk").concat(rest)
    } else {
        String::from_str(path)
    }
}

} // verus!

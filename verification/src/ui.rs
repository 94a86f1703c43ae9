//! What the presentation layer needs to know of a state and of a device
//! beyond their fields.

use vstd::prelude::*;
use vstd::string::*;
use crate::text::{replace_all, replaced};
use crate::model::{AppState, AppStateView, Device};

verus! {

/// The kinds of message box.
#[derive(Debug, Clone, Copy, PartialEq, Eq, Structural)]
pub enum MessageType {
    Info,
    Success,
    Error,
}

/// The kind of message box that a state is shown in, if it is shown in one.
pub open spec fn message_type_of(state: AppStateView) -> Option<MessageType> {
    match state {
        AppStateView::InProgress(_) => Some(MessageType::Info),
        AppStateView::Error(_) => Some(MessageType::Error),
        AppStateView::Success(_) => Some(MessageType::Success),
        _ => None,
    }
}

/// The kind of message box that `state` is shown in: a running operation
/// informs, and its outcome is a success or an error. Other states show no
/// message.
pub fn message_type(state: &AppState) -> (kind: Option<MessageType>)
    ensures
        kind == message_type_of(state@),
{
    match state {
        AppState::InProgress(_) => Some(MessageType::Info),
        AppState::Error(_) => Some(MessageType::Error),
        AppState::Success(_) => Some(MessageType::Success),
        _ => None,
    }
}

/// A device's status in a word: protection comes before mounting.
pub fn device_status(device: &Device) -> (status: &'static str)
    ensures
        status@ == (if device.is_protected {
            "Protected"@
        } else if device.mount_point is Some {
            "Mounted"@
        } else {
            "Unmounted"@
        }),
{
    if device.is_protected {
        "Protected"
    } else if device.mount_point.is_some() {
        "Mounted"
    } else {
        "Unmounted"
    }
}

/// The number of frames of the progress spinner.
pub const SPINNER_FRAMES: u64 = 10;

/// The spinner frame to show at `tick`.
pub fn spinner_frame(tick: u64) -> (frame: usize)
    ensures
        frame == tick % SPINNER_FRAMES,
{
    (tick % SPINNER_FRAMES) as usize
}

/// A partition or filesystem type as the device table shows it: without
/// the `Apple_` prefix and the `_Container` part, and with the recovery and
/// ISC markers in brackets.
pub open spec fn clean_filesystem_text(filesystem: Seq<char>) -> Seq<char> {
    replaced(
        replaced(
            replaced(replaced(filesystem, "Apple_"@, ""@), "_Container"@, ""@),
            "_Recovery"@,
            " (R)"@,
        ),
        "_ISC"@,
        " (ISC)"@,
    )
}

/// Tidies a partition or filesystem type for the device table.
pub fn clean_filesystem_name(filesystem: &str) -> (shown: String)
    ensures
        shown@ == clean_filesystem_text(filesystem@),
{
    proof {
        reveal_strlit("Apple_");
        reveal_strlit("_Container");
        reveal_strlit("_Recovery");
        reveal_strlit("_ISC");
    }
    let first = replace_all(filesystem, "Apple_", "");
    let second = replace_all(first.as_str(), "_Container", "");
    let third = replace_all(second.as_str(), "_Recovery", " (R)");
    replace_all(third.as_str(), "_ISC", " (ISC)")
}

/// A key and what it does, as the help bar shows them.
pub open spec fn binding(key: Seq<char>, action: Seq<char>) -> (Seq<char>, Seq<char>) {
    (key, action)
}

/// The key bindings that the help bar shows in a state.
pub open spec fn help_bindings_of(state: AppStateView) -> Seq<(Seq<char>, Seq<char>)> {
    match state {
        AppStateView::Idle => seq![
            binding("\u{2191}\u{2193}"@, "Navigate"@),
            binding("Enter"@, "Select"@),
            binding("r"@, "Refresh"@),
            binding("i"@, "Flash ISO"@),
            binding("q"@, "Quit"@),
        ],
        AppStateView::DeviceSelected(_) => seq![
            binding("u"@, "Unmount"@),
            binding("f"@, "Format"@),
            binding("Esc"@, "Back"@),
            binding("q"@, "Quit"@),
        ],
        _ => seq![binding("Esc"@, "Back"@), binding("q"@, "Quit"@)],
    }
}

/// The view of a list of bindings.
pub open spec fn bindings_view(bindings: Seq<(&'static str, &'static str)>) -> Seq<
    (Seq<char>, Seq<char>),
> {
    Seq::new(bindings.len(), |i: int| (bindings[i].0@, bindings[i].1@))
}

/// The key bindings to show in the help bar.
pub fn help_bindings(state: &AppState) -> (bindings: Vec<(&'static str, &'static str)>)
    ensures
        bindings_view(bindings@) == help_bindings_of(state@),
{
    let mut bindings: Vec<(&'static str, &'static str)> = Vec::new();
    match state {
        AppState::Idle => {
            bindings.push(("\u{2191}\u{2193}", "Navigate"));
            bindings.push(("Enter", "Select"));
            bindings.push(("r", "Refresh"));
            bindings.push(("i", "Flash ISO"));
            bindings.push(("q", "Quit"));
        },
        AppState::DeviceSelected(_) => {
            bindings.push(("u", "Unmount"));
            bindings.push(("f", "Format"));
            bindings.push(("Esc", "Back"));
            bindings.push(("q", "Quit"));
        },
        _ => {
            bindings.push(("Esc", "Back"));
            bindings.push(("q", "Quit"));
        },
    }
    assert(bindings_view(bindings@) =~= help_bindings_of(state@));
    bindings
}

} // verus!

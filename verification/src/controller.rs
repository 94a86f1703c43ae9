//! The operation controller: the one state machine that decides what the
//! user may do next. It never performs an operation itself. A transition
//! that starts one hands back what is to be run in the background, and the
//! outcome comes back later as a new state.

use vstd::prelude::*;
use vstd::string::*;
use crate::model::{AppState, AppStateView, Device, DeviceView, DiskError, FileSystemType, Iso, IsoView};
use crate::platform::PlatformManager;

verus! {

/// A key press, as far as the controller tells keys apart.
#[derive(Debug, Clone, Copy, PartialEq, Eq, Structural)]
pub enum Key {
    Char(char),
    Up,
    Down,
    Enter,
    Esc,
    Backspace,
    Other,
}

/// A background operation that a transition asks for.
#[derive(Debug, Clone, PartialEq, Eq)]
pub enum Operation {
    Unmount { path: String },
    Format { path: String, fs_type: FileSystemType, label: String },
    Flash { path: String, url: String, iso_name: String },
}

/// An operation with its strings as sequences of characters.
pub enum OperationView {
    Unmount { path: Seq<char> },
    Format { path: Seq<char>, fs_type: FileSystemType, label: Seq<char> },
    Flash { path: Seq<char>, url: Seq<char>, iso_name: Seq<char> },
}

impl View for Operation {
    type V = OperationView;

    open spec fn view(&self) -> OperationView {
        match self {
            Operation::Unmount { path } => OperationView::Unmount { path: path@ },
            Operation::Format { path, fs_type, label } => OperationView::Format {
                path: path@,
                fs_type: *fs_type,
                label: label@,
            },
            Operation::Flash { path, url, iso_name } => OperationView::Flash {
                path: path@,
                url: url@,
                iso_name: iso_name@,
            },
        }
    }
}

/// The view of what a transition asks for.
pub open spec fn request_view(request: Option<Operation>) -> Option<OperationView> {
    match request {
        Some(operation) => Some(operation@),
        None => None,
    }
}

/// The controller: the device list of the last scan, the selections, the
/// text typed so far, and the state.
#[derive(Debug, PartialEq, Eq)]
pub struct App {
    pub devices: Vec<Device>,
    pub selected_index: usize,
    pub state: AppState,
    pub input_buffer: String,
    pub fs_options: Vec<FileSystemType>,
    pub selected_fs_index: usize,
    pub isos: Vec<Iso>,
    pub selected_iso_index: usize,
    pub should_quit: bool,
    pub tick: u64,
}

/// The controller as the contracts see it.
pub struct AppView {
    pub devices: Seq<DeviceView>,
    pub selected_index: usize,
    pub state: AppStateView,
    pub input_buffer: Seq<char>,
    pub fs_options: Seq<FileSystemType>,
    pub selected_fs_index: usize,
    pub isos: Seq<IsoView>,
    pub selected_iso_index: usize,
    pub should_quit: bool,
    pub tick: u64,
}

impl View for App {
    type V = AppView;

    open spec fn view(&self) -> AppView {
        AppView {
            devices: self.devices.deep_view(),
            selected_index: self.selected_index,
            state: self.state@,
            input_buffer: self.input_buffer@,
            fs_options: self.fs_options@,
            selected_fs_index: self.selected_fs_index,
            isos: self.isos.deep_view(),
            selected_iso_index: self.selected_iso_index,
            should_quit: self.should_quit,
            tick: self.tick,
        }
    }
}

/// The position after `index` in a ring of `len` places.
pub open spec fn ring_next(index: usize, len: nat) -> usize {
    if len == 0 {
        index
    } else {
        ((index + 1) % (len as int)) as usize
    }
}

/// The position before `index` in a ring of `len` places; before the first
/// comes the last.
pub open spec fn ring_previous(index: usize, len: nat) -> usize {
    if len == 0 {
        index
    } else if index == 0 {
        (len - 1) as usize
    } else {
        (index - 1) as usize
    }
}

fn step_next(index: usize, len: usize) -> (next: usize)
    ensures
        next == ring_next(index, len as nat),
{
    if len == 0 {
        index
    } else {
        let next = (index % len + 1) % len;
        proof {
            vstd::arithmetic::div_mod::lemma_add_mod_noop(index as int, 1, len as int);
            vstd::arithmetic::div_mod::lemma_mod_twice(index as int, len as int);
            if len == 1 {
                assert((index + 1) % 1 == 0);
            } else {
                vstd::arithmetic::div_mod::lemma_small_mod(1, len as nat);
            }
        }
        next
    }
}

fn step_previous(index: usize, len: usize) -> (previous: usize)
    ensures
        previous == ring_previous(index, len as nat),
{
    if len == 0 {
        index
    } else if index == 0 {
        len - 1
    } else {
        index - 1
    }
}

/// What the driving loop is to do after a key press.
#[derive(Debug, PartialEq, Eq)]
pub enum Action {
    Nothing,
    /// Enumerate the devices again.
    Refresh,
    /// Start this operation in the background.
    Run(Operation),
}

/// An action with its strings as sequences of characters.
pub enum ActionView {
    Nothing,
    Refresh,
    Run(OperationView),
}

impl View for Action {
    type V = ActionView;

    open spec fn view(&self) -> ActionView {
        match self {
            Action::Nothing => ActionView::Nothing,
            Action::Refresh => ActionView::Refresh,
            Action::Run(operation) => ActionView::Run(operation@),
        }
    }
}

/// The action that carries out `request`, if there is one.
pub open spec fn action_for(request: Option<OperationView>) -> ActionView {
    match request {
        Some(operation) => ActionView::Run(operation),
        None => ActionView::Nothing,
    }
}

/// The complaint about a confirmation that does not match: it cites the
/// path that was expected and the text that was typed, both as they are.
pub open spec fn mismatch_message(expected: Seq<char>, typed: Seq<char>) -> Seq<char> {
    "Confirmation mismatch. Expected '"@ + expected + "', got '"@ + typed + "'"@
}

/// The name under which a device is formatted.
pub open spec fn format_label() -> Seq<char> {
    "UNTITLED"@
}

impl AppView {
    /// The device under the cursor, if the cursor is on one.
    pub open spec fn selected_device(self) -> Option<DeviceView> {
        if self.selected_index < self.devices.len() {
            Some(self.devices[self.selected_index as int])
        } else {
            None
        }
    }

    /// The filesystem under the menu cursor.
    pub open spec fn selected_fs(self) -> Option<FileSystemType> {
        if self.selected_fs_index < self.fs_options.len() {
            Some(self.fs_options[self.selected_fs_index as int])
        } else {
            None
        }
    }

    /// The image under the menu cursor.
    pub open spec fn selected_iso(self) -> Option<IsoView> {
        if self.selected_iso_index < self.isos.len() {
            Some(self.isos[self.selected_iso_index as int])
        } else {
            None
        }
    }

    /// The same controller in another state.
    pub open spec fn with_state(self, state: AppStateView) -> AppView {
        AppView { state, ..self }
    }

    pub open spec fn select_next(self) -> AppView {
        AppView { selected_index: ring_next(self.selected_index, self.devices.len()), ..self }
    }

    pub open spec fn select_previous(self) -> AppView {
        AppView { selected_index: ring_previous(self.selected_index, self.devices.len()), ..self }
    }

    pub open spec fn select_next_fs(self) -> AppView {
        AppView {
            selected_fs_index: ring_next(self.selected_fs_index, self.fs_options.len()),
            ..self
        }
    }

    pub open spec fn select_previous_fs(self) -> AppView {
        AppView {
            selected_fs_index: ring_previous(self.selected_fs_index, self.fs_options.len()),
            ..self
        }
    }

    pub open spec fn select_next_iso(self) -> AppView {
        AppView { selected_iso_index: ring_next(self.selected_iso_index, self.isos.len()), ..self }
    }

    pub open spec fn select_previous_iso(self) -> AppView {
        AppView {
            selected_iso_index: ring_previous(self.selected_iso_index, self.isos.len()),
            ..self
        }
    }

    /// Selecting needs something to select: with no devices nothing changes.
    pub open spec fn enter_select_mode(self) -> AppView {
        if self.devices.len() > 0 {
            self.with_state(AppStateView::DeviceSelected(self.selected_index))
        } else {
            self
        }
    }

    /// Opens the filesystem menu at its first entry; typed text is dropped.
    pub open spec fn enter_format_menu(self) -> AppView {
        AppView {
            state: AppStateView::FormattingMenu,
            selected_fs_index: 0,
            input_buffer: Seq::empty(),
            ..self
        }
    }

    /// Opens the image menu at its first entry.
    pub open spec fn enter_iso_selection(self) -> AppView {
        AppView { state: AppStateView::IsoSelection, selected_iso_index: 0, ..self }
    }

    /// Asks for the device's path before a flash; text typed earlier is
    /// dropped.
    pub open spec fn flash_selected_iso(self) -> AppView {
        match self.selected_device() {
            Some(device) => AppView {
                state: AppStateView::ConfirmFlash(device.path),
                input_buffer: Seq::empty(),
                ..self
            },
            None => self,
        }
    }

    /// Asks for the device's path before a format; text typed earlier is
    /// dropped.
    pub open spec fn enter_confirm_mode(self) -> AppView {
        match self.selected_device() {
            Some(device) => AppView {
                state: AppStateView::ConfirmDestructive(device.path),
                input_buffer: Seq::empty(),
                ..self
            },
            None => self,
        }
    }

    /// Back to the device list; typed text is dropped.
    pub open spec fn cancel(self) -> AppView {
        AppView { state: AppStateView::Idle, input_buffer: Seq::empty(), ..self }
    }

    /// Unmounting the selected device: refused for a protected device,
    /// else requested.
    pub open spec fn unmount_selected(self) -> (AppView, Option<OperationView>) {
        match self.selected_device() {
            None => (self, None),
            Some(device) => if device.is_protected {
                (
                    self.with_state(
                        AppStateView::Error("Cannot unmount protected system drive"@),
                    ),
                    None,
                )
            } else {
                (
                    self.with_state(AppStateView::InProgress("Unmounting..."@)),
                    Some(OperationView::Unmount { path: device.path }),
                )
            },
        }
    }

    /// Formatting the selected device: refused for a protected device and
    /// for a confirmation that is not the device's path, character for
    /// character; else requested with the selected filesystem.
    pub open spec fn format_selected(self) -> (AppView, Option<OperationView>) {
        match self.selected_device() {
            None => (self, None),
            Some(device) => if device.is_protected {
                (
                    self.with_state(AppStateView::Error("Cannot format protected system drive"@)),
                    None,
                )
            } else if self.input_buffer != device.path {
                (
                    self.with_state(
                        AppStateView::Error(mismatch_message(device.path, self.input_buffer)),
                    ),
                    None,
                )
            } else {
                match self.selected_fs() {
                    None => (self, None),
                    Some(fs_type) => (
                        self.with_state(
                            AppStateView::InProgress(
                                "Formatting "@ + device.path + " as "@ + fs_type.display_text()
                                    + "..."@,
                            ),
                        ),
                        Some(
                            OperationView::Format {
                                path: device.path,
                                fs_type,
                                label: format_label(),
                            },
                        ),
                    ),
                }
            },
        }
    }

    /// Flashing the selected image onto the selected device: refused for a
    /// protected device and for a confirmation that is not the device's
    /// path, character for character; else requested.
    pub open spec fn start_flashing(self) -> (AppView, Option<OperationView>) {
        match self.selected_device() {
            None => (self, None),
            Some(device) => if device.is_protected {
                (
                    self.with_state(AppStateView::Error("Cannot flash protected system drive"@)),
                    None,
                )
            } else if self.input_buffer != device.path {
                (
                    self.with_state(
                        AppStateView::Error(mismatch_message(device.path, self.input_buffer)),
                    ),
                    None,
                )
            } else {
                match self.selected_iso() {
                    None => (self, None),
                    Some(iso) => (
                        self.with_state(
                            AppStateView::InProgress("Starting flash of "@ + iso.name + "..."@),
                        ),
                        Some(
                            OperationView::Flash {
                                path: device.path,
                                url: iso.url,
                                iso_name: iso.name,
                            },
                        ),
                    ),
                }
            },
        }
    }

    /// The device list after a scan. A cursor that fell off the end of a
    /// non-empty list moves to its last device; a failed scan is an error
    /// state with the failure's words.
    pub open spec fn refreshed(self, listed: Result<Seq<DeviceView>, Seq<char>>) -> AppView {
        match listed {
            Ok(devices) => AppView {
                devices,
                selected_index: if self.selected_index >= devices.len() && devices.len() > 0 {
                    (devices.len() - 1) as usize
                } else {
                    self.selected_index
                },
                ..self
            },
            Err(message) => self.with_state(AppStateView::Error(message)),
        }
    }
}

/// The view of a scan's outcome as the controller takes it: the devices,
/// or the failure in words.
pub open spec fn scan_view(listed: Result<Vec<Device>, DiskError>) -> Result<
    Seq<DeviceView>,
    Seq<char>,
> {
    match listed {
        Ok(devices) => Ok(devices.deep_view()),
        Err(e) => Err(e@.message()),
    }
}

fn mismatch_text(expected: &str, typed: &str) -> (message: String)
    ensures
        message@ == mismatch_message(expected@, typed@),
{
    String::from_str("Confirmation mismatch. Expected '").concat(expected).concat(
        "', got '",
    ).concat(typed).concat("'")
}

impl App {
    /// Moves the cursor to the next device, from the last to the first.
    pub fn select_next(&mut self)
        ensures
            final(self)@ == old(self)@.select_next(),
    {
        self.selected_index = step_next(self.selected_index, self.devices.len());
    }

    /// Moves the cursor to the previous device, from the first to the last.
    pub fn select_previous(&mut self)
        ensures
            final(self)@ == old(self)@.select_previous(),
    {
        self.selected_index = step_previous(self.selected_index, self.devices.len());
    }

    /// Moves the filesystem cursor down, from the last entry to the first.
    pub fn select_next_fs(&mut self)
        ensures
            final(self)@ == old(self)@.select_next_fs(),
    {
        self.selected_fs_index = step_next(self.selected_fs_index, self.fs_options.len());
    }

    /// Moves the filesystem cursor up, from the first entry to the last.
    pub fn select_previous_fs(&mut self)
        ensures
            final(self)@ == old(self)@.select_previous_fs(),
    {
        self.selected_fs_index = step_previous(self.selected_fs_index, self.fs_options.len());
    }

    /// Moves the image cursor down, from the last entry to the first.
    pub fn select_next_iso(&mut self)
        ensures
            final(self)@ == old(self)@.select_next_iso(),
    {
        self.selected_iso_index = step_next(self.selected_iso_index, self.isos.len());
    }

    /// Moves the image cursor up, from the first entry to the last.
    pub fn select_previous_iso(&mut self)
        ensures
            final(self)@ == old(self)@.select_previous_iso(),
    {
        self.selected_iso_index = step_previous(self.selected_iso_index, self.isos.len());
    }

    /// The device under the cursor. After a scan the cursor may stand
    /// beyond the list; then there is none.
    pub fn selected_device(&self) -> (device: Option<&Device>)
        ensures
            match device {
                Some(d) => self@.selected_device() == Some(d@),
                None => self@.selected_device() is None,
            },
    {
        if self.selected_index < self.devices.len() {
            Some(&self.devices[self.selected_index])
        } else {
            None
        }
    }

    /// The filesystem under the menu cursor.
    pub fn selected_fs(&self) -> (fs_type: Option<FileSystemType>)
        ensures
            fs_type == self@.selected_fs(),
    {
        if self.selected_fs_index < self.fs_options.len() {
            Some(self.fs_options[self.selected_fs_index])
        } else {
            None
        }
    }

    /// The image under the menu cursor.
    pub fn selected_iso(&self) -> (iso: Option<&Iso>)
        ensures
            match iso {
                Some(i) => self@.selected_iso() == Some(i@),
                None => self@.selected_iso() is None,
            },
    {
        if self.selected_iso_index < self.isos.len() {
            Some(&self.isos[self.selected_iso_index])
        } else {
            None
        }
    }

    /// Selects the device under the cursor, if there is any device.
    pub fn enter_select_mode(&mut self)
        ensures
            final(self)@ == old(self)@.enter_select_mode(),
    {
        if self.devices.len() > 0 {
            self.state = AppState::DeviceSelected(self.selected_index);
        }
    }

    /// Opens the filesystem menu.
    pub fn enter_format_menu(&mut self)
        ensures
            final(self)@ == old(self)@.enter_format_menu(),
    {
        self.state = AppState::FormattingMenu;
        self.selected_fs_index = 0;
        self.input_buffer = String::new();
    }

    /// Opens the image menu.
    pub fn enter_iso_selection(&mut self)
        ensures
            final(self)@ == old(self)@.enter_iso_selection(),
    {
        self.state = AppState::IsoSelection;
        self.selected_iso_index = 0;
    }

    /// Asks for the confirmation of a flash.
    pub fn flash_selected_iso(&mut self)
        ensures
            final(self)@ == old(self)@.flash_selected_iso(),
    {
        if self.selected_index < self.devices.len() {
            let path = self.devices[self.selected_index].path.clone();
            self.state = AppState::ConfirmFlash(path);
            self.input_buffer = String::new();
        }
    }

    /// Asks for the confirmation of a format.
    pub fn enter_confirm_mode(&mut self)
        ensures
            final(self)@ == old(self)@.enter_confirm_mode(),
    {
        if self.selected_index < self.devices.len() {
            let path = self.devices[self.selected_index].path.clone();
            self.state = AppState::ConfirmDestructive(path);
            self.input_buffer = String::new();
        }
    }

    /// Back to the device list, whatever was going on; typed text is
    /// dropped.
    pub fn cancel(&mut self)
        ensures
            final(self)@ == old(self)@.cancel(),
    {
        self.state = AppState::Idle;
        self.input_buffer = String::new();
    }

    /// Takes in the outcome of a device scan.
    pub fn refresh_devices(&mut self, listed: Result<Vec<Device>, DiskError>) -> (outcome: Result<
        (),
        String,
    >)
        ensures
            final(self)@ == old(self)@.refreshed(scan_view(listed)),
            match outcome {
                Ok(_) => listed is Ok,
                Err(message) => listed matches Err(e) && message@ == e@.message(),
            },
    {
        match listed {
            Ok(devices) => {
                self.devices = devices;
                if self.selected_index >= self.devices.len() && self.devices.len() > 0 {
                    self.selected_index = self.devices.len() - 1;
                }
                Ok(())
            },
            Err(e) => {
                self.state = AppState::Error(e.message());
                Err(e.message())
            },
        }
    }

    /// Starts unmounting the selected device, unless it is protected.
    pub fn unmount_selected(&mut self) -> (request: Option<Operation>)
        ensures
            (final(self)@, request_view(request)) == old(self)@.unmount_selected(),
    {
        if self.selected_index >= self.devices.len() {
            return None;
        }
        if self.devices[self.selected_index].is_protected {
            self.state = AppState::Error(String::from_str("Cannot unmount protected system drive"));
            return None;
        }
        let path = self.devices[self.selected_index].path.clone();
        self.state = AppState::InProgress(String::from_str("Unmounting..."));
        Some(Operation::Unmount { path })
    }

    /// Starts formatting the selected device with the selected filesystem,
    /// if the device is not protected and the typed text is its path.
    pub fn format_selected(&mut self) -> (request: Option<Operation>)
        ensures
            (final(self)@, request_view(request)) == old(self)@.format_selected(),
    {
        if self.selected_index >= self.devices.len() {
            return None;
        }
        if self.devices[self.selected_index].is_protected {
            self.state = AppState::Error(String::from_str("Cannot format protected system drive"));
            return None;
        }
        let path = self.devices[self.selected_index].path.clone();
        if self.input_buffer != path {
            self.state = AppState::Error(
                mismatch_text(path.as_str(), self.input_buffer.as_str()),
            );
            return None;
        }
        let fs_type = match self.selected_fs() {
            Some(fs_type) => fs_type,
            None => {
                return None;
            },
        };
        self.state = AppState::InProgress(
            String::from_str("Formatting ").concat(path.as_str()).concat(" as ").concat(
                fs_type.display_name(),
            ).concat("..."),
        );
        Some(Operation::Format { path, fs_type, label: String::from_str("UNTITLED") })
    }

    /// Starts flashing the selected image onto the selected device, if the
    /// device is not protected and the typed text is its path.
    pub fn start_flashing(&mut self) -> (request: Option<Operation>)
        ensures
            (final(self)@, request_view(request)) == old(self)@.start_flashing(),
    {
        if self.selected_index >= self.devices.len() {
            return None;
        }
        if self.devices[self.selected_index].is_protected {
            self.state = AppState::Error(String::from_str("Cannot flash protected system drive"));
            return None;
        }
        let path = self.devices[self.selected_index].path.clone();
        if self.input_buffer != path {
            self.state = AppState::Error(
                mismatch_text(path.as_str(), self.input_buffer.as_str()),
            );
            return None;
        }
        if self.selected_iso_index >= self.isos.len() {
            return None;
        }
        let iso_name = self.isos[self.selected_iso_index].name.clone();
        let url = self.isos[self.selected_iso_index].url.clone();
        self.state = AppState::InProgress(
            String::from_str("Starting flash of ").concat(iso_name.as_str()).concat("..."),
        );
        Some(Operation::Flash { path, url, iso_name })
    }
}

impl AppView {
    /// The user asked to leave.
    pub open spec fn quit(self) -> AppView {
        AppView { should_quit: true, ..self }
    }

    /// A key in the device list.
    pub open spec fn idle_input(self, key: Key) -> (AppView, ActionView) {
        match key {
            Key::Char(c) => if c == 'q' {
                (self.quit(), ActionView::Nothing)
            } else if c == 'r' {
                (self, ActionView::Refresh)
            } else {
                (self, ActionView::Nothing)
            },
            Key::Up => (self.select_previous(), ActionView::Nothing),
            Key::Down => (self.select_next(), ActionView::Nothing),
            Key::Enter => (self.enter_select_mode(), ActionView::Nothing),
            _ => (self, ActionView::Nothing),
        }
    }

    /// A key while a device is selected.
    pub open spec fn selected_input(self, key: Key) -> (AppView, ActionView) {
        match key {
            Key::Char(c) => if c == 'q' {
                (self.quit(), ActionView::Nothing)
            } else if c == 'u' {
                (self.unmount_selected().0, action_for(self.unmount_selected().1))
            } else if c == 'f' {
                (self.enter_format_menu(), ActionView::Nothing)
            } else if c == 'i' {
                (self.enter_iso_selection(), ActionView::Nothing)
            } else {
                (self, ActionView::Nothing)
            },
            Key::Esc => (self.cancel(), ActionView::Nothing),
            Key::Up => (self.select_previous(), ActionView::Nothing),
            Key::Down => (self.select_next(), ActionView::Nothing),
            _ => (self, ActionView::Nothing),
        }
    }

    /// A key in the filesystem menu.
    pub open spec fn format_menu_input(self, key: Key) -> AppView {
        match key {
            Key::Char(c) => if c == 'q' {
                self.quit()
            } else {
                self
            },
            Key::Esc => self.cancel(),
            Key::Up => self.select_previous_fs(),
            Key::Down => self.select_next_fs(),
            Key::Enter => self.enter_confirm_mode(),
            _ => self,
        }
    }

    /// A key in the image menu.
    pub open spec fn iso_selection_input(self, key: Key) -> AppView {
        match key {
            Key::Char(c) => if c == 'q' {
                self.quit()
            } else {
                self
            },
            Key::Esc => self.cancel(),
            Key::Up => self.select_previous_iso(),
            Key::Down => self.select_next_iso(),
            Key::Enter => self.flash_selected_iso(),
            _ => self,
        }
    }

    /// A key while a confirmation is asked for: characters are typed,
    /// Backspace takes the last one back, and Enter submits.
    pub open spec fn confirm_input(self, key: Key) -> (AppView, ActionView) {
        match key {
            Key::Esc => (self.cancel(), ActionView::Nothing),
            Key::Enter => match self.state {
                AppStateView::ConfirmDestructive(_) => (
                    self.format_selected().0,
                    action_for(self.format_selected().1),
                ),
                AppStateView::ConfirmFlash(_) => (
                    self.start_flashing().0,
                    action_for(self.start_flashing().1),
                ),
                _ => (self, ActionView::Nothing),
            },
            Key::Backspace => (
                AppView {
                    input_buffer: if self.input_buffer.len() > 0 {
                        self.input_buffer.drop_last()
                    } else {
                        self.input_buffer
                    },
                    ..self
                },
                ActionView::Nothing,
            ),
            Key::Char(c) => (
                AppView { input_buffer: self.input_buffer.push(c), ..self },
                ActionView::Nothing,
            ),
            _ => (self, ActionView::Nothing),
        }
    }

    /// A key while a message is shown.
    pub open spec fn message_input(self, key: Key) -> AppView {
        match key {
            Key::Char(c) => if c == 'q' {
                self.quit()
            } else {
                self
            },
            Key::Esc => self.cancel(),
            Key::Enter => self.cancel(),
            _ => self,
        }
    }

    /// A key press in whatever state the controller is in. While an
    /// operation runs, keys do nothing.
    pub open spec fn key_pressed(self, key: Key) -> (AppView, ActionView) {
        match self.state {
            AppStateView::Idle => self.idle_input(key),
            AppStateView::DeviceSelected(_) => self.selected_input(key),
            AppStateView::IsoSelection => (self.iso_selection_input(key), ActionView::Nothing),
            AppStateView::FormattingMenu => (self.format_menu_input(key), ActionView::Nothing),
            AppStateView::ConfirmDestructive(_) => self.confirm_input(key),
            AppStateView::ConfirmFlash(_) => self.confirm_input(key),
            AppStateView::Flashing(_) => (self, ActionView::Nothing),
            AppStateView::InProgress(_) => (self, ActionView::Nothing),
            AppStateView::Error(_) => (self.message_input(key), ActionView::Nothing),
            AppStateView::Success(_) => (self.message_input(key), ActionView::Nothing),
        }
    }
}

fn action_of(request: Option<Operation>) -> (action: Action)
    ensures
        action@ == action_for(request_view(request)),
{
    match request {
        Some(operation) => Action::Run(operation),
        None => Action::Nothing,
    }
}

impl App {
    /// Takes a key in the device list.
    pub fn handle_idle_input(&mut self, key: Key) -> (action: Action)
        ensures
            (final(self)@, action@) == old(self)@.idle_input(key),
    {
        match key {
            Key::Char(c) => {
                if c == 'q' {
                    self.should_quit = true;
                } else if c == 'r' {
                    return Action::Refresh;
                }
            },
            Key::Up => self.select_previous(),
            Key::Down => self.select_next(),
            Key::Enter => self.enter_select_mode(),
            _ => {},
        }
        Action::Nothing
    }

    /// Takes a key while a device is selected.
    pub fn handle_selected_input(&mut self, key: Key) -> (action: Action)
        ensures
            (final(self)@, action@) == old(self)@.selected_input(key),
    {
        match key {
            Key::Char(c) => {
                if c == 'q' {
                    self.should_quit = true;
                } else if c == 'u' {
                    return action_of(self.unmount_selected());
                } else if c == 'f' {
                    self.enter_format_menu();
                } else if c == 'i' {
                    self.enter_iso_selection();
                }
            },
            Key::Esc => self.cancel(),
            Key::Up => self.select_previous(),
            Key::Down => self.select_next(),
            _ => {},
        }
        Action::Nothing
    }

    /// Takes a key in the filesystem menu.
    pub fn handle_format_menu_input(&mut self, key: Key)
        ensures
            final(self)@ == old(self)@.format_menu_input(key),
    {
        match key {
            Key::Char(c) => {
                if c == 'q' {
                    self.should_quit = true;
                }
            },
            Key::Esc => self.cancel(),
            Key::Up => self.select_previous_fs(),
            Key::Down => self.select_next_fs(),
            Key::Enter => self.enter_confirm_mode(),
            _ => {},
        }
    }

    /// Takes a key in the image menu.
    pub fn handle_iso_selection_input(&mut self, key: Key)
        ensures
            final(self)@ == old(self)@.iso_selection_input(key),
    {
        match key {
            Key::Char(c) => {
                if c == 'q' {
                    self.should_quit = true;
                }
            },
            Key::Esc => self.cancel(),
            Key::Up => self.select_previous_iso(),
            Key::Down => self.select_next_iso(),
            Key::Enter => self.flash_selected_iso(),
            _ => {},
        }
    }

    /// Takes a key while a confirmation is asked for.
    pub fn handle_confirm_input(&mut self, key: Key) -> (action: Action)
        ensures
            (final(self)@, action@) == old(self)@.confirm_input(key),
    {
        match key {
            Key::Esc => self.cancel(),
            Key::Enter => {
                match self.state {
                    AppState::ConfirmDestructive(_) => {
                        return action_of(self.format_selected());
                    },
                    AppState::ConfirmFlash(_) => {
                        return action_of(self.start_flashing());
                    },
                    _ => {},
                }
            },
            Key::Backspace => {
                let _ = self.input_buffer.pop();
            },
            Key::Char(c) => {
                self.input_buffer.push(c);
            },
            _ => {},
        }
        Action::Nothing
    }

    /// Takes a key while a message is shown.
    pub fn handle_message_input(&mut self, key: Key)
        ensures
            final(self)@ == old(self)@.message_input(key),
    {
        match key {
            Key::Char(c) => {
                if c == 'q' {
                    self.should_quit = true;
                }
            },
            Key::Esc => self.cancel(),
            Key::Enter => self.cancel(),
            _ => {},
        }
    }

    /// Takes a key press in whatever state the controller is in.
    pub fn handle_key(&mut self, key: Key) -> (action: Action)
        ensures
            (final(self)@, action@) == old(self)@.key_pressed(key),
    {
        match self.state {
            AppState::Idle => self.handle_idle_input(key),
            AppState::DeviceSelected(_) => self.handle_selected_input(key),
            AppState::IsoSelection => {
                self.handle_iso_selection_input(key);
                Action::Nothing
            },
            AppState::FormattingMenu => {
                self.handle_format_menu_input(key);
                Action::Nothing
            },
            AppState::ConfirmDestructive(_) | AppState::ConfirmFlash(_) => {
                self.handle_confirm_input(key)
            },
            AppState::Flashing(_) | AppState::InProgress(_) => Action::Nothing,
            AppState::Error(_) | AppState::Success(_) => {
                self.handle_message_input(key);
                Action::Nothing
            },
        }
    }

    /// Counts one round of the driving loop; the count wraps around.
    pub fn on_tick(&mut self)
        ensures
            final(self)@ == (AppView {
                tick: if old(self).tick == u64::MAX {
                    0
                } else {
                    (old(self).tick + 1) as u64
                },
                ..old(self)@
            }),
    {
        self.tick = if self.tick == u64::MAX {
            0
        } else {
            self.tick + 1
        };
    }

    /// Takes a state that a background operation reported. After a success
    /// the devices are to be enumerated again, which the result says.
    pub fn receive(&mut self, reported: AppState) -> (refresh: bool)
        ensures
            final(self)@ == old(self)@.with_state(reported@),
            refresh == (reported is Success),
    {
        let refresh = match &reported {
            AppState::Success(_) => true,
            _ => false,
        };
        self.state = reported;
        refresh
    }
}

/// A protected device is never touched: whatever was typed and selected,
/// asking to unmount, format or flash a protected device requests no
/// operation and ends in an error state.
pub proof fn lemma_protected_device_is_refused(app: AppView)
    requires
        app.selected_device() matches Some(device) && device.is_protected,
    ensures
        app.unmount_selected().1 is None,
        app.unmount_selected().0.state is Error,
        app.format_selected().1 is None,
        app.format_selected().0.state is Error,
        app.start_flashing().1 is None,
        app.start_flashing().0.state is Error,
{
}

/// The confirmation gate: a format or a flash is requested only if the
/// typed text is the selected device's path, character for character. Any
/// other text requests nothing, leaves everything but the state as it was,
/// and ends in an error that cites the path and the text as they are.
pub proof fn lemma_confirmation_gate(app: AppView)
    requires
        app.selected_device() is Some,
    ensures
        app.format_selected().1 is Some ==> app.input_buffer == app.selected_device()->0.path,
        app.start_flashing().1 is Some ==> app.input_buffer == app.selected_device()->0.path,
        app.format_selected().1 matches Some(operation) ==> operation
            == (OperationView::Format {
            path: app.selected_device()->0.path,
            fs_type: app.selected_fs()->0,
            label: format_label(),
        }),
        app.start_flashing().1 matches Some(operation) ==> operation == (OperationView::Flash {
            path: app.selected_device()->0.path,
            url: app.selected_iso()->0.url,
            iso_name: app.selected_iso()->0.name,
        }),
        app.input_buffer == app.selected_device()->0.path && !app.selected_device()->0.is_protected
            ==> (app.format_selected().1 is Some <==> app.selected_fs() is Some) && (
        app.start_flashing().1 is Some <==> app.selected_iso() is Some),
        app.input_buffer != app.selected_device()->0.path && !app.selected_device()->0.is_protected
            ==> {
            let complaint = AppStateView::Error(
                mismatch_message(app.selected_device()->0.path, app.input_buffer),
            );
            &&& app.format_selected() == (app.with_state(complaint), None::<OperationView>)
            &&& app.start_flashing() == (app.with_state(complaint), None::<OperationView>)
        },
{
}

/// One operation at a time: while an operation runs, no key changes
/// anything or starts anything; and whenever a key does start an
/// operation, the controller is busy from then on, until the operation
/// reports.
pub proof fn lemma_single_operation_in_flight(app: AppView, key: Key)
    ensures
        app.state.is_busy() ==> app.key_pressed(key) == (app, ActionView::Nothing),
        app.key_pressed(key).1 is Run ==> app.key_pressed(key).0.state is InProgress,
{
}

/// One image of the catalog.
pub open spec fn catalog_entry(
    name: Seq<char>,
    version: Seq<char>,
    arch: Seq<char>,
    variety: Seq<char>,
    url: Seq<char>,
) -> IsoView {
    IsoView { name, version, arch, url, variety }
}

/// The images that can be flashed. The list is fixed; nothing checks a
/// download against a checksum before it is written.
pub open spec fn catalog() -> Seq<IsoView> {
    seq![
        catalog_entry(
            "Debian"@,
            "13"@,
            "amd64"@,
            "Netinst"@,
            "https://cdimage.debian.org/debian-cd/current/amd64/iso-cd/debian-13.2.0-amd64-netinst.iso"@,
        ),
        catalog_entry(
            "Debian"@,
            "13"@,
            "arm64"@,
            "Netinst"@,
            "https://cdimage.debian.org/debian-cd/current/arm64/iso-cd/debian-13.2.0-arm64-netinst.iso"@,
        ),
        catalog_entry(
            "Ubuntu"@,
            "24.04.3"@,
            "amd64"@,
            "Live Server"@,
            "https://releases.ubuntu.com/24.04.3/ubuntu-24.04.3-live-server-amd64.iso"@,
        ),
        catalog_entry(
            "Ubuntu"@,
            "24.04.3"@,
            "arm64"@,
            "Live Server"@,
            "https://cdimage.ubuntu.com/releases/24.04.3/release/ubuntu-24.04.3-live-server-arm64.iso"@,
        ),
        catalog_entry(
            "Alpine"@,
            "3.23.2"@,
            "x86_64"@,
            "Standard"@,
            "https://dl-cdn.alpinelinux.org/alpine/v3.23/releases/x86_64/alpine-standard-3.23.2-x86_64.iso"@,
        ),
        catalog_entry(
            "Alpine"@,
            "3.23.2"@,
            "aarch64"@,
            "Standard"@,
            "https://dl-cdn.alpinelinux.org/alpine/v3.23/releases/aarch64/alpine-standard-3.23.2-aarch64.iso"@,
        ),
        catalog_entry(
            "Arch Linux"@,
            "2025.12.01"@,
            "x86_64"@,
            "Standard"@,
            "https://geo.mirror.pkgbuild.com/iso/2025.12.01/archlinux-2025.12.01-x86_64.iso"@,
        ),
    ]
}

fn image(name: &str, version: &str, arch: &str, variety: &str, url: &str) -> (iso: Iso)
    ensures
        iso@ == catalog_entry(name@, version@, arch@, variety@, url@),
{
    Iso {
        name: String::from_str(name),
        version: String::from_str(version),
        arch: String::from_str(arch),
        url: String::from_str(url),
        variety: String::from_str(variety),
    }
}

fn images() -> (isos: Vec<Iso>)
    ensures
        isos.deep_view() == catalog(),
{
    let mut isos: Vec<Iso> = Vec::new();
    isos.push(
        image(
            "Debian",
            "13",
            "amd64",
            "Netinst",
            "https://cdimage.debian.org/debian-cd/current/amd64/iso-cd/debian-13.2.0-amd64-netinst.iso",
        ),
    );
    isos.push(
        image(
            "Debian",
            "13",
            "arm64",
            "Netinst",
            "https://cdimage.debian.org/debian-cd/current/arm64/iso-cd/debian-13.2.0-arm64-netinst.iso",
        ),
    );
    isos.push(
        image(
            "Ubuntu",
            "24.04.3",
            "amd64",
            "Live Server",
            "https://releases.ubuntu.com/24.04.3/ubuntu-24.04.3-live-server-amd64.iso",
        ),
    );
    isos.push(
        image(
            "Ubuntu",
            "24.04.3",
            "arm64",
            "Live Server",
            "https://cdimage.ubuntu.com/releases/24.04.3/release/ubuntu-24.04.3-live-server-arm64.iso",
        ),
    );
    isos.push(
        image(
            "Alpine",
            "3.23.2",
            "x86_64",
            "Standard",
            "https://dl-cdn.alpinelinux.org/alpine/v3.23/releases/x86_64/alpine-standard-3.23.2-x86_64.iso",
        ),
    );
    isos.push(
        image(
            "Alpine",
            "3.23.2",
            "aarch64",
            "Standard",
            "https://dl-cdn.alpinelinux.org/alpine/v3.23/releases/aarch64/alpine-standard-3.23.2-aarch64.iso",
        ),
    );
    isos.push(
        image(
            "Arch Linux",
            "2025.12.01",
            "x86_64",
            "Standard",
            "https://geo.mirror.pkgbuild.com/iso/2025.12.01/archlinux-2025.12.01-x86_64.iso",
        ),
    );
    assert(isos.deep_view() =~= catalog());
    isos
}

impl App {
    /// The controller as the program starts: idle, nothing scanned yet,
    /// nothing typed, with the platform's format targets and the image
    /// catalog.
    pub fn new(manager: &PlatformManager) -> (app: App)
        ensures
            app@ == (AppView {
                devices: Seq::empty(),
                selected_index: 0,
                state: AppStateView::Idle,
                input_buffer: Seq::empty(),
                fs_options: app.fs_options@,
                selected_fs_index: 0,
                isos: catalog(),
                selected_iso_index: 0,
                should_quit: false,
                tick: 0,
            }),
            app.fs_options@ == (match manager {
                PlatformManager::Linux(_) => seq![
                    FileSystemType::Ext4,
                    FileSystemType::ExFat,
                    FileSystemType::Fat32,
                    FileSystemType::Ntfs,
                ],
                PlatformManager::MacOs(_) => seq![
                    FileSystemType::Apfs,
                    FileSystemType::ExFat,
                    FileSystemType::Fat32,
                ],
            }),
    {
        let app = App {
            devices: Vec::new(),
            selected_index: 0,
            state: AppState::Idle,
            input_buffer: String::new(),
            fs_options: manager.fs_options(),
            selected_fs_index: 0,
            isos: images(),
            selected_iso_index: 0,
            should_quit: false,
            tick: 0,
        };
        assert(app.devices.deep_view() =~= Seq::<DeviceView>::empty());
        app
    }
}

} // verus!

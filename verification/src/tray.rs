//! What the tray shows and what its menu means: the entries of the menu are
//! made of the state, and the identifier of a chosen entry is read back into
//! a command.

use crate::modes::{Mode, ModeView};
use crate::state::{Action, AppState, AppStateView};
use crate::status::RecordingStatus;
use crate::text::{from_chars, matches_at, occurs_at, replace, replaced, str_eq, to_chars};
use vstd::prelude::*;

verus! {

/// Identifier of the tray icon.
pub const TRAY_ID: &'static str = "main-tray";

/// The hotkey that toggles the recording.
pub const DEFAULT_HOTKEY: &'static str = "Ctrl+Space";

/// An entry of the tray menu.
#[derive(Debug)]
pub struct MenuItem {
    /// What the menu reports when the entry is chosen.
    pub id: String,
    /// What the entry shows.
    pub label: String,
}

/// [`MenuItem`] with its strings as text.
pub struct MenuItemView {
    pub id: Seq<char>,
    pub label: Seq<char>,
}

impl View for MenuItem {
    type V = MenuItemView;

    open spec fn view(&self) -> MenuItemView {
        MenuItemView { id: self.id@, label: self.label@ }
    }
}

/// A label, with a check mark in front if its entry is the chosen one.
pub open spec fn marked(label: Seq<char>, chosen: bool) -> Seq<char> {
    if chosen {
        "✓ "@ + label
    } else {
        label
    }
}

/// The entry of a mode: it is marked if the mode is the active one.
pub open spec fn mode_item(mode: ModeView, active_key: Seq<char>) -> MenuItemView {
    MenuItemView { id: "mode_"@ + mode.key, label: marked(mode.name, mode.key == active_key) }
}

/// The entry of the default input device: it is marked if no device is
/// selected.
pub open spec fn default_device_item(current: Seq<char>) -> MenuItemView {
    MenuItemView { id: "device_default"@, label: marked("Default"@, current.len() == 0) }
}

/// The entry of an input device: its identifier has `_` for each space of
/// the name, and it is marked if the device is the selected one.
pub open spec fn device_item(name: Seq<char>, current: Seq<char>) -> MenuItemView {
    MenuItemView {
        id: "device_"@ + replaced(name, " "@, "_"@),
        label: marked(name, name == current),
    }
}

/// The entry that toggles the recording.
pub open spec fn recording_label_of(status: RecordingStatus) -> Seq<char> {
    if status == RecordingStatus::Recording {
        "Stop Recording"@
    } else {
        "Start Recording"@
    }
}

fn mark(label: &str, chosen: bool) -> (text: String)
    ensures
        text@ == marked(label@, chosen),
{
    if chosen {
        String::from_str("✓ ").concat(label)
    } else {
        String::from_str(label)
    }
}

/// What the entry that toggles the recording shows.
pub fn recording_label(status: RecordingStatus) -> (label: &'static str)
    ensures
        label@ == recording_label_of(status),
{
    if status == RecordingStatus::Recording {
        "Stop Recording"
    } else {
        "Start Recording"
    }
}

/// The entries of the modes, in the order of the registry.
pub fn mode_menu_items(modes: &Vec<Mode>, active_key: &str) -> (items: Vec<MenuItem>)
    ensures
        items@.len() == modes@.len(),
        forall|i: int|
            0 <= i < modes@.len() ==> (#[trigger] items@[i])@ == mode_item(modes@[i]@, active_key@),
{
    let mut items: Vec<MenuItem> = Vec::new();
    let mut i: usize = 0;
    while i < modes.len()
        invariant
            i <= modes.len(),
            items@.len() == i,
            forall|k: int|
                0 <= k < i ==> (#[trigger] items@[k])@ == mode_item(modes@[k]@, active_key@),
        decreases modes.len() - i,
    {
        let mode = &modes[i];
        let chosen = str_eq(mode.key.as_str(), active_key);
        items.push(
            MenuItem {
                id: String::from_str("mode_").concat(mode.key.as_str()),
                label: mark(mode.name.as_str(), chosen),
            },
        );
        i = i + 1;
    }
    items
}

/// The entries of the input devices: the default device first, then the
/// devices in their order.
pub fn device_menu_items(devices: &Vec<String>, current: &str) -> (items: Vec<MenuItem>)
    ensures
        items@.len() == devices@.len() + 1,
        items@[0]@ == default_device_item(current@),
        forall|i: int|
            0 <= i < devices@.len() ==> (#[trigger] items@[i + 1])@ == device_item(
                devices@[i]@,
                current@,
            ),
{
    let mut items: Vec<MenuItem> = Vec::new();
    items.push(
        MenuItem {
            id: String::from_str("device_default"),
            label: mark("Default", current.unicode_len() == 0),
        },
    );
    let mut i: usize = 0;
    while i < devices.len()
        invariant
            i <= devices.len(),
            items@.len() == i + 1,
            items@[0]@ == default_device_item(current@),
            forall|k: int|
                0 <= k < i ==> (#[trigger] items@[k + 1])@ == device_item(devices@[k]@, current@),
        decreases devices.len() - i,
    {
        let name = devices[i].as_str();
        let chosen = str_eq(name, current);
        items.push(
            MenuItem {
                id: String::from_str("device_").concat(replace(name, " ", "_").as_str()),
                label: mark(name, chosen),
            },
        );
        assert forall|k: int| 0 <= k < i + 1 implies (#[trigger] items@[k + 1])@ == device_item(
            devices@[k]@,
            current@,
        ) by {}
        i = i + 1;
    }
    items
}

/// What a chosen menu entry asks for.
#[derive(Debug)]
pub enum MenuCommand {
    /// Start the recording, or stop it if it is going on.
    ToggleRecording,
    /// Stop the recording.
    StopRecording,
    /// Ask for a file to transcribe.
    TranscribeFile,
    /// Show the history.
    ShowHistory,
    /// Show the settings.
    ShowSettings,
    /// Leave the application.
    Quit,
    /// Make the mode with this key the active one.
    SelectMode(String),
    /// Select the input device of this name; the empty name selects the
    /// default device.
    SelectDevice(String),
    /// The entry is not known.
    Unknown,
}

/// [`MenuCommand`] with its strings as text.
pub enum MenuCommandView {
    ToggleRecording,
    StopRecording,
    TranscribeFile,
    ShowHistory,
    ShowSettings,
    Quit,
    SelectMode(Seq<char>),
    SelectDevice(Seq<char>),
    Unknown,
}

impl View for MenuCommand {
    type V = MenuCommandView;

    open spec fn view(&self) -> MenuCommandView {
        match self {
            MenuCommand::ToggleRecording => MenuCommandView::ToggleRecording,
            MenuCommand::StopRecording => MenuCommandView::StopRecording,
            MenuCommand::TranscribeFile => MenuCommandView::TranscribeFile,
            MenuCommand::ShowHistory => MenuCommandView::ShowHistory,
            MenuCommand::ShowSettings => MenuCommandView::ShowSettings,
            MenuCommand::Quit => MenuCommandView::Quit,
            MenuCommand::SelectMode(key) => MenuCommandView::SelectMode(key@),
            MenuCommand::SelectDevice(name) => MenuCommandView::SelectDevice(name@),
            MenuCommand::Unknown => MenuCommandView::Unknown,
        }
    }
}

/// The device that the identifier of a device entry names: none for
/// `default`, else the identifier with a space for each `_`.
pub open spec fn device_named(tail: Seq<char>) -> Seq<char> {
    if tail == "default"@ {
        Seq::empty()
    } else {
        replaced(tail, "_"@, " "@)
    }
}

/// What the entry with the identifier `id` asks for. The fixed entries are
/// known by their whole identifier, the entries of modes and devices by what
/// their identifier starts with.
pub open spec fn menu_command(id: Seq<char>) -> MenuCommandView {
    if id == "toggle_recording"@ || id == "start_recording"@ {
        MenuCommandView::ToggleRecording
    } else if id == "stop_recording"@ {
        MenuCommandView::StopRecording
    } else if id == "transcribe_file"@ {
        MenuCommandView::TranscribeFile
    } else if id == "history"@ {
        MenuCommandView::ShowHistory
    } else if id == "settings"@ {
        MenuCommandView::ShowSettings
    } else if id == "quit"@ {
        MenuCommandView::Quit
    } else if occurs_at(id, "mode_"@, 0) {
        MenuCommandView::SelectMode(id.subrange("mode_"@.len() as int, id.len() as int))
    } else if occurs_at(id, "device_"@, 0) {
        MenuCommandView::SelectDevice(
            device_named(id.subrange("device_"@.len() as int, id.len() as int)),
        )
    } else {
        MenuCommandView::Unknown
    }
}

/// Reads the identifier of a chosen menu entry.
pub fn handle_menu_event(id: &str) -> (command: MenuCommand)
    ensures
        command@ == menu_command(id@),
{
    if str_eq(id, "toggle_recording") || str_eq(id, "start_recording") {
        return MenuCommand::ToggleRecording;
    }
    if str_eq(id, "stop_recording") {
        return MenuCommand::StopRecording;
    }
    if str_eq(id, "transcribe_file") {
        return MenuCommand::TranscribeFile;
    }
    if str_eq(id, "history") {
        return MenuCommand::ShowHistory;
    }
    if str_eq(id, "settings") {
        return MenuCommand::ShowSettings;
    }
    if str_eq(id, "quit") {
        return MenuCommand::Quit;
    }
    let chars = to_chars(id);
    let mode_prefix = to_chars("mode_");
    if matches_at(&chars, &mode_prefix, 0) {
        return MenuCommand::SelectMode(from_chars(&chars, mode_prefix.len(), chars.len()));
    }
    let device_prefix = to_chars("device_");
    if matches_at(&chars, &device_prefix, 0) {
        let tail = from_chars(&chars, device_prefix.len(), chars.len());
        if str_eq(tail.as_str(), "default") {
            return MenuCommand::SelectDevice(String::new());
        }
        return MenuCommand::SelectDevice(replace(tail.as_str(), "_", " "));
    }
    MenuCommand::Unknown
}

/// What a click on the tray icon, or the hotkey, asks for: a stop if audio is
/// being captured, a start else.
pub open spec fn toggle_request(state: AppStateView) -> crate::state::ActionView {
    if state.status == RecordingStatus::Recording {
        state.stop_request()
    } else {
        state.start_request()
    }
}

/// Answers a click on the tray icon, or the hotkey.
pub fn handle_tray_click(state: &AppState) -> (action: Action)
    ensures
        action@ == toggle_request(state@),
{
    if state.is_recording() {
        state.stop_recording()
    } else {
        state.start_recording()
    }
}

} // verus!

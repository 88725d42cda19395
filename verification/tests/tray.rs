use whispertray::error::ErrorKind;
use whispertray::modes::create_builtin_modes;
use whispertray::settings::Settings;
use whispertray::state::{Action, AppState, Event};
use whispertray::status::RecordingStatus;
use whispertray::tray::{
    device_menu_items, handle_menu_event, handle_tray_click, mode_menu_items, recording_label,
    MenuCommand, DEFAULT_HOTKEY, TRAY_ID,
};

#[test]
fn icons_and_tooltips_of_the_status() {
    assert_eq!(RecordingStatus::Loading.icon_name(), "tray-yellow");
    assert_eq!(RecordingStatus::Recording.icon_name(), "tray-red");
    assert_eq!(RecordingStatus::Processing.icon_name(), "tray-blue");
    assert_eq!(RecordingStatus::Ready.icon_name(), "tray-green");
    assert_eq!(RecordingStatus::Error.icon_name(), "tray-red");
    assert_eq!(RecordingStatus::Loading.tooltip(), "WhisperTray - Loading model...");
    assert_eq!(RecordingStatus::Recording.tooltip(), "WhisperTray - Recording...");
    assert_eq!(RecordingStatus::Processing.tooltip(), "WhisperTray - Processing...");
    assert_eq!(RecordingStatus::Ready.tooltip(), "WhisperTray - Ready (click to record)");
    assert_eq!(RecordingStatus::Error.tooltip(), "WhisperTray - Error");
}

#[test]
fn recording_entry_follows_the_status() {
    assert_eq!(recording_label(RecordingStatus::Recording), "Stop Recording");
    assert_eq!(recording_label(RecordingStatus::Ready), "Start Recording");
    assert_eq!(recording_label(RecordingStatus::Processing), "Start Recording");
    assert_eq!(TRAY_ID, "main-tray");
    assert_eq!(DEFAULT_HOTKEY, "Ctrl+Space");
}

#[test]
fn active_mode_is_marked() {
    let items = mode_menu_items(&create_builtin_modes(), "email");
    assert_eq!(items.len(), 6);
    assert_eq!(items[0].id, "mode_voice_to_text");
    assert_eq!(items[0].label, "Voice to Text");
    assert_eq!(items[2].id, "mode_email");
    assert_eq!(items[2].label, "✓ Email");
}

#[test]
fn selected_device_is_marked() {
    let devices = vec!["USB Audio Device".to_string(), "Built-in".to_string()];
    let none = device_menu_items(&devices, "");
    assert_eq!(none.len(), 3);
    assert_eq!(none[0].id, "device_default");
    assert_eq!(none[0].label, "✓ Default");
    assert_eq!(none[1].id, "device_USB_Audio_Device");
    assert_eq!(none[1].label, "USB Audio Device");
    let usb = device_menu_items(&devices, "USB Audio Device");
    assert_eq!(usb[0].label, "Default");
    assert_eq!(usb[1].label, "✓ USB Audio Device");
    assert_eq!(usb[2].id, "device_Built-in");
    assert_eq!(usb[2].label, "Built-in");
}

#[test]
fn menu_entries_are_read_back() {
    assert!(matches!(handle_menu_event("toggle_recording"), MenuCommand::ToggleRecording));
    assert!(matches!(handle_menu_event("start_recording"), MenuCommand::ToggleRecording));
    assert!(matches!(handle_menu_event("stop_recording"), MenuCommand::StopRecording));
    assert!(matches!(handle_menu_event("transcribe_file"), MenuCommand::TranscribeFile));
    assert!(matches!(handle_menu_event("history"), MenuCommand::ShowHistory));
    assert!(matches!(handle_menu_event("settings"), MenuCommand::ShowSettings));
    assert!(matches!(handle_menu_event("quit"), MenuCommand::Quit));
    assert!(matches!(handle_menu_event("other"), MenuCommand::Unknown));
    assert!(matches!(handle_menu_event(""), MenuCommand::Unknown));
    match handle_menu_event("mode_voice_to_text") {
        MenuCommand::SelectMode(key) => assert_eq!(key, "voice_to_text"),
        other => panic!("unexpected command: {:?}", other),
    }
    match handle_menu_event("mode_") {
        MenuCommand::SelectMode(key) => assert_eq!(key, ""),
        other => panic!("unexpected command: {:?}", other),
    }
    match handle_menu_event("device_default") {
        MenuCommand::SelectDevice(name) => assert_eq!(name, ""),
        other => panic!("unexpected command: {:?}", other),
    }
    match handle_menu_event("device_USB_Audio_Device") {
        MenuCommand::SelectDevice(name) => assert_eq!(name, "USB Audio Device"),
        other => panic!("unexpected command: {:?}", other),
    }
}

#[test]
fn click_toggles_the_recording() {
    let mut state = AppState::new(Settings::default());
    assert!(matches!(handle_tray_click(&state), Action::BeginCapture { .. }));
    state.advance(Event::CaptureStarted { context: None }, 1);
    assert!(matches!(handle_tray_click(&state), Action::EndCapture));
    state.advance(Event::CaptureStopped { samples: 1, session_id: "s".to_string(), env_server_url: None }, 2);
    // no modes are loaded: the session failed and a click starts anew
    assert_eq!(state.status(), RecordingStatus::Error);
    match handle_tray_click(&state) {
        Action::BeginCapture { .. } => {}
        Action::Reject { error } => panic!("refused: {:?}", error.kind() == ErrorKind::RecordingInProgress),
        other => panic!("unexpected action: {:?}", other),
    }
}

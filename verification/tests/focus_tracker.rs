use clipboard_png::error::{ErrorKind, ReadError};
use clipboard_png::focus::{
    get_previous_window, is_foreground_event, make_key_input, paste_inputs, FocusTracker,
    KeyInput, EVENT_SYSTEM_FOREGROUND, KEYEVENTF_KEYUP, PASTE_DELAY_MS, VK_CONTROL, VK_INSERT,
    VK_LWIN, VK_MENU, VK_RWIN, VK_SHIFT,
};

#[test]
fn tracker_starts_empty() {
    let tracker = FocusTracker::new(String::from("Main"));
    assert_eq!(get_previous_window(&tracker), None);
    assert_eq!(tracker.focus_target(), None);
}

#[test]
fn foreground_window_is_remembered() {
    let mut tracker = FocusTracker::new(String::from("Main"));
    tracker.on_event(EVENT_SYSTEM_FOREGROUND, 0x1234, &String::from("Editor"));
    assert_eq!(get_previous_window(&tracker), Some(0x1234));
    tracker.on_event(EVENT_SYSTEM_FOREGROUND, 0x5678, &String::from(""));
    assert_eq!(get_previous_window(&tracker), Some(0x5678));
    assert_eq!(tracker.focus_target(), Some(0x5678));
}

#[test]
fn own_window_is_not_remembered() {
    let mut tracker = FocusTracker::new(String::from("Main"));
    tracker.on_event(EVENT_SYSTEM_FOREGROUND, 7, &String::from("Main"));
    assert_eq!(get_previous_window(&tracker), None);
    tracker.on_event(EVENT_SYSTEM_FOREGROUND, 8, &String::from("Editor"));
    tracker.on_event(EVENT_SYSTEM_FOREGROUND, 7, &String::from("Main"));
    assert_eq!(get_previous_window(&tracker), Some(8));
}

#[test]
fn other_events_change_nothing() {
    let mut tracker = FocusTracker::new(String::from("Main"));
    tracker.on_event(4, 9, &String::from("Editor"));
    assert_eq!(get_previous_window(&tracker), None);
    tracker.on_event(EVENT_SYSTEM_FOREGROUND, 9, &String::from("Editor"));
    tracker.on_event(0, 10, &String::from("Other"));
    assert_eq!(get_previous_window(&tracker), Some(9));
    assert!(is_foreground_event(3));
    assert!(!is_foreground_event(4));
}

#[test]
fn null_window_is_not_focused() {
    let mut tracker = FocusTracker::new(String::from("Main"));
    tracker.on_event(EVENT_SYSTEM_FOREGROUND, 0, &String::from("Desktop"));
    assert_eq!(get_previous_window(&tracker), Some(0));
    assert_eq!(tracker.focus_target(), None);
    tracker.on_event(EVENT_SYSTEM_FOREGROUND, -1, &String::from("Desktop"));
    assert_eq!(tracker.focus_target(), Some(-1));
}

#[test]
fn key_input_fills_key_and_flags() {
    let input = make_key_input(0x2D, 2);
    assert_eq!(
        input,
        KeyInput { virtual_key: 0x2D, scan_code: 0, flags: 2, time: 0, extra_info: 0 }
    );
}

#[test]
fn paste_is_shift_insert_after_releasing_modifiers() {
    let keys: Vec<(u16, u32)> =
        paste_inputs().iter().map(|input| (input.virtual_key, input.flags)).collect();
    assert_eq!(
        keys,
        vec![
            (VK_CONTROL, KEYEVENTF_KEYUP),
            (VK_SHIFT, KEYEVENTF_KEYUP),
            (VK_MENU, KEYEVENTF_KEYUP),
            (VK_LWIN, KEYEVENTF_KEYUP),
            (VK_RWIN, KEYEVENTF_KEYUP),
            (VK_SHIFT, 0),
            (VK_INSERT, 0),
            (VK_INSERT, KEYEVENTF_KEYUP),
            (VK_SHIFT, KEYEVENTF_KEYUP),
        ]
    );
    assert_eq!(
        keys,
        vec![(0x11, 2), (0x10, 2), (0x12, 2), (0x5B, 2), (0x5C, 2), (0x10, 0), (0x2D, 0), (0x2D, 2), (0x10, 2)]
    );
    assert_eq!(PASTE_DELAY_MS, 100);
}

#[test]
fn failures_have_their_lines() {
    assert_eq!(ReadError::clipboard_open().message(), "Failed to open clipboard");
    assert_eq!(ReadError::clipboard_open().kind, ErrorKind::ClipboardOpen);
    let io = ReadError::io(String::from("disk full"));
    assert_eq!(io.kind, ErrorKind::Io);
    assert_eq!(io.message(), "disk full");
    let decode = ReadError { kind: ErrorKind::Decode, detail: String::from("bad header") };
    assert_eq!(decode.message(), "Failed to decode BMP: bad header");
    let encode = ReadError { kind: ErrorKind::Encode, detail: String::from("out of memory") };
    assert_eq!(encode.message(), "Failed to encode PNG: out of memory");
}

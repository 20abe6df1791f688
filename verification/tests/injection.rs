use mykvm::number::Real;
use mykvm::shared_input::{GestureAction, GesturePhase, InputCommand, MouseButton};
use mykvm::windows_input::desktop::{desktop_name, DesktopAttachment, INPUT_DESKTOP_ACCESS};
use mykvm::windows_input::foreground::{
    is_photoshop_image, windows_foreground_process_is_photoshop,
};
use mykvm::windows_input::inject::{
    can_inject, can_move, inject_command_without_tracking, inject_gesture_action, inject_key,
    inject_key_chord, inject_key_releases, inject_mouse_button, inject_mouse_move,
    inject_precise_scroll, inject_scroll, inject_wheel_units, is_extended_key_vk, scan_code,
    send_secure_attention, InputAction, MouseInput, VirtualScreen, CURSOR_MOVE_FLAGS,
    KEYEVENTF_EXTENDEDKEY, KEYEVENTF_KEYUP, MOUSEEVENTF_HWHEEL, MOUSEEVENTF_LEFTDOWN,
    MOUSEEVENTF_LEFTUP, MOUSEEVENTF_MIDDLEDOWN, MOUSEEVENTF_MIDDLEUP, MOUSEEVENTF_RIGHTDOWN,
    MOUSEEVENTF_RIGHTUP, MOUSEEVENTF_WHEEL, MOUSEEVENTF_XDOWN, MOUSEEVENTF_XUP, VK_ADD,
    VK_CONTROL, VK_D, VK_LEFT, VK_LWIN, VK_RIGHT, VK_SUBTRACT, VK_TAB, XBUTTON1, XBUTTON2,
};
use mykvm::windows_input::pinch::{
    awaits, inject_control_wheel, inject_pinch, next_pinch_action, photoshop_zoom, PinchAction,
    PinchEvent, PinchStage, PinchState, PHOTOSHOP_ZOOM_STEP, PINCH_CONTACTS,
};
use mykvm::windows_input::refusal::{RefusalNotices, ERROR_ACCESS_DENIED, REFUSAL_QUIET};
use mykvm::windows_input::swipe::{
    gesture_over, inject_swipe, SwipeState, EPSILON, SWIPE_TRIGGER_DELTA,
};
use mykvm::windows_input::touch::{
    can_place, can_touch, inject_touch_frame, pinch_points, touch_contact, Point, Rect,
    TouchPoints, TOUCH_DOWN, TOUCH_FEEDBACK_NONE, TOUCH_UP, TOUCH_UPDATE,
};
use mykvm::windows_input::track::{
    inject_command, release_pressed_inputs, release_pressed_inputs_on_fresh_input_desktop,
    track_pressed_inputs,
};
use windows_sys::Win32::Foundation as win_foundation;
use windows_sys::Win32::System::StationsAndDesktops as win_desktops;
use windows_sys::Win32::UI::Input::KeyboardAndMouse as win_input;
use windows_sys::Win32::UI::WindowsAndMessaging as win_messages;

const SCREEN: VirtualScreen = VirtualScreen { x: 0, y: 0, width: 1920, height: 1080 };

fn number(value: f64) -> Real {
    Real { bits: value.to_bits() }
}

fn key(key_code: u16, flags: u32) -> InputAction {
    InputAction::Key { key_code, flags }
}

fn button(flags: u32, mouse_data: u32) -> InputAction {
    InputAction::Button(MouseInput { dx: 0, dy: 0, mouse_data, flags })
}

fn wheel(flags: u32, mouse_data: u32) -> InputAction {
    InputAction::Wheel(MouseInput { dx: 0, dy: 0, mouse_data, flags })
}

fn cursor(dx: i32, dy: i32, x: i32, y: i32) -> InputAction {
    InputAction::MoveCursor {
        input: MouseInput { dx, dy, mouse_data: 0, flags: 0xC001 },
        x,
        y,
    }
}

fn units(text: &str) -> Vec<u16> {
    text.encode_utf16().collect()
}

fn points(left: i32, right: i32, y: i32) -> TouchPoints {
    TouchPoints { first: Point { x: left, y }, second: Point { x: right, y } }
}

#[test]
fn constants_are_those_of_the_system() {
    assert_eq!(
        CURSOR_MOVE_FLAGS,
        win_input::MOUSEEVENTF_MOVE
            | win_input::MOUSEEVENTF_ABSOLUTE
            | win_input::MOUSEEVENTF_VIRTUALDESK
    );
    assert_eq!(MOUSEEVENTF_LEFTDOWN, win_input::MOUSEEVENTF_LEFTDOWN);
    assert_eq!(MOUSEEVENTF_LEFTUP, win_input::MOUSEEVENTF_LEFTUP);
    assert_eq!(MOUSEEVENTF_RIGHTDOWN, win_input::MOUSEEVENTF_RIGHTDOWN);
    assert_eq!(MOUSEEVENTF_RIGHTUP, win_input::MOUSEEVENTF_RIGHTUP);
    assert_eq!(MOUSEEVENTF_MIDDLEDOWN, win_input::MOUSEEVENTF_MIDDLEDOWN);
    assert_eq!(MOUSEEVENTF_MIDDLEUP, win_input::MOUSEEVENTF_MIDDLEUP);
    assert_eq!(MOUSEEVENTF_XDOWN, win_input::MOUSEEVENTF_XDOWN);
    assert_eq!(MOUSEEVENTF_XUP, win_input::MOUSEEVENTF_XUP);
    assert_eq!(MOUSEEVENTF_WHEEL, win_input::MOUSEEVENTF_WHEEL);
    assert_eq!(MOUSEEVENTF_HWHEEL, win_input::MOUSEEVENTF_HWHEEL);
    assert_eq!(XBUTTON1, win_messages::XBUTTON1 as u32);
    assert_eq!(XBUTTON2, win_messages::XBUTTON2 as u32);
    assert_eq!(KEYEVENTF_EXTENDEDKEY, win_input::KEYEVENTF_EXTENDEDKEY);
    assert_eq!(KEYEVENTF_KEYUP, win_input::KEYEVENTF_KEYUP);
    assert_eq!(VK_TAB, win_input::VK_TAB);
    assert_eq!(VK_CONTROL, win_input::VK_CONTROL);
    assert_eq!(VK_LEFT, win_input::VK_LEFT);
    assert_eq!(VK_RIGHT, win_input::VK_RIGHT);
    assert_eq!(VK_D, win_input::VK_D);
    assert_eq!(VK_LWIN, win_input::VK_LWIN);
    assert_eq!(VK_ADD, win_input::VK_ADD);
    assert_eq!(VK_SUBTRACT, win_input::VK_SUBTRACT);
    assert_eq!(ERROR_ACCESS_DENIED, win_foundation::ERROR_ACCESS_DENIED);
    assert_eq!(
        INPUT_DESKTOP_ACCESS,
        win_desktops::DESKTOP_READOBJECTS
            | win_desktops::DESKTOP_WRITEOBJECTS
            | win_desktops::DESKTOP_SWITCHDESKTOP
            | win_desktops::DESKTOP_CREATEWINDOW
            | win_desktops::DESKTOP_JOURNALPLAYBACK
            | win_desktops::DESKTOP_JOURNALRECORD
    );
    assert_eq!(TOUCH_DOWN, 0x0001_0006);
    assert_eq!(TOUCH_UPDATE, 0x0002_0006);
    assert_eq!(TOUCH_UP, 0x0004_0002);
    assert_eq!(TOUCH_FEEDBACK_NONE, 3);
    assert_eq!(PINCH_CONTACTS, 2);
}

#[test]
fn numbers_compare_as_floats_do() {
    assert_eq!(SWIPE_TRIGGER_DELTA, 0.35_f64.to_bits());
    assert_eq!(EPSILON, f64::EPSILON.to_bits());
    assert_eq!(PHOTOSHOP_ZOOM_STEP, 0.04_f64.to_bits());
    let values = [
        0.0,
        -0.0,
        1e-310,
        f64::EPSILON,
        0.04,
        0.349999,
        0.35,
        1.0,
        -1.0,
        -0.35,
        -2.5,
        f64::MAX,
        f64::INFINITY,
        f64::NEG_INFINITY,
        f64::NAN,
        -f64::NAN,
    ];
    for a in values {
        assert_eq!(number(a).is_positive(), a > 0.0, "{a} > 0");
        assert_eq!(number(a).is_negative(), a < 0.0, "{a} < 0");
        assert_eq!(number(a).is_at_least(SWIPE_TRIGGER_DELTA), a.abs() >= 0.35, "|{a}| >= 0.35");
        for b in values {
            assert_eq!(number(a) == number(b), a == b, "{a} == {b}");
            assert_eq!(number(a).is_larger_than(number(b)), a.abs() > b.abs(), "|{a}| > |{b}|");
        }
    }
    assert_eq!(Real::zero(), number(0.0));
}

#[test]
fn moves_are_scaled_to_the_desktop() {
    let at = |x, y, screen: &VirtualScreen| inject_mouse_move(x, y, None, screen);
    assert_eq!(at(0, 0, &SCREEN), cursor(0, 0, 0, 0));
    assert_eq!(at(1919, 1079, &SCREEN), cursor(65_535, 65_535, 1919, 1079));
    assert_eq!(at(960, 540, &SCREEN), cursor(32_784, 32_797, 960, 540));
    assert_eq!(at(-5, 5000, &SCREEN), cursor(0, 65_535, -5, 5000));
    let left_of = VirtualScreen { x: -1920, y: -200, width: 3840, height: 1280 };
    assert_eq!(at(-1920, -200, &left_of), cursor(0, 0, -1920, -200));
    assert_eq!(at(0, 0, &left_of), cursor(32_776, 10_247, 0, 0));
    let dragging = inject_mouse_move(960, 540, Some(MouseButton::Left), &SCREEN);
    assert_eq!(dragging, at(960, 540, &SCREEN));
}

#[test]
fn odd_desktops_are_scaled_as_wrapping_arithmetic_has_it() {
    let nothing = VirtualScreen { x: 0, y: 0, width: 0, height: 1 };
    assert_eq!(inject_mouse_move(1, 1, None, &nothing), cursor(65_535, 65_535, 1, 1));
    // One pixel wide, the scaled distance leaves 32 bits and wraps.
    let far = 40_000_i32;
    let wrapped = ((far as i64 * 65_535) as i32).clamp(0, 65_535);
    assert_eq!(
        inject_mouse_move(far, 0, None, &nothing),
        cursor(wrapped, 0, far, 0)
    );
    let farther = -40_000_i32;
    let wrapped = ((farther as i64 * 65_535) as i32).clamp(0, 65_535);
    assert_eq!(
        inject_mouse_move(farther, 0, None, &nothing),
        cursor(wrapped, 0, farther, 0)
    );
    assert!(can_move(&SCREEN, i32::MIN, i32::MAX));
    let shifted = VirtualScreen { x: 1, y: 0, width: 10, height: 10 };
    assert!(!can_move(&shifted, i32::MIN, 0));
    assert!(can_move(&shifted, i32::MIN + 1, 0));
}

#[test]
fn buttons_go_where_they_are_clicked() {
    let at = |which, down| inject_mouse_button(which, down, 0, 0, &SCREEN);
    assert_eq!(at(MouseButton::Left, true), [button(0x0002, 0)]);
    assert_eq!(at(MouseButton::Left, false), [button(0x0004, 0)]);
    assert_eq!(at(MouseButton::Right, true), [button(0x0008, 0)]);
    assert_eq!(at(MouseButton::Right, false), [button(0x0010, 0)]);
    assert_eq!(at(MouseButton::Middle, true), [button(0x0020, 0)]);
    assert_eq!(at(MouseButton::Middle, false), [button(0x0040, 0)]);
    assert_eq!(at(MouseButton::Back, true), [button(0x0080, 1)]);
    assert_eq!(at(MouseButton::Back, false), [button(0x0100, 1)]);
    assert_eq!(at(MouseButton::Forward, true), [button(0x0080, 2)]);
    assert_eq!(at(MouseButton::Forward, false), [button(0x0100, 2)]);
    assert_eq!(
        inject_mouse_button(MouseButton::Left, true, 0, 1079, &SCREEN),
        [cursor(0, 65_535, 0, 1079), button(0x0002, 0)]
    );
}

#[test]
fn wheels_turn_by_units() {
    assert_eq!(inject_wheel_units(0, 0), []);
    assert_eq!(inject_wheel_units(3, -7), [wheel(0x0800, -7_i32 as u32), wheel(0x1000, 3)]);
    assert_eq!(inject_scroll(0, 1), [wheel(0x0800, 120)]);
    assert_eq!(inject_scroll(-2, 0), [wheel(0x1000, -240_i32 as u32)]);
    assert_eq!(
        inject_scroll(i32::MIN, i32::MAX),
        [wheel(0x0800, i32::MAX as u32), wheel(0x1000, i32::MIN as u32)]
    );
}

#[test]
fn precise_scrolls_forget_when_cancelled() {
    let idle = GesturePhase::Idle;
    let (actions, forget) = inject_precise_scroll(0, 5, GesturePhase::Changed, idle);
    assert_eq!(actions, [wheel(0x0800, 5)]);
    assert!(!forget);
    assert!(inject_precise_scroll(0, 0, GesturePhase::Cancelled, idle).1);
    assert!(inject_precise_scroll(0, 0, idle, GesturePhase::Cancelled).1);
    assert!(!inject_precise_scroll(0, 0, GesturePhase::Ended, GesturePhase::Ended).1);
}

#[test]
fn extended_keys_are_marked() {
    let extended = [
        0x21, 0x22, 0x23, 0x24, 0x25, 0x26, 0x27, 0x28, 0x2C, 0x2D, 0x2E, 0x5B, 0x5C, 0x5D, 0x6F,
        0x90, 0xA3, 0xA5,
    ];
    for vk in 0..=u16::MAX {
        assert_eq!(is_extended_key_vk(vk), extended.contains(&vk), "{vk:#x}");
    }
    assert_eq!(inject_key(0x41, true), key(0x41, 0));
    assert_eq!(inject_key(0x41, false), key(0x41, 2));
    assert_eq!(inject_key(0x25, true), key(0x25, 1));
    assert_eq!(inject_key(0x25, false), key(0x25, 3));
    assert_eq!(scan_code(0x1_E01D), 0xE01D);
}

#[test]
fn chords_come_up_in_reverse() {
    assert_eq!(
        inject_key_chord(&[0x5B, 0x11, 0x25]),
        [
            key(0x5B, 1),
            key(0x11, 0),
            key(0x25, 1),
            key(0x25, 3),
            key(0x11, 2),
            key(0x5B, 3)
        ]
    );
    assert_eq!(inject_key_chord(&[]), []);
    assert_eq!(inject_key_releases(&[0x41, 0x42]), [key(0x42, 2), key(0x41, 2)]);
    assert_eq!(
        inject_gesture_action(GestureAction::TaskView),
        [key(0x5B, 1), key(0x09, 0), key(0x09, 2), key(0x5B, 3)]
    );
    assert_eq!(
        inject_gesture_action(GestureAction::ShowDesktop),
        [key(0x5B, 1), key(0x44, 0), key(0x44, 2), key(0x5B, 3)]
    );
}

#[test]
fn commands_become_actions() {
    let perform = |command| inject_command_without_tracking(&command, &SCREEN);
    let phase = GesturePhase::Changed;
    assert_eq!(
        perform(InputCommand::MouseMove { x: 1919, y: 0, drag_button: None }),
        [cursor(65_535, 0, 1919, 0)]
    );
    assert_eq!(
        perform(InputCommand::MouseButton { button: MouseButton::Right, down: true, x: 0, y: 0 }),
        [button(0x0008, 0)]
    );
    assert_eq!(perform(InputCommand::Scroll { delta_x: 0, delta_y: 2 }), [wheel(0x0800, 240)]);
    let (delta_x, delta_y) = (number(0.5), number(-0.5));
    assert_eq!(
        perform(InputCommand::PreciseScroll { delta_x, delta_y, phase, momentum_phase: phase }),
        [InputAction::PreciseScroll { delta_x, delta_y, phase, momentum_phase: phase }]
    );
    assert_eq!(
        perform(InputCommand::Swipe { delta_x, delta_y, phase }),
        [InputAction::Swipe { delta_x, delta_y, phase }]
    );
    assert_eq!(
        perform(InputCommand::Pinch { magnification: delta_x, phase, x: 1, y: 2 }),
        [InputAction::Pinch { magnification: delta_x, phase, x: 1, y: 2 }]
    );
    assert_eq!(
        perform(InputCommand::GestureAction { action: GestureAction::ShowDesktop }),
        inject_gesture_action(GestureAction::ShowDesktop)
    );
    assert_eq!(perform(InputCommand::Key { key_code: 0x42, down: false }), [key(0x42, 2)]);
    assert_eq!(perform(InputCommand::ReleaseAll), []);
    assert_eq!(perform(InputCommand::SecureAttention), [InputAction::SecureAttention]);

    let shifted = VirtualScreen { x: 1, y: 1, width: 10, height: 10 };
    let off = InputCommand::MouseMove { x: i32::MIN, y: 0, drag_button: None };
    assert!(!can_inject(&off, &shifted));
    let click = InputCommand::MouseButton { button: MouseButton::Left, down: true, x: 0, y: 0 };
    assert!(can_inject(&click, &shifted));
}

#[test]
fn pressed_keys_and_buttons_are_tracked() {
    let mut keys = Vec::new();
    let mut mask = 0_u64;
    let press = |key_code, down| InputCommand::Key { key_code, down };
    for key_code in [0x41, 0x42, 0x41, 0x43] {
        track_pressed_inputs(&press(key_code, true), &mut keys, &mut mask);
    }
    assert_eq!(keys, [0x41, 0x42, 0x43]);
    track_pressed_inputs(&press(0x42, false), &mut keys, &mut mask);
    assert_eq!(keys, [0x41, 0x43]);
    track_pressed_inputs(&press(0x50, false), &mut keys, &mut mask);
    assert_eq!(keys, [0x41, 0x43]);

    let click = |button, down| InputCommand::MouseButton { button, down, x: 3, y: 4 };
    track_pressed_inputs(&click(MouseButton::Left, true), &mut keys, &mut mask);
    track_pressed_inputs(&click(MouseButton::Forward, true), &mut keys, &mut mask);
    assert_eq!(mask, 17);
    track_pressed_inputs(&click(MouseButton::Left, false), &mut keys, &mut mask);
    assert_eq!(mask, 16);
    track_pressed_inputs(&InputCommand::ReleaseAll, &mut keys, &mut mask);
    assert_eq!((keys.as_slice(), mask), ([0x41, 0x43].as_slice(), 16));
}

#[test]
fn releasing_lets_everything_go() {
    let mut keys = vec![0x11, 0x25];
    let mut mask = 1 | 4 | 8;
    let actions = release_pressed_inputs(&mut keys, &mut mask);
    assert_eq!(actions, [key(0x25, 3), key(0x11, 2), button(0x0004, 0), button(0x0040, 0)]);
    assert!(keys.is_empty());
    assert_eq!(mask, 0);
    assert_eq!(release_pressed_inputs(&mut keys, &mut mask), []);
}

#[test]
fn commands_are_tracked_and_injected() {
    let mut keys = Vec::new();
    let mut mask = 0;
    let down = InputCommand::Key { key_code: 0x41, down: true };
    assert_eq!(inject_command(&down, &mut keys, &mut mask, &SCREEN), [key(0x41, 0)]);
    let click = InputCommand::MouseButton { button: MouseButton::Right, down: true, x: 0, y: 0 };
    assert_eq!(inject_command(&click, &mut keys, &mut mask, &SCREEN), [button(0x0008, 0)]);
    assert_eq!((keys.as_slice(), mask), ([0x41].as_slice(), 2));
    let release = inject_command(&InputCommand::ReleaseAll, &mut keys, &mut mask, &SCREEN);
    assert_eq!(release, [key(0x41, 2), button(0x0010, 0)]);
    assert_eq!((keys.len(), mask), (0, 0));
}

#[test]
fn fresh_desktop_releases_only_when_attached() {
    let mut keys = vec![0x41];
    let mut mask = 1;
    let failed = release_pressed_inputs_on_fresh_input_desktop(
        Err("OpenInputDesktop failed".to_string()),
        &mut keys,
        &mut mask,
    );
    assert_eq!(failed.err().unwrap(), "OpenInputDesktop failed");
    assert_eq!((keys.as_slice(), mask), ([0x41].as_slice(), 1));
    let (name, actions) = release_pressed_inputs_on_fresh_input_desktop(
        Ok("Winlogon".to_string()),
        &mut keys,
        &mut mask,
    )
    .unwrap();
    assert_eq!(name, "Winlogon");
    assert_eq!(actions, [key(0x41, 2), button(0x0004, 0)]);
    assert_eq!((keys.len(), mask), (0, 0));
}

#[test]
fn secure_attention_says_what_is_missing() {
    assert!(send_secure_attention(true, true).is_ok());
    assert_eq!(
        send_secure_attention(false, false).err().unwrap(),
        "SAS.dll is not available on this Windows installation"
    );
    assert_eq!(
        send_secure_attention(true, false).err().unwrap(),
        "SendSAS entry point is not available"
    );
}

#[test]
fn refusals_are_reported_now_and_then() {
    let mut notices = RefusalNotices::new();
    let first = notices.note_injection_refused("key", 87, 5).expect("the first is reported");
    assert_eq!(first, "injected key was refused: SendInput failed with error 87");
    assert!(notices.note_injection_refused("key", 87, 5 + REFUSAL_QUIET - 1).is_none());
    assert!(notices.note_injection_refused("key", 87, 0).is_none());
    let denied = notices
        .note_injection_refused("mouse button", 5, 5 + REFUSAL_QUIET)
        .expect("the quiet time has passed");
    assert_eq!(
        denied,
        "injected mouse button refused by Windows (ERROR_ACCESS_DENIED): an elevated or \
         uiAccess window (e.g. Task Manager, a UAC-elevated app) has focus. A \
         standard-user MyKVM cannot hook or inject into higher-privilege windows \u{2014} \
         restart MyKVM as administrator (Settings) on this machine to control them."
    );
    assert_eq!(REFUSAL_QUIET, 10_000_000_000);
}

#[test]
fn desktops_are_attached_and_closed() {
    let mut attachment = DesktopAttachment::new();
    assert_eq!(attachment.handle_to_close(), None);
    assert_eq!(attachment.name(), "");

    let (unopened, close) = attachment.attach_current_input_desktop(0, None, false);
    assert_eq!(unopened.err().unwrap(), "OpenInputDesktop failed");
    assert_eq!(close, None);

    let (name, close) =
        attachment.attach_current_input_desktop(11, Some("Default".to_string()), true);
    assert_eq!(name.unwrap(), "Default");
    assert_eq!(close, None);
    assert_eq!(attachment.handle_to_close(), Some(11));

    let (stuck, close) =
        attachment.attach_current_input_desktop(12, Some("Winlogon".to_string()), false);
    assert_eq!(stuck.err().unwrap(), "SetThreadDesktop failed for Winlogon");
    assert_eq!(close, Some(12));
    assert_eq!(attachment.handle_to_close(), Some(11));
    assert_eq!(attachment.name(), "Default");

    let (again, close) = attachment.attach_current_input_desktop(13, None, true);
    assert_eq!(again.unwrap(), "<unknown>");
    assert_eq!(close, Some(11));
    assert_eq!(attachment.handle_to_close(), Some(13));
}

#[test]
fn desktop_names_end_at_the_first_zero() {
    let mut buffer = [0_u16; 16];
    for (slot, unit) in buffer.iter_mut().zip(units("Winlogon")) {
        *slot = unit;
    }
    assert_eq!(desktop_name(true, 18, &buffer), Some("Winlogon".to_string()));
    assert_eq!(desktop_name(false, 18, &buffer), None);
    assert_eq!(desktop_name(true, 0, &buffer), None);
    assert_eq!(desktop_name(true, 8, &units("Full")), Some("Full".to_string()));
    assert_eq!(desktop_name(true, 2, &[0]), Some(String::new()));
    assert_eq!(
        desktop_name(true, 6, &[0xD83D, 0xDE00, 0xD800]),
        Some("\u{1F600}\u{FFFD}".to_string())
    );
    assert_eq!(
        desktop_name(true, 10, &[0xD83D, 0x0041, 0xDE00, 0xDBFF, 0xDFFF]),
        Some("\u{FFFD}A\u{FFFD}\u{10FFFF}".to_string())
    );
}

#[test]
fn photoshop_is_known_by_its_file_name() {
    assert!(is_photoshop_image(r"C:\Program Files\Adobe\Photoshop.exe"));
    assert!(is_photoshop_image("D:/tools/ADOBE PHOTOSHOP 2024.EXE"));
    assert!(is_photoshop_image("photoshop"));
    assert!(!is_photoshop_image(r"C:\Photoshop\notepad.exe"));
    assert!(!is_photoshop_image(r"C:\Photoshop\"));
    assert!(!is_photoshop_image("photosho"));
    assert!(!is_photoshop_image(""));
    assert!(windows_foreground_process_is_photoshop(Some(&units(
        r"C:\Adobe\PhotoShop.exe"
    ))));
    assert!(!windows_foreground_process_is_photoshop(Some(&units(r"C:\paint.exe"))));
    assert!(!windows_foreground_process_is_photoshop(None));
}

#[test]
fn swipes_become_shortcuts() {
    let chord = |x: f64, y: f64, phase| {
        let mut state = SwipeState::new();
        inject_swipe(&mut state, number(x), number(y), phase)
    };
    let over = GesturePhase::Ended;
    assert_eq!(chord(0.0, 0.4, GesturePhase::Changed), inject_key_chord(&[0x5B, 0x09]));
    assert_eq!(chord(0.0, -0.4, GesturePhase::Changed), []);
    assert_eq!(chord(-0.4, 0.1, GesturePhase::Changed), inject_key_chord(&[0x5B, 0x11, 0x25]));
    assert_eq!(chord(0.35, 0.35, GesturePhase::Began), inject_key_chord(&[0x5B, 0x11, 0x27]));
    assert_eq!(chord(0.34, 0.0, GesturePhase::Changed), []);
    assert_eq!(chord(0.01, 0.0, over), inject_key_chord(&[0x5B, 0x11, 0x27]));
    assert_eq!(chord(0.0, 0.0, over), []);
    assert_eq!(chord(f64::EPSILON, 0.0, over), []);
    assert_eq!(chord(f64::NAN, f64::NAN, over), []);
    assert_eq!(chord(0.0, 0.01, GesturePhase::Cancelled), inject_key_chord(&[0x5B, 0x09]));
}

#[test]
fn a_swipe_fires_once() {
    let mut state = SwipeState::new();
    assert_eq!(state.base(GesturePhase::Changed), (number(0.0), number(0.0)));
    let near = inject_swipe(&mut state, number(0.2), number(0.0), GesturePhase::Began);
    assert_eq!(near, []);
    assert_eq!(state.base(GesturePhase::Changed), (number(0.2), number(0.0)));
    assert_eq!(state.base(GesturePhase::Began), (number(0.0), number(0.0)));
    let far = inject_swipe(&mut state, number(0.5), number(0.0), GesturePhase::Changed);
    assert_eq!(far.len(), 6);
    assert!(state.triggered);
    assert_eq!(inject_swipe(&mut state, number(-0.9), number(0.0), GesturePhase::Changed), []);
    assert_eq!(inject_swipe(&mut state, number(-0.9), number(0.0), GesturePhase::Ended), []);
    assert_eq!(state, SwipeState::new());
    assert_eq!(inject_swipe(&mut state, number(0.9), number(0.0), GesturePhase::Changed).len(), 6);
    let anew = inject_swipe(&mut state, number(0.9), number(0.0), GesturePhase::Began);
    assert_eq!(anew.len(), 6);
    assert!(gesture_over(GesturePhase::Cancelled));
    assert!(!gesture_over(GesturePhase::Idle));
}

#[test]
fn contacts_are_laid_out_as_the_system_takes_them() {
    let contact = touch_contact(7, 100, -50, TOUCH_DOWN);
    let point = Point { x: 100, y: -50 };
    let area = Rect { left: 98, top: -52, right: 102, bottom: -48 };
    assert_eq!(contact.pointer_info.pointer_type, 2);
    assert_eq!(contact.pointer_info.pointer_id, 7);
    assert_eq!(contact.pointer_info.frame_id, 0);
    assert_eq!(contact.pointer_info.pointer_flags, TOUCH_DOWN);
    assert_eq!(contact.pointer_info.pixel_location, point);
    assert_eq!(contact.pointer_info.pixel_location_raw, point);
    assert_eq!(contact.pointer_info.himetric_location, Point { x: 0, y: 0 });
    assert_eq!(contact.pointer_info.performance_count, 0);
    assert_eq!(contact.touch_flags, 0);
    assert_eq!(contact.touch_mask, 7);
    assert_eq!((contact.contact, contact.contact_raw), (area, area));
    assert_eq!((contact.orientation, contact.pressure), (90, 32_000));

    let frame = inject_touch_frame(&points(10, 90, 50), TOUCH_UP);
    assert_eq!(frame, [touch_contact(1, 10, 50, TOUCH_UP), touch_contact(2, 90, 50, TOUCH_UP)]);
    assert!(can_touch(&points(10, 90, 50)));
    assert!(!can_touch(&points(i32::MIN, 90, 50)));
    assert!(!can_touch(&points(10, i32::MAX - 1, 50)));
}

#[test]
fn contacts_stay_on_the_desktop() {
    assert_eq!(pinch_points(500, 300, 40, &SCREEN), points(460, 540, 300));
    assert_eq!(pinch_points(0, 0, 40, &SCREEN), points(2, 40, 2));
    assert_eq!(pinch_points(1919, 1079, 250, &SCREEN), points(1669, 1917, 1077));
    let tiny = VirtualScreen { x: 5, y: 5, width: 1, height: 0 };
    assert_eq!(pinch_points(500, 300, 40, &tiny), points(5, 5, 5));
    let narrow = VirtualScreen { x: 0, y: 0, width: 3, height: 4 };
    assert_eq!(pinch_points(500, -300, 40, &narrow), points(2, 2, 2));
    assert!(can_place(0, 40, &SCREEN));
    assert!(!can_place(i32::MAX, 40, &SCREEN));
    let edge = VirtualScreen { x: i32::MAX - 1, y: 0, width: 5, height: 5 };
    assert!(!can_place(0, 40, &edge));
}

fn drive(state: &mut PinchState, events: &[PinchEvent]) -> Vec<PinchAction> {
    let mut actions = Vec::new();
    for event in events {
        assert!(awaits(state, event));
        actions.push(next_pinch_action(state, *event));
    }
    actions
}

fn gesture(phase: GesturePhase) -> PinchEvent {
    PinchEvent::Gesture { phase, x: 500, y: 300 }
}

#[test]
fn a_pinch_presses_moves_and_lifts() {
    let mut state = PinchState::new();
    let start = points(460, 540, 300);
    let wider = points(450, 550, 300);
    assert_eq!(
        inject_pinch(&mut state, GesturePhase::Began, 500, 300),
        PinchAction::InitializeTouch
    );
    let begun = drive(
        &mut state,
        &[
            PinchEvent::TouchInitialized { available: true },
            PinchEvent::ContactsPlaced { points: start },
            PinchEvent::ForegroundChecked { photoshop: false },
            PinchEvent::FrameInjected { accepted: true },
        ],
    );
    assert_eq!(
        begun,
        [
            PinchAction::PlaceContacts { center_x: 500, center_y: 300 },
            PinchAction::CheckForeground,
            PinchAction::InjectFrame { points: start, flags: TOUCH_DOWN },
            PinchAction::Done { over: false }
        ]
    );
    assert!(state.active && !state.fallback);
    let ended = drive(
        &mut state,
        &[
            gesture(GesturePhase::Ended),
            PinchEvent::ContactsPlaced { points: wider },
            PinchEvent::FrameInjected { accepted: true },
            PinchEvent::FrameInjected { accepted: true },
        ],
    );
    assert_eq!(
        ended,
        [
            PinchAction::Rescale { center_x: 500, center_y: 300 },
            PinchAction::InjectFrame { points: wider, flags: TOUCH_UPDATE },
            PinchAction::InjectFrame { points: wider, flags: TOUCH_UP },
            PinchAction::Done { over: true }
        ]
    );
    assert!(!state.active && state.touch_available && state.stage == PinchStage::Idle);

    // The next pinch does not ask for touch contacts again.
    assert_eq!(
        next_pinch_action(&mut state, gesture(GesturePhase::Changed)),
        PinchAction::PlaceContacts { center_x: 500, center_y: 300 }
    );
}

#[test]
fn a_pinch_without_touch_falls_back() {
    let mut state = PinchState::new();
    let actions = drive(
        &mut state,
        &[
            gesture(GesturePhase::Changed),
            PinchEvent::TouchInitialized { available: false },
            PinchEvent::ContactsPlaced { points: points(1, 2, 3) },
            PinchEvent::ForegroundChecked { photoshop: false },
            PinchEvent::FallbackApplied,
            gesture(GesturePhase::Cancelled),
            PinchEvent::FallbackApplied,
        ],
    );
    assert_eq!(
        actions[3..],
        [
            PinchAction::ApplyFallback { photoshop: false },
            PinchAction::Done { over: false },
            PinchAction::ApplyFallback { photoshop: false },
            PinchAction::Done { over: true }
        ]
    );
    assert!(!state.active && !state.fallback);
}

#[test]
fn a_pinch_over_photoshop_uses_the_keyboard() {
    let mut state = PinchState::new();
    let actions = drive(
        &mut state,
        &[
            gesture(GesturePhase::Began),
            PinchEvent::TouchInitialized { available: true },
            PinchEvent::ContactsPlaced { points: points(1, 2, 3) },
            PinchEvent::ForegroundChecked { photoshop: true },
            PinchEvent::FallbackApplied,
        ],
    );
    assert_eq!(
        actions[3..],
        [PinchAction::ApplyFallback { photoshop: true }, PinchAction::Done { over: false }]
    );
    assert!(state.fallback && state.photoshop_fallback);
}

#[test]
fn a_pinch_whose_frame_is_refused_lifts_and_falls_back() {
    let mut state = PinchState::new();
    let start = points(460, 540, 300);
    drive(
        &mut state,
        &[
            gesture(GesturePhase::Began),
            PinchEvent::TouchInitialized { available: true },
            PinchEvent::ContactsPlaced { points: start },
            PinchEvent::ForegroundChecked { photoshop: false },
            PinchEvent::FrameInjected { accepted: true },
        ],
    );
    let actions = drive(
        &mut state,
        &[
            gesture(GesturePhase::Changed),
            PinchEvent::ContactsPlaced { points: points(450, 550, 300) },
            PinchEvent::FrameInjected { accepted: false },
            PinchEvent::FrameInjected { accepted: false },
            PinchEvent::FallbackApplied,
        ],
    );
    assert_eq!(
        actions[2..],
        [
            PinchAction::InjectFrame { points: start, flags: TOUCH_UP },
            PinchAction::ApplyFallback { photoshop: false },
            PinchAction::Done { over: false }
        ]
    );
    assert!(state.active && state.fallback);
}

#[test]
fn a_pinch_that_cannot_press_falls_back() {
    let mut state = PinchState::new();
    let actions = drive(
        &mut state,
        &[
            gesture(GesturePhase::Ended),
            PinchEvent::TouchInitialized { available: true },
            PinchEvent::ContactsPlaced { points: points(1, 2, 3) },
            PinchEvent::ForegroundChecked { photoshop: false },
            PinchEvent::FrameInjected { accepted: false },
            PinchEvent::FallbackApplied,
        ],
    );
    assert_eq!(
        actions[4..],
        [PinchAction::ApplyFallback { photoshop: false }, PinchAction::Done { over: true }]
    );
    assert!(!awaits(&state, &PinchEvent::FallbackApplied));
}

#[test]
fn photoshop_zooms_in_steps() {
    assert!(photoshop_zoom(number(0.039)).is_none());
    assert!(photoshop_zoom(number(f64::NAN)).is_none());
    let (zoom_in, actions) = photoshop_zoom(number(0.04)).unwrap();
    assert!(zoom_in);
    assert_eq!(actions, inject_key_chord(&[0x11, 0x6B]));
    let (zoom_in, actions) = photoshop_zoom(number(-1.0)).unwrap();
    assert!(!zoom_in);
    assert_eq!(actions, inject_key_chord(&[0x11, 0x6D]));
}

#[test]
fn the_wheel_turns_while_control_is_held() {
    assert_eq!(inject_control_wheel(0), []);
    assert_eq!(
        inject_control_wheel(-30),
        [key(0x11, 0), wheel(0x0800, -30_i32 as u32), key(0x11, 2)]
    );
}

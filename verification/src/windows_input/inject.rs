//! The records that are sent to the system.

use vstd::prelude::*;
use crate::number::Real;
use crate::shared_input::GestureAction;
use crate::shared_input::GesturePhase;
use crate::shared_input::InputCommand;
use crate::shared_input::MouseButton;

verus! {

pub const MOUSEEVENTF_MOVE: u32 = 0x0001;

pub const MOUSEEVENTF_LEFTDOWN: u32 = 0x0002;

pub const MOUSEEVENTF_LEFTUP: u32 = 0x0004;

pub const MOUSEEVENTF_RIGHTDOWN: u32 = 0x0008;

pub const MOUSEEVENTF_RIGHTUP: u32 = 0x0010;

pub const MOUSEEVENTF_MIDDLEDOWN: u32 = 0x0020;

pub const MOUSEEVENTF_MIDDLEUP: u32 = 0x0040;

pub const MOUSEEVENTF_XDOWN: u32 = 0x0080;

pub const MOUSEEVENTF_XUP: u32 = 0x0100;

pub const MOUSEEVENTF_WHEEL: u32 = 0x0800;

pub const MOUSEEVENTF_HWHEEL: u32 = 0x1000;

pub const MOUSEEVENTF_VIRTUALDESK: u32 = 0x4000;

pub const MOUSEEVENTF_ABSOLUTE: u32 = 0x8000;

/// The flags of an absolute move over the whole desktop.
pub const CURSOR_MOVE_FLAGS: u32 = MOUSEEVENTF_MOVE | MOUSEEVENTF_ABSOLUTE
    | MOUSEEVENTF_VIRTUALDESK;

pub const XBUTTON1: u32 = 1;

pub const XBUTTON2: u32 = 2;

pub const KEYEVENTF_EXTENDEDKEY: u32 = 0x0001;

pub const KEYEVENTF_KEYUP: u32 = 0x0002;

/// The wheel units of one notch.
pub const WHEEL_DELTA: i32 = 120;

/// The largest absolute coordinate.
pub const ABSOLUTE_MAX: i32 = 65_535;

pub const VK_TAB: u16 = 0x09;

pub const VK_CONTROL: u16 = 0x11;

pub const VK_LEFT: u16 = 0x25;

pub const VK_RIGHT: u16 = 0x27;

pub const VK_D: u16 = 0x44;

pub const VK_LWIN: u16 = 0x5B;

pub const VK_ADD: u16 = 0x6B;

pub const VK_SUBTRACT: u16 = 0x6D;

/// A mouse record as the system takes it.
#[derive(Debug, Clone, Copy, PartialEq, Eq, Structural)]
pub struct MouseInput {
    pub dx: i32,
    pub dy: i32,
    pub mouse_data: u32,
    pub flags: u32,
}

/// Something to be done, in the order given.
#[derive(Debug, Clone, Copy, PartialEq)]
pub enum InputAction {
    /// Send a cursor move; if the system refuses it, set the cursor to (`x`, `y`).
    MoveCursor { input: MouseInput, x: i32, y: i32 },
    /// Send a button record; a refusal is reported.
    Button(MouseInput),
    /// Send a wheel record; a refusal is passed over.
    Wheel(MouseInput),
    /// Send a key record with the scan code of the key; a refusal is reported.
    Key { key_code: u16, flags: u32 },
    /// Scroll by fractions of a wheel unit.
    PreciseScroll {
        delta_x: Real,
        delta_y: Real,
        phase: GesturePhase,
        momentum_phase: GesturePhase,
    },
    /// Go on with a swipe.
    Swipe { delta_x: Real, delta_y: Real, phase: GesturePhase },
    /// Go on with a pinch.
    Pinch { magnification: Real, phase: GesturePhase, x: i32, y: i32 },
    /// Ask for the secure attention sequence.
    SecureAttention,
}

/// The desktop over all screens, as the system reports it.
#[derive(Debug, Clone, Copy, PartialEq, Eq, Structural)]
pub struct VirtualScreen {
    pub x: i32,
    pub y: i32,
    pub width: i32,
    pub height: i32,
}

/// `a / b` rounded towards zero, for positive `b`.
pub open spec fn quotient(a: int, b: int) -> int {
    if a >= 0 {
        a / b
    } else {
        -((-a) / b)
    }
}

/// The 32-bit signed number that `v` becomes when its higher bits are dropped.
pub open spec fn low_i32(v: int) -> int {
    let low = v % 0x1_0000_0000;
    if low < 0x8000_0000 {
        low
    } else {
        low - 0x1_0000_0000
    }
}

/// `v`, or the nearest bound if it is outside of them.
pub open spec fn clamped(v: int, low: int, high: int) -> int {
    if v < low {
        low
    } else if v > high {
        high
    } else {
        v
    }
}

/// What the extent of a screen is divided by: its last pixel, counted from its
/// first, and never less than one.
pub open spec fn last_pixel(extent: int) -> int {
    if extent >= 2 {
        extent - 1
    } else {
        1
    }
}

/// The absolute coordinate of the pixel `pos` on a screen that begins at
/// `origin` and is `extent` pixels long.
pub open spec fn absolute(pos: int, origin: int, extent: int) -> int {
    clamped(
        low_i32(quotient((pos - origin) * ABSOLUTE_MAX, last_pixel(extent))),
        0,
        ABSOLUTE_MAX as int,
    )
}

/// Whether the distance from `origin` to `pos` can be told in 32 bits.
pub open spec fn near(pos: i32, origin: i32) -> bool {
    i32::MIN <= pos - origin <= i32::MAX
}

/// Whether the cursor can be moved to (`x`, `y`): both distances from the origin
/// of the desktop can be told in 32 bits.
pub open spec fn movable(screen: VirtualScreen, x: i32, y: i32) -> bool {
    near(x, screen.x) && near(y, screen.y)
}

/// Whether the cursor can be moved to (`x`, `y`).
pub fn can_move(screen: &VirtualScreen, x: i32, y: i32) -> (can: bool)
    ensures
        can == movable(*screen, x, y),
{
    x.checked_sub(screen.x).is_some() && y.checked_sub(screen.y).is_some()
}

fn wrap_to_i32(v: i64) -> (low: i32)
    requires
        i64::MIN < v,
    ensures
        low == low_i32(v as int),
{
    let modulus: i64 = 0x1_0000_0000;
    let low: i64 = if v >= 0 {
        v % modulus
    } else {
        let rest: i64 = (-v) % modulus;
        assert(v as int % 0x1_0000_0000 == (if rest == 0 {
            0
        } else {
            0x1_0000_0000 - rest
        }));
        if rest == 0 {
            0
        } else {
            modulus - rest
        }
    };
    if low < 0x8000_0000 {
        low as i32
    } else {
        (low - modulus) as i32
    }
}

fn absolute_coordinate(pos: i32, origin: i32, extent: i32) -> (coordinate: i32)
    requires
        near(pos, origin),
    ensures
        coordinate == absolute(pos as int, origin as int, extent as int),
        0 <= coordinate <= ABSOLUTE_MAX,
{
    let distance: i64 = (pos - origin) as i64;
    let scaled: i64 = distance * 65_535;
    let divisor: i64 = if extent >= 2 {
        (extent - 1) as i64
    } else {
        1
    };
    proof {
        let size: int = if scaled >= 0 {
            scaled as int
        } else {
            -scaled as int
        };
        assert(0 <= size / (divisor as int) <= size) by (nonlinear_arith)
            requires
                size >= 0,
                divisor >= 1,
        ;
    }
    let whole: i64 = if scaled >= 0 {
        scaled / divisor
    } else {
        -((-scaled) / divisor)
    };
    let low: i32 = wrap_to_i32(whole);
    if low < 0 {
        0
    } else if low > 65_535 {
        65_535
    } else {
        low
    }
}

/// The cursor move to (`x`, `y`).
pub open spec fn move_action(screen: VirtualScreen, x: i32, y: i32) -> InputAction {
    InputAction::MoveCursor {
        input: MouseInput {
            dx: absolute(x as int, screen.x as int, screen.width as int) as i32,
            dy: absolute(y as int, screen.y as int, screen.height as int) as i32,
            mouse_data: 0,
            flags: CURSOR_MOVE_FLAGS,
        },
        x,
        y,
    }
}

/// Moves the cursor to (`x`, `y`), in pixels of the desktop; which button is
/// dragging makes no difference.
pub fn inject_mouse_move(
    x: i32,
    y: i32,
    _drag_button: Option<MouseButton>,
    screen: &VirtualScreen,
) -> (action: InputAction)
    requires
        movable(*screen, x, y),
    ensures
        action == move_action(*screen, x, y),
{
    let dx: i32 = absolute_coordinate(x, screen.x, screen.width);
    let dy: i32 = absolute_coordinate(y, screen.y, screen.height);
    InputAction::MoveCursor {
        input: MouseInput { dx, dy, mouse_data: 0, flags: CURSOR_MOVE_FLAGS },
        x,
        y,
    }
}

/// The record that presses or releases `button`. The side buttons share a flag
/// and are told apart by the data.
pub open spec fn button_input(button: MouseButton, down: bool) -> MouseInput {
    let (flags, mouse_data) = match (button, down) {
        (MouseButton::Left, true) => (MOUSEEVENTF_LEFTDOWN, 0u32),
        (MouseButton::Left, false) => (MOUSEEVENTF_LEFTUP, 0u32),
        (MouseButton::Right, true) => (MOUSEEVENTF_RIGHTDOWN, 0u32),
        (MouseButton::Right, false) => (MOUSEEVENTF_RIGHTUP, 0u32),
        (MouseButton::Middle, true) => (MOUSEEVENTF_MIDDLEDOWN, 0u32),
        (MouseButton::Middle, false) => (MOUSEEVENTF_MIDDLEUP, 0u32),
        (MouseButton::Back, true) => (MOUSEEVENTF_XDOWN, XBUTTON1),
        (MouseButton::Back, false) => (MOUSEEVENTF_XUP, XBUTTON1),
        (MouseButton::Forward, true) => (MOUSEEVENTF_XDOWN, XBUTTON2),
        (MouseButton::Forward, false) => (MOUSEEVENTF_XUP, XBUTTON2),
    };
    MouseInput { dx: 0, dy: 0, mouse_data, flags }
}

/// The actions of a click at (`x`, `y`): the cursor goes there first, unless the
/// position is the origin, which stands for wherever the cursor is.
pub open spec fn button_actions(
    button: MouseButton,
    down: bool,
    x: i32,
    y: i32,
    screen: VirtualScreen,
) -> Seq<InputAction> {
    let press = seq![InputAction::Button(button_input(button, down))];
    if x != 0 || y != 0 {
        seq![move_action(screen, x, y)] + press
    } else {
        press
    }
}

fn button_record(button: MouseButton, down: bool) -> (input: MouseInput)
    ensures
        input == button_input(button, down),
{
    let (flags, mouse_data): (u32, u32) = match (button, down) {
        (MouseButton::Left, true) => (MOUSEEVENTF_LEFTDOWN, 0),
        (MouseButton::Left, false) => (MOUSEEVENTF_LEFTUP, 0),
        (MouseButton::Right, true) => (MOUSEEVENTF_RIGHTDOWN, 0),
        (MouseButton::Right, false) => (MOUSEEVENTF_RIGHTUP, 0),
        (MouseButton::Middle, true) => (MOUSEEVENTF_MIDDLEDOWN, 0),
        (MouseButton::Middle, false) => (MOUSEEVENTF_MIDDLEUP, 0),
        (MouseButton::Back, true) => (MOUSEEVENTF_XDOWN, XBUTTON1),
        (MouseButton::Back, false) => (MOUSEEVENTF_XUP, XBUTTON1),
        (MouseButton::Forward, true) => (MOUSEEVENTF_XDOWN, XBUTTON2),
        (MouseButton::Forward, false) => (MOUSEEVENTF_XUP, XBUTTON2),
    };
    MouseInput { dx: 0, dy: 0, mouse_data, flags }
}

/// Presses or releases `button` at (`x`, `y`), or where the cursor is if both
/// are zero.
pub fn inject_mouse_button(
    button: MouseButton,
    down: bool,
    x: i32,
    y: i32,
    screen: &VirtualScreen,
) -> (actions: Vec<InputAction>)
    requires
        x != 0 || y != 0 ==> movable(*screen, x, y),
    ensures
        actions@ == button_actions(button, down, x, y, *screen),
{
    let mut actions: Vec<InputAction> = Vec::new();
    if x != 0 || y != 0 {
        actions.push(inject_mouse_move(x, y, None, screen));
    }
    actions.push(InputAction::Button(button_record(button, down)));
    assert(actions@ =~= button_actions(button, down, x, y, *screen));
    actions
}

/// A signed number of wheel units as the unsigned number of the same bits.
pub open spec fn dword(delta: i32) -> u32 {
    if delta >= 0 {
        delta as u32
    } else {
        (delta + 0x1_0000_0000) as u32
    }
}

/// The wheel record of `delta` units along the axis of `flag`.
pub open spec fn wheel_action(flag: u32, delta: i32) -> InputAction {
    InputAction::Wheel(MouseInput { dx: 0, dy: 0, mouse_data: dword(delta), flags: flag })
}

/// The wheel records of a scroll: the vertical one, then the horizontal one,
/// and none for an axis that does not move.
pub open spec fn wheel_actions(delta_x: i32, delta_y: i32) -> Seq<InputAction> {
    let vertical = if delta_y != 0 {
        seq![wheel_action(MOUSEEVENTF_WHEEL, delta_y)]
    } else {
        seq![]
    };
    let horizontal = if delta_x != 0 {
        seq![wheel_action(MOUSEEVENTF_HWHEEL, delta_x)]
    } else {
        seq![]
    };
    vertical + horizontal
}

fn as_dword(delta: i32) -> (data: u32)
    ensures
        data == dword(delta),
{
    if delta >= 0 {
        delta as u32
    } else {
        let shifted: i64 = delta as i64 + 0x1_0000_0000;
        shifted as u32
    }
}

/// Scrolls by so many wheel units. Less than a notch is legal and is how
/// high-resolution wheels keep movement below a notch.
pub fn inject_wheel_units(delta_x: i32, delta_y: i32) -> (actions: Vec<InputAction>)
    ensures
        actions@ == wheel_actions(delta_x, delta_y),
{
    let mut actions: Vec<InputAction> = Vec::new();
    if delta_y != 0 {
        actions.push(
            InputAction::Wheel(
                MouseInput {
                    dx: 0,
                    dy: 0,
                    mouse_data: as_dword(delta_y),
                    flags: MOUSEEVENTF_WHEEL,
                },
            ),
        );
    }
    if delta_x != 0 {
        actions.push(
            InputAction::Wheel(
                MouseInput {
                    dx: 0,
                    dy: 0,
                    mouse_data: as_dword(delta_x),
                    flags: MOUSEEVENTF_HWHEEL,
                },
            ),
        );
    }
    assert(actions@ =~= wheel_actions(delta_x, delta_y));
    actions
}

/// So many notches in wheel units, as far as 32 bits go.
pub open spec fn notch_units(notches: i32) -> i32 {
    clamped(notches * WHEEL_DELTA, i32::MIN as int, i32::MAX as int) as i32
}

fn units_of_notches(notches: i32) -> (units: i32)
    ensures
        units == notch_units(notches),
{
    let units: i64 = notches as i64 * 120;
    if units < i32::MIN as i64 {
        i32::MIN
    } else if units > i32::MAX as i64 {
        i32::MAX
    } else {
        units as i32
    }
}

/// Scrolls by so many notches.
pub fn inject_scroll(delta_x: i32, delta_y: i32) -> (actions: Vec<InputAction>)
    ensures
        actions@ == wheel_actions(notch_units(delta_x), notch_units(delta_y)),
{
    inject_wheel_units(units_of_notches(delta_x), units_of_notches(delta_y))
}

/// Whether a virtual key is one of the extended keys: the navigation block, the
/// Windows and menu keys, the keypad divider, num lock and the right modifiers.
pub open spec fn extended_key(vk: u16) -> bool {
    ||| 0x21 <= vk <= 0x28
    ||| 0x2C <= vk <= 0x2E
    ||| 0x5B <= vk <= 0x5D
    ||| vk == 0x6F
    ||| vk == 0x90
    ||| vk == 0xA3
    ||| vk == 0xA5
}

/// Whether a virtual key is one of the extended keys.
pub fn is_extended_key_vk(vk: u16) -> (extended: bool)
    ensures
        extended == extended_key(vk),
{
    matches!(
        vk,
        0x21 | 0x22 | 0x23 | 0x24 | 0x25 | 0x26 | 0x27 | 0x28 | 0x2C | 0x2D | 0x2E | 0x5B | 0x5C
            | 0x5D | 0x6F | 0x90 | 0xA3 | 0xA5
    )
}

/// The flags of a key record.
pub open spec fn key_flags(key_code: u16, down: bool) -> u32 {
    let direction = if down {
        0u32
    } else {
        KEYEVENTF_KEYUP
    };
    if extended_key(key_code) {
        direction | KEYEVENTF_EXTENDEDKEY
    } else {
        direction
    }
}

/// The action that presses or releases a key.
pub open spec fn key_action(key_code: u16, down: bool) -> InputAction {
    InputAction::Key { key_code, flags: key_flags(key_code, down) }
}

/// Presses or releases a key.
pub fn inject_key(key_code: u16, down: bool) -> (action: InputAction)
    ensures
        action == key_action(key_code, down),
{
    let mut flags: u32 = if down {
        0
    } else {
        KEYEVENTF_KEYUP
    };
    if is_extended_key_vk(key_code) {
        flags = flags | KEYEVENTF_EXTENDEDKEY;
    }
    InputAction::Key { key_code, flags }
}

/// The low 16 bits of what the system maps a virtual key to.
pub open spec fn low_word(mapped: u32) -> int {
    mapped as int % 0x1_0000
}

/// The scan code in what the system maps a virtual key to: the low 16 bits.
pub fn scan_code(mapped: u32) -> (scan: u16)
    ensures
        scan == low_word(mapped),
{
    (mapped % 0x1_0000) as u16
}

/// The actions that press keys in the order given.
pub open spec fn key_downs(keys: Seq<u16>) -> Seq<InputAction> {
    keys.map_values(|key: u16| key_action(key, true))
}

/// The actions that release keys, the last one first.
pub open spec fn key_ups(keys: Seq<u16>) -> Seq<InputAction> {
    keys.reverse().map_values(|key: u16| key_action(key, false))
}

/// The actions of a chord: the keys go down in order and come up in reverse.
pub open spec fn chord_actions(keys: Seq<u16>) -> Seq<InputAction> {
    key_downs(keys) + key_ups(keys)
}

/// Releases keys, the last one first.
pub fn inject_key_releases(keys: &[u16]) -> (actions: Vec<InputAction>)
    ensures
        actions@ == key_ups(keys@),
{
    let mut actions: Vec<InputAction> = Vec::new();
    let mut left: usize = keys.len();
    while left > 0
        invariant
            left <= keys@.len(),
            actions@ =~= key_ups(keys@).take(keys@.len() - left),
        decreases left,
    {
        left = left - 1;
        actions.push(inject_key(keys[left], false));
        assert(key_ups(keys@)[keys@.len() - left - 1] == key_action(keys@[left as int], false));
        assert(actions@ =~= key_ups(keys@).take(keys@.len() - left));
    }
    assert(actions@ =~= key_ups(keys@));
    actions
}

/// Strikes keys together: they go down in order and come up in reverse.
pub fn inject_key_chord(keys: &[u16]) -> (actions: Vec<InputAction>)
    ensures
        actions@ == chord_actions(keys@),
{
    let mut actions: Vec<InputAction> = Vec::new();
    for i in 0..keys.len()
        invariant
            actions@ == key_downs(keys@).take(i as int),
    {
        actions.push(inject_key(keys[i], true));
        assert(actions@ =~= key_downs(keys@).take(i + 1));
    }
    assert(actions@ =~= key_downs(keys@));
    let mut releases = inject_key_releases(keys);
    actions.append(&mut releases);
    actions
}

/// The chord of a gesture action: the Windows key with tab, or with D.
pub open spec fn action_chord(action: GestureAction) -> Seq<u16> {
    match action {
        GestureAction::TaskView => seq![VK_LWIN, VK_TAB],
        GestureAction::ShowDesktop => seq![VK_LWIN, VK_D],
    }
}

/// Performs a gesture action by its chord.
pub fn inject_gesture_action(action: GestureAction) -> (actions: Vec<InputAction>)
    ensures
        actions@ == chord_actions(action_chord(action)),
{
    let chord: [u16; 2] = match action {
        GestureAction::TaskView => [VK_LWIN, VK_TAB],
        GestureAction::ShowDesktop => [VK_LWIN, VK_D],
    };
    assert(chord@ =~= action_chord(action));
    inject_key_chord(&chord)
}

/// The actions of a command, apart from what it does to what is pressed.
pub open spec fn command_actions(command: InputCommand, screen: VirtualScreen) -> Seq<InputAction> {
    match command {
        InputCommand::MouseMove { x, y, .. } => seq![move_action(screen, x, y)],
        InputCommand::MouseButton { button, down, x, y } => button_actions(
            button,
            down,
            x,
            y,
            screen,
        ),
        InputCommand::Scroll { delta_x, delta_y } => wheel_actions(
            notch_units(delta_x),
            notch_units(delta_y),
        ),
        InputCommand::PreciseScroll { delta_x, delta_y, phase, momentum_phase } => seq![
            InputAction::PreciseScroll { delta_x, delta_y, phase, momentum_phase },
        ],
        InputCommand::Swipe { delta_x, delta_y, phase } => seq![
            InputAction::Swipe { delta_x, delta_y, phase },
        ],
        InputCommand::Pinch { magnification, phase, x, y } => seq![
            InputAction::Pinch { magnification, phase, x, y },
        ],
        InputCommand::GestureAction { action } => chord_actions(action_chord(action)),
        InputCommand::Key { key_code, down } => seq![key_action(key_code, down)],
        InputCommand::ReleaseAll => seq![],
        InputCommand::SecureAttention => seq![InputAction::SecureAttention],
    }
}

/// Whether a command asks only for cursor moves that can be made.
pub open spec fn command_movable(command: InputCommand, screen: VirtualScreen) -> bool {
    match command {
        InputCommand::MouseMove { x, y, .. } => movable(screen, x, y),
        InputCommand::MouseButton { x, y, .. } => x != 0 || y != 0 ==> movable(screen, x, y),
        _ => true,
    }
}

/// Whether a command asks only for cursor moves that can be made.
pub fn can_inject(command: &InputCommand, screen: &VirtualScreen) -> (can: bool)
    ensures
        can == command_movable(*command, *screen),
{
    match *command {
        InputCommand::MouseMove { x, y, .. } => can_move(screen, x, y),
        InputCommand::MouseButton { x, y, .. } => (x == 0 && y == 0) || can_move(screen, x, y),
        _ => true,
    }
}

/// Performs a command without remembering what it presses.
pub fn inject_command_without_tracking(command: &InputCommand, screen: &VirtualScreen) -> (actions:
    Vec<InputAction>)
    requires
        command_movable(*command, *screen),
    ensures
        actions@ == command_actions(*command, *screen),
{
    let mut single: Vec<InputAction> = Vec::new();
    match *command {
        InputCommand::MouseMove { x, y, .. } => {
            single.push(inject_mouse_move(x, y, None, screen));
        },
        InputCommand::MouseButton { button, down, x, y } => {
            return inject_mouse_button(button, down, x, y, screen);
        },
        InputCommand::Scroll { delta_x, delta_y } => {
            return inject_scroll(delta_x, delta_y);
        },
        InputCommand::PreciseScroll { delta_x, delta_y, phase, momentum_phase } => {
            single.push(InputAction::PreciseScroll { delta_x, delta_y, phase, momentum_phase });
        },
        InputCommand::Swipe { delta_x, delta_y, phase } => {
            single.push(InputAction::Swipe { delta_x, delta_y, phase });
        },
        InputCommand::Pinch { magnification, phase, x, y } => {
            single.push(InputAction::Pinch { magnification, phase, x, y });
        },
        InputCommand::GestureAction { action } => {
            return inject_gesture_action(action);
        },
        InputCommand::Key { key_code, down } => {
            single.push(inject_key(key_code, down));
        },
        InputCommand::ReleaseAll => {},
        InputCommand::SecureAttention => {
            single.push(InputAction::SecureAttention);
        },
    }
    assert(single@ =~= command_actions(*command, *screen));
    single
}

/// Whether a precise scroll in these phases makes the fractions kept so far
/// forgotten.
pub open spec fn fractions_forgotten(phase: GesturePhase, momentum_phase: GesturePhase) -> bool {
    phase == GesturePhase::Cancelled || momentum_phase == GesturePhase::Cancelled
}

/// The wheel scroll of a precise scroll, whose whole units are `units_x` and
/// `units_y`, and whether the fractions kept so far are to be forgotten: they
/// are when the scroll or its momentum was cancelled.
pub fn inject_precise_scroll(
    units_x: i32,
    units_y: i32,
    phase: GesturePhase,
    momentum_phase: GesturePhase,
) -> (result: (Vec<InputAction>, bool))
    ensures
        result.0@ == wheel_actions(units_x, units_y),
        result.1 == fractions_forgotten(phase, momentum_phase),
{
    let actions = inject_wheel_units(units_x, units_y);
    let forget = phase == GesturePhase::Cancelled || momentum_phase == GesturePhase::Cancelled;
    (actions, forget)
}

/// Why the secure attention sequence cannot be asked for, if it cannot.
pub open spec fn attention_failure(library_loaded: bool, entry_found: bool) -> Option<Seq<char>> {
    if !library_loaded {
        Some("SAS.dll is not available on this Windows installation"@)
    } else if !entry_found {
        Some("SendSAS entry point is not available"@)
    } else {
        None
    }
}

/// The outcome of asking for the secure attention sequence: whether the library
/// that offers it was loaded, and whether it has the entry point.
pub fn send_secure_attention(library_loaded: bool, entry_found: bool) -> (outcome: Result<
    (),
    String,
>)
    ensures
        match outcome {
            Ok(_) => attention_failure(library_loaded, entry_found) is None,
            Err(e) => attention_failure(library_loaded, entry_found) == Some(e@),
        },
{
    if !library_loaded {
        Err("SAS.dll is not available on this Windows installation".to_owned())
    } else if !entry_found {
        Err("SendSAS entry point is not available".to_owned())
    } else {
        Ok(())
    }
}

/// A chord leaves no key down: every press is followed by a release of the same
/// key, and the key that went down last comes up first.
pub proof fn chord_is_balanced(keys: Seq<u16>, i: int)
    requires
        0 <= i < keys.len(),
    ensures
        chord_actions(keys).len() == 2 * keys.len(),
        chord_actions(keys)[i] == key_action(keys[i], true),
        chord_actions(keys)[2 * keys.len() - 1 - i] == key_action(keys[i], false),
{
    let n = keys.len() as int;
    assert(key_ups(keys)[n - 1 - i] == key_action(keys[i], false));
}

/// Presses and releases are never confused: the record of a press differs from
/// that of every release.
pub proof fn press_differs_from_release(a: u16, b: u16)
    ensures
        key_action(a, true) != key_action(b, false),
{
    assert(0u32 | 1u32 == 1u32 && 2u32 | 1u32 == 3u32) by (bit_vector);
}

/// A pixel on the desktop keeps its order and is never pushed off it: the first
/// pixel is mapped to zero, the last one to the largest coordinate, and a pixel
/// further on to no smaller a coordinate.
pub proof fn pixels_keep_their_order(origin: int, extent: int, a: int, b: int)
    requires
        2 <= extent <= i32::MAX,
        0 <= a <= b <= extent - 1,
    ensures
        absolute(origin + a, origin, extent) == a * ABSOLUTE_MAX / (extent - 1),
        absolute(origin + a, origin, extent) <= absolute(origin + b, origin, extent),
        absolute(origin, origin, extent) == 0,
        absolute(origin + extent - 1, origin, extent) == ABSOLUTE_MAX,
{
    lemma_pixel(origin, extent, a);
    lemma_pixel(origin, extent, b);
    lemma_pixel(origin, extent, 0);
    lemma_pixel(origin, extent, extent - 1);
    let d = extent - 1;
    assert(a * 65535 / d <= b * 65535 / d) by (nonlinear_arith)
        requires
            0 <= a <= b,
            d >= 1,
    ;
    assert(0 * 65535int / d == 0) by (nonlinear_arith)
        requires
            d >= 1,
    ;
    assert(d * 65535 / d == 65535) by (nonlinear_arith)
        requires
            d >= 1,
    ;
}

proof fn lemma_pixel(origin: int, extent: int, a: int)
    requires
        2 <= extent <= i32::MAX,
        0 <= a <= extent - 1,
    ensures
        absolute(origin + a, origin, extent) == a * ABSOLUTE_MAX / (extent - 1),
{
    let d = extent - 1;
    let q = a * 65535 / d;
    assert(0 <= q <= 65535) by (nonlinear_arith)
        requires
            0 <= a <= d,
            d >= 1,
            q == a * 65535 / d,
    ;
    assert(a * 65535 >= 0) by (nonlinear_arith)
        requires
            a >= 0,
    ;
}

/// The keys that the system calls extended, one by one.
pub open spec fn extended_keys() -> Seq<u16> {
    seq![
        0x21u16,
        0x22,
        0x23,
        0x24,
        0x25,
        0x26,
        0x27,
        0x28,
        0x2C,
        0x2D,
        0x2E,
        0x5B,
        0x5C,
        0x5D,
        0x6F,
        0x90,
        0xA3,
        0xA5,
    ]
}

/// The record of a key names that key; its flags say two for a release and
/// nothing for a press, and one more for an extended key.
pub proof fn key_records_say_what_happens(key_code: u16, down: bool)
    ensures
        key_action(key_code, down) matches InputAction::Key { key_code: sent, flags } && sent
            == key_code && flags == (if down {
            0int
        } else {
            2int
        }) + (if extended_keys().contains(key_code) {
            1int
        } else {
            0int
        }),
{
    assert(0u32 | 1u32 == 1u32 && 2u32 | 1u32 == 3u32) by (bit_vector);
    let all = extended_keys();
    if extended_key(key_code) {
        assert(all[0] == 0x21 && all[1] == 0x22 && all[2] == 0x23 && all[3] == 0x24 && all[4]
            == 0x25 && all[5] == 0x26 && all[6] == 0x27 && all[7] == 0x28 && all[8] == 0x2C
            && all[9] == 0x2D && all[10] == 0x2E && all[11] == 0x5B && all[12] == 0x5C && all[13]
            == 0x5D && all[14] == 0x6F && all[15] == 0x90 && all[16] == 0xA3 && all[17] == 0xA5);
    }
}

/// A move goes to the position asked for, over the whole desktop, and says it in
/// parts of 65535: with the distance from the origin times 65535 divided by the
/// last pixel into `whole` and a rest of the same sign, and `low` what 32 bits
/// keep of `whole`, the part is `low`, or the end of the range that it is beyond.
/// So it is along both axes alike.
pub proof fn moves_say_the_position_in_parts(
    screen: VirtualScreen,
    x: i32,
    y: i32,
    whole_x: int,
    rest_x: int,
    turns_x: int,
    whole_y: int,
    rest_y: int,
    turns_y: int,
)
    requires
        is_division((x - screen.x) * 65535, screen.width as int, whole_x, rest_x),
        is_division((y - screen.y) * 65535, screen.height as int, whole_y, rest_y),
        i32::MIN <= whole_x + turns_x * 0x1_0000_0000 <= i32::MAX,
        i32::MIN <= whole_y + turns_y * 0x1_0000_0000 <= i32::MAX,
    ensures
        move_action(screen, x, y) matches InputAction::MoveCursor { input, x: to_x, y: to_y }
            && to_x == x && to_y == y && input.mouse_data == 0 && input.flags == 0xC001 && input.dx
            == (if whole_x + turns_x * 0x1_0000_0000 < 0 {
            0
        } else if whole_x + turns_x * 0x1_0000_0000 > 65535 {
            65535
        } else {
            whole_x + turns_x * 0x1_0000_0000
        }) && input.dy == (if whole_y + turns_y * 0x1_0000_0000 < 0 {
            0
        } else if whole_y + turns_y * 0x1_0000_0000 > 65535 {
            65535
        } else {
            whole_y + turns_y * 0x1_0000_0000
        }),
{
    lemma_division((x - screen.x) * 65535, screen.width as int, whole_x, rest_x, turns_x);
    lemma_division((y - screen.y) * 65535, screen.height as int, whole_y, rest_y, turns_y);
    assert(1u32 | 0x8000u32 | 0x4000u32 == 0xC001u32) by (bit_vector);
}

/// Whether `scaled` is `whole` times the last pixel of `extent` pixels (one at
/// least) and `rest` more, on the same side of zero.
pub open spec fn is_division(scaled: int, extent: int, whole: int, rest: int) -> bool {
    let last = if extent > 2 {
        extent - 1
    } else {
        1
    };
    &&& scaled == whole * last + rest
    &&& scaled >= 0 ==> 0 <= rest < last
    &&& scaled <= 0 ==> -last < rest <= 0
}

proof fn lemma_division(scaled: int, extent: int, whole: int, rest: int, turns: int)
    requires
        is_division(scaled, extent, whole, rest),
        i32::MIN <= whole + turns * 0x1_0000_0000 <= i32::MAX,
    ensures
        quotient(scaled, last_pixel(extent)) == whole,
        low_i32(whole) == whole + turns * 0x1_0000_0000,
{
    let last = last_pixel(extent);
    if scaled >= 0 {
        vstd::arithmetic::div_mod::lemma_fundamental_div_mod_converse(scaled, last, whole, rest);
    } else {
        assert(-scaled == (-whole) * last + (-rest)) by (nonlinear_arith)
            requires
                scaled == whole * last + rest,
        ;
        vstd::arithmetic::div_mod::lemma_fundamental_div_mod_converse(
            -scaled,
            last,
            -whole,
            -rest,
        );
    }
    let v = whole + turns * 0x1_0000_0000;
    let low = if v >= 0 {
        v
    } else {
        v + 0x1_0000_0000
    };
    let times = if v >= 0 {
        -turns
    } else {
        -turns - 1
    };
    vstd::arithmetic::div_mod::lemma_fundamental_div_mod_converse(
        whole,
        0x1_0000_0000,
        times,
        low,
    );
}

/// On the desktop, the part that a move says is the distance from the origin in
/// 65535 parts of the way to the last pixel, rounded down; left of it or above
/// it the part is zero, and beyond it 65535, as far as nothing wraps.
pub proof fn moves_stay_in_proportion(screen: VirtualScreen, x: i32, y: i32)
    requires
        screen.width >= 2,
        screen.height >= 2,
        -0x7FFF <= x - screen.x <= 0x7FFF,
        -0x7FFF <= y - screen.y <= 0x7FFF,
    ensures
        move_action(screen, x, y) matches InputAction::MoveCursor { input, .. } && in_proportion(
            x - screen.x,
            screen.width - 1,
            input.dx as int,
        ) && in_proportion(y - screen.y, screen.height - 1, input.dy as int),
{
    lemma_proportion(x as int, screen.x as int, screen.width as int);
    lemma_proportion(y as int, screen.y as int, screen.height as int);
}

/// Whether `part` says a distance of `distance` pixels, of which the last is
/// `last`.
pub open spec fn in_proportion(distance: int, last: int, part: int) -> bool {
    if distance <= 0 {
        part == 0
    } else if distance >= last {
        part == 65535
    } else {
        part * last <= distance * 65535 < (part + 1) * last
    }
}

proof fn lemma_proportion(pos: int, origin: int, extent: int)
    requires
        2 <= extent <= i32::MAX,
        -0x7FFF <= pos - origin <= 0x7FFF,
    ensures
        in_proportion(pos - origin, extent - 1, absolute(pos, origin, extent)),
{
    let d = pos - origin;
    let last = extent - 1;
    let size = if d >= 0 {
        d * 65535
    } else {
        -(d * 65535)
    };
    assert(0 <= size <= 0x7FFF * 65535) by (nonlinear_arith)
        requires
            -0x7FFF <= d <= 0x7FFF,
            size == (if d >= 0 {
                d * 65535
            } else {
                -(d * 65535)
            }),
    ;
    vstd::arithmetic::div_mod::lemma_fundamental_div_mod(size, last);
    vstd::arithmetic::div_mod::lemma_mod_bound(size, last);
    let q = size / last;
    assert(0 <= q <= size && q * last <= size < (q + 1) * last) by (nonlinear_arith)
        requires
            size >= 0,
            last >= 1,
            size == last * q + size % last,
            0 <= size % last < last,
    ;
    if d >= last {
        assert(q >= 65535) by (nonlinear_arith)
            requires
                size == d * 65535,
                d >= last,
                last >= 1,
                size < (q + 1) * last,
        ;
    } else if d > 0 {
        assert(q < 65535) by (nonlinear_arith)
            requires
                size < 65535 * last,
                last >= 1,
                q * last <= size,
        ;
    }
}

/// The record of a button has the flag of that button and direction, and for the
/// side buttons the number of the button.
pub proof fn button_records_say_what_happens(button: MouseButton, down: bool)
    ensures
        button_input(button, down).dx == 0,
        button_input(button, down).dy == 0,
        button_input(button, down).flags == match button {
            MouseButton::Left => if down {
                0x0002u32
            } else {
                0x0004
            },
            MouseButton::Right => if down {
                0x0008u32
            } else {
                0x0010
            },
            MouseButton::Middle => if down {
                0x0020u32
            } else {
                0x0040
            },
            _ => if down {
                0x0080u32
            } else {
                0x0100
            },
        },
        button_input(button, down).mouse_data == match button {
            MouseButton::Back => 1u32,
            MouseButton::Forward => 2u32,
            _ => 0u32,
        },
{
}

/// A click anywhere but at the origin is two things: the cursor goes to that very
/// position, and then the button is pressed or released there. A click at the
/// origin is the button alone.
pub proof fn clicks_go_to_their_position(
    button: MouseButton,
    down: bool,
    x: i32,
    y: i32,
    screen: VirtualScreen,
)
    ensures
        ({
            let actions = button_actions(button, down, x, y, screen);
            let command = InputCommand::MouseButton { button, down, x, y };
            let press = InputAction::Button(button_input(button, down));
            &&& (x, y) == (0i32, 0i32) ==> actions == seq![press]
            &&& (x, y) != (0i32, 0i32) ==> {
                &&& actions.len() == 2
                &&& actions[0] matches InputAction::MoveCursor { x: to_x, y: to_y, .. } && (
                to_x,
                to_y,
            ) == (x, y)
                &&& actions[0] == move_action(screen, x, y)
                &&& actions[1] == press
            }
            &&& command_actions(command, screen) == actions
        }),
{
}

/// Whether `data` is the 32 bits of the signed number `units`.
pub open spec fn carries(data: u32, units: int) -> bool {
    data == units || data == units + 0x1_0000_0000
}

/// A wheel record along an axis comes exactly if there is movement along it, and
/// carries that movement: the vertical one first, then the horizontal one.
pub proof fn wheel_records_carry_the_movement(delta_x: i32, delta_y: i32)
    ensures
        ({
            let actions = wheel_actions(delta_x, delta_y);
            &&& actions.len() == (if delta_y != 0 {
                1int
            } else {
                0int
            }) + (if delta_x != 0 {
                1int
            } else {
                0int
            })
            &&& delta_y != 0 ==> (actions.first() matches InputAction::Wheel(input) && input.flags
                == 0x0800 && input.dx == 0 && input.dy == 0 && carries(
                input.mouse_data,
                delta_y as int,
            ))
            &&& delta_x != 0 ==> (actions.last() matches InputAction::Wheel(input) && input.flags
                == 0x1000 && input.dx == 0 && input.dy == 0 && carries(
                input.mouse_data,
                delta_x as int,
            ))
        }),
{
}

/// A scroll of notches turns the wheel by 120 units for each, along the axis that
/// it is for, or as far as 32 bits go; and as a command it does the same.
pub proof fn notches_turn_the_wheel(delta_x: i32, delta_y: i32, screen: VirtualScreen)
    ensures
        ({
            let actions = command_actions(InputCommand::Scroll { delta_x, delta_y }, screen);
            &&& actions.len() == (if delta_y != 0 {
                1int
            } else {
                0int
            }) + (if delta_x != 0 {
                1int
            } else {
                0int
            })
            &&& delta_y != 0 ==> (actions.first() matches InputAction::Wheel(input) && input.flags
                == 0x0800 && carries(input.mouse_data, saturated(120 * delta_y)))
            &&& delta_x != 0 ==> (actions.last() matches InputAction::Wheel(input) && input.flags
                == 0x1000 && carries(input.mouse_data, saturated(120 * delta_x)))
            &&& actions == wheel_actions(notch_units(delta_x), notch_units(delta_y))
        }),
        notch_units(delta_x) == saturated(120 * delta_x),
{
}

/// `v`, or the nearest number that 32 bits can hold.
pub open spec fn saturated(v: int) -> int {
    if v < -0x8000_0000 {
        -0x8000_0000
    } else if v > 0x7FFF_FFFF {
        0x7FFF_FFFF
    } else {
        v
    }
}

/// Every other command is performed with just what it says: a move goes to its
/// position, a key is pressed or released by its own record, a gesture is handed
/// on with its movement and phase, a gesture action is its chord, and releasing
/// everything is not performed here.
pub proof fn commands_are_performed_as_they_say(command: InputCommand, screen: VirtualScreen)
    ensures
        ({
            let actions = command_actions(command, screen);
            match command {
                InputCommand::MouseMove { x, y, .. } => actions == seq![move_action(screen, x, y)],
                InputCommand::Key { key_code, down } => actions == seq![
                    key_action(key_code, down),
                ],
                InputCommand::PreciseScroll { delta_x, delta_y, phase, momentum_phase } => {
                    actions == seq![
                        InputAction::PreciseScroll { delta_x, delta_y, phase, momentum_phase },
                    ]
                },
                InputCommand::Swipe { delta_x, delta_y, phase } => actions == seq![
                    InputAction::Swipe { delta_x, delta_y, phase },
                ],
                InputCommand::Pinch { magnification, phase, x, y } => actions == seq![
                    InputAction::Pinch { magnification, phase, x, y },
                ],
                InputCommand::GestureAction { action } => actions == match action {
                    GestureAction::TaskView => chord_actions(seq![0x5Bu16, 0x09u16]),
                    GestureAction::ShowDesktop => chord_actions(seq![0x5Bu16, 0x44u16]),
                },
                InputCommand::ReleaseAll => actions.len() == 0,
                InputCommand::SecureAttention => actions == seq![InputAction::SecureAttention],
                InputCommand::Scroll { .. } => true,
                InputCommand::MouseButton { .. } => true,
            }
        }),
{
}

/// The cursor can be moved to a position exactly if its distance from the origin
/// of the desktop takes no more than 32 bits along either axis; a command asks
/// that of the position that it moves to, if it moves anywhere.
pub proof fn commands_ask_for_moves_that_can_be_made(command: InputCommand, screen: VirtualScreen)
    ensures
        command_movable(command, screen) <==> match command {
            InputCommand::MouseMove { x, y, .. } => {
                -0x8000_0000 <= x - screen.x <= 0x7FFF_FFFF && -0x8000_0000 <= y - screen.y
                    <= 0x7FFF_FFFF
            },
            InputCommand::MouseButton { x, y, .. } => (x == 0 && y == 0) || (-0x8000_0000 <= x
                - screen.x <= 0x7FFF_FFFF && -0x8000_0000 <= y - screen.y <= 0x7FFF_FFFF),
            _ => true,
        },
{
}

/// A chord presses its keys in order and then releases them, the last one first,
/// each by its own record, and does nothing else.
pub proof fn chords_press_and_release_in_order(keys: Seq<u16>, i: int)
    requires
        0 <= i < 2 * keys.len(),
    ensures
        chord_actions(keys).len() == 2 * keys.len(),
        i < keys.len() ==> chord_actions(keys)[i] == key_action(keys[i], true),
        i >= keys.len() ==> chord_actions(keys)[i] == key_action(
            keys[2 * keys.len() - 1 - i],
            false,
        ),
        i < keys.len() ==> key_ups(keys)[i] == key_action(keys[keys.len() - 1 - i], false),
        key_ups(keys).len() == keys.len(),
{
    let n = keys.len() as int;
    if i < n {
        chord_is_balanced(keys, i);
    } else {
        chord_is_balanced(keys, 2 * n - 1 - i);
    }
}

/// A precise scroll keeps its fractions unless it or its momentum was cancelled,
/// whichever of the two it was, and whatever the other is.
pub proof fn cancelling_forgets_the_fractions(phase: GesturePhase, other: GesturePhase)
    ensures
        fractions_forgotten(GesturePhase::Cancelled, other),
        fractions_forgotten(other, GesturePhase::Cancelled),
        fractions_forgotten(phase, other) == fractions_forgotten(other, phase),
        fractions_forgotten(phase, other) ==> !(phase is Idle || phase is Began || phase is Changed
            || phase is Ended) || !(other is Idle || other is Began || other is Changed
            || other is Ended),
{
}

/// A scan code is what remains of the mapped number when its higher half is taken
/// away, whatever that is.
pub proof fn scan_codes_are_the_lower_half(high: u16, low: u16)
    ensures
        low_word((0x1_0000 * high + low) as u32) == low,
{
}

/// The secure attention sequence can be asked for exactly if its library is there
/// and has the entry point; what is missing is said, the library first.
pub proof fn attention_needs_library_and_entry(entry_found: bool)
    ensures
        attention_failure(true, true) is None,
        attention_failure(true, false) == Some("SendSAS entry point is not available"@),
        attention_failure(false, entry_found) == Some(
            "SAS.dll is not available on this Windows installation"@,
        ),
{
}

} // verus!

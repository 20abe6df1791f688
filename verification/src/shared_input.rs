//! Input events and commands, as they travel between machines and from the
//! program to its helper.

use vstd::prelude::*;
use vstd::string::StringExecFns;
use crate::number::Real;
use crate::text;

verus! {

pub const LEFT_BUTTON_MASK: u64 = 1;

pub const RIGHT_BUTTON_MASK: u64 = 2;

pub const MIDDLE_BUTTON_MASK: u64 = 4;

pub const BACK_BUTTON_MASK: u64 = 8;

pub const FORWARD_BUTTON_MASK: u64 = 16;

/// What the name of every input pipe begins with.
pub const INPUT_PIPE_PREFIX: &'static str = "\\\\.\\pipe\\mykvm-input-s";

pub const INPUT_SERVICE_NAME: &'static str = "MyKVMInputService";

pub const INPUT_SERVICE_DISPLAY_NAME: &'static str = "MyKVM Lock Screen Input Service";

/// Where a trackpad gesture stands.
#[derive(Debug, Clone, Copy, PartialEq, Eq, Structural)]
pub enum GesturePhase {
    /// Nowhere: the event belongs to no gesture of this kind.
    Idle,
    Began,
    Changed,
    Ended,
    Cancelled,
}

/// A gesture that stands for a system action.
#[derive(Debug, Clone, Copy, PartialEq, Eq, Structural)]
pub enum GestureAction {
    TaskView,
    ShowDesktop,
}

/// A mouse button; `Back` and `Forward` are the side buttons.
#[derive(Debug, Clone, Copy, PartialEq, Eq, Structural)]
pub enum MouseButton {
    Left,
    Right,
    Middle,
    Back,
    Forward,
}

/// An input event as it was captured.
#[derive(Debug, Clone, PartialEq)]
pub enum InputEvent {
    MouseMove { screen_id: String, x: i32, y: i32 },
    MouseButton { button: MouseButton, down: bool },
    Scroll { delta_x: i32, delta_y: i32 },
    PreciseScroll {
        delta_x: Real,
        delta_y: Real,
        phase: GesturePhase,
        momentum_phase: GesturePhase,
    },
    Swipe { delta_x: Real, delta_y: Real, phase: GesturePhase },
    Pinch { magnification: Real, phase: GesturePhase },
    GestureAction { action: GestureAction },
    Key { key_code: u16, down: bool },
}

/// Input to be injected.
#[derive(Debug, Clone, Copy, PartialEq)]
pub enum InputCommand {
    MouseMove { x: i32, y: i32, drag_button: Option<MouseButton> },
    MouseButton { button: MouseButton, down: bool, x: i32, y: i32 },
    Scroll { delta_x: i32, delta_y: i32 },
    PreciseScroll {
        delta_x: Real,
        delta_y: Real,
        phase: GesturePhase,
        momentum_phase: GesturePhase,
    },
    Swipe { delta_x: Real, delta_y: Real, phase: GesturePhase },
    Pinch { magnification: Real, phase: GesturePhase, x: i32, y: i32 },
    GestureAction { action: GestureAction },
    Key { key_code: u16, down: bool },
    ReleaseAll,
    SecureAttention,
}

/// The name of the input pipe of a session.
pub open spec fn pipe_name(session_id: u32) -> Seq<char> {
    INPUT_PIPE_PREFIX@ + text::decimal(session_id as nat)
}

/// The name of the input pipe of a session.
pub fn input_pipe_name(session_id: u32) -> (name: String)
    ensures
        name@ == pipe_name(session_id),
{
    let number = text::decimal_text(session_id as u64);
    INPUT_PIPE_PREFIX.to_owned().concat(number.as_str())
}

/// No two sessions share a pipe.
pub proof fn pipe_names_differ(a: u32, b: u32)
    requires
        pipe_name(a) == pipe_name(b),
    ensures
        a == b,
{
    let n = INPUT_PIPE_PREFIX@.len() as int;
    assert(pipe_name(a).skip(n) =~= text::decimal(a as nat));
    assert(pipe_name(b).skip(n) =~= text::decimal(b as nat));
    text::decimal_is_injective(a as nat, b as nat);
}

/// The directory that status files stand under: the machine's program data, or
/// else the temporary directory.
pub open spec fn status_base<B>(program_data: Option<B>, temp_dir: B) -> B {
    match program_data {
        Some(base) => base,
        None => temp_dir,
    }
}

/// The name of the file that the input helper of a session reports to.
pub open spec fn status_file(session_id: u32) -> Seq<char> {
    "input-helper-status-s"@ + text::decimal(session_id as nat) + ".txt"@
}

/// The file that the input helper of a session reports to: the directory it
/// stands under (the machine's program data, or else the temporary directory)
/// and the path from there, part by part.
pub fn input_helper_status_path<B>(program_data: Option<B>, temp_dir: B, session_id: u32) -> (path:
    (B, Vec<String>))
    ensures
        path.0 == status_base(program_data, temp_dir),
        path.1@.len() == 2,
        path.1@[0]@ == "MyKVM"@,
        path.1@[1]@ == status_file(session_id),
{
    let base = match program_data {
        Some(base) => base,
        None => temp_dir,
    };
    let number = text::decimal_text(session_id as u64);
    let mut parts: Vec<String> = Vec::new();
    parts.push("MyKVM".to_owned());
    parts.push("input-helper-status-s".to_owned().concat(number.as_str()).concat(".txt"));
    (base, parts)
}

/// The bit of a button in a button mask.
pub open spec fn button_bit(button: MouseButton) -> u64 {
    match button {
        MouseButton::Left => LEFT_BUTTON_MASK,
        MouseButton::Right => RIGHT_BUTTON_MASK,
        MouseButton::Middle => MIDDLE_BUTTON_MASK,
        MouseButton::Back => BACK_BUTTON_MASK,
        MouseButton::Forward => FORWARD_BUTTON_MASK,
    }
}

/// Whether `button` is set in `mask`.
pub open spec fn in_mask(mask: u64, button: MouseButton) -> bool {
    mask & button_bit(button) != 0
}

/// The bit of a button in a button mask.
pub fn mouse_button_mask(button: MouseButton) -> (mask: u64)
    ensures
        mask == button_bit(button),
{
    match button {
        MouseButton::Left => LEFT_BUTTON_MASK,
        MouseButton::Right => RIGHT_BUTTON_MASK,
        MouseButton::Middle => MIDDLE_BUTTON_MASK,
        MouseButton::Back => BACK_BUTTON_MASK,
        MouseButton::Forward => FORWARD_BUTTON_MASK,
    }
}

/// The button that a drag with the buttons of `mask` is attributed to; side
/// buttons do not drag.
pub open spec fn dragging_button(mask: u64) -> Option<MouseButton> {
    if in_mask(mask, MouseButton::Left) {
        Some(MouseButton::Left)
    } else if in_mask(mask, MouseButton::Right) {
        Some(MouseButton::Right)
    } else if in_mask(mask, MouseButton::Middle) {
        Some(MouseButton::Middle)
    } else {
        None
    }
}

/// The first of the left, right and middle buttons that is set in `mask`.
pub fn button_from_mask(mask: u64) -> (button: Option<MouseButton>)
    ensures
        button == dragging_button(mask),
{
    if mask & LEFT_BUTTON_MASK != 0 {
        Some(MouseButton::Left)
    } else if mask & RIGHT_BUTTON_MASK != 0 {
        Some(MouseButton::Right)
    } else if mask & MIDDLE_BUTTON_MASK != 0 {
        Some(MouseButton::Middle)
    } else {
        None
    }
}

/// The mask of one of the three main buttons gives that button back.
pub proof fn button_reads_back(button: MouseButton)
    requires
        button != MouseButton::Back,
        button != MouseButton::Forward,
    ensures
        dragging_button(button_bit(button)) == Some(button),
{
    assert(1u64 & 1u64 != 0) by (bit_vector);
    assert(2u64 & 1u64 == 0 && 2u64 & 2u64 != 0) by (bit_vector);
    assert(4u64 & 1u64 == 0 && 4u64 & 2u64 == 0 && 4u64 & 4u64 != 0) by (bit_vector);
}

/// The bits of two buttons overlap only if they are the same button.
pub proof fn button_bits_are_disjoint(a: MouseButton, b: MouseButton)
    ensures
        in_mask(button_bit(a), b) <==> a == b,
{
    assert(1u64 & 1u64 != 0 && 2u64 & 2u64 != 0 && 4u64 & 4u64 != 0 && 8u64 & 8u64 != 0 && 16u64
        & 16u64 != 0) by (bit_vector);
    assert(1u64 & 2u64 == 0 && 1u64 & 4u64 == 0 && 1u64 & 8u64 == 0 && 1u64 & 16u64 == 0)
        by (bit_vector);
    assert(2u64 & 1u64 == 0 && 2u64 & 4u64 == 0 && 2u64 & 8u64 == 0 && 2u64 & 16u64 == 0)
        by (bit_vector);
    assert(4u64 & 1u64 == 0 && 4u64 & 2u64 == 0 && 4u64 & 8u64 == 0 && 4u64 & 16u64 == 0)
        by (bit_vector);
    assert(8u64 & 1u64 == 0 && 8u64 & 2u64 == 0 && 8u64 & 4u64 == 0 && 8u64 & 16u64 == 0)
        by (bit_vector);
    assert(16u64 & 1u64 == 0 && 16u64 & 2u64 == 0 && 16u64 & 4u64 == 0 && 16u64 & 8u64 == 0)
        by (bit_vector);
}

/// The four bytes of `n`, least significant first.
pub open spec fn le_bytes(n: nat) -> Seq<u8> {
    seq![
        (n % 256) as u8,
        (n / 256 % 256) as u8,
        (n / 65536 % 256) as u8,
        (n / 16777216 % 256) as u8,
    ]
}

/// The number that four bytes, least significant first, stand for.
pub open spec fn le_value(bytes: Seq<u8>) -> nat {
    (bytes[0] + 256 * bytes[1] + 65536 * bytes[2] + 16777216 * bytes[3]) as nat
}

/// A frame: the length of the payload in four bytes, then the payload.
pub open spec fn frame(payload: Seq<u8>) -> Seq<u8> {
    le_bytes(payload.len()) + payload
}

fn push_le_bytes(bytes: &mut Vec<u8>, n: u32)
    ensures
        final(bytes)@ == old(bytes)@ + le_bytes(n as nat),
{
    bytes.push((n % 256) as u8);
    bytes.push((n / 256 % 256) as u8);
    bytes.push((n / 65536 % 256) as u8);
    bytes.push((n / 16777216 % 256) as u8);
    assert(bytes@ =~= old(bytes)@ + le_bytes(n as nat));
}

/// Whether `framed` is what comes of framing a command that was serialised to
/// `serialized`.
pub open spec fn framed_as(
    serialized: Result<Vec<u8>, String>,
    framed: Result<Vec<u8>, String>,
) -> bool {
    match (serialized, framed) {
        (Ok(payload), Ok(bytes)) => payload@.len() <= u32::MAX && bytes@ == frame(payload@),
        (Ok(payload), Err(e)) => payload@.len() > u32::MAX && e@ == "input command is too large"@,
        (Err(error), Err(e)) => e@ == "encode input command: "@ + error@,
        (Err(_), Ok(_)) => false,
    }
}

/// Frames a serialised input command for the pipe; `serialized` is the outcome
/// of serialising it.
pub fn encode_input_command(serialized: Result<Vec<u8>, String>) -> (framed: Result<
    Vec<u8>,
    String,
>)
    ensures
        framed_as(serialized, framed),
{
    match serialized {
        Ok(payload) => {
            if payload.len() as u64 > u32::MAX as u64 {
                return Err("input command is too large".to_owned());
            }
            let mut framed: Vec<u8> = Vec::new();
            push_le_bytes(&mut framed, payload.len() as u32);
            for i in 0..payload.len()
                invariant
                    framed@ == le_bytes(payload@.len()) + payload@.take(i as int),
            {
                framed.push(payload[i]);
                assert(framed@ =~= le_bytes(payload@.len()) + payload@.take(i + 1));
            }
            assert(framed@ =~= frame(payload@));
            Ok(framed)
        },
        Err(error) => Err("encode input command: ".to_owned().concat(error.as_str())),
    }
}

/// Whether `command` is what comes of reading a command that was parsed to
/// `parsed`.
pub open spec fn read_as(
    parsed: Result<InputCommand, String>,
    command: Result<InputCommand, String>,
) -> bool {
    match (parsed, command) {
        (Ok(p), Ok(c)) => c == p,
        (Err(error), Err(e)) => e@ == "decode input command: "@ + error@,
        _ => false,
    }
}

/// The outcome of reading an input command; `parsed` is the outcome of parsing
/// the payload of its frame.
pub fn decode_input_command(parsed: Result<InputCommand, String>) -> (command: Result<
    InputCommand,
    String,
>)
    ensures
        read_as(parsed, command),
{
    match parsed {
        Ok(command) => Ok(command),
        Err(error) => Err("decode input command: ".to_owned().concat(error.as_str())),
    }
}

/// A frame says how long its payload is, and holds the payload behind that.
pub proof fn frame_reads_back(payload: Seq<u8>)
    requires
        payload.len() <= u32::MAX,
    ensures
        frame(payload).len() == payload.len() + 4,
        le_value(frame(payload).take(4)) == payload.len(),
        frame(payload).skip(4) == payload,
{
    let n = payload.len();
    assert(frame(payload).take(4) =~= le_bytes(n));
    assert(frame(payload).skip(4) =~= payload);
    assert(n == n % 256 + 256 * (n / 256 % 256) + 65536 * (n / 65536 % 256) + 16777216 * (n
        / 16777216 % 256)) by {
        assert(n / 65536 == n / 256 / 256);
        assert(n / 16777216 == n / 65536 / 256);
    }
}

/// Frames can be told apart on the pipe: two frames that begin the same stream
/// of bytes hold the same payload.
pub proof fn frames_are_self_delimiting(
    a: Seq<u8>,
    after_a: Seq<u8>,
    b: Seq<u8>,
    after_b: Seq<u8>,
)
    requires
        a.len() <= u32::MAX,
        b.len() <= u32::MAX,
        frame(a) + after_a == frame(b) + after_b,
    ensures
        a == b,
        after_a == after_b,
{
    frame_reads_back(a);
    frame_reads_back(b);
    let whole = frame(a) + after_a;
    assert(whole.take(4) =~= frame(a).take(4));
    assert(whole.take(4) =~= frame(b).take(4));
    assert(a.len() == b.len());
    let n = a.len() as int;
    assert(whole.subrange(4, n + 4) =~= a);
    assert(whole.subrange(4, n + 4) =~= b);
    assert(whole.skip(n + 4) =~= after_a);
    assert(whole.skip(n + 4) =~= after_b);
}

/// The name of a pipe is the fixed beginning and then the session, in digits.
pub proof fn pipe_names_end_in_the_session(session_id: u32)
    ensures
        pipe_name(session_id) == "\\\\.\\pipe\\mykvm-input-s"@ + text::decimal(session_id as nat),
{
}

/// Each button has a bit of its own, in this order from the lowest.
pub proof fn buttons_have_these_bits(button: MouseButton)
    ensures
        button_bit(button) == match button {
            MouseButton::Left => 1u64,
            MouseButton::Right => 2u64,
            MouseButton::Middle => 4u64,
            MouseButton::Back => 8u64,
            MouseButton::Forward => 16u64,
        },
{
}

/// A drag is attributed to a button that is set, and to none that a main button
/// comes before; it is attributed to none only if no main button is set.
pub proof fn drags_are_attributed_in_order(mask: u64)
    ensures
        dragging_button(mask) == Some(MouseButton::Left) <==> mask & 1 != 0,
        dragging_button(mask) == Some(MouseButton::Right) <==> mask & 1 == 0 && mask & 2 != 0,
        dragging_button(mask) == Some(MouseButton::Middle) <==> mask & 1 == 0 && mask & 2 == 0
            && mask & 4 != 0,
        dragging_button(mask) is None <==> mask & 1 == 0 && mask & 2 == 0 && mask & 4 == 0,
{
}

/// The first four bytes of a frame are the length of the payload, each byte
/// counting 256 times the one before, and the payload follows byte for byte.
pub proof fn frames_count_their_payload(payload: Seq<u8>, i: int)
    requires
        payload.len() <= u32::MAX,
    ensures
        frame(payload).len() == 4 + payload.len(),
        frame(payload)[0] + 256 * frame(payload)[1] + 65536 * frame(payload)[2] + 16777216
            * frame(payload)[3] == payload.len(),
        0 <= i < payload.len() ==> frame(payload)[4 + i] == payload[i],
{
    frame_reads_back(payload);
    assert(frame(payload).take(4)[0] == frame(payload)[0]);
}

/// The status file of a session is named after it, so no two sessions share one;
/// it stands under the program data where there is such a directory.
pub proof fn status_files_differ<B>(a: u32, b: u32, program_data: B, temp_dir: B)
    ensures
        status_file(a) == status_file(b) ==> a == b,
        status_file(a) == "input-helper-status-s"@ + text::decimal(a as nat) + ".txt"@,
        status_base(Some(program_data), temp_dir) == program_data,
        status_base(None, temp_dir) == temp_dir,
{
    if status_file(a) == status_file(b) {
        let n = "input-helper-status-s"@.len() as int;
        let m = ".txt"@.len() as int;
        let whole = status_file(a);
        assert(whole.subrange(n, whole.len() - m) =~= text::decimal(a as nat));
        assert(whole.subrange(n, whole.len() - m) =~= text::decimal(b as nat));
        text::decimal_is_injective(a as nat, b as nat);
    }
}

/// A command that was serialised is framed with its own payload, if the length
/// of that takes no more than 32 bits; what was not serialised is not framed. A
/// command that was parsed is read as it is, and no other is read.
pub proof fn commands_travel_as_they_are(
    payload: Vec<u8>,
    error: String,
    framed: Result<Vec<u8>, String>,
    parsed: InputCommand,
    command: Result<InputCommand, String>,
)
    ensures
        framed_as(Ok(payload), framed) && payload@.len() < 0x1_0000_0000 ==> framed is Ok
            && framed->Ok_0@.len() == 4 + payload@.len() && framed->Ok_0@.skip(4) == payload@
            && framed->Ok_0@ == frame(payload@),
        framed_as(Ok(payload), framed) && payload@.len() >= 0x1_0000_0000 ==> framed is Err
            && framed->Err_0@ == "input command is too large"@,
        framed_as(Err(error), framed) ==> framed is Err && framed->Err_0@
            == "encode input command: "@ + error@,
        read_as(Ok(parsed), command) ==> command == Ok::<InputCommand, String>(parsed),
        read_as(Err(error), command) ==> command is Err && command->Err_0@
            == "decode input command: "@ + error@,
{
    if payload@.len() < 0x1_0000_0000 {
        frame_reads_back(payload@);
    }
}

} // verus!

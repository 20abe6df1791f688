use std::collections::BTreeMap;
use std::fmt;

use mykvm::number::Real;
use mykvm::shared_input::{
    button_from_mask, decode_input_command, encode_input_command, input_helper_status_path,
    input_pipe_name, mouse_button_mask, GestureAction, GesturePhase, InputCommand, MouseButton,
    BACK_BUTTON_MASK, FORWARD_BUTTON_MASK, INPUT_PIPE_PREFIX, INPUT_SERVICE_DISPLAY_NAME,
    INPUT_SERVICE_NAME, LEFT_BUTTON_MASK, MIDDLE_BUTTON_MASK, RIGHT_BUTTON_MASK,
};
use serde::de::{MapAccess, Visitor};
use serde::ser::SerializeMap;
use serde::{Deserialize, Deserializer, Serialize, Serializer};

fn number(value: f64) -> Real {
    Real { bits: value.to_bits() }
}

// A command on the wire: a map with the kind of the command under "type".
struct Wire(InputCommand);

fn phase_name(phase: GesturePhase) -> &'static str {
    match phase {
        GesturePhase::Idle => "none",
        GesturePhase::Began => "began",
        GesturePhase::Changed => "changed",
        GesturePhase::Ended => "ended",
        GesturePhase::Cancelled => "cancelled",
    }
}

fn phase_of(name: &str) -> GesturePhase {
    match name {
        "none" => GesturePhase::Idle,
        "began" => GesturePhase::Began,
        "changed" => GesturePhase::Changed,
        "ended" => GesturePhase::Ended,
        _ => GesturePhase::Cancelled,
    }
}

fn button_name(button: MouseButton) -> &'static str {
    match button {
        MouseButton::Left => "left",
        MouseButton::Right => "right",
        MouseButton::Middle => "middle",
        MouseButton::Back => "back",
        MouseButton::Forward => "forward",
    }
}

fn button_of(name: &str) -> MouseButton {
    match name {
        "left" => MouseButton::Left,
        "right" => MouseButton::Right,
        "middle" => MouseButton::Middle,
        "back" => MouseButton::Back,
        _ => MouseButton::Forward,
    }
}

impl Serialize for Wire {
    fn serialize<S: Serializer>(&self, serializer: S) -> Result<S::Ok, S::Error> {
        let mut map = serializer.serialize_map(None)?;
        match self.0 {
            InputCommand::MouseButton { button, down, x, y } => {
                map.serialize_entry("type", "mouseButton")?;
                map.serialize_entry("button", button_name(button))?;
                map.serialize_entry("down", &down)?;
                map.serialize_entry("x", &x)?;
                map.serialize_entry("y", &y)?;
            }
            InputCommand::PreciseScroll { delta_x, delta_y, phase, momentum_phase } => {
                map.serialize_entry("type", "preciseScroll")?;
                map.serialize_entry("delta_x", &f64::from_bits(delta_x.bits))?;
                map.serialize_entry("delta_y", &f64::from_bits(delta_y.bits))?;
                map.serialize_entry("phase", phase_name(phase))?;
                map.serialize_entry("momentum_phase", phase_name(momentum_phase))?;
            }
            InputCommand::Swipe { delta_x, delta_y, phase } => {
                map.serialize_entry("type", "swipe")?;
                map.serialize_entry("delta_x", &f64::from_bits(delta_x.bits))?;
                map.serialize_entry("delta_y", &f64::from_bits(delta_y.bits))?;
                map.serialize_entry("phase", phase_name(phase))?;
            }
            InputCommand::Pinch { magnification, phase, x, y } => {
                map.serialize_entry("type", "pinch")?;
                map.serialize_entry("magnification", &f64::from_bits(magnification.bits))?;
                map.serialize_entry("phase", phase_name(phase))?;
                map.serialize_entry("x", &x)?;
                map.serialize_entry("y", &y)?;
            }
            InputCommand::GestureAction { action } => {
                map.serialize_entry("type", "gestureAction")?;
                let name = match action {
                    GestureAction::TaskView => "taskView",
                    GestureAction::ShowDesktop => "showDesktop",
                };
                map.serialize_entry("action", name)?;
            }
            _ => panic!("not sent in these tests"),
        }
        map.end()
    }
}

#[derive(Clone, Debug)]
enum Field {
    Flag(bool),
    Whole(i64),
    Fraction(f64),
    Text(String),
}

impl Field {
    fn flag(&self) -> bool {
        matches!(self, Field::Flag(true))
    }

    fn whole(&self) -> i32 {
        match self {
            Field::Whole(value) => *value as i32,
            other => panic!("not a whole number: {other:?}"),
        }
    }

    fn fraction(&self) -> Real {
        match self {
            Field::Fraction(value) => number(*value),
            other => panic!("not a fraction: {other:?}"),
        }
    }

    fn text(&self) -> &str {
        match self {
            Field::Text(value) => value,
            other => panic!("not text: {other:?}"),
        }
    }
}

struct FieldVisitor;

impl<'de> Visitor<'de> for FieldVisitor {
    type Value = Field;

    fn expecting(&self, formatter: &mut fmt::Formatter) -> fmt::Result {
        formatter.write_str("a field of a command")
    }

    fn visit_bool<E>(self, value: bool) -> Result<Field, E> {
        Ok(Field::Flag(value))
    }

    fn visit_i64<E>(self, value: i64) -> Result<Field, E> {
        Ok(Field::Whole(value))
    }

    fn visit_u64<E>(self, value: u64) -> Result<Field, E> {
        Ok(Field::Whole(value as i64))
    }

    fn visit_f64<E>(self, value: f64) -> Result<Field, E> {
        Ok(Field::Fraction(value))
    }

    fn visit_str<E>(self, value: &str) -> Result<Field, E> {
        Ok(Field::Text(value.to_string()))
    }
}

impl<'de> Deserialize<'de> for Field {
    fn deserialize<D: Deserializer<'de>>(deserializer: D) -> Result<Field, D::Error> {
        deserializer.deserialize_any(FieldVisitor)
    }
}

struct WireVisitor;

impl<'de> Visitor<'de> for WireVisitor {
    type Value = Wire;

    fn expecting(&self, formatter: &mut fmt::Formatter) -> fmt::Result {
        formatter.write_str("a command")
    }

    fn visit_map<A: MapAccess<'de>>(self, mut access: A) -> Result<Wire, A::Error> {
        let mut fields: BTreeMap<String, Field> = BTreeMap::new();
        while let Some((name, field)) = access.next_entry::<String, Field>()? {
            fields.insert(name, field);
        }
        let command = match fields["type"].text() {
            "mouseButton" => InputCommand::MouseButton {
                button: button_of(fields["button"].text()),
                down: fields["down"].flag(),
                x: fields["x"].whole(),
                y: fields["y"].whole(),
            },
            "preciseScroll" => InputCommand::PreciseScroll {
                delta_x: fields["delta_x"].fraction(),
                delta_y: fields["delta_y"].fraction(),
                phase: phase_of(fields["phase"].text()),
                momentum_phase: phase_of(fields["momentum_phase"].text()),
            },
            "swipe" => InputCommand::Swipe {
                delta_x: fields["delta_x"].fraction(),
                delta_y: fields["delta_y"].fraction(),
                phase: phase_of(fields["phase"].text()),
            },
            "pinch" => InputCommand::Pinch {
                magnification: fields["magnification"].fraction(),
                phase: phase_of(fields["phase"].text()),
                x: fields["x"].whole(),
                y: fields["y"].whole(),
            },
            _ => InputCommand::GestureAction {
                action: match fields["action"].text() {
                    "taskView" => GestureAction::TaskView,
                    _ => GestureAction::ShowDesktop,
                },
            },
        };
        Ok(Wire(command))
    }
}

impl<'de> Deserialize<'de> for Wire {
    fn deserialize<D: Deserializer<'de>>(deserializer: D) -> Result<Wire, D::Error> {
        deserializer.deserialize_map(WireVisitor)
    }
}

fn encode(command: InputCommand) -> Result<Vec<u8>, String> {
    encode_input_command(rmp_serde::to_vec_named(&Wire(command)).map_err(|error| error.to_string()))
}

fn decode(payload: &[u8]) -> Result<InputCommand, String> {
    let parsed = rmp_serde::from_slice::<Wire>(payload).map_err(|error| error.to_string());
    decode_input_command(parsed.map(|wire| wire.0))
}

#[test]
fn input_command_frame_round_trips() {
    let command = InputCommand::MouseButton {
        button: MouseButton::Left,
        down: true,
        x: 320,
        y: 240,
    };

    let framed = encode(command).expect("encode input command");
    let payload_len = u32::from_le_bytes(
        framed[0..4]
            .try_into()
            .expect("length prefix should be four bytes"),
    ) as usize;

    assert_eq!(payload_len, framed.len() - 4);
    assert_eq!(decode(&framed[4..]).expect("decode input command"), command);
}

#[test]
fn trackpad_commands_round_trip() {
    let commands = [
        InputCommand::PreciseScroll {
            delta_x: number(0.375),
            delta_y: number(-1.625),
            phase: GesturePhase::Changed,
            momentum_phase: GesturePhase::Began,
        },
        InputCommand::Swipe {
            delta_x: number(-0.75),
            delta_y: number(0.0),
            phase: GesturePhase::Ended,
        },
        InputCommand::Pinch {
            magnification: number(0.125),
            phase: GesturePhase::Changed,
            x: 640,
            y: 480,
        },
        InputCommand::GestureAction {
            action: GestureAction::TaskView,
        },
    ];

    for command in commands {
        let framed = encode(command).expect("encode trackpad command");
        let decoded = decode(&framed[4..]).expect("decode trackpad command");
        assert_eq!(decoded, command);
    }
}

#[test]
fn frames_begin_with_the_length() {
    assert_eq!(encode_input_command(Ok(vec![])).unwrap(), [0, 0, 0, 0]);
    assert_eq!(encode_input_command(Ok(vec![7, 8])).unwrap(), [2, 0, 0, 0, 7, 8]);
    let long = encode_input_command(Ok(vec![1; 70_000])).unwrap();
    assert_eq!(long[..4], [0x70, 0x11, 0x01, 0x00]);
    assert_eq!(long.len(), 70_004);
    assert!(long[4..].iter().all(|byte| *byte == 1));
}

#[test]
fn frames_in_a_row_are_told_apart() {
    let mut stream = encode_input_command(Ok(vec![1, 2, 3])).unwrap();
    stream.extend(encode_input_command(Ok(vec![9])).unwrap());
    let size = u32::from_le_bytes(stream[0..4].try_into().unwrap()) as usize;
    assert_eq!(stream[4..4 + size], [1, 2, 3]);
    assert_eq!(stream[4 + size..], [1, 0, 0, 0, 9]);
}

#[test]
fn failures_to_serialise_are_passed_on() {
    let encoded = encode_input_command(Err("depth".to_string()));
    assert_eq!(encoded.err().unwrap(), "encode input command: depth");
    let decoded = decode_input_command(Err("marker".to_string()));
    assert_eq!(decoded.err().unwrap(), "decode input command: marker");
    let command = InputCommand::Key { key_code: 0x41, down: true };
    assert_eq!(decode_input_command(Ok(command)).unwrap(), command);
    assert!(decode(&[0xC1]).err().unwrap().starts_with("decode input command: "));
}

#[test]
fn pipe_names_end_in_the_session() {
    assert_eq!(INPUT_PIPE_PREFIX, r"\\.\pipe\mykvm-input-s");
    assert_eq!(input_pipe_name(0), r"\\.\pipe\mykvm-input-s0");
    assert_eq!(input_pipe_name(17), r"\\.\pipe\mykvm-input-s17");
    assert_eq!(input_pipe_name(u32::MAX), r"\\.\pipe\mykvm-input-s4294967295");
    assert_ne!(input_pipe_name(1), input_pipe_name(10));
    assert_eq!(INPUT_SERVICE_NAME, "MyKVMInputService");
    assert_eq!(INPUT_SERVICE_DISPLAY_NAME, "MyKVM Lock Screen Input Service");
}

#[test]
fn status_path_prefers_program_data() {
    let (base, parts) = input_helper_status_path(Some("data"), "temp", 3);
    assert_eq!(base, "data");
    assert_eq!(parts, ["MyKVM", "input-helper-status-s3.txt"]);
    let (base, parts) = input_helper_status_path(None, "temp", 120);
    assert_eq!(base, "temp");
    assert_eq!(parts, ["MyKVM", "input-helper-status-s120.txt"]);
}

#[test]
fn button_masks_are_single_bits() {
    assert_eq!(mouse_button_mask(MouseButton::Left), LEFT_BUTTON_MASK);
    assert_eq!(mouse_button_mask(MouseButton::Right), RIGHT_BUTTON_MASK);
    assert_eq!(mouse_button_mask(MouseButton::Middle), MIDDLE_BUTTON_MASK);
    assert_eq!(mouse_button_mask(MouseButton::Back), BACK_BUTTON_MASK);
    assert_eq!(mouse_button_mask(MouseButton::Forward), FORWARD_BUTTON_MASK);
    assert_eq!(
        [
            LEFT_BUTTON_MASK,
            RIGHT_BUTTON_MASK,
            MIDDLE_BUTTON_MASK,
            BACK_BUTTON_MASK,
            FORWARD_BUTTON_MASK
        ],
        [1, 2, 4, 8, 16]
    );
}

#[test]
fn masks_name_the_dragging_button() {
    for button in [MouseButton::Left, MouseButton::Right, MouseButton::Middle] {
        assert_eq!(button_from_mask(mouse_button_mask(button)), Some(button));
    }
    assert_eq!(button_from_mask(7), Some(MouseButton::Left));
    assert_eq!(button_from_mask(6), Some(MouseButton::Right));
    assert_eq!(button_from_mask(4 | 8), Some(MouseButton::Middle));
    assert_eq!(button_from_mask(BACK_BUTTON_MASK | FORWARD_BUTTON_MASK), None);
    assert_eq!(button_from_mask(0), None);
}

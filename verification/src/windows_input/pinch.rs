//! Pinches, as two touch contacts that move apart or together.
//!
//! A pinch alternates between decisions and work that only the system can do,
//! so it is a machine: an event goes in, and the next thing to do comes out,
//! until the machine is done with the gesture event that set it going. Where
//! touch contacts cannot be had, or would not do, the pinch falls back to the
//! keyboard and the wheel.

use vstd::prelude::*;
use crate::number::Real;
use crate::shared_input::GesturePhase;
use crate::windows_input::inject;
use crate::windows_input::inject::InputAction;
use crate::windows_input::swipe;
use crate::windows_input::touch;
use crate::windows_input::touch::Point;
use crate::windows_input::touch::TouchPoints;

verus! {

/// How many contacts a pinch needs.
pub const PINCH_CONTACTS: u32 = 2;

/// How far a pinch goes for one zoom step in Photoshop: the bits of 0.04.
pub const PHOTOSHOP_ZOOM_STEP: u64 = 0x3FA4_7AE1_47AE_147B;

/// What a pinch is waiting for.
#[derive(Debug, Clone, Copy, PartialEq, Eq, Structural)]
pub enum PinchStage {
    /// A gesture event.
    Idle,
    /// Whether touch contacts can be had.
    Initializing { phase: GesturePhase, x: i32, y: i32 },
    /// Where the first contacts are.
    Placing { phase: GesturePhase },
    /// Which program has the focus.
    Detecting { phase: GesturePhase },
    /// Whether the contacts went down.
    Pressing { phase: GesturePhase },
    /// Where the contacts are now.
    Scaling { phase: GesturePhase },
    /// Whether the contacts moved.
    Moving { phase: GesturePhase, points: TouchPoints },
    /// That contacts which could not be moved were lifted.
    Recovering { phase: GesturePhase },
    /// That the fallback was applied.
    FallingBack { phase: GesturePhase },
    /// That the contacts were lifted at the end.
    Lifting,
}

/// A pinch under way.
#[derive(Debug, Clone, Copy, PartialEq, Eq, Structural)]
pub struct PinchState {
    pub initialization_attempted: bool,
    pub touch_available: bool,
    pub active: bool,
    pub fallback: bool,
    pub photoshop_fallback: bool,
    pub center_x: i32,
    pub center_y: i32,
    pub last_points: TouchPoints,
    pub stage: PinchStage,
}

/// What has happened.
#[derive(Debug, Clone, Copy, PartialEq, Eq, Structural)]
pub enum PinchEvent {
    /// The pinch went on, around (`x`, `y`).
    Gesture { phase: GesturePhase, x: i32, y: i32 },
    /// Whether touch contacts can be had.
    TouchInitialized { available: bool },
    /// The contacts belong at `points`.
    ContactsPlaced { points: TouchPoints },
    /// Whether Photoshop has the focus.
    ForegroundChecked { photoshop: bool },
    /// Whether the system took the touch frame.
    FrameInjected { accepted: bool },
    /// The fallback was applied.
    FallbackApplied,
}

/// What is to be done next.
#[derive(Debug, Clone, Copy, PartialEq, Eq, Structural)]
pub enum PinchAction {
    /// Ask for touch contacts.
    InitializeTouch,
    /// Set the distance of the contacts to where a pinch starts, forget the
    /// remainder, and place the contacts around the centre.
    PlaceContacts { center_x: i32, center_y: i32 },
    /// Find out whether Photoshop has the focus.
    CheckForeground,
    /// Send the touch frame of contacts at `points`.
    InjectFrame { points: TouchPoints, flags: u32 },
    /// Scale the distance of the contacts, and place them around the centre.
    Rescale { center_x: i32, center_y: i32 },
    /// Do with the keyboard, or with the wheel, what the contacts would do.
    ApplyFallback { photoshop: bool },
    /// Nothing until the next gesture event; forget the remainder if the gesture
    /// is over.
    Done { over: bool },
}

/// No pinch, and nothing known of the system.
pub open spec fn no_pinch() -> PinchState {
    PinchState {
        initialization_attempted: false,
        touch_available: false,
        active: false,
        fallback: false,
        photoshop_fallback: false,
        center_x: 0,
        center_y: 0,
        last_points: TouchPoints { first: Point { x: 0, y: 0 }, second: Point { x: 0, y: 0 } },
        stage: PinchStage::Idle,
    }
}

/// Whether an event is what a pinch is waiting for.
pub open spec fn expects(stage: PinchStage, event: PinchEvent) -> bool {
    match stage {
        PinchStage::Idle => event is Gesture,
        PinchStage::Initializing { .. } => event is TouchInitialized,
        PinchStage::Placing { .. } => event is ContactsPlaced,
        PinchStage::Detecting { .. } => event is ForegroundChecked,
        PinchStage::Pressing { .. } => event is FrameInjected,
        PinchStage::Scaling { .. } => event is ContactsPlaced,
        PinchStage::Moving { .. } => event is FrameInjected,
        PinchStage::Recovering { .. } => event is FrameInjected,
        PinchStage::FallingBack { .. } => event is FallbackApplied,
        PinchStage::Lifting => event is FrameInjected,
    }
}

/// Whether a pinch starts over with an event in `phase`.
pub open spec fn starts_over(state: PinchState, phase: GesturePhase) -> bool {
    !state.active || phase == GesturePhase::Began
}

/// The pinch at the end of its gesture.
pub open spec fn at_rest(state: PinchState) -> PinchState {
    PinchState {
        active: false,
        fallback: false,
        photoshop_fallback: false,
        stage: PinchStage::Idle,
        ..state
    }
}

/// Done with a gesture event: when the gesture is over, the contacts are lifted
/// first, if there are any.
pub open spec fn conclusion(state: PinchState, phase: GesturePhase) -> (PinchState, PinchAction) {
    if !swipe::is_over(phase) {
        (
            PinchState { stage: PinchStage::Idle, ..state },
            PinchAction::Done { over: false },
        )
    } else if !state.fallback && state.touch_available {
        (
            PinchState { stage: PinchStage::Lifting, ..state },
            PinchAction::InjectFrame { points: state.last_points, flags: touch::TOUCH_UP },
        )
    } else {
        (at_rest(state), PinchAction::Done { over: true })
    }
}

/// On with the fallback.
pub open spec fn falling_back(state: PinchState, phase: GesturePhase) -> (PinchState, PinchAction) {
    (
        PinchState {
            active: true,
            fallback: true,
            stage: PinchStage::FallingBack { phase },
            ..state
        },
        PinchAction::ApplyFallback { photoshop: state.photoshop_fallback },
    )
}

/// On with a gesture event, of a pinch that has started: the fallback goes its
/// way, and the contacts move, but not with the event that put them down.
pub open spec fn continuation(state: PinchState, phase: GesturePhase) -> (PinchState, PinchAction) {
    if state.fallback {
        falling_back(state, phase)
    } else if phase != GesturePhase::Began {
        (
            PinchState { stage: PinchStage::Scaling { phase }, ..state },
            PinchAction::Rescale { center_x: state.center_x, center_y: state.center_y },
        )
    } else {
        conclusion(state, phase)
    }
}

/// The first contacts are placed.
pub open spec fn placement(state: PinchState, phase: GesturePhase, x: i32, y: i32) -> (
    PinchState,
    PinchAction,
) {
    (
        PinchState {
            center_x: x,
            center_y: y,
            stage: PinchStage::Placing { phase },
            ..state
        },
        PinchAction::PlaceContacts { center_x: x, center_y: y },
    )
}

/// A pinch starts over; whether touch contacts can be had is found out once.
pub open spec fn start(state: PinchState, phase: GesturePhase, x: i32, y: i32) -> (
    PinchState,
    PinchAction,
) {
    if state.initialization_attempted {
        placement(state, phase, x, y)
    } else {
        (
            PinchState {
                initialization_attempted: true,
                stage: PinchStage::Initializing { phase, x, y },
                ..state
            },
            PinchAction::InitializeTouch,
        )
    }
}

/// A gesture event.
pub open spec fn gesture_step(state: PinchState, phase: GesturePhase, x: i32, y: i32) -> (
    PinchState,
    PinchAction,
) {
    if starts_over(state, phase) {
        start(state, phase, x, y)
    } else {
        continuation(state, phase)
    }
}

/// Where a pinch goes with an event, and what is done next.
pub open spec fn pinch_step(state: PinchState, event: PinchEvent) -> (PinchState, PinchAction) {
    match (state.stage, event) {
        (PinchStage::Idle, PinchEvent::Gesture { phase, x, y }) => gesture_step(state, phase, x, y),
        (PinchStage::Initializing { phase, x, y }, PinchEvent::TouchInitialized { available }) => {
            placement(PinchState { touch_available: available, ..state }, phase, x, y)
        },
        (PinchStage::Placing { phase }, PinchEvent::ContactsPlaced { points }) => (
            PinchState { last_points: points, stage: PinchStage::Detecting { phase }, ..state },
            PinchAction::CheckForeground,
        ),
        (PinchStage::Detecting { phase }, PinchEvent::ForegroundChecked { photoshop }) => {
            let known = PinchState { photoshop_fallback: photoshop, ..state };
            if photoshop || !state.touch_available {
                falling_back(known, phase)
            } else {
                (
                    PinchState { stage: PinchStage::Pressing { phase }, ..known },
                    PinchAction::InjectFrame {
                        points: state.last_points,
                        flags: touch::TOUCH_DOWN,
                    },
                )
            }
        },
        (PinchStage::Pressing { phase }, PinchEvent::FrameInjected { accepted }) => continuation(
            PinchState { active: true, fallback: !accepted, ..state },
            phase,
        ),
        (PinchStage::Scaling { phase }, PinchEvent::ContactsPlaced { points }) => (
            PinchState { stage: PinchStage::Moving { phase, points }, ..state },
            PinchAction::InjectFrame { points, flags: touch::TOUCH_UPDATE },
        ),
        (PinchStage::Moving { phase, points }, PinchEvent::FrameInjected { accepted }) => {
            if accepted {
                conclusion(PinchState { last_points: points, ..state }, phase)
            } else if state.touch_available {
                (
                    PinchState { stage: PinchStage::Recovering { phase }, ..state },
                    PinchAction::InjectFrame { points: state.last_points, flags: touch::TOUCH_UP },
                )
            } else {
                falling_back(state, phase)
            }
        },
        (PinchStage::Recovering { phase }, PinchEvent::FrameInjected { .. }) => falling_back(
            state,
            phase,
        ),
        (PinchStage::FallingBack { phase }, PinchEvent::FallbackApplied) => conclusion(
            state,
            phase,
        ),
        (PinchStage::Lifting, PinchEvent::FrameInjected { .. }) => (
            at_rest(state),
            PinchAction::Done { over: true },
        ),
        _ => (state, PinchAction::Done { over: false }),
    }
}

impl PinchState {
    /// No pinch, and nothing known of the system.
    pub fn new() -> (state: Self)
        ensures
            state == no_pinch(),
            sound(state),
    {
        PinchState {
            initialization_attempted: false,
            touch_available: false,
            active: false,
            fallback: false,
            photoshop_fallback: false,
            center_x: 0,
            center_y: 0,
            last_points: TouchPoints { first: Point { x: 0, y: 0 }, second: Point { x: 0, y: 0 } },
            stage: PinchStage::Idle,
        }
    }
}

fn finish_event(state: &mut PinchState, phase: GesturePhase) -> (action: PinchAction)
    ensures
        (*final(state), action) == conclusion(*old(state), phase),
{
    if !swipe::gesture_over(phase) {
        state.stage = PinchStage::Idle;
        PinchAction::Done { over: false }
    } else if !state.fallback && state.touch_available {
        finish_touch_pinch(state, PinchStage::Lifting)
    } else {
        come_to_rest(state)
    }
}

fn come_to_rest(state: &mut PinchState) -> (action: PinchAction)
    ensures
        *final(state) == at_rest(*old(state)),
        action == (PinchAction::Done { over: true }),
{
    state.active = false;
    state.fallback = false;
    state.photoshop_fallback = false;
    state.stage = PinchStage::Idle;
    PinchAction::Done { over: true }
}

fn finish_touch_pinch(state: &mut PinchState, stage: PinchStage) -> (action: PinchAction)
    ensures
        *final(state) == (PinchState { stage, ..*old(state) }),
        action == (PinchAction::InjectFrame {
            points: old(state).last_points,
            flags: touch::TOUCH_UP,
        }),
{
    state.stage = stage;
    PinchAction::InjectFrame { points: state.last_points, flags: touch::TOUCH_UP }
}

fn fall_back(state: &mut PinchState, phase: GesturePhase) -> (action: PinchAction)
    ensures
        (*final(state), action) == falling_back(*old(state), phase),
{
    state.active = true;
    state.fallback = true;
    state.stage = PinchStage::FallingBack { phase };
    PinchAction::ApplyFallback { photoshop: state.photoshop_fallback }
}

fn continue_pinch(state: &mut PinchState, phase: GesturePhase) -> (action: PinchAction)
    requires
        old(state).active,
    ensures
        (*final(state), action) == continuation(*old(state), phase),
{
    if state.fallback {
        fall_back(state, phase)
    } else if phase != GesturePhase::Began {
        state.stage = PinchStage::Scaling { phase };
        PinchAction::Rescale { center_x: state.center_x, center_y: state.center_y }
    } else {
        finish_event(state, phase)
    }
}

fn place_contacts(state: &mut PinchState, phase: GesturePhase, x: i32, y: i32) -> (action:
    PinchAction)
    ensures
        (*final(state), action) == placement(*old(state), phase, x, y),
{
    state.center_x = x;
    state.center_y = y;
    state.stage = PinchStage::Placing { phase };
    PinchAction::PlaceContacts { center_x: x, center_y: y }
}

fn start_pinch(state: &mut PinchState, phase: GesturePhase, x: i32, y: i32) -> (action: PinchAction)
    ensures
        (*final(state), action) == start(*old(state), phase, x, y),
{
    if state.initialization_attempted {
        place_contacts(state, phase, x, y)
    } else {
        state.initialization_attempted = true;
        state.stage = PinchStage::Initializing { phase, x, y };
        PinchAction::InitializeTouch
    }
}

/// Goes on with a pinch around (`x`, `y`): what is to be done first.
pub fn inject_pinch(state: &mut PinchState, phase: GesturePhase, x: i32, y: i32) -> (action:
    PinchAction)
    requires
        old(state).stage == PinchStage::Idle,
    ensures
        (*final(state), action) == pinch_step(*old(state), PinchEvent::Gesture { phase, x, y }),
        sound(*old(state)) ==> sound(*final(state)),
{
    proof {
        if sound(*state) {
            soundness_is_kept(*state, PinchEvent::Gesture { phase, x, y });
        }
    }
    if !state.active || phase == GesturePhase::Began {
        start_pinch(state, phase, x, y)
    } else {
        continue_pinch(state, phase)
    }
}

/// Goes on with a pinch once something was done: what is to be done next.
pub fn next_pinch_action(state: &mut PinchState, event: PinchEvent) -> (action: PinchAction)
    requires
        expects(old(state).stage, event),
    ensures
        (*final(state), action) == pinch_step(*old(state), event),
        sound(*old(state)) ==> sound(*final(state)),
{
    proof {
        if sound(*state) {
            soundness_is_kept(*state, event);
        }
    }
    match (state.stage, event) {
        (PinchStage::Idle, PinchEvent::Gesture { phase, x, y }) => inject_pinch(state, phase, x, y),
        (PinchStage::Initializing { phase, x, y }, PinchEvent::TouchInitialized { available }) => {
            state.touch_available = available;
            place_contacts(state, phase, x, y)
        },
        (PinchStage::Placing { phase }, PinchEvent::ContactsPlaced { points }) => {
            state.last_points = points;
            state.stage = PinchStage::Detecting { phase };
            PinchAction::CheckForeground
        },
        (PinchStage::Detecting { phase }, PinchEvent::ForegroundChecked { photoshop }) => {
            state.photoshop_fallback = photoshop;
            if photoshop || !state.touch_available {
                fall_back(state, phase)
            } else {
                state.stage = PinchStage::Pressing { phase };
                PinchAction::InjectFrame { points: state.last_points, flags: touch::TOUCH_DOWN }
            }
        },
        (PinchStage::Pressing { phase }, PinchEvent::FrameInjected { accepted }) => {
            state.active = true;
            state.fallback = !accepted;
            continue_pinch(state, phase)
        },
        (PinchStage::Scaling { phase }, PinchEvent::ContactsPlaced { points }) => {
            state.stage = PinchStage::Moving { phase, points };
            PinchAction::InjectFrame { points, flags: touch::TOUCH_UPDATE }
        },
        (PinchStage::Moving { phase, points }, PinchEvent::FrameInjected { accepted }) => {
            if accepted {
                state.last_points = points;
                finish_event(state, phase)
            } else if state.touch_available {
                finish_touch_pinch(state, PinchStage::Recovering { phase })
            } else {
                fall_back(state, phase)
            }
        },
        (PinchStage::Recovering { phase }, PinchEvent::FrameInjected { .. }) => fall_back(
            state,
            phase,
        ),
        (PinchStage::FallingBack { phase }, PinchEvent::FallbackApplied) => finish_event(
            state,
            phase,
        ),
        (PinchStage::Lifting, PinchEvent::FrameInjected { .. }) => come_to_rest(state),
        _ => PinchAction::Done { over: false },
    }
}

/// Whether an event is what the pinch is waiting for.
pub fn awaits(state: &PinchState, event: &PinchEvent) -> (awaited: bool)
    ensures
        awaited == expects(state.stage, *event),
{
    matches!(
        (state.stage, *event),
        (PinchStage::Idle, PinchEvent::Gesture { .. })
            | (PinchStage::Initializing { .. }, PinchEvent::TouchInitialized { .. })
            | (PinchStage::Placing { .. }, PinchEvent::ContactsPlaced { .. })
            | (PinchStage::Detecting { .. }, PinchEvent::ForegroundChecked { .. })
            | (PinchStage::Pressing { .. }, PinchEvent::FrameInjected { .. })
            | (PinchStage::Scaling { .. }, PinchEvent::ContactsPlaced { .. })
            | (PinchStage::Moving { .. }, PinchEvent::FrameInjected { .. })
            | (PinchStage::Recovering { .. }, PinchEvent::FrameInjected { .. })
            | (PinchStage::FallingBack { .. }, PinchEvent::FallbackApplied)
            | (PinchStage::Lifting, PinchEvent::FrameInjected { .. })
    )
}

/// The zoom step to take in Photoshop when a pinch has come to `remainder`:
/// whether it zooms in, or `None` if it has not gone far enough for a step.
pub open spec fn zoom_step(remainder: Real) -> Option<bool> {
    if remainder.reaches(PHOTOSHOP_ZOOM_STEP) {
        Some(remainder.above_zero())
    } else {
        None
    }
}

/// The chord of a zoom step: control with plus or minus of the keypad.
pub open spec fn zoom_chord(zoom_in: bool) -> Seq<u16> {
    seq![
        inject::VK_CONTROL,
        if zoom_in {
            inject::VK_ADD
        } else {
            inject::VK_SUBTRACT
        },
    ]
}

/// The zoom step to take in Photoshop when a pinch has come to `remainder`:
/// whether it zooms in, which says what the remainder goes down or up by, and
/// the actions; `None` if it has not gone far enough for a step.
pub fn photoshop_zoom(remainder: Real) -> (step: Option<(bool, Vec<InputAction>)>)
    ensures
        match step {
            Some((zoom_in, actions)) => zoom_step(remainder) == Some(zoom_in) && actions@
                == inject::chord_actions(zoom_chord(zoom_in)),
            None => zoom_step(remainder) is None,
        },
{
    if !remainder.is_at_least(PHOTOSHOP_ZOOM_STEP) {
        return None;
    }
    let zoom_in: bool = remainder.is_positive();
    let key: u16 = if zoom_in {
        inject::VK_ADD
    } else {
        inject::VK_SUBTRACT
    };
    let chord: [u16; 2] = [inject::VK_CONTROL, key];
    assert(chord@ =~= zoom_chord(zoom_in));
    Some((zoom_in, inject::inject_key_chord(&chord)))
}

/// The actions of a pinch by the wheel: the wheel turns while control is held,
/// if it turns at all.
pub open spec fn control_wheel(delta: i32) -> Seq<InputAction> {
    if delta != 0 {
        seq![
            inject::key_action(inject::VK_CONTROL, true),
            inject::wheel_action(inject::MOUSEEVENTF_WHEEL, delta),
            inject::key_action(inject::VK_CONTROL, false),
        ]
    } else {
        seq![]
    }
}

/// Turns the wheel by so many units while control is held.
pub fn inject_control_wheel(delta: i32) -> (actions: Vec<InputAction>)
    ensures
        actions@ == control_wheel(delta),
{
    let mut actions: Vec<InputAction> = Vec::new();
    if delta != 0 {
        actions.push(inject::inject_key(inject::VK_CONTROL, true));
        let mut wheel = inject::inject_wheel_units(0, delta);
        actions.append(&mut wheel);
        actions.push(inject::inject_key(inject::VK_CONTROL, false));
    }
    assert(actions@ =~= control_wheel(delta));
    actions
}

/// What always holds of a pinch: contacts are used only where they can be had,
/// which was asked for before; a pinch that is not under way has left nothing
/// behind; and one that falls back is under way.
pub open spec fn sound(state: PinchState) -> bool {
    &&& state.touch_available ==> state.initialization_attempted
    &&& match state.stage {
        PinchStage::Idle => {
            &&& state.active && !state.fallback ==> state.touch_available
            &&& !state.active ==> !state.fallback && !state.photoshop_fallback
        },
        PinchStage::Initializing { .. } => state.initialization_attempted
            && !state.touch_available,
        PinchStage::Placing { .. } => state.initialization_attempted,
        PinchStage::Detecting { .. } => state.initialization_attempted,
        PinchStage::Pressing { .. } => state.touch_available,
        PinchStage::Scaling { .. } => state.touch_available && state.active && !state.fallback,
        PinchStage::Moving { .. } => state.touch_available && state.active && !state.fallback,
        PinchStage::Recovering { .. } => state.touch_available && state.active && !state.fallback,
        PinchStage::FallingBack { .. } => state.active && state.fallback,
        PinchStage::Lifting => state.touch_available && state.active && !state.fallback,
    }
}

/// Whatever happens, a pinch stays sound.
pub proof fn soundness_is_kept(state: PinchState, event: PinchEvent)
    requires
        sound(state),
        expects(state.stage, event),
    ensures
        sound(pinch_step(state, event).0),
{
}

/// A touch frame is sent only where touch contacts can be had.
pub proof fn frames_need_touch(state: PinchState, event: PinchEvent)
    requires
        sound(state),
        expects(state.stage, event),
        pinch_step(state, event).1 is InjectFrame,
    ensures
        pinch_step(state, event).0.touch_available,
{
}

/// Touch contacts are asked for once: whether they can be had is never asked
/// again, and the answer stands.
pub proof fn touch_is_initialized_once(state: PinchState, event: PinchEvent)
    requires
        state.initialization_attempted,
        expects(state.stage, event),
    ensures
        pinch_step(state, event).0.initialization_attempted,
        !(pinch_step(state, event).1 is InitializeTouch),
        !(state.stage is Initializing) ==> pinch_step(state, event).0.touch_available
            == state.touch_available,
{
}

/// The phase of the gesture event that a pinch is busy with.
pub open spec fn stage_phase(stage: PinchStage) -> Option<GesturePhase> {
    match stage {
        PinchStage::Idle => None,
        PinchStage::Initializing { phase, .. } => Some(phase),
        PinchStage::Placing { phase } => Some(phase),
        PinchStage::Detecting { phase } => Some(phase),
        PinchStage::Pressing { phase } => Some(phase),
        PinchStage::Scaling { phase } => Some(phase),
        PinchStage::Moving { phase, .. } => Some(phase),
        PinchStage::Recovering { phase } => Some(phase),
        PinchStage::FallingBack { phase } => Some(phase),
        PinchStage::Lifting => None,
    }
}

/// A gesture that is over leaves no pinch behind: when the machine is done with
/// the event that ended it, nothing is under way, and it is done with nothing
/// else in that way.
pub proof fn pinch_ends_with_its_gesture(state: PinchState, event: PinchEvent)
    requires
        sound(state),
        expects(state.stage, event),
        !(state.stage is Idle),
    ensures
        pinch_step(state, event).1 == (PinchAction::Done { over: true }) ==> pinch_step(
            state,
            event,
        ).0 == at_rest(pinch_step(state, event).0),
        pinch_step(state, event).1 == (PinchAction::Done { over: false }) ==> pinch_step(
            state,
            event,
        ).0.active,
        pinch_step(state, event).1 matches PinchAction::Done { over } ==> (over == match stage_phase(
            state.stage,
        ) {
            Some(phase) => swipe::is_over(phase),
            None => true,
        }),
{
}

/// How many more steps a pinch can take at most.
pub open spec fn steps_left(stage: PinchStage) -> nat {
    match stage {
        PinchStage::Idle => 0,
        PinchStage::Lifting => 1,
        PinchStage::FallingBack { .. } => 2,
        PinchStage::Recovering { .. } => 3,
        PinchStage::Moving { .. } => 4,
        PinchStage::Scaling { .. } => 5,
        PinchStage::Pressing { .. } => 6,
        PinchStage::Detecting { .. } => 7,
        PinchStage::Placing { .. } => 8,
        PinchStage::Initializing { .. } => 9,
    }
}

/// A pinch comes to its end: every step but the one that begins it brings it
/// nearer, and it waits for a gesture event exactly when it is done.
pub proof fn pinch_makes_progress(state: PinchState, event: PinchEvent)
    requires
        expects(state.stage, event),
    ensures
        !(state.stage is Idle) ==> steps_left(pinch_step(state, event).0.stage) < steps_left(
            state.stage,
        ),
        pinch_step(state, event).1 is Done <==> pinch_step(state, event).0.stage
            == PinchStage::Idle,
{
}

/// Where a pinch goes with one event after another.
pub open spec fn after_all(state: PinchState, events: Seq<PinchEvent>) -> PinchState
    decreases events.len(),
{
    if events.len() == 0 {
        state
    } else {
        pinch_step(after_all(state, events.drop_last()), events.last()).0
    }
}

/// Whether every one of the events is what the pinch is waiting for when it
/// comes.
pub open spec fn all_expected(state: PinchState, events: Seq<PinchEvent>) -> bool
    decreases events.len(),
{
    events.len() > 0 ==> {
        &&& all_expected(state, events.drop_last())
        &&& expects(after_all(state, events.drop_last()).stage, events.last())
    }
}

/// From no pinch at all, every pinch that can be reached is sound.
pub proof fn reachable_pinches_are_sound(events: Seq<PinchEvent>)
    requires
        all_expected(no_pinch(), events),
    ensures
        sound(after_all(no_pinch(), events)),
    decreases events.len(),
{
    if events.len() > 0 {
        reachable_pinches_are_sound(events.drop_last());
        soundness_is_kept(after_all(no_pinch(), events.drop_last()), events.last());
    }
}

/// A pinch by touch that ends lifts its contacts where they last were: at the
/// points they were just moved to, or, if the system would not move them, at
/// those from before, and then the fallback takes over.
pub proof fn ending_pinch_lifts_its_contacts(
    state: PinchState,
    phase: GesturePhase,
    x: i32,
    y: i32,
    points: TouchPoints,
    accepted: bool,
)
    requires
        sound(state),
        state.stage == PinchStage::Idle,
        state.active,
        !state.fallback,
        swipe::is_over(phase),
    ensures
        ({
            let first = pinch_step(state, PinchEvent::Gesture { phase, x, y });
            let second = pinch_step(first.0, PinchEvent::ContactsPlaced { points });
            let third = pinch_step(second.0, PinchEvent::FrameInjected { accepted });
            &&& first.1 == (PinchAction::Rescale {
                center_x: state.center_x,
                center_y: state.center_y,
            })
            &&& second.1 == (PinchAction::InjectFrame { points, flags: touch::TOUCH_UPDATE })
            &&& third.1 == (PinchAction::InjectFrame {
                points: if accepted {
                    points
                } else {
                    state.last_points
                },
                flags: touch::TOUCH_UP,
            })
        }),
{
}

/// A pinch by touch puts its contacts down before anything else is done with
/// them: the frame that follows the placing of the first contacts is the one
/// that puts them down, where they were placed.
pub proof fn contacts_go_down_first(state: PinchState, points: TouchPoints)
    requires
        sound(state),
        state.stage is Placing,
        state.touch_available,
    ensures
        ({
            let first = pinch_step(state, PinchEvent::ContactsPlaced { points });
            let second = pinch_step(first.0, PinchEvent::ForegroundChecked { photoshop: false });
            &&& first.1 is CheckForeground
            &&& second.1 == (PinchAction::InjectFrame { points, flags: touch::TOUCH_DOWN })
        }),
{
}

/// The wheel is turned only while control is held, and control does not stay
/// down.
pub proof fn control_is_released(delta: i32)
    requires
        delta != 0,
    ensures
        control_wheel(delta).first() == inject::key_action(inject::VK_CONTROL, true),
        control_wheel(delta).last() == inject::key_action(inject::VK_CONTROL, false),
{
}

/// A pinch that is not under way, and one that begins anew, starts around the
/// place of the gesture. The system is asked for touch contacts first if it was
/// never asked, and its answer is remembered; then the contacts are placed.
pub proof fn pinches_start_where_the_gesture_is(
    state: PinchState,
    phase: GesturePhase,
    x: i32,
    y: i32,
    available: bool,
)
    requires
        state.stage == PinchStage::Idle,
        !state.active || phase == GesturePhase::Began,
    ensures
        ({
            let first = pinch_step(state, PinchEvent::Gesture { phase, x, y });
            let placed = if state.initialization_attempted {
                first
            } else {
                pinch_step(first.0, PinchEvent::TouchInitialized { available })
            };
            &&& !state.initialization_attempted ==> first.1 == PinchAction::InitializeTouch
                && first.0.initialization_attempted
            &&& placed.1 == (PinchAction::PlaceContacts { center_x: x, center_y: y })
            &&& placed.0.center_x == x && placed.0.center_y == y
            &&& placed.0.stage == (PinchStage::Placing { phase })
            &&& placed.0.initialization_attempted
            &&& placed.0.touch_available == (if state.initialization_attempted {
                state.touch_available
            } else {
                available
            })
        }),
{
}

/// A pinch that is under way does not start over: the fallback goes on as it was
/// chosen, and contacts are moved around the centre where they were put down,
/// wherever the gesture is now.
pub proof fn pinches_go_on_as_they_started(
    state: PinchState,
    phase: GesturePhase,
    x: i32,
    y: i32,
)
    requires
        state.stage == PinchStage::Idle,
        state.active,
        phase != GesturePhase::Began,
    ensures
        ({
            let first = pinch_step(state, PinchEvent::Gesture { phase, x, y });
            &&& state.fallback ==> first.1 == (PinchAction::ApplyFallback {
                photoshop: state.photoshop_fallback,
            }) && first.0 == (PinchState { stage: PinchStage::FallingBack { phase }, ..state })
            &&& !state.fallback ==> first.1 == (PinchAction::Rescale {
                center_x: state.center_x,
                center_y: state.center_y,
            }) && first.0 == (PinchState { stage: PinchStage::Scaling { phase }, ..state })
        }),
{
}

/// Once the contacts of a pinch that starts are placed, it is found out which
/// program has the focus. Over Photoshop, and without touch contacts, the pinch
/// falls back; else the contacts go down where they were placed. If the system
/// refuses that, the pinch falls back too. If not, the pinch is under way, and
/// the contacts move with the same event unless it is the one that begins it.
pub proof fn starting_pinches_press_or_fall_back(
    state: PinchState,
    phase: GesturePhase,
    points: TouchPoints,
    photoshop: bool,
    accepted: bool,
)
    requires
        state.stage == (PinchStage::Placing { phase }),
    ensures
        ({
            let first = pinch_step(state, PinchEvent::ContactsPlaced { points });
            let second = pinch_step(first.0, PinchEvent::ForegroundChecked { photoshop });
            let third = pinch_step(second.0, PinchEvent::FrameInjected { accepted });
            let started = if photoshop || !state.touch_available {
                second
            } else {
                third
            };
            &&& first.1 == PinchAction::CheckForeground
            &&& !photoshop && state.touch_available ==> second.1 == (PinchAction::InjectFrame {
                points,
                flags: 0x1_0006,
            })
            &&& started.0.active
            &&& started.0.last_points == points
            &&& started.0.photoshop_fallback == photoshop
            &&& started.0.fallback == (photoshop || !state.touch_available || !accepted)
            &&& started.0.fallback ==> started.1 == (PinchAction::ApplyFallback { photoshop })
                && started.0.stage == (PinchStage::FallingBack { phase })
            &&& !started.0.fallback && phase == GesturePhase::Began ==> started.1
                == (PinchAction::Done { over: false }) && started.0.stage == PinchStage::Idle
            &&& !started.0.fallback && phase != GesturePhase::Began ==> started.1
                == (PinchAction::Rescale { center_x: state.center_x, center_y: state.center_y })
                && started.0.stage == (PinchStage::Scaling { phase })
            &&& started.0.center_x == state.center_x && started.0.center_y == state.center_y
            &&& started.0.touch_available == state.touch_available
        }),
{
    touch::touch_flags_are_these();
}

/// Contacts that are to move are sent at exactly the places that they were given,
/// in range, in contact and updated, in whatever phase the gesture is.
/// If the system takes that, they stand there: a gesture that goes on is done
/// with, and one that is over lifts them there and leaves nothing under way. If
/// the system refuses it, they are lifted where they stood, and the fallback
/// takes over, until the gesture is over.
pub proof fn contacts_move_and_stay_in_contact(
    state: PinchState,
    phase: GesturePhase,
    points: TouchPoints,
    lifted: bool,
)
    requires
        state.stage == (PinchStage::Scaling { phase }),
        state.touch_available,
        state.active,
        !state.fallback,
    ensures
        ({
            let over = phase == GesturePhase::Ended || phase == GesturePhase::Cancelled;
            let moving = pinch_step(state, PinchEvent::ContactsPlaced { points });
            let taken = pinch_step(moving.0, PinchEvent::FrameInjected { accepted: true });
            let rest = pinch_step(taken.0, PinchEvent::FrameInjected { accepted: lifted });
            let refused = pinch_step(moving.0, PinchEvent::FrameInjected { accepted: false });
            let falling = pinch_step(refused.0, PinchEvent::FrameInjected { accepted: lifted });
            let fallen = pinch_step(falling.0, PinchEvent::FallbackApplied);
            &&& moving.1 == (PinchAction::InjectFrame { points, flags: 0x2_0006 })
            &&& taken.0.last_points == points
            &&& !over ==> taken.1 == (PinchAction::Done { over: false }) && taken.0 == (PinchState {
                last_points: points,
                stage: PinchStage::Idle,
                ..state
            })
            &&& over ==> {
                &&& taken.1 == (PinchAction::InjectFrame { points, flags: 0x4_0002 })
                &&& rest.1 == (PinchAction::Done { over: true })
                &&& !rest.0.active && !rest.0.fallback && !rest.0.photoshop_fallback
                &&& rest.0.stage == PinchStage::Idle
                &&& rest.0.touch_available && rest.0.initialization_attempted
                    == state.initialization_attempted
            }
            &&& refused.1 == (PinchAction::InjectFrame {
                points: state.last_points,
                flags: 0x4_0002,
            })
            &&& falling.1 == (PinchAction::ApplyFallback { photoshop: state.photoshop_fallback })
            &&& falling.0.fallback && falling.0.active
            &&& fallen.1 == (PinchAction::Done { over })
            &&& fallen.0.active == !over && fallen.0.fallback == !over
            &&& fallen.0.photoshop_fallback == (!over && state.photoshop_fallback)
            &&& fallen.0.stage == PinchStage::Idle
            &&& fallen.0.touch_available
        }),
{
    touch::touch_flags_are_these();
}

/// Every gesture event of a touch pinch that is under way, but the one that would
/// begin it anew, moves the contacts around the centre: they are sent where they
/// are placed, as contacts that move.
pub proof fn events_of_a_touch_pinch_move_its_contacts(
    state: PinchState,
    phase: GesturePhase,
    x: i32,
    y: i32,
    points: TouchPoints,
)
    requires
        state.stage == PinchStage::Idle,
        state.active,
        !state.fallback,
        phase != GesturePhase::Began,
    ensures
        ({
            let first = pinch_step(state, PinchEvent::Gesture { phase, x, y });
            let second = pinch_step(first.0, PinchEvent::ContactsPlaced { points });
            &&& first.1 == (PinchAction::Rescale {
                center_x: state.center_x,
                center_y: state.center_y,
            })
            &&& second.1 == (PinchAction::InjectFrame { points, flags: 0x2_0006 })
        }),
{
    touch::touch_flags_are_these();
}

/// Contacts are lifted only when the gesture is over and they were moved a last
/// time, or after the system refused to move them; and they go down only where
/// they were just placed, once it is known that Photoshop has not the focus.
pub proof fn contacts_are_lifted_only_at_the_end(state: PinchState, event: PinchEvent)
    requires
        expects(state.stage, event),
        pinch_step(state, event).1 is InjectFrame,
        sound(state),
    ensures
        match pinch_step(state, event).1 {
            PinchAction::InjectFrame { points, flags } => {
                ||| flags == 0x1_0006 && points == state.last_points && event == (
                PinchEvent::ForegroundChecked { photoshop: false })
                ||| flags == 0x2_0006 && event == (PinchEvent::ContactsPlaced { points })
                ||| flags == 0x4_0002 && event == (PinchEvent::FrameInjected { accepted: false })
                    && points == state.last_points
                ||| flags == 0x4_0002 && event == (PinchEvent::FrameInjected { accepted: true })
                    && (state.stage matches PinchStage::Moving { phase, points: moved } && points
                    == moved && (phase == GesturePhase::Ended || phase == GesturePhase::Cancelled))
            },
            _ => true,
        },
{
    touch::touch_flags_are_these();
}

/// An event of a pinch that has fallen back applies the fallback once, and is
/// then done with: a gesture that goes on stays as it is, and one that is over
/// leaves nothing under way.
pub proof fn fallbacks_are_applied_once(state: PinchState, phase: GesturePhase)
    requires
        state.stage == (PinchStage::FallingBack { phase }),
        state.active,
        state.fallback,
    ensures
        ({
            let over = phase == GesturePhase::Ended || phase == GesturePhase::Cancelled;
            let after = pinch_step(state, PinchEvent::FallbackApplied);
            &&& after.1 == (PinchAction::Done { over })
            &&& after.0.stage == PinchStage::Idle
            &&& !over ==> after.0 == (PinchState { stage: PinchStage::Idle, ..state })
            &&& over ==> !after.0.active && !after.0.fallback && !after.0.photoshop_fallback
            &&& after.0.touch_available == state.touch_available
            &&& after.0.initialization_attempted == state.initialization_attempted
        }),
{
}

/// A step of the zoom in Photoshop is taken exactly from 0.04 on: control with
/// plus of the keypad outwards, with minus inwards.
pub proof fn photoshop_zooms_by_steps(remainder: Real)
    ensures
        zoom_step(remainder) is Some <==> remainder.reaches(0x3FA4_7AE1_47AE_147B),
        zoom_step(remainder) == Some(true) ==> remainder.above_zero() && zoom_chord(true) == seq![
            0x11u16,
            0x6Bu16,
        ],
        zoom_step(remainder) == Some(false) ==> remainder.below_zero() && zoom_chord(false) == seq![
            0x11u16,
            0x6Du16,
        ],
{
}

/// A pinch by the wheel that turns it at all presses control, turns the wheel by
/// just that much, vertically, and lets control go; one that does not turn it
/// does nothing.
pub proof fn the_wheel_turns_under_control(delta: i32)
    ensures
        delta == 0 ==> control_wheel(delta).len() == 0,
        delta != 0 ==> {
            &&& control_wheel(delta).len() == 3
            &&& control_wheel(delta)[0] == inject::key_action(0x11, true)
            &&& control_wheel(delta)[1] matches InputAction::Wheel(input) && input.flags == 0x0800
                && inject::carries(input.mouse_data, delta as int)
            &&& control_wheel(delta)[2] == inject::key_action(0x11, false)
        },
{
}

/// What a pinch waits for is the answer to what it asked to be done: every such
/// answer is awaited, whatever it is, and nothing else is.
pub proof fn pinches_await_the_answer(state: PinchState, event: PinchEvent, answer: PinchEvent)
    requires
        expects(state.stage, event),
    ensures
        expects(pinch_step(state, event).0.stage, answer) <==> match pinch_step(state, event).1 {
            PinchAction::InitializeTouch => answer is TouchInitialized,
            PinchAction::PlaceContacts { .. } => answer is ContactsPlaced,
            PinchAction::CheckForeground => answer is ForegroundChecked,
            PinchAction::InjectFrame { .. } => answer is FrameInjected,
            PinchAction::Rescale { .. } => answer is ContactsPlaced,
            PinchAction::ApplyFallback { .. } => answer is FallbackApplied,
            PinchAction::Done { .. } => answer is Gesture,
        },
        expects(PinchStage::Idle, answer) <==> answer is Gesture,
{
}

/// At first nothing is known of the system and no pinch is under way.
pub proof fn nothing_is_known_at_first()
    ensures
        ({
            let state = no_pinch();
            &&& !state.initialization_attempted && !state.touch_available
            &&& !state.active && !state.fallback && !state.photoshop_fallback
            &&& state.stage == PinchStage::Idle
            &&& state.center_x == 0 && state.center_y == 0
            &&& state.last_points.first.x == 0 && state.last_points.first.y == 0
            &&& state.last_points.second.x == 0 && state.last_points.second.y == 0
        }),
{
}

} // verus!

//! Swipes of several fingers, as shortcuts between tasks and desktops.

use vstd::prelude::*;
use crate::number::Real;
use crate::shared_input::GesturePhase;
use crate::windows_input::inject;
use crate::windows_input::inject::InputAction;

verus! {

/// Set if a swipe to the left is to select the desktop on the right.
pub const REVERSE_HORIZONTAL_SWIPE: bool = false;

/// How far a swipe goes before it counts: the bits of 0.35.
pub const SWIPE_TRIGGER_DELTA: u64 = 0x3FD6_6666_6666_6666;

/// The bits of the distance from one to the next larger number.
pub const EPSILON: u64 = 0x3CB0_0000_0000_0000;

/// A swipe under way: how far it went, and whether it has been acted on.
#[derive(Debug, Clone, Copy, PartialEq)]
pub struct SwipeState {
    pub x: Real,
    pub y: Real,
    pub triggered: bool,
}

/// No swipe.
pub open spec fn no_swipe() -> SwipeState {
    SwipeState { x: Real { bits: 0 }, y: Real { bits: 0 }, triggered: false }
}

/// Whether a gesture is over.
pub open spec fn is_over(phase: GesturePhase) -> bool {
    phase == GesturePhase::Ended || phase == GesturePhase::Cancelled
}

/// Whether a gesture is over.
pub fn gesture_over(phase: GesturePhase) -> (over: bool)
    ensures
        over == is_over(phase),
{
    phase == GesturePhase::Ended || phase == GesturePhase::Cancelled
}

/// The shortcut of a swipe that went by (`x`, `y`), if there is one: up is the
/// task view, sideways is the desktop on that side, and down is reserved.
pub open spec fn swipe_chord(x: Real, y: Real) -> Option<Seq<u16>> {
    if y.outweighs(x) {
        if y.above_zero() {
            Some(seq![inject::VK_LWIN, inject::VK_TAB])
        } else {
            None
        }
    } else if x.outweighs(Real { bits: EPSILON }) {
        if x.below_zero() != REVERSE_HORIZONTAL_SWIPE {
            Some(seq![inject::VK_LWIN, inject::VK_CONTROL, inject::VK_LEFT])
        } else {
            Some(seq![inject::VK_LWIN, inject::VK_CONTROL, inject::VK_RIGHT])
        }
    } else {
        None
    }
}

/// Whether a swipe that stands at `state` is acted on when it comes to (`x`,
/// `y`) in `phase`: it went far enough or is over, and was not acted on before.
pub open spec fn swipe_fires(state: SwipeState, x: Real, y: Real, phase: GesturePhase) -> bool {
    &&& state.triggered ==> phase == GesturePhase::Began
    &&& x.reaches(SWIPE_TRIGGER_DELTA) || y.reaches(SWIPE_TRIGGER_DELTA) || is_over(phase)
}

/// The actions of a swipe event.
pub open spec fn swipe_actions(state: SwipeState, x: Real, y: Real, phase: GesturePhase) -> Seq<
    InputAction,
> {
    if swipe_fires(state, x, y, phase) {
        match swipe_chord(x, y) {
            Some(chord) => inject::chord_actions(chord),
            None => seq![],
        }
    } else {
        seq![]
    }
}

/// Where a swipe stands after an event.
pub open spec fn after_swipe(state: SwipeState, x: Real, y: Real, phase: GesturePhase) -> SwipeState {
    if is_over(phase) {
        no_swipe()
    } else {
        SwipeState {
            x,
            y,
            triggered: swipe_fires(state, x, y, phase) || (state.triggered && phase
                != GesturePhase::Began),
        }
    }
}

/// What the movement of an event in `phase` is added to.
pub open spec fn swipe_base(state: SwipeState, phase: GesturePhase) -> (Real, Real) {
    if phase == GesturePhase::Began {
        (no_swipe().x, no_swipe().y)
    } else {
        (state.x, state.y)
    }
}

impl SwipeState {
    /// No swipe.
    pub fn new() -> (state: Self)
        ensures
            state == no_swipe(),
    {
        SwipeState { x: Real::zero(), y: Real::zero(), triggered: false }
    }

    /// What the movement of an event in `phase` is added to: how far the swipe
    /// went, or nothing if the event begins a new one.
    pub fn base(&self, phase: GesturePhase) -> (base: (Real, Real))
        ensures
            base == swipe_base(*self, phase),
    {
        if phase == GesturePhase::Began {
            (Real::zero(), Real::zero())
        } else {
            (self.x, self.y)
        }
    }
}

/// Goes on with the swipe, which now comes to (`x`, `y`).
pub fn inject_swipe(state: &mut SwipeState, x: Real, y: Real, phase: GesturePhase) -> (actions: Vec<
    InputAction,
>)
    ensures
        actions@ == swipe_actions(*old(state), x, y, phase),
        *final(state) == after_swipe(*old(state), x, y, phase),
{
    let triggered: bool = state.triggered && phase != GesturePhase::Began;
    let over: bool = gesture_over(phase);
    let far: bool = x.is_at_least(SWIPE_TRIGGER_DELTA) || y.is_at_least(SWIPE_TRIGGER_DELTA);
    let fires: bool = !triggered && (far || over);
    if over {
        *state = SwipeState::new();
    } else {
        *state = SwipeState { x, y, triggered: triggered || fires };
    }
    if fires {
        inject_swipe_chord(x, y)
    } else {
        Vec::new()
    }
}

fn inject_swipe_chord(x: Real, y: Real) -> (actions: Vec<InputAction>)
    ensures
        actions@ == match swipe_chord(x, y) {
            Some(chord) => inject::chord_actions(chord),
            None => seq![],
        },
{
    if y.is_larger_than(x) {
        if y.is_positive() {
            let chord: [u16; 2] = [inject::VK_LWIN, inject::VK_TAB];
            assert(chord@ =~= swipe_chord(x, y)->0);
            return inject::inject_key_chord(&chord);
        }
    } else if x.is_larger_than(Real { bits: EPSILON }) {
        let side: u16 = if x.is_negative() != REVERSE_HORIZONTAL_SWIPE {
            inject::VK_LEFT
        } else {
            inject::VK_RIGHT
        };
        let chord: [u16; 3] = [inject::VK_LWIN, inject::VK_CONTROL, side];
        assert(chord@ =~= swipe_chord(x, y)->0);
        return inject::inject_key_chord(&chord);
    }
    Vec::new()
}

/// A swipe is acted on at most once: once it was, nothing more comes of it, until
/// it is over or another begins.
pub proof fn swipe_fires_once(
    state: SwipeState,
    x: Real,
    y: Real,
    phase: GesturePhase,
    later_x: Real,
    later_y: Real,
    later_phase: GesturePhase,
)
    requires
        swipe_fires(state, x, y, phase),
        !is_over(phase),
        later_phase != GesturePhase::Began,
    ensures
        swipe_actions(
            after_swipe(state, x, y, phase),
            later_x,
            later_y,
            later_phase,
        ) == Seq::<InputAction>::empty(),
        !is_over(later_phase) ==> after_swipe(
            after_swipe(state, x, y, phase),
            later_x,
            later_y,
            later_phase,
        ).triggered,
{
}

/// A swipe that is over leaves nothing behind, and one that begins does not
/// depend on what came before.
pub proof fn swipes_are_independent(
    state: SwipeState,
    other: SwipeState,
    x: Real,
    y: Real,
    phase: GesturePhase,
)
    ensures
        is_over(phase) ==> after_swipe(state, x, y, phase) == no_swipe(),
        swipe_actions(state, x, y, GesturePhase::Began) == swipe_actions(
            other,
            x,
            y,
            GesturePhase::Began,
        ),
        after_swipe(state, x, y, GesturePhase::Began) == after_swipe(
            other,
            x,
            y,
            GesturePhase::Began,
        ),
{
}

/// A swipe that is acted on goes by its larger component. If it went further up
/// or down than sideways, whatever it went sideways, it is the Windows key with
/// tab for up and nothing for down. Else it is the Windows key with control and
/// the arrow to its side, if it went sideways at all. The arrow never comes of a
/// swipe that went further up or down, nor tab of any other.
pub proof fn swipes_go_by_their_larger_component(
    state: SwipeState,
    x: Real,
    y: Real,
    phase: GesturePhase,
)
    requires
        swipe_fires(state, x, y, phase),
    ensures
        ({
            let actions = swipe_actions(state, x, y, phase);
            let up = inject::chord_actions(seq![0x5Bu16, 0x09u16]);
            let left = inject::chord_actions(seq![0x5Bu16, 0x11u16, 0x25u16]);
            let right = inject::chord_actions(seq![0x5Bu16, 0x11u16, 0x27u16]);
            let moved = x.outweighs(Real { bits: 0x3CB0_0000_0000_0000 });
            &&& y.outweighs(x) && y.above_zero() ==> actions == up
            &&& y.outweighs(x) && !y.above_zero() ==> actions.len() == 0
            &&& !y.outweighs(x) && moved && x.below_zero() ==> actions == left
            &&& !y.outweighs(x) && moved && !x.below_zero() ==> actions == right
            &&& !y.outweighs(x) && !moved ==> actions.len() == 0
            &&& actions.len() == 4 ==> y.outweighs(x)
            &&& actions.len() == 6 ==> !y.outweighs(x)
        }),
{
}

/// A swipe is acted on exactly if it went 0.35 along one of the axes, or is over,
/// and was not acted on since it began; without that nothing is done.
pub proof fn swipes_are_acted_on_when_they_went_far(
    state: SwipeState,
    x: Real,
    y: Real,
    phase: GesturePhase,
)
    ensures
        swipe_fires(state, x, y, phase) <==> (x.reaches(0x3FD6_6666_6666_6666) || y.reaches(
            0x3FD6_6666_6666_6666,
        ) || phase == GesturePhase::Ended || phase == GesturePhase::Cancelled) && (phase
            == GesturePhase::Began || !state.triggered),
        !swipe_fires(state, x, y, phase) ==> swipe_actions(state, x, y, phase).len() == 0,
{
}

/// A swipe that is not over stands where it came to, and counts as acted on if it
/// was or has just been; one that is over is forgotten.
pub proof fn swipes_stand_where_they_came_to(
    state: SwipeState,
    x: Real,
    y: Real,
    phase: GesturePhase,
)
    ensures
        ({
            let after = after_swipe(state, x, y, phase);
            if phase == GesturePhase::Ended || phase == GesturePhase::Cancelled {
                after.x.bits == 0 && after.y.bits == 0 && !after.triggered
            } else {
                &&& after.x == x
                &&& after.y == y
                &&& swipe_fires(state, x, y, phase) ==> after.triggered
                &&& state.triggered && phase != GesturePhase::Began ==> after.triggered
                &&& after.triggered ==> swipe_fires(state, x, y, phase) || (state.triggered && phase
                    != GesturePhase::Began)
            }
        }),
{
}

/// A movement is added to where the event before it brought the swipe; one that
/// begins a swipe, and one that follows its end, is added to nothing.
pub proof fn movements_add_up(
    state: SwipeState,
    x: Real,
    y: Real,
    phase: GesturePhase,
    next: GesturePhase,
)
    ensures
        ({
            let base = swipe_base(after_swipe(state, x, y, phase), next);
            let fresh = next == GesturePhase::Began || phase == GesturePhase::Ended || phase
                == GesturePhase::Cancelled;
            &&& !fresh ==> base == (x, y)
            &&& fresh ==> base.0.bits == 0 && base.1.bits == 0
        }),
        swipe_base(no_swipe(), phase).0.bits == 0,
        swipe_base(no_swipe(), phase).1.bits == 0,
        !no_swipe().triggered,
{
}

} // verus!

//! What is pressed, and how it is let go.

use vstd::prelude::*;
use crate::shared_input;
use crate::shared_input::InputCommand;
use crate::shared_input::MouseButton;
use crate::windows_input::inject;
use crate::windows_input::inject::InputAction;
use crate::windows_input::inject::VirtualScreen;

verus! {

/// The pressed keys after a command: a key that goes down is added behind the
/// others, once; one that comes up is taken out.
pub open spec fn tracked_keys(keys: Seq<u16>, command: InputCommand) -> Seq<u16> {
    match command {
        InputCommand::Key { key_code, down } => if down {
            if keys.contains(key_code) {
                keys
            } else {
                keys.push(key_code)
            }
        } else {
            keys.filter(|pressed: u16| pressed != key_code)
        },
        _ => keys,
    }
}

/// The mask of pressed buttons after a command.
pub open spec fn tracked_mask(mask: u64, command: InputCommand) -> u64 {
    match command {
        InputCommand::MouseButton { button, down, .. } => if down {
            mask | shared_input::button_bit(button)
        } else {
            mask & !shared_input::button_bit(button)
        },
        _ => mask,
    }
}

proof fn lemma_filter_step(keys: Seq<u16>, key_code: u16, i: int)
    requires
        0 <= i < keys.len(),
    ensures
        keys.take(i + 1).filter(|pressed: u16| pressed != key_code) == if keys[i] != key_code {
            keys.take(i).filter(|pressed: u16| pressed != key_code).push(keys[i])
        } else {
            keys.take(i).filter(|pressed: u16| pressed != key_code)
        },
{
    reveal(Seq::filter);
    assert(keys.take(i + 1).drop_last() =~= keys.take(i));
    assert(keys.take(i + 1).last() == keys[i]);
}

fn keys_without(keys: &Vec<u16>, key_code: u16) -> (kept: Vec<u16>)
    ensures
        kept@ == keys@.filter(|pressed: u16| pressed != key_code),
{
    let mut kept: Vec<u16> = Vec::new();
    proof {
        reveal(Seq::filter);
        assert(keys@.take(0).filter(|pressed: u16| pressed != key_code) =~= Seq::<u16>::empty());
    }
    for i in 0..keys.len()
        invariant
            kept@ == keys@.take(i as int).filter(|pressed: u16| pressed != key_code),
    {
        proof {
            lemma_filter_step(keys@, key_code, i as int);
        }
        if keys[i] != key_code {
            kept.push(keys[i]);
        }
    }
    assert(keys@.take(keys@.len() as int) =~= keys@);
    kept
}

fn is_pressed(keys: &Vec<u16>, key_code: u16) -> (pressed: bool)
    ensures
        pressed == keys@.contains(key_code),
{
    for i in 0..keys.len()
        invariant
            forall|j: int| 0 <= j < i ==> keys@[j] != key_code,
    {
        if keys[i] == key_code {
            return true;
        }
    }
    false
}

/// Remembers what a command presses and forgets what it releases.
pub fn track_pressed_inputs(
    command: &InputCommand,
    pressed_keys: &mut Vec<u16>,
    button_mask: &mut u64,
)
    ensures
        final(pressed_keys)@ == tracked_keys(old(pressed_keys)@, *command),
        *final(button_mask) == tracked_mask(*old(button_mask), *command),
{
    match *command {
        InputCommand::MouseButton { button, down, .. } => {
            if down {
                *button_mask = *button_mask | shared_input::mouse_button_mask(button);
            } else {
                *button_mask = *button_mask & !shared_input::mouse_button_mask(button);
            }
        },
        InputCommand::Key { key_code, down } => {
            if down {
                if !is_pressed(pressed_keys, key_code) {
                    pressed_keys.push(key_code);
                }
            } else {
                *pressed_keys = keys_without(pressed_keys, key_code);
            }
        },
        _ => {},
    }
}

/// The release of `button`, if it is in `mask`.
pub open spec fn button_release(mask: u64, button: MouseButton) -> Seq<InputAction> {
    if shared_input::in_mask(mask, button) {
        seq![InputAction::Button(inject::button_input(button, false))]
    } else {
        seq![]
    }
}

/// The actions that let go of everything pressed: the keys, the last one first,
/// then the left, right and middle buttons. No cursor moves.
pub open spec fn release_actions(keys: Seq<u16>, mask: u64) -> Seq<InputAction> {
    inject::key_ups(keys) + button_release(mask, MouseButton::Left) + button_release(
        mask,
        MouseButton::Right,
    ) + button_release(mask, MouseButton::Middle)
}

fn release_button(actions: &mut Vec<InputAction>, mask: u64, button: MouseButton)
    ensures
        final(actions)@ == old(actions)@ + button_release(mask, button),
{
    let nowhere = VirtualScreen { x: 0, y: 0, width: 0, height: 0 };
    if mask & shared_input::mouse_button_mask(button) != 0 {
        let mut release = inject::inject_mouse_button(button, false, 0, 0, &nowhere);
        assert(release@ =~= button_release(mask, button));
        actions.append(&mut release);
    } else {
        assert(actions@ =~= actions@ + button_release(mask, button));
    }
}

/// Lets go of everything pressed, and forgets it.
pub fn release_pressed_inputs(pressed_keys: &mut Vec<u16>, button_mask: &mut u64) -> (actions: Vec<
    InputAction,
>)
    ensures
        actions@ == release_actions(old(pressed_keys)@, *old(button_mask)),
        final(pressed_keys)@ == Seq::<u16>::empty(),
        *final(button_mask) == 0,
{
    let mut actions = inject::inject_key_releases(pressed_keys.as_slice());
    pressed_keys.clear();
    let mask: u64 = *button_mask;
    release_button(&mut actions, mask, MouseButton::Left);
    release_button(&mut actions, mask, MouseButton::Right);
    release_button(&mut actions, mask, MouseButton::Middle);
    *button_mask = 0;
    actions
}

/// The keys remembered as pressed after a command was performed.
pub open spec fn keys_after(keys: Seq<u16>, command: InputCommand) -> Seq<u16> {
    if command is ReleaseAll {
        Seq::empty()
    } else {
        tracked_keys(keys, command)
    }
}

/// The mask of buttons remembered as pressed after a command was performed.
pub open spec fn mask_after(mask: u64, command: InputCommand) -> u64 {
    if command is ReleaseAll {
        0
    } else {
        tracked_mask(mask, command)
    }
}

/// The actions of a command while `keys` and the buttons of `mask` are pressed.
pub open spec fn performed(
    command: InputCommand,
    keys: Seq<u16>,
    mask: u64,
    screen: VirtualScreen,
) -> Seq<InputAction> {
    if command is ReleaseAll {
        release_actions(keys, mask)
    } else {
        inject::command_actions(command, screen)
    }
}

/// Performs a command and keeps track of what is pressed; a command to release
/// everything lets go of it all.
pub fn inject_command(
    command: &InputCommand,
    pressed_keys: &mut Vec<u16>,
    button_mask: &mut u64,
    screen: &VirtualScreen,
) -> (actions: Vec<InputAction>)
    requires
        inject::command_movable(*command, *screen),
    ensures
        actions@ == performed(*command, old(pressed_keys)@, *old(button_mask), *screen),
        final(pressed_keys)@ == keys_after(old(pressed_keys)@, *command),
        *final(button_mask) == mask_after(*old(button_mask), *command),
{
    if matches!(*command, InputCommand::ReleaseAll) {
        return release_pressed_inputs(pressed_keys, button_mask);
    }
    track_pressed_inputs(command, pressed_keys, button_mask);
    inject::inject_command_without_tracking(command, screen)
}

/// Whether `released` comes of letting go of everything on the desktop `attached`,
/// while `keys` and the buttons of `mask` are pressed, and leaves those pressed
/// that are named last.
pub open spec fn released_there(
    attached: Result<String, String>,
    keys: Seq<u16>,
    mask: u64,
    released: Result<(String, Vec<InputAction>), String>,
    keys_left: Seq<u16>,
    mask_left: u64,
) -> bool {
    match (attached, released) {
        (Ok(name), Ok(r)) => r.0@ == name@ && r.1@ == release_actions(keys, mask) && keys_left
            == Seq::<u16>::empty() && mask_left == 0,
        (Err(error), Err(e)) => e@ == error@ && keys_left == keys && mask_left == mask,
        _ => false,
    }
}

/// Lets go of everything pressed on the desktop that now takes input;
/// `attached` is the name of that desktop, or why the thread could not be
/// attached to it. Without an attachment nothing is released and nothing is
/// forgotten.
pub fn release_pressed_inputs_on_fresh_input_desktop(
    attached: Result<String, String>,
    pressed_keys: &mut Vec<u16>,
    button_mask: &mut u64,
) -> (released: Result<(String, Vec<InputAction>), String>)
    ensures
        released_there(
            attached,
            old(pressed_keys)@,
            *old(button_mask),
            released,
            final(pressed_keys)@,
            *final(button_mask),
        ),
{
    match attached {
        Ok(name) => {
            let actions = release_pressed_inputs(pressed_keys, button_mask);
            Ok((name, actions))
        },
        Err(error) => Err(error),
    }
}

/// No key is ever remembered twice.
pub proof fn keys_stay_distinct(keys: Seq<u16>, command: InputCommand)
    requires
        keys.no_duplicates(),
    ensures
        tracked_keys(keys, command).no_duplicates(),
{
    if let InputCommand::Key { key_code, down } = command {
        if !down {
            lemma_filter_keeps(keys, key_code);
        }
    }
}

proof fn lemma_filter_keeps(keys: Seq<u16>, key_code: u16)
    ensures
        ({
            let kept = keys.filter(|pressed: u16| pressed != key_code);
            &&& forall|key: u16| #[trigger]
                kept.contains(key) <==> keys.contains(key) && key != key_code
            &&& keys.no_duplicates() ==> kept.no_duplicates()
            &&& !keys.contains(key_code) ==> kept == keys
        }),
    decreases keys.len(),
{
    reveal(Seq::filter);
    let kept = keys.filter(|pressed: u16| pressed != key_code);
    if keys.len() > 0 {
        let front = keys.drop_last();
        let last = keys.last();
        lemma_filter_keeps(front, key_code);
        let kept_front = front.filter(|pressed: u16| pressed != key_code);
        assert(keys =~= front.push(last));
        assert forall|key: u16| #[trigger]
            kept.contains(key) <==> keys.contains(key) && key != key_code by {
            if keys.contains(key) {
                let i = choose|i: int| 0 <= i < keys.len() && keys[i] == key;
                if i < front.len() {
                    assert(front[i] == key);
                    assert(front.contains(key));
                    if key != key_code {
                        assert(kept_front.contains(key));
                        let j = choose|j: int| 0 <= j < kept_front.len() && kept_front[j] == key;
                        assert(kept[j] == key);
                    }
                } else if key != key_code {
                    assert(kept.last() == key);
                }
            }
            if kept.contains(key) {
                let i = choose|i: int| 0 <= i < kept.len() && kept[i] == key;
                if i < kept_front.len() {
                    assert(kept_front[i] == key);
                    assert(kept_front.contains(key));
                    assert(front.contains(key));
                    let j = choose|j: int| 0 <= j < front.len() && front[j] == key;
                    assert(keys[j] == key);
                } else {
                    assert(key == last);
                    assert(keys[keys.len() - 1] == key);
                }
            }
        }
        if keys.no_duplicates() {
            assert(front.no_duplicates());
            assert(!front.contains(last)) by {
                if front.contains(last) {
                    let i = choose|i: int| 0 <= i < front.len() && front[i] == last;
                    assert(keys[i] == keys[keys.len() - 1]);
                }
            }
            if last != key_code {
                assert(!kept_front.contains(last));
                assert(kept =~= kept_front.push(last));
            }
        }
        if !keys.contains(key_code) {
            assert(!front.contains(key_code)) by {
                if front.contains(key_code) {
                    let i = choose|i: int| 0 <= i < front.len() && front[i] == key_code;
                    assert(keys[i] == key_code);
                }
            }
            assert(keys[keys.len() - 1] != key_code);
            assert(kept =~= keys);
        }
    } else {
        assert(kept =~= keys);
    }
}

/// A key counts as pressed from the moment it goes down until it comes up, and
/// no other key is touched by that.
pub proof fn key_is_pressed_until_released(keys: Seq<u16>, key_code: u16, down: bool, other: u16)
    requires
        other != key_code,
    ensures
        tracked_keys(keys, InputCommand::Key { key_code, down }).contains(key_code) == down,
        tracked_keys(keys, InputCommand::Key { key_code, down }).contains(other)
            == keys.contains(other),
{
    if down {
        if !keys.contains(key_code) {
            let after = keys.push(key_code);
            assert(after[keys.len() as int] == key_code);
            if keys.contains(other) {
                let i = choose|i: int| 0 <= i < keys.len() && keys[i] == other;
                assert(after[i] == other);
            }
            if after.contains(other) {
                let i = choose|i: int| 0 <= i < after.len() && after[i] == other;
                assert(keys[i] == other);
            }
        }
    } else {
        lemma_filter_keeps(keys, key_code);
    }
}

/// Pressing a key that was not pressed and releasing it again leaves no trace.
pub proof fn release_undoes_press(keys: Seq<u16>, key_code: u16)
    requires
        !keys.contains(key_code),
    ensures
        tracked_keys(
            tracked_keys(keys, InputCommand::Key { key_code, down: true }),
            InputCommand::Key { key_code, down: false },
        ) == keys,
{
    reveal(Seq::filter);
    let pressed = keys.push(key_code);
    assert(pressed.drop_last() =~= keys);
    lemma_filter_keeps(keys, key_code);
}

/// A button counts as pressed from the moment it goes down until it comes up,
/// and no other button is touched by that.
pub proof fn button_is_pressed_until_released(
    mask: u64,
    button: MouseButton,
    down: bool,
    x: i32,
    y: i32,
    other: MouseButton,
)
    requires
        other != button,
    ensures
        ({
            let after = tracked_mask(mask, InputCommand::MouseButton { button, down, x, y });
            &&& shared_input::in_mask(after, button) == down
            &&& shared_input::in_mask(after, other) == shared_input::in_mask(mask, other)
        }),
{
    let b = shared_input::button_bit(button);
    let o = shared_input::button_bit(other);
    shared_input::button_bits_are_disjoint(button, other);
    shared_input::button_bits_are_disjoint(button, button);
    assert((mask | b) & b != 0 && (mask & !b) & b == 0) by (bit_vector)
        requires
            b & b != 0,
    ;
    assert((mask | b) & o == mask & o && (mask & !b) & o == mask & o) by (bit_vector)
        requires
            b & o == 0,
    ;
}

/// The keys remembered after one command after another, from nothing pressed.
pub open spec fn keys_of_history(commands: Seq<InputCommand>) -> Seq<u16>
    decreases commands.len(),
{
    if commands.len() == 0 {
        Seq::empty()
    } else {
        keys_after(keys_of_history(commands.drop_last()), commands.last())
    }
}

/// The mask remembered after one command after another, from nothing pressed.
pub open spec fn mask_of_history(commands: Seq<InputCommand>) -> u64
    decreases commands.len(),
{
    if commands.len() == 0 {
        0
    } else {
        mask_after(mask_of_history(commands.drop_last()), commands.last())
    }
}

/// Whether a key is held down after these commands: the latest of them that
/// says anything about the key pressed it.
pub open spec fn key_held(commands: Seq<InputCommand>, key: u16) -> bool
    decreases commands.len(),
{
    if commands.len() == 0 {
        false
    } else {
        match commands.last() {
            InputCommand::ReleaseAll => false,
            InputCommand::Key { key_code, down } if key_code == key => down,
            _ => key_held(commands.drop_last(), key),
        }
    }
}

/// Whether a button is held down after these commands: the latest of them that
/// says anything about the button pressed it.
pub open spec fn button_held(commands: Seq<InputCommand>, button: MouseButton) -> bool
    decreases commands.len(),
{
    if commands.len() == 0 {
        false
    } else {
        match commands.last() {
            InputCommand::ReleaseAll => false,
            InputCommand::MouseButton { button: b, down, .. } if b == button => down,
            _ => button_held(commands.drop_last(), button),
        }
    }
}

/// Whatever commands came, the keys remembered are exactly those held down, each
/// of them once.
pub proof fn remembered_keys_are_those_held(commands: Seq<InputCommand>, key: u16)
    ensures
        keys_of_history(commands).contains(key) == key_held(commands, key),
        keys_of_history(commands).no_duplicates(),
    decreases commands.len(),
{
    if commands.len() > 0 {
        let front = commands.drop_last();
        let before = keys_of_history(front);
        remembered_keys_are_those_held(front, key);
        keys_stay_distinct(before, commands.last());
        if let InputCommand::Key { key_code, down } = commands.last() {
            if key_code == key {
                let other: u16 = if key == 0 {
                    1
                } else {
                    0
                };
                key_is_pressed_until_released(before, key, down, other);
            } else {
                key_is_pressed_until_released(before, key_code, down, key);
            }
        }
    }
}

/// Whatever commands came, the buttons remembered are exactly those held down.
pub proof fn remembered_buttons_are_those_held(commands: Seq<InputCommand>, button: MouseButton)
    ensures
        shared_input::in_mask(mask_of_history(commands), button) == button_held(commands, button),
    decreases commands.len(),
{
    let bit = shared_input::button_bit(button);
    assert(0u64 & bit == 0) by (bit_vector);
    if commands.len() > 0 {
        let front = commands.drop_last();
        let before = mask_of_history(front);
        remembered_buttons_are_those_held(front, button);
        if let InputCommand::MouseButton { button: b, down, x, y } = commands.last() {
            if b == button {
                let other = if button == MouseButton::Left {
                    MouseButton::Right
                } else {
                    MouseButton::Left
                };
                button_is_pressed_until_released(before, button, down, x, y, other);
            } else {
                button_is_pressed_until_released(before, b, down, x, y, button);
            }
        }
    }
}

/// Only button and key commands change what is remembered as pressed.
pub proof fn other_commands_press_nothing(keys: Seq<u16>, mask: u64, command: InputCommand)
    requires
        !(command is Key),
        !(command is MouseButton),
    ensures
        tracked_keys(keys, command) == keys,
        tracked_mask(mask, command) == mask,
{
}

/// Releasing everything lets each remembered key go exactly once, and each of
/// the three main buttons exactly if it is pressed.
pub proof fn release_covers_everything(keys: Seq<u16>, mask: u64)
    ensures
        release_actions(keys, mask).take(keys.len() as int) == inject::key_ups(keys),
        forall|i: int|
            0 <= i < keys.len() ==> #[trigger] release_actions(keys, mask)[keys.len() - 1 - i]
                == inject::key_action(keys[i], false),
        release_actions(keys, mask).len() == keys.len() + button_release(
            mask,
            MouseButton::Left,
        ).len() + button_release(mask, MouseButton::Right).len() + button_release(
            mask,
            MouseButton::Middle,
        ).len(),
        forall|button: MouseButton|
            button != MouseButton::Back && button != MouseButton::Forward ==> (
            #[trigger] release_actions(keys, mask).contains(
                InputAction::Button(inject::button_input(button, false)),
            )) == shared_input::in_mask(mask, button),
{
    let all = release_actions(keys, mask);
    let ups = inject::key_ups(keys);
    let left = button_release(mask, MouseButton::Left);
    let right = button_release(mask, MouseButton::Right);
    let middle = button_release(mask, MouseButton::Middle);
    let n = keys.len() as int;
    assert(all.take(n) =~= ups);
    assert forall|i: int| 0 <= i < keys.len() implies #[trigger] all[keys.len() - 1 - i]
        == inject::key_action(keys[i], false) by {
        assert(ups[n - 1 - i] == inject::key_action(keys[i], false));
    }
    assert forall|button: MouseButton|
        button != MouseButton::Back && button != MouseButton::Forward implies (
    #[trigger] all.contains(InputAction::Button(inject::button_input(button, false))))
        == shared_input::in_mask(mask, button) by {
        let release = InputAction::Button(inject::button_input(button, false));
        assert(forall|i: int| 0 <= i < n ==> !(#[trigger] all[i] is Button)) by {
            assert forall|i: int| 0 <= i < n implies !(#[trigger] all[i] is Button) by {
                assert(all[i] == ups[i]);
            }
        }
        if shared_input::in_mask(mask, button) {
            let at = match button {
                MouseButton::Left => n,
                MouseButton::Right => n + left.len(),
                _ => n + left.len() + right.len(),
            };
            assert(all[at] == release);
        }
        if all.contains(release) {
            let at = choose|at: int| 0 <= at < all.len() && all[at] == release;
            assert(at >= n);
            if at < n + left.len() {
                assert(all[at] == left[at - n]);
            } else if at < n + left.len() + right.len() {
                assert(all[at] == right[at - n - left.len()]);
            } else {
                assert(all[at] == middle[at - n - left.len() - right.len()]);
            }
        }
    }
}

/// A key that goes down while it is up is remembered behind all others, one that
/// goes down again changes nothing, and one that comes up leaves the others in
/// their order.
pub proof fn keys_are_remembered_in_order(before: Seq<u16>, key_code: u16, after: Seq<u16>)
    requires
        !before.contains(key_code),
        !after.contains(key_code),
    ensures
        tracked_keys(before, InputCommand::Key { key_code, down: true }) == before + seq![key_code],
        tracked_keys(
            before + seq![key_code] + after,
            InputCommand::Key { key_code, down: true },
        ) == before + seq![key_code] + after,
        tracked_keys(
            before + seq![key_code] + after,
            InputCommand::Key { key_code, down: false },
        ) == before + after,
{
    let all = before + seq![key_code] + after;
    assert(all[before.len() as int] == key_code);
    assert(before + seq![key_code] =~= before.push(key_code));
    lemma_release_between(before, key_code, after);
}

proof fn lemma_release_between(before: Seq<u16>, key_code: u16, after: Seq<u16>)
    requires
        !before.contains(key_code),
        !after.contains(key_code),
    ensures
        (before + seq![key_code] + after).filter(|pressed: u16| pressed != key_code) == before
            + after,
{
    let keep = |pressed: u16| pressed != key_code;
    Seq::filter_distributes_over_add(before + seq![key_code], after, keep);
    Seq::filter_distributes_over_add(before, seq![key_code], keep);
    lemma_filter_keeps(before, key_code);
    lemma_filter_keeps(after, key_code);
    lemma_filter_keeps(seq![key_code], key_code);
    let gone = seq![key_code].filter(keep);
    assert(gone.len() == 0) by {
        if gone.len() > 0 {
            assert(gone.contains(gone[0]));
            assert(seq![key_code].contains(gone[0]));
        }
    }
    assert(before + gone + after =~= before + after);
}

/// The release flags of the main buttons in `mask`.
pub open spec fn released_flags(mask: u64) -> Seq<u32> {
    (if mask & 1 != 0 {
        seq![0x0004u32]
    } else {
        seq![]
    }) + (if mask & 2 != 0 {
        seq![0x0010u32]
    } else {
        seq![]
    }) + (if mask & 4 != 0 {
        seq![0x0040u32]
    } else {
        seq![]
    })
}

/// A release of everything releases the keys, the last one pressed first, and
/// then those of the left, right and middle buttons that are pressed, in this
/// order and where the cursor is; and that is all that it does.
pub proof fn releases_come_in_order(keys: Seq<u16>, mask: u64, i: int)
    ensures
        release_actions(keys, mask).len() == keys.len() + released_flags(mask).len(),
        0 <= i < keys.len() ==> release_actions(keys, mask)[i] == inject::key_action(
            keys[keys.len() - 1 - i],
            false,
        ),
        0 <= i < released_flags(mask).len() ==> (release_actions(keys, mask)[keys.len() + i] matches
            InputAction::Button(input) && input.flags == released_flags(mask)[i] && input.mouse_data
            == 0 && input.dx == 0 && input.dy == 0),
{
    let n = keys.len() as int;
    if 0 <= i < n {
        inject::chords_press_and_release_in_order(keys, i);
    }
    assert(inject::key_ups(keys).len() == n);
}

/// A command to release everything does that, whatever else a command would do,
/// and leaves nothing remembered as pressed; every other command is performed,
/// and remembered as it presses and releases.
pub proof fn commands_are_performed_and_remembered(
    command: InputCommand,
    keys: Seq<u16>,
    mask: u64,
    screen: VirtualScreen,
)
    ensures
        command == InputCommand::ReleaseAll ==> {
            &&& performed(command, keys, mask, screen) == release_actions(keys, mask)
            &&& keys_after(keys, command).len() == 0
            &&& mask_after(mask, command) == 0
        },
        command != InputCommand::ReleaseAll ==> {
            &&& performed(command, keys, mask, screen) == inject::command_actions(command, screen)
            &&& keys_after(keys, command) == tracked_keys(keys, command)
            &&& mask_after(mask, command) == tracked_mask(mask, command)
        },
{
}

/// On a desktop that the thread is attached to, everything pressed is let go and
/// forgotten. Without one nothing is let go, so nothing is forgotten, and it can
/// be let go later.
pub proof fn what_is_not_released_stays_remembered(
    attached: Result<String, String>,
    keys: Seq<u16>,
    mask: u64,
    released: Result<(String, Vec<InputAction>), String>,
    keys_left: Seq<u16>,
    mask_left: u64,
)
    requires
        released_there(attached, keys, mask, released, keys_left, mask_left),
    ensures
        released is Ok <==> attached is Ok,
        attached is Ok ==> released->Ok_0.0@ == attached->Ok_0@ && released->Ok_0.1@
            == release_actions(keys, mask) && release_actions(keys_left, mask_left).len() == 0,
        attached is Ok ==> keys_left.len() == 0 && mask_left == 0,
        attached is Err ==> released->Err_0@ == attached->Err_0@ && keys_left == keys && mask_left
            == mask,
{
    assert(0u64 & 1u64 == 0 && 0u64 & 2u64 == 0 && 0u64 & 4u64 == 0) by (bit_vector);
    assert(release_actions(Seq::<u16>::empty(), 0).len() == 0);
}

/// A command for a button changes no bit but that of the button, and no key; a
/// command for a key changes no button.
pub proof fn buttons_and_keys_are_remembered_apart(
    keys: Seq<u16>,
    mask: u64,
    bits: u64,
    button: MouseButton,
    key_code: u16,
    down: bool,
    x: i32,
    y: i32,
)
    requires
        bits & shared_input::button_bit(button) == 0,
    ensures
        tracked_mask(mask, InputCommand::MouseButton { button, down, x, y }) & bits == mask & bits,
        tracked_keys(keys, InputCommand::MouseButton { button, down, x, y }) == keys,
        tracked_mask(mask, InputCommand::Key { key_code, down }) == mask,
{
    let bit = shared_input::button_bit(button);
    assert((mask | bit) & bits == mask & bits && (mask & !bit) & bits == mask & bits) by (bit_vector)
        requires
            bits & bit == 0,
    ;
}

} // verus!

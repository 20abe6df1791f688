//! The desktop that takes input, and the thread's attachment to it.

use vstd::multiset::Multiset;
use vstd::prelude::*;
use vstd::string::StringExecFns;
use crate::text;

verus! {

pub const DESKTOP_READOBJECTS: u32 = 0x0001;

pub const DESKTOP_CREATEWINDOW: u32 = 0x0002;

pub const DESKTOP_JOURNALRECORD: u32 = 0x0010;

pub const DESKTOP_JOURNALPLAYBACK: u32 = 0x0020;

pub const DESKTOP_WRITEOBJECTS: u32 = 0x0080;

pub const DESKTOP_SWITCHDESKTOP: u32 = 0x0100;

/// The rights that are asked for on the desktop that takes input. Without
/// playback the system refuses clicks and keys there, though not moves.
pub const INPUT_DESKTOP_ACCESS: u32 = DESKTOP_READOBJECTS | DESKTOP_WRITEOBJECTS
    | DESKTOP_SWITCHDESKTOP | DESKTOP_CREATEWINDOW | DESKTOP_JOURNALPLAYBACK
    | DESKTOP_JOURNALRECORD;

/// What a thread is attached to: the handle of a desktop, zero if there is none,
/// and the name of the desktop.
#[derive(Debug)]
pub struct DesktopAttachment {
    desktop: usize,
    name: String,
}

/// A desktop handle and the name of the desktop.
pub struct AttachedDesktop {
    pub desktop: usize,
    pub name: Seq<char>,
}

impl View for DesktopAttachment {
    type V = AttachedDesktop;

    closed spec fn view(&self) -> AttachedDesktop {
        AttachedDesktop { desktop: self.desktop, name: self.name@ }
    }
}

/// The name that a desktop goes by.
pub open spec fn known_name(name: Option<Seq<char>>) -> Seq<char> {
    match name {
        Some(n) => n,
        None => "<unknown>"@,
    }
}

/// The attachment after an attempt to attach to the desktop `opened`: the new
/// desktop if it was opened and the thread could be switched to it.
pub open spec fn attachment_after(
    before: AttachedDesktop,
    opened: usize,
    name: Option<Seq<char>>,
    switched: bool,
) -> AttachedDesktop {
    if opened != 0 && switched {
        AttachedDesktop { desktop: opened, name: known_name(name) }
    } else {
        before
    }
}

/// The handle to close after an attempt to attach to the desktop `opened`: the
/// new one if it is of no use, the old one if it is replaced.
pub open spec fn handle_closed(before: AttachedDesktop, opened: usize, switched: bool) -> Option<
    usize,
> {
    if opened == 0 {
        None
    } else if !switched {
        Some(opened)
    } else if before.desktop != 0 {
        Some(before.desktop)
    } else {
        None
    }
}

/// What comes of an attempt to attach to the desktop `opened`: its name, or what
/// went wrong.
pub open spec fn attach_outcome(opened: usize, name: Option<Seq<char>>, switched: bool) -> Result<
    Seq<char>,
    Seq<char>,
> {
    if opened == 0 {
        Err("OpenInputDesktop failed"@)
    } else if !switched {
        Err("SetThreadDesktop failed for "@ + known_name(name))
    } else {
        Ok(known_name(name))
    }
}

/// The handle that an attachment holds.
pub open spec fn held_handle(attachment: AttachedDesktop) -> Option<usize> {
    if attachment.desktop != 0 {
        Some(attachment.desktop)
    } else {
        None
    }
}

impl DesktopAttachment {
    /// Attached to nothing.
    pub fn new() -> (attachment: Self)
        ensures
            attachment@.desktop == 0,
            attachment@.name == Seq::<char>::empty(),
    {
        DesktopAttachment { desktop: 0, name: String::new() }
    }

    /// Takes note of an attempt to attach to the desktop that takes input:
    /// `opened` is its handle (zero if it could not be opened), `name` what it is
    /// called if the system would say, and `switched` whether the thread was
    /// switched to it. Gives the name, or what went wrong, and the handle that is
    /// to be closed now.
    ///
    /// The thread is attached anew each time, even if the name is the same: after
    /// a switch of the secure desktop another desktop may go by the same name.
    pub fn attach_current_input_desktop(
        &mut self,
        opened: usize,
        name: Option<String>,
        switched: bool,
    ) -> (result: (Result<String, String>, Option<usize>))
        ensures
            final(self)@ == attachment_after(old(self)@, opened, name_text(name), switched),
            result.1 == handle_closed(old(self)@, opened, switched),
            match result.0 {
                Ok(n) => attach_outcome(opened, name_text(name), switched) == Ok::<
                    Seq<char>,
                    Seq<char>,
                >(n@),
                Err(e) => attach_outcome(opened, name_text(name), switched) == Err::<
                    Seq<char>,
                    Seq<char>,
                >(e@),
            },
            match result.0 {
                Ok(n) => opened != 0 && switched && n@ == known_name(name_text(name)),
                Err(e) => if opened == 0 {
                    e@ == "OpenInputDesktop failed"@
                } else {
                    !switched && e@ == "SetThreadDesktop failed for "@ + known_name(name_text(name))
                },
            },
    {
        if opened == 0 {
            return (Err("OpenInputDesktop failed".to_owned()), None);
        }
        let name: String = match name {
            Some(name) => name,
            None => "<unknown>".to_owned(),
        };
        if !switched {
            let error = "SetThreadDesktop failed for ".to_owned().concat(name.as_str());
            return (Err(error), Some(opened));
        }
        let closed: Option<usize> = if self.desktop != 0 {
            Some(self.desktop)
        } else {
            None
        };
        self.desktop = opened;
        self.name = name.clone();
        (Ok(name), closed)
    }

    /// The handle to close when the attachment is given up.
    pub fn handle_to_close(&self) -> (handle: Option<usize>)
        ensures
            handle == held_handle(self@),
    {
        if self.desktop != 0 {
            Some(self.desktop)
        } else {
            None
        }
    }

    /// The name of the desktop that the thread is attached to.
    pub fn name(&self) -> (name: &str)
        ensures
            name@ == self@.name,
    {
        self.name.as_str()
    }
}

/// The text of a name, if there is one.
pub open spec fn name_text(name: Option<String>) -> Option<Seq<char>> {
    match name {
        Some(n) => Some(n@),
        None => None,
    }
}

/// One handle, or none for zero.
pub open spec fn one_handle(handle: usize) -> Multiset<usize> {
    if handle != 0 {
        Multiset::singleton(handle)
    } else {
        Multiset::empty()
    }
}

/// No handle is lost and none is closed twice: what was held and what was opened
/// is what is held afterwards and what is closed.
pub proof fn handles_are_accounted_for(
    before: AttachedDesktop,
    opened: usize,
    name: Option<Seq<char>>,
    switched: bool,
)
    ensures
        one_handle(before.desktop).add(one_handle(opened)) == one_handle(
            attachment_after(before, opened, name, switched).desktop,
        ).add(
            match handle_closed(before, opened, switched) {
                Some(handle) => one_handle(handle),
                None => Multiset::empty(),
            },
        ),
{
    broadcast use vstd::multiset::group_multiset_axioms;
    let all = one_handle(before.desktop).add(one_handle(opened));
    let after = one_handle(attachment_after(before, opened, name, switched).desktop).add(
        match handle_closed(before, opened, switched) {
            Some(handle) => one_handle(handle),
            None => Multiset::empty(),
        },
    );
    assert(all =~= after);
}

/// The units of `buffer` before its first zero, or all of them.
pub open spec fn until_zero(buffer: Seq<u16>) -> Seq<u16>
    decreases buffer.len(),
{
    if buffer.len() == 0 || buffer[0] == 0 {
        Seq::empty()
    } else {
        seq![buffer[0]] + until_zero(buffer.drop_first())
    }
}

proof fn lemma_until_zero(buffer: Seq<u16>, n: int)
    requires
        0 <= n <= buffer.len(),
        forall|i: int| 0 <= i < n ==> buffer[i] != 0,
        n < buffer.len() ==> buffer[n] == 0,
    ensures
        until_zero(buffer) == buffer.take(n),
    decreases buffer.len(),
{
    if n == 0 {
        assert(buffer.take(0) =~= Seq::<u16>::empty());
    } else {
        let rest = buffer.drop_first();
        lemma_until_zero(rest, n - 1);
        assert(seq![buffer[0]] + rest.take(n - 1) =~= buffer.take(n));
    }
}

/// The name of a desktop that the system answered with, if it did.
pub open spec fn answered_name(answered: bool, needed: u32, buffer: Seq<u16>) -> Option<Seq<char>> {
    if answered && needed != 0 {
        Some(text::utf16_text(until_zero(buffer)))
    } else {
        None
    }
}

/// The name of a desktop, from what the system answered when asked for it:
/// whether it answered, how many bytes the answer takes, and the buffer that it
/// filled.
pub fn desktop_name(answered: bool, needed: u32, buffer: &[u16]) -> (name: Option<String>)
    ensures
        name_text(name) == answered_name(answered, needed, buffer@),
{
    if !answered || needed == 0 {
        return None;
    }
    let mut size: usize = 0;
    while size < buffer.len() && buffer[size] != 0
        invariant
            size <= buffer@.len(),
            forall|i: int| 0 <= i < size ==> buffer@[i] != 0,
        decreases buffer@.len() - size,
    {
        size = size + 1;
    }
    proof {
        lemma_until_zero(buffer@, size as int);
    }
    let units: &[u16] = vstd::slice::slice_subrange(buffer, 0, size);
    assert(units@ =~= buffer@.take(size as int));
    Some(text::text_from_utf16_lossy(units))
}

/// A thread is attached to a desktop that was opened exactly if it was switched
/// to it, under the name that the system gave, or as unknown; the handle that is
/// of no more use is closed, that of the old desktop then and that of the new one
/// otherwise.
/// Without a switch nothing changes, and what failed is said.
pub proof fn attachments_follow_the_switch(
    before: AttachedDesktop,
    opened: usize,
    said: Option<Seq<char>>,
    switched: bool,
)
    ensures
        ({
            let name = if said is Some {
                said->0
            } else {
                "<unknown>"@
            };
            let after = attachment_after(before, opened, said, switched);
            let closed = handle_closed(before, opened, switched);
            let outcome = attach_outcome(opened, said, switched);
            &&& opened != 0 && switched ==> {
                &&& after.desktop == opened
                &&& after.name == name
                &&& outcome == Ok::<Seq<char>, Seq<char>>(name)
                &&& closed == (if before.desktop != 0 {
                    Some(before.desktop)
                } else {
                    None
                })
            }
            &&& opened != 0 && !switched ==> {
                &&& after == before
                &&& closed == Some(opened)
                &&& outcome == Err::<Seq<char>, Seq<char>>("SetThreadDesktop failed for "@ + name)
            }
            &&& opened == 0 ==> {
                &&& after == before
                &&& closed is None
                &&& outcome == Err::<Seq<char>, Seq<char>>("OpenInputDesktop failed"@)
            }
        }),
        held_handle(attachment_after(before, opened, said, switched)) == (if opened != 0 && switched {
            Some(opened)
        } else if before.desktop != 0 {
            Some(before.desktop)
        } else {
            None
        }),
{
}

/// What the system put before the first zero is the name, if it answered and the
/// answer took any room; whatever follows the zero makes no difference.
pub proof fn names_are_what_was_answered(
    answered: bool,
    needed: u32,
    name: Seq<u16>,
    after: Seq<u16>,
)
    requires
        forall|i: int| 0 <= i < name.len() ==> #[trigger] name[i] != 0,
    ensures
        answered && needed > 0 ==> answered_name(answered, needed, name + seq![0u16] + after)
            == Some(text::utf16_text(name)) && answered_name(answered, needed, name) == Some(
            text::utf16_text(name),
        ),
        !answered ==> answered_name(answered, needed, name + after) is None,
        needed == 0 ==> answered_name(answered, needed, name + after) is None,
{
    let buffer = name + seq![0u16] + after;
    let n = name.len() as int;
    assert forall|i: int| 0 <= i < n implies buffer[i] != 0 by {
        assert(buffer[i] == name[i]);
    }
    assert(buffer[n] == 0);
    lemma_until_zero(buffer, n);
    assert(buffer.take(n) =~= name);
    lemma_until_zero(name, n);
    assert(name.take(n) =~= name);
}

/// The name of a desktop is what the buffer begins with, without a zero in it,
/// and it ends at a zero or with the buffer.
pub proof fn names_end_at_the_first_zero(buffer: Seq<u16>)
    ensures
        until_zero(buffer).len() <= buffer.len(),
        until_zero(buffer) == buffer.take(until_zero(buffer).len() as int),
        forall|i: int| 0 <= i < until_zero(buffer).len() ==> #[trigger] until_zero(buffer)[i] != 0,
        until_zero(buffer).len() < buffer.len() ==> buffer[until_zero(buffer).len() as int] == 0,
    decreases buffer.len(),
{
    if buffer.len() == 0 || buffer[0] == 0 {
        assert(buffer.take(0) =~= Seq::<u16>::empty());
    } else {
        let rest = buffer.drop_first();
        names_end_at_the_first_zero(rest);
        let n = until_zero(rest).len() as int;
        assert(until_zero(buffer) =~= buffer.take(n + 1)) by {
            assert(seq![buffer[0]] + rest.take(n) =~= buffer.take(n + 1));
        }
        if n < rest.len() {
            assert(rest[n] == buffer[n + 1]);
        }
    }
}

/// The rights that are asked for: to read and write objects, to create windows, to
/// record and play back input, and to switch desktops.
pub proof fn input_needs_these_rights()
    ensures
        INPUT_DESKTOP_ACCESS == 0x01B3,
{
    assert(0x01u32 | 0x80u32 | 0x100u32 | 0x02u32 | 0x20u32 | 0x10u32 == 0x01B3u32) by (bit_vector);
}

} // verus!

//! Which program has the focus, as far as it makes a difference.

use vstd::prelude::*;
use crate::text;

verus! {

/// Whether `c` separates the parts of a path.
pub open spec fn is_separator(c: char) -> bool {
    c == '\\' || c == '/'
}

/// The last part of a path.
pub open spec fn file_name(path: Seq<char>) -> Seq<char>
    decreases path.len(),
{
    if path.len() == 0 || is_separator(path.last()) {
        Seq::empty()
    } else {
        file_name(path.drop_last()).push(path.last())
    }
}

/// Whether the program at `path` is Photoshop, by its file name, whatever the
/// case of its letters.
pub open spec fn names_photoshop(path: Seq<char>) -> bool {
    text::occurs(file_name(path).map_values(|c: char| text::ascii_lower(c)), "photoshop"@)
}

proof fn lemma_file_name(path: Seq<char>, start: int)
    requires
        0 <= start <= path.len(),
        forall|i: int| start <= i < path.len() ==> !is_separator(#[trigger] path[i]),
        start > 0 ==> is_separator(path[start - 1]),
    ensures
        file_name(path) == path.skip(start),
    decreases path.len(),
{
    if start == path.len() {
        assert(path.skip(start) =~= Seq::<char>::empty());
    } else {
        let front = path.drop_last();
        assert forall|i: int| start <= i < front.len() implies !is_separator(
            #[trigger] front[i],
        ) by {
            assert(!is_separator(path[i]));
        }
        lemma_file_name(front, start);
        assert(front.skip(start).push(path.last()) =~= path.skip(start));
    }
}

/// The last part of a path holds no separator and ends the path.
pub proof fn file_name_is_the_last_part(path: Seq<char>)
    ensures
        file_name(path).len() <= path.len(),
        file_name(path) == path.skip(path.len() - file_name(path).len()),
        forall|i: int| 0 <= i < file_name(path).len() ==> !is_separator(#[trigger] file_name(path)[i]),
        file_name(path).len() < path.len() ==> is_separator(
            path[path.len() - file_name(path).len() - 1],
        ),
    decreases path.len(),
{
    if path.len() == 0 || is_separator(path.last()) {
        assert(path.skip(path.len() as int) =~= Seq::<char>::empty());
    } else {
        let front = path.drop_last();
        file_name_is_the_last_part(front);
        let start = front.len() - file_name(front).len();
        assert(front.skip(start).push(path.last()) =~= path.skip(start));
    }
}

fn last_part(path: &Vec<char>) -> (name: Vec<char>)
    ensures
        name@ == file_name(path@),
{
    let mut start: usize = path.len();
    while start > 0 && path[start - 1] != '\\' && path[start - 1] != '/'
        invariant
            start <= path@.len(),
            forall|i: int| start <= i < path@.len() ==> !is_separator(#[trigger] path@[i]),
        decreases start,
    {
        start = start - 1;
    }
    proof {
        lemma_file_name(path@, start as int);
    }
    let mut name: Vec<char> = Vec::new();
    for i in start..path.len()
        invariant
            start <= path@.len(),
            name@ == path@.subrange(start as int, i as int),
    {
        name.push(path[i]);
        assert(name@ =~= path@.subrange(start as int, i + 1));
    }
    assert(name@ =~= path@.skip(start as int));
    name
}

/// Whether the program at `path` is Photoshop.
pub fn is_photoshop_image(path: &str) -> (photoshop: bool)
    ensures
        photoshop == names_photoshop(path@),
{
    let chars = text::characters(path);
    let name = last_part(&chars);
    let lower = text::ascii_lowercase(&name);
    let wanted = text::characters("photoshop");
    text::contains_text(&lower, &wanted)
}

/// Whether the program whose image is at the path of these UTF-16 units, if that
/// is known, is Photoshop.
pub open spec fn photoshop_has_focus(image_path: Option<Seq<u16>>) -> bool {
    image_path matches Some(units) && names_photoshop(text::utf16_text(units))
}

/// The units of a path, if there is one.
pub open spec fn path_units(image_path: Option<&[u16]>) -> Option<Seq<u16>> {
    match image_path {
        Some(units) => Some(units@),
        None => None,
    }
}

/// Whether the program that has the focus is Photoshop; `image_path` is the path
/// of its image as the system gave it, or `None` if any question on the way to
/// it went unanswered.
pub fn windows_foreground_process_is_photoshop(image_path: Option<&[u16]>) -> (photoshop: bool)
    ensures
        photoshop == photoshop_has_focus(path_units(image_path)),
{
    match image_path {
        Some(units) => {
            let path = text::text_from_utf16_lossy(units);
            is_photoshop_image(path.as_str())
        },
        None => false,
    }
}

/// Only the last part of a path counts: what stands before the last separator,
/// either of the two, makes no difference.
pub proof fn only_the_last_part_counts(directory: Seq<char>, separator: char, name: Seq<char>)
    requires
        separator == '\\' || separator == '/',
        forall|i: int| 0 <= i < name.len() ==> #[trigger] name[i] != '\\' && name[i] != '/',
    ensures
        file_name(directory + seq![separator] + name) == name,
        file_name(name) == name,
        names_photoshop(directory + seq![separator] + name) == names_photoshop(name),
{
    let path = directory + seq![separator] + name;
    let start = directory.len() as int + 1;
    assert(path[start - 1] == separator);
    assert forall|i: int| start <= i < path.len() implies !is_separator(#[trigger] path[i]) by {
        assert(path[i] == name[i - start]);
    }
    lemma_file_name(path, start);
    assert(path.skip(start) =~= name);
    assert forall|i: int| 0 <= i < name.len() implies !is_separator(#[trigger] name[i]) by {
        assert(name[i] != '\\' && name[i] != '/');
    }
    lemma_file_name(name, 0);
    assert(name.skip(0) =~= name);
}

/// Whether `word` is the name of the program, in capitals or not.
pub open spec fn spells_photoshop(word: Seq<char>) -> bool {
    word.len() == 9 && forall|i: int|
        0 <= i < 9 ==> (#[trigger] word[i] == "photoshop"@[i] || word[i] as int + 32
            == "photoshop"@[i] as int)
}

/// A program is taken for Photoshop wherever its file name spells it, whatever
/// stands around it and whatever the case of the letters.
pub proof fn photoshop_is_found_in_any_case(before: Seq<char>, word: Seq<char>, after: Seq<char>)
    requires
        spells_photoshop(word),
        forall|i: int|
            0 <= i < (before + word + after).len() ==> #[trigger] (before + word + after)[i] != '\\'
                && (before + word + after)[i] != '/',
    ensures
        names_photoshop(before + word + after),
{
    reveal_strlit("photoshop");
    let name = before + word + after;
    let lower = |c: char| text::ascii_lower(c);
    assert forall|i: int| 0 <= i < name.len() implies !is_separator(#[trigger] name[i]) by {
        assert(name[i] != '\\' && name[i] != '/');
    }
    lemma_file_name(name, 0);
    assert(name.skip(0) =~= name);
    assert(word.map_values(lower) =~= "photoshop"@) by {
        assert forall|i: int| 0 <= i < 9 implies text::ascii_lower(#[trigger] word[i])
            == "photoshop"@[i] by {
            text::only_capitals_are_lowered(word[i]);
        }
    }
    assert(name.map_values(lower) =~= before.map_values(lower) + word.map_values(lower)
        + after.map_values(lower));
    text::what_stands_between_occurs(
        before.map_values(lower),
        "photoshop"@,
        after.map_values(lower),
    );
}

/// A program is taken for Photoshop only if its file name spells it somewhere.
pub proof fn only_photoshop_is_taken_for_it(path: Seq<char>) -> (at: int)
    requires
        names_photoshop(path),
    ensures
        0 <= at,
        at + 9 <= file_name(path).len(),
        spells_photoshop(file_name(path).subrange(at, at + 9)),
{
    reveal_strlit("photoshop");
    let name = file_name(path);
    let low = name.map_values(|c: char| text::ascii_lower(c));
    let (before, after) = text::what_occurs_stands_between(low, "photoshop"@);
    let at = before.len() as int;
    let word = name.subrange(at, at + 9);
    assert forall|i: int| 0 <= i < 9 implies (#[trigger] word[i] == "photoshop"@[i] || word[i] as int
        + 32 == "photoshop"@[i] as int) by {
        assert(low[at + i] == "photoshop"@[i]);
        text::only_capitals_are_lowered(word[i]);
    }
    at
}

/// A program whose path is not known is not taken for Photoshop; any other goes by
/// the text of its path.
pub proof fn focus_goes_by_the_path(units: Seq<u16>)
    ensures
        !photoshop_has_focus(None),
        photoshop_has_focus(Some(units)) == names_photoshop(text::utf16_text(units)),
{
}

} // verus!

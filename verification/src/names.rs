//! The rule for entity names: never blank, never longer than 255 characters,
//! checked before anything is changed.

use crate::text::{char_count, decimal, is_blank, is_blank_str, join2, push_decimal};
use vstd::prelude::*;
use vstd::string::*;

verus! {

/// The longest accepted name, in characters.
pub const MAX_NAME_CHARS: usize = 255;

/// The names that may be given to a project or a component.
pub open spec fn name_accepted(name: Seq<char>) -> bool {
    !is_blank(name) && name.len() <= MAX_NAME_CHARS
}

/// Why `name` is refused as the name of a `subject` ("Project",
/// "Component"), or `None` where it is accepted.
pub open spec fn name_rejection(subject: Seq<char>, name: Seq<char>) -> Option<Seq<char>> {
    if is_blank(name) {
        Some(subject + " name cannot be empty"@)
    } else if name.len() > MAX_NAME_CHARS {
        Some(subject + " name too long: "@ + decimal(name.len()) + " characters (max 255)"@)
    } else {
        None
    }
}

/// Checks `name` against the rule for names and, where it is refused, says
/// why.
pub fn reject_name(subject: &str, name: &str) -> (r: Option<String>)
    ensures
        r is None <==> name_accepted(name@),
        match r {
            Some(details) => name_rejection(subject@, name@) == Some(details@),
            None => name_rejection(subject@, name@) is None,
        },
{
    if is_blank_str(name) {
        return Some(join2(subject, " name cannot be empty"));
    }
    let n = char_count(name);
    if n > MAX_NAME_CHARS {
        let mut details = join2(subject, " name too long: ");
        push_decimal(&mut details, n);
        details.append(" characters (max 255)");
        return Some(details);
    }
    None
}

} // verus!

//! The filename validator: which names may be used for a staged file.
//!
//! A name is only ever accepted or rejected; it is never rewritten.

use crate::error::{ApiError, ErrorReport};
use crate::text::{
    ascii_upper, ascii_uppercase, char_is_whitespace, decimal, is_blank, is_whitespace, join3,
    push_decimal, to_chars,
};
use vstd::prelude::*;
use vstd::string::*;

verus! {

/// The longest accepted name, in characters.
pub const MAX_FILENAME_CHARS: usize = 255;

/// A directory separator of either platform style.
pub open spec fn is_separator(c: char) -> bool {
    c == '/' || c == '\\'
}

/// `s` holds a directory separator.
pub open spec fn has_separator(s: Seq<char>) -> bool {
    exists|i: int| 0 <= i < s.len() && is_separator(#[trigger] s[i])
}

/// `s` is the current-directory or the parent-directory segment.
pub open spec fn is_dot_segment(s: Seq<char>) -> bool {
    s == seq!['.'] || s == seq!['.', '.']
}

/// The final path component of `s`: what follows its last separator.
pub open spec fn final_component(s: Seq<char>) -> Seq<char>
    decreases s.len(),
{
    if s.len() == 0 || is_separator(s.last()) {
        Seq::empty()
    } else {
        final_component(s.drop_last()).push(s.last())
    }
}

/// The index of the last `.` in `s`, or -1 where it has none.
pub open spec fn last_dot(s: Seq<char>) -> int
    decreases s.len(),
{
    if s.len() == 0 {
        -1
    } else if s.last() == '.' {
        s.len() - 1
    } else {
        last_dot(s.drop_last())
    }
}

/// The name with its extension stripped: what stands before the last `.`,
/// or the whole name where it has no `.` or only a leading one.
pub open spec fn file_stem(name: Seq<char>) -> Seq<char> {
    if last_dot(name) <= 0 {
        name
    } else {
        name.take(last_dot(name))
    }
}

/// `stem` is, in any letter case, one of the device names CON, PRN, AUX, NUL,
/// COM1 to COM9 and LPT1 to LPT9.
pub open spec fn is_reserved_name(stem: Seq<char>) -> bool {
    let u = ascii_uppercase(stem);
    ||| u == seq!['C', 'O', 'N']
    ||| u == seq!['P', 'R', 'N']
    ||| u == seq!['A', 'U', 'X']
    ||| u == seq!['N', 'U', 'L']
    ||| (u.len() == 4 && (u.take(3) == seq!['C', 'O', 'M'] || u.take(3) == seq!['L', 'P', 'T'])
        && '1' <= u[3] <= '9')
}

/// A character no name may hold: one of `< > : " | ? *`, a control code
/// below U+0020, or DEL.
pub open spec fn is_forbidden_char(c: char) -> bool {
    ||| c == '<'
    ||| c == '>'
    ||| c == ':'
    ||| c == '"'
    ||| c == '|'
    ||| c == '?'
    ||| c == '*'
    ||| (c as u32) < 0x20
    ||| (c as u32) == 0x7F
}

/// `s` holds a forbidden character.
pub open spec fn has_forbidden_char(s: Seq<char>) -> bool {
    exists|i: int| 0 <= i < s.len() && is_forbidden_char(#[trigger] s[i])
}

/// The names that the validator accepts: every rule holds.
pub open spec fn filename_acceptable(name: Seq<char>) -> bool {
    &&& !is_blank(name)
    &&& !has_separator(name)
    &&& !is_dot_segment(name)
    &&& final_component(name) == name
    &&& !is_reserved_name(file_stem(name))
    &&& !has_forbidden_char(name)
    &&& name.len() <= MAX_FILENAME_CHARS
}

/// `"Invalid filename '<name>': <reason>"`.
pub open spec fn invalid_name_details(name: Seq<char>, reason: Seq<char>) -> Seq<char> {
    "Invalid filename '"@ + name + "': "@ + reason
}

/// Why `name` is rejected, by the first rule that it breaks, or `None` where
/// it breaks none.
pub open spec fn filename_rejection(name: Seq<char>) -> Option<Seq<char>> {
    if is_blank(name) {
        Some("File name cannot be empty"@)
    } else if has_separator(name) {
        Some(invalid_name_details(name, "contains path separators"@))
    } else if is_dot_segment(name) {
        Some(invalid_name_details(name, "contains directory traversal patterns"@))
    } else if is_reserved_name(file_stem(name)) {
        Some(invalid_name_details(name, "uses reserved system name"@))
    } else if has_forbidden_char(name) {
        Some(invalid_name_details(name, "contains invalid characters"@))
    } else if name.len() > MAX_FILENAME_CHARS {
        Some("Filename too long: "@ + decimal(name.len()) + " characters (max 255)"@)
    } else {
        None
    }
}

/// A name without separators is its own final path component.
pub proof fn lemma_final_component_without_separator(s: Seq<char>)
    requires
        !has_separator(s),
    ensures
        final_component(s) == s,
    decreases s.len(),
{
    if s.len() > 0 {
        assert(!is_separator(s[s.len() - 1]));
        let t = s.drop_last();
        assert forall|i: int| 0 <= i < t.len() implies !is_separator(#[trigger] t[i]) by {
            assert(t[i] == s[i]);
        }
        lemma_final_component_without_separator(t);
        assert(t.push(s.last()) =~= s);
    } else {
        assert(s =~= Seq::<char>::empty());
    }
}

/// A name is acceptable exactly when no rule rejects it.
pub proof fn lemma_acceptable_iff_not_rejected(name: Seq<char>)
    ensures
        filename_acceptable(name) <==> filename_rejection(name) is None,
{
    if !has_separator(name) {
        lemma_final_component_without_separator(name);
    }
}

fn is_separator_char(c: char) -> (r: bool)
    ensures
        r == is_separator(c),
{
    c == '/' || c == '\\'
}

fn is_forbidden(c: char) -> (r: bool)
    ensures
        r == is_forbidden_char(c),
{
    let n: u32 = c as u32;
    c == '<' || c == '>' || c == ':' || c == '"' || c == '|' || c == '?' || c == '*' || n < 0x20
        || n == 0x7F
}

fn upper(c: char) -> (r: char)
    ensures
        r == ascii_upper(c),
{
    if 'a' <= c && c <= 'z' {
        let b: u8 = c as u8;
        (b - 32) as char
    } else {
        c
    }
}

fn all_whitespace(chars: &Vec<char>) -> (r: bool)
    ensures
        r == is_blank(chars@),
{
    let mut i: usize = 0;
    while i < chars.len()
        invariant
            i <= chars.len(),
            forall|j: int| 0 <= j < i ==> is_whitespace(#[trigger] chars@[j]),
        decreases chars.len() - i,
    {
        if !char_is_whitespace(chars[i]) {
            return false;
        }
        i += 1;
    }
    true
}

fn any_separator(chars: &Vec<char>) -> (r: bool)
    ensures
        r == has_separator(chars@),
{
    let mut i: usize = 0;
    while i < chars.len()
        invariant
            i <= chars.len(),
            forall|j: int| 0 <= j < i ==> !is_separator(#[trigger] chars@[j]),
        decreases chars.len() - i,
    {
        if is_separator_char(chars[i]) {
            return true;
        }
        i += 1;
    }
    false
}

fn any_forbidden(chars: &Vec<char>) -> (r: bool)
    ensures
        r == has_forbidden_char(chars@),
{
    let mut i: usize = 0;
    while i < chars.len()
        invariant
            i <= chars.len(),
            forall|j: int| 0 <= j < i ==> !is_forbidden_char(#[trigger] chars@[j]),
        decreases chars.len() - i,
    {
        if is_forbidden(chars[i]) {
            return true;
        }
        i += 1;
    }
    false
}

/// The length of the stem of `chars`.
fn stem_len(chars: &Vec<char>) -> (n: usize)
    ensures
        n <= chars.len(),
        file_stem(chars@) == chars@.take(n as int),
{
    let len = chars.len();
    let mut i: usize = len;
    proof {
        assert(chars@.take(len as int) =~= chars@);
    }
    while i > 0 && chars[i - 1] != '.'
        invariant
            i <= len,
            len == chars.len(),
            last_dot(chars@) == last_dot(chars@.take(i as int)),
        decreases i,
    {
        proof {
            assert(chars@.take(i as int).drop_last() =~= chars@.take(i - 1));
        }
        i -= 1;
    }
    if i <= 1 {
        proof {
            assert(chars@.take(len as int) =~= chars@);
        }
        len
    } else {
        i - 1
    }
}

/// A sequence equals a three-element literal exactly when it has those
/// three elements.
proof fn lemma_is_triple(u: Seq<char>, x: char, y: char, z: char)
    ensures
        u == seq![x, y, z] <==> u.len() == 3 && u[0] == x && u[1] == y && u[2] == z,
{
    let t = seq![x, y, z];
    assert(t.len() == 3 && t[0] == x && t[1] == y && t[2] == z);
    if u.len() == 3 && u[0] == x && u[1] == y && u[2] == z {
        assert(u =~= t);
    }
}

fn is_reserved_stem(chars: &Vec<char>, n: usize) -> (r: bool)
    requires
        n <= chars.len(),
    ensures
        r == is_reserved_name(chars@.take(n as int)),
{
    let ghost u = ascii_uppercase(chars@.take(n as int));
    proof {
        lemma_is_triple(u, 'C', 'O', 'N');
        lemma_is_triple(u, 'P', 'R', 'N');
        lemma_is_triple(u, 'A', 'U', 'X');
        lemma_is_triple(u, 'N', 'U', 'L');
        lemma_is_triple(u.take(3), 'C', 'O', 'M');
        lemma_is_triple(u.take(3), 'L', 'P', 'T');
    }
    if n == 3 {
        let a = upper(chars[0]);
        let b = upper(chars[1]);
        let c = upper(chars[2]);
        (a == 'C' && b == 'O' && c == 'N') || (a == 'P' && b == 'R' && c == 'N') || (a == 'A' && b
            == 'U' && c == 'X') || (a == 'N' && b == 'U' && c == 'L')
    } else if n == 4 {
        let a = upper(chars[0]);
        let b = upper(chars[1]);
        let c = upper(chars[2]);
        let d = upper(chars[3]);
        ((a == 'C' && b == 'O' && c == 'M') || (a == 'L' && b == 'P' && c == 'T')) && '1' <= d
            && d <= '9'
    } else {
        false
    }
}

fn invalid_name(file_name: &str, reason: &str) -> (e: ApiError)
    ensures
        e@ == (ErrorReport::InvalidFilename { details: invalid_name_details(file_name@, reason@) }),
        e.cause() is None,
{
    let mut details = join3("Invalid filename '", file_name, "': ");
    details.append(reason);
    ApiError::InvalidFilename { details, source: None }
}

/// Checks that `file_name` is safe to use as the name of a staged file.
///
/// The name is accepted exactly when it is not blank, holds no directory
/// separator, is neither `.` nor `..`, is not a reserved device name once its
/// extension is stripped, holds no forbidden character and has at most 255
/// characters. A rejected name is reported with the first rule that it
/// breaks.
pub fn validate_filename(file_name: &str) -> (r: Result<(), ApiError>)
    ensures
        r is Ok <==> filename_acceptable(file_name@),
        r matches Err(e) ==> filename_rejection(file_name@) == Some(e@->InvalidFilename_details)
            && e@ is InvalidFilename && e.cause() is None,
{
    proof {
        lemma_acceptable_iff_not_rejected(file_name@);
    }
    let chars = to_chars(file_name);
    if all_whitespace(&chars) {
        return Err(
            ApiError::InvalidFilename {
                details: String::from_str("File name cannot be empty"),
                source: None,
            },
        );
    }
    if any_separator(&chars) {
        return Err(invalid_name(file_name, "contains path separators"));
    }
    if (chars.len() == 1 && chars[0] == '.') || (chars.len() == 2 && chars[0] == '.' && chars[1]
        == '.') {
        proof {
            if chars.len() == 1 {
                assert(chars@ =~= seq!['.']);
            } else {
                assert(chars@ =~= seq!['.', '.']);
            }
        }
        return Err(invalid_name(file_name, "contains directory traversal patterns"));
    }
    proof {
        assert(seq!['.'][0] == '.');
        assert(seq!['.', '.'][0] == '.' && seq!['.', '.'][1] == '.');
        assert(!is_dot_segment(chars@));
    }
    let n = stem_len(&chars);
    if is_reserved_stem(&chars, n) {
        return Err(invalid_name(file_name, "uses reserved system name"));
    }
    if any_forbidden(&chars) {
        return Err(invalid_name(file_name, "contains invalid characters"));
    }
    if chars.len() > MAX_FILENAME_CHARS {
        let mut details = String::from_str("Filename too long: ");
        push_decimal(&mut details, chars.len());
        details.append(" characters (max 255)");
        return Err(ApiError::InvalidFilename { details, source: None });
    }
    Ok(())
}

} // verus!

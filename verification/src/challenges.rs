//! Challenge documents: which entries of an imported or exported document
//! count as challenges.
//!
//! A document is a tree of JSON values. Reading and writing its text is the
//! caller's business; this module reads the tree.

use crate::error::{ApiError, ErrorReport, ErrorSource, OperationNames};
use crate::text::{join3, text_is};
use crate::time::Timestamp;
use vstd::prelude::*;
use vstd::string::*;

verus! {

/// A JSON value. A number is kept as the text of its literal; the members of
/// an object are kept in the order of the document.
#[derive(Debug)]
pub enum Json {
    Null,
    Bool(bool),
    Number(String),
    Text(String),
    Array(Vec<Json>),
    Object(Vec<(String, Json)>),
}

/// The value of the first member named `key`, if there is one.
pub open spec fn member(members: Seq<(String, Json)>, key: Seq<char>) -> Option<Json>
    decreases members.len(),
{
    if members.len() == 0 {
        None
    } else if members[0].0@ == key {
        Some(members[0].1)
    } else {
        member(members.drop_first(), key)
    }
}

/// `value` is a text that is not empty.
pub open spec fn is_nonempty_text(value: Option<Json>) -> bool {
    value matches Some(Json::Text(text)) && text@.len() > 0
}

/// `value` is one of the difficulty levels.
pub open spec fn is_difficulty(value: Option<Json>) -> bool {
    value matches Some(Json::Text(text)) && (text@ == "beginner"@ || text@ == "intermediate"@
        || text@ == "advanced"@)
}

/// `entry` is a challenge: an object with non-empty texts `id`, `title`,
/// `description` and `category`, a `difficulty` that is one of `beginner`,
/// `intermediate` and `advanced`, a number `estimatedTime` and an array
/// `requirements`.
pub open spec fn is_challenge(entry: Json) -> bool {
    entry matches Json::Object(members) && {
        &&& is_nonempty_text(member(members@, "id"@))
        &&& is_nonempty_text(member(members@, "title"@))
        &&& is_nonempty_text(member(members@, "description"@))
        &&& is_nonempty_text(member(members@, "category"@))
        &&& is_difficulty(member(members@, "difficulty"@))
        &&& member(members@, "estimatedTime"@) matches Some(Json::Number(_))
        &&& member(members@, "requirements"@) matches Some(Json::Array(_))
    }
}

/// The entries that a document offers: the items of the document where it
/// is an array, else those of its member `challenges` where that is an
/// array, else none.
pub open spec fn entries_of(document: Json) -> Seq<Json> {
    match document {
        Json::Array(items) => items@,
        Json::Object(members) => match member(members@, "challenges"@) {
            Some(Json::Array(items)) => items@,
            _ => Seq::empty(),
        },
        _ => Seq::empty(),
    }
}

/// The entries of `entries` that are challenges, in their order.
pub open spec fn challenges_among(entries: Seq<Json>) -> Seq<Json> {
    entries.filter(|entry: Json| is_challenge(entry))
}

/// The value of the first member named `key`.
fn find_member<'a>(members: &'a Vec<(String, Json)>, key: &str) -> (r: Option<&'a Json>)
    ensures
        match r {
            Some(value) => member(members@, key@) == Some(*value),
            None => member(members@, key@) is None,
        },
{
    let name = String::from_str(key);
    let n = members.len();
    let mut found: Option<&'a Json> = None;
    let mut i: usize = n;
    proof {
        assert(members@.subrange(n as int, n as int) =~= Seq::<(String, Json)>::empty());
    }
    while i > 0
        invariant
            i <= n,
            n == members.len(),
            name@ == key@,
            match found {
                Some(value) => member(members@.subrange(i as int, n as int), key@) == Some(*value),
                None => member(members@.subrange(i as int, n as int), key@) is None,
            },
        decreases i,
    {
        proof {
            assert(members@.subrange(i - 1, n as int).drop_first() =~= members@.subrange(
                i as int,
                n as int,
            ));
        }
        i -= 1;
        if members[i].0 == name {
            found = Some(&members[i].1);
        }
    }
    proof {
        assert(members@.subrange(0, n as int) =~= members@);
    }
    found
}

fn has_nonempty_text(members: &Vec<(String, Json)>, key: &str) -> (r: bool)
    ensures
        r == is_nonempty_text(member(members@, key@)),
{
    match find_member(members, key) {
        Some(Json::Text(text)) => text.as_str().unicode_len() > 0,
        _ => false,
    }
}

/// Whether `entry` is a challenge.
pub fn validate_challenge_value(entry: &Json) -> (r: bool)
    ensures
        r == is_challenge(*entry),
{
    let members = match entry {
        Json::Object(members) => members,
        _ => {
            return false;
        },
    };
    if !has_nonempty_text(members, "id") || !has_nonempty_text(members, "title")
        || !has_nonempty_text(members, "description") || !has_nonempty_text(members, "category") {
        return false;
    }
    let difficulty_ok = match find_member(members, "difficulty") {
        Some(Json::Text(text)) => text_is(text, "beginner") || text_is(text, "intermediate")
            || text_is(text, "advanced"),
        _ => false,
    };
    if !difficulty_ok {
        return false;
    }
    let time_ok = match find_member(members, "estimatedTime") {
        Some(Json::Number(_)) => true,
        _ => false,
    };
    if !time_ok {
        return false;
    }
    match find_member(members, "requirements") {
        Some(Json::Array(_)) => true,
        _ => false,
    }
}

/// The entries of `entries` that are challenges, in their order; the others
/// are dropped without a report.
pub fn keep_challenges(entries: Vec<Json>) -> (r: Vec<Json>)
    ensures
        r@ == challenges_among(entries@),
{
    let ghost keep = |entry: Json| is_challenge(entry);
    let mut r: Vec<Json> = Vec::new();
    proof {
        reveal(Seq::filter);
        assert(entries@.take(0).filter(keep) =~= Seq::<Json>::empty());
    }
    for entry in it: entries
        invariant
            it.seq() == entries@,
            keep == (|entry: Json| is_challenge(entry)),
            r@ == entries@.take(it.index() as int).filter(keep),
    {
        proof {
            reveal(Seq::filter);
            let k = it.index() as int;
            assert(entries@.take(k + 1).drop_last() =~= entries@.take(k));
            assert(entries@.take(k + 1).last() == entry);
        }
        if validate_challenge_value(&entry) {
            r.push(entry);
        }
    }
    proof {
        assert(entries@.take(entries@.len() as int) =~= entries@);
    }
    r
}

/// Takes out of `document` the entries that it offers.
pub fn take_entries(document: Json) -> (r: Vec<Json>)
    ensures
        r@ == entries_of(document),
{
    match document {
        Json::Array(items) => items,
        Json::Object(members) => {
            let ghost all = members@;
            let ghost n = all.len() as int;
            let mut rest = members;
            let name = String::from_str("challenges");
            let mut found: Option<Json> = None;
            proof {
                assert(all.subrange(0, n) =~= all);
                assert(all.subrange(n, n) =~= Seq::<(String, Json)>::empty());
            }
            while rest.len() > 0
                invariant
                    n == all.len(),
                    rest.len() <= n,
                    rest@ == all.subrange(0, rest.len() as int),
                    name@ == "challenges"@,
                    found == member(all.subrange(rest.len() as int, n), "challenges"@),
                decreases rest.len(),
            {
                let ghost k = rest.len() as int;
                let last = rest.pop();
                proof {
                    assert(all.subrange(k - 1, n).drop_first() =~= all.subrange(k, n));
                    assert(rest@ =~= all.subrange(0, k - 1));
                    assert(last == Some(all[k - 1]));
                }
                if let Some((key, value)) = last {
                    if key == name {
                        found = Some(value);
                    }
                }
            }
            match found {
                Some(Json::Array(items)) => items,
                _ => Vec::new(),
            }
        },
        _ => Vec::new(),
    }
}

/// The challenges that an imported document holds: the entries that it
/// offers, without those that are no challenges.
pub fn load_challenges(document: Json) -> (r: Vec<Json>)
    ensures
        r@ == challenges_among(entries_of(document)),
{
    keep_challenges(take_entries(document))
}

/// The document that is written when challenges are exported.
#[derive(Debug)]
pub struct ChallengeExport {
    /// The version of the document format.
    pub version: String,
    /// The exported challenges.
    pub challenges: Vec<Json>,
    /// When the document was made.
    pub exported_at: Timestamp,
}

/// What exporting challenges at the time `now` gives: a document in format
/// version 1.0.0 with those of the given entries that are challenges, or an
/// error where none of them is.
pub open spec fn export_outcome(
    challenges: Seq<Json>,
    now: Timestamp,
    r: Result<ChallengeExport, ApiError>,
) -> bool {
    if challenges_among(challenges).len() == 0 {
        r matches Err(e) && e@ == (ErrorReport::InvalidProjectData {
            details: "No valid challenges to save"@,
        }) && e.cause() is None
    } else {
        r matches Ok(export) && export.version@ == "1.0.0"@ && export.challenges@
            == challenges_among(challenges) && export.exported_at == now
    }
}

/// Makes the document that exports `challenges` at the time `now`.
pub fn export_challenges_at(challenges: Vec<Json>, now: Timestamp) -> (r: Result<
    ChallengeExport,
    ApiError,
>)
    ensures
        export_outcome(challenges@, now, r),
{
    let kept = keep_challenges(challenges);
    if kept.len() == 0 {
        return Err(
            ApiError::InvalidProjectData {
                details: String::from_str("No valid challenges to save"),
                source: None,
            },
        );
    }
    Ok(ChallengeExport { version: String::from_str("1.0.0"), challenges: kept, exported_at: now })
}

/// Makes the document that exports `challenges` at the current time.
pub fn export_challenges(challenges: Vec<Json>) -> (r: Result<ChallengeExport, ApiError>)
    ensures
        exists|now: Timestamp| #[trigger] export_outcome(challenges@, now, r),
{
    let now = Timestamp::now();
    export_challenges_at(challenges, now)
}

/// The error for a challenge file that cannot be read.
pub fn challenge_read_failure(path: &str, failure: std::io::Error) -> (e: ApiError)
    ensures
        e@ is FileSystemError,
        e@->FileSystemError_operation == "file system operation"@,
        ("Failed to read file '"@ + path@ + "': "@).is_prefix_of(e@->FileSystemError_details),
        e.cause() == Some(ErrorSource::Io(failure)),
{
    let context = join3("Failed to read file '", path, "': ");
    ApiError::from_io(OperationNames::FILE_SYSTEM, context.as_str(), failure)
}

/// The error for a challenge file that cannot be written.
pub fn challenge_write_failure(path: &str, failure: std::io::Error) -> (e: ApiError)
    ensures
        e@ is FileSystemError,
        e@->FileSystemError_operation == "file write"@,
        ("Failed to write file '"@ + path@ + "': "@).is_prefix_of(e@->FileSystemError_details),
        e.cause() == Some(ErrorSource::Io(failure)),
{
    let context = join3("Failed to write file '", path, "': ");
    ApiError::from_io(OperationNames::FILE_WRITE, context.as_str(), failure)
}

/// The error for a challenge file that does not hold a JSON document.
pub fn challenge_parse_failure(path: &str, failure: serde_json::Error) -> (e: ApiError)
    ensures
        e@ is SerializationError,
        e@->SerializationError_operation == "serialization operation"@,
        ("Invalid JSON in '"@ + path@ + "': "@).is_prefix_of(e@->SerializationError_details),
        e.cause() == Some(ErrorSource::Json(failure)),
{
    let context = join3("Invalid JSON in '", path, "': ");
    ApiError::from_json(OperationNames::SERIALIZATION, context.as_str(), failure)
}

/// The error for challenges that cannot be rendered as JSON.
pub fn challenge_render_failure(failure: serde_json::Error) -> (e: ApiError)
    ensures
        e@ is SerializationError,
        e@->SerializationError_operation == "serialization operation"@,
        "Failed to serialize challenges: "@.is_prefix_of(e@->SerializationError_details),
        e.cause() == Some(ErrorSource::Json(failure)),
{
    ApiError::from_json(
        OperationNames::SERIALIZATION,
        "Failed to serialize challenges: ",
        failure,
    )
}

} // verus!

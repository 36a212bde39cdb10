use archicomm::challenges::{
    challenge_parse_failure, challenge_read_failure, challenge_render_failure,
    challenge_write_failure, export_challenges, export_challenges_at, keep_challenges,
    load_challenges, take_entries, validate_challenge_value, Json,
};
use archicomm::error::ApiError;
use archicomm::time::Timestamp;

fn text(t: &str) -> Json {
    Json::Text(t.to_string())
}

fn object(members: Vec<(&str, Json)>) -> Json {
    Json::Object(members.into_iter().map(|(k, v)| (k.to_string(), v)).collect())
}

fn challenge(id: &str) -> Json {
    object(vec![
        ("id", text(id)),
        ("title", text("Design a cache")),
        ("description", text("Keep hot data close")),
        ("category", text("system-design")),
        ("difficulty", text("intermediate")),
        ("estimatedTime", Json::Number("45".to_string())),
        ("requirements", Json::Array(vec![text("LRU")])),
    ])
}

fn without(entry: &Json, key: &str) -> Json {
    match entry {
        Json::Object(members) => Json::Object(
            members.iter().filter(|(k, _)| k != key).map(|(k, v)| (k.clone(), copy(v))).collect(),
        ),
        _ => panic!("not an object"),
    }
}

fn with(entry: &Json, key: &str, value: Json) -> Json {
    match without(entry, key) {
        Json::Object(mut members) => {
            members.push((key.to_string(), value));
            Json::Object(members)
        }
        _ => unreachable!(),
    }
}

fn copy(value: &Json) -> Json {
    match value {
        Json::Null => Json::Null,
        Json::Bool(b) => Json::Bool(*b),
        Json::Number(n) => Json::Number(n.clone()),
        Json::Text(t) => Json::Text(t.clone()),
        Json::Array(items) => Json::Array(items.iter().map(copy).collect()),
        Json::Object(members) => Json::Object(members.iter().map(|(k, v)| (k.clone(), copy(v))).collect()),
    }
}

fn id_of(entry: &Json) -> String {
    match entry {
        Json::Object(members) => match members.iter().find(|(k, _)| k == "id") {
            Some((_, Json::Text(t))) => t.clone(),
            _ => panic!("no id"),
        },
        _ => panic!("not an object"),
    }
}

#[test]
fn a_complete_entry_is_a_challenge() {
    assert!(validate_challenge_value(&challenge("c1")));
    for level in ["beginner", "intermediate", "advanced"] {
        assert!(validate_challenge_value(&with(&challenge("c1"), "difficulty", text(level))));
    }
    assert!(validate_challenge_value(&with(&challenge("c1"), "requirements", Json::Array(vec![]))));
    assert!(validate_challenge_value(&with(&challenge("c1"), "estimatedTime", Json::Number("1.5e3".to_string()))));
    assert!(validate_challenge_value(&with(&challenge("c1"), "extra", Json::Null)));
}

#[test]
fn an_incomplete_entry_is_no_challenge() {
    let good = challenge("c1");
    for key in ["id", "title", "description", "category", "difficulty", "estimatedTime", "requirements"] {
        assert!(!validate_challenge_value(&without(&good, key)), "without {}", key);
        assert!(!validate_challenge_value(&with(&good, key, Json::Null)), "null {}", key);
    }
    for key in ["id", "title", "description", "category"] {
        assert!(!validate_challenge_value(&with(&good, key, text(""))), "empty {}", key);
        assert!(!validate_challenge_value(&with(&good, key, Json::Number("1".to_string()))), "number {}", key);
    }
    assert!(!validate_challenge_value(&with(&good, "difficulty", text("expert"))));
    assert!(!validate_challenge_value(&with(&good, "difficulty", text("Beginner"))));
    assert!(!validate_challenge_value(&with(&good, "estimatedTime", text("45"))));
    assert!(!validate_challenge_value(&with(&good, "requirements", object(vec![]))));
    assert!(!validate_challenge_value(&Json::Array(vec![])));
    assert!(!validate_challenge_value(&text("challenge")));
    assert!(!validate_challenge_value(&Json::Null));
    assert!(!validate_challenge_value(&Json::Bool(true)));
}

#[test]
fn a_document_offers_its_items_or_its_challenges_member() {
    let as_array = Json::Array(vec![challenge("a"), text("noise"), challenge("b")]);
    let loaded = load_challenges(as_array);
    assert_eq!(loaded.iter().map(id_of).collect::<Vec<_>>(), vec!["a", "b"]);

    let as_object = object(vec![
        ("version", text("1.0.0")),
        ("challenges", Json::Array(vec![without(&challenge("x"), "title"), challenge("y")])),
    ]);
    let loaded = load_challenges(as_object);
    assert_eq!(loaded.iter().map(id_of).collect::<Vec<_>>(), vec!["y"]);

    assert!(load_challenges(object(vec![("challenges", text("none"))])).is_empty());
    assert!(load_challenges(object(vec![("items", Json::Array(vec![challenge("a")]))])).is_empty());
    assert!(load_challenges(text("x")).is_empty());
    assert!(load_challenges(Json::Null).is_empty());
    assert_eq!(take_entries(Json::Array(vec![Json::Null, Json::Bool(false)])).len(), 2);
    // The first member of that name counts.
    let twice = object(vec![
        ("challenges", Json::Array(vec![challenge("first")])),
        ("challenges", Json::Array(vec![challenge("second")])),
    ]);
    assert_eq!(load_challenges(twice).iter().map(id_of).collect::<Vec<_>>(), vec!["first"]);
}

#[test]
fn only_challenges_are_exported() {
    let now = Timestamp { seconds: 1_700_000_000, nanos: 0 };
    let export = export_challenges_at(vec![Json::Null, challenge("a"), challenge("b"), text("x")], now).unwrap();
    assert_eq!(export.version, "1.0.0");
    assert_eq!(export.exported_at, now);
    assert_eq!(export.challenges.iter().map(id_of).collect::<Vec<_>>(), vec!["a", "b"]);
    assert_eq!(keep_challenges(vec![challenge("k")]).len(), 1);

    let export = export_challenges(vec![challenge("a")]).unwrap();
    assert!(export.exported_at.seconds > 1_600_000_000);
}

#[test]
fn exporting_no_challenge_is_an_error() {
    for entries in [vec![], vec![Json::Null, without(&challenge("a"), "id")]] {
        match export_challenges(entries) {
            Err(ApiError::InvalidProjectData { details, source: None }) => {
                assert_eq!(details, "No valid challenges to save")
            }
            other => panic!("unexpected {:?}", other),
        }
    }
}

#[test]
fn file_failures_name_the_file() {
    let gone = std::io::Error::new(std::io::ErrorKind::NotFound, "no such file");
    assert_eq!(
        challenge_read_failure("/tmp/c.json", gone).to_string(),
        "File system error: file system operation failed - Failed to read file '/tmp/c.json': no such file"
    );
    let full = std::io::Error::new(std::io::ErrorKind::Other, "disk full");
    assert_eq!(
        challenge_write_failure("out.json", full).to_string(),
        "File system error: file write failed - Failed to write file 'out.json': disk full"
    );
    let bad = serde_json::from_str::<serde_json::Value>("[1,").unwrap_err();
    let bad_text = bad.to_string();
    assert_eq!(
        challenge_parse_failure("c.json", bad).to_string(),
        format!("Serialization error: serialization operation - Invalid JSON in 'c.json': {}", bad_text)
    );
    let bad = serde_json::from_str::<serde_json::Value>("}").unwrap_err();
    let bad_text = bad.to_string();
    assert_eq!(
        challenge_render_failure(bad).to_string(),
        format!("Serialization error: serialization operation - Failed to serialize challenges: {}", bad_text)
    );
}

use meta_contract::beats::{beats_content, ownerships};
use meta_contract::data::{BeatOwnership, DataStructFork};

fn beat(url: &str, owner: &str) -> BeatOwnership {
    BeatOwnership { url: url.to_string(), owner: owner.to_string() }
}

fn record(owner: &str, cid: &str) -> DataStructFork {
    DataStructFork {
        owner: owner.to_string(),
        cid: cid.to_string(),
        data_key: "dk".to_string(),
        version: String::new(),
    }
}

#[test]
fn beats_of_no_ownership() {
    assert_eq!(beats_content(&Vec::new()), "[]");
}

#[test]
fn beats_of_one_ownership() {
    assert_eq!(beats_content(&vec![beat("QmB", "0xA")]), "[{\"url\":\"QmB\",\"owner\":\"0xA\"}]");
}

#[test]
fn beats_keep_their_order() {
    let beats = vec![beat("u1", "o1"), beat("u2", "o2"), beat("u3", "o3")];
    assert_eq!(
        beats_content(&beats),
        "[{\"url\":\"u1\",\"owner\":\"o1\"},{\"url\":\"u2\",\"owner\":\"o2\"},{\"url\":\"u3\",\"owner\":\"o3\"}]"
    );
}

#[test]
fn beats_of_empty_strings() {
    assert_eq!(beats_content(&vec![beat("", "")]), "[{\"url\":\"\",\"owner\":\"\"}]");
}

#[test]
fn beats_escape_what_json_wants_escaped() {
    let beats = vec![beat("a\"b\\c", "line\nbreak\ttab\u{1}")];
    assert_eq!(
        beats_content(&beats),
        "[{\"url\":\"a\\\"b\\\\c\",\"owner\":\"line\\nbreak\\ttab\\u0001\"}]"
    );
}

#[test]
fn beats_keep_characters_beyond_ascii() {
    let beats = vec![beat("caf\u{e9}", "\u{1F3B5}/")];
    assert_eq!(beats_content(&beats), "[{\"url\":\"caf\u{e9}\",\"owner\":\"\u{1F3B5}/\"}]");
}

#[test]
fn beats_read_back_as_json() {
    let beats = vec![beat("a\"b", "o\\1"), beat("", "\u{7f}\u{0}")];
    let parsed: serde_json::Value = serde_json::from_str(&beats_content(&beats)).unwrap();
    let items = parsed.as_array().unwrap();
    assert_eq!(items.len(), 2);
    assert_eq!(items[0].get("url").and_then(|v| v.as_str()), Some("a\"b"));
    assert_eq!(items[0].get("owner").and_then(|v| v.as_str()), Some("o\\1"));
    assert_eq!(items[1].get("url").and_then(|v| v.as_str()), Some(""));
    assert_eq!(items[1].get("owner").and_then(|v| v.as_str()), Some("\u{7f}\u{0}"));
}

#[test]
fn ownerships_of_records() {
    let records = vec![record("0xA", "QmB"), record("0xC", "QmD")];
    assert_eq!(ownerships(&records), vec![beat("QmB", "0xA"), beat("QmD", "0xC")]);
    assert_eq!(ownerships(&Vec::new()), Vec::new());
}

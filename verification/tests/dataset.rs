use meta_contract::data::DataStructFork;
use meta_contract::dataset::{
    interpret_dataset, read_record, read_records, records_from, RecordProblem,
};
use meta_contract::errors::ErrorKind;
use meta_contract::json::{parse_json, Json, Member};

fn record(owner: &str, cid: &str, data_key: &str, version: &str) -> DataStructFork {
    DataStructFork {
        owner: owner.to_string(),
        cid: cid.to_string(),
        data_key: data_key.to_string(),
        version: version.to_string(),
    }
}

fn text(s: &str) -> Json {
    Json::Text(s.to_string())
}

fn object(members: Vec<(&str, Json)>) -> Json {
    Json::Object(
        members.into_iter().map(|(name, value)| Member { name: name.to_string(), value }).collect(),
    )
}

#[test]
fn parse_reads_every_kind_of_value() {
    let tree = parse_json("[null, true, false, 7, -3, 1.5, \"a\\nb\", [], {}]").unwrap();
    assert_eq!(
        tree,
        Json::Array(vec![
            Json::Null,
            Json::Bool(true),
            Json::Bool(false),
            Json::Number(Some(7)),
            Json::Number(Some(-3)),
            Json::Number(None),
            Json::Text("a\nb".to_string()),
            Json::Array(Vec::new()),
            Json::Object(Vec::new()),
        ])
    );
}

#[test]
fn parse_keeps_the_range_of_integers() {
    let tree = parse_json("[9223372036854775807, -9223372036854775808, 9223372036854775808]");
    assert_eq!(
        tree.unwrap(),
        Json::Array(vec![
            Json::Number(Some(i64::MAX)),
            Json::Number(Some(i64::MIN)),
            Json::Number(None),
        ])
    );
}

#[test]
fn parse_reads_nested_objects() {
    let tree = parse_json("{\"a\": {\"b\": [1, {\"c\": \"d\"}]}}").unwrap();
    let inner = object(vec![("c", text("d"))]);
    let expected = object(vec![(
        "a",
        object(vec![("b", Json::Array(vec![Json::Number(Some(1)), inner]))]),
    )]);
    assert_eq!(tree, expected);
}

#[test]
fn parse_hands_out_each_name_once() {
    let tree = parse_json("{\"k\": 1, \"k\": 2}").unwrap();
    assert_eq!(tree, object(vec![("k", Json::Number(Some(2)))]));
}

#[test]
fn parse_refuses_what_is_no_json() {
    assert!(parse_json("").is_err());
    assert!(parse_json("{").is_err());
    assert!(parse_json("[1,]").is_err());
    assert!(parse_json("nul").is_err());
    assert!(parse_json("{} x").is_err());
    let message = parse_json("[1,").unwrap_err();
    assert_eq!(message, "EOF while parsing a value at line 1 column 3");
}

#[test]
fn member_lookup() {
    let tree = object(vec![("a", text("1")), ("b", Json::Number(Some(2)))]);
    assert_eq!(tree.member(&"a".to_string()), Some(&text("1")));
    assert_eq!(tree.member(&"b".to_string()), Some(&Json::Number(Some(2))));
    assert_eq!(tree.member(&"c".to_string()), None);
    assert_eq!(tree.text_member(&"a".to_string()), Some("1".to_string()));
    assert_eq!(tree.text_member(&"b".to_string()), None);
    assert_eq!(text("a").member(&"a".to_string()), None);
    assert_eq!(Json::Array(vec![text("a")]).member(&"a".to_string()), None);
}

#[test]
fn member_lookup_takes_the_first_of_a_name() {
    let tree = object(vec![("a", text("1")), ("a", text("2"))]);
    assert_eq!(tree.member(&"a".to_string()), Some(&text("1")));
}

#[test]
fn dataset_of_one_record() {
    let records =
        interpret_dataset("[{\"owner\":\"0xabc\",\"cid\":\"bafy1\",\"data_key\":\"dk1\"}]").unwrap();
    assert_eq!(records, vec![record("0xabc", "bafy1", "dk1", "")]);
}

#[test]
fn dataset_keeps_the_order_of_its_records() {
    let text = "[
        {\"owner\":\"o1\",\"cid\":\"c1\",\"data_key\":\"k1\",\"version\":\"v1\"},
        {\"data_key\":\"k2\",\"cid\":\"c2\",\"owner\":\"o2\"},
        {\"owner\":\"o3\",\"cid\":\"c3\",\"data_key\":\"k3\",\"version\":\"\"}
    ]";
    assert_eq!(
        interpret_dataset(text).unwrap(),
        vec![
            record("o1", "c1", "k1", "v1"),
            record("o2", "c2", "k2", ""),
            record("o3", "c3", "k3", ""),
        ]
    );
}

#[test]
fn dataset_passes_over_other_members() {
    let text = "[{\"owner\":\"o\",\"extra\":[1,2],\"cid\":\"c\",\"data_key\":\"k\",\"n\":null}]";
    assert_eq!(interpret_dataset(text).unwrap(), vec![record("o", "c", "k", "")]);
}

#[test]
fn empty_dataset_has_no_records() {
    assert_eq!(interpret_dataset("[]").unwrap(), Vec::new());
    assert_eq!(interpret_dataset(" [ ] ").unwrap(), Vec::new());
}

#[test]
fn text_that_is_no_json_is_a_structure_failure() {
    let e = interpret_dataset("not json").unwrap_err();
    assert_eq!(e.kind, ErrorKind::Structure);
    assert_eq!(e.cause, "expected ident at line 1 column 2");
    assert_eq!(e.message(), "invalid dataset structure: expected ident at line 1 column 2");
}

#[test]
fn empty_text_is_a_structure_failure() {
    let e = interpret_dataset("").unwrap_err();
    assert_eq!(e.kind, ErrorKind::Structure);
    assert_eq!(e.cause, "EOF while parsing a value at line 1 column 0");
}

#[test]
fn document_that_is_no_array_is_a_structure_failure() {
    for text in ["{}", "null", "7", "\"[]\"", "{\"owner\":\"o\",\"cid\":\"c\",\"data_key\":\"k\"}"] {
        let e = interpret_dataset(text).unwrap_err();
        assert_eq!(e.kind, ErrorKind::Structure);
        assert_eq!(e.cause, "expected a list of records");
    }
}

#[test]
fn item_that_is_no_object_is_reported_with_its_place() {
    let e = interpret_dataset("[{\"owner\":\"o\",\"cid\":\"c\",\"data_key\":\"k\"}, 5]").unwrap_err();
    assert_eq!(e.kind, ErrorKind::Structure);
    assert_eq!(e.cause, "record 1: expected an object");
}

#[test]
fn missing_members_are_reported_in_order() {
    let e = interpret_dataset("[{}]").unwrap_err();
    assert_eq!(e.cause, "record 0: no text member `owner`");
    let e = interpret_dataset("[{\"owner\":\"o\"}]").unwrap_err();
    assert_eq!(e.cause, "record 0: no text member `cid`");
    let e = interpret_dataset("[{\"owner\":\"o\",\"cid\":\"c\"}]").unwrap_err();
    assert_eq!(e.cause, "record 0: no text member `data_key`");
}

#[test]
fn member_that_is_no_text_counts_as_missing() {
    let e = interpret_dataset("[{\"owner\":1,\"cid\":\"c\",\"data_key\":\"k\"}]").unwrap_err();
    assert_eq!(e.cause, "record 0: no text member `owner`");
    let e = interpret_dataset("[{\"owner\":\"o\",\"cid\":null,\"data_key\":\"k\"}]").unwrap_err();
    assert_eq!(e.cause, "record 0: no text member `cid`");
}

#[test]
fn version_that_is_no_text_is_passed_over() {
    for version in ["2", "null", "[\"v\"]", "{}", "true"] {
        let text = format!(
            "[{{\"owner\":\"o\",\"cid\":\"c\",\"data_key\":\"k\",\"version\":{version}}}]"
        );
        assert_eq!(interpret_dataset(&text).unwrap(), vec![record("o", "c", "k", "")]);
    }
}

#[test]
fn first_bad_record_is_reported() {
    let good = "{\"owner\":\"o\",\"cid\":\"c\",\"data_key\":\"k\"}";
    let text = format!("[{good},{good},{{\"owner\":\"o\"}},{good},7]");
    let e = interpret_dataset(&text).unwrap_err();
    assert_eq!(e.cause, "record 2: no text member `cid`");
}

#[test]
fn place_of_a_bad_record_is_written_in_decimal() {
    let good = "{\"owner\":\"o\",\"cid\":\"c\",\"data_key\":\"k\"}";
    let mut items: Vec<String> = (0..12).map(|_| good.to_string()).collect();
    items.push("[]".to_string());
    let text = format!("[{}]", items.join(","));
    let e = interpret_dataset(&text).unwrap_err();
    assert_eq!(e.cause, "record 12: expected an object");
}

#[test]
fn read_record_of_each_problem() {
    assert_eq!(read_record(&Json::Null), Err(RecordProblem::NotAnObject));
    assert_eq!(read_record(&Json::Array(Vec::new())), Err(RecordProblem::NotAnObject));
    assert_eq!(read_record(&object(vec![])), Err(RecordProblem::Owner));
    assert_eq!(read_record(&object(vec![("owner", text("o"))])), Err(RecordProblem::Cid));
    assert_eq!(
        read_record(&object(vec![("owner", text("o")), ("cid", text("c"))])),
        Err(RecordProblem::DataKey)
    );
    let with_version = object(vec![
        ("owner", text("o")),
        ("cid", text("c")),
        ("data_key", text("k")),
        ("version", Json::Null),
    ]);
    assert_eq!(read_record(&with_version), Ok(record("o", "c", "k", "")));
}

#[test]
fn read_record_of_a_record() {
    let item = object(vec![
        ("version", text("2")),
        ("data_key", text("k")),
        ("cid", text("c")),
        ("owner", text("o")),
    ]);
    assert_eq!(read_record(&item), Ok(record("o", "c", "k", "2")));
}

#[test]
fn read_records_of_a_tree() {
    let item = object(vec![("owner", text("o")), ("cid", text("c")), ("data_key", text("k"))]);
    let tree = Json::Array(vec![item]);
    assert_eq!(read_records(&tree).unwrap(), vec![record("o", "c", "k", "")]);
    assert_eq!(read_records(&Json::Null).unwrap_err().cause, "expected a list of records");
}

#[test]
fn records_from_a_parser_error() {
    let e = records_from(Err("trailing characters at line 1 column 4".to_string())).unwrap_err();
    assert_eq!(e.kind, ErrorKind::Structure);
    assert_eq!(e.cause, "trailing characters at line 1 column 4");
}

#[test]
fn ownership_of_a_record() {
    let beat = record("0xabc", "bafy1", "dk1", "3").ownership();
    assert_eq!(beat.url, "bafy1");
    assert_eq!(beat.owner, "0xabc");
}

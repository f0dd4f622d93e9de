use meta_contract::params::find;
use meta_contract::types::DataLogParam;

fn param(name: &str, value: &str) -> DataLogParam {
    DataLogParam { name: name.to_string(), kind: "string".to_string(), value: value.to_string() }
}

#[test]
fn find_token_id_and_empty_data() {
    let params = vec![param("tokenId", "7"), param("data", "")];
    assert_eq!(find(&params, "tokenId").map(|p| p.value.clone()), Some("7".to_string()));
    assert_eq!(find(&params, "data"), None);
}

#[test]
fn find_in_no_parameters() {
    let params: Vec<DataLogParam> = Vec::new();
    assert_eq!(find(&params, "tokenId"), None);
}

#[test]
fn find_hands_out_the_first_match() {
    let params = vec![param("a", "1"), param("b", "2"), param("a", "3")];
    assert_eq!(find(&params, "a"), Some(&params[0]));
    assert_eq!(find(&params, "b"), Some(&params[1]));
}

#[test]
fn find_is_exact_about_case() {
    let params = vec![param("tokenid", "1"), param("TokenId", "2")];
    assert_eq!(find(&params, "tokenId"), None);
    assert_eq!(find(&params, "TokenId"), Some(&params[1]));
}

#[test]
fn find_does_not_look_past_an_empty_first_match() {
    let params = vec![param("data", ""), param("data", "00")];
    assert_eq!(find(&params, "data"), None);
}

#[test]
fn find_of_an_absent_name() {
    let params = vec![param("tokenId", "7")];
    assert_eq!(find(&params, "data"), None);
    assert_eq!(find(&params, ""), None);
}

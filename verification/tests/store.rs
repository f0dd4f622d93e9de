use meta_contract::errors::ErrorKind;
use meta_contract::store::{
    fetched_text, get, get_timeout_string, make_cmd_args, ContentReply, StoreConfig,
    DEFAULT_IPFS_MULTIADDR, DEFAULT_TIMEOUT_SEC,
};

fn strings(items: &[&str]) -> Vec<String> {
    items.iter().map(|s| s.to_string()).collect()
}

fn reply(ret_code: i32, error: &str, stdout: &[u8]) -> ContentReply {
    ContentReply { ret_code, error: error.to_string(), stdout: stdout.to_vec(), stderr: Vec::new() }
}

#[test]
fn timeout_string_is_seconds_and_unit() {
    assert_eq!(get_timeout_string(1), "1s");
    assert_eq!(get_timeout_string(15), "15s");
    assert_eq!(get_timeout_string(0), "0s");
    assert_eq!(get_timeout_string(u64::MAX), "18446744073709551615s");
}

#[test]
fn cmd_args_appends_timeout_and_gateway() {
    let args = make_cmd_args(strings(&["dag", "get", "bafy"]), "/dns4/store/tcp/5001".to_string(), 7);
    assert_eq!(
        args,
        strings(&["dag", "get", "bafy", "--timeout", "7s", "--api", "/dns4/store/tcp/5001"])
    );
}

#[test]
fn cmd_args_of_no_arguments() {
    let args = make_cmd_args(Vec::new(), String::new(), 0);
    assert_eq!(args, strings(&["--timeout", "0s", "--api", ""]));
}

#[test]
fn get_uses_what_the_call_names() {
    let args = get("bafy".to_string(), "/ip4/10.0.0.1/tcp/5001".to_string(), 30);
    assert_eq!(
        args,
        strings(&["dag", "get", "bafy", "--timeout", "30s", "--api", "/ip4/10.0.0.1/tcp/5001"])
    );
}

#[test]
fn get_fills_in_the_default_gateway() {
    let args = get("bafy".to_string(), String::new(), 30);
    assert_eq!(
        args,
        strings(&["dag", "get", "bafy", "--timeout", "30s", "--api", DEFAULT_IPFS_MULTIADDR])
    );
}

#[test]
fn get_fills_in_the_default_timeout() {
    let args = get("bafy".to_string(), "/ip4/10.0.0.1/tcp/5001".to_string(), 0);
    let timeout = format!("{}s", DEFAULT_TIMEOUT_SEC);
    assert_eq!(
        args,
        strings(&["dag", "get", "bafy", "--timeout", &timeout, "--api", "/ip4/10.0.0.1/tcp/5001"])
    );
}

#[test]
fn default_settings() {
    assert_eq!(DEFAULT_IPFS_MULTIADDR, "/ip4/127.0.0.1/tcp/5001");
    assert_eq!(DEFAULT_TIMEOUT_SEC, 1);
}

#[test]
fn config_resolves_defaults() {
    let config = StoreConfig::resolve(String::new(), 0);
    assert_eq!(config.gateway_address, DEFAULT_IPFS_MULTIADDR);
    assert_eq!(config.timeout_seconds, DEFAULT_TIMEOUT_SEC);
    assert!(config.default_gateway_applied);
    assert!(config.default_timeout_applied);
    let config = StoreConfig::resolve("/dns4/x".to_string(), 9);
    assert_eq!(config.gateway_address, "/dns4/x");
    assert_eq!(config.timeout_seconds, 9);
    assert!(!config.default_gateway_applied);
    assert!(!config.default_timeout_applied);
    let config = StoreConfig::resolve("/dns4/x".to_string(), 0);
    assert_eq!(config.gateway_address, "/dns4/x");
    assert_eq!(config.timeout_seconds, DEFAULT_TIMEOUT_SEC);
    assert!(!config.default_gateway_applied);
    assert!(config.default_timeout_applied);
}

#[test]
fn reply_with_text_is_delivered() {
    let text = fetched_text(reply(0, "", "[{\"owner\":\"a\"}]".as_bytes())).unwrap();
    assert_eq!(text, "[{\"owner\":\"a\"}]");
}

#[test]
fn reply_with_text_beyond_ascii_is_delivered() {
    let text = fetched_text(reply(0, "", "caf\u{e9} \u{1F3B5}".as_bytes())).unwrap();
    assert_eq!(text, "caf\u{e9} \u{1F3B5}");
}

#[test]
fn reply_with_exit_code_is_a_fetch_failure() {
    let e = fetched_text(reply(1, "no such block", b"ignored")).unwrap_err();
    assert_eq!(e.kind, ErrorKind::ContentFetch);
    assert_eq!(e.cause, "exit code 1: no such block");
}

#[test]
fn reply_with_negative_code_is_a_fetch_failure() {
    let e = fetched_text(reply(-2, "timed out", b"")).unwrap_err();
    assert_eq!(e.kind, ErrorKind::ContentFetch);
    assert_eq!(e.cause, "exit code -2: timed out");
    assert_eq!(e.message(), "content fetch failed: exit code -2: timed out");
}

#[test]
fn reply_that_is_no_utf8_is_a_fetch_failure() {
    let e = fetched_text(reply(0, "", &[0x5b, 0xff, 0xfe, 0x5d])).unwrap_err();
    assert_eq!(e.kind, ErrorKind::ContentFetch);
    assert_eq!(e.cause, "output is not valid UTF-8");
}

#[test]
fn empty_reply_is_an_empty_text() {
    assert_eq!(fetched_text(reply(0, "", b"")).unwrap(), "");
}

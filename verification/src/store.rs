//! The client side of the content store: the command that fetches a dataset,
//! and the reading of what the store's binary replied.
//!
//! Running the binary is left to the caller. This module builds the argument
//! list and turns the captured reply into a text or a failure.

use crate::errors::{ErrorKind, Fault, PipelineError};
use crate::text::{decimal, decimal_string, signed_decimal, signed_decimal_string, texts};
use vstd::prelude::*;

verus! {

/// The gateway that is used when a call names none.
pub const DEFAULT_IPFS_MULTIADDR: &'static str = "/ip4/127.0.0.1/tcp/5001";

/// The number of seconds that is allowed when a call names none.
pub const DEFAULT_TIMEOUT_SEC: u64 = 1;

/// The settings of one fetch.
#[derive(Debug, Clone, PartialEq, Eq)]
pub struct StoreConfig {
    /// The endpoint of the content store.
    pub gateway_address: String,
    /// The deadline of the fetch, in seconds.
    pub timeout_seconds: u64,
    /// Whether the default gateway stands in for an empty address.
    pub default_gateway_applied: bool,
    /// Whether the default deadline stands in for a zero timeout.
    pub default_timeout_applied: bool,
}

/// The gateway that a fetch goes to: the default one for an empty address.
pub open spec fn resolved_gateway(api_multiaddr: Seq<char>) -> Seq<char> {
    if api_multiaddr.len() == 0 {
        DEFAULT_IPFS_MULTIADDR@
    } else {
        api_multiaddr
    }
}

/// The deadline of a fetch: the default one for zero.
pub open spec fn resolved_timeout(timeout_sec: u64) -> u64 {
    if timeout_sec == 0 {
        DEFAULT_TIMEOUT_SEC
    } else {
        timeout_sec
    }
}

impl StoreConfig {
    /// The settings for a call: an empty address and a zero timeout stand for
    /// the defaults, and the settings say where a default was applied.
    pub fn resolve(api_multiaddr: String, timeout_sec: u64) -> (res: StoreConfig)
        ensures
            res.gateway_address@ == resolved_gateway(api_multiaddr@),
            res.timeout_seconds == resolved_timeout(timeout_sec),
            res.default_gateway_applied == (api_multiaddr@.len() == 0),
            res.default_timeout_applied == (timeout_sec == 0),
    {
        let default_gateway_applied: bool = api_multiaddr.as_str().is_empty();
        let default_timeout_applied: bool = timeout_sec == 0;
        let gateway_address: String = if default_gateway_applied {
            String::from_str(DEFAULT_IPFS_MULTIADDR)
        } else {
            api_multiaddr
        };
        let timeout_seconds: u64 = if default_timeout_applied {
            DEFAULT_TIMEOUT_SEC
        } else {
            timeout_sec
        };
        StoreConfig {
            gateway_address,
            timeout_seconds,
            default_gateway_applied,
            default_timeout_applied,
        }
    }
}

/// A timeout as the binary wants it: the seconds in decimal, then `s`.
pub open spec fn timeout_text(timeout: u64) -> Seq<char> {
    decimal(timeout as nat) + "s"@
}

/// Writes a timeout as the binary wants it.
#[inline]
pub fn get_timeout_string(timeout: u64) -> (res: String)
    ensures
        res@ == timeout_text(timeout),
{
    decimal_string(timeout).concat("s")
}

/// The argument list of a call of the binary: the given arguments, then the
/// timeout and the gateway as options.
pub open spec fn cmd_args(args: Seq<Seq<char>>, api_multiaddr: Seq<char>, timeout_sec: u64) -> Seq<
    Seq<char>,
> {
    args + seq!["--timeout"@, timeout_text(timeout_sec), "--api"@, api_multiaddr]
}

/// Appends the timeout and gateway options to an argument list.
pub fn make_cmd_args(args: Vec<String>, api_multiaddr: String, timeout_sec: u64) -> (res: Vec<
    String,
>)
    ensures
        texts(res@) == cmd_args(texts(args@), api_multiaddr@, timeout_sec),
{
    let ghost before = texts(args@);
    let mut out: Vec<String> = args;
    out.push(String::from_str("--timeout"));
    out.push(get_timeout_string(timeout_sec));
    out.push(String::from_str("--api"));
    out.push(api_multiaddr);
    assert(texts(out@) =~= cmd_args(before, api_multiaddr@, timeout_sec));
    out
}

/// The command that gets the dataset `hash` from the store: `dag get`, the
/// identifier, and the options with the defaults filled in.
pub open spec fn get_command(hash: Seq<char>, api_multiaddr: Seq<char>, timeout_sec: u64) -> Seq<
    Seq<char>,
> {
    cmd_args(
        seq!["dag"@, "get"@, hash],
        resolved_gateway(api_multiaddr),
        resolved_timeout(timeout_sec),
    )
}

/// Builds the command that gets the dataset `hash` from the store. An empty
/// address stands for the default gateway, a zero timeout for the default
/// deadline.
pub fn get(hash: String, api_multiaddr: String, timeout_sec: u64) -> (res: Vec<String>)
    ensures
        texts(res@) == get_command(hash@, api_multiaddr@, timeout_sec),
{
    let config: StoreConfig = StoreConfig::resolve(api_multiaddr, timeout_sec);
    let mut args: Vec<String> = Vec::new();
    args.push(String::from_str("dag"));
    args.push(String::from_str("get"));
    args.push(hash);
    assert(texts(args@) =~= seq!["dag"@, "get"@, hash@]);
    make_cmd_args(args, config.gateway_address, config.timeout_seconds)
}

/// What running the binary gave back.
#[derive(Debug, Clone, PartialEq, Eq)]
pub struct ContentReply {
    /// The exit code of the process, or the host's error code; zero is success.
    pub ret_code: i32,
    /// The host's words on a failure.
    pub error: String,
    /// What the process wrote to its standard output.
    pub stdout: Vec<u8>,
    /// What the process wrote to its standard error.
    pub stderr: Vec<u8>,
}

/// The cause that is reported for a reply with a code other than zero.
pub open spec fn exit_cause(ret_code: i32, error: Seq<char>) -> Seq<char> {
    "exit code "@ + signed_decimal(ret_code as int) + ": "@ + error
}

/// The cause that is reported for output that is no text.
pub open spec fn encoding_cause() -> Seq<char> {
    "output is not valid UTF-8"@
}

/// The text that a reply delivers. A code other than zero is a failure of the
/// fetch, and so is output that is not UTF-8.
pub open spec fn reply_text(ret_code: i32, error: Seq<char>, stdout: Seq<u8>) -> Result<
    Seq<char>,
    Fault,
> {
    if ret_code != 0 {
        Err(Fault { kind: ErrorKind::ContentFetch, cause: exit_cause(ret_code, error) })
    } else if !vstd::utf8::valid_utf8(stdout) {
        Err(Fault { kind: ErrorKind::ContentFetch, cause: encoding_cause() })
    } else {
        Ok(vstd::utf8::decode_utf8(stdout))
    }
}

/// `String::from_utf8`: the text that the bytes encode, if they are valid
/// UTF-8, and nothing otherwise.
#[verifier::external_body]
fn utf8_text(bytes: Vec<u8>) -> (res: Option<String>)
    ensures
        res is Some <==> vstd::utf8::valid_utf8(bytes@),
        res matches Some(text) ==> text@ == vstd::utf8::decode_utf8(bytes@),
{
    match String::from_utf8(bytes) {
        Ok(text) => Some(text),
        Err(_) => None,
    }
}

/// The views of a `Result` of a text.
pub open spec fn text_result_view(res: Result<String, PipelineError>) -> Result<Seq<char>, Fault> {
    match res {
        Ok(text) => Ok(text@),
        Err(e) => Err(e@),
    }
}

/// Reads the reply of the binary: its output as text, or the failure of the
/// fetch.
pub fn fetched_text(reply: ContentReply) -> (res: Result<String, PipelineError>)
    ensures
        text_result_view(res) == reply_text(reply.ret_code, reply.error@, reply.stdout@),
{
    if reply.ret_code != 0 {
        let code: String = signed_decimal_string(reply.ret_code);
        let cause: String = String::from_str("exit code ").concat(code.as_str()).concat(
            ": ",
        ).concat(reply.error.as_str());
        Err(PipelineError::new(ErrorKind::ContentFetch, cause))
    } else {
        match utf8_text(reply.stdout) {
            Some(text) => Ok(text),
            None => Err(
                PipelineError::new(
                    ErrorKind::ContentFetch,
                    String::from_str("output is not valid UTF-8"),
                ),
            ),
        }
    }
}

} // verus!

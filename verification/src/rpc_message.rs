//! The JSON-RPC 2.0 lines exchanged with a Guitarix engine: the request
//! line a call or a notification sends, and what a reply line decides.
use crate::decimal::{decimal, u64_to_decimal};
use vstd::prelude::*;

verus! {

broadcast use vstd::string::group_string_axioms;

/// What serde_json writes for the string `s`: `s` in double quotes, with
/// quotes, backslashes and control characters escaped.
pub uninterp spec fn json_string(s: Seq<char>) -> Seq<char>;

/// Calls `serde_json::to_string` on a string. Trusted to return the text
/// that `json_string` names for the same characters; which characters get
/// escaped, and how, is left unsaid. Writing a string cannot fail.
#[verifier::external_body]
fn quote_json(s: &str) -> (r: String)
    ensures
        r@ == json_string(s@),
{
    serde_json::to_string(s).unwrap_or_default()
}

/// The request line for `method` with the parameters `params` (JSON text):
/// a JSON object with its members in key order, `id` only for a call, and a
/// closing newline.
pub open spec fn request_text(method: Seq<char>, params: Seq<char>, id: Option<u64>) -> Seq<char> {
    let rest = "\"jsonrpc\":\"2.0\",\"method\":"@ + json_string(method) + ",\"params\":"@ + params + "}\n"@;
    match id {
        Some(n) => "{\"id\":"@ + decimal(n as nat) + ","@ + rest,
        None => "{"@ + rest,
    }
}

/// The line that calls `method` (with the request number `id`) or, without
/// one, notifies it, passing `params`, which is JSON text.
pub fn request_line(method: &str, params: &str, id: Option<u64>) -> (r: String)
    ensures
        r@ == request_text(method@, params@, id),
{
    proof {
        reveal_strlit("\"jsonrpc\":\"2.0\",\"method\":");
        reveal_strlit(",\"params\":");
        reveal_strlit("}\n");
        reveal_strlit("{\"id\":");
        reveal_strlit(",");
        reveal_strlit("{");
    }
    let quoted = quote_json(method);
    let rest = String::from_str("\"jsonrpc\":\"2.0\",\"method\":").concat(quoted.as_str()).concat(",\"params\":").concat(
        params,
    ).concat("}\n");
    match id {
        Some(n) => {
            let digits = u64_to_decimal(n);
            String::from_str("{\"id\":").concat(digits.as_str()).concat(",").concat(rest.as_str())
        },
        None => String::from_str("{").concat(rest.as_str()),
    }
}

/// What serde_json reads in a reply line: `Err` with serde_json's message
/// when the line is not JSON; otherwise the JSON text of the reply's `error`
/// member when it has one, and the JSON text of its `result` member, `null`
/// when it has none.
pub uninterp spec fn reply_fields_of(line: Seq<char>) -> Result<(Option<Seq<char>>, Seq<char>), Seq<char>>;

/// The members of a reply that decide a call's outcome, as JSON text.
pub struct ReplyFields {
    pub error: Option<String>,
    pub result: String,
}

/// The text of an optional string.
pub open spec fn opt_text(o: Option<String>) -> Option<Seq<char>> {
    match o {
        Some(s) => Some(s@),
        None => None,
    }
}

/// Calls `serde_json::from_str` on a reply line, then `Value::get("error")`
/// and `Value::index("result")`, writing each member back as JSON text with
/// `to_string`. Trusted to give what `reply_fields_of` names for the line,
/// and serde_json's message for a line that is not JSON.
#[verifier::external_body]
fn parse_reply(line: &str) -> (r: Result<ReplyFields, String>)
    ensures
        match r {
            Ok(f) => reply_fields_of(line@) == Ok::<(Option<Seq<char>>, Seq<char>), Seq<char>>((opt_text(f.error), f.result@)),
            Err(e) => reply_fields_of(line@) == Err::<(Option<Seq<char>>, Seq<char>), Seq<char>>(e@),
        },
{
    match serde_json::from_str::<serde_json::Value>(line) {
        Ok(v) => Ok(ReplyFields { error: v.get("error").map(|e| e.to_string()), result: v["result"].to_string() }),
        Err(e) => Err(e.to_string()),
    }
}

/// How a call ends, by its reply line.
#[derive(Debug, Clone, PartialEq, Eq)]
pub enum RpcOutcome {
    /// The reply's `result`, as JSON text.
    Result(String),
    /// The reply's `error`, as JSON text.
    RpcError(String),
    /// The engine closed the connection: the line is empty.
    ConnectionClosed,
    /// The line is not JSON; serde_json's message.
    Malformed(String),
}

/// How a call whose reply line is `line` ends: closed on an empty line, the
/// engine's error when the reply has an `error` member, its `result`
/// otherwise, and malformed when the line is not JSON.
pub fn reply_outcome(line: &str) -> (r: RpcOutcome)
    ensures
        line@.len() == 0 ==> r is ConnectionClosed,
        line@.len() > 0 ==> match reply_fields_of(line@) {
            Err(m) => r matches RpcOutcome::Malformed(t) && t@ == m,
            Ok((Some(e), _)) => r matches RpcOutcome::RpcError(t) && t@ == e,
            Ok((None, res)) => r matches RpcOutcome::Result(t) && t@ == res,
        },
{
    if line.unicode_len() == 0 {
        return RpcOutcome::ConnectionClosed;
    }
    match parse_reply(line) {
        Err(m) => RpcOutcome::Malformed(m),
        Ok(f) => match f.error {
            Some(e) => RpcOutcome::RpcError(e),
            None => RpcOutcome::Result(f.result),
        },
    }
}

} // verus!

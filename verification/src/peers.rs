use vstd::prelude::*;
use vstd::string::*;

use crate::log_entry::LogLevel;

verus! {

/// Whether a static peer is being added to or removed from the node.
#[derive(Clone, Copy, Debug, PartialEq, Eq, Structural)]
pub enum PeerAction {
    Add,
    Remove,
}

/// A JSON-RPC request to the node's admin interface.
#[derive(Debug)]
pub struct JsonRpcRequest {
    pub jsonrpc: String,
    pub id: i32,
    pub method: String,
    pub params: Vec<String>,
}

/// The admin method for an action.
pub open spec fn spec_peer_method(action: PeerAction) -> Seq<char> {
    match action {
        PeerAction::Add => "admin_addPeer"@,
        PeerAction::Remove => "admin_removePeer"@,
    }
}

/// The request that adds or removes the static peer `enode_url`:
/// JSON-RPC 2.0, id 1, the admin method, and the URL as sole parameter.
pub fn peer_request(action: PeerAction, enode_url: &str) -> (request: JsonRpcRequest)
    ensures
        request.jsonrpc@ == "2.0"@,
        request.id == 1,
        request.method@ == spec_peer_method(action),
        request.params@.len() == 1,
        request.params@[0]@ == enode_url@,
{
    let method = match action {
        PeerAction::Add => "admin_addPeer".to_owned(),
        PeerAction::Remove => "admin_removePeer".to_owned(),
    };
    let mut params: Vec<String> = Vec::new();
    params.push(enode_url.to_owned());
    JsonRpcRequest { jsonrpc: "2.0".to_owned(), id: 1, method, params }
}

/// What the node answered: an error (its text) or success (the whole
/// answer's text).
#[derive(Debug)]
pub enum PeerOutcome {
    Failed(String),
    Succeeded(String),
}

/// The first line reported for an action: what failed, or what was done.
pub open spec fn spec_peer_headline(action: PeerAction, failed: bool) -> Seq<char> {
    match (action, failed) {
        (PeerAction::Add, true) => "Failed to add static node: "@,
        (PeerAction::Remove, true) => "Failed to remove static node: "@,
        (PeerAction::Add, false) => "Added static node: "@,
        (PeerAction::Remove, false) => "Removed static node: "@,
    }
}

/// The two log lines that report an action on `enode_url`: on failure two
/// error lines, the failed action and `Error: ` with the error's text; on
/// success two info lines, the action done and `Response: ` with the answer.
pub fn peer_report(action: PeerAction, enode_url: &str, outcome: &PeerOutcome) -> (lines: Vec<
    (LogLevel, String),
>)
    ensures
        lines@.len() == 2,
        match outcome {
            PeerOutcome::Failed(detail) => {
                &&& lines@[0].0 == LogLevel::Error
                &&& lines@[0].1@ == spec_peer_headline(action, true) + enode_url@
                &&& lines@[1].0 == LogLevel::Error
                &&& lines@[1].1@ == "Error: "@ + detail@
            },
            PeerOutcome::Succeeded(response) => {
                &&& lines@[0].0 == LogLevel::Info
                &&& lines@[0].1@ == spec_peer_headline(action, false) + enode_url@
                &&& lines@[1].0 == LogLevel::Info
                &&& lines@[1].1@ == "Response: "@ + response@
            },
        },
{
    let mut lines: Vec<(LogLevel, String)> = Vec::new();
    match outcome {
        PeerOutcome::Failed(detail) => {
            let mut first = match action {
                PeerAction::Add => "Failed to add static node: ".to_owned(),
                PeerAction::Remove => "Failed to remove static node: ".to_owned(),
            };
            first.append(enode_url);
            let mut second = "Error: ".to_owned();
            second.append(detail.as_str());
            lines.push((LogLevel::Error, first));
            lines.push((LogLevel::Error, second));
        },
        PeerOutcome::Succeeded(response) => {
            let mut first = match action {
                PeerAction::Add => "Added static node: ".to_owned(),
                PeerAction::Remove => "Removed static node: ".to_owned(),
            };
            first.append(enode_url);
            let mut second = "Response: ".to_owned();
            second.append(response.as_str());
            lines.push((LogLevel::Info, first));
            lines.push((LogLevel::Info, second));
        },
    }
    lines
}

/// What `serde_json::from_str` makes of the node's answer, asked for
/// `member`: whether it has that member, the `Debug` text of
/// `get(member)` and the `Debug` text of the whole answer; or the parser's
/// message.
pub uninterp spec fn json_reply(reply: Seq<char>, member: Seq<char>) -> Result<(bool, Seq<char>, Seq<char>), Seq<char>>;

/// `serde_json::from_str` into a `Value`, `Value::get(member)`, and the
/// `Debug` formatting of both; the outcome depends on the two texts alone.
#[verifier::external_body]
fn parse_reply(reply: &str, member: &str) -> (res: Result<(bool, String, String), String>)
    ensures
        match res {
            Ok((found, part, whole)) => json_reply(reply@, member@) == Ok::<
                (bool, Seq<char>, Seq<char>),
                Seq<char>,
            >((found, part@, whole@)),
            Err(m) => json_reply(reply@, member@) == Err::<(bool, Seq<char>, Seq<char>), Seq<char>>(m@),
        },
{
    match serde_json::from_str::<serde_json::Value>(reply) {
        Ok(v) => Ok((v.get(member).is_some(), format!("{:?}", v.get(member)), format!("{:?}", v))),
        Err(e) => Err(e.to_string()),
    }
}

/// What the node's answer means: failure, with the text of its `error`
/// member, when it has one; success, with the text of the whole answer,
/// otherwise; the parser's message when it is no JSON.
pub fn reply_outcome(reply: &str) -> (res: Result<PeerOutcome, String>)
    ensures
        match json_reply(reply@, "error"@) {
            Ok((true, error, _)) => res matches Ok(PeerOutcome::Failed(e)) && e@ == error,
            Ok((false, _, whole)) => res matches Ok(PeerOutcome::Succeeded(r)) && r@ == whole,
            Err(m) => res matches Err(s) && s@ == m,
        },
{
    match parse_reply(reply, "error") {
        Ok((failed, error, whole)) => if failed {
            Ok(PeerOutcome::Failed(error))
        } else {
            Ok(PeerOutcome::Succeeded(whole))
        },
        Err(m) => Err(m),
    }
}

} // verus!

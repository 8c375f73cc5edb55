//! Event and response payloads, and their JSON encoding.
//!
//! Each payload is a flat JSON object whose members appear in the order of
//! the struct's fields. Integers are written in decimal, booleans as `true`
//! and `false`; message text is quoted by the JSON library.

use vstd::prelude::*;
use vstd::string::*;
use vstd::utf8::encode_utf8;
use crate::json::{json_quoted, quote};
use crate::text::{decimal, decimal_text};

verus! {

/// A private message received by the bot.
#[derive(Clone, Debug)]
pub struct PrivateMessage {
    pub from: i64,
    pub message: String,
}

/// A message received in a group.
#[derive(Clone, Debug)]
pub struct GroupMessage {
    pub group: i64,
    pub from: i64,
    pub message: String,
}

/// A message received in a discussion.
#[derive(Clone, Debug)]
pub struct DiscussMessage {
    pub discuss: i64,
    pub from: i64,
    pub message: String,
}

/// A group member was made, or is no longer, an administrator.
#[derive(Clone, Debug)]
pub struct GroupAdminChanged {
    pub group: i64,
    pub operand: i64,
    pub set: bool,
}

/// A member joined a group.
#[derive(Clone, Debug)]
pub struct GroupMemberIncrease {
    pub group: i64,
    pub from: i64,
    pub operator: i64,
    pub invited: bool,
}

/// Answer to a request to send a private message.
#[derive(Clone, Debug)]
pub struct SendPrivateMessageResponse {
    pub ok: bool,
}

/// Answer to a request to send a group message.
#[derive(Clone, Debug)]
pub struct SendGroupMessageResponse {
    pub ok: bool,
}

/// Answer to a request to send a discussion message.
#[derive(Clone, Debug)]
pub struct SendDiscussMessageResponse {
    pub ok: bool,
}

/// JSON text of a boolean.
pub open spec fn bool_text(b: bool) -> Seq<char> {
    if b {
        "true"@
    } else {
        "false"@
    }
}

/// JSON text of a private message whose text has been quoted already.
pub open spec fn private_event_text(from: int, quoted: Seq<char>) -> Seq<char> {
    "{\"from\":"@ + decimal(from) + ",\"message\":"@ + quoted + "}"@
}

/// JSON text of a group message whose text has been quoted already.
pub open spec fn group_event_text(group: int, from: int, quoted: Seq<char>) -> Seq<char> {
    "{\"group\":"@ + decimal(group) + ",\"from\":"@ + decimal(from) + ",\"message\":"@ + quoted
        + "}"@
}

/// JSON text of a discussion message whose text has been quoted already.
pub open spec fn discuss_event_text(discuss: int, from: int, quoted: Seq<char>) -> Seq<char> {
    "{\"discuss\":"@ + decimal(discuss) + ",\"from\":"@ + decimal(from) + ",\"message\":"@
        + quoted + "}"@
}

/// JSON text of an administrator change.
pub open spec fn admin_changed_text(group: int, operand: int, set: bool) -> Seq<char> {
    "{\"group\":"@ + decimal(group) + ",\"operand\":"@ + decimal(operand) + ",\"set\":"@
        + bool_text(set) + "}"@
}

/// JSON text of a member joining.
pub open spec fn member_increase_text(group: int, from: int, operator: int, invited: bool) -> Seq<
    char,
> {
    "{\"group\":"@ + decimal(group) + ",\"from\":"@ + decimal(from) + ",\"operator\":"@ + decimal(
        operator,
    ) + ",\"invited\":"@ + bool_text(invited) + "}"@
}

/// JSON text of a response.
pub open spec fn response_text(ok: bool) -> Seq<char> {
    "{\"ok\":"@ + bool_text(ok) + "}"@
}

fn bool_str(b: bool) -> (r: &'static str)
    ensures
        r@ == bool_text(b),
{
    if b {
        "true"
    } else {
        "false"
    }
}

/// Encodes a private message from its sender and its quoted text.
pub fn private_event_json(from: i64, quoted: &str) -> (r: String)
    ensures
        r@ == private_event_text(from as int, quoted@),
{
    let mut out = String::from_str("{\"from\":");
    out.append(decimal_text(from).as_str());
    out.append(",\"message\":");
    out.append(quoted);
    out.append("}");
    out
}

/// Encodes a group message from its numbers and its quoted text.
pub fn group_event_json(group: i64, from: i64, quoted: &str) -> (r: String)
    ensures
        r@ == group_event_text(group as int, from as int, quoted@),
{
    let mut out = String::from_str("{\"group\":");
    out.append(decimal_text(group).as_str());
    out.append(",\"from\":");
    out.append(decimal_text(from).as_str());
    out.append(",\"message\":");
    out.append(quoted);
    out.append("}");
    out
}

/// Encodes a discussion message from its numbers and its quoted text.
pub fn discuss_event_json(discuss: i64, from: i64, quoted: &str) -> (r: String)
    ensures
        r@ == discuss_event_text(discuss as int, from as int, quoted@),
{
    let mut out = String::from_str("{\"discuss\":");
    out.append(decimal_text(discuss).as_str());
    out.append(",\"from\":");
    out.append(decimal_text(from).as_str());
    out.append(",\"message\":");
    out.append(quoted);
    out.append("}");
    out
}

fn response_json(ok: bool) -> (r: Vec<u8>)
    ensures
        r@ == encode_utf8(response_text(ok)),
{
    let mut out = String::from_str("{\"ok\":");
    out.append(bool_str(ok));
    out.append("}");
    out.as_str().as_bytes_vec()
}

impl PrivateMessage {
    /// The event as JSON bytes. `None` exactly where the JSON library fails
    /// to quote the message text.
    pub fn to_json(&self) -> (r: Option<Vec<u8>>)
        ensures
            match json_quoted(self.message@) {
                Some(q) => r matches Some(v) && v@ == encode_utf8(
                    private_event_text(self.from as int, q),
                ),
                None => r is None,
            },
    {
        match quote(self.message.as_str()) {
            Some(q) => Some(private_event_json(self.from, q.as_str()).as_str().as_bytes_vec()),
            None => None,
        }
    }
}

impl GroupMessage {
    /// The event as JSON bytes. `None` exactly where the JSON library fails
    /// to quote the message text.
    pub fn to_json(&self) -> (r: Option<Vec<u8>>)
        ensures
            match json_quoted(self.message@) {
                Some(q) => r matches Some(v) && v@ == encode_utf8(
                    group_event_text(self.group as int, self.from as int, q),
                ),
                None => r is None,
            },
    {
        match quote(self.message.as_str()) {
            Some(q) => Some(
                group_event_json(self.group, self.from, q.as_str()).as_str().as_bytes_vec(),
            ),
            None => None,
        }
    }
}

impl DiscussMessage {
    /// The event as JSON bytes. `None` exactly where the JSON library fails
    /// to quote the message text.
    pub fn to_json(&self) -> (r: Option<Vec<u8>>)
        ensures
            match json_quoted(self.message@) {
                Some(q) => r matches Some(v) && v@ == encode_utf8(
                    discuss_event_text(self.discuss as int, self.from as int, q),
                ),
                None => r is None,
            },
    {
        match quote(self.message.as_str()) {
            Some(q) => Some(
                discuss_event_json(self.discuss, self.from, q.as_str()).as_str().as_bytes_vec(),
            ),
            None => None,
        }
    }
}

impl GroupAdminChanged {
    /// The event as JSON bytes.
    pub fn to_json(&self) -> (r: Vec<u8>)
        ensures
            r@ == encode_utf8(admin_changed_text(self.group as int, self.operand as int, self.set)),
    {
        let mut out = String::from_str("{\"group\":");
        out.append(decimal_text(self.group).as_str());
        out.append(",\"operand\":");
        out.append(decimal_text(self.operand).as_str());
        out.append(",\"set\":");
        out.append(bool_str(self.set));
        out.append("}");
        out.as_str().as_bytes_vec()
    }
}

impl GroupMemberIncrease {
    /// The event as JSON bytes.
    pub fn to_json(&self) -> (r: Vec<u8>)
        ensures
            r@ == encode_utf8(
                member_increase_text(
                    self.group as int,
                    self.from as int,
                    self.operator as int,
                    self.invited,
                ),
            ),
    {
        let mut out = String::from_str("{\"group\":");
        out.append(decimal_text(self.group).as_str());
        out.append(",\"from\":");
        out.append(decimal_text(self.from).as_str());
        out.append(",\"operator\":");
        out.append(decimal_text(self.operator).as_str());
        out.append(",\"invited\":");
        out.append(bool_str(self.invited));
        out.append("}");
        out.as_str().as_bytes_vec()
    }
}

impl SendPrivateMessageResponse {
    /// The response as JSON bytes.
    pub fn to_json(&self) -> (r: Vec<u8>)
        ensures
            r@ == encode_utf8(response_text(self.ok)),
    {
        response_json(self.ok)
    }
}

impl SendGroupMessageResponse {
    /// The response as JSON bytes.
    pub fn to_json(&self) -> (r: Vec<u8>)
        ensures
            r@ == encode_utf8(response_text(self.ok)),
    {
        response_json(self.ok)
    }
}

impl SendDiscussMessageResponse {
    /// The response as JSON bytes.
    pub fn to_json(&self) -> (r: Vec<u8>)
        ensures
            r@ == encode_utf8(response_text(self.ok)),
    {
        response_json(self.ok)
    }
}

} // verus!

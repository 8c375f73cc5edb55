//! Decoding of command envelopes.
//!
//! An envelope is a JSON object `{api, params}`. `api` names one of three
//! send commands; `params` carries the target under a key that depends on
//! the command, and the text under `message`.

use vstd::prelude::*;
use vstd::string::*;
use crate::json::{integer, json_content, json_parsed, member, member_of, text, JsonModel};

verus! {

/// The three commands that the bridge accepts.
#[derive(Clone, Copy, Debug, PartialEq, Eq, Structural)]
pub enum CommandKind {
    SendPrivateMessage,
    SendGroupMessage,
    SendDiscussMessage,
}

/// Why a delivery's body is not a command.
#[derive(Clone, Copy, Debug, PartialEq, Eq, Structural)]
pub enum CommandError {
    /// The body is not JSON.
    NotJson,
    /// The body is JSON, but not an object.
    NotObject,
    /// The object has no member `api`.
    ApiMissing,
    /// `api` is not a string.
    ApiNotString,
    /// `api` names no command.
    UnknownApi,
    /// The object has no member `params`.
    ParamsMissing(CommandKind),
    /// `params` lacks the command's target.
    TargetMissing(CommandKind),
    /// The target is not an integer that fits 64 bits.
    TargetNotInteger(CommandKind),
    /// `params` has no member `message`.
    MessageMissing(CommandKind),
    /// `message` is not a string.
    MessageNotString(CommandKind),
}

/// What looking for a member of a given type found.
#[derive(Clone, Debug)]
pub enum Lookup<T> {
    Missing,
    WrongType,
    Found(T),
}

/// A decoded command.
#[derive(Clone, Debug)]
pub struct Command {
    pub kind: CommandKind,
    pub target: i64,
    pub message: String,
}

/// A command, with its text as a sequence of characters.
pub struct CommandModel {
    pub kind: CommandKind,
    pub target: i64,
    pub message: Seq<char>,
}

impl View for Command {
    type V = CommandModel;

    open spec fn view(&self) -> CommandModel {
        CommandModel { kind: self.kind, target: self.target, message: self.message@ }
    }
}

/// The command that an `api` string names.
pub open spec fn api_kind(api: Seq<char>) -> Option<CommandKind> {
    if api == "send_private_message"@ {
        Some(CommandKind::SendPrivateMessage)
    } else if api == "send_group_message"@ {
        Some(CommandKind::SendGroupMessage)
    } else if api == "send_discuss_message"@ {
        Some(CommandKind::SendDiscussMessage)
    } else {
        None
    }
}

/// The key under which `params` holds a command's target.
pub open spec fn target_key_of(kind: CommandKind) -> Seq<char> {
    match kind {
        CommandKind::SendPrivateMessage => "to"@,
        CommandKind::SendGroupMessage => "group"@,
        CommandKind::SendDiscussMessage => "discuss"@,
    }
}

/// A text lookup, with the text as a sequence of characters.
pub open spec fn text_found(found: Lookup<String>) -> Lookup<Seq<char>> {
    match found {
        Lookup::Missing => Lookup::Missing,
        Lookup::WrongType => Lookup::WrongType,
        Lookup::Found(s) => Lookup::Found(s@),
    }
}

/// The command kind that an envelope names, from whether the document is an
/// object and what its `api` member holds.
pub open spec fn resolved(object: bool, api: Lookup<Seq<char>>) -> Result<
    CommandKind,
    CommandError,
> {
    if !object {
        Err(CommandError::NotObject)
    } else {
        match api {
            Lookup::Missing => Err(CommandError::ApiMissing),
            Lookup::WrongType => Err(CommandError::ApiNotString),
            Lookup::Found(name) => match api_kind(name) {
                Some(kind) => Ok(kind),
                None => Err(CommandError::UnknownApi),
            },
        }
    }
}

/// The command that `params` describes: the target is examined first, the
/// text second.
pub open spec fn assembled(
    kind: CommandKind,
    target: Lookup<i64>,
    message: Lookup<Seq<char>>,
) -> Result<CommandModel, CommandError> {
    match target {
        Lookup::Missing => Err(CommandError::TargetMissing(kind)),
        Lookup::WrongType => Err(CommandError::TargetNotInteger(kind)),
        Lookup::Found(t) => match message {
            Lookup::Missing => Err(CommandError::MessageMissing(kind)),
            Lookup::WrongType => Err(CommandError::MessageNotString(kind)),
            Lookup::Found(m) => Ok(CommandModel { kind, target: t, message: m }),
        },
    }
}

/// The string member of `value` under `key`.
pub open spec fn text_member(value: JsonModel, key: Seq<char>) -> Lookup<Seq<char>> {
    match member_of(value, key) {
        None => Lookup::Missing,
        Some(JsonModel::Text(t)) => Lookup::Found(t),
        Some(_) => Lookup::WrongType,
    }
}

/// The integer member of `value` under `key`.
pub open spec fn integer_member(value: JsonModel, key: Seq<char>) -> Lookup<i64> {
    match member_of(value, key) {
        None => Lookup::Missing,
        Some(JsonModel::Integer(n)) => Lookup::Found(n),
        Some(_) => Lookup::WrongType,
    }
}

/// The command that a document holds. An unknown `api` is refused before a
/// missing `params`.
pub open spec fn decoded_document(document: JsonModel) -> Result<CommandModel, CommandError> {
    match resolved(document is Object, text_member(document, "api"@)) {
        Err(e) => Err(e),
        Ok(kind) => match member_of(document, "params"@) {
            None => Err(CommandError::ParamsMissing(kind)),
            Some(params) => assembled(
                kind,
                integer_member(params, target_key_of(kind)),
                text_member(params, "message"@),
            ),
        },
    }
}

/// The command that a delivery's body holds.
pub open spec fn decoded(body: Seq<u8>) -> Result<CommandModel, CommandError> {
    match json_parsed(body) {
        None => Err(CommandError::NotJson),
        Some(document) => decoded_document(document),
    }
}

impl CommandKind {
    /// The command that `api` names, if any. The comparison is exact: case
    /// and surrounding space count.
    pub fn from_api(api: &str) -> (r: Option<CommandKind>)
        ensures
            r == api_kind(api@),
    {
        let name = String::from_str(api);
        if name == String::from_str("send_private_message") {
            Some(CommandKind::SendPrivateMessage)
        } else if name == String::from_str("send_group_message") {
            Some(CommandKind::SendGroupMessage)
        } else if name == String::from_str("send_discuss_message") {
            Some(CommandKind::SendDiscussMessage)
        } else {
            None
        }
    }

    /// The key under which `params` holds the target.
    pub fn target_key(&self) -> (r: &'static str)
        ensures
            r@ == target_key_of(*self),
    {
        match self {
            CommandKind::SendPrivateMessage => "to",
            CommandKind::SendGroupMessage => "group",
            CommandKind::SendDiscussMessage => "discuss",
        }
    }
}

/// Decides which command an envelope names.
pub fn resolve(object: bool, api: Lookup<String>) -> (r: Result<CommandKind, CommandError>)
    ensures
        r == resolved(object, text_found(api)),
{
    if !object {
        return Err(CommandError::NotObject);
    }
    match api {
        Lookup::Missing => Err(CommandError::ApiMissing),
        Lookup::WrongType => Err(CommandError::ApiNotString),
        Lookup::Found(name) => match CommandKind::from_api(name.as_str()) {
            Some(kind) => Ok(kind),
            None => Err(CommandError::UnknownApi),
        },
    }
}

/// Builds a command from what `params` held.
pub fn assemble(kind: CommandKind, target: Lookup<i64>, message: Lookup<String>) -> (r: Result<
    Command,
    CommandError,
>)
    ensures
        match assembled(kind, target, text_found(message)) {
            Ok(c) => r matches Ok(built) && built@ == c,
            Err(e) => r == Err::<Command, CommandError>(e),
        },
{
    match target {
        Lookup::Missing => Err(CommandError::TargetMissing(kind)),
        Lookup::WrongType => Err(CommandError::TargetNotInteger(kind)),
        Lookup::Found(t) => match message {
            Lookup::Missing => Err(CommandError::MessageMissing(kind)),
            Lookup::WrongType => Err(CommandError::MessageNotString(kind)),
            Lookup::Found(m) => Ok(Command { kind, target: t, message: m }),
        },
    }
}

/// Looks for a string member.
pub(crate) fn find_text(value: &serde_json::Value, key: &str) -> (r: Lookup<String>)
    ensures
        text_found(r) == text_member(json_content(*value), key@),
{
    match member(value, key) {
        None => Lookup::Missing,
        Some(m) => match text(m) {
            None => Lookup::WrongType,
            Some(t) => Lookup::Found(String::from_str(t)),
        },
    }
}

/// Looks for an integer member.
pub(crate) fn find_integer(value: &serde_json::Value, key: &str) -> (r: Lookup<i64>)
    ensures
        r == integer_member(json_content(*value), key@),
{
    match member(value, key) {
        None => Lookup::Missing,
        Some(m) => match integer(m) {
            None => Lookup::WrongType,
            Some(n) => Lookup::Found(n),
        },
    }
}

} // verus!

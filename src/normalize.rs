//! The two response policies: status-driven and envelope-driven.
//!
//! Each takes what the transport read (a status code and the body text) and
//! returns either the body to decode or an [`Error`]. Neither decodes the
//! payload itself: on success the body comes back exactly as it was read.
use vstd::prelude::*;
use crate::json::{
    find_member, json_object_members, member, members_view, parse_object, same_text, JsonMember,
    MemberModel, Members,
};
use crate::text::{decimal, push_decimal};
use crate::Error;

verus! {

/// The message of an error body of the shape
/// `{ "message": string, "details"?: string }`.
pub open spec fn error_response_message(obj: Members) -> Option<Seq<char>> {
    match member(obj, "message"@) {
        Some(MemberModel::Text(m)) => match member(obj, "details"@) {
            None => Some(m),
            Some(MemberModel::Text(_)) => Some(m),
            _ => None,
        },
        _ => None,
    }
}

/// The message of a rejected status-driven response: the `message` of an
/// error body, or else the body text verbatim.
pub open spec fn api_error_text(body: Seq<char>) -> Seq<char> {
    match json_object_members(body) {
        Some(obj) => match error_response_message(obj) {
            Some(m) => m,
            None => body,
        },
        None => body,
    }
}

/// Whether a status code is a success for a response that carries a body.
pub open spec fn is_body_success(status: u16) -> bool {
    status == 200 || status == 201
}

/// The message of an error object of the shape
/// `{ "message": string, "details"?: string }`, if it has that shape.
pub fn error_message_of(obj: &Vec<(String, JsonMember)>) -> (r: Option<String>)
    ensures
        match r {
            Some(m) => error_response_message(members_view(obj@)) == Some(m@),
            None => error_response_message(members_view(obj@)) is None,
        },
{
    match find_member(obj, "message") {
        Some(JsonMember::Text(m)) => match find_member(obj, "details") {
            None => Some(m.clone()),
            Some(JsonMember::Text(_)) => Some(m.clone()),
            _ => None,
        },
        _ => None,
    }
}

/// The error that a rejected status-driven response stands for.
pub fn build_api_error(body: &String) -> (r: Error)
    ensures
        r matches Error::Api(m) && m@ == api_error_text(body@),
{
    if let Ok(obj) = parse_object(body.as_str()) {
        if let Some(m) = error_message_of(&obj) {
            return Error::Api(m);
        }
    }
    Error::Api(body.clone())
}

/// Status-driven policy for an operation that returns a value: 200 and 201
/// hand the body on, anything else is rejected with [`build_api_error`].
pub fn handle_response_with_body(status: u16, body: String) -> (r: crate::Result<String>)
    ensures
        is_body_success(status) ==> (r matches Ok(b) && b@ == body@),
        !is_body_success(status) ==> (r matches Err(Error::Api(m)) && m@ == api_error_text(body@)),
{
    if status == 200 || status == 201 {
        Ok(body)
    } else {
        Err(build_api_error(&body))
    }
}

/// Status-driven policy for an operation that returns nothing: 204 is
/// success, anything else is rejected with [`build_api_error`].
pub fn handle_empty_response(status: u16, body: String) -> (r: crate::Result<()>)
    ensures
        status == 204 ==> r is Ok,
        status != 204 ==> (r matches Err(Error::Api(m)) && m@ == api_error_text(body@)),
{
    if status == 204 {
        Ok(())
    } else {
        Err(build_api_error(&body))
    }
}

/// A rejected status-driven response whose body is an error object carries
/// exactly that object's `message`.
pub proof fn lemma_error_body_message(body: Seq<char>, message: Seq<char>)
    requires
        json_object_members(body) matches Some(obj)
            && member(obj, "message"@) == Some(MemberModel::Text(message))
            && (member(obj, "details"@) is None
                || member(obj, "details"@) matches Some(MemberModel::Text(_))),
    ensures
        api_error_text(body) == message,
{
}

/// A rejected status-driven response whose body cannot be read as an error
/// object carries the body text verbatim.
pub proof fn lemma_unreadable_error_body(body: Seq<char>)
    requires
        json_object_members(body) is None
            || error_response_message(json_object_members(body)->0) is None,
    ensures
        api_error_text(body) == body,
{
}

/// A rejected envelope without a message carries the fixed message
/// `"Unknown API error"`.
pub proof fn lemma_rejected_envelope_default_message(body: Seq<char>)
    requires
        json_object_members(body) matches Some(obj)
            && member(obj, "status"@) == Some(MemberModel::Text("ERROR"@))
            && member(obj, "message"@) is None,
    ensures
        envelope_of(body) == Some(("ERROR"@, None::<Seq<char>>)),
        envelope_error_text((envelope_of(body)->0).1) == "Unknown API error"@,
{
}

/// The status envelope of a JSON object: its `status` and, where that is
/// `"ERROR"`, its optional `message`. `None` where `status` is absent or not
/// a string, or where an `"ERROR"` envelope has a `message` that is neither
/// absent, null nor a string. Any other status leaves `message` unread.
pub open spec fn envelope_members(obj: Members) -> Option<(Seq<char>, Option<Seq<char>>)> {
    match member(obj, "status"@) {
        Some(MemberModel::Text(s)) => if s == "ERROR"@ {
            match member(obj, "message"@) {
                None => Some((s, None)),
                Some(MemberModel::Null) => Some((s, None)),
                Some(MemberModel::Text(m)) => Some((s, Some(m))),
                Some(MemberModel::Other) => None,
            }
        } else {
            Some((s, None))
        },
        _ => None,
    }
}

/// An envelope whose `status` is a string other than `"ERROR"` is read
/// whatever else the object holds, `message` included, and leads to no
/// message: such a body is handed on whole, to be decoded as the value.
pub proof fn lemma_success_envelope_reads_status_only(body: Seq<char>, status: Seq<char>)
    requires
        json_object_members(body) matches Some(obj) && member(obj, "status"@) == Some(
            MemberModel::Text(status),
        ),
        status != "ERROR"@,
    ensures
        envelope_of(body) == Some((status, None::<Seq<char>>)),
{
}

/// The status envelope of an envelope-driven body, or `None` where the body
/// is not a JSON object with an envelope.
pub open spec fn envelope_of(body: Seq<char>) -> Option<(Seq<char>, Option<Seq<char>>)> {
    match json_object_members(body) {
        Some(obj) => envelope_members(obj),
        None => None,
    }
}

/// The message of a rejected envelope: its own, or a fixed one.
pub open spec fn envelope_error_text(message: Option<Seq<char>>) -> Seq<char> {
    match message {
        Some(m) => m,
        None => "Unknown API error"@,
    }
}

/// Reads the status envelope of a JSON object: its `status` and, where that
/// is `"ERROR"`, its optional `message`.
pub fn envelope_from_members(obj: &Vec<(String, JsonMember)>) -> (r: crate::Result<(String, Option<String>)>)
    ensures
        match envelope_members(members_view(obj@)) {
            None => r matches Err(Error::Json(_)),
            Some((s, msg)) => r matches Ok((rs, rm)) && rs@ == s && match rm {
                Some(m) => msg == Some(m@),
                None => msg is None,
            },
        },
{
    let status = match find_member(obj, "status") {
        Some(JsonMember::Text(s)) => s.clone(),
        _ => {
            return Err(Error::Json(String::from_str("missing or non-string field `status`")));
        },
    };
    if !same_text(&status, "ERROR") {
        return Ok((status, None));
    }
    match find_member(obj, "message") {
        None => Ok((status, None)),
        Some(JsonMember::Null) => Ok((status, None)),
        Some(JsonMember::Text(m)) => Ok((status, Some(m.clone()))),
        Some(JsonMember::Other) => Err(Error::Json(String::from_str("non-string field `message`"))),
    }
}

/// Decides on a body by its envelope: a `status` of `"ERROR"` rejects it
/// with `message`, or a fixed message where there is none; any other status
/// hands the body on unchanged.
pub fn decide_envelope(status: &String, message: Option<String>, body: String) -> (r: crate::Result<String>)
    ensures
        status@ == "ERROR"@ ==> (r matches Err(Error::Api(m)) && m@ == envelope_error_text(
            match message {
                Some(m) => Some(m@),
                None => None,
            },
        )),
        status@ != "ERROR"@ ==> (r matches Ok(b) && b == body),
{
    if same_text(status, "ERROR") {
        match message {
            Some(m) => Err(Error::Api(m)),
            None => Err(Error::Api(String::from_str("Unknown API error"))),
        }
    } else {
        Ok(body)
    }
}

/// Envelope-driven policy: a body whose `status` is `"ERROR"` is rejected
/// with its message; any other status hands the whole body on, unchanged,
/// to be decoded as the operation's value. A body without an envelope is a
/// decoding failure. The envelope is read before, and apart from, the
/// payload's own shape.
pub fn check_envelope(body: String) -> (r: crate::Result<String>)
    ensures
        envelope_of(body@) is None ==> (r matches Err(Error::Json(_))),
        envelope_of(body@) matches Some((s, msg)) ==> {
            if s == "ERROR"@ {
                r matches Err(Error::Api(m)) && m@ == envelope_error_text(msg)
            } else {
                r matches Ok(b) && b@ == body@
            }
        },
{
    let obj = match parse_object(body.as_str()) {
        Ok(obj) => obj,
        Err(e) => {
            return Err(Error::Json(e));
        },
    };
    match envelope_from_members(&obj) {
        Ok((status, message)) => decide_envelope(&status, message, body),
        Err(e) => Err(e),
    }
}

/// Whether a status code is in the success class.
pub open spec fn is_success_class(status: u16) -> bool {
    200 <= status <= 299
}

/// The message of a transport failure on status `status`.
pub open spec fn status_failure_text(status: u16) -> Seq<char> {
    "HTTP status "@ + decimal(status as nat)
}

/// The response policy of a client, fixed when the client is made.
#[derive(Debug, Clone, Copy, PartialEq, Eq, Structural)]
pub enum Policy {
    /// The status code decides; see [`handle_response_with_body`].
    StatusDriven,
    /// The transport status must be a success; the body's envelope decides;
    /// see [`check_envelope`].
    EnvelopeDriven,
}

impl Policy {
    /// Turns a response that should carry a value into that value's body, or
    /// into the error it stands for.
    pub fn normalize(&self, status: u16, body: String) -> (r: crate::Result<String>)
        ensures
            *self == Policy::StatusDriven ==> {
                &&& is_body_success(status) ==> (r matches Ok(b) && b@ == body@)
                &&& !is_body_success(status) ==> (r matches Err(Error::Api(m)) && m@ == api_error_text(body@))
            },
            *self == Policy::EnvelopeDriven ==> {
                &&& !is_success_class(status) ==> (r matches Err(Error::Http(m)) && m@ == status_failure_text(status))
                &&& is_success_class(status) && envelope_of(body@) is None ==> (r matches Err(Error::Json(_)))
                &&& is_success_class(status) ==> match envelope_of(body@) {
                    Some((s, msg)) => if s == "ERROR"@ {
                        r matches Err(Error::Api(m)) && m@ == envelope_error_text(msg)
                    } else {
                        r matches Ok(b) && b@ == body@
                    },
                    None => true,
                }
            },
    {
        match self {
            Policy::StatusDriven => handle_response_with_body(status, body),
            Policy::EnvelopeDriven => {
                if 200 <= status && status <= 299 {
                    check_envelope(body)
                } else {
                    let mut m = String::from_str("HTTP status ");
                    push_decimal(&mut m, status as u64);
                    Err(Error::Http(m))
                }
            },
        }
    }
}

} // verus!

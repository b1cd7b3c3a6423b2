//! What goes out with a request: its method, and the credentials applied by
//! the client's authentication strategy.
use vstd::prelude::*;
use crate::json::{json_string_literal, quote};
use crate::Error;

verus! {

/// The HTTP method of a request.
#[derive(Debug, Clone, Copy, PartialEq, Eq, Structural)]
pub enum Method {
    Get,
    Post,
    Put,
    Patch,
    Delete,
}

/// How a client authenticates every request it sends. The strategy is fixed
/// when the client is made.
#[derive(Debug, Clone)]
pub enum Credentials {
    /// A username and token sent as an HTTP Basic-Authorization header; the
    /// body goes out as the caller gave it.
    Header { username: String, token: String },
    /// An API key and its secret merged into the JSON body of every request,
    /// alongside the caller's own members; no header is added.
    Embedded { apikey: String, secretapikey: String },
}

/// The authentication header and body of a request, ready to send.
#[derive(Debug, Clone)]
pub struct Outgoing {
    /// The user name and password of a Basic-Authorization header.
    pub basic_auth: Option<(String, String)>,
    /// The JSON body.
    pub body: Option<String>,
}

/// Whether `p` is framed as a JSON object: `{`, its members, `}`.
pub open spec fn is_object_text(p: Seq<char>) -> bool {
    p.len() >= 2 && p[0] == '{' && p[p.len() - 1] == '}'
}

/// The members of an object-framed text, without the braces.
pub open spec fn object_inner(p: Seq<char>) -> Seq<char> {
    p.subrange(1, p.len() - 1)
}

/// Whether `c` is JSON whitespace.
pub open spec fn is_json_space(c: char) -> bool {
    c == ' ' || c == '\t' || c == '\n' || c == '\r'
}

/// Whether `s` holds nothing but JSON whitespace: an object with these
/// between its braces has no members.
pub open spec fn is_blank(s: Seq<char>) -> bool {
    forall|i: int| 0 <= i < s.len() ==> is_json_space(#[trigger] s[i])
}

/// The body that merges the quoted credentials into an object whose members
/// are `inner`: the credentials come first, then the object's own members,
/// if it has any.
pub open spec fn embedded_body(secret_quoted: Seq<char>, key_quoted: Seq<char>, inner: Seq<char>) -> Seq<char> {
    "{\"secretapikey\":"@ + secret_quoted + ",\"apikey\":"@ + key_quoted + (if is_blank(inner) {
        Seq::<char>::empty()
    } else {
        ","@ + inner
    }) + "}"@
}

/// Whether `s` holds nothing but JSON whitespace.
pub fn blank(s: &str) -> (r: bool)
    ensures
        r == is_blank(s@),
{
    let n = s.unicode_len();
    let mut i: usize = 0;
    while i < n
        invariant
            n == s@.len(),
            i <= n,
            forall|j: int| 0 <= j < i ==> is_json_space(#[trigger] s@[j]),
        decreases n - i,
    {
        let c = s.get_char(i);
        if !(c == ' ' || c == '\t' || c == '\n' || c == '\r') {
            return false;
        }
        i = i + 1;
    }
    true
}

/// Merges an API key and secret into the JSON object `payload`. Fails
/// exactly where `payload` is not framed as an object.
pub fn embed_credentials(apikey: &str, secretapikey: &str, payload: &str) -> (r: crate::Result<String>)
    ensures
        !is_object_text(payload@) ==> r matches Err(Error::Json(_)),
        is_object_text(payload@) ==> r is Ok,
        r matches Ok(b) ==> b@ == embedded_body(
            json_string_literal(secretapikey@),
            json_string_literal(apikey@),
            object_inner(payload@),
        ),
        r matches Err(e) ==> e is Json,
{
    let n = payload.unicode_len();
    if n < 2 || payload.get_char(0) != '{' || payload.get_char(n - 1) != '}' {
        return Err(Error::Json(String::from_str("request body is not a JSON object")));
    }
    let inner = payload.substring_char(1, n - 1);
    let secret_quoted = match quote(secretapikey) {
        Ok(q) => q,
        Err(e) => {
            return Err(Error::Json(e));
        },
    };
    let key_quoted = match quote(apikey) {
        Ok(q) => q,
        Err(e) => {
            return Err(Error::Json(e));
        },
    };
    let mut body = String::from_str("{\"secretapikey\":");
    body.append(secret_quoted.as_str());
    body.append(",\"apikey\":");
    body.append(key_quoted.as_str());
    if !blank(inner) {
        body.append(",");
        body.append(inner);
    }
    body.append("}");
    Ok(body)
}

impl Credentials {
    /// Applies the strategy to a request whose own body, if any, is
    /// `payload`. Under the embedded strategy a request always has a body:
    /// the credentials alone where the caller gave none; it fails exactly
    /// where the caller's body is not framed as a JSON object.
    pub fn prepare(&self, payload: Option<String>) -> (r: crate::Result<Outgoing>)
        ensures
            match self {
                Credentials::Header { username, token } => match r {
                    Ok(o) => o.body == payload && (o.basic_auth matches Some((u, t)) && u@
                        == username@ && t@ == token@),
                    Err(_) => false,
                },
                Credentials::Embedded { apikey, secretapikey } => {
                    let inner = match payload {
                        None => Seq::<char>::empty(),
                        Some(p) => object_inner(p@),
                    };
                    let framed = match payload {
                        None => true,
                        Some(p) => is_object_text(p@),
                    };
                    &&& (!framed ==> (r matches Err(Error::Json(_))))
                    &&& (framed ==> r is Ok)
                    &&& match r {
                        Ok(o) => framed && o.basic_auth is None && o.body is Some && o.body->0@
                            == embedded_body(
                            json_string_literal(secretapikey@),
                            json_string_literal(apikey@),
                            inner,
                        ),
                        Err(e) => e is Json,
                    }
                },
            },
    {
        match self {
            Credentials::Header { username, token } => Ok(
                Outgoing { basic_auth: Some((username.clone(), token.clone())), body: payload },
            ),
            Credentials::Embedded { apikey, secretapikey } => {
                let body = match payload {
                    None => {
                        let r = embed_credentials(apikey.as_str(), secretapikey.as_str(), "{}");
                        proof {
                            reveal_strlit("{}");
                            assert(object_inner("{}"@) =~= Seq::<char>::empty());
                            assert(is_object_text("{}"@));
                        }
                        r
                    },
                    Some(p) => embed_credentials(apikey.as_str(), secretapikey.as_str(), p.as_str()),
                };
                match body {
                    Ok(b) => Ok(Outgoing { basic_auth: None, body: Some(b) }),
                    Err(e) => Err(e),
                }
            },
        }
    }
}

} // verus!

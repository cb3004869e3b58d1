//! The lifecycle of the token that authorizes a private feed: what to send to
//! acquire, refresh and release it, and how to read the replies.
use vstd::prelude::*;
use crate::json::{field_text, get_text, json_of, parse_json, JsonValue};

verus! {

/// The path of the token endpoint.
pub open spec fn listen_key_path() -> Seq<char> {
    "/fapi/v1/listenKey"@
}

#[derive(Clone, Copy, Debug, PartialEq, Eq, Structural)]
pub enum HttpMethod {
    Post,
    Put,
    Delete,
}

/// A request to the token endpoint.
#[derive(Clone, Debug)]
pub struct SessionRequest {
    pub method: HttpMethod,
    pub path: String,
    pub listen_key: Option<String>,
}

/// Why a token operation failed.
#[derive(Clone, Copy, Debug, PartialEq, Eq, Structural)]
pub enum SessionError {
    /// The credentials or the token were refused.
    AuthError,
    /// The request did not reach the service, or its reply did not come back.
    NetworkError,
    /// The reply is not what the protocol says.
    ProtocolError,
}

/// The token manager of a futures account.
#[derive(Clone, Debug)]
pub struct FuturesUserStream {
    pub api_key: Option<String>,
    pub recv_window: u64,
}

impl FuturesUserStream {
    /// The request that acquires a new token.
    pub fn start(&self) -> (r: SessionRequest)
        ensures
            r.method == HttpMethod::Post,
            r.path@ == listen_key_path(),
            r.listen_key is None,
    {
        SessionRequest { method: HttpMethod::Post, path: String::from_str("/fapi/v1/listenKey"), listen_key: None }
    }

    /// The request that extends the life of `listen_key`.
    pub fn keep_alive(&self, listen_key: &str) -> (r: SessionRequest)
        ensures
            r.method == HttpMethod::Put,
            r.path@ == listen_key_path(),
            r.listen_key matches Some(k) && k@ == listen_key@,
    {
        SessionRequest {
            method: HttpMethod::Put,
            path: String::from_str("/fapi/v1/listenKey"),
            listen_key: Some(String::from_str(listen_key)),
        }
    }

    /// The request that releases `listen_key`.
    pub fn close(&self, listen_key: &str) -> (r: SessionRequest)
        ensures
            r.method == HttpMethod::Delete,
            r.path@ == listen_key_path(),
            r.listen_key matches Some(k) && k@ == listen_key@,
    {
        SessionRequest {
            method: HttpMethod::Delete,
            path: String::from_str("/fapi/v1/listenKey"),
            listen_key: Some(String::from_str(listen_key)),
        }
    }
}

pub open spec fn is_success(status: u16) -> bool {
    200 <= status < 300
}

pub open spec fn is_refusal(status: u16) -> bool {
    status == 401 || status == 403
}

/// The token that a reply to `start` carries in its `listenKey` field.
pub open spec fn listen_key_of(body: Seq<u8>) -> Option<Seq<char>> {
    match json_of(body) {
        Some(JsonValue::Object(m)) => field_text(m@, "listenKey"@),
        _ => None,
    }
}

/// Reads the reply to `start`.
pub fn read_start_reply(status: u16, body: &[u8]) -> (r: Result<String, SessionError>)
    ensures
        is_refusal(status) ==> r == Err::<String, SessionError>(SessionError::AuthError),
        !is_refusal(status) && !is_success(status) ==> r == Err::<String, SessionError>(SessionError::ProtocolError),
        is_success(status) ==> match listen_key_of(body@) {
            Some(k) => r matches Ok(t) && t@ == k,
            None => r == Err::<String, SessionError>(SessionError::ProtocolError),
        },
{
    if status == 401 || status == 403 {
        return Err(SessionError::AuthError);
    }
    if !(200 <= status && status < 300) {
        return Err(SessionError::ProtocolError);
    }
    match parse_json(body) {
        Some(JsonValue::Object(m)) => match get_text(&m, "listenKey") {
            Ok(t) => Ok(t),
            Err(_) => Err(SessionError::ProtocolError),
        },
        _ => Err(SessionError::ProtocolError),
    }
}

/// Reads the reply to `keep_alive` or `close`.
pub fn read_ack(status: u16) -> (r: Result<(), SessionError>)
    ensures
        is_success(status) <==> r is Ok,
        is_refusal(status) ==> r == Err::<(), SessionError>(SessionError::AuthError),
        !is_refusal(status) && !is_success(status) ==> r == Err::<(), SessionError>(SessionError::ProtocolError),
{
    if status == 401 || status == 403 {
        Err(SessionError::AuthError)
    } else if 200 <= status && status < 300 {
        Ok(())
    } else {
        Err(SessionError::ProtocolError)
    }
}

} // verus!

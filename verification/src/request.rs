//! The authenticated request pipeline: what is sent with a call, and what a
//! reply comes to.

use vstd::prelude::*;
use vstd::string::*;

use crate::api::API;
use crate::error::APIError;
use crate::text::{pairs_view, text_of};

verus! {

/// The one status that stands for success.
pub const STATUS_OK: u16 = 200;

/// The verbs the service is spoken to with.
#[derive(Debug, Clone, Copy, PartialEq, Eq)]
pub enum Method {
    Get,
    Post,
}

/// What a call carries: a value to be sent as JSON, or nothing.
#[derive(Debug, Clone)]
pub enum APIBody<T> {
    Json(T),
    NoBody,
}

/// A call as an operation describes it, before a credential is attached.
#[derive(Debug, Clone)]
pub struct Call<T> {
    pub method: Method,
    pub url: String,
    pub body: APIBody<T>,
}

/// A call with its headers, ready to be sent.
#[derive(Debug, Clone)]
pub struct Prepared<T> {
    pub method: Method,
    pub url: String,
    pub headers: Vec<(String, String)>,
    pub body: APIBody<T>,
}

/// The headers of an authenticated call, in the order they are set: the
/// credential, the kind of answer wanted and, where something is sent, the
/// kind of what is sent.
pub open spec fn header_list(token: Seq<char>, has_body: bool) -> Seq<(Seq<char>, Seq<char>)> {
    let always = seq![("Authorization"@, token), ("Accept"@, "application/json"@)];
    if has_body {
        always.push(("Content-Type"@, "application/json"@))
    } else {
        always
    }
}

/// What `serde_json` finds under `key` in `text`: the string held there
/// where `text` is a JSON object with a member of that name that is a string
/// (the last such member, should the name stand twice), and `None` in every
/// other case.
pub uninterp spec fn json_text_field(text: Seq<char>, key: Seq<char>) -> Option<Seq<char>>;

/// Reads `text` with `serde_json::from_str` as a `serde_json::Value`, looks
/// `key` up in it with `Value::get` and takes the string out of what is found
/// with `Value::as_str`. The result is a function of the two arguments, which
/// is all the contract claims: it gives that function its name.
#[verifier::external_body]
fn text_field(text: &str, key: &str) -> (found: Option<String>)
    ensures
        text_of(found) == json_text_field(text@, key@),
{
    let value: serde_json::Value = serde_json::from_str(text).ok()?;
    value.get(key)?.as_str().map(String::from)
}

/// The message of a failure reply, given what was found under `error` and
/// under `message` in it: the first where there is one, else the second, else
/// the reply as it came.
pub open spec fn chosen_message(
    error: Option<Seq<char>>,
    message: Option<Seq<char>>,
    text: Seq<char>,
) -> Seq<char> {
    match error {
        Some(found) => found,
        None => match message {
            Some(found) => found,
            None => text,
        },
    }
}

/// The message of a failure reply with body `text`.
pub open spec fn server_message(text: Seq<char>) -> Seq<char> {
    chosen_message(json_text_field(text, "error"@), json_text_field(text, "message"@), text)
}

/// Picks the message of a failure reply from what its body held.
pub fn choose_message(error: Option<String>, message: Option<String>, text: String) -> (chosen:
    String)
    ensures
        chosen@ == chosen_message(text_of(error), text_of(message), text@),
{
    match error {
        Some(found) => found,
        None => match message {
            Some(found) => found,
            None => text,
        },
    }
}

/// The message of a failure reply with body `text`.
pub fn server_error_message(text: String) -> (message: String)
    ensures
        message@ == server_message(text@),
{
    let error = text_field(text.as_str(), "error");
    let message = text_field(text.as_str(), "message");
    choose_message(error, message, text)
}

impl API {
    /// Attaches the credential and the standard headers to `call`. A failure
    /// to obtain the credential is passed on as it is, and nothing is sent.
    pub fn authenticated_request<I>(token: Result<String, APIError>, call: Call<I>) -> (request:
        Result<Prepared<I>, APIError>)
        ensures
            match token {
                Ok(token) => {
                    &&& request is Ok
                    &&& request.unwrap().method == call.method
                    &&& request.unwrap().url == call.url
                    &&& request.unwrap().body == call.body
                    &&& pairs_view(request.unwrap().headers@) == header_list(
                        token@,
                        call.body is Json,
                    )
                },
                Err(error) => request == Err::<Prepared<I>, APIError>(error),
            },
    {
        let token = match token {
            Ok(token) => token,
            Err(error) => {
                return Err(error);
            },
        };
        let has_body = match &call.body {
            APIBody::Json(_) => true,
            APIBody::NoBody => false,
        };
        let mut headers: Vec<(String, String)> = Vec::new();
        headers.push((String::from_str("Authorization"), token));
        headers.push((String::from_str("Accept"), String::from_str("application/json")));
        if has_body {
            headers.push((String::from_str("Content-Type"), String::from_str("application/json")));
        }
        Ok(Prepared { method: call.method, url: call.url, headers, body: call.body })
    }

    /// What a reply comes to. `status` is its status code, `uri` the address
    /// that answered, `text` its body where that could be read as text, and
    /// `decoded` the value read from the body where it has the shape that the
    /// operation expects.
    ///
    /// With status 200 the reply is the decoded value, or `BadFormat` where
    /// there is none. With any other status it is a `ServerError` that holds
    /// `uri` and the message found in the body, or `BadFormat` where the body
    /// could not be read.
    pub fn decode_response<O>(
        status: u16,
        uri: Option<http::Uri>,
        text: Option<String>,
        decoded: Option<O>,
    ) -> (result: Result<O, APIError>)
        ensures
            status == STATUS_OK ==> result == match decoded {
                Some(value) => Ok::<O, APIError>(value),
                None => Err::<O, APIError>(APIError::BadFormat),
            },
            status != STATUS_OK ==> match text {
                Some(text) => {
                    &&& result matches Err(APIError::ServerError(answered, message))
                    &&& answered == uri
                    &&& message@ == server_message(text@)
                },
                None => result == Err::<O, APIError>(APIError::BadFormat),
            },
    {
        if status == STATUS_OK {
            match decoded {
                Some(value) => Ok(value),
                None => Err(APIError::BadFormat),
            }
        } else {
            match text {
                Some(text) => Err(APIError::ServerError(uri, server_error_message(text))),
                None => Err(APIError::BadFormat),
            }
        }
    }
}

} // verus!

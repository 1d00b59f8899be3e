//! The error type shared by every operation of the client.

use vstd::prelude::*;
use vstd::string::*;

verus! {

#[verifier::external_type_specification]
#[verifier::external_body]
pub struct ExHttpError(http::Error);

#[verifier::external_type_specification]
#[verifier::external_body]
pub struct ExIsahcError(isahc::Error);

#[verifier::external_type_specification]
#[verifier::external_body]
pub struct ExUri(http::Uri);

/// Why an operation of the client did not produce its value.
#[derive(Debug)]
pub enum APIError {
    /// The server refused the credential.
    Unauthorized,
    /// A reply or a redirect could not be understood.
    BadFormat,
    /// A request could not be put together.
    HTTPError(http::Error),
    /// A request could not be carried out.
    IsahcError(isahc::Error),
    /// The server answered with a failure status; holds the address that
    /// answered, where known, and the best message found in the reply.
    ServerError(Option<http::Uri>, String),
    /// The secret provider stopped before any secret was accepted.
    LoginAborted,
}

impl APIError {
    /// Whether `text` is the line shown to a person for this error. Where the
    /// error carries a value of another crate, the line holds that value as
    /// its own `Display` writes it.
    pub open spec fn describes(&self, text: Seq<char>) -> bool {
        match self {
            APIError::Unauthorized => text
                == "Unauthorized (Did your Kerberos ticket expire?: `kinit`)"@,
            APIError::BadFormat => text == "BadFormat (The server sent data we didn't understand)"@,
            APIError::ServerError(Some(uri), message) => exists|shown: String|
                #![auto]
                to_string_from_display_ensures::<http::Uri>(uri, shown) && text
                    == "ServerError for "@ + shown@ + ": "@ + message@,
            APIError::ServerError(None, message) => text == "ServerError for "@ + "<unknown>"@
                + ": "@ + message@,
            APIError::HTTPError(err) => exists|shown: String|
                #![auto]
                to_string_from_display_ensures::<http::Error>(err, shown) && text
                    == "HTTPError: "@ + shown@,
            APIError::IsahcError(err) => exists|shown: String|
                #![auto]
                to_string_from_display_ensures::<isahc::Error>(err, shown) && text
                    == "IsahcError: "@ + shown@,
            APIError::LoginAborted => text == "LoginAborted"@,
        }
    }

    /// The line shown to a person for this error.
    pub fn describe(&self) -> (text: String)
        ensures
            self.describes(text@),
    {
        match self {
            APIError::Unauthorized => String::from_str(
                "Unauthorized (Did your Kerberos ticket expire?: `kinit`)",
            ),
            APIError::BadFormat => String::from_str(
                "BadFormat (The server sent data we didn't understand)",
            ),
            APIError::ServerError(path, message) => {
                let mut text = String::from_str("ServerError for ");
                match path {
                    Some(uri) => {
                        let shown = uri.to_string();
                        text.append(shown.as_str());
                    },
                    None => {
                        text.append("<unknown>");
                    },
                }
                text.append(": ");
                text.append(message.as_str());
                text
            },
            APIError::HTTPError(err) => {
                let shown = err.to_string();
                String::from_str("HTTPError: ").concat(shown.as_str())
            },
            APIError::IsahcError(err) => {
                let shown = err.to_string();
                String::from_str("IsahcError: ").concat(shown.as_str())
            },
            APIError::LoginAborted => String::from_str("LoginAborted"),
        }
    }
}

} // verus!

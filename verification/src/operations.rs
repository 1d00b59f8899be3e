//! The operations on the service: which call each one makes, and what the
//! reply to it means.

use vstd::prelude::*;
use vstd::string::*;

use crate::api::{API, AUTHORIZATION_URL, USERINFO_URL};
use crate::error::APIError;
use crate::model::{CreditResponse, DropRequest, DropResponse, User};
use crate::request::{APIBody, Call, Method};
use crate::text::text_of;

verus! {

/// Where a drop is asked for.
pub open spec fn drop_url(base: Seq<char>) -> Seq<char> {
    base + "/drinks/drop"@
}

/// Where the credits of the user `uid` are asked for.
pub open spec fn credits_url(base: Seq<char>, uid: Seq<char>) -> Seq<char> {
    base + "/users/credits?uid="@ + uid
}

/// Where the machines are listed: all of them, or the one named.
pub open spec fn status_url(base: Seq<char>, machine: Option<Seq<char>>) -> Seq<char> {
    match machine {
        Some(name) => base + "/drinks"@ + "?machine="@ + name,
        None => base + "/drinks"@,
    }
}

/// How far asking for the credits has come.
#[derive(Debug)]
pub enum CreditsProgress {
    /// Nothing has been asked yet.
    Begin,
    /// The identity provider was asked whose credential this is.
    Identified(Result<User, APIError>),
    /// The service was asked for that user's credits.
    Answered(Result<CreditResponse, APIError>),
}

/// What asking for the credits needs next, or what it came to.
#[derive(Debug)]
pub enum CreditsStep {
    /// Make this call and report the user it names.
    Identify(Call<()>),
    /// Make this call and report the credits it tells of.
    Fetch(Call<()>),
    /// The balance, or why there is none.
    Done(Result<i64, APIError>),
}

impl API {
    /// The authorization request: what is sent when a search for the
    /// credential asks for one. It carries no secret; the identity provider
    /// is to recognise the caller by the ticket it already holds.
    pub fn authorization() -> (call: Call<()>)
        ensures
            call.method == Method::Get,
            call.url@ == AUTHORIZATION_URL@,
            call.body is NoBody,
    {
        Call { method: Method::Get, url: String::from_str(AUTHORIZATION_URL), body: APIBody::NoBody }
    }

    /// The call that has the item in `slot` of `machine` dropped.
    pub fn drop(&self, machine: String, slot: u8) -> (call: Call<DropRequest>)
        ensures
            call.method == Method::Post,
            call.url@ == drop_url(self@.api_base_url),
            call.body == APIBody::Json(DropRequest { machine, slot }),
    {
        Call {
            method: Method::Post,
            url: self.api_base_url().clone().concat("/drinks/drop"),
            body: APIBody::Json(DropRequest { machine, slot }),
        }
    }

    /// What the reply to a drop comes to: the balance that is left, or the
    /// error as it came.
    pub fn dropped(reply: Result<DropResponse, APIError>) -> (balance: Result<i64, APIError>)
        ensures
            balance == match reply {
                Ok(response) => Ok::<i64, APIError>(response.drinkBalance),
                Err(error) => Err::<i64, APIError>(error),
            },
    {
        match reply {
            Ok(response) => Ok(response.drinkBalance),
            Err(error) => Err(error),
        }
    }

    /// Asking for the balance takes two calls: the identity provider says who
    /// the credential belongs to, then the service says what that user has.
    /// The first error ends it.
    pub fn get_credits(&self, progress: CreditsProgress) -> (step: CreditsStep)
        ensures
            match progress {
                CreditsProgress::Begin => {
                    &&& step matches CreditsStep::Identify(call)
                    &&& call.method == Method::Get
                    &&& call.url@ == USERINFO_URL@
                    &&& call.body is NoBody
                },
                CreditsProgress::Identified(Ok(user)) => {
                    &&& step matches CreditsStep::Fetch(call)
                    &&& call.method == Method::Get
                    &&& call.url@ == credits_url(self@.api_base_url, user.preferred_username@)
                    &&& call.body is NoBody
                },
                CreditsProgress::Identified(Err(error)) => step == CreditsStep::Done(Err(error)),
                CreditsProgress::Answered(Ok(response)) => step == CreditsStep::Done(
                    Ok(response.user.drinkBalance),
                ),
                CreditsProgress::Answered(Err(error)) => step == CreditsStep::Done(Err(error)),
            },
    {
        match progress {
            CreditsProgress::Begin => CreditsStep::Identify(
                Call {
                    method: Method::Get,
                    url: String::from_str(USERINFO_URL),
                    body: APIBody::NoBody,
                },
            ),
            CreditsProgress::Identified(Ok(user)) => CreditsStep::Fetch(
                Call {
                    method: Method::Get,
                    url: self.api_base_url().clone().concat("/users/credits?uid=").concat(
                        user.preferred_username.as_str(),
                    ),
                    body: APIBody::NoBody,
                },
            ),
            CreditsProgress::Identified(Err(error)) => CreditsStep::Done(Err(error)),
            CreditsProgress::Answered(Ok(response)) => CreditsStep::Done(
                Ok(response.user.drinkBalance),
            ),
            CreditsProgress::Answered(Err(error)) => CreditsStep::Done(Err(error)),
        }
    }

    /// The call that lists the machines with their slots: all machines, or
    /// only the one named.
    pub fn get_status_for_machine(&self, machine: Option<&str>) -> (call: Call<()>)
        ensures
            call.method == Method::Get,
            call.url@ == status_url(
                self@.api_base_url,
                match machine {
                    Some(name) => Some(name@),
                    None => None,
                },
            ),
            call.body is NoBody,
    {
        let listing = self.api_base_url().clone().concat("/drinks");
        let url = match machine {
            Some(name) => listing.concat("?machine=").concat(name),
            None => listing,
        };
        Call { method: Method::Get, url, body: APIBody::NoBody }
    }
}

} // verus!

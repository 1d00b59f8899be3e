//! The client itself: the address of the service, the one credential that is
//! kept for as long as the client lives, and the operations built on both.
//!
//! Nothing here reaches the network. Finding the credential is a dialogue:
//! [`API::get_token`] opens it, every [`TokenStep`] names what the caller is to
//! do next, and [`API::take_token`] takes what came of it. The operations on
//! the service describe the [`Call`](crate::request::Call) to be made and say
//! what its reply means.

use vstd::prelude::*;
use vstd::string::*;

pub use crate::error::APIError;
pub use crate::model::{DrinkList, Item, Machine, PasswordResult, Slot};

use crate::redirect::{
    credential_in_location, first_value, lemma_first_value, token_from_location,
    url_query_pairs, with_fragment_as_query, BEARER_PREFIX, TOKEN_KEY,
};

verus! {

/// Where the service is reached when nothing else is said.
pub const DEFAULT_BASE_URL: &'static str = "https://drink.csh.rit.edu";

/// The identity provider's authorization endpoint, with the client, the
/// redirect, the implicit grant and the scopes that the client asks for.
pub const AUTHORIZATION_URL: &'static str =
    "https://sso.csh.rit.edu/auth/realms/csh/protocol/openid-connect/auth?client_id=clidrink&redirect_uri=drink%3A%2F%2Fcallback&response_type=token%20id_token&scope=openid%20profile%20drink_balance&state=&nonce=";

/// The identity provider's endpoint that tells who the credential belongs to.
pub const USERINFO_URL: &'static str =
    "https://sso.csh.rit.edu/auth/realms/csh/protocol/openid-connect/userinfo";

/// The client's memory: where the service lives, the credential once it has
/// been found, and how many times the identity provider has been asked for it
/// since the search last began.
pub struct API {
    token: Option<String>,
    api_base_url: String,
    attempts: u8,
}

/// What a client holds, as plain values.
pub struct ApiView {
    pub token: Option<Seq<char>>,
    pub api_base_url: Seq<char>,
    pub attempts: nat,
}

impl View for API {
    type V = ApiView;

    closed spec fn view(&self) -> ApiView {
        ApiView {
            token: match self.token {
                Some(token) => Some(token@),
                None => None,
            },
            api_base_url: self.api_base_url@,
            attempts: self.attempts as nat,
        }
    }
}

/// The redirect location of an authorization reply, as far as it could be
/// read.
#[derive(Debug)]
pub enum Location {
    /// The reply carried no location.
    Missing,
    /// The reply carried a location that is not text.
    Unreadable,
    /// The location.
    Text(String),
}

/// A redirect location as plain values.
pub enum LocationView {
    Missing,
    Unreadable,
    Text(Seq<char>),
}

impl View for Location {
    type V = LocationView;

    open spec fn view(&self) -> LocationView {
        match self {
            Location::Missing => LocationView::Missing,
            Location::Unreadable => LocationView::Unreadable,
            Location::Text(text) => LocationView::Text(text@),
        }
    }
}

/// What the caller reports while a credential is being found.
#[derive(Debug)]
pub enum TokenEvent {
    /// A credential is wanted.
    Start,
    /// The authorization request could not be made or sent.
    TransportFailed(APIError),
    /// The authorization request was answered.
    Redirect(Location),
    /// The login flow has ended.
    LoginFinished(Result<(), APIError>),
}

/// A report as plain values.
pub enum TokenEventView {
    Start,
    TransportFailed(APIError),
    Redirect(LocationView),
    LoginFinished(Result<(), APIError>),
}

impl View for TokenEvent {
    type V = TokenEventView;

    open spec fn view(&self) -> TokenEventView {
        match self {
            TokenEvent::Start => TokenEventView::Start,
            TokenEvent::TransportFailed(error) => TokenEventView::TransportFailed(*error),
            TokenEvent::Redirect(location) => TokenEventView::Redirect(location@),
            TokenEvent::LoginFinished(result) => TokenEventView::LoginFinished(*result),
        }
    }
}

/// What the caller is to do next, or what the search came to.
#[derive(Debug)]
pub enum TokenStep {
    /// The credential.
    Ready(String),
    /// Send the authorization request and report its reply.
    Authorize,
    /// Run the login flow and report how it ended.
    Login,
    /// The search has failed.
    Failed(APIError),
}

/// A step as plain values.
pub enum TokenStepView {
    Ready(Seq<char>),
    Authorize,
    Login,
    Failed(APIError),
}

impl View for TokenStep {
    type V = TokenStepView;

    open spec fn view(&self) -> TokenStepView {
        match self {
            TokenStep::Ready(token) => TokenStepView::Ready(token@),
            TokenStep::Authorize => TokenStepView::Authorize,
            TokenStep::Login => TokenStepView::Login,
            TokenStep::Failed(error) => TokenStepView::Failed(*error),
        }
    }
}

/// The most authorization requests that one search may make: the first, and
/// one more after a login.
pub const MAX_ATTEMPTS: u8 = 2;

/// The client after a report, and the step it answers with.
///
/// A client that holds a credential answers every report with it and never
/// changes. Without one: a search begins with an authorization request; a
/// reply without a location calls for a login, unless the request was already
/// the last one allowed; a login that succeeded calls for one more request,
/// within the same bound; a location that holds a credential ends the search
/// and fills the client; everything else fails, with the error that was
/// reported where one was, with `BadFormat` otherwise.
pub open spec fn token_step(state: ApiView, event: TokenEventView) -> (ApiView, TokenStepView) {
    match state.token {
        Some(token) => (state, TokenStepView::Ready(token)),
        None => match event {
            TokenEventView::Start => (
                ApiView { attempts: 1, ..state },
                TokenStepView::Authorize,
            ),
            TokenEventView::TransportFailed(error) => (state, TokenStepView::Failed(error)),
            TokenEventView::Redirect(LocationView::Missing) => if state.attempts
                < MAX_ATTEMPTS {
                (state, TokenStepView::Login)
            } else {
                (state, TokenStepView::Failed(APIError::BadFormat))
            },
            TokenEventView::Redirect(LocationView::Unreadable) => (
                state,
                TokenStepView::Failed(APIError::BadFormat),
            ),
            TokenEventView::Redirect(LocationView::Text(location)) => match credential_in_location(
                location,
            ) {
                Some(credential) => (
                    ApiView { token: Some(credential), ..state },
                    TokenStepView::Ready(credential),
                ),
                None => (state, TokenStepView::Failed(APIError::BadFormat)),
            },
            TokenEventView::LoginFinished(Ok(_)) => if state.attempts < MAX_ATTEMPTS {
                (ApiView { attempts: state.attempts + 1, ..state }, TokenStepView::Authorize)
            } else {
                (state, TokenStepView::Failed(APIError::BadFormat))
            },
            TokenEventView::LoginFinished(Err(error)) => (state, TokenStepView::Failed(error)),
        },
    }
}

/// The client after a run of reports, oldest first, and the steps it answered
/// them with.
pub open spec fn run(state: ApiView, events: Seq<TokenEventView>) -> (ApiView, Seq<TokenStepView>)
    decreases events.len(),
{
    if events.len() == 0 {
        (state, Seq::empty())
    } else {
        let (before, steps) = run(state, events.drop_last());
        let (after, step) = token_step(before, events.last());
        (after, steps.push(step))
    }
}

/// How many of `steps` ask for an authorization request.
pub open spec fn authorizations(steps: Seq<TokenStepView>) -> nat
    decreases steps.len(),
{
    if steps.len() == 0 {
        0
    } else {
        authorizations(steps.drop_last()) + if steps.last() is Authorize {
            1nat
        } else {
            0nat
        }
    }
}

/// How many authorization requests a client may still ask for before its
/// search begins anew.
pub open spec fn budget(state: ApiView) -> nat {
    if state.attempts >= MAX_ATTEMPTS {
        0
    } else {
        (MAX_ATTEMPTS - state.attempts) as nat
    }
}

impl API {
    /// A client for the service at `api_base_url`, with no credential yet.
    pub fn new(api_base_url: String) -> (api: API)
        ensures
            api@ == (ApiView { token: None, api_base_url: api_base_url@, attempts: 0 }),
    {
        API { token: None, api_base_url, attempts: 0 }
    }

    /// Where the service is reached.
    pub fn api_base_url(&self) -> (url: &String)
        ensures
            url@ == self@.api_base_url,
    {
        &self.api_base_url
    }

    /// Takes a report and answers with the next step, as `token_step` says.
    pub fn take_token(&mut self, event: TokenEvent) -> (step: TokenStep)
        ensures
            final(self)@ == token_step(old(self)@, event@).0,
            step@ == token_step(old(self)@, event@).1,
    {
        if let Some(token) = &self.token {
            return TokenStep::Ready(token.clone());
        }
        match event {
            TokenEvent::Start => {
                self.attempts = 1;
                TokenStep::Authorize
            },
            TokenEvent::TransportFailed(error) => TokenStep::Failed(error),
            TokenEvent::Redirect(Location::Missing) => {
                if self.attempts < MAX_ATTEMPTS {
                    TokenStep::Login
                } else {
                    TokenStep::Failed(APIError::BadFormat)
                }
            },
            TokenEvent::Redirect(Location::Unreadable) => TokenStep::Failed(APIError::BadFormat),
            TokenEvent::Redirect(Location::Text(location)) => {
                match token_from_location(location.as_str()) {
                    Ok(token) => {
                        let credential = token.clone();
                        self.token = Some(token);
                        TokenStep::Ready(credential)
                    },
                    Err(error) => TokenStep::Failed(error),
                }
            },
            TokenEvent::LoginFinished(Ok(_)) => {
                if self.attempts < MAX_ATTEMPTS {
                    self.attempts = self.attempts + 1;
                    TokenStep::Authorize
                } else {
                    TokenStep::Failed(APIError::BadFormat)
                }
            },
            TokenEvent::LoginFinished(Err(error)) => TokenStep::Failed(error),
        }
    }

    /// Asks for the credential: the one the client holds, or the first step
    /// of the search for one.
    pub fn get_token(&mut self) -> (step: TokenStep)
        ensures
            final(self)@ == token_step(old(self)@, TokenEventView::Start).0,
            step@ == token_step(old(self)@, TokenEventView::Start).1,
            match old(self)@.token {
                Some(token) => step@ == TokenStepView::Ready(token) && final(self)@ == old(self)@,
                None => step@ == TokenStepView::Authorize,
            },
    {
        self.take_token(TokenEvent::Start)
    }
}

impl Default for API {
    /// A client for the service at its usual address.
    fn default() -> (api: API)
        ensures
            api@ == (ApiView { token: None, api_base_url: DEFAULT_BASE_URL@, attempts: 0 }),
    {
        API::new(String::from_str(DEFAULT_BASE_URL))
    }
}

/// A run of two runs of reports is the second run made where the first ended.
pub proof fn lemma_run_concat(
    state: ApiView,
    first: Seq<TokenEventView>,
    second: Seq<TokenEventView>,
)
    ensures
        run(state, first + second).0 == run(run(state, first).0, second).0,
        run(state, first + second).1 == run(state, first).1 + run(run(state, first).0, second).1,
    decreases second.len(),
{
    if second.len() > 0 {
        lemma_run_concat(state, first, second.drop_last());
        assert((first + second).drop_last() =~= first + second.drop_last());
    }
}

/// The authorization requests of two runs of steps add up.
pub proof fn lemma_authorizations_concat(first: Seq<TokenStepView>, second: Seq<TokenStepView>)
    ensures
        authorizations(first + second) == authorizations(first) + authorizations(second),
    decreases second.len(),
{
    if second.len() > 0 {
        lemma_authorizations_concat(first, second.drop_last());
        assert((first + second).drop_last() =~= first + second.drop_last());
    }
}

/// While no search begins anew, every authorization request that is asked
/// for is taken from the client's budget.
pub proof fn lemma_authorizations_spend_budget(state: ApiView, events: Seq<TokenEventView>)
    requires
        forall|i: int| 0 <= i < events.len() ==> !(events[i] is Start),
    ensures
        authorizations(run(state, events).1) + budget(run(state, events).0) == budget(state),
    decreases events.len(),
{
    if events.len() > 0 {
        lemma_authorizations_spend_budget(state, events.drop_last());
        let before = run(state, events.drop_last());
        assert(run(state, events).1.drop_last() =~= before.1);
    }
}

/// The credential is written once. A client that holds one answers every
/// report with it, asks for no request and no login, and stays as it is,
/// whatever is reported and however often.
pub proof fn law_credential_is_final(state: ApiView, events: Seq<TokenEventView>)
    requires
        state.token is Some,
    ensures
        run(state, events).0 == state,
        run(state, events).1.len() == events.len(),
        forall|i: int|
            0 <= i < events.len() ==> #[trigger] run(state, events).1[i] == TokenStepView::Ready(
                state.token.unwrap(),
            ),
    decreases events.len(),
{
    if events.len() > 0 {
        law_credential_is_final(state, events.drop_last());
    }
}

/// A redirect whose fragment names an access token fills the client. Where
/// the location, its `#` read as `?`, spells a URL whose query has `token` as
/// the value of its first `access_token`, a client without a credential
/// answers the redirect with `Bearer ` followed by `token`, holds that
/// credential from then on, and answers every later report with it.
pub proof fn law_redirect_yields_bearer(
    state: ApiView,
    location: Seq<char>,
    pairs: Seq<(Seq<char>, Seq<char>)>,
    at: int,
    token: Seq<char>,
    later: Seq<TokenEventView>,
)
    requires
        state.token is None,
        url_query_pairs(with_fragment_as_query(location)) == Some(pairs),
        0 <= at < pairs.len(),
        pairs[at] == (TOKEN_KEY@, token),
        forall|j: int| 0 <= j < at ==> pairs[j].0 != TOKEN_KEY@,
    ensures
        ({
            let (filled, step) = token_step(
                state,
                TokenEventView::Redirect(LocationView::Text(location)),
            );
            &&& step == TokenStepView::Ready(BEARER_PREFIX@ + token)
            &&& filled.token == Some(BEARER_PREFIX@ + token)
            &&& run(filled, later).0 == filled
            &&& forall|i: int|
                0 <= i < later.len() ==> #[trigger] run(filled, later).1[i]
                    == TokenStepView::Ready(BEARER_PREFIX@ + token)
        }),
{
    lemma_first_value(pairs, TOKEN_KEY@);
    assert(first_value(pairs, TOKEN_KEY@) == Some(token));
    let filled = token_step(state, TokenEventView::Redirect(LocationView::Text(location))).0;
    law_credential_is_final(filled, later);
}

/// The retry is bounded. A client without a credential that is asked for one
/// sends the authorization request; told that the reply had no location, it
/// calls for a login; told that the login succeeded, it sends the request
/// once more; told again that the reply had no location, it gives up with
/// `BadFormat`.
pub proof fn law_second_refusal_fails(state: ApiView)
    requires
        state.token is None,
    ensures
        ({
            let first = token_step(state, TokenEventView::Start);
            let second = token_step(first.0, TokenEventView::Redirect(LocationView::Missing));
            let third = token_step(second.0, TokenEventView::LoginFinished(Ok(())));
            let fourth = token_step(third.0, TokenEventView::Redirect(LocationView::Missing));
            &&& first.1 == TokenStepView::Authorize
            &&& second.1 == TokenStepView::Login
            &&& third.1 == TokenStepView::Authorize
            &&& fourth.1 == TokenStepView::Failed(APIError::BadFormat)
            &&& fourth.0.token is None
        }),
{
}

/// One search never asks for more than two authorization requests, whatever
/// is reported to it and in whatever order, until a search begins anew.
pub proof fn law_authorizations_are_bounded(state: ApiView, events: Seq<TokenEventView>)
    requires
        forall|i: int| 0 <= i < events.len() ==> !(events[i] is Start),
    ensures
        authorizations(run(state, seq![TokenEventView::Start] + events).1) <= MAX_ATTEMPTS,
{
    let start = seq![TokenEventView::Start];
    lemma_run_concat(state, start, events);
    let begun = run(state, start);
    assert(run(state, start.drop_last()) == (state, Seq::<TokenStepView>::empty()));
    assert(authorizations(begun.1.drop_last()) == 0);
    lemma_authorizations_spend_budget(begun.0, events);
    lemma_authorizations_concat(begun.1, run(begun.0, events).1);
}

/// Whether `event` is a report on what `step` asked for: the reply to an
/// authorization request, or the end of a login.
pub open spec fn answers(step: TokenStepView, event: TokenEventView) -> bool {
    match step {
        TokenStepView::Authorize => event is Redirect || event is TransportFailed,
        TokenStepView::Login => event is LoginFinished,
        TokenStepView::Ready(_) => false,
        TokenStepView::Failed(_) => false,
    }
}

/// Whether `step` ends a search.
pub open spec fn is_final(step: TokenStepView) -> bool {
    step is Ready || step is Failed
}

/// A search ends. A caller that asks for the credential and then reports on
/// each step it is given holds the credential or an error after three reports
/// at the latest.
pub proof fn law_search_ends(
    state: ApiView,
    first: TokenEventView,
    second: TokenEventView,
    third: TokenEventView,
)
    ensures
        ({
            let asked = token_step(state, TokenEventView::Start);
            let one = token_step(asked.0, first);
            let two = token_step(one.0, second);
            let three = token_step(two.0, third);
            ||| is_final(asked.1)
            ||| !answers(asked.1, first)
            ||| is_final(one.1)
            ||| !answers(one.1, second)
            ||| is_final(two.1)
            ||| !answers(two.1, third)
            ||| is_final(three.1)
        }),
{
}

/// A login that fails ends the search with the login's own error.
pub proof fn law_failed_login_is_passed_on(state: ApiView, error: APIError)
    requires
        state.token is None,
    ensures
        token_step(state, TokenEventView::LoginFinished(Err(error))) == (
            state,
            TokenStepView::Failed(error),
        ),
{
}

} // verus!

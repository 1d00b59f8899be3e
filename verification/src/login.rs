//! The login flow: under which name a ticket is asked for, what each attempt
//! at a secret comes to, and whether the flow as a whole succeeded.
//!
//! The caller owns the secret provider and the ticket tool. It starts a
//! [`Login`], hands every secret the provider comes up with to the tool under
//! [`Login::principal`], reports how the tool exited through
//! [`Login::try_password`], and asks [`Login::finish`] for the verdict once the
//! provider has returned.

use vstd::prelude::*;
use vstd::string::*;

use crate::api::API;
use crate::error::APIError;
use crate::model::PasswordResult;
use crate::text::text_of;

verus! {

/// The program that trades a secret for a ticket. It is run with the
/// principal as its only argument and reads the secret from its input.
pub const TICKET_TOOL: &'static str = "kinit";

/// What follows the user's name in a principal.
pub const REALM_SUFFIX: &'static str = "@CSH.RIT.EDU";

/// The name a login is made under: the explicit override where there is one,
/// else the operating system's name for the current user, else the name the
/// environment gives.
pub open spec fn resolved_identity(
    explicit: Option<Seq<char>>,
    os_user: Option<Seq<char>>,
    env_user: Option<Seq<char>>,
) -> Option<Seq<char>> {
    if explicit is Some {
        explicit
    } else if os_user is Some {
        os_user
    } else {
        env_user
    }
}

/// One run of the login flow.
pub struct Login {
    identity: String,
    signalled: bool,
}

/// A login flow as plain values: the name it runs under, and whether success
/// has been signalled.
pub struct LoginView {
    pub identity: Seq<char>,
    pub signalled: bool,
}

impl View for Login {
    type V = LoginView;

    closed spec fn view(&self) -> LoginView {
        LoginView { identity: self.identity@, signalled: self.signalled }
    }
}

/// A flow that has just begun.
pub open spec fn begun(identity: Seq<char>) -> LoginView {
    LoginView { identity, signalled: false }
}

/// The flow after one more attempt: success is signalled by an attempt that
/// succeeded, and once signalled stays so.
pub open spec fn attempted(flow: LoginView, succeeded: bool) -> LoginView {
    LoginView { identity: flow.identity, signalled: flow.signalled || succeeded }
}

/// The flow after a run of attempts, oldest first.
pub open spec fn after_attempts(flow: LoginView, outcomes: Seq<bool>) -> LoginView
    decreases outcomes.len(),
{
    if outcomes.len() == 0 {
        flow
    } else {
        attempted(after_attempts(flow, outcomes.drop_last()), outcomes.last())
    }
}

/// How a flow ends once the secret provider has returned.
pub open spec fn verdict(flow: LoginView) -> Result<(), APIError> {
    if flow.signalled {
        Ok(())
    } else {
        Err(APIError::LoginAborted)
    }
}

/// Asks `users::get_current_username` for the name of the user that runs the
/// process, and takes it where it is text. The answer is the operating
/// system's, so nothing is claimed of it.
#[verifier::external_body]
fn current_username() -> (name: Option<String>) {
    users::get_current_username().and_then(|name| name.into_string().ok())
}

/// Whether `flow` is what a login comes to when the three sources of a name
/// hold these values: a flow that has just begun under the name that
/// `resolved_identity` picks, and no flow where it picks none.
pub open spec fn begins(
    explicit: Option<Seq<char>>,
    os_user: Option<Seq<char>>,
    env_user: Option<Seq<char>>,
    flow: Option<Login>,
) -> bool {
    match resolved_identity(explicit, os_user, env_user) {
        Some(identity) => flow is Some && flow.unwrap()@ == begun(identity),
        None => flow is None,
    }
}

impl API {
    /// Begins a login. `explicit` is the name the caller insists on and
    /// `env_user` the one its environment gives; between the two stands the
    /// operating system's name for the current user, which is looked up here
    /// and only where `explicit` is missing.
    ///
    /// Whatever the operating system says, the login runs under `explicit`
    /// where that is given, and there is a login wherever `explicit` or
    /// `env_user` is given. There is no login without a name.
    pub fn login(explicit: Option<String>, env_user: Option<String>) -> (flow: Option<Login>)
        ensures
            exists|os_user: Option<Seq<char>>|
                begins(text_of(explicit), os_user, text_of(env_user), flow),
            explicit is Some ==> flow is Some && flow.unwrap()@ == begun(explicit.unwrap()@),
            env_user is Some ==> flow is Some,
    {
        let os_user = match explicit {
            Some(_) => None,
            None => current_username(),
        };
        Login::begin(explicit, os_user, env_user)
    }
}

impl Login {
    /// Begins a login under the name that `resolved_identity` picks among the
    /// three sources. There is no login without a name: the result is `None`
    /// exactly when none of the three gives one.
    pub fn begin(
        explicit: Option<String>,
        os_user: Option<String>,
        env_user: Option<String>,
    ) -> (flow: Option<Login>)
        ensures
            begins(text_of(explicit), text_of(os_user), text_of(env_user), flow),
    {
        let identity = match explicit {
            Some(name) => Some(name),
            None => match os_user {
                Some(name) => Some(name),
                None => env_user,
            },
        };
        match identity {
            Some(identity) => Some(Login { identity, signalled: false }),
            None => None,
        }
    }

    /// The name this login runs under.
    pub fn username(&self) -> (name: &String)
        ensures
            name@ == self@.identity,
    {
        &self.identity
    }

    /// The principal handed to the ticket tool: the name, then the realm.
    pub fn principal(&self) -> (principal: String)
        ensures
            principal@ == self@.identity + REALM_SUFFIX@,
    {
        self.identity.clone().concat(REALM_SUFFIX)
    }

    /// Records how the ticket tool took one secret and says what the secret
    /// provider is told. A success signals completion; a failure leaves the
    /// flow as it was, so that the provider may try again. The tool's
    /// diagnostic text is passed on unchanged either way.
    pub fn try_password(&mut self, succeeded: bool, diagnostic: String) -> (result: PasswordResult)
        ensures
            final(self)@ == attempted(old(self)@, succeeded),
            result.success == succeeded,
            result.message == diagnostic,
    {
        if succeeded {
            self.signalled = true;
        }
        PasswordResult { message: diagnostic, success: succeeded }
    }

    /// Whether completion has been signalled.
    pub fn signalled(&self) -> (signalled: bool)
        ensures
            signalled == self@.signalled,
    {
        self.signalled
    }

    /// The verdict once the secret provider has returned: success if some
    /// attempt succeeded, `LoginAborted` if none did.
    pub fn finish(&self) -> (result: Result<(), APIError>)
        ensures
            result == verdict(self@),
    {
        if self.signalled {
            Ok(())
        } else {
            Err(APIError::LoginAborted)
        }
    }
}

/// What the built-in secret provider does next.
#[derive(Debug)]
pub enum PromptStep {
    /// Show `notice` where there is one, ask for a secret under `prompt`, and
    /// try what was typed.
    Ask { notice: Option<String>, prompt: String },
    /// Return to the login flow.
    Stop,
}

/// A step of the built-in secret provider as plain values.
pub enum PromptStepView {
    Ask { notice: Option<Seq<char>>, prompt: Seq<char> },
    Stop,
}

impl View for PromptStep {
    type V = PromptStepView;

    open spec fn view(&self) -> PromptStepView {
        match self {
            PromptStep::Ask { notice, prompt } => PromptStepView::Ask {
                notice: text_of(*notice),
                prompt: prompt@,
            },
            PromptStep::Stop => PromptStepView::Stop,
        }
    }
}

/// The line a secret is asked for under.
pub open spec fn prompt_for(username: Seq<char>) -> Seq<char> {
    "Password for "@ + username + ": "@
}

/// The line shown after a secret was turned down.
pub open spec fn failure_notice(message: Seq<char>) -> Seq<char> {
    "Login failed: "@ + message
}

/// The built-in secret provider asks until a secret is accepted or trying one
/// fails outright: it asks at the start, asks again with a notice after every
/// secret that was turned down, and stops otherwise.
pub open spec fn next_prompt(
    username: Seq<char>,
    previous: Option<Result<PasswordResult, APIError>>,
) -> PromptStepView {
    match previous {
        None => PromptStepView::Ask { notice: None, prompt: prompt_for(username) },
        Some(Ok(result)) => if result.success {
            PromptStepView::Stop
        } else {
            PromptStepView::Ask {
                notice: Some(failure_notice(result.message@)),
                prompt: prompt_for(username),
            }
        },
        Some(Err(_)) => PromptStepView::Stop,
    }
}

impl API {
    /// The next step of the built-in secret provider for `username`, given
    /// how the secret it asked for last fared (`None` before the first).
    pub fn default_password_prompt(
        username: &str,
        previous: Option<&Result<PasswordResult, APIError>>,
    ) -> (step: PromptStep)
        ensures
            step@ == next_prompt(
                username@,
                match previous {
                    Some(result) => Some(*result),
                    None => None,
                },
            ),
    {
        let notice = match previous {
            None => None,
            Some(Ok(result)) => {
                if result.success {
                    return PromptStep::Stop;
                }
                Some(String::from_str("Login failed: ").concat(result.message.as_str()))
            },
            Some(Err(_)) => {
                return PromptStep::Stop;
            },
        };
        let prompt = String::from_str("Password for ").concat(username).concat(": ");
        PromptStep::Ask { notice, prompt }
    }
}

/// Success is signalled after a run of attempts exactly when it was signalled
/// before or one of the attempts succeeded; the name never changes.
pub proof fn law_signal_follows_success(flow: LoginView, outcomes: Seq<bool>)
    ensures
        after_attempts(flow, outcomes).identity == flow.identity,
        after_attempts(flow, outcomes).signalled <==> (flow.signalled || exists|i: int|
            0 <= i < outcomes.len() && outcomes[i]),
    decreases outcomes.len(),
{
    if outcomes.len() > 0 {
        let earlier = outcomes.drop_last();
        law_signal_follows_success(flow, earlier);
        if exists|i: int| 0 <= i < outcomes.len() && outcomes[i] {
            let i = choose|i: int| 0 <= i < outcomes.len() && outcomes[i];
            if i < earlier.len() {
                assert(earlier[i]);
            }
        }
    }
}

/// A login in which no attempt succeeds ends in `LoginAborted`, however many
/// attempts were made, and completion is never signalled along the way.
pub proof fn law_login_without_success_aborts(identity: Seq<char>, outcomes: Seq<bool>)
    requires
        forall|i: int| 0 <= i < outcomes.len() ==> !outcomes[i],
    ensures
        forall|n: int|
            0 <= n <= outcomes.len() ==> !(#[trigger] after_attempts(
                begun(identity),
                outcomes.take(n),
            )).signalled,
        verdict(after_attempts(begun(identity), outcomes)) == Err::<(), APIError>(
            APIError::LoginAborted,
        ),
{
    assert forall|n: int| 0 <= n <= outcomes.len() implies !(#[trigger] after_attempts(
        begun(identity),
        outcomes.take(n),
    )).signalled by {
        law_signal_follows_success(begun(identity), outcomes.take(n));
    }
    assert(outcomes.take(outcomes.len() as int) =~= outcomes);
}

/// A login in which some attempt succeeds ends in success.
pub proof fn law_login_with_success_completes(identity: Seq<char>, outcomes: Seq<bool>)
    requires
        exists|i: int| 0 <= i < outcomes.len() && outcomes[i],
    ensures
        verdict(after_attempts(begun(identity), outcomes)) == Ok::<(), APIError>(()),
{
    law_signal_follows_success(begun(identity), outcomes);
}

} // verus!

use clink::api::{APIError, PasswordResult, API};
use clink::login::{Login, PromptStep, REALM_SUFFIX, TICKET_TOOL};

fn name(text: &str) -> Option<String> {
    Some(text.to_string())
}

fn system_name() -> Option<String> {
    users::get_current_username().and_then(|name| name.into_string().ok())
}

#[test]
fn explicit_name_comes_first() {
    let flow = Login::begin(name("override"), name("os"), name("env")).unwrap();
    assert_eq!(flow.username(), "override");
}

#[test]
fn os_name_comes_second() {
    let flow = Login::begin(None, name("os"), name("env")).unwrap();
    assert_eq!(flow.username(), "os");
}

#[test]
fn environment_name_comes_last() {
    let flow = Login::begin(None, None, name("env")).unwrap();
    assert_eq!(flow.username(), "env");
}

#[test]
fn no_name_no_login() {
    assert!(Login::begin(None, None, None).is_none());
}

#[test]
fn explicit_name_needs_no_lookup() {
    let flow = API::login(name("override"), name("env")).unwrap();
    assert_eq!(flow.username(), "override");
    let flow = API::login(name("override"), None).unwrap();
    assert_eq!(flow.username(), "override");
}

#[test]
fn system_name_comes_before_the_environment() {
    let flow = API::login(None, name("env")).unwrap();
    assert_eq!(*flow.username(), system_name().unwrap_or("env".to_string()));
    assert!(!flow.signalled());
}

#[test]
fn login_without_given_names_rests_on_the_system() {
    let flow = API::login(None, None);
    assert_eq!(flow.map(|flow| flow.username().clone()), system_name());
}

#[test]
fn principal_is_name_at_realm() {
    let flow = Login::begin(None, name("alice"), None).unwrap();
    assert_eq!(flow.principal(), "alice@CSH.RIT.EDU");
    assert_eq!(REALM_SUFFIX, "@CSH.RIT.EDU");
    assert_eq!(TICKET_TOOL, "kinit");
}

#[test]
fn login_without_success_is_aborted() {
    let mut flow = API::login(name("alice"), None).unwrap();
    for round in 0..3 {
        let result = flow.try_password(false, format!("wrong secret {}", round));
        assert!(!result.success);
        assert_eq!(result.message, format!("wrong secret {}", round));
        assert!(!flow.signalled());
    }
    assert!(matches!(flow.finish(), Err(APIError::LoginAborted)));
}

#[test]
fn login_without_any_attempt_is_aborted() {
    let flow = API::login(name("alice"), None).unwrap();
    assert!(!flow.signalled());
    assert!(matches!(flow.finish(), Err(APIError::LoginAborted)));
}

#[test]
fn login_succeeds_after_retries() {
    let mut flow = API::login(name("alice"), None).unwrap();
    assert!(!flow.try_password(false, "kinit: Password incorrect".to_string()).success);
    let result = flow.try_password(true, String::new());
    assert!(result.success);
    assert_eq!(result.message, "");
    assert!(flow.signalled());
    assert!(matches!(flow.finish(), Ok(())));
}

#[test]
fn success_is_not_undone_by_later_failure() {
    let mut flow = API::login(name("alice"), None).unwrap();
    flow.try_password(true, String::new());
    flow.try_password(false, "late".to_string());
    assert!(flow.signalled());
    assert!(matches!(flow.finish(), Ok(())));
    assert_eq!(flow.username(), "alice");
}

#[test]
fn prompt_asks_first() {
    match API::default_password_prompt("alice", None) {
        PromptStep::Ask { notice, prompt } => {
            assert_eq!(notice, None);
            assert_eq!(prompt, "Password for alice: ");
        }
        PromptStep::Stop => panic!("stopped before asking"),
    }
}

#[test]
fn prompt_asks_again_after_failure() {
    let previous = Ok(PasswordResult { message: "kinit: Password incorrect\n".to_string(), success: false });
    match API::default_password_prompt("alice", Some(&previous)) {
        PromptStep::Ask { notice, prompt } => {
            assert_eq!(notice.as_deref(), Some("Login failed: kinit: Password incorrect\n"));
            assert_eq!(prompt, "Password for alice: ");
        }
        PromptStep::Stop => panic!("stopped after a failure"),
    }
}

#[test]
fn prompt_stops_after_success() {
    let previous = Ok(PasswordResult { message: "ignored".to_string(), success: true });
    assert!(matches!(API::default_password_prompt("alice", Some(&previous)), PromptStep::Stop));
}

#[test]
fn prompt_stops_after_error() {
    let previous = Err(APIError::BadFormat);
    assert!(matches!(API::default_password_prompt("alice", Some(&previous)), PromptStep::Stop));
}

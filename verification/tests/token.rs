use clink::api::{APIError, Location, TokenEvent, TokenStep, API};
use clink::redirect::{token_from_location, token_from_pairs};
use std::sync::{Arc, Mutex};

fn client() -> API {
    API::new("https://drink.example".to_string())
}

fn redirect(location: &str) -> TokenEvent {
    TokenEvent::Redirect(Location::Text(location.to_string()))
}

fn ready(step: TokenStep) -> String {
    match step {
        TokenStep::Ready(token) => token,
        other => panic!("expected a credential, got {:?}", other),
    }
}

#[test]
fn redirect_with_access_token_yields_bearer() {
    let mut api = client();
    assert!(matches!(api.get_token(), TokenStep::Authorize));
    let step = api.take_token(redirect(
        "drink://callback#session_state=xyz&access_token=abc123&token_type=bearer&expires_in=300",
    ));
    assert_eq!(ready(step), "Bearer abc123");
}

#[test]
fn cached_credential_is_returned_without_new_requests() {
    let mut api = client();
    let mut authorizations = 0;
    if let TokenStep::Authorize = api.get_token() {
        authorizations += 1;
    }
    let first = ready(api.take_token(redirect("drink://callback#access_token=T")));
    for _ in 0..5 {
        match api.get_token() {
            TokenStep::Ready(token) => assert_eq!(token, first),
            TokenStep::Authorize => authorizations += 1,
            other => panic!("unexpected step {:?}", other),
        }
    }
    assert_eq!(first, "Bearer T");
    assert_eq!(authorizations, 1);
}

#[test]
fn credential_is_never_overwritten() {
    let mut api = client();
    api.get_token();
    let first = ready(api.take_token(redirect("drink://callback#access_token=one")));
    let again = ready(api.take_token(redirect("drink://callback#access_token=two")));
    assert_eq!(first, "Bearer one");
    assert_eq!(again, "Bearer one");
    assert_eq!(ready(api.take_token(TokenEvent::LoginFinished(Err(APIError::LoginAborted)))), "Bearer one");
    assert_eq!(ready(api.take_token(TokenEvent::Redirect(Location::Missing))), "Bearer one");
}

#[test]
fn missing_redirect_after_login_fails_with_bad_format() {
    let mut api = client();
    let mut authorizations = 0;
    let mut logins = 0;
    let mut step = api.get_token();
    let outcome = loop {
        match step {
            TokenStep::Authorize => {
                authorizations += 1;
                step = api.take_token(TokenEvent::Redirect(Location::Missing));
            }
            TokenStep::Login => {
                logins += 1;
                step = api.take_token(TokenEvent::LoginFinished(Ok(())));
            }
            TokenStep::Ready(token) => break Ok(token),
            TokenStep::Failed(error) => break Err(error),
        }
    };
    assert!(matches!(outcome, Err(APIError::BadFormat)));
    assert_eq!(authorizations, 2);
    assert_eq!(logins, 1);
}

#[test]
fn redirect_after_login_yields_bearer() {
    let mut api = client();
    assert!(matches!(api.get_token(), TokenStep::Authorize));
    assert!(matches!(api.take_token(TokenEvent::Redirect(Location::Missing)), TokenStep::Login));
    assert!(matches!(api.take_token(TokenEvent::LoginFinished(Ok(()))), TokenStep::Authorize));
    let step = api.take_token(redirect("drink://callback#access_token=late"));
    assert_eq!(ready(step), "Bearer late");
    assert_eq!(ready(api.get_token()), "Bearer late");
}

#[test]
fn a_failed_search_may_begin_anew() {
    let mut api = client();
    api.get_token();
    api.take_token(TokenEvent::Redirect(Location::Missing));
    api.take_token(TokenEvent::LoginFinished(Ok(())));
    assert!(matches!(
        api.take_token(TokenEvent::Redirect(Location::Missing)),
        TokenStep::Failed(APIError::BadFormat)
    ));
    assert!(matches!(api.get_token(), TokenStep::Authorize));
    assert!(matches!(api.take_token(TokenEvent::Redirect(Location::Missing)), TokenStep::Login));
}

#[test]
fn login_is_not_offered_a_third_time() {
    let mut api = client();
    api.get_token();
    api.take_token(TokenEvent::Redirect(Location::Missing));
    api.take_token(TokenEvent::LoginFinished(Ok(())));
    assert!(matches!(
        api.take_token(TokenEvent::LoginFinished(Ok(()))),
        TokenStep::Failed(APIError::BadFormat)
    ));
}

#[test]
fn failed_login_is_passed_on() {
    let mut api = client();
    api.get_token();
    assert!(matches!(api.take_token(TokenEvent::Redirect(Location::Missing)), TokenStep::Login));
    let step = api.take_token(TokenEvent::LoginFinished(Err(APIError::LoginAborted)));
    assert!(matches!(step, TokenStep::Failed(APIError::LoginAborted)));
    assert!(matches!(api.get_token(), TokenStep::Authorize));
}

#[test]
fn transport_failure_is_passed_on() {
    let error = http::Request::builder().uri("not a uri").body(()).unwrap_err();
    let mut api = client();
    api.get_token();
    let step = api.take_token(TokenEvent::TransportFailed(APIError::HTTPError(error)));
    assert!(matches!(step, TokenStep::Failed(APIError::HTTPError(_))));
}

#[test]
fn send_failure_is_passed_on() {
    let error = isahc::Error::from(std::io::Error::new(std::io::ErrorKind::Other, "wire cut"));
    let shown = error.to_string();
    let mut api = client();
    api.get_token();
    match api.take_token(TokenEvent::TransportFailed(APIError::IsahcError(error))) {
        TokenStep::Failed(APIError::IsahcError(passed)) => assert_eq!(passed.to_string(), shown),
        other => panic!("unexpected step {:?}", other),
    }
    assert!(matches!(api.get_token(), TokenStep::Authorize));
}

#[test]
fn unreadable_location_is_bad_format() {
    let mut api = client();
    api.get_token();
    let step = api.take_token(TokenEvent::Redirect(Location::Unreadable));
    assert!(matches!(step, TokenStep::Failed(APIError::BadFormat)));
}

#[test]
fn location_without_token_is_bad_format() {
    let mut api = client();
    api.get_token();
    let step = api.take_token(redirect("drink://callback#token_type=bearer&state="));
    assert!(matches!(step, TokenStep::Failed(APIError::BadFormat)));
    assert!(matches!(api.get_token(), TokenStep::Authorize));
}

#[test]
fn location_that_is_no_url_is_bad_format() {
    assert!(matches!(token_from_location("access_token=abc"), Err(APIError::BadFormat)));
    assert!(matches!(token_from_location(""), Err(APIError::BadFormat)));
}

#[test]
fn fragment_is_read_as_query() {
    assert_eq!(token_from_location("drink://callback#access_token=abc").unwrap(), "Bearer abc");
    assert_eq!(token_from_location("drink://callback?access_token=abc").unwrap(), "Bearer abc");
    assert_eq!(
        token_from_location("https://host.example/path#id_token=i&access_token=abc").unwrap(),
        "Bearer abc"
    );
}

#[test]
fn token_value_is_decoded() {
    assert_eq!(
        token_from_location("drink://callback#access_token=a%2Fb+c%3D").unwrap(),
        "Bearer a/b c="
    );
}

#[test]
fn first_access_token_wins() {
    assert_eq!(
        token_from_location("drink://callback#access_token=first&access_token=second").unwrap(),
        "Bearer first"
    );
}

#[test]
fn empty_token_is_still_a_token() {
    assert_eq!(token_from_location("drink://callback#access_token=").unwrap(), "Bearer ");
    assert_eq!(token_from_location("drink://callback#access_token").unwrap(), "Bearer ");
}

#[test]
fn token_from_pairs_takes_first_match() {
    let pairs = vec![
        ("state".to_string(), "".to_string()),
        ("access_token".to_string(), "one".to_string()),
        ("access_token".to_string(), "two".to_string()),
    ];
    assert_eq!(token_from_pairs(&pairs).unwrap(), "Bearer one");
}

#[test]
fn token_from_pairs_needs_exact_key() {
    let pairs = vec![
        ("Access_Token".to_string(), "one".to_string()),
        ("access_token ".to_string(), "two".to_string()),
        ("id_token".to_string(), "three".to_string()),
    ];
    assert!(matches!(token_from_pairs(&pairs), Err(APIError::BadFormat)));
    assert!(matches!(token_from_pairs(&Vec::new()), Err(APIError::BadFormat)));
}

#[test]
fn new_client_keeps_its_address() {
    let api = client();
    assert_eq!(api.api_base_url(), "https://drink.example");
    assert_eq!(API::default().api_base_url(), "https://drink.csh.rit.edu");
}

#[test]
fn callers_behind_one_lock_share_one_search() {
    let api = Arc::new(Mutex::new(client()));
    let mut searches = 0;
    let mut tokens = Vec::new();
    for _ in 0..8 {
        let shared = Arc::clone(&api);
        let mut api = shared.lock().unwrap();
        let mut step = api.get_token();
        let token = loop {
            match step {
                TokenStep::Ready(token) => break token,
                TokenStep::Authorize => {
                    searches += 1;
                    step = api.take_token(redirect("drink://callback#access_token=shared"));
                }
                other => panic!("unexpected step {:?}", other),
            }
        };
        tokens.push(token);
    }
    assert_eq!(tokens.len(), 8);
    assert!(tokens.iter().all(|token| token == "Bearer shared"));
    assert_eq!(searches, 1);
}

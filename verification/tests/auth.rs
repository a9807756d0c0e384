use speech_relay::auth::{AuthInterceptor, InvalidToken};

#[test]
fn authorization_is_bearer_and_token() {
    let interceptor = AuthInterceptor::new("tok-1".to_string());
    assert_eq!(interceptor.authorization(), Ok("Bearer tok-1".to_string()));
}

#[test]
fn empty_token_is_sent_as_it_is() {
    assert_eq!(
        AuthInterceptor::new(String::new()).authorization(),
        Ok("Bearer ".to_string())
    );
}

#[test]
fn token_with_a_tab_or_beyond_ascii_is_accepted() {
    assert_eq!(
        AuthInterceptor::new("a\tb".to_string()).authorization(),
        Ok("Bearer a\tb".to_string())
    );
    assert_eq!(
        AuthInterceptor::new("t\u{e9}".to_string()).authorization(),
        Ok("Bearer t\u{e9}".to_string())
    );
}

#[test]
fn token_with_a_control_character_is_refused() {
    assert_eq!(AuthInterceptor::new("a\nb".to_string()).authorization(), Err(InvalidToken));
    assert_eq!(AuthInterceptor::new("a\u{7f}".to_string()).authorization(), Err(InvalidToken));
    assert_eq!(AuthInterceptor::new("\u{0}".to_string()).authorization(), Err(InvalidToken));
}

use speech_relay::credential::{CredentialStore, Timestamp, TokenError, YandexIAMToken};
use speech_relay::failure::{Cause, Failure, FailureReason};
use speech_relay::refresher::{FetchOutcome, RefreshStep, Refresher, TokenRequest};

fn refresher() -> Refresher {
    Refresher::new("https://iam.example.net/tokens".to_string(), "s3cret".to_string(), 3600)
        .unwrap()
}

fn answer(token: &str, expires_at: &str) -> FetchOutcome {
    FetchOutcome::Answered {
        status: 200,
        body: format!(r#"{{"token":"{}","expiresAt":"{}"}}"#, token, expires_at),
    }
}

fn credential(name: &str, seconds: i64) -> YandexIAMToken {
    YandexIAMToken { iam_token: name.to_string(), expire_at: Timestamp { seconds, nanos: 0 } }
}

fn failed(cause: Cause) -> RefreshStep {
    RefreshStep {
        announce_ready: false,
        failure: Some(Failure {
            reply_address: None,
            reason: FailureReason::CredentialRefreshFailed,
            cause: Some(cause),
        }),
        sleep_secs: 3600,
    }
}

#[test]
fn period_of_zero_is_refused() {
    assert!(Refresher::new("u".to_string(), "s".to_string(), 0).is_none());
    assert!(Refresher::new("u".to_string(), "s".to_string(), 1).is_some());
}

#[test]
fn new_refresher_is_not_ready() {
    let refresher = refresher();
    assert!(!refresher.is_ready());
    assert_eq!(refresher.every_secs(), 3600);
}

#[test]
fn token_request_posts_the_secret() {
    assert_eq!(
        refresher().token_request(),
        TokenRequest {
            url: "https://iam.example.net/tokens".to_string(),
            body: r#"{"longLivedSecret":"s3cret"}"#.to_string(),
        }
    );
}

#[test]
fn secret_is_escaped_in_the_request() {
    let refresher = Refresher::new("u".to_string(), "a\"b\\c\n".to_string(), 1).unwrap();
    assert_eq!(refresher.token_request().body, r#"{"longLivedSecret":"a\"b\\c\n"}"#);
}

#[test]
fn answers_are_read() {
    assert_eq!(
        Refresher::read(answer("tok-1", "2024-01-01T00:00:00Z")),
        Ok(credential("tok-1", 1704067200))
    );
    assert_eq!(
        Refresher::read(FetchOutcome::Unreachable { detail: "refused".to_string() }),
        Err(Cause::Transport("refused".to_string()))
    );
    assert_eq!(
        Refresher::read(FetchOutcome::Answered { status: 401, body: "{}".to_string() }),
        Err(Cause::Status(401))
    );
    assert_eq!(
        Refresher::read(FetchOutcome::Answered { status: 200, body: "{}".to_string() }),
        Err(Cause::Credential(TokenError::Token))
    );
}

#[test]
fn first_success_fills_the_store_and_is_announced() {
    let mut refresher = refresher();
    let mut store = CredentialStore::new();
    let step = refresher.on_fetch(&mut store, answer("tok-1", "2024-01-01T00:00:00Z"));
    assert_eq!(step, RefreshStep { announce_ready: true, failure: None, sleep_secs: 3600 });
    assert!(refresher.is_ready());
    assert_eq!(store.read(), Some(credential("tok-1", 1704067200)));
}

#[test]
fn later_success_replaces_and_is_not_announced() {
    let mut refresher = refresher();
    let mut store = CredentialStore::new();
    refresher.on_fetch(&mut store, answer("tok-1", "2024-01-01T00:00:00Z"));
    let step = refresher.on_fetch(&mut store, answer("tok-2", "2024-01-01T01:00:00Z"));
    assert_eq!(step, RefreshStep { announce_ready: false, failure: None, sleep_secs: 3600 });
    assert_eq!(store.read(), Some(credential("tok-2", 1704070800)));
}

#[test]
fn failure_before_any_success_leaves_the_store_empty() {
    let mut refresher = refresher();
    let mut store = CredentialStore::new();
    let step = refresher
        .on_fetch(&mut store, FetchOutcome::Answered { status: 500, body: String::new() });
    assert_eq!(step, failed(Cause::Status(500)));
    assert!(!refresher.is_ready());
    assert_eq!(store.read(), None);
}

#[test]
fn failure_keeps_the_last_credential() {
    let mut refresher = refresher();
    let mut store = CredentialStore::new();
    refresher.on_fetch(&mut store, answer("tok-1", "2024-01-01T00:00:00Z"));
    let step = refresher
        .on_fetch(&mut store, FetchOutcome::Unreachable { detail: "down".to_string() });
    assert_eq!(step, failed(Cause::Transport("down".to_string())));
    assert_eq!(store.read(), Some(credential("tok-1", 1704067200)));
    let step = refresher.on_fetch(&mut store, answer("tok-1", "never"));
    assert_eq!(step, failed(Cause::Credential(TokenError::Instant)));
    assert_eq!(store.read(), Some(credential("tok-1", 1704067200)));
    assert!(refresher.is_ready());
}

#[test]
fn alternating_cycles_keep_the_last_success() {
    let mut refresher = refresher();
    let mut store = CredentialStore::new();
    let mut last: Option<YandexIAMToken> = None;
    let mut announced = 0;
    for n in 0..20i64 {
        let outcome = if n % 2 == 1 {
            last = Some(credential(&format!("tok-{}", n), 1704067200 + n));
            answer(&format!("tok-{}", n), &format!("2024-01-01T00:00:{:02}Z", n))
        } else {
            FetchOutcome::Answered {
                status: 503,
                body: format!(r#"{{"token":"bad-{}","expiresAt":"2024-01-01T00:00:00Z"}}"#, n),
            }
        };
        let step = refresher.on_fetch(&mut store, outcome);
        if step.announce_ready {
            announced += 1;
        }
        assert_eq!(step.failure.is_some(), n % 2 == 0);
        assert_eq!(step.sleep_secs, 3600);
        assert_eq!(store.read(), last);
        assert_eq!(refresher.is_ready(), last.is_some());
    }
    assert_eq!(announced, 1);
    assert_eq!(store.read(), Some(credential("tok-19", 1704067219)));
}

#[test]
fn install_takes_what_a_cycle_obtained() {
    let mut refresher = refresher();
    let mut store = CredentialStore::new();
    let step = refresher.install(&mut store, Err(Cause::Status(403)));
    assert_eq!(step, failed(Cause::Status(403)));
    assert_eq!(store.read(), None);
    let step = refresher.install(&mut store, Ok(credential("tok-9", 9)));
    assert_eq!(step, RefreshStep { announce_ready: true, failure: None, sleep_secs: 3600 });
    assert_eq!(store.read(), Some(credential("tok-9", 9)));
}

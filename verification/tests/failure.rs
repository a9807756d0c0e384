use speech_relay::failure::{Cause, Failure, FailureReason};

#[test]
fn each_reason_has_its_tag() {
    assert_eq!(FailureReason::MissingReplyAddress.tag(), "MissingReplyAddress");
    assert_eq!(FailureReason::InvalidPayload.tag(), "InvalidPayload");
    assert_eq!(FailureReason::NotAuthenticated.tag(), "NotAuthenticated");
    assert_eq!(FailureReason::UpstreamUnreachable.tag(), "UpstreamUnreachable");
    assert_eq!(FailureReason::UpstreamRejected.tag(), "UpstreamRejected");
    assert_eq!(FailureReason::ReplyUnroutable.tag(), "ReplyUnroutable");
    assert_eq!(FailureReason::CredentialRefreshFailed.tag(), "CredentialRefreshFailed");
}

#[test]
fn failure_payload_is_a_json_object_with_the_tag() {
    assert_eq!(
        FailureReason::UpstreamRejected.payload(),
        br#"{"fail":"UpstreamRejected"}"#.to_vec()
    );
    assert_eq!(
        FailureReason::InvalidPayload.payload(),
        br#"{"fail":"InvalidPayload"}"#.to_vec()
    );
    assert_eq!(
        FailureReason::NotAuthenticated.payload(),
        br#"{"fail":"NotAuthenticated"}"#.to_vec()
    );
    assert_eq!(
        FailureReason::UpstreamUnreachable.payload(),
        br#"{"fail":"UpstreamUnreachable"}"#.to_vec()
    );
    assert_eq!(
        FailureReason::MissingReplyAddress.payload(),
        br#"{"fail":"MissingReplyAddress"}"#.to_vec()
    );
}

#[test]
fn failure_payload_reads_back_as_json() {
    let payload = FailureReason::NotAuthenticated.payload();
    let value: serde_json::Value = serde_json::from_slice(&payload).unwrap();
    assert_eq!(value.get("fail").and_then(|v| v.as_str()), Some("NotAuthenticated"));
    assert_eq!(value.as_object().map(|o| o.len()), Some(1));
}

#[test]
fn new_failure_has_no_cause() {
    let failure = Failure::new(Some("replies.42".to_string()), FailureReason::NotAuthenticated);
    assert_eq!(
        failure,
        Failure {
            reply_address: Some("replies.42".to_string()),
            reason: FailureReason::NotAuthenticated,
            cause: None,
        }
    );
}

#[test]
fn description_quotes_address_and_tag() {
    let failure = Failure {
        reply_address: Some("replies.42".to_string()),
        reason: FailureReason::UpstreamRejected,
        cause: Some(Cause::Status(503)),
    };
    assert_eq!(
        failure.describe(),
        "reply_to: Some(\"replies.42\") message: \"UpstreamRejected\""
    );
}

#[test]
fn description_without_address() {
    let failure = Failure::new(None, FailureReason::MissingReplyAddress);
    assert_eq!(failure.describe(), "reply_to: None message: \"MissingReplyAddress\"");
}

#[test]
fn description_escapes_the_address() {
    let failure = Failure::new(Some("a\"b\n".to_string()), FailureReason::InvalidPayload);
    assert_eq!(
        failure.describe(),
        "reply_to: Some(\"a\\\"b\\n\") message: \"InvalidPayload\""
    );
    assert_eq!(
        failure.describe(),
        format!("reply_to: {:?} message: {:?}", failure.reply_address, "InvalidPayload")
    );
}

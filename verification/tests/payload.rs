use speech_relay::json::Member;
use speech_relay::tts_payload::{PayloadError, TTSPayload};

fn text(s: &str) -> Option<Member> {
    Some(Member::Text(s.to_string()))
}

#[test]
fn members_in_order_make_a_request() {
    let made = TTSPayload::from_members(text("alice"), text("ru-RU"), text("hello"), text("b1g"));
    assert_eq!(
        made,
        Ok(TTSPayload {
            voice: "alice".to_string(),
            lang: Some("ru-RU".to_string()),
            text: "hello".to_string(),
            folder_id: Some("b1g".to_string()),
        })
    );
}

#[test]
fn absent_and_null_optional_members_are_none() {
    let made = TTSPayload::from_members(text("alice"), None, text("hello"), Some(Member::Null));
    assert_eq!(
        made,
        Ok(TTSPayload {
            voice: "alice".to_string(),
            lang: None,
            text: "hello".to_string(),
            folder_id: None,
        })
    );
}

#[test]
fn each_member_has_its_error() {
    assert_eq!(
        TTSPayload::from_members(None, text("ru"), text("t"), None),
        Err(PayloadError::Voice)
    );
    assert_eq!(
        TTSPayload::from_members(Some(Member::Null), None, text("t"), None),
        Err(PayloadError::Voice)
    );
    assert_eq!(
        TTSPayload::from_members(text("v"), Some(Member::Other), text("t"), None),
        Err(PayloadError::Language)
    );
    assert_eq!(
        TTSPayload::from_members(text("v"), None, Some(Member::Other), None),
        Err(PayloadError::Text)
    );
    assert_eq!(
        TTSPayload::from_members(text("v"), None, None, None),
        Err(PayloadError::Text)
    );
    assert_eq!(
        TTSPayload::from_members(text("v"), None, text("t"), Some(Member::Other)),
        Err(PayloadError::Folder)
    );
}

#[test]
fn the_first_member_that_does_not_fit_decides() {
    assert_eq!(
        TTSPayload::from_members(None, Some(Member::Other), None, Some(Member::Other)),
        Err(PayloadError::Voice)
    );
    assert_eq!(
        TTSPayload::from_members(text("v"), Some(Member::Other), None, Some(Member::Other)),
        Err(PayloadError::Language)
    );
}

#[test]
fn json_bytes_are_read() {
    let made = TTSPayload::from_bytes_json(br#"{"voice":"alice","text":"hello"}"#);
    assert_eq!(
        made,
        Ok(TTSPayload {
            voice: "alice".to_string(),
            lang: None,
            text: "hello".to_string(),
            folder_id: None,
        })
    );
}

#[test]
fn json_bytes_with_every_member_are_read() {
    let made = TTSPayload::from_bytes_json(
        br#" { "folderId" : "b1g", "text" : "hi \"you\"", "lang" : "en-US", "voice" : "jane" } "#,
    );
    assert_eq!(
        made,
        Ok(TTSPayload {
            voice: "jane".to_string(),
            lang: Some("en-US".to_string()),
            text: "hi \"you\"".to_string(),
            folder_id: Some("b1g".to_string()),
        })
    );
}

#[test]
fn unknown_members_are_ignored() {
    let made = TTSPayload::from_bytes_json(
        br#"{"voice":"alice","text":"hello","speed":1.5,"extra":{"a":[1,2]}}"#,
    );
    assert_eq!(
        made,
        Ok(TTSPayload {
            voice: "alice".to_string(),
            lang: None,
            text: "hello".to_string(),
            folder_id: None,
        })
    );
}

#[test]
fn null_language_is_none() {
    let made = TTSPayload::from_bytes_json(br#"{"voice":"alice","text":"hello","lang":null}"#);
    assert_eq!(made.unwrap().lang, None);
}

#[test]
fn missing_required_members_fail() {
    assert_eq!(
        TTSPayload::from_bytes_json(br#"{"text":"hello"}"#),
        Err(PayloadError::Voice)
    );
    assert_eq!(
        TTSPayload::from_bytes_json(br#"{"voice":"alice"}"#),
        Err(PayloadError::Text)
    );
    assert_eq!(TTSPayload::from_bytes_json(b"{}"), Err(PayloadError::Voice));
}

#[test]
fn members_of_another_kind_fail() {
    assert_eq!(
        TTSPayload::from_bytes_json(br#"{"voice":7,"text":"hello"}"#),
        Err(PayloadError::Voice)
    );
    assert_eq!(
        TTSPayload::from_bytes_json(br#"{"voice":"a","text":["hello"]}"#),
        Err(PayloadError::Text)
    );
    assert_eq!(
        TTSPayload::from_bytes_json(br#"{"voice":"a","text":"t","lang":5}"#),
        Err(PayloadError::Language)
    );
    assert_eq!(
        TTSPayload::from_bytes_json(br#"{"voice":"a","text":"t","folderId":false}"#),
        Err(PayloadError::Folder)
    );
}

#[test]
fn bytes_that_are_no_document_fail() {
    assert_eq!(TTSPayload::from_bytes_json(b""), Err(PayloadError::NotJson));
    assert_eq!(TTSPayload::from_bytes_json(b"not json"), Err(PayloadError::NotJson));
    assert_eq!(
        TTSPayload::from_bytes_json(br#"{"voice":"alice","text":"hello""#),
        Err(PayloadError::NotJson)
    );
    assert_eq!(
        TTSPayload::from_bytes_json(br#"{"voice":"alice","text":"hello"} x"#),
        Err(PayloadError::NotJson)
    );
    assert_eq!(TTSPayload::from_bytes_json(&[0xff, 0xfe]), Err(PayloadError::NotJson));
}

#[test]
fn documents_that_are_no_object_have_no_members() {
    assert_eq!(TTSPayload::from_bytes_json(b"[]"), Err(PayloadError::Voice));
    assert_eq!(TTSPayload::from_bytes_json(br#""alice""#), Err(PayloadError::Voice));
    assert_eq!(TTSPayload::from_bytes_json(b"null"), Err(PayloadError::Voice));
}

#[test]
fn parameters_take_the_defaults_where_the_request_names_none() {
    let payload = TTSPayload {
        voice: "alice".to_string(),
        lang: None,
        text: "hello".to_string(),
        folder_id: None,
    };
    let params = payload.to_hashmap("ru-RU".to_string(), "b1g".to_string());
    assert_eq!(
        params,
        vec![
            ("voice".to_string(), "alice".to_string()),
            ("text".to_string(), "hello".to_string()),
            ("lang".to_string(), "ru-RU".to_string()),
            ("folderId".to_string(), "b1g".to_string()),
        ]
    );
}

#[test]
fn parameters_keep_what_the_request_names() {
    let payload = TTSPayload {
        voice: "jane".to_string(),
        lang: Some("en-US".to_string()),
        text: "hi".to_string(),
        folder_id: Some("own".to_string()),
    };
    let params = payload.to_hashmap("ru-RU".to_string(), "b1g".to_string());
    assert_eq!(
        params,
        vec![
            ("voice".to_string(), "jane".to_string()),
            ("text".to_string(), "hi".to_string()),
            ("lang".to_string(), "en-US".to_string()),
            ("folderId".to_string(), "own".to_string()),
        ]
    );
}

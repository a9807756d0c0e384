//! The bearer authorization that accompanies a call to the recognition
//! service.

use vstd::prelude::*;
use vstd::string::*;
use vstd::utf8::{encode_utf8, is_ascii_chars_encode_utf8};

verus! {

/// The token is not fit to be sent as request metadata.
#[derive(Debug, Clone, Copy, PartialEq, Eq, Structural)]
pub struct InvalidToken;

/// Adds the bearer authorization of a token to outgoing requests.
#[derive(Debug, Clone, PartialEq, Eq)]
pub struct AuthInterceptor {
    token: String,
}

impl View for AuthInterceptor {
    type V = Seq<char>;

    closed spec fn view(&self) -> Seq<char> {
        self.token@
    }
}

/// The value of the `authorization` entry for a token.
pub open spec fn bearer_text(token: Seq<char>) -> Seq<char> {
    "Bearer "@ + token
}

/// Whether bytes can be the value of an ASCII metadata entry: none of them is
/// a control character other than the tab.
pub open spec fn is_metadata_text(bytes: Seq<u8>) -> bool {
    forall|i: int|
        0 <= i < bytes.len() ==> ((#[trigger] bytes[i]) >= 32 && bytes[i] != 127) || bytes[i] == 9
}

/// `<tonic::metadata::MetadataValue<Ascii> as FromStr>::from_str`, asked only
/// whether it succeeds: it does unless a byte of the text is below 32 and no
/// tab, or is 127.
#[verifier::external_body]
fn is_metadata_value(text: &str) -> (ok: bool)
    ensures
        ok == is_metadata_text(encode_utf8(text@)),
{
    text.parse::<tonic::metadata::MetadataValue<tonic::metadata::Ascii>>().is_ok()
}

/// The bytes of a text followed by another are the bytes of the one followed
/// by the bytes of the other.
proof fn lemma_bytes_of_concat(head: Seq<char>, tail: Seq<char>)
    ensures
        encode_utf8(head + tail) == encode_utf8(head) + encode_utf8(tail),
    decreases head.len(),
{
    if head.len() == 0 {
        assert(head + tail =~= tail);
        assert(encode_utf8(head) + encode_utf8(tail) =~= encode_utf8(tail));
    } else {
        assert((head + tail).drop_first() =~= head.drop_first() + tail);
        lemma_bytes_of_concat(head.drop_first(), tail);
        assert(encode_utf8(head + tail) =~= encode_utf8(head) + encode_utf8(tail));
    }
}

/// The authorization of a token can be sent exactly if the token can.
proof fn lemma_bearer_is_sent_with_token(token: Seq<char>)
    ensures
        is_metadata_text(encode_utf8(bearer_text(token))) <==> is_metadata_text(
            encode_utf8(token),
        ),
{
    reveal_strlit("Bearer ");
    let prefix = encode_utf8("Bearer "@);
    let rest = encode_utf8(token);
    lemma_bytes_of_concat("Bearer "@, token);
    is_ascii_chars_encode_utf8("Bearer "@);
    let whole = prefix + rest;
    if is_metadata_text(rest) {
        assert forall|i: int| 0 <= i < whole.len() implies ((#[trigger] whole[i]) >= 32
            && whole[i] != 127) || whole[i] == 9 by {
            if i >= prefix.len() {
                assert(whole[i] == rest[i - prefix.len()]);
            } else {
                assert(whole[i] == prefix[i]);
            }
        }
    }
    if is_metadata_text(whole) {
        assert forall|i: int| 0 <= i < rest.len() implies ((#[trigger] rest[i]) >= 32 && rest[i]
            != 127) || rest[i] == 9 by {
            assert(rest[i] == whole[i + prefix.len()]);
        }
    }
}

impl AuthInterceptor {
    /// An interceptor for `token`.
    pub fn new(token: String) -> (made: AuthInterceptor)
        ensures
            made@ == token@,
    {
        AuthInterceptor { token }
    }

    /// The value to send under `authorization`: `Bearer`, a space and the
    /// token. An error says that the token cannot be sent as metadata: one
    /// of its bytes is a control character other than the tab.
    pub fn authorization(&self) -> (value: Result<String, InvalidToken>)
        ensures
            value is Ok <==> is_metadata_text(encode_utf8(self@)),
            value matches Ok(text) ==> text@ == bearer_text(self@),
    {
        let mut text = String::from_str("Bearer ");
        text.append(self.token.as_str());
        proof {
            lemma_bearer_is_sent_with_token(self@);
        }
        if is_metadata_value(text.as_str()) {
            Ok(text)
        } else {
            Err(InvalidToken)
        }
    }
}

} // verus!

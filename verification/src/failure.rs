//! The failures of the relay: a closed set of reasons, and the record that
//! carries one to the place where it is reported.

use crate::credential::TokenError;
use crate::json::{is_unescaped, object_to_string, plain_object_text, text_view};
use crate::tts_payload::PayloadError;
use vstd::prelude::*;
use vstd::string::*;
use vstd::utf8::{is_ascii_chars, is_ascii_chars_encode_utf8};

verus! {

/// Why a message could not be relayed, or a credential not refreshed.
#[derive(Debug, Clone, Copy, PartialEq, Eq, Structural)]
pub enum FailureReason {
    /// The inbound message names no address to reply to.
    MissingReplyAddress,
    /// The payload is not a synthesis request.
    InvalidPayload,
    /// No credential has been obtained yet.
    NotAuthenticated,
    /// The upstream could not be reached, or did not answer in time.
    UpstreamUnreachable,
    /// The upstream answered with a status outside the success class.
    UpstreamRejected,
    /// An outcome has no address it could be published to.
    ReplyUnroutable,
    /// A refresh cycle did not yield a credential.
    CredentialRefreshFailed,
}

impl FailureReason {
    /// The tag under which the reason is reported.
    pub open spec fn tag_text(self) -> Seq<char> {
        match self {
            FailureReason::MissingReplyAddress => "MissingReplyAddress"@,
            FailureReason::InvalidPayload => "InvalidPayload"@,
            FailureReason::NotAuthenticated => "NotAuthenticated"@,
            FailureReason::UpstreamUnreachable => "UpstreamUnreachable"@,
            FailureReason::UpstreamRejected => "UpstreamRejected"@,
            FailureReason::ReplyUnroutable => "ReplyUnroutable"@,
            FailureReason::CredentialRefreshFailed => "CredentialRefreshFailed"@,
        }
    }

    /// The tag under which the reason is reported.
    pub fn tag(&self) -> (tag: &'static str)
        ensures
            tag@ == self.tag_text(),
    {
        match self {
            FailureReason::MissingReplyAddress => "MissingReplyAddress",
            FailureReason::InvalidPayload => "InvalidPayload",
            FailureReason::NotAuthenticated => "NotAuthenticated",
            FailureReason::UpstreamUnreachable => "UpstreamUnreachable",
            FailureReason::UpstreamRejected => "UpstreamRejected",
            FailureReason::ReplyUnroutable => "ReplyUnroutable",
            FailureReason::CredentialRefreshFailed => "CredentialRefreshFailed",
        }
    }
}

/// The bytes of a text of ASCII characters, one for each character.
pub open spec fn ascii_bytes(text: Seq<char>) -> Seq<u8> {
    Seq::new(text.len(), |i: int| text[i] as u8)
}

/// The payload that reports `reason` to the caller: the bytes of the JSON
/// text `{"fail":"<tag>"}`.
pub open spec fn failure_payload(reason: FailureReason) -> Seq<u8> {
    ascii_bytes(plain_object_text("fail"@, reason.tag_text()))
}

/// The name of the one member of a failure payload is written as it is.
proof fn lemma_member_name_is_plain()
    ensures
        is_unescaped("fail"@),
        is_ascii_chars("fail"@),
{
    reveal_strlit("fail");
}

/// Every tag is of ASCII characters that JSON writes as they are.
proof fn lemma_tag_is_plain(reason: FailureReason)
    ensures
        is_unescaped(reason.tag_text()),
        is_ascii_chars(reason.tag_text()),
{
    reveal_strlit("MissingReplyAddress");
    reveal_strlit("InvalidPayload");
    reveal_strlit("NotAuthenticated");
    reveal_strlit("UpstreamUnreachable");
    reveal_strlit("UpstreamRejected");
    reveal_strlit("ReplyUnroutable");
    reveal_strlit("CredentialRefreshFailed");
}

impl FailureReason {
    /// The payload that reports the reason to the caller.
    pub fn payload(&self) -> (payload: Vec<u8>)
        ensures
            payload@ == failure_payload(*self),
    {
        let tag = self.tag();
        proof {
            lemma_member_name_is_plain();
            lemma_tag_is_plain(*self);
        }
        let text = object_to_string("fail", tag).unwrap();
        let payload = text.as_str().as_bytes_vec();
        proof {
            let plain = plain_object_text("fail"@, self.tag_text());
            is_ascii_chars_encode_utf8(plain);
            assert(payload@ =~= ascii_bytes(plain));
        }
        payload
    }
}

/// What lies under a failure, where something does.
#[derive(Debug, Clone, PartialEq, Eq)]
pub enum Cause {
    /// The fault found in the payload.
    Payload(PayloadError),
    /// The status with which the upstream answered.
    Status(u16),
    /// What the transport said when the call failed.
    Transport(String),
    /// The configured endpoint is not an absolute URL.
    Endpoint,
    /// The fault found in a token response.
    Credential(TokenError),
}

/// The mathematical value of a [`Cause`].
pub enum CauseView {
    Payload(PayloadError),
    Status(u16),
    Transport(Seq<char>),
    Endpoint,
    Credential(TokenError),
}

impl View for Cause {
    type V = CauseView;

    open spec fn view(&self) -> CauseView {
        match self {
            Cause::Payload(e) => CauseView::Payload(*e),
            Cause::Status(code) => CauseView::Status(*code),
            Cause::Transport(detail) => CauseView::Transport(detail@),
            Cause::Endpoint => CauseView::Endpoint,
            Cause::Credential(e) => CauseView::Credential(*e),
        }
    }
}

/// The mathematical value of a cause that may be absent.
pub open spec fn cause_view(cause: Option<Cause>) -> Option<CauseView> {
    match cause {
        Some(c) => Some(c@),
        None => None,
    }
}

/// A message that was not relayed: the address to tell, where one is known,
/// the reason, and what lies under it.
#[derive(Debug, Clone, PartialEq, Eq)]
pub struct Failure {
    pub reply_address: Option<String>,
    pub reason: FailureReason,
    pub cause: Option<Cause>,
}

/// The mathematical value of a [`Failure`].
pub struct FailureView {
    pub reply_address: Option<Seq<char>>,
    pub reason: FailureReason,
    pub cause: Option<CauseView>,
}

impl View for Failure {
    type V = FailureView;

    open spec fn view(&self) -> FailureView {
        FailureView {
            reply_address: text_view(self.reply_address),
            reason: self.reason,
            cause: cause_view(self.cause),
        }
    }
}

/// A text as `Debug` prints a string: between double quotes, with escapes.
pub uninterp spec fn debug_text(text: Seq<char>) -> Seq<char>;

/// `<str as Debug>::fmt`, through `format!`: the printed text depends on the
/// string alone.
#[verifier::external_body]
fn debug_quoted(text: &str) -> (quoted: String)
    ensures
        quoted@ == debug_text(text@),
{
    format!("{:?}", text)
}

/// An optional address as `Debug` prints it: `None`, or the quoted address
/// inside `Some(..)`.
pub open spec fn debug_address(address: Option<Seq<char>>) -> Seq<char> {
    match address {
        Some(a) => "Some("@ + debug_text(a) + ")"@,
        None => "None"@,
    }
}

/// The line that describes a failure in a log.
pub open spec fn failure_text(failure: FailureView) -> Seq<char> {
    "reply_to: "@ + debug_address(failure.reply_address) + " message: "@ + debug_text(
        failure.reason.tag_text(),
    )
}

impl Failure {
    /// A failure without a known cause.
    pub fn new(reply_address: Option<String>, reason: FailureReason) -> (failure: Failure)
        ensures
            failure@ == (FailureView {
                reply_address: text_view(reply_address),
                reason,
                cause: None,
            }),
    {
        Failure { reply_address, reason, cause: None }
    }

    /// The line that describes the failure in a log: the address to reply to
    /// and the reason's tag, both as `Debug` prints them.
    pub fn describe(&self) -> (line: String)
        ensures
            line@ == failure_text(self@),
    {
        let mut line = String::from_str("reply_to: ");
        match &self.reply_address {
            Some(address) => {
                let quoted = debug_quoted(address.as_str());
                line.append("Some(");
                line.append(quoted.as_str());
                line.append(")");
            },
            None => {
                line.append("None");
            },
        }
        line.append(" message: ");
        let tag = debug_quoted(self.reason.tag());
        line.append(tag.as_str());
        proof {
            let address = debug_address(self@.reply_address);
            let tail = debug_text(self.reason.tag_text());
            assert(line@ =~= "reply_to: "@ + address + " message: "@ + tail);
        }
        line
    }
}

/// The payload of a failure is the bytes of `{"fail":"` followed by the tag
/// of the reason and `"}`.
pub proof fn law_failure_payload_is_tagged(reason: FailureReason)
    ensures
        failure_payload(reason) == ascii_bytes("{\"fail\":\""@ + reason.tag_text() + "\"}"@),
{
    reveal_strlit("fail");
    reveal_strlit("{\"fail\":\"");
    reveal_strlit("\"}");
    assert(plain_object_text("fail"@, reason.tag_text()) =~= "{\"fail\":\""@ + reason.tag_text()
        + "\"}"@);
}

} // verus!

//! The bearer credential and the store that holds the current one.

use crate::json::{
    json_decoded, lookup, member, member_view, parse, required_text, Member, MemberView,
};
use vstd::prelude::*;
use vstd::string::*;

verus! {

/// An instant in time: seconds since the Unix epoch, and the nanoseconds past
/// that second.
#[derive(Debug, Clone, Copy, PartialEq, Eq, Structural)]
pub struct Timestamp {
    pub seconds: i64,
    pub nanos: u32,
}

/// Why a text is no credential.
#[derive(Debug, Clone, Copy, PartialEq, Eq, Structural)]
pub enum TokenError {
    /// The text is not a JSON document.
    NotJson,
    /// There is no member `token`, or it is no string.
    Token,
    /// There is no member `expiresAt`, or it is no string.
    Expiry,
    /// The member `expiresAt` does not spell an instant.
    Instant,
}

/// A short-lived bearer token and the instant at which it expires.
#[derive(Debug, Clone, PartialEq, Eq)]
pub struct YandexIAMToken {
    pub iam_token: String,
    pub expire_at: Timestamp,
}

/// The mathematical value of a [`YandexIAMToken`].
pub struct TokenView {
    pub iam_token: Seq<char>,
    pub expire_at: Timestamp,
}

impl View for YandexIAMToken {
    type V = TokenView;

    open spec fn view(&self) -> TokenView {
        TokenView { iam_token: self.iam_token@, expire_at: self.expire_at }
    }
}

/// The instant that `text` spells in the relaxed RFC 3339 form that `chrono`
/// reads, as seconds and nanoseconds in UTC; `None` when it spells none.
pub uninterp spec fn instant_of_text(text: Seq<char>) -> Option<(i64, u32)>;

/// `chrono::DateTime::<Utc>::from_str`, with the instant handed out as
/// `timestamp()` and `timestamp_subsec_nanos()`: the result depends on the
/// text alone.
#[verifier::external_body]
fn parse_instant(text: &str) -> (instant: Option<(i64, u32)>)
    ensures
        instant == instant_of_text(text@),
{
    text.parse::<chrono::DateTime<chrono::Utc>>().ok().map(
        |at| (at.timestamp(), at.timestamp_subsec_nanos()),
    )
}

/// The credential with this token that expires at `instant`.
pub open spec fn token_with_expiry(token: Seq<char>, instant: Option<(i64, u32)>) -> Result<
    TokenView,
    TokenError,
> {
    match instant {
        Some((seconds, nanos)) => Ok(
            TokenView { iam_token: token, expire_at: Timestamp { seconds, nanos } },
        ),
        None => Err(TokenError::Instant),
    }
}

/// The credential that the members `token` and `expiresAt` of a document make.
pub open spec fn token_of_members(token: Option<MemberView>, expires_at: Option<MemberView>) -> Result<
    TokenView,
    TokenError,
> {
    match required_text(token) {
        None => Err(TokenError::Token),
        Some(t) => match required_text(expires_at) {
            None => Err(TokenError::Expiry),
            Some(e) => token_with_expiry(t, instant_of_text(e)),
        },
    }
}

/// The credential that the bytes of a document spell.
pub open spec fn token_of_bytes(bytes: Seq<u8>) -> Result<TokenView, TokenError> {
    match json_decoded(bytes) {
        None => Err(TokenError::NotJson),
        Some(members) => token_of_members(
            lookup(members, "token"@),
            lookup(members, "expiresAt"@),
        ),
    }
}

/// Whether `made` is the credential, or the error, that `expected` names.
pub open spec fn token_result_is(
    made: Result<YandexIAMToken, TokenError>,
    expected: Result<TokenView, TokenError>,
) -> bool {
    match made {
        Ok(t) => expected == Ok::<TokenView, TokenError>(t@),
        Err(e) => expected == Err::<TokenView, TokenError>(e),
    }
}

/// The mathematical value of a credential that may be absent.
pub open spec fn credential_view(credential: Option<YandexIAMToken>) -> Option<TokenView> {
    match credential {
        Some(c) => Some(c@),
        None => None,
    }
}

impl YandexIAMToken {
    /// The credential with this token that expires at `instant`, where the
    /// text of the expiry spelt one.
    pub fn with_expiry(token: String, instant: Option<(i64, u32)>) -> (made: Result<
        YandexIAMToken,
        TokenError,
    >)
        ensures
            token_result_is(made, token_with_expiry(token@, instant)),
    {
        match instant {
            Some((seconds, nanos)) => Ok(
                YandexIAMToken { iam_token: token, expire_at: Timestamp { seconds, nanos } },
            ),
            None => Err(TokenError::Instant),
        }
    }

    /// Makes a credential of the two members of a token response.
    pub fn from_members(token: Option<Member>, expires_at: Option<Member>) -> (made: Result<
        YandexIAMToken,
        TokenError,
    >)
        ensures
            token_result_is(made, token_of_members(member_view(token), member_view(expires_at))),
    {
        let token = match token {
            Some(Member::Text(t)) => t,
            _ => { return Err(TokenError::Token); },
        };
        let expires_at = match expires_at {
            Some(Member::Text(e)) => e,
            _ => { return Err(TokenError::Expiry); },
        };
        YandexIAMToken::with_expiry(token, parse_instant(expires_at.as_str()))
    }

    /// Reads a credential from the JSON text of a token response.
    pub fn from_json_string(json: String) -> (made: Result<YandexIAMToken, TokenError>)
        ensures
            token_result_is(made, token_of_bytes(vstd::utf8::encode_utf8(json@))),
    {
        let doc = match parse(json.as_str().as_bytes()) {
            Ok(doc) => doc,
            Err(_) => { return Err(TokenError::NotJson); },
        };
        let token = member(&doc, "token");
        let expires_at = member(&doc, "expiresAt");
        YandexIAMToken::from_members(token, expires_at)
    }

    /// A copy of the credential.
    pub fn snapshot(&self) -> (copy: YandexIAMToken)
        ensures
            copy@ == self@,
    {
        YandexIAMToken { iam_token: self.iam_token.clone(), expire_at: self.expire_at }
    }
}

/// The holder of the current credential: empty until the first credential is
/// written, and from then on holding the one written last.
pub struct CredentialStore {
    current: Option<YandexIAMToken>,
}

impl View for CredentialStore {
    type V = Option<TokenView>;

    closed spec fn view(&self) -> Option<TokenView> {
        credential_view(self.current)
    }
}

impl CredentialStore {
    /// The empty store.
    pub fn new() -> (store: CredentialStore)
        ensures
            store@ is None,
    {
        CredentialStore { current: None }
    }

    /// A copy of the current credential; `None` says that none has been
    /// obtained yet.
    pub fn read(&self) -> (current: Option<YandexIAMToken>)
        ensures
            credential_view(current) == self@,
    {
        match &self.current {
            Some(c) => Some(c.snapshot()),
            None => None,
        }
    }

    /// Replaces the current credential by `new`, whole.
    pub fn write(&mut self, new: YandexIAMToken)
        ensures
            final(self)@ == after_write(old(self)@, new@),
    {
        self.current = Some(new);
    }
}

/// What a store holds after `new` is written to it: `new`, whatever it held.
pub open spec fn after_write(store: Option<TokenView>, new: TokenView) -> Option<TokenView> {
    Some(new)
}

/// What a store holds after `writes` are written to it, one after another.
pub open spec fn after_writes(store: Option<TokenView>, writes: Seq<TokenView>) -> Option<
    TokenView,
>
    decreases writes.len(),
{
    if writes.len() == 0 {
        store
    } else {
        after_write(after_writes(store, writes.drop_last()), writes.last())
    }
}

/// However reads fall between the writes to a store that began empty, a read
/// finds it empty only before the first write, and after that finds a whole
/// credential that was written: the one written last before the read.
pub proof fn law_read_sees_last_write(writes: Seq<TokenView>, before: int)
    requires
        0 <= before <= writes.len(),
    ensures
        before == 0 ==> after_writes(None, writes.take(before)) is None,
        before > 0 ==> after_writes(None, writes.take(before)) == Some(writes[before - 1]),
{
    let prefix = writes.take(before);
    if before > 0 {
        assert(prefix.last() == writes[before - 1]);
    }
}

} // verus!

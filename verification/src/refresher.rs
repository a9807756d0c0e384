//! The upkeep of the credential: which request obtains a token, and what a
//! refresh cycle does to the store once the request has been answered.

use crate::credential::{token_of_bytes, CredentialStore, TokenView, YandexIAMToken};
use crate::failure::{Cause, CauseView, Failure, FailureReason, FailureView};
use crate::json::{is_unescaped, json_object_text, object_to_string, plain_object_text};
use crate::relay::{is_success, status_is_success};
use vstd::prelude::*;
use vstd::string::*;
use vstd::utf8::encode_utf8;

verus! {

/// The request that obtains a token: a POST of `body` to `url`.
#[derive(Debug, Clone, PartialEq, Eq)]
pub struct TokenRequest {
    pub url: String,
    pub body: String,
}

/// What became of a token request.
#[derive(Debug, Clone, PartialEq, Eq)]
pub enum FetchOutcome {
    /// The request did not get through, or its answer could not be read.
    Unreachable { detail: String },
    /// The endpoint answered with `status` and the text `body`.
    Answered { status: u16, body: String },
}

/// The mathematical value of a [`FetchOutcome`].
pub enum FetchOutcomeView {
    Unreachable { detail: Seq<char> },
    Answered { status: u16, body: Seq<char> },
}

impl View for FetchOutcome {
    type V = FetchOutcomeView;

    open spec fn view(&self) -> FetchOutcomeView {
        match self {
            FetchOutcome::Unreachable { detail } => FetchOutcomeView::Unreachable {
                detail: detail@,
            },
            FetchOutcome::Answered { status, body } => FetchOutcomeView::Answered {
                status: *status,
                body: body@,
            },
        }
    }
}

/// What the owner of the refresher does after a cycle.
#[derive(Debug, Clone, PartialEq, Eq)]
pub struct RefreshStep {
    /// Whether to signal that a credential is held; true for one cycle only,
    /// the first that obtained one.
    pub announce_ready: bool,
    /// The failure to log, where the cycle obtained no credential.
    pub failure: Option<Failure>,
    /// The seconds to wait before the next cycle.
    pub sleep_secs: u64,
}

/// The mathematical value of a [`RefreshStep`].
pub struct RefreshStepView {
    pub announce_ready: bool,
    pub failure: Option<FailureView>,
    pub sleep_secs: u64,
}

impl View for RefreshStep {
    type V = RefreshStepView;

    open spec fn view(&self) -> RefreshStepView {
        RefreshStepView {
            announce_ready: self.announce_ready,
            failure: match self.failure {
                Some(f) => Some(f@),
                None => None,
            },
            sleep_secs: self.sleep_secs,
        }
    }
}

/// The credential refresher: where and with which long-lived secret a token
/// is asked for, how long it waits between two cycles, and whether it has
/// obtained a credential yet.
pub struct Refresher {
    auth_url: String,
    secret: String,
    every_secs: u64,
    ready: bool,
}

/// The mathematical value of a [`Refresher`].
pub struct RefresherView {
    pub auth_url: Seq<char>,
    pub secret: Seq<char>,
    pub every_secs: u64,
    pub ready: bool,
}

impl View for Refresher {
    type V = RefresherView;

    closed spec fn view(&self) -> RefresherView {
        RefresherView {
            auth_url: self.auth_url@,
            secret: self.secret@,
            every_secs: self.every_secs,
            ready: self.ready,
        }
    }
}

/// The credential that a cycle obtained, or why it obtained none: the
/// request did not get through, the status was outside the success class, or
/// the body was no credential.
pub open spec fn fetched(outcome: FetchOutcomeView) -> Result<TokenView, CauseView> {
    match outcome {
        FetchOutcomeView::Unreachable { detail } => Err(CauseView::Transport(detail)),
        FetchOutcomeView::Answered { status, body } => if !is_success(status) {
            Err(CauseView::Status(status))
        } else {
            match token_of_bytes(encode_utf8(body)) {
                Ok(token) => Ok(token),
                Err(e) => Err(CauseView::Credential(e)),
            }
        },
    }
}

/// What the store holds after a cycle: the credential that the cycle
/// obtained, or, where it obtained none, what the store held before.
pub open spec fn installed(store: Option<TokenView>, fetched: Result<TokenView, CauseView>) -> Option<
    TokenView,
> {
    match fetched {
        Ok(token) => Some(token),
        Err(_) => store,
    }
}

/// What the owner does after a cycle of a refresher in the state `before`.
pub open spec fn stepped(before: RefresherView, fetched: Result<TokenView, CauseView>) -> RefreshStepView {
    RefreshStepView {
        announce_ready: fetched is Ok && !before.ready,
        failure: match fetched {
            Ok(_) => None,
            Err(cause) => Some(
                FailureView {
                    reply_address: None,
                    reason: FailureReason::CredentialRefreshFailed,
                    cause: Some(cause),
                },
            ),
        },
        sleep_secs: before.every_secs,
    }
}

/// The refresher after a cycle: ready once a cycle has obtained a credential.
pub open spec fn advanced(before: RefresherView, fetched: Result<TokenView, CauseView>) -> RefresherView {
    RefresherView { ready: before.ready || fetched is Ok, ..before }
}

/// The mathematical value of what a cycle obtained.
pub open spec fn fetched_view(fetched: Result<YandexIAMToken, Cause>) -> Result<
    TokenView,
    CauseView,
> {
    match fetched {
        Ok(token) => Ok(token@),
        Err(cause) => Err(cause@),
    }
}

impl Refresher {
    #[verifier::type_invariant]
    spec fn well_formed(self) -> bool {
        self.every_secs > 0
    }

    /// A refresher that has not run yet, or `None` where the period is zero.
    pub fn new(auth_url: String, secret: String, every_secs: u64) -> (made: Option<Refresher>)
        ensures
            made is Some <==> every_secs > 0,
            made matches Some(refresher) ==> refresher@ == (RefresherView {
                auth_url: auth_url@,
                secret: secret@,
                every_secs,
                ready: false,
            }),
    {
        if every_secs == 0 {
            None
        } else {
            Some(Refresher { auth_url, secret, every_secs, ready: false })
        }
    }

    /// Whether a cycle has obtained a credential yet.
    pub fn is_ready(&self) -> (ready: bool)
        ensures
            ready == self@.ready,
    {
        self.ready
    }

    /// The seconds between two cycles; never zero.
    pub fn every_secs(&self) -> (every: u64)
        ensures
            every == self@.every_secs,
            every > 0,
    {
        proof {
            use_type_invariant(self);
        }
        self.every_secs
    }

    /// The request of a cycle: the JSON object with the one member
    /// `longLivedSecret`, posted to the authentication endpoint.
    pub fn token_request(&self) -> (request: TokenRequest)
        ensures
            request.url@ == self@.auth_url,
            request.body@ == json_object_text("longLivedSecret"@, self@.secret),
            is_unescaped(self@.secret) ==> request.body@ == plain_object_text(
                "longLivedSecret"@,
                self@.secret,
            ),
    {
        proof {
            reveal_strlit("longLivedSecret");
        }
        let body = object_to_string("longLivedSecret", self.secret.as_str()).unwrap();
        TokenRequest { url: self.auth_url.clone(), body }
    }

    /// Reads what a cycle obtained from the answer to its request.
    pub fn read(outcome: FetchOutcome) -> (read: Result<YandexIAMToken, Cause>)
        ensures
            fetched_view(read) == fetched(outcome@),
    {
        match outcome {
            FetchOutcome::Unreachable { detail } => Err(Cause::Transport(detail)),
            FetchOutcome::Answered { status, body } => {
                if !status_is_success(status) {
                    Err(Cause::Status(status))
                } else {
                    match YandexIAMToken::from_json_string(body) {
                        Ok(token) => Ok(token),
                        Err(e) => Err(Cause::Credential(e)),
                    }
                }
            },
        }
    }

    /// Ends a cycle with what it obtained. A credential replaces the one in
    /// the store; a failure leaves the store as it was. The first credential
    /// ever obtained is announced, and no later one.
    pub fn install(&mut self, store: &mut CredentialStore, fetched: Result<YandexIAMToken, Cause>) -> (step:
        RefreshStep)
        ensures
            final(store)@ == installed(old(store)@, fetched_view(fetched)),
            final(self)@ == advanced(old(self)@, fetched_view(fetched)),
            step@ == stepped(old(self)@, fetched_view(fetched)),
    {
        proof {
            use_type_invariant(&*self);
        }
        match fetched {
            Ok(token) => {
                store.write(token);
                let announce_ready = !self.ready;
                self.ready = true;
                RefreshStep { announce_ready, failure: None, sleep_secs: self.every_secs }
            },
            Err(cause) => RefreshStep {
                announce_ready: false,
                failure: Some(
                    Failure {
                        reply_address: None,
                        reason: FailureReason::CredentialRefreshFailed,
                        cause: Some(cause),
                    },
                ),
                sleep_secs: self.every_secs,
            },
        }
    }

    /// Ends a cycle with the answer to its request.
    pub fn on_fetch(&mut self, store: &mut CredentialStore, outcome: FetchOutcome) -> (step:
        RefreshStep)
        ensures
            final(store)@ == installed(old(store)@, fetched(outcome@)),
            final(self)@ == advanced(old(self)@, fetched(outcome@)),
            step@ == stepped(old(self)@, fetched(outcome@)),
    {
        let read = Refresher::read(outcome);
        self.install(store, read)
    }
}

/// What the store holds after `cycles`, one after another.
pub open spec fn installed_all(
    store: Option<TokenView>,
    cycles: Seq<Result<TokenView, CauseView>>,
) -> Option<TokenView>
    decreases cycles.len(),
{
    if cycles.len() == 0 {
        store
    } else {
        installed(installed_all(store, cycles.drop_last()), cycles.last())
    }
}

/// The refresher after `cycles`, one after another.
pub open spec fn advanced_all(
    before: RefresherView,
    cycles: Seq<Result<TokenView, CauseView>>,
) -> RefresherView
    decreases cycles.len(),
{
    if cycles.len() == 0 {
        before
    } else {
        advanced(advanced_all(before, cycles.drop_last()), cycles.last())
    }
}

/// The credential that the last successful one of `cycles` obtained, if any
/// of them was successful.
pub open spec fn last_obtained(cycles: Seq<Result<TokenView, CauseView>>) -> Option<TokenView>
    decreases cycles.len(),
{
    if cycles.len() == 0 {
        None
    } else {
        match cycles.last() {
            Ok(token) => Some(token),
            Err(_) => last_obtained(cycles.drop_last()),
        }
    }
}

/// After any run of cycles, successful and failed in any order, the store
/// holds the credential of the last successful cycle, whole; where no cycle
/// was successful it holds what it held before the run. A store that began
/// empty is thus empty only until the first success, and never holds
/// anything that a failed cycle brought.
pub proof fn law_store_holds_last_obtained(
    store: Option<TokenView>,
    cycles: Seq<Result<TokenView, CauseView>>,
)
    ensures
        installed_all(store, cycles) == match last_obtained(cycles) {
            Some(token) => Some(token),
            None => store,
        },
        installed_all(None, cycles) == last_obtained(cycles),
    decreases cycles.len(),
{
    if cycles.len() > 0 {
        law_store_holds_last_obtained(store, cycles.drop_last());
        law_store_holds_last_obtained(None, cycles.drop_last());
    }
}

/// A refresher is ready after a run of cycles exactly if it was ready before
/// or one of the cycles obtained a credential; nothing else of it changes.
pub proof fn law_ready_after_first_success(
    before: RefresherView,
    cycles: Seq<Result<TokenView, CauseView>>,
)
    ensures
        advanced_all(before, cycles) == (RefresherView {
            ready: before.ready || last_obtained(cycles) is Some,
            ..before
        }),
    decreases cycles.len(),
{
    if cycles.len() > 0 {
        law_ready_after_first_success(before, cycles.drop_last());
    }
}

/// Readiness is announced once: by the cycle that obtains a credential when
/// the refresher was not ready at the start and no earlier cycle obtained
/// one, and by no other.
pub proof fn law_ready_is_announced_once(
    before: RefresherView,
    cycles: Seq<Result<TokenView, CauseView>>,
    at: int,
)
    requires
        0 <= at < cycles.len(),
    ensures
        stepped(advanced_all(before, cycles.take(at)), cycles[at]).announce_ready <==> (
        !before.ready && cycles[at] is Ok && last_obtained(cycles.take(at)) is None),
{
    law_ready_after_first_success(before, cycles.take(at));
}

} // verus!

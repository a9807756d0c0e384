//! The relay of one message: from the inbound message to the upstream call,
//! from the upstream's answer to the outcome, and from the outcome to what is
//! published back.

use crate::credential::{credential_view, CredentialStore, TokenView, YandexIAMToken};
use crate::failure::{failure_payload, Cause, CauseView, Failure, FailureReason, FailureView};
use crate::json::text_view;
use crate::tts_payload::{
    payload_of_bytes, query_params, PayloadError, TTSPayload, TTSPayloadView,
};
use crate::urls::API_TTS_URL;
use vstd::prelude::*;
use vstd::string::*;
use vstd::utf8::{encode_utf8, is_ascii_chars_encode_utf8};

verus! {

/// The header map of a bus message, opaque to the verifier.
#[verifier::external_type_specification]
#[verifier::external_body]
pub struct ExHeaderMap(async_nats::HeaderMap);

/// The first value that a header map holds under each name.
pub uninterp spec fn header_values(headers: async_nats::HeaderMap) -> Map<Seq<char>, Seq<char>>;

/// The text of the URL that `base` spells, with `params` added to its query
/// in their order; `None` when `base` is no absolute URL.
pub uninterp spec fn url_with_params_text(
    base: Seq<char>,
    params: Seq<(Seq<char>, Seq<char>)>,
) -> Option<Seq<char>>;

/// Whether `name` can name a header: visible ASCII characters, no colon.
pub open spec fn is_header_name(name: Seq<char>) -> bool {
    forall|i: int|
        0 <= i < name.len() ==> '!' <= (#[trigger] name[i]) <= '~' && name[i] != ':'
}

/// The longest endpoint, in bytes, that a service takes.
pub const MAX_ENDPOINT_BYTES: usize = 2048;

/// Whether the bytes of an endpoint are few enough and hold no `#`, so that
/// the URL they spell has no fragment.
pub open spec fn is_endpoint(bytes: Seq<u8>) -> bool {
    &&& bytes.len() <= MAX_ENDPOINT_BYTES
    &&& forall|i: int| 0 <= i < bytes.len() ==> #[trigger] bytes[i] != 0x23
}

/// `async_nats::HeaderMap::get`, which panics on a name that cannot name a
/// header: the first value stored under `name`, or `None` where the map has
/// none.
#[verifier::external_body]
fn first_header(headers: &async_nats::HeaderMap, name: &str) -> (value: Option<String>)
    requires
        is_header_name(name@),
    ensures
        value is Some <==> header_values(*headers).contains_key(name@),
        value matches Some(v) ==> v@ == header_values(*headers)[name@],
{
    headers.get(name).map(|v| v.as_str().to_owned())
}

/// `url::Url::parse_with_params`, the result handed out as text. The call
/// fails only where `base` is no absolute URL. It panics where a length
/// leaves 32 bits as it opens the query of a parsed URL or puts its fragment
/// back behind the query: a bounded endpoint without `#` parses to a short
/// URL without a fragment, and reaches neither.
#[verifier::external_body]
fn url_with_params(base: &str, params: &Vec<(String, String)>) -> (url: Option<String>)
    requires
        is_endpoint(encode_utf8(base@)),
    ensures
        text_view(url) == url_with_params_text(base@, params.deep_view()),
{
    reqwest::Url::parse_with_params(base, params.iter()).ok().map(String::from)
}

/// A message taken from the bus.
#[derive(Debug, Clone)]
pub struct InboundMessage {
    /// The reply subject that the transport carries, if it carries one.
    pub reply: Option<String>,
    /// The headers of the message, if it has any.
    pub headers: Option<async_nats::HeaderMap>,
    /// The bytes of the payload.
    pub payload: Vec<u8>,
}

/// The mathematical value of an [`InboundMessage`].
pub struct InboundMessageView {
    pub reply: Option<Seq<char>>,
    pub headers: Option<Map<Seq<char>, Seq<char>>>,
    pub payload: Seq<u8>,
}

impl View for InboundMessage {
    type V = InboundMessageView;

    open spec fn view(&self) -> InboundMessageView {
        InboundMessageView {
            reply: text_view(self.reply),
            headers: match self.headers {
                Some(h) => Some(header_values(h)),
                None => None,
            },
            payload: self.payload@,
        }
    }
}

/// The relay of synthesis requests: the endpoint of the upstream, the
/// language and the folder that a request without its own is given, and the
/// seconds after which an upstream call is given up.
pub struct YandexTTS {
    endpoint: String,
    language: String,
    folder_id: String,
    timeout_secs: u64,
}

/// The mathematical value of a [`YandexTTS`].
pub struct YandexTTSView {
    pub endpoint: Seq<char>,
    pub language: Seq<char>,
    pub folder_id: Seq<char>,
    pub timeout_secs: u64,
}

impl View for YandexTTS {
    type V = YandexTTSView;

    closed spec fn view(&self) -> YandexTTSView {
        YandexTTSView {
            endpoint: self.endpoint@,
            language: self.language@,
            folder_id: self.folder_id@,
            timeout_secs: self.timeout_secs,
        }
    }
}

impl YandexTTS {
    #[verifier::type_invariant]
    spec fn well_formed(self) -> bool {
        is_endpoint(encode_utf8(self.endpoint@))
    }

    /// A relay for the upstream at `endpoint`, or `None` where the endpoint
    /// is longer than [`MAX_ENDPOINT_BYTES`] or holds a `#`.
    pub fn new(endpoint: String, language: String, folder_id: String, timeout_secs: u64) -> (made:
        Option<YandexTTS>)
        ensures
            made is Some <==> is_endpoint(encode_utf8(endpoint@)),
            made matches Some(relay) ==> relay@ == (YandexTTSView {
                endpoint: endpoint@,
                language: language@,
                folder_id: folder_id@,
                timeout_secs,
            }),
    {
        let bytes = endpoint.as_str().as_bytes();
        if bytes.len() > MAX_ENDPOINT_BYTES {
            return None;
        }
        let mut i: usize = 0;
        while i < bytes.len()
            invariant
                i <= bytes.len(),
                bytes@ == encode_utf8(endpoint@),
                forall|j: int| 0 <= j < i ==> #[trigger] bytes@[j] != 0x23,
            decreases bytes.len() - i,
        {
            if bytes[i] == 0x23 {
                return None;
            }
            i += 1;
        }
        Some(YandexTTS { endpoint, language, folder_id, timeout_secs })
    }
}

/// An upstream call to make for a message.
#[derive(Debug, Clone, PartialEq, Eq)]
pub struct UpstreamCall {
    /// The address to which the outcome of the call is owed.
    pub reply_address: String,
    /// The URL to get, query included.
    pub url: String,
    /// The token to send as `Authorization: Bearer`.
    pub bearer: String,
    /// The seconds after which the call is given up as unreachable.
    pub timeout_secs: u64,
}

/// The mathematical value of an [`UpstreamCall`].
pub struct UpstreamCallView {
    pub reply_address: Seq<char>,
    pub url: Seq<char>,
    pub bearer: Seq<char>,
    pub timeout_secs: u64,
}

impl View for UpstreamCall {
    type V = UpstreamCallView;

    open spec fn view(&self) -> UpstreamCallView {
        UpstreamCallView {
            reply_address: self.reply_address@,
            url: self.url@,
            bearer: self.bearer@,
            timeout_secs: self.timeout_secs,
        }
    }
}

/// What became of an upstream call.
#[derive(Debug, Clone, PartialEq, Eq)]
pub enum UpstreamReply {
    /// The call did not get through, or no answer came in time.
    Unreachable { detail: String },
    /// The upstream answered with `status` and the bytes of `body`.
    Answered { status: u16, body: Vec<u8> },
    /// The upstream answered with `status`, and reading the body failed.
    Interrupted { status: u16, detail: String },
}

/// The mathematical value of an [`UpstreamReply`].
pub enum UpstreamReplyView {
    Unreachable { detail: Seq<char> },
    Answered { status: u16, body: Seq<u8> },
    Interrupted { status: u16, detail: Seq<char> },
}

impl View for UpstreamReply {
    type V = UpstreamReplyView;

    open spec fn view(&self) -> UpstreamReplyView {
        match self {
            UpstreamReply::Unreachable { detail } => UpstreamReplyView::Unreachable {
                detail: detail@,
            },
            UpstreamReply::Answered { status, body } => UpstreamReplyView::Answered {
                status: *status,
                body: body@,
            },
            UpstreamReply::Interrupted { status, detail } => UpstreamReplyView::Interrupted {
                status: *status,
                detail: detail@,
            },
        }
    }
}

/// How the relay of one message ended.
#[derive(Debug, Clone, PartialEq, Eq)]
pub enum RelayOutcome {
    /// The upstream answered: its bytes are owed to `reply_address`.
    Success { reply_address: String, payload: Vec<u8> },
    /// The message was not relayed.
    Failure(Failure),
}

/// The mathematical value of a [`RelayOutcome`].
pub enum RelayOutcomeView {
    Success { reply_address: Seq<char>, payload: Seq<u8> },
    Failure(FailureView),
}

impl View for RelayOutcome {
    type V = RelayOutcomeView;

    open spec fn view(&self) -> RelayOutcomeView {
        match self {
            RelayOutcome::Success { reply_address, payload } => RelayOutcomeView::Success {
                reply_address: reply_address@,
                payload: payload@,
            },
            RelayOutcome::Failure(failure) => RelayOutcomeView::Failure(failure@),
        }
    }
}

/// A payload to publish on a subject of the bus.
#[derive(Debug, Clone, PartialEq, Eq)]
pub struct Publication {
    pub subject: String,
    pub payload: Vec<u8>,
}

/// The mathematical value of a [`Publication`].
pub struct PublicationView {
    pub subject: Seq<char>,
    pub payload: Seq<u8>,
}

impl View for Publication {
    type V = PublicationView;

    open spec fn view(&self) -> PublicationView {
        PublicationView { subject: self.subject@, payload: self.payload@ }
    }
}

/// The address to which the outcome of a message is owed: the reply subject
/// of the transport or, where the transport carries none, the header
/// `reply-to`. An empty address is none.
pub open spec fn reply_address_of(message: InboundMessageView) -> Option<Seq<char>> {
    let named = match message.reply {
        Some(reply) => Some(reply),
        None => match message.headers {
            Some(headers) => if headers.contains_key("reply-to"@) {
                Some(headers["reply-to"@])
            } else {
                None
            },
            None => None,
        },
    };
    match named {
        Some(address) => if address.len() > 0 {
            Some(address)
        } else {
            None
        },
        None => None,
    }
}

/// The failure that is owed to `address` for `reason`.
pub open spec fn failure_at(
    address: Option<Seq<char>>,
    reason: FailureReason,
    cause: Option<CauseView>,
) -> FailureView {
    FailureView { reply_address: address, reason, cause }
}

/// What is done for a message, given its address, the request read from its
/// payload, the current credential, and the URL built for the request. The
/// first of these that is wanting decides: no address, no request, no
/// credential, no URL. An upstream call is made only when none is.
pub open spec fn decided(
    timeout_secs: u64,
    address: Option<Seq<char>>,
    payload: Result<TTSPayloadView, PayloadError>,
    credential: Option<TokenView>,
    url: Option<Seq<char>>,
) -> Result<UpstreamCallView, FailureView> {
    match address {
        None => Err(failure_at(None, FailureReason::MissingReplyAddress, None)),
        Some(a) => match payload {
            Err(e) => Err(
                failure_at(Some(a), FailureReason::InvalidPayload, Some(CauseView::Payload(e))),
            ),
            Ok(_) => match credential {
                None => Err(failure_at(Some(a), FailureReason::NotAuthenticated, None)),
                Some(c) => match url {
                    None => Err(
                        failure_at(
                            Some(a),
                            FailureReason::UpstreamUnreachable,
                            Some(CauseView::Endpoint),
                        ),
                    ),
                    Some(u) => Ok(
                        UpstreamCallView {
                            reply_address: a,
                            url: u,
                            bearer: c.iam_token,
                            timeout_secs,
                        },
                    ),
                },
            },
        },
    }
}

/// The URL of the upstream call for a request: the endpoint with the query
/// parameters of the request.
pub open spec fn call_url(relay: YandexTTSView, payload: Result<TTSPayloadView, PayloadError>) -> Option<
    Seq<char>,
> {
    match payload {
        Ok(p) => url_with_params_text(
            relay.endpoint,
            query_params(p, relay.language, relay.folder_id),
        ),
        Err(_) => None,
    }
}

/// What is done for `message` while the store holds `store`.
pub open spec fn planned(
    relay: YandexTTSView,
    message: InboundMessageView,
    store: Option<TokenView>,
) -> Result<UpstreamCallView, FailureView> {
    let payload = payload_of_bytes(message.payload);
    decided(
        relay.timeout_secs,
        reply_address_of(message),
        payload,
        store,
        call_url(relay, payload),
    )
}

/// Whether `status` is of the success class.
pub open spec fn is_success(status: u16) -> bool {
    200 <= status <= 299
}

/// The failure of a call that the transport did not carry through.
pub open spec fn unreachable_at(address: Seq<char>, detail: Seq<char>) -> RelayOutcomeView {
    RelayOutcomeView::Failure(
        failure_at(
            Some(address),
            FailureReason::UpstreamUnreachable,
            Some(CauseView::Transport(detail)),
        ),
    )
}

/// The failure of a call that the upstream answered with `status`.
pub open spec fn rejected_at(address: Seq<char>, status: u16) -> RelayOutcomeView {
    RelayOutcomeView::Failure(
        failure_at(
            Some(address),
            FailureReason::UpstreamRejected,
            Some(CauseView::Status(status)),
        ),
    )
}

/// The outcome of a message whose upstream call was answered by `reply`. A
/// status outside the success class is a rejection, whatever became of the
/// body.
pub open spec fn concluded(address: Seq<char>, reply: UpstreamReplyView) -> RelayOutcomeView {
    match reply {
        UpstreamReplyView::Unreachable { detail } => unreachable_at(address, detail),
        UpstreamReplyView::Answered { status, body } => if is_success(status) {
            RelayOutcomeView::Success { reply_address: address, payload: body }
        } else {
            rejected_at(address, status)
        },
        UpstreamReplyView::Interrupted { status, detail } => if is_success(status) {
            unreachable_at(address, detail)
        } else {
            rejected_at(address, status)
        },
    }
}

/// What is published for an outcome: to its address, the bytes of the
/// upstream for a success and the failure payload for a failure. An outcome
/// without an address, or with an empty one, is unroutable.
pub open spec fn dispatched(outcome: RelayOutcomeView) -> Result<PublicationView, FailureReason> {
    match outcome {
        RelayOutcomeView::Success { reply_address, payload } => if reply_address.len() > 0 {
            Ok(PublicationView { subject: reply_address, payload })
        } else {
            Err(FailureReason::ReplyUnroutable)
        },
        RelayOutcomeView::Failure(failure) => match failure.reply_address {
            Some(address) => if address.len() > 0 {
                Ok(PublicationView { subject: address, payload: failure_payload(failure.reason) })
            } else {
                Err(FailureReason::ReplyUnroutable)
            },
            None => Err(FailureReason::ReplyUnroutable),
        },
    }
}

/// Whether `made` is the call, or the failure, that `expected` names.
pub open spec fn plan_is(
    made: Result<UpstreamCall, Failure>,
    expected: Result<UpstreamCallView, FailureView>,
) -> bool {
    match made {
        Ok(call) => expected == Ok::<UpstreamCallView, FailureView>(call@),
        Err(failure) => expected == Err::<UpstreamCallView, FailureView>(failure@),
    }
}

/// Whether `made` is the publication, or the reason, that `expected` names.
pub open spec fn dispatch_is(
    made: Result<Publication, FailureReason>,
    expected: Result<PublicationView, FailureReason>,
) -> bool {
    match made {
        Ok(publication) => expected == Ok::<PublicationView, FailureReason>(publication@),
        Err(reason) => expected == Err::<PublicationView, FailureReason>(reason),
    }
}

/// The mathematical value of the result of reading a payload.
pub open spec fn payload_view(payload: Result<TTSPayload, PayloadError>) -> Result<
    TTSPayloadView,
    PayloadError,
> {
    match payload {
        Ok(p) => Ok(p@),
        Err(e) => Err(e),
    }
}

/// Whether an HTTP status is of the success class, 200 to 299.
pub fn status_is_success(status: u16) -> (ok: bool)
    ensures
        ok == is_success(status),
{
    200 <= status && status <= 299
}

impl InboundMessage {
    /// The address to which the outcome of the message is owed.
    pub fn reply_address(&self) -> (address: Option<String>)
        ensures
            text_view(address) == reply_address_of(self@),
    {
        let named = match &self.reply {
            Some(reply) => Some(reply.clone()),
            None => match &self.headers {
                Some(headers) => {
                    proof {
                        reveal_strlit("reply-to");
                    }
                    first_header(headers, "reply-to")
                },
                None => None,
            },
        };
        match named {
            Some(address) => if address.as_str().is_empty() {
                None
            } else {
                Some(address)
            },
            None => None,
        }
    }
}

impl YandexTTS {
    /// Decides what is done for a message from what was found for it: its
    /// address, the request read from its payload, the current credential
    /// and the URL built for the request.
    pub fn decide(
        &self,
        address: Option<String>,
        payload: Result<TTSPayload, PayloadError>,
        credential: Option<YandexIAMToken>,
        url: Option<String>,
    ) -> (made: Result<UpstreamCall, Failure>)
        ensures
            plan_is(
                made,
                decided(
                    self@.timeout_secs,
                    text_view(address),
                    payload_view(payload),
                    credential_view(credential),
                    text_view(url),
                ),
            ),
    {
        let address = match address {
            Some(a) => a,
            None => {
                return Err(
                    Failure {
                        reply_address: None,
                        reason: FailureReason::MissingReplyAddress,
                        cause: None,
                    },
                );
            },
        };
        if let Err(e) = payload {
            return Err(
                Failure {
                    reply_address: Some(address),
                    reason: FailureReason::InvalidPayload,
                    cause: Some(Cause::Payload(e)),
                },
            );
        }
        let credential = match credential {
            Some(c) => c,
            None => {
                return Err(
                    Failure {
                        reply_address: Some(address),
                        reason: FailureReason::NotAuthenticated,
                        cause: None,
                    },
                );
            },
        };
        match url {
            Some(url) => Ok(
                UpstreamCall {
                    reply_address: address,
                    url,
                    bearer: credential.iam_token,
                    timeout_secs: self.timeout_secs,
                },
            ),
            None => Err(
                Failure {
                    reply_address: Some(address),
                    reason: FailureReason::UpstreamUnreachable,
                    cause: Some(Cause::Endpoint),
                },
            ),
        }
    }

    /// The URL of the upstream call for a request: the endpoint, with the
    /// query parameters of the request added.
    pub fn call_url(&self, payload: &TTSPayload) -> (url: Option<String>)
        ensures
            text_view(url) == call_url(self@, Ok(payload@)),
    {
        proof {
            use_type_invariant(self);
        }
        let params = payload.to_hashmap(self.language.clone(), self.folder_id.clone());
        url_with_params(self.endpoint.as_str(), &params)
    }

    /// Handles one message with the credential that `store` holds: either
    /// the upstream call to make for it, or the failure to report. Nothing is
    /// sent here, and each message is looked at once.
    pub fn handle_tts_yandex(&self, message: InboundMessage, store: &CredentialStore) -> (made:
        Result<UpstreamCall, Failure>)
        ensures
            plan_is(made, planned(self@, message@, store@)),
    {
        let address = message.reply_address();
        let payload = TTSPayload::from_bytes_json(message.payload.as_slice());
        let url = match &payload {
            Ok(p) => self.call_url(p),
            Err(_) => None,
        };
        self.decide(address, payload, store.read(), url)
    }

    /// What is published for an outcome, or the reason why nothing is.
    pub fn dispatch(outcome: RelayOutcome) -> (made: Result<Publication, FailureReason>)
        ensures
            dispatch_is(made, dispatched(outcome@)),
    {
        match outcome {
            RelayOutcome::Success { reply_address, payload } => {
                if reply_address.as_str().is_empty() {
                    Err(FailureReason::ReplyUnroutable)
                } else {
                    Ok(Publication { subject: reply_address, payload })
                }
            },
            RelayOutcome::Failure(failure) => match failure.reply_address {
                Some(address) => {
                    if address.as_str().is_empty() {
                        Err(FailureReason::ReplyUnroutable)
                    } else {
                        Ok(Publication { subject: address, payload: failure.reason.payload() })
                    }
                },
                None => Err(FailureReason::ReplyUnroutable),
            },
        }
    }
}

impl UpstreamCall {
    /// The outcome of the message for which the call was made, once the
    /// upstream has answered or failed to.
    pub fn conclude(self, reply: UpstreamReply) -> (outcome: RelayOutcome)
        ensures
            outcome@ == concluded(self@.reply_address, reply@),
    {
        let address = self.reply_address;
        match reply {
            UpstreamReply::Unreachable { detail } => unreachable(address, detail),
            UpstreamReply::Answered { status, body } => {
                if status_is_success(status) {
                    RelayOutcome::Success { reply_address: address, payload: body }
                } else {
                    rejected(address, status)
                }
            },
            UpstreamReply::Interrupted { status, detail } => {
                if status_is_success(status) {
                    unreachable(address, detail)
                } else {
                    rejected(address, status)
                }
            },
        }
    }
}

fn unreachable(address: String, detail: String) -> (outcome: RelayOutcome)
    ensures
        outcome@ == unreachable_at(address@, detail@),
{
    RelayOutcome::Failure(
        Failure {
            reply_address: Some(address),
            reason: FailureReason::UpstreamUnreachable,
            cause: Some(Cause::Transport(detail)),
        },
    )
}

fn rejected(address: String, status: u16) -> (outcome: RelayOutcome)
    ensures
        outcome@ == rejected_at(address@, status),
{
    RelayOutcome::Failure(
        Failure {
            reply_address: Some(address),
            reason: FailureReason::UpstreamRejected,
            cause: Some(Cause::Status(status)),
        },
    )
}

/// A request that is in order, handled while a credential is held and
/// answered by the upstream with success, is relayed with that credential,
/// and exactly the bytes of the answer are published at the address that the
/// message names.
pub proof fn law_success_is_published(
    relay: YandexTTSView,
    message: InboundMessageView,
    credential: TokenView,
    status: u16,
    body: Seq<u8>,
)
    requires
        reply_address_of(message) is Some,
        payload_of_bytes(message.payload) is Ok,
        call_url(relay, payload_of_bytes(message.payload)) is Some,
        is_success(status),
    ensures
        planned(relay, message, Some(credential)) matches Ok(call) && call.reply_address
            == reply_address_of(message).unwrap() && call.bearer == credential.iam_token
            && dispatched(
            concluded(call.reply_address, UpstreamReplyView::Answered { status, body }),
        ) == Ok::<PublicationView, FailureReason>(
            PublicationView { subject: reply_address_of(message).unwrap(), payload: body },
        ),
{
}

/// A message that names no address is not relayed, and nothing is published
/// for it, whatever its payload and whether or not a credential is held.
pub proof fn law_no_address_no_publication(
    relay: YandexTTSView,
    message: InboundMessageView,
    store: Option<TokenView>,
)
    requires
        reply_address_of(message) is None,
    ensures
        planned(relay, message, store) == Err::<UpstreamCallView, FailureView>(
            failure_at(None, FailureReason::MissingReplyAddress, None),
        ),
        dispatched(
            RelayOutcomeView::Failure(failure_at(None, FailureReason::MissingReplyAddress, None)),
        ) == Err::<PublicationView, FailureReason>(FailureReason::ReplyUnroutable),
{
}

/// A message with an address whose payload is no request fails as an invalid
/// payload, and the payload of that failure is published at the address.
pub proof fn law_invalid_payload_is_reported(
    relay: YandexTTSView,
    message: InboundMessageView,
    store: Option<TokenView>,
)
    requires
        reply_address_of(message) is Some,
        payload_of_bytes(message.payload) is Err,
    ensures
        planned(relay, message, store) matches Err(failure) && failure.reply_address
            == reply_address_of(message) && failure.reason == FailureReason::InvalidPayload
            && dispatched(RelayOutcomeView::Failure(failure)) == Ok::<
            PublicationView,
            FailureReason,
        >(
            PublicationView {
                subject: reply_address_of(message).unwrap(),
                payload: failure_payload(FailureReason::InvalidPayload),
            },
        ),
{
}

/// A request that is in order, handled while the store is empty, fails as
/// not authenticated: no upstream call is made for it.
pub proof fn law_no_credential_no_call(relay: YandexTTSView, message: InboundMessageView)
    requires
        reply_address_of(message) is Some,
        payload_of_bytes(message.payload) is Ok,
    ensures
        planned(relay, message, None) == Err::<UpstreamCallView, FailureView>(
            failure_at(reply_address_of(message), FailureReason::NotAuthenticated, None),
        ),
{
}

/// A call that the upstream answers with a status outside the success class
/// has the payload of a rejection published at its address.
pub proof fn law_rejection_is_reported(address: Seq<char>, status: u16, body: Seq<u8>)
    requires
        address.len() > 0,
        !is_success(status),
    ensures
        dispatched(concluded(address, UpstreamReplyView::Answered { status, body })) == Ok::<
            PublicationView,
            FailureReason,
        >(
            PublicationView {
                subject: address,
                payload: failure_payload(FailureReason::UpstreamRejected),
            },
        ),
{
}

/// Whatever the message, the store and the upstream's answer: a failure is
/// owed to the address that the message names, and it is published there
/// with the payload of its reason exactly if the message names one.
pub proof fn law_failure_is_reported_where_owed(
    relay: YandexTTSView,
    message: InboundMessageView,
    store: Option<TokenView>,
    reply: UpstreamReplyView,
)
    ensures
        planned(relay, message, store) matches Err(failure) ==> failure.reply_address
            == reply_address_of(message) && (match reply_address_of(message) {
            Some(address) => dispatched(RelayOutcomeView::Failure(failure)) == Ok::<
                PublicationView,
                FailureReason,
            >(PublicationView { subject: address, payload: failure_payload(failure.reason) }),
            None => dispatched(RelayOutcomeView::Failure(failure)) is Err,
        }),
        planned(relay, message, store) matches Ok(call) ==> reply_address_of(message) == Some(
            call.reply_address,
        ) && (dispatched(concluded(call.reply_address, reply)) matches Ok(publication)
            && publication.subject == call.reply_address),
{
}

/// The default endpoint of the synthesis service is one that a relay takes.
pub proof fn law_default_endpoint_is_taken()
    ensures
        is_endpoint(encode_utf8(API_TTS_URL@)),
{
    reveal_strlit("https://tts.api.cloud.yandex.net/speech/v1/tts:synthesize");
    is_ascii_chars_encode_utf8(API_TTS_URL@);
}

} // verus!

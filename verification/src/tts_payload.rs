//! The synthesis request that an inbound message carries.

use crate::json::{
    json_decoded, lookup, member, member_view, optional_text, parse, required_text, text_view,
    Member, MemberView,
};
use vstd::prelude::*;
use vstd::string::*;

verus! {

/// Why a payload is no synthesis request.
#[derive(Debug, Clone, Copy, PartialEq, Eq, Structural)]
pub enum PayloadError {
    /// The bytes are not a JSON document.
    NotJson,
    /// There is no member `voice`, or it is no string.
    Voice,
    /// The member `lang` is neither a string nor null.
    Language,
    /// There is no member `text`, or it is no string.
    Text,
    /// The member `folderId` is neither a string nor null.
    Folder,
}

/// A request to synthesise `text` with `voice`.
#[derive(Debug, Clone, PartialEq, Eq)]
pub struct TTSPayload {
    pub voice: String,
    pub lang: Option<String>,
    pub text: String,
    pub folder_id: Option<String>,
}

/// The mathematical value of a [`TTSPayload`].
pub struct TTSPayloadView {
    pub voice: Seq<char>,
    pub lang: Option<Seq<char>>,
    pub text: Seq<char>,
    pub folder_id: Option<Seq<char>>,
}

impl View for TTSPayload {
    type V = TTSPayloadView;

    open spec fn view(&self) -> TTSPayloadView {
        TTSPayloadView {
            voice: self.voice@,
            lang: text_view(self.lang),
            text: self.text@,
            folder_id: text_view(self.folder_id),
        }
    }
}

/// The request that the four members make, or the first of them, in the
/// order voice, lang, text, folderId, that does not fit.
pub open spec fn payload_of_members(
    voice: Option<MemberView>,
    lang: Option<MemberView>,
    text: Option<MemberView>,
    folder_id: Option<MemberView>,
) -> Result<TTSPayloadView, PayloadError> {
    if required_text(voice) is None {
        Err(PayloadError::Voice)
    } else if optional_text(lang) is None {
        Err(PayloadError::Language)
    } else if required_text(text) is None {
        Err(PayloadError::Text)
    } else if optional_text(folder_id) is None {
        Err(PayloadError::Folder)
    } else {
        Ok(
            TTSPayloadView {
                voice: required_text(voice).unwrap(),
                lang: optional_text(lang).unwrap(),
                text: required_text(text).unwrap(),
                folder_id: optional_text(folder_id).unwrap(),
            },
        )
    }
}

/// The request that a document with these members makes. Members under other
/// names are not looked at.
pub open spec fn payload_of_document(members: Map<Seq<char>, MemberView>) -> Result<
    TTSPayloadView,
    PayloadError,
> {
    payload_of_members(
        lookup(members, "voice"@),
        lookup(members, "lang"@),
        lookup(members, "text"@),
        lookup(members, "folderId"@),
    )
}

/// The request that `bytes` spell.
pub open spec fn payload_of_bytes(bytes: Seq<u8>) -> Result<TTSPayloadView, PayloadError> {
    match json_decoded(bytes) {
        None => Err(PayloadError::NotJson),
        Some(members) => payload_of_document(members),
    }
}

/// The query parameters of the upstream call for `payload`, in the order in
/// which they are sent: voice, text, lang, folderId. The language and the
/// folder are those of the request where it names them, else the defaults.
pub open spec fn query_params(payload: TTSPayloadView, lang: Seq<char>, folder_id: Seq<char>) -> Seq<
    (Seq<char>, Seq<char>),
> {
    seq![
        ("voice"@, payload.voice),
        ("text"@, payload.text),
        (
            "lang"@,
            match payload.lang {
                Some(l) => l,
                None => lang,
            },
        ),
        (
            "folderId"@,
            match payload.folder_id {
                Some(f) => f,
                None => folder_id,
            },
        ),
    ]
}

/// Whether `made` is the request, or the error, that `expected` names.
pub open spec fn payload_result_is(
    made: Result<TTSPayload, PayloadError>,
    expected: Result<TTSPayloadView, PayloadError>,
) -> bool {
    match made {
        Ok(p) => expected == Ok::<TTSPayloadView, PayloadError>(p@),
        Err(e) => expected == Err::<TTSPayloadView, PayloadError>(e),
    }
}

fn required(found: Option<Member>) -> (text: Option<String>)
    ensures
        text_view(text) == required_text(member_view(found)),
{
    match found {
        Some(Member::Text(t)) => Some(t),
        _ => None,
    }
}

fn optional(found: Option<Member>) -> (text: Option<Option<String>>)
    ensures
        text is Some <==> optional_text(member_view(found)) is Some,
        text matches Some(t) ==> text_view(t) == optional_text(member_view(found)).unwrap(),
{
    match found {
        None => Some(None),
        Some(Member::Null) => Some(None),
        Some(Member::Text(t)) => Some(Some(t)),
        Some(Member::Other) => None,
    }
}

impl TTSPayload {
    /// Makes a request of the four members of a document that concern it.
    pub fn from_members(
        voice: Option<Member>,
        lang: Option<Member>,
        text: Option<Member>,
        folder_id: Option<Member>,
    ) -> (made: Result<TTSPayload, PayloadError>)
        ensures
            payload_result_is(
                made,
                payload_of_members(
                    member_view(voice),
                    member_view(lang),
                    member_view(text),
                    member_view(folder_id),
                ),
            ),
    {
        let voice = match required(voice) {
            Some(v) => v,
            None => { return Err(PayloadError::Voice); },
        };
        let lang = match optional(lang) {
            Some(l) => l,
            None => { return Err(PayloadError::Language); },
        };
        let text = match required(text) {
            Some(t) => t,
            None => { return Err(PayloadError::Text); },
        };
        let folder_id = match optional(folder_id) {
            Some(f) => f,
            None => { return Err(PayloadError::Folder); },
        };
        Ok(TTSPayload { voice, lang, text, folder_id })
    }

    /// Reads a request from the JSON bytes of a message payload.
    pub fn from_bytes_json(bytes: &[u8]) -> (made: Result<TTSPayload, PayloadError>)
        ensures
            payload_result_is(made, payload_of_bytes(bytes@)),
    {
        let doc = match parse(bytes) {
            Ok(doc) => doc,
            Err(_) => { return Err(PayloadError::NotJson); },
        };
        let voice = member(&doc, "voice");
        let lang = member(&doc, "lang");
        let text = member(&doc, "text");
        let folder_id = member(&doc, "folderId");
        TTSPayload::from_members(voice, lang, text, folder_id)
    }

    /// The query parameters of the upstream call, by name and value, in the
    /// order in which they are sent. `lang` and `folder_id` are the defaults
    /// for a request that names no language or no folder of its own.
    pub fn to_hashmap(&self, lang: String, folder_id: String) -> (params: Vec<(String, String)>)
        ensures
            params.deep_view() == query_params(self@, lang@, folder_id@),
    {
        let language = match &self.lang {
            Some(own) => own.clone(),
            None => lang,
        };
        let folder = match &self.folder_id {
            Some(own) => own.clone(),
            None => folder_id,
        };
        let mut params: Vec<(String, String)> = Vec::new();
        params.push((String::from_str("voice"), self.voice.clone()));
        params.push((String::from_str("text"), self.text.clone()));
        params.push((String::from_str("lang"), language));
        params.push((String::from_str("folderId"), folder));
        assert(params.deep_view() =~= query_params(self@, lang@, folder_id@));
        params
    }
}

} // verus!

//! JSON documents, read and written through `serde_json`.

use vstd::prelude::*;

verus! {

/// A parsed JSON document of `serde_json`, opaque to the verifier.
#[verifier::external_type_specification]
#[verifier::external_body]
pub struct ExValue(serde_json::Value);

/// The error of `serde_json`, opaque to the verifier.
#[verifier::external_type_specification]
#[verifier::external_body]
pub struct ExJsonError(serde_json::Error);

/// What a JSON object holds under one of its member names.
#[derive(Debug, Clone, PartialEq, Eq)]
pub enum Member {
    /// A JSON string, with its text.
    Text(String),
    /// The JSON `null`.
    Null,
    /// A boolean, a number, an array or an object.
    Other,
}

/// The mathematical value of a [`Member`].
pub enum MemberView {
    Text(Seq<char>),
    Null,
    Other,
}

impl View for Member {
    type V = MemberView;

    open spec fn view(&self) -> MemberView {
        match self {
            Member::Text(text) => MemberView::Text(text@),
            Member::Null => MemberView::Null,
            Member::Other => MemberView::Other,
        }
    }
}

/// The characters of an optional string.
pub open spec fn text_view(text: Option<String>) -> Option<Seq<char>> {
    match text {
        Some(t) => Some(t@),
        None => None,
    }
}

/// The mathematical value of a member that may be absent.
pub open spec fn member_view(found: Option<Member>) -> Option<MemberView> {
    match found {
        Some(m) => Some(m@),
        None => None,
    }
}

/// What `members` holds under `name`, if anything.
pub open spec fn lookup(members: Map<Seq<char>, MemberView>, name: Seq<char>) -> Option<
    MemberView,
> {
    if members.contains_key(name) {
        Some(members[name])
    } else {
        None
    }
}

/// A required member is a string.
pub open spec fn required_text(found: Option<MemberView>) -> Option<Seq<char>> {
    match found {
        Some(MemberView::Text(t)) => Some(t),
        _ => None,
    }
}

/// An optional member is a string, or null, or absent: the outer `None` says
/// that it is something else.
pub open spec fn optional_text(found: Option<MemberView>) -> Option<Option<Seq<char>>> {
    match found {
        None => Some(None),
        Some(MemberView::Null) => Some(None),
        Some(MemberView::Text(t)) => Some(Some(t)),
        Some(MemberView::Other) => None,
    }
}

/// The members of a parsed document by name; empty when the document is not
/// an object.
pub uninterp spec fn json_members(doc: serde_json::Value) -> Map<Seq<char>, MemberView>;

/// The members of the document that `bytes` spell, or `None` when `bytes` are
/// not one JSON document.
pub uninterp spec fn json_decoded(bytes: Seq<u8>) -> Option<Map<Seq<char>, MemberView>>;

/// The compact JSON text of the object with the single member `name`, whose
/// value is the string `value`.
pub uninterp spec fn json_object_text(name: Seq<char>, value: Seq<char>) -> Seq<char>;

/// Whether JSON writes every character of `text` as it is: none is a control
/// character, a double quote or a backslash.
pub open spec fn is_unescaped(text: Seq<char>) -> bool {
    forall|i: int|
        0 <= i < text.len() ==> 0x20 <= (#[trigger] text[i]) as u32 && text[i] != '"' && text[i]
            != '\\'
}

/// The text `{"name":"value"}`.
pub open spec fn plain_object_text(name: Seq<char>, value: Seq<char>) -> Seq<char> {
    seq!['{', '"'] + name + seq!['"', ':', '"'] + value + seq!['"', '}']
}

/// `serde_json::from_slice` into a `Value`: succeeds exactly on the bytes of
/// one JSON document, and the document it returns holds the members that the
/// bytes spell.
#[verifier::external_body]
pub(crate) fn parse(bytes: &[u8]) -> (parsed: Result<serde_json::Value, serde_json::Error>)
    ensures
        parsed is Ok <==> json_decoded(bytes@) is Some,
        parsed matches Ok(doc) ==> json_members(doc) == json_decoded(bytes@).unwrap(),
{
    serde_json::from_slice(bytes)
}

/// `serde_json::Value::get` with a member name: what the document holds under
/// `name`, told apart by the kind of JSON value, or `None` when there is no
/// such member.
#[verifier::external_body]
pub(crate) fn member(doc: &serde_json::Value, name: &str) -> (found: Option<Member>)
    ensures
        member_view(found) == lookup(json_members(*doc), name@),
{
    match doc.get(name) {
        None => None,
        Some(serde_json::Value::Null) => Some(Member::Null),
        Some(serde_json::Value::String(text)) => Some(Member::Text(text.clone())),
        Some(_) => Some(Member::Other),
    }
}

/// `serde_json::to_string` on a map with the one entry `name` to `value`,
/// both strings. Its documentation names two causes of failure, a `Serialize`
/// impl that fails and a map key that is no string; neither can occur here,
/// so the call succeeds. Characters that need no escape are written as they
/// are.
#[verifier::external_body]
pub(crate) fn object_to_string(name: &str, value: &str) -> (written: Result<
    String,
    serde_json::Error,
>)
    ensures
        written is Ok,
        written matches Ok(text) ==> text@ == json_object_text(name@, value@),
        written matches Ok(text) ==> (is_unescaped(name@) && is_unescaped(value@) ==> text@
            == plain_object_text(name@, value@)),
{
    serde_json::to_string(&std::collections::BTreeMap::from([(name, value)]))
}

} // verus!

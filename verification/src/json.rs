//! JSON payloads as the bridge reads them.
//!
//! A payload is a `serde_json::Value` that the bridge carries through without
//! looking inside, with one exception: the top-level members `id` and
//! `method` decide whether a payload is a request, a response or neither.
//! What the bridge reads of a member is written down in [`Member`]; parsing,
//! indexing and rendering stay with `serde_json`.

use vstd::prelude::*;

verus! {

/// `serde_json::Value`, opaque to the verifier.
#[verifier::external_type_specification]
#[verifier::external_body]
pub struct ExJsonValue(serde_json::Value);

/// `serde_json::Error`, opaque to the verifier.
#[verifier::external_type_specification]
#[verifier::external_body]
pub struct ExJsonError(serde_json::Error);

/// One top-level member of a JSON object, reduced to what correlation reads:
/// its kind, and for the scalar kinds its content.
#[derive(Clone, Debug, PartialEq, Eq)]
pub enum Member {
    Null,
    Bool(bool),
    /// A number, as the decimal text that `serde_json` prints for it.
    Number(String),
    /// A string, as its characters.
    Text(String),
    Array,
    Object,
}

/// The mathematical counterpart of [`Member`].
pub enum MemberView {
    Null,
    Bool(bool),
    Number(Seq<char>),
    Text(Seq<char>),
    Array,
    Object,
}

impl DeepView for Member {
    type V = MemberView;

    open spec fn deep_view(&self) -> MemberView {
        match self {
            Member::Null => MemberView::Null,
            Member::Bool(b) => MemberView::Bool(*b),
            Member::Number(digits) => MemberView::Number(digits@),
            Member::Text(chars) => MemberView::Text(chars@),
            Member::Array => MemberView::Array,
            Member::Object => MemberView::Object,
        }
    }
}

impl View for Member {
    type V = MemberView;

    open spec fn view(&self) -> MemberView {
        self.deep_view()
    }
}

/// The top-level members of a JSON document by name, each reduced to a
/// [`MemberView`]. A document that is not an object has none.
pub type Members = Map<Seq<char>, MemberView>;

/// What [`member`] finds in `value`: the members of `value` when it is an
/// object, by name; the empty map for every other kind of value.
pub uninterp spec fn json_members(value: serde_json::Value) -> Map<Seq<char>, MemberView>;

/// The members of the document that `text` parses to, or `None` where `text`
/// is not one complete JSON document.
pub uninterp spec fn json_parse(text: Seq<char>) -> Option<Map<Seq<char>, MemberView>>;

/// The compact one-line rendering of `value`, or `None` where `serde_json`
/// refuses to render it.
pub uninterp spec fn json_text(value: serde_json::Value) -> Option<Seq<char>>;

/// Calls `serde_json::from_str` for a `Value`.
///
/// Trusted: parsing depends on the text alone, so the members of the parsed
/// document are `json_parse` of the text, and the call fails exactly where
/// `json_parse` is `None`.
#[verifier::external_body]
pub(crate) fn parse(text: &str) -> (parsed: Result<serde_json::Value, serde_json::Error>)
    ensures
        parsed matches Ok(value) ==> json_parse(text@) == Some(json_members(value)),
        parsed is Err ==> json_parse(text@) is None,
{
    serde_json::from_str::<serde_json::Value>(text)
}

/// Calls `serde_json::to_string` on a `Value`.
///
/// Trusted: rendering depends on the value alone, so the text is `json_text`
/// of the value, and the call fails exactly where `json_text` is `None`.
#[verifier::external_body]
pub(crate) fn render(value: &serde_json::Value) -> (text: Result<String, serde_json::Error>)
    ensures
        text matches Ok(line) ==> json_text(*value) == Some(line@),
        text is Err ==> json_text(*value) is None,
{
    serde_json::to_string(value)
}

/// Calls `serde_json::Value::get` with a string index and reduces the member
/// it finds to a [`Member`].
///
/// Trusted: `get` returns a member exactly when the value is an object that
/// has one of that name; `json_members` is the name for what it returns, by
/// member name. A number is reduced through its `Display` impl, a string
/// through `clone`.
#[verifier::external_body]
pub(crate) fn member(value: &serde_json::Value, name: &str) -> (found: Option<Member>)
    ensures
        found.deep_view() == lookup(json_members(*value), name@),
{
    match value.get(name) {
        None => None,
        Some(serde_json::Value::Null) => Some(Member::Null),
        Some(serde_json::Value::Bool(b)) => Some(Member::Bool(*b)),
        Some(serde_json::Value::Number(n)) => Some(Member::Number(n.to_string())),
        Some(serde_json::Value::String(s)) => Some(Member::Text(s.clone())),
        Some(serde_json::Value::Array(_)) => Some(Member::Array),
        Some(serde_json::Value::Object(_)) => Some(Member::Object),
    }
}

/// The members of an object that holds one boolean member and nothing else.
pub open spec fn flag_members(name: Seq<char>, flag: bool) -> Members {
    Members::empty().insert(name, MemberView::Bool(flag))
}

/// Builds the JSON object with the single member `name`, a boolean.
///
/// Trusted: a `serde_json::Map` that received one `insert` holds that one
/// member; wrapped in `Value::Object` it is an object with that member only.
#[verifier::external_body]
pub(crate) fn flag_object(name: &str, flag: bool) -> (value: serde_json::Value)
    ensures
        json_members(value) == flag_members(name@, flag),
{
    let mut object = serde_json::Map::new();
    object.insert(name.to_string(), serde_json::Value::Bool(flag));
    serde_json::Value::Object(object)
}

/// The lookup key that an `id` member stands for: a string stands for
/// itself, a number for its decimal text, anything else for no key.
pub open spec fn key_of(member: MemberView) -> Option<Seq<char>> {
    match member {
        MemberView::Text(chars) => Some(chars),
        MemberView::Number(digits) => Some(digits),
        _ => None,
    }
}

/// The correlation key of a document, given its `id` member if it has one.
pub open spec fn identifier_in(id: Option<MemberView>) -> Option<Seq<char>> {
    match id {
        Some(member) => key_of(member),
        None => None,
    }
}

/// The key under which a document waits as a request, given its `id` and
/// `method` members: the key of its identifier if it names a method and
/// carries an identifier, `None` for every other document.
pub open spec fn request_key_in(id: Option<MemberView>, method: Option<MemberView>) -> Option<
    Seq<char>,
> {
    if method is Some {
        identifier_in(id)
    } else {
        None
    }
}

/// The member called `name`, if there is one.
pub open spec fn lookup(members: Members, name: Seq<char>) -> Option<MemberView> {
    if members.contains_key(name) {
        Some(members[name])
    } else {
        None
    }
}

/// The correlation key of a document with the given members.
pub open spec fn identifier_of(members: Members) -> Option<Seq<char>> {
    identifier_in(lookup(members, "id"@))
}

/// The key under which a document with the given members waits as a
/// request.
pub open spec fn request_key_of(members: Members) -> Option<Seq<char>> {
    request_key_in(lookup(members, "id"@), lookup(members, "method"@))
}

/// Normalizes the value of an `id` member to its lookup key.
pub fn id_key(member: &Member) -> (key: Option<String>)
    ensures
        key.deep_view() == key_of(member@),
{
    match member {
        Member::Text(chars) => Some(chars.clone()),
        Member::Number(digits) => Some(digits.clone()),
        _ => None,
    }
}

/// The correlation key of a document whose `id` member is `id`.
pub fn identifier_from(id: Option<Member>) -> (key: Option<String>)
    ensures
        key.deep_view() == identifier_in(id.deep_view()),
{
    match id {
        Some(member) => id_key(&member),
        None => None,
    }
}

/// The key under which a document whose `id` and `method` members are as
/// given has to wait for its response: `Some` for a request, `None` for a
/// notification and for everything else.
pub fn request_key_from(id: Option<Member>, method: Option<Member>) -> (key: Option<String>)
    ensures
        key.deep_view() == request_key_in(id.deep_view(), method.deep_view()),
{
    match method {
        Some(_) => identifier_from(id),
        None => None,
    }
}

/// The correlation key of a payload, if it carries one.
pub fn identifier(payload: &serde_json::Value) -> (key: Option<String>)
    ensures
        key.deep_view() == identifier_of(json_members(*payload)),
{
    identifier_from(member(payload, "id"))
}

/// The key under which an outbound payload has to wait for its response:
/// `Some` for a request, `None` for a notification.
pub fn request_key(payload: &serde_json::Value) -> (key: Option<String>)
    ensures
        key.deep_view() == request_key_of(json_members(*payload)),
{
    request_key_from(member(payload, "id"), member(payload, "method"))
}

} // verus!

use vstd::prelude::*;
use mime::Mime;

verus! {

/// What the `mime` crate makes of the content type `text` set against
/// `mime::APPLICATION_JSON`: `None` where `text` does not parse as a media
/// type, else whether the parsed type equals `application/json`.
pub uninterp spec fn json_media_type(text: Seq<char>) -> Option<bool>;

/// What the `mime` crate makes of the content type `text` set against
/// `mime::APPLICATION_WWW_FORM_URLENCODED`: `None` where `text` does not parse
/// as a media type, else whether the parsed type equals
/// `application/x-www-form-urlencoded`.
pub uninterp spec fn form_media_type(text: Seq<char>) -> Option<bool>;

/// Parses `text` with `<Mime as FromStr>::from_str` and compares the media type
/// with `mime::APPLICATION_JSON` by `<Mime as PartialEq>::eq`; `None` when the
/// parse fails. The claim is that the result depends on `text` alone; what it
/// is for a given text (the crate's parsing and case rules) is left to the name.
#[verifier::external_body]
fn match_json(text: &str) -> (r: Option<bool>)
    ensures
        r == json_media_type(text@),
{
    match text.parse::<Mime>() {
        Ok(m) => Some(m == mime::APPLICATION_JSON),
        Err(_) => None,
    }
}

/// Parses `text` with `<Mime as FromStr>::from_str` and compares the media type
/// with `mime::APPLICATION_WWW_FORM_URLENCODED` by `<Mime as PartialEq>::eq`;
/// `None` when the parse fails. The claim is that the result depends on `text`
/// alone; what it is for a given text is left to the name.
#[verifier::external_body]
fn match_form(text: &str) -> (r: Option<bool>)
    ensures
        r == form_media_type(text@),
{
    match text.parse::<Mime>() {
        Ok(m) => Some(m == mime::APPLICATION_WWW_FORM_URLENCODED),
        Err(_) => None,
    }
}

/// Whether a body extractor reads the request body, or declines and leaves
/// the body to the next handler.
#[derive(Debug, Clone, Copy, PartialEq, Eq, Structural)]
pub enum BodyDecision {
    Pass,
    Decode,
}

/// Whether a body extractor reads the body: only when the request states a
/// content type and that type is the one the extractor reads.
pub fn decide_body(has_content_type: bool, is_expected_type: bool) -> (r: BodyDecision)
    ensures
        r is Decode <==> has_content_type && is_expected_type,
{
    if has_content_type && is_expected_type {
        BodyDecision::Decode
    } else {
        BodyDecision::Pass
    }
}

/// The decision for a content type as `mime` read it: a request whose
/// content type is missing or does not parse is passed on; otherwise the body
/// is read exactly when the type is the expected one.
pub fn decision_for(matched: Option<bool>) -> (r: BodyDecision)
    ensures
        r is Decode <==> matched == Some(true),
{
    match matched {
        None => decide_body(false, false),
        Some(is_expected) => decide_body(true, is_expected),
    }
}

/// What the JSON extractor does for a request with this content type header:
/// without one, or with one that does not parse, the request is passed on;
/// otherwise the body is read when the type equals `application/json`.
pub fn json_decision(content_type: Option<&str>) -> (r: BodyDecision)
    ensures
        r is Decode <==> (content_type matches Some(t) && json_media_type(t@) == Some(true)),
{
    match content_type {
        None => decision_for(None),
        Some(t) => decision_for(match_json(t)),
    }
}

/// What the form extractor does for a request with this content type header:
/// without one, or with one that does not parse, the request is passed on;
/// otherwise the body is read when the type equals
/// `application/x-www-form-urlencoded`.
pub fn form_decision(content_type: Option<&str>) -> (r: BodyDecision)
    ensures
        r is Decode <==> (content_type matches Some(t) && form_media_type(t@) == Some(true)),
{
    match content_type {
        None => decision_for(None),
        Some(t) => decision_for(match_form(t)),
    }
}

/// A request body decoded from JSON.
pub struct Json<T>(T);

impl<T> Json<T> {
    /// The decoded value.
    pub closed spec fn value(&self) -> T {
        self.0
    }

    /// Wraps a decoded value.
    pub fn new(value: T) -> (r: Json<T>)
        ensures
            r.value() == value,
    {
        Json(value)
    }

    /// Gives the decoded value back.
    pub fn into_inner(self) -> (r: T)
        ensures
            r == self.value(),
    {
        self.0
    }

    /// The decoded value, to change in place.
    pub fn get_mut(&mut self) -> (r: &mut T)
        ensures
            *r == old(self).value(),
            final(self).value() == *final(r),
    {
        &mut self.0
    }
}

impl<T> std::ops::Deref for Json<T> {
    type Target = T;

    fn deref(&self) -> (r: &T)
        ensures
            *r == self.value(),
    {
        &self.0
    }
}

/// A request body decoded from an URL-encoded form.
pub struct Form<T>(T);

impl<T> Form<T> {
    /// The decoded value.
    pub closed spec fn value(&self) -> T {
        self.0
    }

    /// Wraps a decoded value.
    pub fn new(value: T) -> (r: Form<T>)
        ensures
            r.value() == value,
    {
        Form(value)
    }

    /// Gives the decoded value back.
    pub fn into_inner(self) -> (r: T)
        ensures
            r == self.value(),
    {
        self.0
    }

    /// The decoded value, to change in place.
    pub fn get_mut(&mut self) -> (r: &mut T)
        ensures
            *r == old(self).value(),
            final(self).value() == *final(r),
    {
        &mut self.0
    }
}

impl<T> std::ops::Deref for Form<T> {
    type Target = T;

    fn deref(&self) -> (r: &T)
        ensures
            *r == self.value(),
    {
        &self.0
    }
}

} // verus!

//! The header fields of an outgoing request, read out of an [`http::HeaderMap`].

use http::header::{HeaderValue, ToStrError};
use http::HeaderMap;
use vstd::prelude::*;

verus! {

/// [`http::HeaderMap`], carried as an opaque value; [`header_entries`] names what it holds.
#[verifier::external_type_specification]
#[verifier::external_body]
#[verifier::reject_recursive_types(T)]
pub struct ExHeaderMap<T>(http::HeaderMap<T>);

/// [`http::header::HeaderValue`], carried as an opaque value; [`header_value_bytes`] names what it
/// holds.
#[verifier::external_type_specification]
#[verifier::external_body]
pub struct ExHeaderValue(http::header::HeaderValue);

/// [`http::header::ToStrError`], which holds nothing.
#[verifier::external_type_specification]
#[verifier::external_body]
pub struct ExToStrError(http::header::ToStrError);

/// The name and the value's bytes of every entry of a header map, in the order in which
/// `HeaderMap::iter` visits them: a name with several values occurs once for each.
pub uninterp spec fn header_entries(headers: HeaderMap<HeaderValue>) -> Seq<(Seq<char>, Seq<u8>)>;

/// The bytes that a header value holds.
pub uninterp spec fn header_value_bytes(value: HeaderValue) -> Seq<u8>;

/// Calls `HeaderMap::iter` and hands the entries out, each name as its text (`HeaderName::as_str`).
/// Claims that they are the entries that [`header_entries`] names, in that order.
#[verifier::external_body]
fn entries(headers: &HeaderMap<HeaderValue>) -> (r: Vec<(String, HeaderValue)>)
    ensures
        r@.len() == header_entries(*headers).len(),
        forall|i: int|
            #![trigger r@[i]]
            0 <= i < r@.len() ==> r@[i].0@ == header_entries(*headers)[i].0 && header_value_bytes(
                r@[i].1,
            ) == header_entries(*headers)[i].1,
{
    headers.iter().map(|(name, value)| (name.as_str().to_owned(), value.clone())).collect()
}

/// Whether a byte is a visible ASCII character, a space or a tab.
pub open spec fn is_visible(byte: u8) -> bool {
    32 <= byte < 127 || byte == 9
}

/// Calls `HeaderValue::to_str`. Claims that it succeeds just when every byte of the value is
/// visible, and that the text then holds one character for each byte.
#[verifier::external_body]
fn to_str(value: &HeaderValue) -> (r: Result<&str, ToStrError>)
    ensures
        r is Ok <==> forall|i: int|
            0 <= i < header_value_bytes(*value).len() ==> is_visible(
                #[trigger] header_value_bytes(*value)[i],
            ),
        r matches Ok(text) ==> text@ == header_value_bytes(*value).map_values(|b: u8| b as char),
{
    value.to_str()
}

/// A header field of a request, as text.
#[derive(Debug, PartialEq, Eq)]
pub struct HeaderField {
    pub name: String,
    pub value: String,
}

impl View for HeaderField {
    type V = (Seq<char>, Seq<char>);

    open spec fn view(&self) -> (Seq<char>, Seq<char>) {
        (self.name@, self.value@)
    }
}

/// The text that stands for a header value: its characters if all of them are visible, and the
/// empty text if not.
pub open spec fn field_text(bytes: Seq<u8>) -> Seq<char> {
    if forall|i: int| 0 <= i < bytes.len() ==> is_visible(#[trigger] bytes[i]) {
        bytes.map_values(|b: u8| b as char)
    } else {
        Seq::empty()
    }
}

/// The fields of a request with these entries: one for each entry, in the same order.
pub open spec fn fields(entries: Seq<(Seq<char>, Seq<u8>)>) -> Seq<(Seq<char>, Seq<char>)> {
    entries.map_values(|entry: (Seq<char>, Seq<u8>)| (entry.0, field_text(entry.1)))
}

/// The text of a field whose value may have none.
pub open spec fn reading_text(reading: Option<String>) -> Seq<char> {
    match reading {
        Some(text) => text@,
        None => Seq::empty(),
    }
}

/// The fields with these names, each with the text that its value was read as. A value that could
/// not be read as text is sent empty.
pub fn request_fields(readings: Vec<(String, Option<String>)>) -> (r: Vec<HeaderField>)
    ensures
        r@.map_values(|f: HeaderField| f@) == readings@.map_values(
            |e: (String, Option<String>)| (e.0@, reading_text(e.1)),
        ),
        r@.len() == readings@.len(),
        forall|i: int|
            #![trigger r@[i]]
            0 <= i < r@.len() ==> {
                &&& r@[i].name@ == readings@[i].0@
                &&& readings@[i].1 matches Some(text) ==> r@[i].value@ == text@
                &&& readings@[i].1 is None ==> r@[i].value@.len() == 0
            },
{
    let mut r: Vec<HeaderField> = Vec::new();
    for i in 0..readings.len()
        invariant
            r@.len() == i,
            forall|j: int|
                #![trigger r@[j]]
                0 <= j < i ==> r@[j]@ == (readings@[j].0@, reading_text(readings@[j].1)),
    {
        let value = match &readings[i].1 {
            Some(text) => text.clone(),
            None => String::new(),
        };
        r.push(HeaderField { name: readings[i].0.clone(), value });
    }
    r
}

/// The fields that a request with these headers carries.
pub fn header_fields(headers: &HeaderMap<HeaderValue>) -> (r: Vec<HeaderField>)
    ensures
        r@.map_values(|f: HeaderField| f@) == fields(header_entries(*headers)),
{
    let list = entries(headers);
    let mut readings: Vec<(String, Option<String>)> = Vec::new();
    for i in 0..list.len()
        invariant
            list@.len() == header_entries(*headers).len(),
            forall|j: int|
                #![trigger list@[j]]
                0 <= j < list@.len() ==> list@[j].0@ == header_entries(*headers)[j].0
                    && header_value_bytes(list@[j].1) == header_entries(*headers)[j].1,
            readings@.len() == i,
            forall|j: int|
                #![trigger readings@[j]]
                0 <= j < i ==> (readings@[j].0@, reading_text(readings@[j].1)) == fields(
                    header_entries(*headers),
                )[j],
    {
        let reading = match to_str(&list[i].1) {
            Ok(text) => Some(text.to_owned()),
            Err(_) => None,
        };
        readings.push((list[i].0.clone(), reading));
    }
    request_fields(readings)
}

} // verus!

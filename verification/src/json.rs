//! Strings out of a JSON text. The text is read by `serde_json`; what it
//! finds is taken on trust, and named here so that contracts can speak of
//! it.

use vstd::prelude::*;

verus! {

/// The string that `serde_json` finds in the JSON text `data` as member
/// `field` of member `object` of the top-level value; `None` if the text is
/// not JSON or no string stands there.
pub uninterp spec fn json_member_string(data: Seq<char>, object: Seq<char>, field: Seq<char>)
    -> Option<Seq<char>>;

/// The length of the array that `serde_json` finds in the JSON text `data`
/// as member `array` of the top-level value; `None` if the text is not JSON
/// or no array stands there.
pub uninterp spec fn json_array_len(data: Seq<char>, array: Seq<char>) -> Option<usize>;

/// The string that `serde_json` finds in the JSON text `data` as member
/// `field` of item `index` of member `array` of the top-level value; `None`
/// if the text is not JSON or no string stands there.
pub uninterp spec fn json_item_string(
    data: Seq<char>,
    array: Seq<char>,
    index: usize,
    field: Seq<char>,
) -> Option<Seq<char>>;

/// Reads `data` with `serde_json::from_str` into a `serde_json::Value`, goes
/// to member `object` and from there to member `field` with `Value::get`,
/// and takes its string with `Value::as_str`. None of them panics: a text
/// that is not JSON, a missing member and a member that is no string all
/// give `None`. The result depends on the three arguments alone; the
/// contract gives it its name and claims nothing more.
#[verifier::external_body]
pub(crate) fn member_string(data: &str, object: &str, field: &str) -> (text: Option<String>)
    ensures
        text matches Some(found) ==> json_member_string(data@, object@, field@) == Some(found@),
        text is None ==> json_member_string(data@, object@, field@) is None,
{
    let value: serde_json::Value = serde_json::from_str(data).ok()?;
    value.get(object)?.get(field)?.as_str().map(String::from)
}

/// Reads `data` with `serde_json::from_str` into a `serde_json::Value`, goes
/// to member `array` with `Value::get`, and takes the length of the vector
/// that `Value::as_array` gives. A text that is not JSON, a missing member
/// and a member that is no array all give `None`. The result depends on the
/// two arguments alone; the contract gives it its name and claims nothing
/// more.
#[verifier::external_body]
pub(crate) fn array_len(data: &str, array: &str) -> (len: Option<usize>)
    ensures
        len == json_array_len(data@, array@),
{
    let value: serde_json::Value = serde_json::from_str(data).ok()?;
    value.get(array)?.as_array().map(Vec::len)
}

/// Reads `data` with `serde_json::from_str` into a `serde_json::Value`, goes
/// to member `array`, from there to item `index` and from there to member
/// `field` with `Value::get`, and takes its string with `Value::as_str`. A
/// text that is not JSON, a missing member or item and a member that is no
/// string all give `None`. The result depends on the four arguments alone;
/// the contract gives it its name and claims nothing more.
#[verifier::external_body]
pub(crate) fn item_string(data: &str, array: &str, index: usize, field: &str) -> (text: Option<
    String,
>)
    ensures
        text matches Some(found) ==> json_item_string(data@, array@, index, field@) == Some(
            found@,
        ),
        text is None ==> json_item_string(data@, array@, index, field@) is None,
{
    let value: serde_json::Value = serde_json::from_str(data).ok()?;
    value.get(array)?.get(index)?.get(field)?.as_str().map(String::from)
}

} // verus!

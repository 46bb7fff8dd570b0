//! Small pieces of text that several panels share.
use vstd::prelude::*;

verus! {

/// What trails a text while the application is fetching data.
pub open spec fn loading_indicator(loading: bool) -> Seq<char> {
    if loading {
        "..."@
    } else {
        ""@
    }
}

/// Three dots while `loading`, nothing otherwise.
pub fn nw_loading_indicator<'a>(loading: bool) -> (indicator: &'a str)
    ensures
        indicator@ == loading_indicator(loading),
{
    if loading {
        "..."
    } else {
        ""
    }
}

/// A title that names two keys: `head`, the first key, `middle`, the second
/// key, `tail`.
pub open spec fn title_with_keys(
    head: Seq<char>,
    first: Seq<char>,
    middle: Seq<char>,
    second: Seq<char>,
    tail: Seq<char>,
) -> Seq<char> {
    head + first + middle + second + tail
}

/// Writes a title that names two keys.
pub fn write_title(head: &str, first: &str, middle: &str, second: &str, tail: &str) -> (title: String)
    ensures
        title@ == title_with_keys(head@, first@, middle@, second@, tail@),
{
    let mut title = head.to_owned();
    title.append(first);
    title.append(middle);
    title.append(second);
    title.append(tail);
    title
}

/// The number of bytes that a text takes in UTF-8, which is what the length
/// of a string counts.
pub open spec fn byte_len(text: Seq<char>) -> nat {
    vstd::utf8::encode_utf8(text).len()
}

/// Measures `text` in bytes.
pub fn text_len(text: &String) -> (len: usize)
    ensures
        len == byte_len(text@),
{
    text.as_str().as_bytes().len()
}

} // verus!

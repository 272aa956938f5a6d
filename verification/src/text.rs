//! Text: what the library needs of strings beyond the verifier's own library.
use vstd::prelude::*;
use vstd::string::StringExecFns;
use vstd::utf8::{decode_utf8, valid_utf8};

verus! {

/// The lower case of an ASCII letter; any other character itself.
pub open spec fn ascii_lower(c: char) -> char {
    if 'A' <= c && c <= 'Z' {
        (c as u32 + 32) as char
    } else {
        c
    }
}

/// The two texts differ at most in the case of their ASCII letters.
pub open spec fn same_but_for_ascii_case(a: Seq<char>, b: Seq<char>) -> bool {
    &&& a.len() == b.len()
    &&& forall|i: int| 0 <= i < a.len() ==> ascii_lower(#[trigger] a[i]) == ascii_lower(b[i])
}

/// Every character of the text is one of ASCII.
pub open spec fn is_ascii_text(text: Seq<char>) -> bool {
    forall|i: int| 0 <= i < text.len() ==> (#[trigger] text[i] as u32) < 128
}

/// The text with its ASCII letters in lower case.
pub open spec fn ascii_lowered(text: Seq<char>) -> Seq<char> {
    text.map_values(|c: char| ascii_lower(c))
}

/// What `str::to_lowercase` makes of a text.
pub uninterp spec fn lowercase(text: Seq<char>) -> Seq<char>;

/// `str::to_lowercase` maps a text to its lower case by the tables of Unicode, which
/// depend on nothing but the text. A text of ASCII keeps its characters, but for the
/// letters `A` to `Z`, which become `a` to `z`.
pub assume_specification[ str::to_lowercase ](text: &str) -> (lower: String)
    ensures
        lower@ == lowercase(text@),
        is_ascii_text(text@) ==> lower@ == ascii_lowered(text@),
;

/// The text that the bytes encode, or `None` where they are not UTF-8.
///
/// Calls `String::from_utf8`, which accepts the bytes exactly if they are valid UTF-8
/// and keeps them as they are.
#[verifier::external_body]
pub(crate) fn text_of_utf8(bytes: Vec<u8>) -> (text: Option<String>)
    ensures
        text.deep_view() == (if valid_utf8(bytes@) {
            Some(decode_utf8(bytes@))
        } else {
            None
        }),
{
    String::from_utf8(bytes).ok()
}

/// Two texts, one behind the other.
pub(crate) fn joined(a: &str, b: &str) -> (text: String)
    ensures
        text@ == a@ + b@,
{
    let mut text = a.to_owned();
    text.append(b);
    text
}

/// Three texts, one behind the other.
pub(crate) fn joined3(a: &str, b: &str, c: &str) -> (text: String)
    ensures
        text@ == a@ + b@ + c@,
{
    let mut text = joined(a, b);
    text.append(c);
    text
}

/// Whether two texts are the same.
pub(crate) fn same_text(a: &str, b: &str) -> (same: bool)
    ensures
        same == (a@ == b@),
{
    a.to_owned() == b.to_owned()
}

/// A copy of a text that may be missing.
pub(crate) fn copy_of(text: &Option<String>) -> (copy: Option<String>)
    ensures
        copy.deep_view() == text.deep_view(),
{
    match text {
        Some(s) => Some(s.clone()),
        None => None,
    }
}

/// The lower case of ASCII letters leaves no letter in upper case, keeps every character
/// that is none, and does not tell apart the two cases of a letter.
pub proof fn law_ascii_lower_case(text: Seq<char>, other: Seq<char>)
    ensures
        ascii_lowered(text).len() == text.len(),
        forall|i: int|
            0 <= i < text.len() ==> {
                let lower = #[trigger] ascii_lowered(text)[i];
                &&& !('A' <= lower && lower <= 'Z')
                &&& !('A' <= text[i] && text[i] <= 'Z') ==> lower == text[i]
                &&& 'A' <= text[i] && text[i] <= 'Z' ==> lower as u32 == text[i] as u32 + 32
            },
        ascii_lowered(ascii_lowered(text)) == ascii_lowered(text),
        same_but_for_ascii_case(text, other) <==> ascii_lowered(text) == ascii_lowered(other),
        is_ascii_text(text) <==> (forall|i: int|
            0 <= i < text.len() ==> (#[trigger] text[i] as u32) <= 127),
{
    assert(ascii_lowered(ascii_lowered(text)) =~= ascii_lowered(text));
    if ascii_lowered(text) == ascii_lowered(other) {
        assert(text.len() == other.len()) by {
            assert(ascii_lowered(text).len() == ascii_lowered(other).len());
        }
        assert forall|i: int| 0 <= i < text.len() implies ascii_lower(#[trigger] text[i])
            == ascii_lower(other[i]) by {
            assert(ascii_lowered(text)[i] == ascii_lowered(other)[i]);
        }
    }
    if same_but_for_ascii_case(text, other) {
        assert(ascii_lowered(text) =~= ascii_lowered(other));
    }
}

} // verus!

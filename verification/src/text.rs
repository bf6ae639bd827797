//! What the library takes from std's text handling: trimming, lower case and
//! the decoding of UTF-8. Verus does not read these functions; their contracts
//! here are taken on trust. What trimming leaves of a text is written out;
//! the lower-case form of a text is only named.

use vstd::prelude::*;
use vstd::utf8::decode_utf8;
use vstd::utf8::valid_utf8;

verus! {

/// Whether a character has Unicode's `White_Space` property: the characters
/// that `str::trim` removes. These are the controls from the tabulator to the
/// carriage return, the blank, the next-line control, the no-break blank, the
/// ogham space mark, the blanks from the en quad to the hair space, the line
/// and the paragraph separator, the narrow no-break blank, the medium
/// mathematical blank and the ideographic blank.
pub open spec fn is_white_space(c: char) -> bool {
    let code = c as u32;
    ||| 0x0009 <= code <= 0x000D
    ||| code == 0x0020
    ||| code == 0x0085
    ||| code == 0x00A0
    ||| code == 0x1680
    ||| 0x2000 <= code <= 0x200A
    ||| code == 0x2028
    ||| code == 0x2029
    ||| code == 0x202F
    ||| code == 0x205F
    ||| code == 0x3000
}

/// The lower-case form of a text, as `str::to_lowercase` gives it.
pub uninterp spec fn lowercase(text: Seq<char>) -> Seq<char>;

/// A text without the white space at its start.
pub open spec fn trimmed_start(text: Seq<char>) -> Seq<char>
    decreases text.len(),
{
    if text.len() > 0 && is_white_space(text.first()) {
        trimmed_start(text.drop_first())
    } else {
        text
    }
}

/// A text without the white space at its end.
pub open spec fn trimmed_end(text: Seq<char>) -> Seq<char>
    decreases text.len(),
{
    if text.len() > 0 && is_white_space(text.last()) {
        trimmed_end(text.drop_last())
    } else {
        text
    }
}

/// A text without the white space at either end.
pub open spec fn trimmed(text: Seq<char>) -> Seq<char> {
    trimmed_end(trimmed_start(text))
}

/// The form in which a reply is looked up: trimmed, then in lower case.
pub open spec fn normalized(text: Seq<char>) -> Seq<char> {
    lowercase(trimmed(text))
}

/// `str::trim` returns the slice that is left when the leading and the
/// trailing white space are taken away, white space being the characters with
/// Unicode's `White_Space` property.
pub assume_specification<'a>[ str::trim ](text: &'a str) -> (inner: &'a str)
    ensures
        inner@ == trimmed(text@),
;

/// `str::to_lowercase` returns the lower-case form of the text as a new
/// `String`; the result depends on the text alone.
pub assume_specification[ str::to_lowercase ](text: &str) -> (lower: String)
    ensures
        lower@ == lowercase(text@),
;

/// `String::from_utf8` accepts exactly the byte sequences that are valid
/// UTF-8 and then holds the characters they encode; any other sequence is an
/// error, given here as `None`.
#[verifier::external_body]
pub(crate) fn decode(bytes: Vec<u8>) -> (text: Option<String>)
    ensures
        text is Some <==> valid_utf8(bytes@),
        text is Some ==> text->0@ == decode_utf8(bytes@),
{
    String::from_utf8(bytes).ok()
}

} // verus!

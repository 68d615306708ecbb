//! What std does to a text when a character is typed or taken back.

use vstd::prelude::*;

verus! {

/// `text` without its last character; the empty text stays empty.
pub open spec fn without_last(text: Seq<char>) -> Seq<char> {
    if text.len() == 0 {
        text
    } else {
        text.drop_last()
    }
}

/// Appends the character `c` to `text`.
///
/// States of `String::push` that the text afterwards is the text before with
/// `c` as one more character at its end.
pub assume_specification[ String::push ](text: &mut String, c: char)
    ensures
        final(text)@ == old(text)@.push(c),
;

/// Takes the last character of `text` away and hands it out, if there is one.
///
/// States of `String::pop` that an empty text stays empty and gives nothing,
/// and that any other text loses its last character, which is what comes back.
pub assume_specification[ String::pop ](text: &mut String) -> (last: Option<char>)
    ensures
        final(text)@ == without_last(old(text)@),
        last == if old(text)@.len() == 0 {
            None
        } else {
            Some(old(text)@.last())
        },
;

} // verus!

//! Text as sequences of characters: what the symbol editor needs from the
//! standard library's strings.

use vstd::prelude::*;

verus! {

/// The characters of each string of `strings`, in order.
pub open spec fn texts(strings: Seq<String>) -> Seq<Seq<char>> {
    Seq::new(strings.len(), |i: int| strings[i]@)
}

/// Whether `ch` is white space to `str::trim`: whether it has the Unicode
/// property White_Space.
pub uninterp spec fn white_space(ch: char) -> bool;

/// The number of white-space characters that `text` starts with.
pub open spec fn leading_white_space(text: Seq<char>) -> nat
    decreases text.len(),
{
    if text.len() > 0 && white_space(text[0]) {
        1 + leading_white_space(text.drop_first())
    } else {
        0
    }
}

/// The number of white-space characters that `text` ends with.
pub open spec fn trailing_white_space(text: Seq<char>) -> nat
    decreases text.len(),
{
    if text.len() > 0 && white_space(text.last()) {
        1 + trailing_white_space(text.drop_last())
    } else {
        0
    }
}

/// `text` without its leading and trailing white space: the part from its
/// first to its last character that is not white space, and nothing where
/// every character is.
pub open spec fn trimmed(text: Seq<char>) -> Seq<char> {
    if leading_white_space(text) == text.len() {
        Seq::<char>::empty()
    } else {
        text.subrange(
            leading_white_space(text) as int,
            text.len() - trailing_white_space(text),
        )
    }
}

/// The leading white space of `text` is white space, and what follows it, if
/// anything does, is not.
pub proof fn lemma_leading_white_space(text: Seq<char>)
    ensures
        leading_white_space(text) <= text.len(),
        forall|i: int| 0 <= i < leading_white_space(text) ==> white_space(#[trigger] text[i]),
        leading_white_space(text) < text.len() ==> !white_space(
            text[leading_white_space(text) as int],
        ),
    decreases text.len(),
{
    if text.len() > 0 && white_space(text[0]) {
        let rest = text.drop_first();
        lemma_leading_white_space(rest);
        assert forall|i: int| 0 <= i < leading_white_space(text) implies white_space(
            #[trigger] text[i],
        ) by {
            if i > 0 {
                assert(text[i] == rest[i - 1]);
            }
        }
        if leading_white_space(text) < text.len() {
            assert(text[leading_white_space(text) as int] == rest[leading_white_space(rest) as int]);
        }
    }
}

/// The trailing white space of `text` is white space, and what stands before
/// it, if anything does, is not.
pub proof fn lemma_trailing_white_space(text: Seq<char>)
    ensures
        trailing_white_space(text) <= text.len(),
        forall|i: int|
            text.len() - trailing_white_space(text) <= i < text.len() ==> white_space(
                #[trigger] text[i],
            ),
        trailing_white_space(text) < text.len() ==> !white_space(
            text[text.len() - 1 - trailing_white_space(text)],
        ),
    decreases text.len(),
{
    if text.len() > 0 && white_space(text.last()) {
        let rest = text.drop_last();
        lemma_trailing_white_space(rest);
        assert forall|i: int|
            text.len() - trailing_white_space(text) <= i < text.len() implies white_space(
            #[trigger] text[i],
        ) by {
            if i < text.len() - 1 {
                assert(text[i] == rest[i]);
            }
        }
        if trailing_white_space(text) < text.len() {
            assert(text[text.len() - 1 - trailing_white_space(text)] == rest[rest.len() - 1
                - trailing_white_space(rest)]);
        }
    }
}

/// A trimmed text is a part of the text, with nothing but white space left
/// out before and after it, and it neither starts nor ends with white space.
pub proof fn lemma_trimmed_ends(text: Seq<char>)
    ensures
        leading_white_space(text) + trimmed(text).len() + trailing_white_space(text) == text.len()
            || (trimmed(text).len() == 0 && leading_white_space(text) == text.len()),
        trimmed(text).len() > 0 ==> !white_space(trimmed(text).first()) && !white_space(
            trimmed(text).last(),
        ),
{
    lemma_leading_white_space(text);
    lemma_trailing_white_space(text);
    let lead = leading_white_space(text) as int;
    let trail = trailing_white_space(text) as int;
    if lead < text.len() {
        assert(!white_space(text[lead]));
        if lead >= text.len() - trail {
            assert(white_space(text[lead]));
        }
        assert(trimmed(text).first() == text[lead]);
        assert(trimmed(text).last() == text[text.len() - 1 - trail]);
    }
}

/// `text` with each character in upper case: what `str::to_uppercase` gives.
pub uninterp spec fn upper_cased(text: Seq<char>) -> Seq<char>;

/// `str::trim`: the result is the text without the white space that it
/// starts and ends with, so it neither starts nor ends with white space
/// itself; `white_space` names which characters are white space.
#[verifier::external_body]
pub(crate) fn trim<'a>(text: &'a str) -> (r: &'a str)
    ensures
        r@ == trimmed(text@),
        r@.len() > 0 ==> !white_space(r@.first()) && !white_space(r@.last()),
{
    text.trim()
}

/// `str::to_uppercase`: the result is named `upper_cased`, a function of the
/// characters alone. Nothing more is claimed of it.
#[verifier::external_body]
pub(crate) fn to_uppercase(text: &str) -> (r: String)
    ensures
        r@ == upper_cased(text@),
{
    text.to_uppercase()
}

/// `String::push` appends the character to the end of the string.
pub assume_specification[ String::push ](text: &mut String, ch: char)
    ensures
        final(text)@ == old(text)@.push(ch),
;

/// `String::pop` removes the last character and returns it; on an empty
/// string it returns nothing and leaves the string empty.
pub assume_specification[ String::pop ](text: &mut String) -> (r: Option<char>)
    ensures
        old(text)@.len() == 0 ==> r is None && final(text)@ == old(text)@,
        old(text)@.len() > 0 ==> r == Some(old(text)@.last()) && final(text)@ == old(text)@.drop_last(),
;

/// `String::clear` removes every character.
pub assume_specification[ String::clear ](text: &mut String)
    ensures
        final(text)@ == Seq::<char>::empty(),
;

/// A copy of each string of `strings`, in order.
pub fn copy_strings(strings: &Vec<String>) -> (r: Vec<String>)
    ensures
        r@ == strings@,
{
    let mut copies: Vec<String> = Vec::new();
    let mut i: usize = 0;
    while i < strings.len()
        invariant
            i <= strings@.len(),
            copies@ == strings@.subrange(0, i as int),
        decreases strings@.len() - i,
    {
        copies.push(strings[i].clone());
        assert(copies@ =~= strings@.subrange(0, i + 1));
        i += 1;
    }
    assert(strings@.subrange(0, strings@.len() as int) =~= strings@);
    copies
}

/// Whether some string of `strings` has the characters of `text`.
pub fn contains_text(strings: &Vec<String>, text: &String) -> (found: bool)
    ensures
        found == texts(strings@).contains(text@),
{
    let mut i: usize = 0;
    while i < strings.len()
        invariant
            i <= strings@.len(),
            forall|k: int| 0 <= k < i ==> texts(strings@)[k] != text@,
        decreases strings@.len() - i,
    {
        if strings[i] == *text {
            assert(texts(strings@)[i as int] == text@);
            return true;
        }
        i += 1;
    }
    false
}

} // verus!

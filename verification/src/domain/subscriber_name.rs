//! A subscriber's display name.

use unicode_categories::UnicodeCategories;
use unicode_segmentation::UnicodeSegmentation;
use vstd::prelude::*;

verus! {

/// The largest number of grapheme clusters that a name may have.
pub const MAX_NAME_LENGTH: usize = 256;

/// The number of extended grapheme clusters into which `unicode_segmentation`
/// divides `text`.
pub uninterp spec fn extended_grapheme_count(text: Seq<char>) -> nat;

/// Whether `unicode_categories` places `c` in one of the punctuation
/// categories of Unicode (Pc, Pd, Pe, Pf, Pi, Po, Ps).
pub uninterp spec fn is_punctuation(c: char) -> bool;

/// Whether `unicode_categories` places `c` in one of the symbol categories of
/// Unicode (Sc, Sk, Sm, So).
pub uninterp spec fn is_symbol(c: char) -> bool;

/// Whether `char::is_control` reports `c` as a control code (category Cc).
pub uninterp spec fn is_control(c: char) -> bool;

/// Whether `char::is_whitespace` reports that `c` has the property
/// White_Space.
pub uninterp spec fn is_whitespace(c: char) -> bool;

/// Counts the items of `UnicodeSegmentation::graphemes` in its extended
/// mode.
///
/// The count is a function of the text alone, and it is zero for the empty
/// text only: the iterator hands out a cluster as long as text is left.
#[verifier::external_body]
fn count_graphemes(text: &str) -> (count: usize)
    ensures
        count == extended_grapheme_count(text@),
        count == 0 <==> text@.len() == 0,
{
    text.graphemes(true).count()
}

/// Calls `UnicodeCategories::is_punctuation`, a lookup in the crate's tables.
#[verifier::external_body]
fn char_is_punctuation(c: char) -> (found: bool)
    ensures
        found == is_punctuation(c),
{
    c.is_punctuation()
}

/// Calls `UnicodeCategories::is_symbol`, a lookup in the crate's tables.
#[verifier::external_body]
fn char_is_symbol(c: char) -> (found: bool)
    ensures
        found == is_symbol(c),
{
    c.is_symbol()
}

/// Calls `char::is_control`.
#[verifier::external_body]
fn char_is_control(c: char) -> (found: bool)
    ensures
        found == is_control(c),
{
    c.is_control()
}

/// Calls `char::is_whitespace`.
#[verifier::external_body]
fn char_is_whitespace(c: char) -> (found: bool)
    ensures
        found == is_whitespace(c),
{
    c.is_whitespace()
}

/// A character that no name may contain.
pub open spec fn is_forbidden(c: char) -> bool {
    is_punctuation(c) || is_symbol(c) || is_control(c)
}

/// `text` is empty or consists of whitespace only: nothing is left of it
/// once whitespace is trimmed from both ends.
pub open spec fn is_blank(text: Seq<char>) -> bool {
    forall|i: int| 0 <= i < text.len() ==> is_whitespace(#[trigger] text[i])
}

/// `text` contains a character that no name may contain.
pub open spec fn has_forbidden_character(text: Seq<char>) -> bool {
    exists|i: int| 0 <= i < text.len() && is_forbidden(#[trigger] text[i])
}

/// What has to be found of a text for it to be a name: it is not blank, it
/// has no more than `MAX_NAME_LENGTH` grapheme clusters, and it is free of
/// forbidden characters.
pub open spec fn findings_allow(
    is_empty_or_whitespace: bool,
    graphemes: nat,
    contains_forbidden_characters: bool,
) -> bool {
    !is_empty_or_whitespace && graphemes <= MAX_NAME_LENGTH && !contains_forbidden_characters
}

/// What makes a text a name: it is not blank, it has between one and
/// `MAX_NAME_LENGTH` grapheme clusters, and it is free of punctuation,
/// symbols and control codes.
pub open spec fn name_is_valid(text: Seq<char>) -> bool {
    &&& findings_allow(is_blank(text), extended_grapheme_count(text), has_forbidden_character(text))
    &&& 1 <= extended_grapheme_count(text)
}

fn blank(text: &str) -> (result: bool)
    ensures
        result == is_blank(text@),
{
    for c in it: text.chars()
        invariant
            it.seq() == text@,
            forall|i: int| 0 <= i < it.index() ==> is_whitespace(#[trigger] text@[i]),
    {
        if !char_is_whitespace(c) {
            assert(!is_whitespace(text@[it.index() as int]));
            return false;
        }
    }
    true
}

fn contains_forbidden_characters(text: &str) -> (result: bool)
    ensures
        result == has_forbidden_character(text@),
{
    for c in it: text.chars()
        invariant
            it.seq() == text@,
            forall|i: int| 0 <= i < it.index() ==> !is_forbidden(#[trigger] text@[i]),
    {
        if char_is_punctuation(c) || char_is_symbol(c) || char_is_control(c) {
            assert(is_forbidden(text@[it.index() as int]));
            return true;
        }
    }
    false
}

/// A display name that has passed validation.
#[derive(Debug)]
pub struct SubscriberName(String);

impl View for SubscriberName {
    type V = Seq<char>;

    closed spec fn view(&self) -> Seq<char> {
        self.0@
    }
}

impl Clone for SubscriberName {
    fn clone(&self) -> (copy: SubscriberName)
        ensures
            copy@ == self@,
    {
        proof {
            use_type_invariant(self);
        }
        SubscriberName(self.0.clone())
    }
}

impl SubscriberName {
    #[verifier::type_invariant]
    spec fn holds_valid_name(self) -> bool {
        name_is_valid(self.0@)
    }

    /// The message with which `parse` rejects `text`.
    pub open spec fn rejection(text: Seq<char>) -> Seq<char> {
        text + " is not a valid subscriber name."@
    }

    /// What follows for `text` from what has been found of it: nothing
    /// where the findings allow it as a name, and the message that rejects
    /// it otherwise.
    pub fn verdict(
        text: &str,
        is_empty_or_whitespace: bool,
        graphemes: usize,
        contains_forbidden_characters: bool,
    ) -> (result: Result<(), String>)
        ensures
            match result {
                Ok(_) => findings_allow(
                    is_empty_or_whitespace,
                    graphemes as nat,
                    contains_forbidden_characters,
                ),
                Err(message) => !findings_allow(
                    is_empty_or_whitespace,
                    graphemes as nat,
                    contains_forbidden_characters,
                ) && message@ == Self::rejection(text@),
            },
    {
        let is_too_long = graphemes > MAX_NAME_LENGTH;

        if is_empty_or_whitespace || is_too_long || contains_forbidden_characters {
            let mut message = text.to_owned();
            message.append(" is not a valid subscriber name.");
            Err(message)
        } else {
            Ok(())
        }
    }

    /// Accepts `s` unchanged if it is a valid name, and rejects it with a
    /// message otherwise.
    pub fn parse(s: String) -> (result: Result<SubscriberName, String>)
        ensures
            match result {
                Ok(name) => name@ == s@ && name_is_valid(s@),
                Err(message) => !name_is_valid(s@) && message@ == Self::rejection(s@),
            },
    {
        let is_empty_or_whitespace = blank(s.as_str());
        let graphemes = count_graphemes(s.as_str());
        let contains_forbidden_characters = contains_forbidden_characters(s.as_str());

        match Self::verdict(
            s.as_str(),
            is_empty_or_whitespace,
            graphemes,
            contains_forbidden_characters,
        ) {
            Ok(_) => Ok(SubscriberName(s)),
            Err(message) => Err(message),
        }
    }

    /// The name as text.
    pub fn as_ref(&self) -> (text: &str)
        ensures
            text@ == self@,
            name_is_valid(text@),
    {
        proof {
            use_type_invariant(self);
        }
        self.0.as_str()
    }
}

} // verus!

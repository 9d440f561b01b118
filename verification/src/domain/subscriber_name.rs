use unicode_segmentation::UnicodeSegmentation;
use vstd::prelude::*;
use vstd::utf8::is_ascii_chars;
use crate::text::ascii_lowercase_char;

verus! {

/// The longest name accepted, counted in extended grapheme clusters.
pub const MAX_SUBSCRIBER_NAME_LENGTH: usize = 256;

/// What `UnicodeSegmentation::graphemes(s, true).count()` returns for `s`:
/// the number of extended grapheme clusters of the text.
pub uninterp spec fn extended_grapheme_count(s: Seq<char>) -> nat;

/// Whether the character has the Unicode `White_Space` property (PropList):
/// U+0009..U+000D, U+0020, U+0085, U+00A0, U+1680, U+2000..U+200A, U+2028,
/// U+2029, U+202F, U+205F and U+3000.
pub open spec fn has_white_space_property(c: char) -> bool {
    ||| '\u{9}' <= c <= '\u{d}'
    ||| c == '\u{20}'
    ||| c == '\u{85}'
    ||| c == '\u{a0}'
    ||| c == '\u{1680}'
    ||| '\u{2000}' <= c <= '\u{200a}'
    ||| c == '\u{2028}'
    ||| c == '\u{2029}'
    ||| c == '\u{202f}'
    ||| c == '\u{205f}'
    ||| c == '\u{3000}'
}

/// A carriage return directly followed by a line feed somewhere in the text.
pub open spec fn has_crlf(s: Seq<char>) -> bool {
    exists|i: int| 0 <= i < s.len() - 1 && #[trigger] s[i] == '\r' && s[i + 1] == '\n'
}

/// Counts the extended grapheme clusters of `s` with
/// `unicode_segmentation::UnicodeSegmentation::graphemes(s, true).count()`.
/// Claimed: the count is the named result; the iterator hands out non-empty
/// slices that cover the whole text, so the count is at most the number of
/// characters and is zero exactly for the empty text; in ASCII text the only
/// cluster of two characters is a carriage return followed by a line feed
/// (every other ASCII character is a cluster of its own), so ASCII text
/// without that pair has one cluster per character; every ASCII letter has
/// the same grapheme category (`Any`), so switching letters between capital
/// and small moves no boundary and keeps the count.
#[verifier::external_body]
fn count_extended_graphemes(s: &str) -> (n: usize)
    ensures
        n == extended_grapheme_count(s@),
        n <= s@.len(),
        (n == 0) <==> (s@.len() == 0),
        is_ascii_chars(s@) && !has_crlf(s@) ==> n == s@.len(),
        forall|t: Seq<char>| #[trigger]
            is_ascii_case_change(s@, t) ==> extended_grapheme_count(t) == n,
{
    s.graphemes(true).count()
}

/// Calls `char::is_whitespace`. Claimed: the result is whether the
/// character has the `White_Space` property, which its documentation names.
#[verifier::external_body]
fn char_is_whitespace(c: char) -> (b: bool)
    ensures
        b == has_white_space_property(c),
{
    c.is_whitespace()
}

/// The characters that may not appear in a subscriber name.
pub open spec fn is_forbidden_name_char(c: char) -> bool {
    c == '/' || c == '(' || c == ')' || c == '"' || c == '<' || c == '>' || c == '\\'
        || c == '}' || c == '{'
}

/// Every character is white space (so the text trims to nothing).
pub open spec fn is_blank(s: Seq<char>) -> bool {
    forall|i: int| 0 <= i < s.len() ==> #[trigger] has_white_space_property(s[i])
}

/// Some character of the text is forbidden in a name.
pub open spec fn has_forbidden_name_char(s: Seq<char>) -> bool {
    exists|i: int| 0 <= i < s.len() && #[trigger] is_forbidden_name_char(s[i])
}

/// The text is longer than the limit, in extended grapheme clusters.
pub open spec fn is_too_long_name(s: Seq<char>) -> bool {
    extended_grapheme_count(s) > MAX_SUBSCRIBER_NAME_LENGTH
}

/// A valid subscriber name: not blank, not too long, no forbidden character.
pub open spec fn is_valid_subscriber_name(s: Seq<char>) -> bool {
    !is_blank(s) && !is_too_long_name(s) && !has_forbidden_name_char(s)
}

/// The message that rejects the text `s` as a name.
pub open spec fn name_rejection_message(s: Seq<char>) -> Seq<char> {
    s + " is not a valid subscriber name"@
}

/// The message that rejects a name starts with the name itself and ends with
/// the words that say so.
pub proof fn lemma_name_rejection_message_fields(s: Seq<char>)
    ensures
        name_rejection_message(s).take(s.len() as int) == s,
        name_rejection_message(s).skip(s.len() as int) == " is not a valid subscriber name"@,
{
    assert(name_rejection_message(s).take(s.len() as int) =~= s);
    assert(name_rejection_message(s).skip(s.len() as int) =~= " is not a valid subscriber name"@);
}

/// The nine characters that a name may not hold.
pub open spec fn forbidden_name_chars() -> Set<char> {
    set!['/', '(', ')', '"', '<', '>', '\\', '}', '{']
}

/// A name is valid exactly when it is not blank, has at most 256 extended
/// grapheme clusters, and none of its characters is one of
/// `/ ( ) " < > \ } {`; every other character, such as `-`, a letter or a
/// space, is allowed.
pub proof fn lemma_subscriber_name_rule(s: Seq<char>)
    ensures
        forall|c: char| #[trigger] is_forbidden_name_char(c) <==> forbidden_name_chars().contains(c),
        is_valid_subscriber_name(s) <==> {
            &&& !is_blank(s)
            &&& extended_grapheme_count(s) <= 256
            &&& forall|i: int| 0 <= i < s.len() ==> !forbidden_name_chars().contains(#[trigger] s[i])
        },
{
    assert forall|c: char| #[trigger] is_forbidden_name_char(c) <==> forbidden_name_chars().contains(c) by {
    }
    if has_forbidden_name_char(s) {
        let i = choose|i: int| 0 <= i < s.len() && #[trigger] is_forbidden_name_char(s[i]);
        assert(forbidden_name_chars().contains(s[i]));
    } else {
        assert forall|i: int| 0 <= i < s.len() implies !forbidden_name_chars().contains(
            #[trigger] s[i],
        ) by {
            assert(!is_forbidden_name_char(s[i]));
        }
    }
}

/// An ASCII letter, capital or small.
pub open spec fn is_ascii_letter(c: char) -> bool {
    ('A' <= c <= 'Z') || ('a' <= c <= 'z')
}

/// `t` is `s` with some ASCII letters switched between capital and small,
/// the only change that safe code can make through a `&mut str`.
pub open spec fn is_ascii_case_change(s: Seq<char>, t: Seq<char>) -> bool {
    &&& s.len() == t.len()
    &&& forall|i: int|
        0 <= i < s.len() ==> #[trigger] t[i] == s[i] || (is_ascii_letter(s[i]) && is_ascii_letter(
            t[i],
        ) && ascii_lowercase_char(s[i]) == ascii_lowercase_char(t[i]))
}

/// Switching ASCII letters between capital and small keeps the length of a
/// name, keeps it blank or not, keeps forbidden characters out (or in), keeps
/// it ASCII or not and keeps CR LF out (or in). With the grapheme count kept
/// too, a name that `parse` accepted is accepted again after such a change
/// made through `inner_mut` or `as_mut` (see the `ensures` of `parse`).
pub proof fn lemma_ascii_case_change_keeps_name_rules(s: Seq<char>, t: Seq<char>)
    requires
        is_ascii_case_change(s, t),
    ensures
        t.len() == s.len(),
        is_blank(t) == is_blank(s),
        has_forbidden_name_char(t) == has_forbidden_name_char(s),
        is_ascii_chars(t) == is_ascii_chars(s),
        has_crlf(t) == has_crlf(s),
{
    assert forall|i: int| 0 <= i < s.len() implies (has_white_space_property(t[i])
        == has_white_space_property(s[i]) && is_forbidden_name_char(t[i])
        == is_forbidden_name_char(s[i]) && (t[i] == '\r') == (s[i] == '\r') && (t[i] == '\n')
        == (s[i] == '\n') && (t[i] <= '\u{7f}') == (s[i] <= '\u{7f}')) by {
        assert(t[i] == s[i] || (is_ascii_letter(s[i]) && is_ascii_letter(t[i])));
    }
    if has_forbidden_name_char(t) {
        let i = choose|i: int| 0 <= i < t.len() && #[trigger] is_forbidden_name_char(t[i]);
        assert(is_forbidden_name_char(s[i]));
    }
    if has_forbidden_name_char(s) {
        let i = choose|i: int| 0 <= i < s.len() && #[trigger] is_forbidden_name_char(s[i]);
        assert(is_forbidden_name_char(t[i]));
    }
    if has_crlf(t) {
        let i = choose|i: int| 0 <= i < t.len() - 1 && #[trigger] t[i] == '\r' && t[i + 1] == '\n';
        assert(s[i] == '\r' && s[i + 1] == '\n');
    }
    if has_crlf(s) {
        let i = choose|i: int| 0 <= i < s.len() - 1 && #[trigger] s[i] == '\r' && s[i + 1] == '\n';
        assert(t[i] == '\r' && t[i + 1] == '\n');
    }
}

fn is_forbidden_name_char_exec(c: char) -> (b: bool)
    ensures
        b == is_forbidden_name_char(c),
{
    c == '/' || c == '(' || c == ')' || c == '"' || c == '<' || c == '>' || c == '\\' || c == '}'
        || c == '{'
}

/// Whether every character of `s` is white space.
pub fn is_blank_text(s: &str) -> (b: bool)
    ensures
        b == is_blank(s@),
{
    let mut all_white = true;
    for c in it: s.chars()
        invariant
            it.seq() == s@,
            all_white == (forall|j: int| 0 <= j < it.index() ==> #[trigger] has_white_space_property(s@[j])),
    {
        if !char_is_whitespace(c) {
            all_white = false;
        }
    }
    all_white
}

/// Whether some character of `s` is forbidden in a name.
pub fn contains_forbidden_name_char(s: &str) -> (b: bool)
    ensures
        b == has_forbidden_name_char(s@),
{
    let mut found = false;
    for c in it: s.chars()
        invariant
            it.seq() == s@,
            found == (exists|j: int| 0 <= j < it.index() && #[trigger] is_forbidden_name_char(s@[j])),
    {
        if is_forbidden_name_char_exec(c) {
            found = true;
        }
    }
    found
}

/// A subscriber's name, as it was given.
#[derive(Debug)]
pub struct SubscriberName(String);

impl View for SubscriberName {
    type V = Seq<char>;

    closed spec fn view(&self) -> Seq<char> {
        self.0@
    }
}

impl SubscriberName {
    /// Accepts `s` as a name when it is not empty or white space only, has at
    /// most 256 extended grapheme clusters and holds none of
    /// `/ ( ) " < > \ } {`; otherwise returns a message naming `s`.
    pub fn parse(s: String) -> (result: Result<Self, String>)
        ensures
            match result {
                Ok(name) => is_valid_subscriber_name(s@) && name@ == s@,
                Err(message) => !is_valid_subscriber_name(s@) && message@ == name_rejection_message(s@),
            },
            // a short name is never rejected for its length
            s@.len() <= MAX_SUBSCRIBER_NAME_LENGTH && !is_blank(s@) && !has_forbidden_name_char(s@)
                ==> result is Ok,
            // switching ASCII letters between capital and small keeps a name valid
            result is Ok ==> forall|t: Seq<char>| #[trigger]
                is_ascii_case_change(s@, t) ==> is_valid_subscriber_name(t),
            // in ASCII text without CR LF the length is counted in characters
            is_ascii_chars(s@) && !has_crlf(s@) ==> (is_too_long_name(s@) <==> s@.len()
                > MAX_SUBSCRIBER_NAME_LENGTH),
    {
        let is_empty_or_whitespace = is_blank_text(s.as_str());
        let is_too_long = count_extended_graphemes(s.as_str()) > MAX_SUBSCRIBER_NAME_LENGTH;
        proof {
            assert forall|t: Seq<char>| #[trigger]
                is_ascii_case_change(s@, t) && is_valid_subscriber_name(
                    s@,
                ) implies is_valid_subscriber_name(t) by {
                lemma_ascii_case_change_keeps_name_rules(s@, t);
            }
        }
        let contains_forbidden_characters = contains_forbidden_name_char(s.as_str());
        if is_empty_or_whitespace || is_too_long || contains_forbidden_characters {
            let mut message = s.clone();
            message.append(" is not a valid subscriber name");
            Err(message)
        } else {
            Ok(SubscriberName(s))
        }
    }

    /// The name's text.
    pub fn inner(self) -> (text: String)
        ensures
            text@ == self@,
    {
        self.0
    }

    /// The name's text, to be changed in place.
    pub fn inner_mut(&mut self) -> (text: &mut str)
        ensures
            text@ == old(self)@,
            final(self)@ == final(text)@,
    {
        crate::text::string_as_mut_str(&mut self.0)
    }
}

impl SubscriberName {
    /// A copy of the name's text.
    #[allow(clippy::inherent_to_string)]
    pub fn to_string(&self) -> (text: String)
        ensures
            text@ == self@,
    {
        self.0.clone()
    }
}

impl AsMut<str> for SubscriberName {
    fn as_mut(&mut self) -> (text: &mut str)
        ensures
            text@ == old(self)@,
            final(self)@ == final(text)@,
    {
        crate::text::string_as_mut_str(&mut self.0)
    }
}

impl AsRef<str> for SubscriberName {
    fn as_ref(&self) -> (text: &str)
        ensures
            text@ == self@,
    {
        self.0.as_str()
    }
}

} // verus!

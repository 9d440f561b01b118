use vstd::prelude::*;

verus! {

/// What `validator::validate_email` returns for the text: whether it is an
/// e-mail address by the HTML5 rules that the crate implements.
pub uninterp spec fn is_html5_email(s: Seq<char>) -> bool;

/// Some `'@'` of the text has a character before it and one after it.
pub open spec fn has_inner_at_sign(s: Seq<char>) -> bool {
    exists|i: int| 0 < i < s.len() - 1 && #[trigger] s[i] == '@'
}

/// The message that rejects the text `s` as an e-mail address.
pub open spec fn email_rejection_message(s: Seq<char>) -> Seq<char> {
    s + " is not a valid subscriber email"@
}

/// The message that rejects an address starts with the address itself and
/// ends with the words that say so.
pub proof fn lemma_email_rejection_message_fields(s: Seq<char>)
    ensures
        email_rejection_message(s).take(s.len() as int) == s,
        email_rejection_message(s).skip(s.len() as int) == " is not a valid subscriber email"@,
{
    assert(email_rejection_message(s).take(s.len() as int) =~= s);
    assert(email_rejection_message(s).skip(s.len() as int) =~= " is not a valid subscriber email"@);
}

/// Calls `validator::validate_email`. Claimed: the result is the named
/// check; and, as its source shows, it refuses the empty text and any text
/// whose part before the last `'@'`, or after it, is empty (the user part
/// must match a non-empty pattern and so must the domain part), so an
/// accepted text has an `'@'` with characters on both sides.
#[verifier::external_body]
fn validate_email(s: &str) -> (valid: bool)
    ensures
        valid == is_html5_email(s@),
        valid ==> has_inner_at_sign(s@),
{
    validator::validate_email(s)
}

/// A subscriber's e-mail address, as it was given.
#[derive(Debug)]
pub struct SubscriberEmail(pub String);

impl View for SubscriberEmail {
    type V = Seq<char>;

    open spec fn view(&self) -> Seq<char> {
        self.0@
    }
}

impl SubscriberEmail {
    /// Accepts `s` when `validator::validate_email` does; otherwise returns a
    /// message naming `s`.
    pub fn parse(s: String) -> (result: Result<Self, String>)
        ensures
            match result {
                Ok(email) => is_html5_email(s@) && email@ == s@,
                Err(message) => !is_html5_email(s@) && message@ == email_rejection_message(s@),
            },
            // what every accepted address has
            result is Ok ==> has_inner_at_sign(s@),
    {
        if validate_email(s.as_str()) {
            Ok(SubscriberEmail(s))
        } else {
            let mut message = s.clone();
            message.append(" is not a valid subscriber email");
            Err(message)
        }
    }
}

impl AsRef<str> for SubscriberEmail {
    fn as_ref(&self) -> (text: &str)
        ensures
            text@ == self@,
    {
        self.0.as_str()
    }
}

impl AsMut<str> for SubscriberEmail {
    fn as_mut(&mut self) -> (text: &mut str)
        ensures
            text@ == old(self)@,
            final(self)@ == final(text)@,
    {
        crate::text::string_as_mut_str(&mut self.0)
    }
}

} // verus!

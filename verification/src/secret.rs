use secrecy::{ExposeSecret, Secret};
use vstd::prelude::*;

verus! {

/// A text kept in a `secrecy::Secret<String>`, which keeps it from being
/// printed and wipes it when dropped. The secret is a private field; the
/// text it holds is `secret_text`, read only through `expose_secret`.
#[verifier::external_body]
pub struct SecretString {
    inner: Secret<String>,
}

/// The text that a secret holds.
pub uninterp spec fn secret_text(secret: SecretString) -> Seq<char>;

impl SecretString {
    /// Calls `secrecy::Secret::new`. Claimed: the secret holds the text
    /// given, as the source shows (it stores the value in its one field).
    #[verifier::external_body]
    pub fn new(text: String) -> (secret: SecretString)
        ensures
            secret_text(secret) == text@,
    {
        SecretString { inner: Secret::new(text) }
    }

    /// Calls `secrecy::ExposeSecret::expose_secret`. Claimed: it hands back
    /// the text that the secret holds, as the source shows (it returns a
    /// reference to its field).
    #[verifier::external_body]
    pub fn expose_secret(&self) -> (text: &String)
        ensures
            text@ == secret_text(*self),
    {
        self.inner.expose_secret()
    }
}

} // verus!

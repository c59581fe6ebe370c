//! Secret-wrapped credential strings. A [`SecretValue`] holds a connection
//! string so that no code path can serialize or log it incidentally; the raw
//! text is reachable only through [`SecretValue::expose`], called at the
//! single point a driver needs the credential.

use vstd::prelude::*;
use secrecy::ExposeSecret;

verus! {

/// Opaque holder for a string that must not appear in logs, error messages
/// or debug output. The string lives inside a `secrecy::SecretString`,
/// which zeroizes it on drop and has no serializing or debug-printing path
/// to it; the one reading operation is [`SecretValue::expose`].
#[verifier::external_body]
pub struct SecretValue {
    inner: secrecy::SecretString,
}

/// The characters a [`SecretValue`] holds.
pub uninterp spec fn secret_chars(s: &SecretValue) -> Seq<char>;

impl View for SecretValue {
    type V = Seq<char>;

    closed spec fn view(&self) -> Seq<char> {
        secret_chars(self)
    }
}

impl SecretValue {
    /// Wraps a raw credential string.
    ///
    /// Relies on `secrecy::SecretString::from`, which boxes exactly the
    /// given string as the secret contents.
    #[verifier::external_body]
    pub fn new(raw: String) -> (r: SecretValue)
        ensures
            secret_chars(&r) == raw@,
            r@ == raw@,
    {
        SecretValue { inner: secrecy::SecretString::from(raw) }
    }

    /// Hands out the wrapped string — the single sanctioned reading
    /// operation, used only where a driver needs the raw credential.
    ///
    /// Relies on `secrecy::ExposeSecret::expose_secret`, which hands back a
    /// borrow of the wrapped string, unchanged.
    #[verifier::external_body]
    pub fn expose(&self) -> (r: &str)
        ensures
            r@ == secret_chars(self),
            r@ == self@,
    {
        self.inner.expose_secret()
    }
}

} // verus!

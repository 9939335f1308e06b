//! The SASL PLAIN initial response, through the `sasl` and `base64` crates.
use vstd::prelude::*;
use vstd::utf8::encode_utf8;

verus! {

/// Builds `sasl::client::mechanisms::Plain` with `Mechanism::from_credentials` from
/// credentials holding a username and a plain-text password, and calls `Mechanism::initial`.
/// The contract claims what the `sasl` source shows: the bytes 0, the username in UTF-8, 0,
/// the password in UTF-8 (`from_credentials` accepts such credentials).
#[verifier::external_body]
pub fn plain_initial(username: &str, password: &str) -> (r: Vec<u8>)
    ensures
        r@ == seq![0u8] + encode_utf8(username@) + seq![0u8] + encode_utf8(password@),
{
    let creds = sasl::common::Credentials::default().with_username(username).with_password(password);
    match <sasl::client::mechanisms::Plain as sasl::client::Mechanism>::from_credentials(creds) {
        Ok(mut plain) => sasl::client::Mechanism::initial(&mut plain),
        Err(_) => Vec::new(),
    }
}

/// What `base64::encode` (standard alphabet, with padding) writes for some bytes.
pub uninterp spec fn base64_text(bytes: Seq<u8>) -> Seq<char>;

/// Calls `base64::encode`. The contract claims only that the text is the one named by
/// `base64_text`.
#[verifier::external_body]
pub fn base64_encode(bytes: &[u8]) -> (r: String)
    ensures
        r@ == base64_text(bytes@),
{
    base64::encode(bytes)
}

} // verus!

//! Stellar strkeys (`C…` contract ids), read and written by
//! the `stellar-strkey` crate.

use vstd::prelude::*;

verus! {

/// What `stellar_strkey::Contract::from_str` reads from a text: the 32-byte
/// contract hash, or `None` where the text is not a contract strkey.
pub uninterp spec fn strkey_contract_decode(text: Seq<char>) -> Option<Seq<u8>>;

/// What `stellar_strkey::Contract`'s `Display` writes for a contract hash.
pub uninterp spec fn strkey_contract_text(hash: Seq<u8>) -> Seq<char>;

/// `stellar_strkey::Contract::from_str`: decodes a `C…` contract strkey.
/// The result is `strkey_contract_decode(text)`.
#[verifier::external_body]
pub(crate) fn decode_contract(text: &str) -> (r: Option<[u8; 32]>)
    ensures
        r is Some <==> strkey_contract_decode(text@) is Some,
        r matches Some(h) ==> strkey_contract_decode(text@) == Some(h@),
{
    match text.parse::<stellar_strkey::Contract>() {
        Ok(c) => Some(c.0),
        Err(_) => None,
    }
}

/// `Display` of `stellar_strkey::Contract`: encodes a contract hash as a
/// `C…` strkey. The result is `strkey_contract_text(hash)`.
#[verifier::external_body]
pub(crate) fn encode_contract(hash: [u8; 32]) -> (r: String)
    ensures
        r@ == strkey_contract_text(hash@),
{
    stellar_strkey::Contract(hash).to_string().as_str().to_owned()
}

} // verus!

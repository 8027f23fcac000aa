//! Bytes written as text, by the `base64` crate.

use vstd::prelude::*;

verus! {

/// What `base64::encode_config` returns for `bytes` under `URL_SAFE_NO_PAD`:
/// their base64 text in the URL-safe alphabet, without padding.
pub uninterp spec fn url_safe_no_pad(bytes: Seq<u8>) -> Seq<char>;

/// What `base64::encode` returns for `bytes`: their base64 text in the
/// standard alphabet, with padding.
pub uninterp spec fn standard(bytes: Seq<u8>) -> Seq<char>;

/// `base64::encode_config` with `base64::URL_SAFE_NO_PAD`. The text depends on
/// the bytes alone.
#[verifier::external_body]
pub(crate) fn encode_url_safe_no_pad(bytes: &Vec<u8>) -> (text: String)
    ensures
        text@ == url_safe_no_pad(bytes@),
{
    base64::encode_config(bytes, base64::URL_SAFE_NO_PAD)
}

/// `base64::encode`. The text depends on the bytes alone.
#[verifier::external_body]
pub(crate) fn encode_standard(bytes: &[u8; 32]) -> (text: String)
    ensures
        text@ == standard(bytes@),
{
    base64::encode(bytes)
}

} // verus!

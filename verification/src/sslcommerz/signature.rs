//! The check of the SHA-512 signature of a payment notification.
use crate::sslcommerz::ipn::{distinct_keys, ipn_signature_message, string_pairs_view, ipn_from_pairs, IpnModel, SslcIpnData};
use crate::sslcommerz::SslCommerzConfig;
use crate::text::{hex_lower, lowercased, str_eq, to_lowercase};
use sha2::Digest;
use vstd::prelude::*;

verus! {

/// What SHA-512 gives for a byte sequence: its 64-byte digest.
pub uninterp spec fn sha512_digest(data: Seq<u8>) -> Seq<u8>;

/// Calls `sha2::Sha512::digest` (new, update, finalize in one call). The
/// contract names the digest and states its length, 64 bytes, which the
/// output type of `Sha512` fixes; the hash function itself is left to the
/// name.
#[verifier::external_body]
fn sha512(data: &[u8]) -> (d: Vec<u8>)
    ensures
        d@ == sha512_digest(data@),
        d@.len() == 64,
{
    sha2::Sha512::digest(data).to_vec()
}

/// Calls `hex::encode`, which writes each byte as two lower-case hex digits,
/// high half first (its table is `0123456789abcdef`).
#[verifier::external_body]
fn hex_encode(data: &[u8]) -> (s: String)
    ensures
        s@ == hex_lower(data@),
{
    hex::encode(data)
}

/// True when the lower-case hex text of `digest` is `lowered_sign`.
pub fn hex_digest_matches(digest: &[u8], lowered_sign: &str) -> (b: bool)
    ensures
        b == (hex_lower(digest@) == lowered_sign@),
{
    let computed = hex_encode(digest);
    str_eq(computed.as_str(), lowered_sign)
}

/// True when the notification carries a signature and a key list, and the
/// lower-case hex SHA-512 digest of the UTF-8 bytes of the signed message
/// equals the signature in lower case.
pub open spec fn ipn_signature_valid(d: IpnModel, passwd: Seq<char>) -> bool {
    match (ipn_signature_message(d, passwd), d.verify_sign) {
        (Some(m), Some(sign)) => hex_lower(sha512_digest(vstd::utf8::encode_utf8(m))) == lowercased(sign),
        _ => false,
    }
}

impl SslCommerzConfig {
    /// Check the signature of a notification against the store password.
    pub fn compute_ipn_signature(&self, data: &SslcIpnData) -> (b: bool)
        ensures
            b == ipn_signature_valid(data@, self.store_passwd@),
    {
        let message = match data.signature_message(self.store_passwd.as_str()) {
            Some(m) => m,
            None => {
                return false;
            },
        };
        let sign = match &data.verify_sign {
            Some(s) => s,
            None => {
                return false;
            },
        };
        let digest = sha512(message.as_str().as_bytes());
        let lowered = to_lowercase(sign.as_str());
        hex_digest_matches(digest.as_slice(), lowered.as_str())
    }

    /// Check the signature of a notification given as its received fields
    /// (distinct keys).
    pub fn verify_ipn_signature(&self, data: &Vec<(String, String)>) -> (b: bool)
        requires
            distinct_keys(string_pairs_view(data@)),
        ensures
            b == ipn_signature_valid(ipn_from_pairs(string_pairs_view(data@)), self.store_passwd@),
    {
        let ipn = SslcIpnData::from_pairs(data);
        self.compute_ipn_signature(&ipn)
    }
}

} // verus!

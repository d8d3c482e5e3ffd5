//! Addresses of stored objects.
use vstd::prelude::*;

verus! {

/// The public address of the object `key` in the S3 bucket `bucket`.
pub open spec fn object_url_text(bucket: Seq<char>, key: Seq<char>) -> Seq<char> {
    "https://"@ + bucket + ".s3.amazonaws.com/"@ + key
}

/// The public address at which an uploaded object is served.
pub fn object_url(bucket: &str, key: &str) -> (u: String)
    ensures
        u@ == object_url_text(bucket@, key@),
{
    let mut u = "https://".to_owned();
    u.append(bucket);
    u.append(".s3.amazonaws.com/");
    u.append(key);
    u
}

} // verus!

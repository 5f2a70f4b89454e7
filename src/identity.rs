//! Stable, path-derived identities.
use vstd::prelude::*;
use vstd::utf8::encode_utf8;

verus! {

/// The name-based (version 5) UUID, in the URL namespace, of a byte string, in
/// its hyphenated lowercase text form.
pub uninterp spec fn url_uuid_v5_text(name: Seq<u8>) -> Seq<char>;

/// Relies on `uuid::Uuid::new_v5` with `Uuid::NAMESPACE_URL`, which hashes the
/// namespace and the name and nothing else, and on `Uuid`'s `Display`, which
/// writes the 36-character hyphenated form.
#[verifier::external_body]
fn url_uuid_v5(name: &[u8]) -> (r: String)
    ensures
        r@ == url_uuid_v5_text(name@),
        r@.len() == 36,
{
    uuid::Uuid::new_v5(&uuid::Uuid::NAMESPACE_URL, name).to_string()
}

/// The identity of a path: a function of the path's UTF-8 bytes alone.
pub open spec fn identity_of(path: Seq<char>) -> Seq<char> {
    url_uuid_v5_text(encode_utf8(path))
}

/// The stable identity of `path`, the same in every run for the same path.
pub fn generate_uuid(path: &str) -> (r: String)
    ensures
        r@ == identity_of(path@),
        r@.len() == 36,
{
    url_uuid_v5(path.as_bytes())
}

} // verus!

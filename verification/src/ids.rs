//! Identifiers: UUIDs made by the `uuid` crate, from MD5 digests made by the
//! `md5` crate or at random.
use vstd::prelude::*;

use crate::text::opt_view;

verus! {

/// The hyphenated form of the UUID built (`uuid::Builder::from_md5_bytes`)
/// from the MD5 digest of `s`.
pub uninterp spec fn md5_uuid_of(s: Seq<char>) -> Seq<char>;

/// The hyphenated lower-case form of the UUID that `s` writes (`None`: `s`
/// writes no UUID).
pub uninterp spec fn uuid_of(s: Seq<char>) -> Option<Seq<char>>;

/// The UUID (version 3 layout, from `uuid::Builder::from_md5_bytes`) of the
/// MD5 digest (`md5::compute`) of `s`, in hyphenated form. Trusted: the result
/// is named, not stated.
#[verifier::external_body]
pub(crate) fn md5_uuid(s: &str) -> (r: String)
    ensures
        r@ == md5_uuid_of(s@),
{
    let digest = md5::compute(s);
    uuid::Builder::from_md5_bytes(digest.0).into_uuid().to_string()
}

/// A random UUID (`uuid::Uuid::new_v4`) in hyphenated form: 36 characters.
/// Trusted: only its length is stated.
#[verifier::external_body]
pub(crate) fn random_uuid() -> (r: String)
    ensures
        r@.len() == 36,
{
    uuid::Uuid::new_v4().to_string()
}

/// Parses `s` as a UUID (`uuid::Uuid::parse_str`) and writes it back in
/// hyphenated form. Trusted: the result is named, not stated.
#[verifier::external_body]
pub(crate) fn parse_uuid(s: &str) -> (r: Option<String>)
    ensures
        opt_view(r) == uuid_of(s@),
{
    match uuid::Uuid::parse_str(s) {
        Ok(u) => Some(u.to_string()),
        Err(_) => None,
    }
}

/// The guid of a feed item: the UUID of the MD5 digest of its id, marked as
/// a permalink.
pub fn generate_guid(id: &str) -> (r: crate::feed::FeedGuid)
    ensures
        r.value@ == md5_uuid_of(id@),
        r.permalink,
{
    crate::feed::FeedGuid { value: md5_uuid(id), permalink: true }
}

/// A fresh random UUID for one making of a feed (36 characters).
pub fn generation_uuid() -> (r: String)
    ensures
        r@.len() == 36,
{
    random_uuid()
}

} // verus!

//! Naming in the content-addressed cache: each entry is a data file named by
//! the hash of its cache key, with the extension its content type maps to,
//! and a sidecar file that records that extension.

use vstd::prelude::*;
use vstd::string::*;
use crate::profile::views;
use crate::resolve::Role;
use crate::text::{decimal, opt_string_view, str_eq, u64_to_decimal};

verus! {

/// What the sidecar records for an entry without an extension.
pub const NO_EXTENSION: &'static str = "none";

/// The 64-bit XXH3 hash of the UTF-8 encoding of a string.
pub uninterp spec fn xxh3_64_of(s: Seq<char>) -> u64;

/// The file extensions registered for a MIME type, or `None` for a type
/// that the registry does not know.
pub uninterp spec fn mime_extensions_of(content_type: Seq<char>) -> Option<Seq<Seq<char>>>;

/// Relies on `xxhash_rust::xxh3::xxh3_64`: a hash of the bytes alone, with
/// the default seed and secret.
#[verifier::external_body]
fn xxh3_64_text(s: &str) -> (r: u64)
    ensures
        r == xxh3_64_of(s@),
{
    xxhash_rust::xxh3::xxh3_64(s.as_bytes())
}

/// Relies on `mime_guess::get_mime_extensions_str`: the registered
/// extensions of a MIME type, in the registry's order, or `None`.
#[verifier::external_body]
fn mime_extensions(content_type: &str) -> (r: Option<Vec<String>>)
    ensures
        match r {
            Some(v) => mime_extensions_of(content_type@) == Some(views(v@)),
            None => mime_extensions_of(content_type@) is None,
        },
{
    mime_guess::get_mime_extensions_str(content_type).map(
        |exts| exts.iter().map(|e| e.to_string()).collect(),
    )
}

/// The cache key of a role of an access key: thumbnails get their own
/// namespace, the raw renditions are keyed by the access key itself.
pub open spec fn cache_key_spec(role: Role, key: Seq<char>) -> Seq<char> {
    match role {
        Role::Thumbnail => key + "-thumbnail"@,
        Role::Primary | Role::Public => key,
    }
}

/// The cache key of a role of an access key.
pub fn cache_key(role: Role, key: &str) -> (r: String)
    ensures
        r@ == cache_key_spec(role, key@),
{
    let s = String::from_str(key);
    match role {
        Role::Thumbnail => s.concat("-thumbnail"),
        Role::Primary | Role::Public => s,
    }
}

/// The hash that names the entry of a cache key.
pub fn cache_hash(cache_key: &str) -> (r: u64)
    ensures
        r == xxh3_64_of(cache_key@),
{
    xxh3_64_text(cache_key)
}

/// The extension chosen from a registry answer: the first one listed. An
/// extension spelled like the sentinel could not be told apart from "no
/// extension" in a sidecar, so it counts as none.
pub open spec fn first_extension(exts: Option<Seq<Seq<char>>>) -> Option<Seq<char>> {
    match exts {
        Some(v) => if v.len() > 0 && v[0] != NO_EXTENSION@ {
            Some(v[0])
        } else {
            None
        },
        None => None,
    }
}

/// Picks the extension from a registry answer: the first one listed, if
/// any and unless it is spelled like the sentinel.
pub fn pick_extension(exts: Option<Vec<String>>) -> (r: Option<String>)
    ensures
        opt_string_view(r) == first_extension(
            match exts {
                Some(v) => Some(views(v@)),
                None => None,
            },
        ),
{
    match exts {
        Some(v) => {
            if v.len() > 0 && !str_eq(v[0].as_str(), NO_EXTENSION) {
                Some(v[0].clone())
            } else {
                None
            }
        },
        None => None,
    }
}

/// The extension of a content type's cache entries.
pub fn extension_for(content_type: &str) -> (r: Option<String>)
    ensures
        opt_string_view(r) == first_extension(mime_extensions_of(content_type@)),
{
    pick_extension(mime_extensions(content_type))
}

/// The data file name of an entry: the hash in decimal, then `.` and the
/// extension when there is one.
pub open spec fn data_name_spec(hash: u64, ext: Option<Seq<char>>) -> Seq<char> {
    match ext {
        Some(e) => decimal(hash as nat) + "."@ + e,
        None => decimal(hash as nat),
    }
}

/// The sidecar file name of an entry.
pub open spec fn sidecar_name_spec(hash: u64) -> Seq<char> {
    "ext-"@ + decimal(hash as nat)
}

/// The name under which a thumbnail's fetched source is kept until its
/// thumbnail is stored, so that a failed transcode can be retried without
/// fetching again. No sidecar ever names it.
pub open spec fn source_name_spec(hash: u64) -> Seq<char> {
    "src-"@ + decimal(hash as nat)
}

/// What the sidecar of an entry holds: its extension, or the sentinel.
pub open spec fn sidecar_text_spec(ext: Option<Seq<char>>) -> Seq<char> {
    match ext {
        Some(e) => e,
        None => NO_EXTENSION@,
    }
}

/// The extension that a sidecar's text records.
pub open spec fn sidecar_ext_spec(text: Seq<char>) -> Option<Seq<char>> {
    if text == NO_EXTENSION@ {
        None
    } else {
        Some(text)
    }
}

/// The data file name of an entry.
pub fn data_file_name(hash: u64, ext: &Option<String>) -> (r: String)
    ensures
        r@ == data_name_spec(hash, opt_string_view(*ext)),
{
    let s = u64_to_decimal(hash);
    match ext {
        Some(e) => s.concat(".").concat(e.as_str()),
        None => s,
    }
}

/// The sidecar file name of an entry.
pub fn sidecar_file_name(hash: u64) -> (r: String)
    ensures
        r@ == sidecar_name_spec(hash),
{
    String::from_str("ext-").concat(u64_to_decimal(hash).as_str())
}

/// The name under which a thumbnail's fetched source is kept.
pub fn source_file_name(hash: u64) -> (r: String)
    ensures
        r@ == source_name_spec(hash),
{
    String::from_str("src-").concat(u64_to_decimal(hash).as_str())
}

/// What the sidecar of an entry with extension `ext` holds.
pub fn sidecar_text(ext: &Option<String>) -> (r: String)
    ensures
        r@ == sidecar_text_spec(opt_string_view(*ext)),
{
    match ext {
        Some(e) => e.clone(),
        None => String::from_str(NO_EXTENSION),
    }
}

/// The extension that a sidecar's text records.
pub fn parse_sidecar(text: &str) -> (r: Option<String>)
    ensures
        opt_string_view(r) == sidecar_ext_spec(text@),
{
    if str_eq(text, NO_EXTENSION) {
        None
    } else {
        Some(String::from_str(text))
    }
}

/// The files that make up one cache entry, and what its sidecar holds.
#[derive(Clone, Debug)]
pub struct CacheEntry {
    pub data_name: String,
    pub sidecar_name: String,
    pub sidecar_text: String,
}

/// Whether `e` is the entry of hash `hash` with extension `ext`.
pub open spec fn entry_is(e: CacheEntry, hash: u64, ext: Option<Seq<char>>) -> bool {
    &&& e.data_name@ == data_name_spec(hash, ext)
    &&& e.sidecar_name@ == sidecar_name_spec(hash)
    &&& e.sidecar_text@ == sidecar_text_spec(ext)
}

/// The entry of hash `hash` with extension `ext`.
pub fn entry_for(hash: u64, ext: &Option<String>) -> (r: CacheEntry)
    ensures
        entry_is(r, hash, opt_string_view(*ext)),
{
    CacheEntry {
        data_name: data_file_name(hash, ext),
        sidecar_name: sidecar_file_name(hash),
        sidecar_text: sidecar_text(ext),
    }
}

/// The entry under which an artifact of `content_type` is stored for
/// `cache_key`.
pub fn plan_entry(cache_key: &str, content_type: &str) -> (r: CacheEntry)
    ensures
        entry_is(
            r,
            xxh3_64_of(cache_key@),
            first_extension(mime_extensions_of(content_type@)),
        ),
{
    let hash = cache_hash(cache_key);
    let ext = extension_for(content_type);
    entry_for(hash, &ext)
}

/// Reading back the sidecar of an entry gives the extension it was written
/// with, so a lookup finds the data file that the write produced. Every
/// extension that a write chooses has this property.
pub proof fn law_sidecar_round_trip(hash: u64, exts: Option<Seq<Seq<char>>>)
    ensures
        ({
            let ext = first_extension(exts);
            &&& sidecar_ext_spec(sidecar_text_spec(ext)) == ext
            &&& data_name_spec(hash, sidecar_ext_spec(sidecar_text_spec(ext))) == data_name_spec(
                hash,
                ext,
            )
        }),
{
}

} // verus!

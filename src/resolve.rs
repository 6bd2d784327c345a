//! Origin records and the role that a presented key plays for one.

use vstd::prelude::*;
use crate::text::str_eq;

verus! {

/// One row of the metadata store: where the asset lives, its stored
/// content type, and the access keys of its roles. Any key may be absent
/// or empty; neither ever matches.
#[derive(Clone, Debug)]
pub struct OriginRecord {
    pub url: String,
    pub content_type: String,
    pub access_key: Option<String>,
    pub thumbnail_access_key: Option<String>,
    pub webpublic_access_key: Option<String>,
}

/// Which rendition of an asset a key asks for.
#[derive(Clone, Copy, Debug, PartialEq, Eq, Structural)]
pub enum Role {
    Primary,
    Thumbnail,
    Public,
}

/// Whether `key` equals the non-empty key field `field`.
pub open spec fn field_matches(key: Seq<char>, field: Option<String>) -> bool {
    match field {
        Some(k) => k@.len() > 0 && key == k@,
        None => false,
    }
}

/// Whether `key` is the record's access key for `role`.
pub open spec fn key_names_role(key: Seq<char>, rec: OriginRecord, role: Role) -> bool {
    match role {
        Role::Primary => field_matches(key, rec.access_key),
        Role::Thumbnail => field_matches(key, rec.thumbnail_access_key),
        Role::Public => field_matches(key, rec.webpublic_access_key),
    }
}

/// The role of `key` for `rec`, tried in the order primary, thumbnail, public.
pub open spec fn role_for(key: Seq<char>, rec: OriginRecord) -> Option<Role> {
    if key_names_role(key, rec, Role::Primary) {
        Some(Role::Primary)
    } else if key_names_role(key, rec, Role::Thumbnail) {
        Some(Role::Thumbnail)
    } else if key_names_role(key, rec, Role::Public) {
        Some(Role::Public)
    } else {
        None
    }
}

/// How many of `recs` have a role for `key`.
pub open spec fn n_matches(key: Seq<char>, recs: Seq<OriginRecord>) -> nat
    decreases recs.len(),
{
    if recs.len() == 0 {
        0
    } else {
        n_matches(key, recs.drop_last()) + if role_for(key, recs.last()) is Some {
            1nat
        } else {
            0nat
        }
    }
}

/// The record that `key` resolves to: the only one of `recs` with a role
/// for it. With none, or with several, the key does not resolve.
pub open spec fn sole_match_spec(key: Seq<char>, recs: Seq<OriginRecord>) -> Option<OriginRecord> {
    if n_matches(key, recs) == 1 {
        Some(recs[choose|i: int| 0 <= i < recs.len() && role_for(key, #[trigger] recs[i]) is Some])
    } else {
        None
    }
}

fn field_equals(key: &str, field: &Option<String>) -> (r: bool)
    ensures
        r == field_matches(key@, *field),
{
    match field {
        Some(k) => k.as_str().unicode_len() > 0 && str_eq(key, k.as_str()),
        None => false,
    }
}

/// The role that `key` plays for `rec`, or `None` when it names no role.
pub fn classify_role(key: &str, rec: &OriginRecord) -> (r: Option<Role>)
    ensures
        r == role_for(key@, *rec),
{
    if field_equals(key, &rec.access_key) {
        Some(Role::Primary)
    } else if field_equals(key, &rec.thumbnail_access_key) {
        Some(Role::Thumbnail)
    } else if field_equals(key, &rec.webpublic_access_key) {
        Some(Role::Public)
    } else {
        None
    }
}

/// The record that `key` resolves to among the store's answers.
pub fn sole_match(key: &str, recs: Vec<OriginRecord>) -> (r: Option<OriginRecord>)
    ensures
        r == sole_match_spec(key@, recs@),
{
    let mut recs = recs;
    let ghost all = recs@;
    let mut count: usize = 0;
    let mut idx: usize = 0;
    let mut i: usize = 0;
    while i < recs.len()
        invariant
            recs@ == all,
            i <= all.len(),
            count as nat == n_matches(key@, all.subrange(0, i as int)),
            count <= i,
            count == 0 ==> forall|j: int| 0 <= j < i ==> role_for(key@, #[trigger] all[j]) is None,
            count >= 1 ==> idx < i && role_for(key@, all[idx as int]) is Some,
            count == 1 ==> forall|j: int|
                0 <= j < i && role_for(key@, #[trigger] all[j]) is Some ==> j == idx,
        decreases all.len() - i,
    {
        assert(all.subrange(0, i + 1).drop_last() =~= all.subrange(0, i as int));
        assert(all.subrange(0, i + 1).last() == all[i as int]);
        if classify_role(key, &recs[i]).is_some() {
            count = count + 1;
            idx = i;
        }
        i = i + 1;
    }
    assert(all.subrange(0, all.len() as int) =~= all);
    if count == 1 {
        let r = recs.swap_remove(idx);
        Some(r)
    } else {
        None
    }
}

/// A key that names exactly one role of a record is classified as that role.
/// Since `classify_role` returns `role_for` of its arguments, repeated
/// classifications of the same key against the same record agree.
pub proof fn law_unique_role_is_chosen(key: Seq<char>, rec: OriginRecord, role: Role)
    requires
        key_names_role(key, rec, role),
        forall|other: Role| other != role ==> !key_names_role(key, rec, other),
    ensures
        role_for(key, rec) == Some(role),
{
    assert(role == Role::Primary || !key_names_role(key, rec, Role::Primary));
    assert(role == Role::Thumbnail || !key_names_role(key, rec, Role::Thumbnail));
}

} // verus!

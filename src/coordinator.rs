//! The decisions of one request, as a state machine: the serving process
//! performs each action it is handed and reports back what happened as an
//! event, until the request is served or fails.
//!
//! Cache lookups take no lock. On a miss the request first takes the
//! per-key lock, then looks again, since another request may have just
//! stored the entry; only then does it fetch or transcode. The lock is held
//! until the request's last action, which names it for release.

use vstd::prelude::*;
use vstd::string::*;
use crate::cache::{
    cache_hash, cache_key, cache_key_spec, data_file_name, data_name_spec, extension_for,
    first_extension, mime_extensions_of, parse_sidecar, sidecar_ext_spec, sidecar_file_name,
    sidecar_name_spec, sidecar_text, sidecar_text_spec, source_file_name, source_name_spec,
    xxh3_64_of,
};
use crate::content_type::{check_content_type, type_accepted};
use crate::error::ProxyError;
use crate::profile::{classify_profile, output_type, output_type_spec, profile_for, Profile};
use crate::resolve::{classify_role, role_for, sole_match, sole_match_spec, OriginRecord, Role};
use crate::text::opt_string_view;

verus! {

/// The asset and rendition a request is about, the hash that names its
/// cache entry, and whether the request holds the lock of its cache key.
#[derive(Clone, Debug)]
pub struct Target {
    pub record: OriginRecord,
    pub role: Role,
    pub hash: u64,
    pub locked: bool,
}

/// Where a request stands.
#[derive(Debug)]
pub enum State {
    /// Waiting for the metadata store.
    Resolving,
    /// Waiting for the entry's sidecar.
    ReadingSidecar { target: Target },
    /// Waiting to learn whether the data file `name` exists.
    CheckingData { target: Target, name: String },
    /// Waiting for the lock of the cache key.
    Locking { target: Target },
    /// Waiting to learn whether a thumbnail's source is still kept.
    CheckingSource { target: Target },
    /// Waiting for the origin's response headers.
    Fetching { target: Target },
    /// Waiting for the body to be stored; `disposition` is the origin's
    /// content disposition, kept for the primary rendition.
    Downloading { target: Target, disposition: Option<String> },
    /// Waiting for the transcoder.
    Transcoding { target: Target, profile: Profile },
    /// Waiting for the artifact to be moved to `data_name` and the sidecar written.
    Persisting { target: Target, data_name: String, disposition: Option<String> },
    /// Served or failed.
    Finished,
}

/// What the serving process reports after performing an action.
#[derive(Debug)]
pub enum Event {
    /// The store answered with every record that has a key field equal to
    /// the presented key.
    StoreAnswered(Vec<OriginRecord>),
    /// The store could not be queried.
    StoreFailed,
    /// The sidecar's text, or `None` when there is no sidecar.
    SidecarRead(Option<String>),
    /// Whether the data file exists.
    DataChecked(bool),
    /// The lock of the cache key is now held by this request.
    Locked,
    /// Whether the kept source of a thumbnail exists.
    SourceChecked(bool),
    /// The origin's headers: whether the status was 2xx, its content type
    /// and its content disposition.
    OriginResponded {
        success: bool,
        content_type: Option<String>,
        content_disposition: Option<String>,
    },
    /// The origin could not be reached.
    OriginFailed,
    /// Whether the whole body was stored.
    BodyStored(bool),
    /// Whether the transcoder exited successfully with non-empty output.
    TranscodeFinished(bool),
    /// Whether the artifact was renamed into place and its sidecar written.
    EntryPersisted(bool),
}

/// What the serving process is asked to do next.
#[derive(Debug, PartialEq, Eq)]
pub enum Action {
    /// Look the key up in the metadata store.
    QueryStore { key: String },
    /// Read the sidecar file `name` of the cache directory.
    ReadSidecar { name: String },
    /// Check whether the data file `name` of the cache directory exists.
    CheckData { name: String },
    /// Wait until no other request holds the lock of `cache_key`, then take it.
    Lock { cache_key: String },
    /// Check whether the kept source `name` of the cache directory exists.
    CheckSource { name: String },
    /// Send a GET to `url` and report the response headers.
    Fetch { url: String },
    /// Store the response body in a temporary file of the cache directory;
    /// when `keep_as` is given, rename it to that name once complete.
    Download { keep_as: Option<String> },
    /// Transcode the kept source `source` under `profile` into a temporary
    /// file of the cache directory.
    Transcode { profile: Profile, source: String },
    /// Rename the artifact to `data_name`, write `sidecar_text` to
    /// `sidecar_name`, then remove the file `discard` if one is named.
    Persist {
        data_name: String,
        sidecar_name: String,
        sidecar_text: String,
        discard: Option<String>,
    },
    /// Answer with the data file `name`, of type `content_type`, with the
    /// origin's content disposition when there is one to forward; release
    /// the lock `unlock` if one is named.
    Serve {
        name: String,
        content_type: String,
        disposition: Option<String>,
        unlock: Option<String>,
    },
    /// Answer with the error; release the lock `unlock` if one is named.
    Fail { error: ProxyError, unlock: Option<String> },
}

/// A state with its strings seen as sequences.
pub enum StateView {
    Resolving,
    ReadingSidecar { target: Target },
    CheckingData { target: Target, name: Seq<char> },
    Locking { target: Target },
    CheckingSource { target: Target },
    Fetching { target: Target },
    Downloading { target: Target, disposition: Option<String> },
    Transcoding { target: Target, profile: Profile },
    Persisting { target: Target, data_name: Seq<char>, disposition: Option<String> },
    Finished,
}

/// An action with its strings seen as sequences.
pub enum ActionView {
    QueryStore { key: Seq<char> },
    ReadSidecar { name: Seq<char> },
    CheckData { name: Seq<char> },
    Lock { cache_key: Seq<char> },
    CheckSource { name: Seq<char> },
    Fetch { url: Seq<char> },
    Download { keep_as: Option<Seq<char>> },
    Transcode { profile: Profile, source: Seq<char> },
    Persist {
        data_name: Seq<char>,
        sidecar_name: Seq<char>,
        sidecar_text: Seq<char>,
        discard: Option<Seq<char>>,
    },
    Serve {
        name: Seq<char>,
        content_type: Seq<char>,
        disposition: Option<Seq<char>>,
        unlock: Option<Seq<char>>,
    },
    Fail { error: ProxyError, unlock: Option<Seq<char>> },
}

impl State {
    pub open spec fn view(&self) -> StateView {
        match self {
            State::Resolving => StateView::Resolving,
            State::ReadingSidecar { target } => StateView::ReadingSidecar { target: *target },
            State::CheckingData { target, name } => StateView::CheckingData {
                target: *target,
                name: name@,
            },
            State::Locking { target } => StateView::Locking { target: *target },
            State::CheckingSource { target } => StateView::CheckingSource { target: *target },
            State::Fetching { target } => StateView::Fetching { target: *target },
            State::Downloading { target, disposition } => StateView::Downloading {
                target: *target,
                disposition: *disposition,
            },
            State::Transcoding { target, profile } => StateView::Transcoding {
                target: *target,
                profile: *profile,
            },
            State::Persisting { target, data_name, disposition } => StateView::Persisting {
                target: *target,
                data_name: data_name@,
                disposition: *disposition,
            },
            State::Finished => StateView::Finished,
        }
    }
}

impl Action {
    pub open spec fn view(&self) -> ActionView {
        match self {
            Action::QueryStore { key } => ActionView::QueryStore { key: key@ },
            Action::ReadSidecar { name } => ActionView::ReadSidecar { name: name@ },
            Action::CheckData { name } => ActionView::CheckData { name: name@ },
            Action::Lock { cache_key } => ActionView::Lock { cache_key: cache_key@ },
            Action::CheckSource { name } => ActionView::CheckSource { name: name@ },
            Action::Fetch { url } => ActionView::Fetch { url: url@ },
            Action::Download { keep_as } => ActionView::Download {
                keep_as: opt_string_view(*keep_as),
            },
            Action::Transcode { profile, source } => ActionView::Transcode {
                profile: *profile,
                source: source@,
            },
            Action::Persist { data_name, sidecar_name, sidecar_text, discard } => ActionView::Persist {
                data_name: data_name@,
                sidecar_name: sidecar_name@,
                sidecar_text: sidecar_text@,
                discard: opt_string_view(*discard),
            },
            Action::Serve { name, content_type, disposition, unlock } => ActionView::Serve {
                name: name@,
                content_type: content_type@,
                disposition: opt_string_view(*disposition),
                unlock: opt_string_view(*unlock),
            },
            Action::Fail { error, unlock } => ActionView::Fail {
                error: *error,
                unlock: opt_string_view(*unlock),
            },
        }
    }
}

/// The target of `key` playing `role` for `rec`, before any lock is taken.
pub open spec fn target_for(key: Seq<char>, rec: OriginRecord, role: Role) -> Target {
    Target { record: rec, role, hash: xxh3_64_of(cache_key_spec(role, key)), locked: false }
}

/// The lock that a request for `key` on target `t` must release when it ends.
pub open spec fn held(key: Seq<char>, t: Target) -> Option<Seq<char>> {
    if t.locked {
        Some(cache_key_spec(t.role, key))
    } else {
        None
    }
}

/// The content type of what is served for a target: the stored type for
/// the raw renditions, the profile's output type for thumbnails.
pub open spec fn served_type_spec(t: Target) -> Seq<char> {
    match t.role {
        Role::Thumbnail => output_type_spec(profile_for(t.record.content_type@)),
        Role::Primary | Role::Public => t.record.content_type@,
    }
}

/// The request ends with `error`, releasing `unlock`.
pub open spec fn fails_with(
    s2: StateView,
    a: ActionView,
    error: ProxyError,
    unlock: Option<Seq<char>>,
) -> bool {
    s2 == StateView::Finished && a == (ActionView::Fail { error, unlock })
}

/// The request goes to the origin.
pub open spec fn goes_to_origin(t: Target, s2: StateView, a: ActionView) -> bool {
    s2 == (StateView::Fetching { target: t }) && a == (ActionView::Fetch { url: t.record.url@ })
}

/// The thumbnail of `t` is derived from its kept source.
pub open spec fn transcodes(t: Target, s2: StateView, a: ActionView) -> bool {
    let p = profile_for(t.record.content_type@);
    &&& s2 == (StateView::Transcoding { target: t, profile: p })
    &&& a == (ActionView::Transcode { profile: p, source: source_name_spec(t.hash) })
}

/// What follows a cache miss: the lock first; under the lock, a thumbnail
/// looks for its kept source and a raw rendition goes to the origin.
pub open spec fn misses(key: Seq<char>, t: Target, s2: StateView, a: ActionView) -> bool {
    if !t.locked {
        &&& s2 == (StateView::Locking { target: t })
        &&& a == (ActionView::Lock { cache_key: cache_key_spec(t.role, key) })
    } else if t.role == Role::Thumbnail {
        &&& s2 == (StateView::CheckingSource { target: t })
        &&& a == (ActionView::CheckSource { name: source_name_spec(t.hash) })
    } else {
        goes_to_origin(t, s2, a)
    }
}

/// The artifact, of type `content_type`, is stored in the target's entry,
/// and the file `discard` is removed after.
pub open spec fn persists(
    t: Target,
    content_type: Seq<char>,
    disposition: Option<String>,
    discard: Option<Seq<char>>,
    s2: StateView,
    a: ActionView,
) -> bool {
    let ext = first_extension(mime_extensions_of(content_type));
    &&& s2 == (StateView::Persisting {
        target: t,
        data_name: data_name_spec(t.hash, ext),
        disposition,
    })
    &&& a == (ActionView::Persist {
        data_name: data_name_spec(t.hash, ext),
        sidecar_name: sidecar_name_spec(t.hash),
        sidecar_text: sidecar_text_spec(ext),
        discard,
    })
}

/// Which events a state waits for.
pub open spec fn accepts_spec(s: State, e: Event) -> bool {
    match s {
        State::Resolving => e is StoreAnswered || e is StoreFailed,
        State::ReadingSidecar { .. } => e is SidecarRead,
        State::CheckingData { .. } => e is DataChecked,
        State::Locking { .. } => e is Locked,
        State::CheckingSource { .. } => e is SourceChecked,
        State::Fetching { .. } => e is OriginResponded || e is OriginFailed,
        State::Downloading { .. } => e is BodyStored,
        State::Transcoding { .. } => e is TranscodeFinished,
        State::Persisting { .. } => e is EntryPersisted,
        State::Finished => false,
    }
}

/// The transition of a request for `key` from `s` on `e` to `s2` with action `a`.
pub open spec fn step_spec(key: Seq<char>, s: State, e: Event, s2: StateView, a: ActionView) -> bool {
    match s {
        State::Resolving => match e {
            Event::StoreAnswered(recs) => match sole_match_spec(key, recs@) {
                Some(rec) => match role_for(key, rec) {
                    Some(role) => {
                        let t = target_for(key, rec, role);
                        &&& s2 == (StateView::ReadingSidecar { target: t })
                        &&& a == (ActionView::ReadSidecar { name: sidecar_name_spec(t.hash) })
                    },
                    None => fails_with(s2, a, ProxyError::NotFound, None),
                },
                None => fails_with(s2, a, ProxyError::NotFound, None),
            },
            _ => fails_with(s2, a, ProxyError::StoreUnavailable, None),
        },
        State::ReadingSidecar { target } => match e {
            Event::SidecarRead(Some(text)) => {
                let name = data_name_spec(target.hash, sidecar_ext_spec(text@));
                &&& s2 == (StateView::CheckingData { target, name })
                &&& a == (ActionView::CheckData { name })
            },
            _ => misses(key, target, s2, a),
        },
        State::CheckingData { target, name } => if e == Event::DataChecked(true) {
            &&& s2 == StateView::Finished
            &&& a == (ActionView::Serve {
                name: name@,
                content_type: served_type_spec(target),
                disposition: None,
                unlock: held(key, target),
            })
        } else {
            misses(key, target, s2, a)
        },
        State::Locking { target } => {
            let t = Target { locked: true, ..target };
            &&& s2 == (StateView::ReadingSidecar { target: t })
            &&& a == (ActionView::ReadSidecar { name: sidecar_name_spec(t.hash) })
        },
        State::CheckingSource { target } => if e == Event::SourceChecked(true) {
            transcodes(target, s2, a)
        } else {
            goes_to_origin(target, s2, a)
        },
        State::Fetching { target } => match e {
            Event::OriginResponded { success, content_type, content_disposition } => if !success {
                fails_with(s2, a, ProxyError::UpstreamNon2xx, held(key, target))
            } else if !type_accepted(target.record.content_type@, opt_string_view(content_type)) {
                fails_with(s2, a, ProxyError::ContentTypeMismatch, held(key, target))
            } else {
                &&& s2 == (StateView::Downloading {
                    target,
                    disposition: if target.role == Role::Primary {
                        content_disposition
                    } else {
                        None
                    },
                })
                &&& a == (ActionView::Download {
                    keep_as: if target.role == Role::Thumbnail {
                        Some(source_name_spec(target.hash))
                    } else {
                        None
                    },
                })
            },
            _ => fails_with(s2, a, ProxyError::OriginUnreachable, held(key, target)),
        },
        State::Downloading { target, disposition } => if e == Event::BodyStored(true) {
            if target.role == Role::Thumbnail {
                transcodes(target, s2, a)
            } else {
                persists(target, target.record.content_type@, disposition, None, s2, a)
            }
        } else {
            fails_with(s2, a, ProxyError::OriginUnreachable, held(key, target))
        },
        State::Transcoding { target, profile } => if e == Event::TranscodeFinished(true) {
            persists(
                target,
                output_type_spec(profile),
                None,
                Some(source_name_spec(target.hash)),
                s2,
                a,
            )
        } else {
            fails_with(s2, a, ProxyError::TranscodeFailed, held(key, target))
        },
        State::Persisting { target, data_name, disposition } => if e == Event::EntryPersisted(
            true,
        ) {
            &&& s2 == StateView::Finished
            &&& a == (ActionView::Serve {
                name: data_name@,
                content_type: served_type_spec(target),
                disposition: opt_string_view(disposition),
                unlock: held(key, target),
            })
        } else {
            fails_with(s2, a, ProxyError::CacheWriteFailed, held(key, target))
        },
        State::Finished => false,
    }
}

/// The content type of what is served for a target.
pub fn served_type(t: &Target) -> (r: String)
    ensures
        r@ == served_type_spec(*t),
{
    match t.role {
        Role::Thumbnail => String::from_str(output_type(classify_profile(t.record.content_type.as_str()))),
        Role::Primary | Role::Public => t.record.content_type.clone(),
    }
}

/// One request for an access key.
#[derive(Debug)]
pub struct Request {
    pub key: String,
    pub state: State,
}

fn unlock_of(key: &str, t: &Target) -> (r: Option<String>)
    ensures
        opt_string_view(r) == held(key@, *t),
{
    if t.locked {
        Some(cache_key(t.role, key))
    } else {
        None
    }
}

fn fail(error: ProxyError, unlock: Option<String>) -> (r: (State, Action))
    ensures
        fails_with(r.0@, r.1@, error, opt_string_view(unlock)),
{
    (State::Finished, Action::Fail { error, unlock })
}

fn fetch(target: Target) -> (r: (State, Action))
    ensures
        goes_to_origin(target, r.0@, r.1@),
{
    let url = target.record.url.clone();
    (State::Fetching { target }, Action::Fetch { url })
}

fn transcode(target: Target) -> (r: (State, Action))
    ensures
        transcodes(target, r.0@, r.1@),
{
    let profile = classify_profile(target.record.content_type.as_str());
    let source = source_file_name(target.hash);
    (State::Transcoding { target, profile }, Action::Transcode { profile, source })
}

fn miss(key: &str, target: Target) -> (r: (State, Action))
    ensures
        misses(key@, target, r.0@, r.1@),
{
    if !target.locked {
        let cache_key = cache_key(target.role, key);
        (State::Locking { target }, Action::Lock { cache_key })
    } else if target.role == Role::Thumbnail {
        let name = source_file_name(target.hash);
        (State::CheckingSource { target }, Action::CheckSource { name })
    } else {
        fetch(target)
    }
}

fn persist(
    target: Target,
    content_type: &str,
    disposition: Option<String>,
    discard: Option<String>,
) -> (r: (State, Action))
    ensures
        persists(target, content_type@, disposition, opt_string_view(discard), r.0@, r.1@),
{
    let ext = extension_for(content_type);
    let data_name = data_file_name(target.hash, &ext);
    let action = Action::Persist {
        data_name: data_name.clone(),
        sidecar_name: sidecar_file_name(target.hash),
        sidecar_text: sidecar_text(&ext),
        discard,
    };
    (State::Persisting { target, data_name, disposition }, action)
}

impl Request {
    /// A new request for `key`; the first action queries the store.
    pub fn start(key: String) -> (r: (Request, Action))
        ensures
            r.0.key == key,
            r.0.state@ == StateView::Resolving,
            r.1@ == (ActionView::QueryStore { key: key@ }),
    {
        let action = Action::QueryStore { key: key.clone() };
        (Request { key, state: State::Resolving }, action)
    }

    /// Whether the request waits for `e`.
    pub fn accepts(&self, e: &Event) -> (r: bool)
        ensures
            r == accepts_spec(self.state, *e),
    {
        match self.state {
            State::Resolving => matches!(e, Event::StoreAnswered(_) | Event::StoreFailed),
            State::ReadingSidecar { .. } => matches!(e, Event::SidecarRead(_)),
            State::CheckingData { .. } => matches!(e, Event::DataChecked(_)),
            State::Locking { .. } => matches!(e, Event::Locked),
            State::CheckingSource { .. } => matches!(e, Event::SourceChecked(_)),
            State::Fetching { .. } => matches!(e, Event::OriginResponded { .. } | Event::OriginFailed),
            State::Downloading { .. } => matches!(e, Event::BodyStored(_)),
            State::Transcoding { .. } => matches!(e, Event::TranscodeFinished(_)),
            State::Persisting { .. } => matches!(e, Event::EntryPersisted(_)),
            State::Finished => false,
        }
    }

    /// Whether the request is served or has failed.
    pub fn is_finished(&self) -> (r: bool)
        ensures
            r == (self.state is Finished),
    {
        matches!(self.state, State::Finished)
    }

    /// Takes the outcome of the last action and decides the next one.
    pub fn step(self, e: Event) -> (r: (Request, Action))
        requires
            accepts_spec(self.state, e),
        ensures
            r.0.key == self.key,
            step_spec(self.key@, self.state, e, r.0.state@, r.1@),
    {
        let key = self.key;
        let (state, action) = match self.state {
            State::Resolving => match e {
                Event::StoreAnswered(recs) => match sole_match(key.as_str(), recs) {
                    Some(rec) => match classify_role(key.as_str(), &rec) {
                        Some(role) => {
                            let ck = cache_key(role, key.as_str());
                            let hash = cache_hash(ck.as_str());
                            let name = sidecar_file_name(hash);
                            let target = Target { record: rec, role, hash, locked: false };
                            (State::ReadingSidecar { target }, Action::ReadSidecar { name })
                        },
                        None => fail(ProxyError::NotFound, None),
                    },
                    None => fail(ProxyError::NotFound, None),
                },
                _ => fail(ProxyError::StoreUnavailable, None),
            },
            State::ReadingSidecar { target } => match e {
                Event::SidecarRead(Some(text)) => {
                    let ext = parse_sidecar(text.as_str());
                    let name = data_file_name(target.hash, &ext);
                    let action = Action::CheckData { name: name.clone() };
                    (State::CheckingData { target, name }, action)
                },
                _ => miss(key.as_str(), target),
            },
            State::CheckingData { target, name } => match e {
                Event::DataChecked(true) => {
                    let content_type = served_type(&target);
                    let unlock = unlock_of(key.as_str(), &target);
                    (State::Finished, Action::Serve { name, content_type, disposition: None, unlock })
                },
                _ => miss(key.as_str(), target),
            },
            State::Locking { target } => {
                let target = Target { locked: true, ..target };
                let name = sidecar_file_name(target.hash);
                (State::ReadingSidecar { target }, Action::ReadSidecar { name })
            },
            State::CheckingSource { target } => match e {
                Event::SourceChecked(true) => transcode(target),
                _ => fetch(target),
            },
            State::Fetching { target } => match e {
                Event::OriginResponded { success, content_type, content_disposition } => {
                    if !success {
                        let unlock = unlock_of(key.as_str(), &target);
                        fail(ProxyError::UpstreamNon2xx, unlock)
                    } else {
                        let observed = match &content_type {
                            Some(c) => Some(c.as_str()),
                            None => None,
                        };
                        match check_content_type(target.record.content_type.as_str(), observed) {
                            Ok(()) => {
                                let disposition = if target.role == Role::Primary {
                                    content_disposition
                                } else {
                                    None
                                };
                                let keep_as = if target.role == Role::Thumbnail {
                                    Some(source_file_name(target.hash))
                                } else {
                                    None
                                };
                                (State::Downloading { target, disposition }, Action::Download { keep_as })
                            },
                            Err(_) => {
                                let unlock = unlock_of(key.as_str(), &target);
                                fail(ProxyError::ContentTypeMismatch, unlock)
                            },
                        }
                    }
                },
                _ => {
                    let unlock = unlock_of(key.as_str(), &target);
                    fail(ProxyError::OriginUnreachable, unlock)
                },
            },
            State::Downloading { target, disposition } => match e {
                Event::BodyStored(true) => {
                    if target.role == Role::Thumbnail {
                        transcode(target)
                    } else {
                        let content_type = target.record.content_type.clone();
                        persist(target, content_type.as_str(), disposition, None)
                    }
                },
                _ => {
                    let unlock = unlock_of(key.as_str(), &target);
                    fail(ProxyError::OriginUnreachable, unlock)
                },
            },
            State::Transcoding { target, profile } => match e {
                Event::TranscodeFinished(true) => {
                    let source = source_file_name(target.hash);
                    persist(target, output_type(profile), None, Some(source))
                },
                _ => {
                    let unlock = unlock_of(key.as_str(), &target);
                    fail(ProxyError::TranscodeFailed, unlock)
                },
            },
            State::Persisting { target, data_name, disposition } => match e {
                Event::EntryPersisted(true) => {
                    let content_type = served_type(&target);
                    let unlock = unlock_of(key.as_str(), &target);
                    (
                        State::Finished,
                        Action::Serve { name: data_name, content_type, disposition, unlock },
                    )
                },
                _ => {
                    let unlock = unlock_of(key.as_str(), &target);
                    fail(ProxyError::CacheWriteFailed, unlock)
                },
            },
            State::Finished => fail(ProxyError::NotFound, None),
        };
        (Request { key, state }, action)
    }
}

/// Once a miss for `key` has stored its artifact, of type `content_type`,
/// and been served, a later request for the same key whose store answer
/// resolves to the same record, and that finds that sidecar and data file,
/// takes no lock and goes to no origin and no transcoder: it serves the very
/// file, with the same content type, that the first request served.
pub proof fn law_second_request_hits(
    key: Seq<char>,
    rec: OriginRecord,
    role: Role,
    content_type: Seq<char>,
    disposition: Option<String>,
    discard: Option<Seq<char>>,
    persisting: State,
    persist_action: ActionView,
    first_end: StateView,
    first_serve: ActionView,
    recs: Vec<OriginRecord>,
    text: String,
    resolved: State,
    resolve_action: ActionView,
    checking: State,
    check_action: ActionView,
    second_end: StateView,
    second_serve: ActionView,
)
    requires
        role_for(key, rec) == Some(role),
        sole_match_spec(key, recs@) == Some(rec),
        persists(
            Target { locked: true, ..target_for(key, rec, role) },
            content_type,
            disposition,
            discard,
            persisting@,
            persist_action,
        ),
        step_spec(key, persisting, Event::EntryPersisted(true), first_end, first_serve),
        persist_action matches ActionView::Persist { sidecar_text, .. } && text@ == sidecar_text,
        step_spec(key, State::Resolving, Event::StoreAnswered(recs), resolved@, resolve_action),
        step_spec(key, resolved, Event::SidecarRead(Some(text)), checking@, check_action),
        step_spec(key, checking, Event::DataChecked(true), second_end, second_serve),
    ensures
        persist_action matches ActionView::Persist { data_name, .. } && check_action == (
        ActionView::CheckData { name: data_name }),
        second_end == StateView::Finished,
        first_serve is Serve,
        second_serve is Serve,
        second_serve->Serve_name == first_serve->Serve_name,
        second_serve->Serve_content_type == first_serve->Serve_content_type,
        second_serve->Serve_unlock is None,
{
    let t = target_for(key, rec, role);
    crate::cache::law_sidecar_round_trip(t.hash, mime_extensions_of(content_type));
    assert(resolved == State::ReadingSidecar { target: t });
}

/// Where a request works on the cache key (looks for a kept source, fetches,
/// downloads, transcodes or persists) it holds the key's lock.
pub open spec fn works_under_lock(s: StateView) -> bool {
    match s {
        StateView::CheckingSource { target } => target.locked,
        StateView::Fetching { target } => target.locked,
        StateView::Downloading { target, .. } => target.locked,
        StateView::Transcoding { target, .. } => target.locked,
        StateView::Persisting { target, .. } => target.locked,
        _ => true,
    }
}

/// Every step from a state where work happens only under the lock leads to
/// another such state. A new request starts in one, so no request fetches,
/// transcodes or stores an entry without holding the lock of its cache key;
/// with the lock registry's single leader, one cold key is fetched and
/// transcoded once however many requests ask for it.
pub proof fn law_work_only_under_lock(key: Seq<char>, s: State, e: Event, s2: StateView, a: ActionView)
    requires
        works_under_lock(s@),
        step_spec(key, s, e, s2, a),
    ensures
        works_under_lock(s2),
        a is Fetch || a is Download || a is Transcode || a is Persist || a is CheckSource ==> s2
            is Fetching || s2 is Downloading || s2 is Transcoding || s2 is Persisting
            || s2 is CheckingSource,
{
}

} // verus!

use sermcs::coordinator::{Action, Event, Request};
use sermcs::error::ProxyError;
use sermcs::profile::{transcoder_args, Profile};
use sermcs::resolve::OriginRecord;
use xxhash_rust::xxh3::xxh3_64;

fn some(s: &str) -> Option<String> {
    Some(s.to_string())
}

fn record(url: &str, content_type: &str, key: &str, thumb: &str, public: Option<&str>) -> OriginRecord {
    OriginRecord {
        url: url.to_string(),
        content_type: content_type.to_string(),
        access_key: some(key),
        thumbnail_access_key: some(thumb),
        webpublic_access_key: public.map(|p| p.to_string()),
    }
}

fn drive(req: Request, e: Event) -> (Request, Action) {
    assert!(req.accepts(&e), "event not expected: {:?} in {:?}", e, req.state);
    req.step(e)
}

fn responded(content_type: Option<&str>) -> Event {
    Event::OriginResponded {
        success: true,
        content_type: content_type.map(|c| c.to_string()),
        content_disposition: None,
    }
}

fn png_record() -> OriginRecord {
    record("http://origin/1.png", "image/png", "abc", "abc-thumb", Some("abc-public"))
}

/// Resolves `key` against `rec`, misses the cache, takes the lock and misses
/// again; returns the request and the action that follows.
fn cold_miss(key: &str, rec: OriginRecord, cache_key: &str) -> (Request, Action) {
    let h = xxh3_64(cache_key.as_bytes());
    let (req, _) = Request::start(key.to_string());
    let (req, a) = drive(req, Event::StoreAnswered(vec![rec]));
    assert_eq!(a, Action::ReadSidecar { name: format!("ext-{}", h) });
    let (req, a) = drive(req, Event::SidecarRead(None));
    assert_eq!(a, Action::Lock { cache_key: cache_key.to_string() });
    let (req, a) = drive(req, Event::Locked);
    assert_eq!(a, Action::ReadSidecar { name: format!("ext-{}", h) });
    drive(req, Event::SidecarRead(None))
}

#[test]
fn primary_key_first_request_fetches_and_caches() {
    let h = xxh3_64(b"abc");
    let (req, a) = Request::start("abc".to_string());
    assert_eq!(a, Action::QueryStore { key: "abc".to_string() });
    let (req, a) = drive(req, Event::StoreAnswered(vec![png_record()]));
    assert_eq!(a, Action::ReadSidecar { name: format!("ext-{}", h) });
    let (req, a) = drive(req, Event::SidecarRead(None));
    assert_eq!(a, Action::Lock { cache_key: "abc".to_string() });
    let (req, _) = drive(req, Event::Locked);
    let (req, a) = drive(req, Event::SidecarRead(None));
    assert_eq!(a, Action::Fetch { url: "http://origin/1.png".to_string() });
    let (req, a) = drive(req, responded(Some("image/png")));
    assert_eq!(a, Action::Download { keep_as: None });
    let (req, a) = drive(req, Event::BodyStored(true));
    assert_eq!(
        a,
        Action::Persist {
            data_name: format!("{}.png", h),
            sidecar_name: format!("ext-{}", h),
            sidecar_text: "png".to_string(),
            discard: None,
        }
    );
    let (req, a) = drive(req, Event::EntryPersisted(true));
    assert_eq!(
        a,
        Action::Serve {
            name: format!("{}.png", h),
            content_type: "image/png".to_string(),
            disposition: None,
            unlock: some("abc"),
        }
    );
    assert!(req.is_finished());
}

#[test]
fn primary_key_second_request_is_served_from_cache() {
    let h = xxh3_64(b"abc");
    let (req, _) = Request::start("abc".to_string());
    let (req, _) = drive(req, Event::StoreAnswered(vec![png_record()]));
    let (req, a) = drive(req, Event::SidecarRead(Some("png".to_string())));
    assert_eq!(a, Action::CheckData { name: format!("{}.png", h) });
    let (req, a) = drive(req, Event::DataChecked(true));
    assert_eq!(
        a,
        Action::Serve {
            name: format!("{}.png", h),
            content_type: "image/png".to_string(),
            disposition: None,
            unlock: None,
        }
    );
    assert!(req.is_finished());
}

#[test]
fn entry_stored_while_waiting_for_the_lock_is_served() {
    let h = xxh3_64(b"abc");
    let (req, _) = Request::start("abc".to_string());
    let (req, _) = drive(req, Event::StoreAnswered(vec![png_record()]));
    let (req, _) = drive(req, Event::SidecarRead(None));
    let (req, _) = drive(req, Event::Locked);
    let (req, _) = drive(req, Event::SidecarRead(Some("png".to_string())));
    let (_, a) = drive(req, Event::DataChecked(true));
    assert_eq!(
        a,
        Action::Serve {
            name: format!("{}.png", h),
            content_type: "image/png".to_string(),
            disposition: None,
            unlock: some("abc"),
        }
    );
}

#[test]
fn sidecar_without_data_file_is_a_miss() {
    let (req, _) = Request::start("abc".to_string());
    let (req, _) = drive(req, Event::StoreAnswered(vec![png_record()]));
    let (req, _) = drive(req, Event::SidecarRead(Some("png".to_string())));
    let (req, a) = drive(req, Event::DataChecked(false));
    assert_eq!(a, Action::Lock { cache_key: "abc".to_string() });
    let (req, _) = drive(req, Event::Locked);
    let (req, _) = drive(req, Event::SidecarRead(Some("png".to_string())));
    let (_, a) = drive(req, Event::DataChecked(false));
    assert_eq!(a, Action::Fetch { url: "http://origin/1.png".to_string() });
}

#[test]
fn sidecar_sentinel_names_file_without_suffix() {
    let h = xxh3_64(b"abc");
    let (req, _) = Request::start("abc".to_string());
    let (req, _) = drive(req, Event::StoreAnswered(vec![png_record()]));
    let (_, a) = drive(req, Event::SidecarRead(Some("none".to_string())));
    assert_eq!(a, Action::CheckData { name: format!("{}", h) });
}

#[test]
fn video_thumbnail_is_one_avif_frame() {
    let h = xxh3_64(b"thumb1-thumbnail");
    let rec = record("http://origin/2.mp4", "video/mp4", "orig1", "thumb1", None);
    let (req, a) = cold_miss("thumb1", rec, "thumb1-thumbnail");
    assert_eq!(a, Action::CheckSource { name: format!("src-{}", h) });
    let (req, a) = drive(req, Event::SourceChecked(false));
    assert_eq!(a, Action::Fetch { url: "http://origin/2.mp4".to_string() });
    let (req, a) = drive(req, responded(Some("video/mp4")));
    assert_eq!(a, Action::Download { keep_as: Some(format!("src-{}", h)) });
    let (req, a) = drive(req, Event::BodyStored(true));
    assert_eq!(a, Action::Transcode { profile: Profile::Video, source: format!("src-{}", h) });
    let args = transcoder_args("/tmp/in", "/cache/out", Profile::Video);
    assert!(args.windows(2).any(|w| w[0] == "-vframes" && w[1] == "1"));
    assert!(args.windows(2).any(|w| w[0] == "-f" && w[1] == "avif"));
    let vf = args.iter().position(|a| a == "-vf").unwrap();
    assert!(args[vf + 1].contains("min(498\\,iw)"));
    assert!(args[vf + 1].contains("min(422\\,ih)"));
    assert!(args[vf + 1].contains("force_original_aspect_ratio=decrease"));
    let (req, a) = drive(req, Event::TranscodeFinished(true));
    assert_eq!(
        a,
        Action::Persist {
            data_name: format!("{}.avif", h),
            sidecar_name: format!("ext-{}", h),
            sidecar_text: "avif".to_string(),
            discard: Some(format!("src-{}", h)),
        }
    );
    let (req, a) = drive(req, Event::EntryPersisted(true));
    assert_eq!(
        a,
        Action::Serve {
            name: format!("{}.avif", h),
            content_type: "image/avif".to_string(),
            disposition: None,
            unlock: some("thumb1-thumbnail"),
        }
    );
    assert!(req.is_finished());
}

#[test]
fn failed_transcode_keeps_source_and_retry_skips_the_origin() {
    let h = xxh3_64(b"t2-thumbnail");
    let rec = record("http://origin/3.gif", "image/gif", "o2", "t2", None);
    let (req, _) = cold_miss("t2", rec.clone(), "t2-thumbnail");
    let (req, _) = drive(req, Event::SourceChecked(false));
    let (req, _) = drive(req, responded(None));
    let (req, _) = drive(req, Event::BodyStored(true));
    let (_, a) = drive(req, Event::TranscodeFinished(false));
    assert_eq!(
        a,
        Action::Fail { error: ProxyError::TranscodeFailed, unlock: some("t2-thumbnail") }
    );
    let (req, a) = cold_miss("t2", rec, "t2-thumbnail");
    assert_eq!(a, Action::CheckSource { name: format!("src-{}", h) });
    let (req, a) = drive(req, Event::SourceChecked(true));
    assert_eq!(
        a,
        Action::Transcode { profile: Profile::AnimatedImage, source: format!("src-{}", h) }
    );
    let (req, a) = drive(req, Event::TranscodeFinished(true));
    assert_eq!(
        a,
        Action::Persist {
            data_name: format!("{}.webp", h),
            sidecar_name: format!("ext-{}", h),
            sidecar_text: "webp".to_string(),
            discard: Some(format!("src-{}", h)),
        }
    );
    let (_, a) = drive(req, Event::EntryPersisted(true));
    assert_eq!(
        a,
        Action::Serve {
            name: format!("{}.webp", h),
            content_type: "image/webp".to_string(),
            disposition: None,
            unlock: some("t2-thumbnail"),
        }
    );
}

#[test]
fn public_key_caches_raw_artifact_under_its_own_hash() {
    let h = xxh3_64(b"abc-public");
    let (req, a) = cold_miss("abc-public", png_record(), "abc-public");
    assert_eq!(a, Action::Fetch { url: "http://origin/1.png".to_string() });
    let (req, a) = drive(req, responded(Some("image/png")));
    assert_eq!(a, Action::Download { keep_as: None });
    let (_, a) = drive(req, Event::BodyStored(true));
    assert_eq!(
        a,
        Action::Persist {
            data_name: format!("{}.png", h),
            sidecar_name: format!("ext-{}", h),
            sidecar_text: "png".to_string(),
            discard: None,
        }
    );
}

#[test]
fn jpeg_record_served_as_png_is_refused_before_download() {
    let rec = record("http://origin/4.jpg", "image/jpeg", "j", "jt", None);
    let (req, _) = cold_miss("j", rec, "j");
    let (req, a) = drive(req, responded(Some("image/png")));
    assert_eq!(a, Action::Fail { error: ProxyError::ContentTypeMismatch, unlock: some("j") });
    assert!(req.is_finished());
    assert!(!req.accepts(&Event::BodyStored(true)));
}

#[test]
fn apng_record_served_as_png_is_accepted() {
    let rec = record("http://origin/5.png", "image/apng", "ap", "apt", None);
    let (req, _) = cold_miss("ap", rec, "ap");
    let (_, a) = drive(req, responded(Some("image/png")));
    assert_eq!(a, Action::Download { keep_as: None });
}

#[test]
fn store_failures_end_the_request() {
    let (req, _) = Request::start("x".to_string());
    let (req, a) = drive(req, Event::StoreFailed);
    assert_eq!(a, Action::Fail { error: ProxyError::StoreUnavailable, unlock: None });
    assert!(req.is_finished());
    let (req, _) = Request::start("x".to_string());
    let (_, a) = drive(req, Event::StoreAnswered(vec![]));
    assert_eq!(a, Action::Fail { error: ProxyError::NotFound, unlock: None });
}

#[test]
fn several_matching_records_do_not_resolve() {
    let other = record("http://origin/9.png", "image/png", "zzz", "abc", None);
    let (req, _) = Request::start("abc".to_string());
    let (_, a) = drive(req, Event::StoreAnswered(vec![png_record(), other]));
    assert_eq!(a, Action::Fail { error: ProxyError::NotFound, unlock: None });
}

#[test]
fn only_the_record_naming_a_role_counts() {
    let h = xxh3_64(b"abc");
    let unrelated = record("http://origin/9.png", "image/png", "zzz", "yyy", None);
    let (req, _) = Request::start("abc".to_string());
    let (_, a) = drive(req, Event::StoreAnswered(vec![unrelated, png_record()]));
    assert_eq!(a, Action::ReadSidecar { name: format!("ext-{}", h) });
}

#[test]
fn key_naming_no_role_is_not_found() {
    let (req, _) = Request::start("stranger".to_string());
    let (_, a) = drive(req, Event::StoreAnswered(vec![png_record()]));
    assert_eq!(a, Action::Fail { error: ProxyError::NotFound, unlock: None });
}

#[test]
fn origin_failures_are_reported() {
    let start = || cold_miss("abc", png_record(), "abc").0;
    let (_, a) = drive(start(), Event::OriginFailed);
    assert_eq!(a, Action::Fail { error: ProxyError::OriginUnreachable, unlock: some("abc") });
    let (_, a) = drive(
        start(),
        Event::OriginResponded {
            success: false,
            content_type: some("image/png"),
            content_disposition: None,
        },
    );
    assert_eq!(a, Action::Fail { error: ProxyError::UpstreamNon2xx, unlock: some("abc") });
    let (req, _) = drive(start(), responded(None));
    let (_, a) = drive(req, Event::BodyStored(false));
    assert_eq!(a, Action::Fail { error: ProxyError::OriginUnreachable, unlock: some("abc") });
    let (req, _) = drive(start(), responded(None));
    let (req, _) = drive(req, Event::BodyStored(true));
    let (_, a) = drive(req, Event::EntryPersisted(false));
    assert_eq!(a, Action::Fail { error: ProxyError::CacheWriteFailed, unlock: some("abc") });
}

#[test]
fn transcoder_failure_is_a_server_error() {
    let rec = record("http://origin/6.png", "image/png", "p", "pt", None);
    let (req, _) = cold_miss("pt", rec, "pt-thumbnail");
    let (req, _) = drive(req, Event::SourceChecked(false));
    let (req, _) = drive(req, responded(None));
    let (req, a) = drive(req, Event::BodyStored(true));
    assert!(matches!(a, Action::Transcode { profile: Profile::StaticImage, .. }));
    let (_, a) = drive(req, Event::TranscodeFinished(false));
    assert!(matches!(a, Action::Fail { error: ProxyError::TranscodeFailed, .. }));
    assert_eq!(ProxyError::TranscodeFailed.status_code(), 500);
}

#[test]
fn primary_miss_forwards_content_disposition() {
    let h = xxh3_64(b"abc");
    let disposition = "attachment; filename=\"1.png\"".to_string();
    let (req, _) = cold_miss("abc", png_record(), "abc");
    let (req, _) = drive(
        req,
        Event::OriginResponded {
            success: true,
            content_type: some("image/png"),
            content_disposition: Some(disposition.clone()),
        },
    );
    let (req, _) = drive(req, Event::BodyStored(true));
    let (_, a) = drive(req, Event::EntryPersisted(true));
    assert_eq!(
        a,
        Action::Serve {
            name: format!("{}.png", h),
            content_type: "image/png".to_string(),
            disposition: Some(disposition),
            unlock: some("abc"),
        }
    );
}

#[test]
fn public_miss_drops_content_disposition() {
    let (req, _) = cold_miss("abc-public", png_record(), "abc-public");
    let (req, _) = drive(
        req,
        Event::OriginResponded {
            success: true,
            content_type: some("image/png"),
            content_disposition: some("inline"),
        },
    );
    let (req, _) = drive(req, Event::BodyStored(true));
    let (_, a) = drive(req, Event::EntryPersisted(true));
    match a {
        Action::Serve { disposition, .. } => assert_eq!(disposition, None),
        other => panic!("unexpected action {:?}", other),
    }
}

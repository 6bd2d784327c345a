//! Transcode profiles: which rendition a content type gets, and the
//! command line that asks the transcoder for it.

use vstd::prelude::*;
use vstd::string::*;
use crate::text::{has_prefix, starts_with, str_eq};

verus! {

/// The transcoder program.
pub const TRANSCODER_PROGRAM: &'static str = "ffmpeg";

/// A parameter set for the transcoder.
#[derive(Clone, Copy, Debug, PartialEq, Eq, Structural)]
pub enum Profile {
    /// One frame of a video, fit into 498x422, as AVIF.
    Video,
    /// An animation fit into 374x317 with its looping kept, as WebP.
    AnimatedImage,
    /// A still image fit into 498x422, as AVIF.
    StaticImage,
    /// A full rendition capped at 2048x2048, as WebP.
    WebPublic,
}

/// The thumbnail profile for a stored content type: videos first, then the
/// animated image types, then everything else as a still image.
pub open spec fn profile_for(content_type: Seq<char>) -> Profile {
    if has_prefix(content_type, "video/"@) {
        Profile::Video
    } else if content_type == "image/apng"@ || content_type == "image/gif"@ {
        Profile::AnimatedImage
    } else {
        Profile::StaticImage
    }
}

/// The thumbnail profile for a stored content type.
pub fn classify_profile(content_type: &str) -> (p: Profile)
    ensures
        p == profile_for(content_type@),
{
    if starts_with(content_type, "video/") {
        Profile::Video
    } else if str_eq(content_type, "image/apng") || str_eq(content_type, "image/gif") {
        Profile::AnimatedImage
    } else {
        Profile::StaticImage
    }
}

/// The container format the transcoder writes for a profile.
pub open spec fn format_spec(p: Profile) -> Seq<char> {
    match p {
        Profile::Video | Profile::StaticImage => "avif"@,
        Profile::AnimatedImage | Profile::WebPublic => "webp"@,
    }
}

/// The content type of what a profile produces.
pub open spec fn output_type_spec(p: Profile) -> Seq<char> {
    match p {
        Profile::Video | Profile::StaticImage => "image/avif"@,
        Profile::AnimatedImage | Profile::WebPublic => "image/webp"@,
    }
}

/// The filter graph of a profile: shrink, never enlarge, to fit within the
/// bounding box keeping the aspect ratio, after picking a single frame for
/// videos.
pub open spec fn filter_spec(p: Profile) -> Seq<char> {
    match p {
        Profile::Video => "select=eq(n\\,34),scale=w=min(498\\,iw):h=min(422\\,ih):force_original_aspect_ratio=decrease,format=rgba"@,
        Profile::AnimatedImage => "scale=w=min(374\\,iw):h=min(317\\,ih):force_original_aspect_ratio=decrease,format=rgba"@,
        Profile::StaticImage => "scale=w=min(498\\,iw):h=min(422\\,ih):force_original_aspect_ratio=decrease,format=rgba"@,
        Profile::WebPublic => "scale=w=min(2048\\,iw):h=min(2048\\,ih):force_original_aspect_ratio=decrease,format=rgba"@,
    }
}

/// Arguments a profile adds after the filter graph: a single frame for
/// videos, endless looping for animations.
pub open spec fn extra_args_spec(p: Profile) -> Seq<Seq<char>> {
    match p {
        Profile::Video => seq!["-vframes"@, "1"@],
        Profile::AnimatedImage => seq!["-loop"@, "0"@],
        Profile::StaticImage | Profile::WebPublic => seq![],
    }
}

/// The transcoder's arguments that turn `input` into `output` under `p`.
pub open spec fn args_spec(input: Seq<char>, output: Seq<char>, p: Profile) -> Seq<Seq<char>> {
    seq!["-y"@, "-i"@, input, "-f"@, format_spec(p), "-vf"@, filter_spec(p)] + extra_args_spec(p)
        + seq![output]
}

/// The views of a sequence of strings.
pub open spec fn views(v: Seq<String>) -> Seq<Seq<char>> {
    v.map_values(|s: String| s@)
}

/// The content type of what a profile produces.
pub fn output_type(p: Profile) -> (r: &'static str)
    ensures
        r@ == output_type_spec(p),
{
    match p {
        Profile::Video | Profile::StaticImage => "image/avif",
        Profile::AnimatedImage | Profile::WebPublic => "image/webp",
    }
}

/// The container format the transcoder writes for a profile.
pub fn output_format(p: Profile) -> (r: &'static str)
    ensures
        r@ == format_spec(p),
{
    match p {
        Profile::Video | Profile::StaticImage => "avif",
        Profile::AnimatedImage | Profile::WebPublic => "webp",
    }
}

/// The filter graph of a profile.
pub fn filter_graph(p: Profile) -> (r: &'static str)
    ensures
        r@ == filter_spec(p),
{
    match p {
        Profile::Video => "select=eq(n\\,34),scale=w=min(498\\,iw):h=min(422\\,ih):force_original_aspect_ratio=decrease,format=rgba",
        Profile::AnimatedImage => "scale=w=min(374\\,iw):h=min(317\\,ih):force_original_aspect_ratio=decrease,format=rgba",
        Profile::StaticImage => "scale=w=min(498\\,iw):h=min(422\\,ih):force_original_aspect_ratio=decrease,format=rgba",
        Profile::WebPublic => "scale=w=min(2048\\,iw):h=min(2048\\,ih):force_original_aspect_ratio=decrease,format=rgba",
    }
}

fn push_str(v: &mut Vec<String>, s: &str)
    ensures
        views(final(v)@) == views(old(v)@).push(s@),
{
    v.push(String::from_str(s));
    assert(views(v@) =~= views(old(v)@).push(s@));
}

/// The transcoder's arguments that turn the file `input` into the file
/// `output` under profile `p`.
pub fn transcoder_args(input: &str, output: &str, p: Profile) -> (r: Vec<String>)
    ensures
        views(r@) == args_spec(input@, output@, p),
{
    let mut v: Vec<String> = Vec::new();
    assert(views(v@) =~= seq![]);
    push_str(&mut v, "-y");
    push_str(&mut v, "-i");
    push_str(&mut v, input);
    push_str(&mut v, "-f");
    push_str(&mut v, output_format(p));
    push_str(&mut v, "-vf");
    push_str(&mut v, filter_graph(p));
    match p {
        Profile::Video => {
            push_str(&mut v, "-vframes");
            push_str(&mut v, "1");
        },
        Profile::AnimatedImage => {
            push_str(&mut v, "-loop");
            push_str(&mut v, "0");
        },
        Profile::StaticImage | Profile::WebPublic => {},
    }
    push_str(&mut v, output);
    assert(views(v@) =~= args_spec(input@, output@, p));
    v
}

} // verus!

//! The media resolver (`rusty_ytdl`), as far as this library calls it.
//! Nothing here is proved; each item says what is assumed of the outside code.

use rusty_ytdl::{Video, VideoError};
use vstd::prelude::*;

verus! {

#[verifier::external_type_specification]
#[verifier::external_body]
pub struct ExVideo(rusty_ytdl::Video);

#[verifier::external_type_specification]
#[verifier::external_body]
pub struct ExVideoError(rusty_ytdl::VideoError);

/// The video id that the resolver finds in a locator, if it finds one: what
/// `rusty_ytdl::get_video_id` returns, which `Video::new` calls first.
pub uninterp spec fn locator_video_id(locator: Seq<char>) -> Option<Seq<char>>;

/// The video id that a handle holds.
pub uninterp spec fn handle_video_id(video: Video) -> Seq<char>;

/// Calls `rusty_ytdl::Video::new`. It looks for a video id in the locator and
/// fails if there is none; it then builds an HTTP client and fails if that
/// cannot be built, which depends on the machine. It sends nothing. Assumed,
/// not proved: a locator without an id gives an error, and a handle that
/// comes back holds the id found in the locator. When a locator with an id
/// gives a handle is not stated, because of the client.
#[verifier::external_body]
pub(crate) fn resolve_locator(locator: &str) -> (resolved: Result<Video, VideoError>)
    ensures
        locator_video_id(locator@) is None ==> resolved is Err,
        resolved matches Ok(video) ==> locator_video_id(locator@) == Some(handle_video_id(video)),
{
    Video::new(locator)
}

/// Formats a resolver error with `{:?}`, through the `Debug` that
/// `VideoError` derives. The text of some errors holds what their sources
/// print of themselves, a backtrace among it, so nothing is assumed of it.
#[verifier::external_body]
pub(crate) fn describe_resolver_error(error: &VideoError) -> (text: String) {
    format!("{:?}", error)
}

} // verus!

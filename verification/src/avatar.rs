//! Avatar input handling: base64 decoding of the optional payload and
//! validation of the decoded bytes, applied strictly after the
//! authorization gate.

use vstd::prelude::*;

use crate::errors::{ApiError, InvalidCause};
use crate::types::{is_jpeg, JpegPhoto};

verus! {

/// What base64 decoding of a character sequence yields, left abstract:
/// `None` where the input is not well-formed base64, otherwise the decoded
/// bytes; the outcome depends on the input characters alone.
pub uninterp spec fn base64_decoded(s: Seq<char>) -> Option<Seq<u8>>;

/// Relies on `base64::decode` from the base64 crate: decodes the standard
/// alphabet with padding, a pure function of the input characters.
#[verifier::external_body]
fn decode_base64(s: &str) -> (r: Option<Vec<u8>>)
    ensures
        match r {
            Some(v) => base64_decoded(s@) == Some(v@),
            None => base64_decoded(s@) is None,
        },
{
    base64::decode(s).ok()
}

/// Outcome of checking an optional encoded avatar.
pub enum AvatarOutcome {
    /// The payload was absent, or decoded to a well-formed avatar.
    Accepted(Option<Seq<u8>>),
    /// The payload was not valid base64.
    BadBase64,
    /// The payload decoded, but not to a well-formed avatar.
    NotJpeg,
}

/// The avatar validation rule: an absent payload is accepted as absent; a
/// present payload must decode as base64 and the decoded bytes must form a
/// well-formed avatar.
pub open spec fn check_avatar(avatar: Option<Seq<char>>) -> AvatarOutcome {
    match avatar {
        None => AvatarOutcome::Accepted(None),
        Some(s) => match base64_decoded(s) {
            None => AvatarOutcome::BadBase64,
            Some(bytes) => if is_jpeg(bytes) {
                AvatarOutcome::Accepted(Some(bytes))
            } else {
                AvatarOutcome::NotJpeg
            },
        },
    }
}

/// Decodes and validates an optional base64-encoded avatar.  The two
/// failure causes are distinct but surface as the same error kind.
pub fn decode_avatar(avatar: &Option<String>) -> (r: Result<Option<JpegPhoto>, ApiError>)
    ensures
        match check_avatar(crate::types::opt_str_view(*avatar)) {
            AvatarOutcome::Accepted(bytes) => match r {
                Ok(p) => crate::types::opt_photo_view(p) == bytes,
                Err(_) => false,
            },
            AvatarOutcome::BadBase64 => r == Err::<Option<JpegPhoto>, ApiError>(
                ApiError::InvalidInput(InvalidCause::BadBase64),
            ),
            AvatarOutcome::NotJpeg => r == Err::<Option<JpegPhoto>, ApiError>(
                ApiError::InvalidInput(InvalidCause::NotJpeg),
            ),
        },
{
    match avatar {
        None => Ok(None),
        Some(s) => match decode_base64(s.as_str()) {
            None => Err(ApiError::InvalidInput(InvalidCause::BadBase64)),
            Some(bytes) => match JpegPhoto::from_bytes(bytes) {
                Some(photo) => Ok(Some(photo)),
                None => Err(ApiError::InvalidInput(InvalidCause::NotJpeg)),
            },
        },
    }
}

} // verus!

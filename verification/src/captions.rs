//! The rules that a caption request has to meet before anything is drawn.

use crate::media_helpers::{MediaError, MediaType};
use vstd::prelude::*;
use vstd::string::StringSliceAdditionalSpecFns;

verus! {

/// Longest caption that is drawn, in bytes.
pub const MAX_LEN: usize = 500;

/// Which of the two pictures goes on top when caption and media are stacked.
#[derive(Debug, PartialEq, Eq, Clone, Copy, Structural)]
pub enum StackOrder {
    /// The caption above the media.
    CaptionFirst,
    /// The media above the caption.
    MediaFirst,
}

/// Checks a request to caption media of kind `media_type` with `input_text`
/// and says in which order caption and media are stacked: the caption on
/// top, unless it is asked for at the `bottom`. Sound is refused first, a
/// text that is too long second.
pub fn caption_media(input_text: &str, media_type: MediaType, bottom: bool) -> (plan: Result<
    StackOrder,
    MediaError,
>)
    ensures
        match plan {
            Ok(order) => {
                &&& media_type != MediaType::Audio
                &&& input_text.spec_bytes().len() <= MAX_LEN
                &&& order == if bottom {
                    StackOrder::MediaFirst
                } else {
                    StackOrder::CaptionFirst
                }
            },
            Err(why) => if media_type == MediaType::Audio {
                why == MediaError::CaptionAudio
            } else {
                input_text.spec_bytes().len() > MAX_LEN && why == MediaError::CaptionTooLong
            },
        },
{
    if media_type == MediaType::Audio {
        return Err(MediaError::CaptionAudio);
    }
    if input_text.as_bytes().len() > MAX_LEN {
        return Err(MediaError::CaptionTooLong);
    }
    if bottom {
        Ok(StackOrder::MediaFirst)
    } else {
        Ok(StackOrder::CaptionFirst)
    }
}

} // verus!

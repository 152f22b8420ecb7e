//! Kinds of media and the small rules that the transforms share.

use crate::text::{
    after_last, before_first, decimal, find_first, find_last, lemma_first_cut, lemma_last_cut,
    push_decimal, same_text,
};
use rand::Rng;
use vstd::prelude::*;
use vstd::string::{StrSliceExecFns, StringExecFns};

verus! {

/// What a piece of media is, as far as the transforms care.
#[derive(Debug, PartialEq, Eq, Clone, Copy, Structural)]
pub enum MediaType {
    Video,
    Gif,
    Image,
    Audio,
    Unknown,
}

/// Why a transform was not carried out.
#[derive(Debug, PartialEq, Eq, Clone, Copy, Structural)]
pub enum MediaError {
    /// Sound has no picture to put a caption on.
    CaptionAudio,
    /// The caption is longer than the caption limit.
    CaptionTooLong,
    /// Sound has no picture to resize.
    ResizeAudio,
    /// A side is longer than `MAX_SIZE`, or the width is under `MIN_SIZE`.
    InvalidDimensions,
    /// Sound has no picture to rotate.
    RotateAudio,
}

impl MediaError {
    /// The text that tells the requester what went wrong.
    pub open spec fn text(self) -> Seq<char> {
        match self {
            MediaError::CaptionAudio => "Cannot caption a audio file."@,
            MediaError::CaptionTooLong => "Caption cannot be longer than 500 characters."@,
            MediaError::ResizeAudio => "Cannot resize a audio file."@,
            MediaError::InvalidDimensions => "Invalid media dimensions!"@,
            MediaError::RotateAudio => "Cannot rotate a audio file."@,
        }
    }

    /// The text that tells the requester what went wrong.
    pub fn message(self) -> (text: &'static str)
        ensures
            text@ == self.text(),
    {
        match self {
            MediaError::CaptionAudio => "Cannot caption a audio file.",
            MediaError::CaptionTooLong => "Caption cannot be longer than 500 characters.",
            MediaError::ResizeAudio => "Cannot resize a audio file.",
            MediaError::InvalidDimensions => "Invalid media dimensions!",
            MediaError::RotateAudio => "Cannot rotate a audio file.",
        }
    }
}

/// The kind that a content type names. The word in front of the first `/`
/// decides between video, audio and image; an image whose last word is `gif`
/// is a gif. An empty name and every other first word name nothing usable.
pub open spec fn media_type_of(name: Seq<char>) -> Option<MediaType> {
    let family = before_first(name, '/');
    if name.len() == 0 {
        None
    } else if family == "video"@ {
        Some(MediaType::Video)
    } else if family == "audio"@ {
        Some(MediaType::Audio)
    } else if family == "image"@ {
        if after_last(name, '/') == "gif"@ {
            Some(MediaType::Gif)
        } else {
            Some(MediaType::Image)
        }
    } else {
        None
    }
}

impl MediaType {
    /// Reads the kind of media off a content type such as `image/png`.
    pub fn from(thingie: String) -> (kind: Option<MediaType>)
        ensures
            kind == media_type_of(thingie@),
    {
        let name = thingie.as_str();
        if name.is_empty() {
            return None;
        }
        let cut = find_first(name, '/');
        let family = name.substring_char(0, cut);
        proof {
            lemma_first_cut(name@, '/', cut as int);
        }
        if same_text(family, "video") {
            Some(MediaType::Video)
        } else if same_text(family, "audio") {
            Some(MediaType::Audio)
        } else if same_text(family, "image") {
            let start = find_last(name, '/');
            let n = name.unicode_len();
            let last = name.substring_char(start, n);
            proof {
                lemma_last_cut(name@, '/', start as int);
            }
            if same_text(last, "gif") {
                Some(MediaType::Gif)
            } else {
                Some(MediaType::Image)
            }
        } else {
            None
        }
    }
}

/// A turn or a flip of the picture.
#[derive(Debug, PartialEq, Eq, Clone, Copy, Structural)]
pub enum Rotation {
    /// A quarter turn clockwise.
    Cw,
    /// A quarter turn counter-clockwise.
    Ccw,
    /// A half turn.
    Half,
    /// Mirrored top to bottom.
    FlipV,
    /// Mirrored left to right.
    FlipH,
}

impl Rotation {
    /// The video filter that performs this rotation.
    pub open spec fn command(self) -> Seq<char> {
        match self {
            Rotation::Cw => "transpose=1"@,
            Rotation::Ccw => "transpose=0"@,
            Rotation::Half => "hflip, vflip"@,
            Rotation::FlipV => "vflip"@,
            Rotation::FlipH => "hflip"@,
        }
    }

    /// The video filter that performs this rotation.
    pub fn to_command(self) -> (filter: &'static str)
        ensures
            filter@ == self.command(),
    {
        match self {
            Rotation::Cw => "transpose=1",
            Rotation::Ccw => "transpose=0",
            Rotation::Half => "hflip, vflip",
            Rotation::FlipV => "vflip",
            Rotation::FlipH => "hflip",
        }
    }
}

/// Where a piece of media can be fetched, and what it is.
pub struct UrlAndMediaType {
    pub url: String,
    pub media_type: MediaType,
}

/// The address and the kind of a piece of media. The kind `Unknown` stands
/// for nothing found.
pub struct Lead {
    pub url: Seq<char>,
    pub media_type: MediaType,
}

impl View for UrlAndMediaType {
    type V = Lead;

    open spec fn view(&self) -> Lead {
        Lead { url: self.url@, media_type: self.media_type }
    }
}

impl UrlAndMediaType {
    /// A second value with the same address and kind.
    pub fn copy(&self) -> (twin: UrlAndMediaType)
        ensures
            twin@ == self@,
    {
        UrlAndMediaType { url: self.url.clone(), media_type: self.media_type }
    }

    /// Nothing found yet: no address, kind unknown.
    pub fn default() -> (none: UrlAndMediaType)
        ensures
            none@ == (Lead { url: Seq::empty(), media_type: MediaType::Unknown }),
    {
        UrlAndMediaType { url: String::new(), media_type: MediaType::Unknown }
    }
}

/// Smallest width that a resize may ask for.
pub const MIN_SIZE: u16 = 1;

/// Longest side that a resize may ask for.
pub const MAX_SIZE: u16 = 8000;

/// The next even number from `x` up. The video encoder takes even sides only.
pub open spec fn even_up(x: int) -> int {
    if x % 2 == 1 {
        x + 1
    } else {
        x
    }
}

/// The width that a request for `x` by `y` is carried out with: `x` made
/// even, and one wider again where `y` is odd. A result of 0 asks for the
/// width that keeps the media's proportions.
pub open spec fn requested_width(x: int, y: int) -> int {
    even_up(x) + if y != 0 && y % 2 == 1 {
        1int
    } else {
        0int
    }
}

/// The width that a request for `x_size` by `y_size` is carried out with;
/// 0 where it is to follow from the height and the media's proportions.
pub fn plan_width(x_size: u16, y_size: u16) -> (width: u32)
    ensures
        width == requested_width(x_size as int, y_size as int),
{
    let mut width: u32 = x_size as u32;
    if width % 2 == 1 {
        width = width + 1;
    }
    if y_size != 0 && y_size % 2 == 1 {
        width = width + 1;
    }
    width
}

/// The width to use where it followed from the proportions: `scaled`, the
/// height times the proportions, made even.
pub fn auto_width(scaled: u16) -> (width: u32)
    ensures
        width == even_up(scaled as int),
{
    let width: u32 = scaled as u32;
    if width % 2 == 1 {
        width + 1
    } else {
        width
    }
}

/// The filter that scales a picture to `width` by `height`.
pub open spec fn scale_filter(width: nat, height: nat) -> Seq<char> {
    "scale="@ + decimal(width) + ":"@ + decimal(height)
}

/// Checks a request to resize media of kind `media_type` to `x_size` by
/// `y_size` and gives the filter that carries it out. A side out of bounds
/// is refused first, sound second.
pub fn resize_media(media_type: MediaType, x_size: u32, y_size: u16) -> (plan: Result<
    String,
    MediaError,
>)
    ensures
        match plan {
            Ok(filter) => {
                &&& MIN_SIZE <= x_size <= MAX_SIZE
                &&& y_size <= MAX_SIZE
                &&& media_type != MediaType::Audio
                &&& filter@ == scale_filter(x_size as nat, y_size as nat)
            },
            Err(why) => if MIN_SIZE <= x_size <= MAX_SIZE && y_size <= MAX_SIZE {
                media_type == MediaType::Audio && why == MediaError::ResizeAudio
            } else {
                why == MediaError::InvalidDimensions
            },
        },
{
    if !(x_size <= MAX_SIZE as u32 && y_size <= MAX_SIZE && x_size >= MIN_SIZE as u32) {
        return Err(MediaError::InvalidDimensions);
    }
    if media_type == MediaType::Audio {
        return Err(MediaError::ResizeAudio);
    }
    let mut filter = String::from_str("scale=");
    push_decimal(&mut filter, x_size as usize);
    filter.append(":");
    push_decimal(&mut filter, y_size as usize);
    Ok(filter)
}

/// Checks a request to rotate media of kind `media_type` and gives the
/// filter that carries it out. Sound cannot be rotated.
pub fn rotate_and_flip(media_type: MediaType, rotation: Rotation) -> (plan: Result<
    &'static str,
    MediaError,
>)
    ensures
        match plan {
            Ok(filter) => media_type != MediaType::Audio && filter@ == rotation.command(),
            Err(why) => media_type == MediaType::Audio && why == MediaError::RotateAudio,
        },
{
    if media_type == MediaType::Audio {
        return Err(MediaError::RotateAudio);
    }
    Ok(rotation.to_command())
}

/// The name of the file that an address points at: what stands behind the
/// last `/`, up to the first `?` in it.
pub open spec fn file_name_in(url: Seq<char>) -> Seq<char> {
    before_first(after_last(url, '/'), '?')
}

/// The name under which the media behind `url` is stored.
pub fn file_name_of(url: &str) -> (name: String)
    ensures
        name@ == file_name_in(url@),
{
    let start = find_last(url, '/');
    let n = url.unicode_len();
    let tail = url.substring_char(start, n);
    let cut = find_first(tail, '?');
    let name = tail.substring_char(0, cut);
    proof {
        lemma_last_cut(url@, '/', start as int);
        lemma_first_cut(tail@, '?', cut as int);
    }
    name.to_owned()
}

/// The bytes of `stem`, each written in decimal, one behind the other.
pub open spec fn stem_text(stem: Seq<u8>) -> Seq<char>
    decreases stem.len(),
{
    if stem.len() == 0 {
        Seq::empty()
    } else {
        stem_text(stem.drop_last()) + decimal(stem.last() as nat)
    }
}

/// `rand::Rng::fill` on the generator of the running thread: five bytes of
/// chance. Nothing is claimed of them.
#[verifier::external_body]
fn random_stem() -> (stem: [u8; 5]) {
    let mut stem: [u8; 5] = [0, 0, 0, 0, 0];
    rand::thread_rng().fill(&mut stem);
    stem
}

/// The file name made of `stem` and `extension`: the bytes in decimal, a
/// dot, the extension.
pub fn named_after(stem: &[u8; 5], extension: &str) -> (name: String)
    ensures
        name@ == stem_text(stem@) + "."@ + extension@,
{
    let mut name = String::new();
    let mut i: usize = 0;
    proof {
        assert(stem@.take(0) =~= Seq::<u8>::empty());
    }
    while i < 5
        invariant
            i <= 5,
            stem@.len() == 5,
            name@ == stem_text(stem@.take(i as int)),
        decreases 5 - i,
    {
        proof {
            assert(stem@.take(i + 1).drop_last() =~= stem@.take(i as int));
            assert(stem@.take(i + 1).last() == stem@[i as int]);
        }
        push_decimal(&mut name, stem[i] as usize);
        i = i + 1;
    }
    proof {
        assert(stem@.take(5) =~= stem@);
    }
    name.append(".");
    name.append(extension);
    name
}

/// A fresh name for a temporary file with the given extension: five bytes
/// of chance written in decimal, a dot, the extension.
pub fn temp_file_name(extension: &str) -> (name: String)
    ensures
        exists|stem: Seq<u8>| stem.len() == 5 && name@ == stem_text(stem) + "."@ + extension@,
{
    let stem = random_stem();
    let name = named_after(&stem, extension);
    proof {
        assert(stem@.len() == 5 && name@ == stem_text(stem@) + "."@ + extension@);
    }
    name
}

} // verus!

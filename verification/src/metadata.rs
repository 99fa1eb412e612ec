//! The date that a file carries inside: the date tags of an image, the
//! creation time of a video.
//!
//! The tags of an image are read by the exif crate. The function marked
//! `external_body` calls it; its contract is believed, not proved.

use vstd::prelude::*;
use crate::timestamp::{
    image_date_of, parse_image_date, parse_video_creation_time, video_date_of, CaptureTimestamp,
};

verus! {

/// The date tags of an image, each as the text that its value is shown as.
#[derive(Clone, Debug, PartialEq, Eq)]
pub struct ImageDateTags {
    /// When the picture was taken.
    pub taken: Option<String>,
    /// When the picture was stored as digital data.
    pub digitized: Option<String>,
    /// When the image was last changed.
    pub generic: Option<String>,
}

/// The date tags of an image, as texts.
#[verifier::ext_equal]
pub struct ImageDateTexts {
    pub taken: Option<Seq<char>>,
    pub digitized: Option<Seq<char>>,
    pub generic: Option<Seq<char>>,
}

impl DeepView for ImageDateTags {
    type V = ImageDateTexts;

    open spec fn deep_view(&self) -> ImageDateTexts {
        ImageDateTexts {
            taken: self.taken.deep_view(),
            digitized: self.digitized.deep_view(),
            generic: self.generic.deep_view(),
        }
    }
}

/// What a file holds of its own date, as far as it could be read.
#[derive(Clone, Debug, PartialEq, Eq)]
pub enum EmbeddedMetadata {
    /// The bytes of an image file.
    Image(Vec<u8>),
    /// The creation time that the container of a video names.
    Video(String),
    /// Nothing could be read.
    Unavailable,
}

/// The date tags that the exif crate finds in the bytes of an image file:
/// the fields `DateTimeOriginal`, `DateTimeDigitized` and `DateTime` of the
/// primary image, each as `Field::display_value` shows it; `None` where
/// `exif::Reader::read_from_container` reports an error.
pub uninterp spec fn exif_date_texts(container: Seq<u8>) -> Option<ImageDateTexts>;

/// Reads the Exif data of an image with `exif::Reader::read_from_container`
/// from a cursor over the bytes, looks the three date fields of the primary
/// image up with `Exif::get_field`, and shows each one that is there with
/// `Field::display_value`. The result depends on the bytes alone.
#[verifier::external_body]
fn read_date_tags(container: &[u8]) -> (tags: Option<ImageDateTags>)
    ensures
        tags.deep_view() == exif_date_texts(container@),
{
    let mut cursor = std::io::Cursor::new(container);
    let exif = exif::Reader::new().read_from_container(&mut cursor).ok()?;
    let shown = |tag: exif::Tag|
        exif.get_field(tag, exif::In::PRIMARY).map(|field| field.display_value().to_string());
    Some(
        ImageDateTags {
            taken: shown(exif::Tag::DateTimeOriginal),
            digitized: shown(exif::Tag::DateTimeDigitized),
            generic: shown(exif::Tag::DateTime),
        },
    )
}

/// The text that dates an image: the tag of the taking where there is one,
/// else that of the digitizing, else the generic one.
pub open spec fn dating_text(tags: ImageDateTexts) -> Option<Seq<char>> {
    if tags.taken is Some {
        tags.taken
    } else if tags.digitized is Some {
        tags.digitized
    } else {
        tags.generic
    }
}

/// The date that the tags of an image give: the tag that dates the image,
/// read as a date and time. Where that tag cannot be read as one, the image
/// has no date of its own, whatever the other tags say.
pub open spec fn date_of_tags(tags: ImageDateTexts) -> Option<CaptureTimestamp> {
    match dating_text(tags) {
        Some(text) => image_date_of(text),
        None => None,
    }
}

/// The date that a file carries inside.
pub open spec fn embedded_date(embedded: EmbeddedMetadata) -> Option<CaptureTimestamp> {
    match embedded {
        EmbeddedMetadata::Image(container) => match exif_date_texts(container@) {
            Some(tags) => date_of_tags(tags),
            None => None,
        },
        EmbeddedMetadata::Video(creation_time) => video_date_of(creation_time@),
        EmbeddedMetadata::Unavailable => None,
    }
}

/// The date that the tags of an image give.
pub fn date_from_tags(tags: &ImageDateTags) -> (date: Option<CaptureTimestamp>)
    ensures
        date == date_of_tags(tags.deep_view()),
        date matches Some(stamp) ==> stamp.wf(),
{
    let text = if tags.taken.is_some() {
        &tags.taken
    } else if tags.digitized.is_some() {
        &tags.digitized
    } else {
        &tags.generic
    };
    match text {
        Some(text) => parse_image_date(text.as_str()),
        None => None,
    }
}

/// The date that a file carries inside. A file that could not be read, one
/// without a date and one whose date cannot be understood all have none.
pub fn date_from_metadata(embedded: &EmbeddedMetadata) -> (date: Option<CaptureTimestamp>)
    ensures
        date == embedded_date(*embedded),
        date matches Some(stamp) ==> stamp.wf(),
{
    match embedded {
        EmbeddedMetadata::Image(container) => match read_date_tags(container.as_slice()) {
            Some(tags) => date_from_tags(&tags),
            None => None,
        },
        EmbeddedMetadata::Video(creation_time) => parse_video_creation_time(
            creation_time.as_str(),
        ),
        EmbeddedMetadata::Unavailable => None,
    }
}

} // verus!

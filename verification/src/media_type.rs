use mime::FromStrError;
use mime::Mime;
use vstd::prelude::*;
use vstd::string::StringExecFns;

use crate::error::EpubError;

verus! {

#[verifier::external_type_specification]
#[verifier::external_body]
pub struct ExFromStrError(FromStrError);

/// A parsed MIME value, as far as the package reads it: `type/subtype`, and
/// the suffix that follows a `+` in the subtype.
#[derive(Debug, Clone, PartialEq, Eq)]
pub struct MediaType {
    pub type_: String,
    pub subtype: String,
    pub suffix: Option<String>,
}

/// A media type, as contracts speak of it.
pub struct MediaTypeView {
    pub type_: Seq<char>,
    pub subtype: Seq<char>,
    pub suffix: Option<Seq<char>>,
}

impl DeepView for MediaType {
    type V = MediaTypeView;

    open spec fn deep_view(&self) -> MediaTypeView {
        MediaTypeView {
            type_: self.type_@,
            subtype: self.subtype@,
            suffix: match self.suffix {
                Some(suffix) => Some(suffix@),
                None => None,
            },
        }
    }
}

/// How the content of a manifest item is decoded.
#[derive(Debug, Clone, Copy, PartialEq, Eq, Structural, Hash)]
pub enum DecodeStrategy {
    /// Structured markup, decoded as UTF-8 text.
    Document,
    /// Binary media, kept as raw bytes.
    Image,
    /// Anything else: not decoded.
    Unsupported,
}

/// The decode strategy of a media type: `application/xhtml+xml` is a
/// document, every `image/..` is an image, and nothing else is supported.
pub open spec fn strategy_of(media_type: MediaTypeView) -> DecodeStrategy {
    if media_type.type_ == "application"@ && media_type.subtype == "xhtml"@ && media_type.suffix
        == Some("xml"@) {
        DecodeStrategy::Document
    } else if media_type.type_ == "image"@ {
        DecodeStrategy::Image
    } else {
        DecodeStrategy::Unsupported
    }
}

/// What the `mime` crate makes of a text: `None` where the text is no MIME
/// value, otherwise its type, subtype and suffix, in lower case.
pub uninterp spec fn parsed_media_type(text: Seq<char>) -> Option<MediaTypeView>;

/// `str::parse` into a `mime::Mime`, which is that type's `from_str`, and of
/// the value it returns
/// `Mime::type_`, `Mime::subtype` and `Mime::suffix`, each copied as a
/// string.
#[verifier::external_body]
fn parse_mime(text: &str) -> (r: Result<MediaType, FromStrError>)
    ensures
        r is Ok <==> parsed_media_type(text@) is Some,
        r matches Ok(media_type) ==> parsed_media_type(text@) == Some(media_type.deep_view()),
{
    let parsed = text.parse::<Mime>()?;
    Ok(MediaType {
        type_: parsed.type_().as_str().to_string(),
        subtype: parsed.subtype().as_str().to_string(),
        suffix: parsed.suffix().map(|suffix| suffix.as_str().to_string()),
    })
}

impl MediaType {
    /// Parses a declared media type. A text that is no MIME value is an
    /// `InvalidMimeType`.
    pub fn parse(text: &str) -> (r: Result<MediaType, EpubError>)
        ensures
            match r {
                Ok(media_type) => parsed_media_type(text@) == Some(media_type.deep_view()),
                Err(e) => e == EpubError::InvalidMimeType && parsed_media_type(text@) is None,
            },
    {
        match parse_mime(text) {
            Ok(media_type) => Ok(media_type),
            Err(_) => Err(EpubError::InvalidMimeType),
        }
    }

    /// Classifies the media type into the way its content is decoded.
    pub fn classify(&self) -> (r: DecodeStrategy)
        ensures
            r == strategy_of(self.deep_view()),
    {
        let is_xml_suffix = match &self.suffix {
            Some(suffix) => *suffix == String::from_str("xml"),
            None => false,
        };
        if self.type_ == String::from_str("application") && self.subtype == String::from_str(
            "xhtml",
        ) && is_xml_suffix {
            DecodeStrategy::Document
        } else if self.type_ == String::from_str("image") {
            DecodeStrategy::Image
        } else {
            DecodeStrategy::Unsupported
        }
    }
}

} // verus!

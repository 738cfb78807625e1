//! The output formats a thumbnail can be encoded in.

use vstd::prelude::*;
use vstd::string::*;

verus! {

/// Encoding of the finished thumbnail.
#[derive(Debug, Clone, Copy, PartialEq, Eq, Structural)]
pub enum ImageFormat {
    Webp,
    Jpeg,
    Png,
}

impl ImageFormat {
    /// The lower-case name a caller writes to select this format.
    pub open spec fn name(self) -> Seq<char> {
        match self {
            ImageFormat::Webp => "webp"@,
            ImageFormat::Jpeg => "jpeg"@,
            ImageFormat::Png => "png"@,
        }
    }

    /// The media type announced for an image in this format.
    pub open spec fn media_type(self) -> Seq<char> {
        match self {
            ImageFormat::Webp => "image/webp"@,
            ImageFormat::Jpeg => "image/jpeg"@,
            ImageFormat::Png => "image/png"@,
        }
    }

    /// The format a name selects, if it selects one.
    pub open spec fn named(name: Seq<char>) -> Option<ImageFormat> {
        if name == "webp"@ {
            Some(ImageFormat::Webp)
        } else if name == "jpeg"@ {
            Some(ImageFormat::Jpeg)
        } else if name == "png"@ {
            Some(ImageFormat::Png)
        } else {
            None
        }
    }

    /// The name of the format, as it appears in requests and cache keys.
    pub fn as_str(&self) -> (name: &'static str)
        ensures
            name@ == self.name(),
    {
        match self {
            ImageFormat::Webp => "webp",
            ImageFormat::Jpeg => "jpeg",
            ImageFormat::Png => "png",
        }
    }

    /// The media type of the format.
    pub fn content_type(&self) -> (media_type: &'static str)
        ensures
            media_type@ == self.media_type(),
    {
        match self {
            ImageFormat::Webp => "image/webp",
            ImageFormat::Jpeg => "image/jpeg",
            ImageFormat::Png => "image/png",
        }
    }

    /// Reads a format name. Names are matched exactly: lower case, no padding.
    pub fn parse(name: &str) -> (format: Option<ImageFormat>)
        ensures
            format == ImageFormat::named(name@),
    {
        let given = String::from_str(name);
        if given == String::from_str("webp") {
            Some(ImageFormat::Webp)
        } else if given == String::from_str("jpeg") {
            Some(ImageFormat::Jpeg)
        } else if given == String::from_str("png") {
            Some(ImageFormat::Png)
        } else {
            None
        }
    }

    /// Every format is selected by its own name, and by no other format's.
    pub proof fn lemma_name_selects(self)
        ensures
            ImageFormat::named(self.name()) == Some(self),
    {
        reveal_strlit("webp");
        reveal_strlit("jpeg");
        reveal_strlit("png");
        // The names begin with different letters.
        assert("webp"@[0] == 'w' && "jpeg"@[0] == 'j' && "png"@[0] == 'p');
    }
}

/// The format used when a request names none.
pub fn default_format() -> (format: ImageFormat)
    ensures
        format == ImageFormat::Webp,
{
    ImageFormat::Webp
}

} // verus!

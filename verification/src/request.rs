//! What a caller asks for, and the key under which the answer is kept.

use crate::error::{AppError, ErrorView};
use crate::format::{default_format, ImageFormat};
use crate::text::{decimal, is_digit, push_decimal, starts_with};
use crate::text::{lemma_decimal_digits, lemma_decimal_injective, lemma_split_at_last};
use vstd::prelude::*;
use vstd::string::*;

verus! {

/// Width, in pixels, of a thumbnail whose request names none.
pub const DEFAULT_WIDTH: u32 = 640;

/// Height, in pixels, of a thumbnail whose request names none.
pub const DEFAULT_HEIGHT: u32 = 400;

/// The width used when a request leaves it out.
pub fn default_width() -> (width: u32)
    ensures
        width == DEFAULT_WIDTH,
{
    DEFAULT_WIDTH
}

/// The height used when a request leaves it out.
pub fn default_height() -> (height: u32)
    ensures
        height == DEFAULT_HEIGHT,
{
    DEFAULT_HEIGHT
}

/// The address followed by a colon and the width in decimal.
pub open spec fn key_with_width(url: Seq<char>, width: u32) -> Seq<char> {
    url.push(':') + decimal(width as nat)
}

/// The address, the width and the height, with a colon between them.
pub open spec fn key_with_size(url: Seq<char>, width: u32, height: u32) -> Seq<char> {
    key_with_width(url, width).push(':') + decimal(height as nat)
}

/// The cache key of a request: address, width, height and format name,
/// in this order, with a colon between them.
pub open spec fn cache_key(url: Seq<char>, width: u32, height: u32, format: ImageFormat) -> Seq<
    char,
> {
    key_with_size(url, width, height).push(':') + format.name()
}

/// Why an address is refused, if it is: it is empty, or it begins with
/// neither `http://` nor `https://`.
pub open spec fn url_rejection(url: Seq<char>) -> Option<ErrorView> {
    if url.len() == 0 {
        Some(ErrorView::BadRequest("URL cannot be empty"@))
    } else if !"http://"@.is_prefix_of(url) && !"https://"@.is_prefix_of(url) {
        Some(ErrorView::BadRequest("Invalid URL scheme: "@ + url))
    } else {
        None
    }
}

/// The failure in a result that carries nothing else.
pub open spec fn rejection_view(checked: Result<(), AppError>) -> Option<ErrorView> {
    match checked {
        Ok(_) => None,
        Err(e) => Some(e@),
    }
}

/// Builds the cache key for the four fields of a request.
pub fn build_cache_key(url: &str, width: u32, height: u32, format: &ImageFormat) -> (key: String)
    ensures
        key@ == cache_key(url@, width, height, *format),
{
    proof {
        reveal_strlit(":");
    }
    let mut key = String::from_str(url);
    key.append(":");
    push_decimal(&mut key, width);
    key.append(":");
    push_decimal(&mut key, height);
    key.append(":");
    key.append(format.as_str());
    key
}

/// Checks the address of a request.
pub fn validate_url(url: &str) -> (checked: Result<(), AppError>)
    ensures
        rejection_view(checked) == url_rejection(url@),
{
    if url.is_empty() {
        return Err(AppError::BadRequest(String::from_str("URL cannot be empty")));
    }
    if !starts_with(url, "http://") && !starts_with(url, "https://") {
        return Err(AppError::BadRequest(String::from_str("Invalid URL scheme: ").concat(url)));
    }
    Ok(())
}

/// No format name holds a colon, and no two formats share a name.
pub proof fn lemma_format_names(a: ImageFormat, b: ImageFormat)
    ensures
        !a.name().contains(':'),
        a.name() == b.name() ==> a == b,
{
    reveal_strlit("webp");
    reveal_strlit("jpeg");
    reveal_strlit("png");
    // The names begin with different letters.
    assert("webp"@[0] == 'w' && "jpeg"@[0] == 'j' && "png"@[0] == 'p');
    // None of their letters is a colon.
    let name = a.name();
    assert forall|i: int| 0 <= i < name.len() implies name[i] != ':' by {}
}

/// No decimal numeral holds a colon.
pub proof fn lemma_decimal_has_no_colon(n: nat)
    ensures
        !decimal(n).contains(':'),
{
    lemma_decimal_digits(n);
    assert forall|i: int| 0 <= i < decimal(n).len() implies decimal(n)[i] != ':' by {
        assert(is_digit(decimal(n)[i]));
    }
}

/// Requests that differ in the address, the width, the height or the
/// format have different cache keys: from the key, all four can be told.
pub proof fn lemma_cache_key_injective(
    url_a: Seq<char>,
    width_a: u32,
    height_a: u32,
    format_a: ImageFormat,
    url_b: Seq<char>,
    width_b: u32,
    height_b: u32,
    format_b: ImageFormat,
)
    requires
        cache_key(url_a, width_a, height_a, format_a) == cache_key(
            url_b,
            width_b,
            height_b,
            format_b,
        ),
    ensures
        url_a == url_b,
        width_a == width_b,
        height_a == height_b,
        format_a == format_b,
{
    lemma_format_names(format_a, format_b);
    lemma_format_names(format_b, format_a);
    lemma_split_at_last(
        key_with_size(url_a, width_a, height_a),
        format_a.name(),
        key_with_size(url_b, width_b, height_b),
        format_b.name(),
        ':',
    );
    lemma_decimal_has_no_colon(height_a as nat);
    lemma_decimal_has_no_colon(height_b as nat);
    lemma_split_at_last(
        key_with_width(url_a, width_a),
        decimal(height_a as nat),
        key_with_width(url_b, width_b),
        decimal(height_b as nat),
        ':',
    );
    lemma_decimal_injective(height_a as nat, height_b as nat);
    lemma_decimal_has_no_colon(width_a as nat);
    lemma_decimal_has_no_colon(width_b as nat);
    lemma_split_at_last(
        url_a,
        decimal(width_a as nat),
        url_b,
        decimal(width_b as nat),
        ':',
    );
    lemma_decimal_injective(width_a as nat, width_b as nat);
}

/// A request for a thumbnail. Width and height are never zero.
#[derive(Debug, PartialEq, Eq)]
pub struct ThumbnailRequest {
    url: String,
    width: u32,
    height: u32,
    format: ImageFormat,
}

/// A [`ThumbnailRequest`] over plain values.
pub struct RequestView {
    pub url: Seq<char>,
    pub width: u32,
    pub height: u32,
    pub format: ImageFormat,
}

impl RequestView {
    /// What holds of every request: it asks for a picture with pixels.
    pub open spec fn well_formed(self) -> bool {
        self.width > 0 && self.height > 0
    }

    /// The key under which the answer to the request is kept.
    pub open spec fn key(self) -> Seq<char> {
        cache_key(self.url, self.width, self.height, self.format)
    }

    /// Why the request is refused, if it is.
    pub open spec fn rejection(self) -> Option<ErrorView> {
        url_rejection(self.url)
    }
}

impl View for ThumbnailRequest {
    type V = RequestView;

    closed spec fn view(&self) -> RequestView {
        RequestView { url: self.url@, width: self.width, height: self.height, format: self.format }
    }
}

/// The request that the four fields make, if they make one; a field left
/// out takes its default.
pub open spec fn request_from(
    url: Seq<char>,
    width: Option<u32>,
    height: Option<u32>,
    format: Option<ImageFormat>,
) -> Option<RequestView> {
    let request = RequestView {
        url,
        width: match width {
            Some(w) => w,
            None => DEFAULT_WIDTH,
        },
        height: match height {
            Some(h) => h,
            None => DEFAULT_HEIGHT,
        },
        format: match format {
            Some(f) => f,
            None => ImageFormat::Webp,
        },
    };
    if request.well_formed() {
        Some(request)
    } else {
        None
    }
}

impl Clone for ThumbnailRequest {
    fn clone(&self) -> (copy: ThumbnailRequest)
        ensures
            copy@ == self@,
    {
        proof {
            use_type_invariant(self);
        }
        ThumbnailRequest {
            url: self.url.clone(),
            width: self.width,
            height: self.height,
            format: self.format,
        }
    }
}

impl ThumbnailRequest {
    #[verifier::type_invariant]
    spec fn has_pixels(self) -> bool {
        self@.well_formed()
    }

    /// A request for `url` at `width` by `height` pixels in `format`. There
    /// is no request for a picture without pixels.
    pub fn new(url: String, width: u32, height: u32, format: ImageFormat) -> (request: Option<
        ThumbnailRequest,
    >)
        ensures
            request.is_some() <==> width > 0 && height > 0,
            request matches Some(made) ==> made@ == (RequestView {
                url: url@,
                width,
                height,
                format,
            }),
    {
        if width == 0 || height == 0 {
            None
        } else {
            Some(ThumbnailRequest { url, width, height, format })
        }
    }

    /// A request in which every field but the address may be left out:
    /// the size defaults to 640 by 400 pixels, the format to WebP.
    pub fn with_defaults(
        url: String,
        width: Option<u32>,
        height: Option<u32>,
        format: Option<ImageFormat>,
    ) -> (request: Option<ThumbnailRequest>)
        ensures
            request.is_some() == request_from(url@, width, height, format).is_some(),
            request matches Some(made) ==> Some(made@) == request_from(url@, width, height, format),
    {
        let width = match width {
            Some(w) => w,
            None => default_width(),
        };
        let height = match height {
            Some(h) => h,
            None => default_height(),
        };
        let format = match format {
            Some(f) => f,
            None => default_format(),
        };
        ThumbnailRequest::new(url, width, height, format)
    }

    /// The address of the page.
    pub fn url(&self) -> (url: &str)
        ensures
            url@ == self@.url,
    {
        self.url.as_str()
    }

    /// The width of the thumbnail in pixels.
    pub fn width(&self) -> (width: u32)
        ensures
            width == self@.width,
            width > 0,
    {
        proof {
            use_type_invariant(self);
        }
        self.width
    }

    /// The height of the thumbnail in pixels.
    pub fn height(&self) -> (height: u32)
        ensures
            height == self@.height,
            height > 0,
    {
        proof {
            use_type_invariant(self);
        }
        self.height
    }

    /// The format of the thumbnail.
    pub fn format(&self) -> (format: ImageFormat)
        ensures
            format == self@.format,
    {
        self.format
    }

    /// The key under which the answer to this request is kept.
    pub fn cache_key(&self) -> (key: String)
        ensures
            key@ == self@.key(),
    {
        build_cache_key(self.url.as_str(), self.width, self.height, &self.format)
    }

    /// Checks the request: its address must not be empty and must begin
    /// with `http://` or `https://`.
    pub fn validate(&self) -> (checked: Result<(), AppError>)
        ensures
            rejection_view(checked) == self@.rejection(),
    {
        validate_url(self.url.as_str())
    }
}

} // verus!

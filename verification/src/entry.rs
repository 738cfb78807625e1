//! What the cache holds for a request, and how it is written down: a
//! finished thumbnail with its captions, as bytes for the store and as text
//! for the reply.

use crate::error::{AppError, ErrorView};
use crate::render::Captioned;
use vstd::bytes::{lemma_auto_spec_u64_to_from_le_bytes, spec_u64_to_le_bytes};
use vstd::prelude::*;
use vstd::string::*;
use vstd::utf8::encode_utf8;

verus! {

/// The value kept under a cache key: the encoded thumbnail and what the
/// page said about itself.
#[derive(Debug, Clone, PartialEq, Eq)]
pub struct CachedData {
    pub image_data: Vec<u8>,
    pub title: Option<String>,
    pub description: Option<String>,
}

impl View for CachedData {
    type V = Captioned;

    open spec fn view(&self) -> Captioned {
        Captioned {
            image_data: self.image_data@,
            title: self.title.deep_view(),
            description: self.description.deep_view(),
        }
    }
}

/// A length as bincode writes it: eight bytes, least significant first.
pub open spec fn length_bytes(len: nat) -> Seq<u8> {
    spec_u64_to_le_bytes(len as u64)
}

/// A caption as bincode writes it: the byte 0 where it is absent; else the
/// byte 1, the length of its UTF-8 form and that form.
pub open spec fn caption_layout(caption: Option<Seq<char>>) -> Seq<u8> {
    match caption {
        Some(text) => seq![1u8] + length_bytes(encode_utf8(text).len()) + encode_utf8(text),
        None => seq![0u8],
    }
}

/// An entry as bincode writes it: the length of the image, the image, the
/// title, the description.
pub open spec fn entry_layout(entry: Captioned) -> Seq<u8> {
    length_bytes(entry.image_data.len()) + entry.image_data + caption_layout(entry.title)
        + caption_layout(entry.description)
}

/// What the serializer makes of an entry: its layout, never a failure.
pub open spec fn written(entry: Captioned) -> Result<Seq<u8>, Seq<char>> {
    Ok(entry_layout(entry))
}

/// The number of bytes a caption takes when written.
pub open spec fn caption_size(caption: Option<Seq<char>>) -> nat {
    match caption {
        Some(text) => 9 + encode_utf8(text).len(),
        None => 1,
    }
}

/// The number of bytes an entry takes when written.
pub open spec fn entry_size(entry: Captioned) -> nat {
    8 + entry.image_data.len() + caption_size(entry.title) + caption_size(entry.description)
}

/// Whether the written entry is an object that the machine can hold.
pub open spec fn writable(entry: Captioned) -> bool {
    entry_size(entry) <= isize::MAX
}

/// The entry that `bincode::deserialize` reads from the bytes as a triple
/// of image, title and description, or the text of its error.
pub uninterp spec fn entry_decoding(bytes: Seq<u8>) -> Result<Captioned, Seq<char>>;

/// Whether the decoder reads the entry from the bytes.
pub open spec fn reads_back(bytes: Seq<u8>, entry: Captioned) -> bool {
    entry_decoding(bytes) == Ok::<Captioned, Seq<char>>(entry)
}

/// The character that stands for a group of six bits in the standard
/// base64 alphabet: `A` to `Z`, `a` to `z`, `0` to `9`, `+`, `/`.
pub open spec fn base64_digit(v: int) -> char {
    if v < 26 {
        ('A' as int + v) as char
    } else if v < 52 {
        ('a' as int + v - 26) as char
    } else if v < 62 {
        ('0' as int + v - 52) as char
    } else if v == 62 {
        '+'
    } else {
        '/'
    }
}

/// The text of bytes in base64 with the standard alphabet and padding:
/// four characters for every three bytes; a last group of one or two bytes
/// is filled up with `=`.
pub open spec fn base64_text(bytes: Seq<u8>) -> Seq<char>
    decreases bytes.len(),
{
    if bytes.len() == 0 {
        Seq::empty()
    } else if bytes.len() == 1 {
        let a = bytes[0] as int;
        seq![base64_digit(a / 4), base64_digit(a % 4 * 16), '=', '=']
    } else if bytes.len() == 2 {
        let a = bytes[0] as int;
        let b = bytes[1] as int;
        seq![
            base64_digit(a / 4),
            base64_digit(a % 4 * 16 + b / 16),
            base64_digit(b % 16 * 4),
            '=',
        ]
    } else {
        let a = bytes[0] as int;
        let b = bytes[1] as int;
        let c = bytes[2] as int;
        seq![
            base64_digit(a / 4),
            base64_digit(a % 4 * 16 + b / 16),
            base64_digit(b % 16 * 4 + c / 64),
            base64_digit(c % 64),
        ] + base64_text(bytes.skip(3))
    }
}

/// The number of characters in the base64 text of so many bytes.
pub open spec fn base64_len(bytes: nat) -> nat {
    (bytes + 2) / 3 * 4
}

/// An entry's layout is as long as the size reckoned for the entry.
pub proof fn lemma_entry_size(entry: Captioned)
    ensures
        entry_layout(entry).len() == entry_size(entry),
{
    lemma_auto_spec_u64_to_from_le_bytes();
}

/// The base64 text of bytes is as long as reckoned for their number.
pub proof fn lemma_base64_len(bytes: Seq<u8>)
    ensures
        base64_text(bytes).len() == base64_len(bytes.len()),
    decreases bytes.len(),
{
    if bytes.len() >= 3 {
        lemma_base64_len(bytes.skip(3));
    }
}

/// A result over bytes, as sequences.
pub open spec fn bytes_view(result: Result<Vec<u8>, String>) -> Result<Seq<u8>, Seq<char>> {
    match result {
        Ok(bytes) => Ok(bytes@),
        Err(e) => Err(e@),
    }
}

/// A result over an entry, as sequences.
pub open spec fn entry_view(result: Result<CachedData, String>) -> Result<Captioned, Seq<char>> {
    match result {
        Ok(entry) => Ok(entry@),
        Err(e) => Err(e@),
    }
}

/// Calls `bincode::serialize` on the entry's image, title and description,
/// taken together as a tuple, and turns an error into its text. Trusted:
/// the call succeeds, for with no size limit set the serializer has no
/// failure for these types; the bytes are the entry's layout; and
/// `bincode::deserialize` reads them back as the same three values. The
/// bound keeps the buffer that bincode allocates, which is as long as the
/// layout, within what a vector can hold.
#[verifier::external_body]
fn serialize_entry(entry: &CachedData) -> (encoded: Result<Vec<u8>, String>)
    requires
        writable(entry@),
    ensures
        bytes_view(encoded) == written(entry@),
        encoded matches Ok(bytes) ==> reads_back(bytes@, entry@),
{
    let parts = (&entry.image_data, &entry.title, &entry.description);
    match bincode::serialize(&parts) {
        Ok(bytes) => Ok(bytes),
        Err(e) => Err(e.to_string()),
    }
}

/// Calls `bincode::deserialize` for a tuple of image, title and
/// description, and turns an error into its text. Trusted: the outcome
/// depends on the bytes alone.
#[verifier::external_body]
fn deserialize_entry(bytes: &[u8]) -> (decoded: Result<CachedData, String>)
    ensures
        entry_view(decoded) == entry_decoding(bytes@),
{
    match bincode::deserialize::<(Vec<u8>, Option<String>, Option<String>)>(bytes) {
        Ok((image_data, title, description)) => Ok(CachedData { image_data, title, description }),
        Err(e) => Err(e.to_string()),
    }
}

/// Calls `encode` of base64's `STANDARD` engine. Trusted: the text is the
/// base64 text of the bytes. The bound keeps the buffer that the engine
/// allocates, which is as long as the text, within what a vector can hold.
#[verifier::external_body]
fn base64_encode(bytes: &[u8]) -> (text: String)
    requires
        base64_len(bytes@.len()) <= isize::MAX,
    ensures
        text@ == base64_text(bytes@),
{
    base64::Engine::encode(&base64::engine::general_purpose::STANDARD, bytes)
}

/// What is written to the store for an entry, given what the encoder made
/// of it.
pub open spec fn stored_form(encoded: Result<Seq<u8>, Seq<char>>) -> Result<Seq<u8>, ErrorView> {
    match encoded {
        Ok(bytes) => Ok(bytes),
        Err(e) => Err(ErrorView::Internal("Cache serialization failed: "@ + e)),
    }
}

/// What is read from the store, given what the decoder made of the bytes.
pub open spec fn loaded_form(decoded: Result<Captioned, Seq<char>>) -> Result<
    Captioned,
    ErrorView,
> {
    match decoded {
        Ok(entry) => Ok(entry),
        Err(e) => Err(ErrorView::Internal("Cache deserialization failed: "@ + e)),
    }
}

/// The bytes kept in the store for an entry: its layout, or an internal
/// error where the layout is longer than any object the machine can hold.
pub open spec fn entry_bytes(entry: Captioned) -> Result<Seq<u8>, ErrorView> {
    if writable(entry) {
        Ok(entry_layout(entry))
    } else {
        Err(ErrorView::Internal("Cache serialization failed: entry too large"@))
    }
}

/// The entry that bytes from the store stand for, or an internal error
/// where they stand for none.
pub open spec fn entry_of(bytes: Seq<u8>) -> Result<Captioned, ErrorView> {
    loaded_form(entry_decoding(bytes))
}

/// Whether bytes from the store stand for this entry.
pub open spec fn stands_for(bytes: Seq<u8>, entry: Captioned) -> bool {
    entry_of(bytes) == Ok::<Captioned, ErrorView>(entry)
}

/// The text of an image in a reply, or an internal error where the text
/// is longer than any object the machine can hold.
pub open spec fn image_text(image_data: Seq<u8>) -> Result<Seq<char>, ErrorView> {
    if base64_len(image_data.len()) <= isize::MAX {
        Ok(base64_text(image_data))
    } else {
        Err(ErrorView::Internal("Image is too large to encode"@))
    }
}

/// A result over bytes or a failure, as sequences.
pub open spec fn stored_view(result: Result<Vec<u8>, AppError>) -> Result<Seq<u8>, ErrorView> {
    match result {
        Ok(bytes) => Ok(bytes@),
        Err(e) => Err(e@),
    }
}

/// A result over an entry or a failure, as sequences.
pub open spec fn loaded_view(result: Result<CachedData, AppError>) -> Result<
    Captioned,
    ErrorView,
> {
    match result {
        Ok(entry) => Ok(entry@),
        Err(e) => Err(e@),
    }
}

/// A result over a text or a failure, as sequences.
pub open spec fn text_view(result: Result<String, AppError>) -> Result<Seq<char>, ErrorView> {
    match result {
        Ok(text) => Ok(text@),
        Err(e) => Err(e@),
    }
}

/// Reports a failed encoding as an internal error and passes bytes on.
pub fn check_encoded(encoded: Result<Vec<u8>, String>) -> (stored: Result<Vec<u8>, AppError>)
    ensures
        stored_view(stored) == stored_form(bytes_view(encoded)),
{
    match encoded {
        Ok(bytes) => Ok(bytes),
        Err(e) => Err(
            AppError::Internal(String::from_str("Cache serialization failed: ").concat(e.as_str())),
        ),
    }
}

/// Reports a failed decoding as an internal error and passes the entry on.
pub fn check_decoded(decoded: Result<CachedData, String>) -> (loaded: Result<CachedData, AppError>)
    ensures
        loaded_view(loaded) == loaded_form(entry_view(decoded)),
{
    match decoded {
        Ok(entry) => Ok(entry),
        Err(e) => Err(
            AppError::Internal(
                String::from_str("Cache deserialization failed: ").concat(e.as_str()),
            ),
        ),
    }
}

/// The number of bytes a caption takes when written.
fn written_caption_len(caption: &Option<String>) -> (len: u128)
    ensures
        len == caption_size(caption.deep_view()),
        len <= 9 + usize::MAX,
{
    broadcast use vstd::slice::group_slice_axioms;

    match caption {
        Some(text) => 9 + text.as_str().as_bytes().len() as u128,
        None => 1,
    }
}

impl CachedData {
    /// Whether the written entry is an object that the machine can hold.
    pub fn is_writable(&self) -> (fits: bool)
        ensures
            fits == writable(self@),
    {
        8 + self.image_data.len() as u128 + written_caption_len(&self.title) + written_caption_len(
            &self.description,
        ) <= isize::MAX as u128
    }

    /// The bytes to keep in the store for this entry. Bytes that come out
    /// are read back by [`CachedData::from_bytes`] as this entry.
    pub fn to_bytes(&self) -> (stored: Result<Vec<u8>, AppError>)
        ensures
            stored_view(stored) == entry_bytes(self@),
            stored matches Ok(bytes) ==> stands_for(bytes@, self@),
    {
        if self.is_writable() {
            check_encoded(serialize_entry(self))
        } else {
            Err(
                AppError::Internal(
                    String::from_str("Cache serialization failed: entry too large"),
                ),
            )
        }
    }

    /// The entry that bytes from the store stand for.
    pub fn from_bytes(bytes: &[u8]) -> (loaded: Result<CachedData, AppError>)
        ensures
            loaded_view(loaded) == entry_of(bytes@),
    {
        check_decoded(deserialize_entry(bytes))
    }
}

/// The image as text for a reply.
pub fn encode_image_text(image_data: &[u8]) -> (text: Result<String, AppError>)
    ensures
        text_view(text) == image_text(image_data@),
{
    let groups = image_data.len() / 3 + if image_data.len() % 3 == 0 {
        0
    } else {
        1
    };
    if groups <= isize::MAX as usize / 4 {
        Ok(base64_encode(image_data))
    } else {
        Err(AppError::Internal(String::from_str("Image is too large to encode")))
    }
}

} // verus!

//! Prompt images: the modes they are prepared in, the limits on their size,
//! and their encoding as `data:` URLs.

use base64::Engine;
use vstd::prelude::*;

use crate::data_url::{data_url_prefix, spec_is_data_url};

verus! {

/// How a prompt image is fitted before it is sent to the model.
#[derive(Clone, Copy, Debug, PartialEq, Eq, Structural)]
pub enum PromptImageMode {
    /// Scaled down to fit the high-detail budget.
    ResizeToFit,
    /// Kept as it is.
    Original,
    /// Scaled down only as far as the original-detail budget asks.
    ResponsesLiteOriginal,
}

/// Why a prompt image could not be prepared.
#[derive(Clone, Debug, PartialEq, Eq)]
pub enum ImageProcessingError {
    /// The input is larger than the prompt image input limit.
    ImageTooLarge { representation: &'static str, size: usize, max: usize },
    /// The bytes could not be decoded as an image.
    Decode { message: String },
    /// The image is in a format that prompts do not take.
    UnsupportedImageFormat { mime: String },
}

/// The largest prompt image input accepted, in bytes, for the base64 payload
/// and for the decoded bytes alike.
pub const MAX_PROMPT_IMAGE_INPUT_BYTES: usize = 50 * 1024 * 1024;

/// Accepts an input of `size` bytes when it is within the prompt image input
/// limit; `representation` names the form that was measured.
pub fn ensure_prompt_image_input_size(representation: &'static str, size: usize) -> (res: Result<
    (),
    ImageProcessingError,
>)
    ensures
        size <= MAX_PROMPT_IMAGE_INPUT_BYTES ==> res is Ok,
        size > MAX_PROMPT_IMAGE_INPUT_BYTES ==> res == Err::<(), ImageProcessingError>(
            ImageProcessingError::ImageTooLarge {
                representation,
                size,
                max: MAX_PROMPT_IMAGE_INPUT_BYTES,
            },
        ),
{
    if size > MAX_PROMPT_IMAGE_INPUT_BYTES {
        Err(
            ImageProcessingError::ImageTooLarge {
                representation,
                size,
                max: MAX_PROMPT_IMAGE_INPUT_BYTES,
            },
        )
    } else {
        Ok(())
    }
}

/// The standard base64 encoding (RFC 4648 alphabet, with `=` padding) of `bytes`.
pub uninterp spec fn base64_standard_encoding(bytes: Seq<u8>) -> Seq<char>;

/// The number of characters in the padded base64 encoding of `n` bytes.
pub open spec fn base64_padded_len(n: int) -> int {
    (n + 2) / 3 * 4
}

/// Calls `base64::engine::general_purpose::STANDARD.encode`. Claimed of it: the
/// result is the standard padded base64 encoding of `bytes`, four characters for
/// every started group of three bytes. The crate panics when that length does
/// not fit in `usize`, which `requires` leaves out.
#[verifier::external_body]
fn encode_base64_standard(bytes: &[u8]) -> (encoded: String)
    requires
        base64_padded_len(bytes@.len() as int) <= usize::MAX,
    ensures
        encoded@ == base64_standard_encoding(bytes@),
        encoded@.len() == base64_padded_len(bytes@.len() as int),
{
    base64::engine::general_purpose::STANDARD.encode(bytes)
}

/// The characters between the MIME type and the payload of a base64 `data:` URL.
pub open spec fn base64_marker() -> Seq<char> {
    seq![';', 'b', 'a', 's', 'e', '6', '4', ',']
}

/// The `data:` URL that carries `bytes` of type `mime`, base64-encoded.
pub open spec fn spec_data_url(mime: Seq<char>, bytes: Seq<u8>) -> Seq<char> {
    data_url_prefix() + mime + base64_marker() + base64_standard_encoding(bytes)
}

/// An image ready to be put in a prompt.
#[derive(Clone, Debug, PartialEq, Eq)]
pub struct EncodedImage {
    pub bytes: Vec<u8>,
    pub mime: String,
    pub width: u32,
    pub height: u32,
}

/// The `data:` URL of type `mime` whose payload is the already base64-encoded
/// `payload`.
pub fn base64_data_url(mime: &str, payload: &str) -> (url: String)
    ensures
        url@ == data_url_prefix() + mime@ + base64_marker() + payload@,
        spec_is_data_url(url@),
{
    let mut url = "data:".to_owned();
    url.append(mime);
    url.append(";base64,");
    url.append(payload);
    proof {
        reveal_strlit("data:");
        reveal_strlit(";base64,");
        assert(url@ =~= data_url_prefix() + mime@ + base64_marker() + payload@);
        assert(url@.subrange(0, 5) =~= data_url_prefix());
    }
    url
}

impl EncodedImage {
    /// The image as a `data:<mime>;base64,<payload>` URL.
    pub fn into_data_url(self) -> (url: String)
        requires
            base64_padded_len(self.bytes@.len() as int) <= usize::MAX,
        ensures
            url@ == spec_data_url(self.mime@, self.bytes@),
            spec_is_data_url(url@),
            url@.take(self.mime@.len() + 13int) == seq!['d', 'a', 't', 'a', ':'] + self.mime@ + seq![
                ';',
                'b',
                'a',
                's',
                'e',
                '6',
                '4',
                ',',
            ],
            url@.skip(self.mime@.len() + 13int) == base64_standard_encoding(self.bytes@),
            url@.len() == self.mime@.len() + 13 + base64_padded_len(self.bytes@.len() as int),
    {
        let payload = encode_base64_standard(self.bytes.as_slice());
        let url = base64_data_url(self.mime.as_str(), payload.as_str());
        proof {
            let head = data_url_prefix() + self.mime@ + base64_marker();
            assert(url@ == head + payload@);
            assert(head.len() == self.mime@.len() + 13);
            assert(url@.take(self.mime@.len() + 13int) =~= head);
            assert(url@.skip(self.mime@.len() + 13int) =~= payload@);
        }
        url
    }
}

} // verus!

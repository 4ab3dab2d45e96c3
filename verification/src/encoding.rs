//! Images as `data:` URLs.

use base64::Engine;
use vstd::prelude::*;

verus! {

/// The standard base64 encoding, with padding, of a sequence of bytes.
pub uninterp spec fn base64_text(bytes: Seq<u8>) -> Seq<char>;

/// Whether the encoding of `len` bytes has a length that fits the machine.
pub open spec fn encodable(len: nat) -> bool {
    len / 3 * 4 + 4 <= usize::MAX
}

/// The URL that carries a PNG image inline.
pub open spec fn png_data_url_text(image: Seq<u8>) -> Seq<char> {
    "data:image/png;base64,"@ + base64_text(image)
}

/// Calls `Engine::encode` on `base64::engine::general_purpose::STANDARD`.
/// Trusted: the result is the standard base64 encoding of the bytes. The
/// engine panics where the encoded length overflows, which `requires` excludes.
#[verifier::external_body]
fn base64_standard(bytes: &[u8]) -> (r: String)
    requires
        encodable(bytes@.len()),
    ensures
        r@ == base64_text(bytes@),
{
    base64::engine::general_purpose::STANDARD.encode(bytes)
}

/// Wraps a PNG image into a `data:` URL.
pub fn png_data_url(image: &[u8]) -> (r: String)
    requires
        encodable(image@.len()),
    ensures
        r@ == png_data_url_text(image@),
{
    let encoded = base64_standard(image);
    let mut url = String::from_str("data:image/png;base64,");
    url.append(encoded.as_str());
    url
}

/// Wraps a PNG image into a `data:` URL, unless the image is too large for
/// its encoding to be held.
pub fn try_png_data_url(image: &[u8]) -> (r: Option<String>)
    ensures
        match r {
            Some(url) => encodable(image@.len()) && url@ == png_data_url_text(image@),
            None => !encodable(image@.len()),
        },
{
    if image.len() / 3 <= (usize::MAX - 4) / 4 {
        Some(png_data_url(image))
    } else {
        None
    }
}

} // verus!

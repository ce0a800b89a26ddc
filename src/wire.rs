use crate::model::{ApiTexture, ApiTextureModel, Texture, TextureModel};
use vstd::prelude::*;

verus! {

/// The text that base64 (standard alphabet, padded) gives for some bytes.
pub uninterp spec fn b64_encoded(b: Seq<u8>) -> Seq<char>;

/// The bytes that a text decodes to under base64 (standard alphabet,
/// canonical padding), or `None` where the text is no such encoding.
pub uninterp spec fn b64_decoded(s: Seq<char>) -> Option<Seq<u8>>;

/// Relies on `base64::Engine::encode` with the `STANDARD` engine: the padded
/// encoding, which the same engine decodes back to the input. It panics only
/// where the output length overflows `usize`, which no allocatable input
/// reaches.
#[verifier::external_body]
fn encode_standard(b: &Vec<u8>) -> (r: String)
    requires
        b@.len() <= isize::MAX,
    ensures
        r@ == b64_encoded(b@),
        b64_decoded(r@) == Some(b@),
{
    base64::Engine::encode(&base64::engine::general_purpose::STANDARD, b)
}

/// Relies on `base64::Engine::decode` with the `STANDARD` engine; its
/// `DecodeError` becomes `None`.
#[verifier::external_body]
fn decode_standard(s: &str) -> (r: Option<Vec<u8>>)
    ensures
        match r {
            Some(v) => b64_decoded(s@) == Some(v@),
            None => b64_decoded(s@) is None,
        },
{
    base64::Engine::decode(&base64::engine::general_purpose::STANDARD, s).ok()
}

/// The image bytes that a wire text stands for: what it decodes to, or no
/// bytes at all where it is not valid base64.
pub open spec fn image_of_text(s: Seq<char>) -> Seq<u8> {
    match b64_decoded(s) {
        Some(b) => b,
        None => Seq::empty(),
    }
}

/// The wire form of a texture.
pub open spec fn wire_of(t: TextureModel) -> ApiTextureModel {
    ApiTextureModel {
        id: t.id,
        skin_name: t.skin_name,
        texture_type: t.texture_type,
        image_data: b64_encoded(t.image_data),
    }
}

/// The texture that a wire form stands for.
pub open spec fn texture_of_wire(w: ApiTextureModel) -> TextureModel {
    TextureModel {
        id: w.id,
        skin_name: w.skin_name,
        texture_type: w.texture_type,
        image_data: image_of_text(w.image_data),
    }
}

/// The image that a decoding result stands for: the decoded bytes, or no
/// bytes at all where decoding failed.
pub fn image_or_empty(decoded: Option<Vec<u8>>) -> (r: Vec<u8>)
    ensures
        r@ == match decoded {
            Some(v) => v@,
            None => Seq::empty(),
        },
{
    match decoded {
        Some(bytes) => bytes,
        None => Vec::new(),
    }
}

impl ApiTexture {
    /// The wire form of `texture`: its image as base64 text. Decoding that
    /// form gives back `texture` unchanged.
    pub fn from(texture: Texture) -> (r: ApiTexture)
        requires
            texture.image_data@.len() <= isize::MAX,
        ensures
            r@ == wire_of(texture@),
            texture_of_wire(r@) == texture@,
    {
        let image_data = encode_standard(&texture.image_data);
        ApiTexture {
            id: texture.id,
            skin_name: texture.skin_name,
            texture_type: texture.texture_type,
            image_data,
        }
    }
}

impl Texture {
    /// The texture that `api` stands for: its image decoded from base64, or
    /// empty where the text is not valid base64.
    pub fn from(api: ApiTexture) -> (r: Texture)
        ensures
            r@ == texture_of_wire(api@),
    {
        let image_data = image_or_empty(decode_standard(api.image_data.as_str()));
        Texture {
            id: api.id,
            skin_name: api.skin_name,
            texture_type: api.texture_type,
            image_data,
        }
    }
}

} // verus!

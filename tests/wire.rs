use mcss::{ApiTexture, SkinType, Texture};

fn texture(image: Vec<u8>) -> Texture {
    Texture {
        id: Some("t1".to_string()),
        skin_name: "steve".to_string(),
        texture_type: SkinType::Cape,
        image_data: image,
    }
}

fn wire(image: &str) -> ApiTexture {
    ApiTexture {
        id: None,
        skin_name: "s".to_string(),
        texture_type: SkinType::Cape,
        image_data: image.to_string(),
    }
}

#[test]
fn encodes_image_as_padded_base64() {
    let api = ApiTexture::from(texture(b"hello".to_vec()));
    assert_eq!(api.image_data, "aGVsbG8=");
    assert_eq!(api.id.as_deref(), Some("t1"));
    assert_eq!(api.skin_name, "steve");
    assert_eq!(api.texture_type, SkinType::Cape);
}

#[test]
fn encodes_empty_image_as_empty_text() {
    let api = ApiTexture::from(texture(Vec::new()));
    assert_eq!(api.image_data, "");
}

#[test]
fn decodes_base64_image() {
    let t = Texture::from(wire("QUJD"));
    assert_eq!(t.image_data, b"ABC".to_vec());
    assert_eq!(t.id, None);
    assert_eq!(t.skin_name, "s");
    assert_eq!(t.texture_type, SkinType::Cape);
}

#[test]
fn wire_texture_round_trips_its_image_text() {
    let t = Texture::from(wire("QUJD"));
    let back = ApiTexture::from(t);
    assert_eq!(back.image_data, "QUJD");
    assert_eq!(back.texture_type, SkinType::Cape);
}

#[test]
fn malformed_base64_becomes_empty_image() {
    assert!(Texture::from(wire("not base64!")).image_data.is_empty());
}

#[test]
fn missing_padding_is_rejected_as_empty_image() {
    assert!(Texture::from(wire("QUI")).image_data.is_empty());
    assert_eq!(Texture::from(wire("QUI=")).image_data, b"AB".to_vec());
}

#[test]
fn every_byte_sequence_survives_encode_then_decode() {
    let cases: Vec<Vec<u8>> = vec![
        Vec::new(),
        vec![0],
        vec![255, 254],
        vec![1, 2, 3],
        (0..=255u8).collect(),
        vec![0xfb, 0xff, 0xbf, 0x00, 0x10],
    ];
    for bytes in cases {
        let api = ApiTexture::from(texture(bytes.clone()));
        let back = Texture::from(api);
        assert_eq!(back.image_data, bytes);
        assert_eq!(back.id.as_deref(), Some("t1"));
        assert_eq!(back.skin_name, "steve");
        assert_eq!(back.texture_type, SkinType::Cape);
    }
}

#[test]
fn failed_decoding_gives_empty_image() {
    assert_eq!(mcss::wire::image_or_empty(None), Vec::<u8>::new());
    assert_eq!(mcss::wire::image_or_empty(Some(vec![7, 7])), vec![7, 7]);
}

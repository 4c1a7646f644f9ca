use bettershot::{decode_image_data, ImageDataError};

#[test]
fn plain_payload() {
    assert_eq!(decode_image_data("aGVsbG8=").unwrap(), b"hello".to_vec());
    assert_eq!(decode_image_data("YWJj").unwrap(), b"abc".to_vec());
    assert_eq!(decode_image_data("YQ==").unwrap(), b"a".to_vec());
    assert_eq!(decode_image_data("YWI=").unwrap(), b"ab".to_vec());
    assert_eq!(decode_image_data("").unwrap(), Vec::<u8>::new());
    assert_eq!(decode_image_data("+/8=").unwrap(), vec![0xfb, 0xff]);
}

#[test]
fn payload_after_media_type_marker() {
    assert_eq!(
        decode_image_data("data:image/png;base64,iVBORw0KGgo=").unwrap(),
        vec![0x89, 0x50, 0x4e, 0x47, 0x0d, 0x0a, 0x1a, 0x0a]
    );
}

#[test]
fn malformed_payload_is_refused() {
    assert_eq!(decode_image_data("aGVsbG8"), Err(ImageDataError::Malformed));
    assert_eq!(decode_image_data("aGV$bG8="), Err(ImageDataError::Malformed));
    assert_eq!(decode_image_data("a==="), Err(ImageDataError::Malformed));
    assert_eq!(decode_image_data("YQ==YQ=="), Err(ImageDataError::Malformed));
    assert_eq!(decode_image_data("data:image/png;base64,@@@@"), Err(ImageDataError::Malformed));
    assert_eq!(decode_image_data("Y=Q="), Err(ImageDataError::Malformed));
}

use gemini::request::image::{Image, ImageMime};

fn padded(head: &[u8]) -> Vec<u8> {
    let mut v = head.to_vec();
    while v.len() < 16 {
        v.push(0);
    }
    v
}

#[test]
fn detects_jpeg() {
    let b = padded(&[0xFF, 0xD8, 0xFF, 0xE0]);
    assert_eq!(ImageMime::try_detect_image_mime(&b), Some(ImageMime::Jpeg));
}

#[test]
fn detects_png() {
    let b = padded(&[0x89, 0x50, 0x4E, 0x47, 0x0D, 0x0A, 0x1A, 0x0A]);
    assert_eq!(ImageMime::try_detect_image_mime(&b), Some(ImageMime::Png));
}

#[test]
fn detects_webp() {
    let b = padded(b"RIFF\x10\x00\x00\x00WEBPVP8 ");
    assert_eq!(ImageMime::try_detect_image_mime(&b), Some(ImageMime::WebP));
}

#[test]
fn detects_heic_and_heif() {
    assert_eq!(ImageMime::try_detect_image_mime(b"\0\0\0\x18ftypheic"), Some(ImageMime::Heic));
    assert_eq!(ImageMime::try_detect_image_mime(b"\0\0\0\x18ftypheix"), Some(ImageMime::Heic));
    assert_eq!(ImageMime::try_detect_image_mime(b"\0\0\0\x18ftypheif"), Some(ImageMime::Heif));
    assert_eq!(ImageMime::try_detect_image_mime(b"\0\0\0\x18ftypmif1"), Some(ImageMime::Heif));
    assert_eq!(ImageMime::try_detect_image_mime(b"\0\0\0\x18ftypmsf1"), Some(ImageMime::Heif));
    assert_eq!(ImageMime::try_detect_image_mime(b"\0\0\0\x18ftypavif"), None);
}

#[test]
fn short_or_unknown_input_is_not_an_image() {
    assert_eq!(ImageMime::try_detect_image_mime(&[0xFF, 0xD8, 0xFF]), None);
    assert_eq!(ImageMime::try_detect_image_mime(&[0u8; 12]), None);
    assert_eq!(ImageMime::try_detect_image_mime(b"RIFF0000WAVE"), None);
}

#[test]
fn mime_names() {
    assert_eq!(ImageMime::Jpeg.name(), "image/jpeg");
    assert_eq!(ImageMime::Png.name(), "image/png");
    assert_eq!(ImageMime::WebP.name(), "image/webp");
    assert_eq!(ImageMime::Heic.name(), "image/heic");
    assert_eq!(ImageMime::Heif.name(), "image/heif");
}

#[test]
fn image_new_hands_back_undetected_data() {
    let data = b"not an image at all".to_vec();
    match Image::new(data.clone()) {
        Err(back) => assert_eq!(back, data),
        Ok(_) => panic!("detected a format in text"),
    }
}

#[test]
fn image_becomes_blob_with_its_mime_type() {
    let data = padded(&[0x89, 0x50, 0x4E, 0x47, 0x0D, 0x0A, 0x1A, 0x0A]);
    let img = match Image::new(data.clone()) {
        Ok(img) => img,
        Err(_) => panic!("png not detected"),
    };
    let blob: gemini::vertex_types::Blob = img.into();
    assert_eq!(blob.mime_type, "image/png");
    assert_eq!(blob.data, data);
    let known = Image::new_known(vec![1, 2, 3], ImageMime::Heif);
    let blob: gemini::gemini_types::Blob = known.into();
    assert_eq!(blob.mime_type, "image/heif");
    assert_eq!(blob.data, vec![1, 2, 3]);
}

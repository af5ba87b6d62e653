use crabtagger::{ingest, picture_from_sniffed};

#[test]
fn png_content_is_sniffed_as_png() {
    let data = vec![0x89, b'P', b'N', b'G', 0x0D, 0x0A, 0x1A, 0x0A, 0, 0, 0, 13];
    let p = ingest(data.clone());
    assert_eq!(p.mime_type, "image/png");
    assert_eq!(p.data, data);
}

#[test]
fn gif_content_is_sniffed_as_gif() {
    let p = ingest(b"GIF89a\x01\x00\x01\x00".to_vec());
    assert_eq!(p.mime_type, "image/gif");
}

#[test]
fn unrecognized_content_falls_back_to_jpeg() {
    let p = ingest(vec![0x01, 0x02, 0x03, 0x04, 0x05]);
    assert_eq!(p.mime_type, "image/jpeg");
    assert_eq!(p.data, vec![0x01, 0x02, 0x03, 0x04, 0x05]);
}

#[test]
fn sniffed_type_is_kept_or_defaulted() {
    let p = picture_from_sniffed(vec![7], Some(String::from("image/bmp")));
    assert_eq!(p.mime_type, "image/bmp");
    assert_eq!(p.data, vec![7]);
    let q = picture_from_sniffed(vec![7], None);
    assert_eq!(q.mime_type, "image/jpeg");
}

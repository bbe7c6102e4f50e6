use sensorview::image::{Image, IMAGE_SIZE};

#[test]
fn image_views_buffer_without_copying() {
    let bytes = [0u8; 256];
    let image = Image::new(&bytes);
    assert_eq!(image.byte_at(0), 0);
    assert_eq!(image.byte_at(255), 0);
}

#[test]
fn image_reflects_buffer_contents() {
    let mut bytes = [0u8; 256];
    bytes[0] = 7;
    bytes[128] = 99;
    bytes[255] = 1;
    let image = Image::new(&bytes);
    assert_eq!(image.byte_at(0), 7);
    assert_eq!(image.byte_at(128), 99);
    assert_eq!(image.byte_at(255), 1);
    assert_eq!(image.byte_at(1), 0);
}

#[test]
fn image_size_matches_buffer_length() {
    let bytes = [0u8; 256];
    assert_eq!(bytes.len(), IMAGE_SIZE);
    let image = Image::new(&bytes);
    assert_eq!(image.raw.len(), IMAGE_SIZE);
}

use combine_images::buffer::FloatingImage;
use combine_images::errors::ImageDataErrors;

#[test]
fn new_buffer_is_empty_with_fixed_capacity() {
    let img = FloatingImage::new(3, 2, String::from("out.png"));
    assert_eq!(img.width, 3);
    assert_eq!(img.height, 2);
    assert_eq!(img.capacity, 3 * 2 * 4);
    assert_eq!(img.data.len(), 0);
    assert_eq!(img.name, "out.png");
}

#[test]
fn set_data_accepts_exact_fill() {
    let mut img = FloatingImage::new(2, 2, String::from("a.png"));
    let data = vec![7u8; 2 * 2 * 4];
    assert!(img.set_data(data.clone()).is_ok());
    assert_eq!(img.data, data);
}

#[test]
fn set_data_silently_accepts_underfill() {
    let mut img = FloatingImage::new(2, 2, String::from("b.png"));
    assert!(img.set_data(vec![1u8; 5]).is_ok());
    assert_eq!(img.data.len(), 5);
    assert!(img.set_data(Vec::new()).is_ok());
    assert_eq!(img.data.len(), 0);
}

#[test]
fn set_data_rejects_overfill() {
    let mut img = FloatingImage::new(2, 2, String::from("c.png"));
    let too_long = vec![1u8; 2 * 2 * 4 + 1];
    match img.set_data(too_long) {
        Err(ImageDataErrors::BufferToSmall) => {}
        other => panic!("expected BufferToSmall, got {:?}", other.map(|_| ())),
    }
    assert_eq!(img.data.len(), 0);
}

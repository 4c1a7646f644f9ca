use bettershot::{capture_region, CropError, CropRegion, Raster};

fn numbered(width: u32, height: u32) -> Raster {
    let pixels: Vec<u32> = (0..width * height).collect();
    Raster::new(width, height, pixels).ok().unwrap()
}

#[test]
fn crop_of_full_hd_capture() {
    let src = numbered(1920, 1080);
    let out = capture_region(&src, 10, 10, 100, 50).ok().unwrap();
    assert_eq!(out.width(), 100);
    assert_eq!(out.height(), 50);
    assert_eq!(out.pixels().len(), 5000);
    for row in 0..50u32 {
        for col in 0..100u32 {
            assert_eq!(out.pixel(col, row), src.pixel(10 + col, 10 + row));
        }
    }
    assert_eq!(out.pixel(0, 0), 10 * 1920 + 10);
}

#[test]
fn crop_past_the_edge_is_not_clamped() {
    let src = numbered(1920, 1080);
    assert_eq!(capture_region(&src, 10, 10, 1911, 50).err(), Some(CropError::OutOfBounds));
    assert_eq!(capture_region(&src, 0, 1000, 10, 81).err(), Some(CropError::OutOfBounds));
    assert_eq!(capture_region(&src, u32::MAX, 0, 1, 1).err(), Some(CropError::OutOfBounds));
}

#[test]
fn crop_touching_the_edges() {
    let src = numbered(4, 3);
    let out = src.crop(&CropRegion { x: 2, y: 1, width: 2, height: 2 }).ok().unwrap();
    assert_eq!(out.pixels(), &vec![6, 7, 10, 11]);
    let empty = src.crop(&CropRegion { x: 4, y: 3, width: 0, height: 0 }).ok().unwrap();
    assert_eq!(empty.pixels().len(), 0);
}

#[test]
fn raster_needs_one_value_per_pixel() {
    assert_eq!(Raster::new(2, 2, vec![1, 2, 3]).err(), Some(CropError::BadDimensions));
    assert!(Raster::new(0, 5, Vec::new()).is_ok());
}

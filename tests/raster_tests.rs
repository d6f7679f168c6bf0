use image::GenericImageView;
use raytracer::raster::raster_image;
use raytracer::shading::{within_depth, MAX_RECURSION_DEPTH};

#[test]
fn raster_places_pixels_row_major() {
    let pixels = vec![
        (1, 2, 3, 255),
        (4, 5, 6, 255),
        (7, 8, 9, 255),
        (10, 11, 12, 255),
        (13, 14, 15, 255),
        (16, 17, 18, 255),
    ];
    let img = raster_image(3, 2, &pixels);
    assert_eq!(img.dimensions(), (3, 2));
    assert_eq!(img.get_pixel(0, 0).0, [1, 2, 3, 255]);
    assert_eq!(img.get_pixel(2, 0).0, [7, 8, 9, 255]);
    assert_eq!(img.get_pixel(0, 1).0, [10, 11, 12, 255]);
    assert_eq!(img.get_pixel(2, 1).0, [16, 17, 18, 255]);
}

#[test]
fn raster_is_rgb_and_opaque() {
    let pixels = vec![(200, 100, 50, 0)];
    let img = raster_image(1, 1, &pixels);
    assert!(img.as_rgb8().is_some());
    assert_eq!(img.get_pixel(0, 0).0, [200, 100, 50, 255]);
}

#[test]
fn raster_of_no_pixels() {
    let img = raster_image(0, 5, &Vec::new());
    assert_eq!(img.dimensions(), (0, 5));
}

#[test]
fn recursion_stops_at_max_depth() {
    assert_eq!(MAX_RECURSION_DEPTH, 10);
    assert!(within_depth(0));
    assert!(within_depth(9));
    assert!(!within_depth(10));
    assert!(!within_depth(11));
}

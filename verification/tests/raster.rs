use image_combiner::raster::resample_supported;
use image_combiner::{combine_images, standardise_size, standardise_supported, RasterImage};

fn uniform(width: u32, height: u32, pixel: [u8; 4]) -> RasterImage {
    let mut data = Vec::new();
    for _ in 0..(width as usize * height as usize) {
        data.extend_from_slice(&pixel);
    }
    RasterImage::new(width, height, data).unwrap()
}

fn counting(width: u32, height: u32, start: u8) -> RasterImage {
    let len = 4 * width as usize * height as usize;
    let data: Vec<u8> = (0..len).map(|i| start.wrapping_add(i as u8)).collect();
    RasterImage::new(width, height, data).unwrap()
}

#[test]
fn an_image_needs_four_bytes_for_each_pixel() {
    assert!(RasterImage::new(2, 2, vec![0u8; 16]).is_some());
    assert!(RasterImage::new(2, 2, vec![0u8; 15]).is_none());
    assert!(RasterImage::new(2, 2, vec![0u8; 17]).is_none());
    assert!(RasterImage::new(0, 5, Vec::new()).is_some());
    assert!(RasterImage::new(0, 5, vec![0u8; 4]).is_none());
    assert!(RasterImage::new(u32::MAX, u32::MAX, vec![0u8; 4]).is_none());
}

#[test]
fn an_image_reports_what_it_was_made_of() {
    let data: Vec<u8> = (0u8..24).collect();
    let image = RasterImage::new(3, 2, data.clone()).unwrap();
    assert_eq!(image.dimensions(), (3, 2));
    assert_eq!(image.width(), 3);
    assert_eq!(image.height(), 2);
    assert_eq!(image.into_vec(), data);
}

#[test]
fn resizing_gives_the_size_asked_for() {
    let image = uniform(100, 100, [10, 20, 30, 255]);
    let small = image.resize_exact(2, 2);
    assert_eq!(small.dimensions(), (2, 2));
    assert_eq!(small.into_vec().len(), 16);
    let wide = image.resize_exact(7, 3);
    assert_eq!(wide.dimensions(), (7, 3));
    assert_eq!(wide.into_vec().len(), 84);
}

#[test]
fn resizing_a_uniform_image_keeps_its_colour() {
    let image = uniform(100, 100, [10, 20, 30, 255]);
    let small = image.resize_exact(2, 2).into_vec();
    assert_eq!(small, [10u8, 20, 30, 255].repeat(4));
    let large = uniform(2, 2, [200, 0, 100, 50]).resize_exact(5, 4).into_vec();
    assert_eq!(large, [200u8, 0, 100, 50].repeat(20));
}

#[test]
fn resizing_averages_neighbouring_pixels() {
    // Two pixels side by side, shrunk to one: the mean of the two.
    let image = RasterImage::new(2, 1, vec![0, 100, 200, 255, 100, 200, 0, 255]).unwrap();
    assert_eq!(image.resize_exact(1, 1).into_vec(), vec![50, 150, 100, 255]);
}

#[test]
fn resizing_is_repeatable() {
    let image = counting(9, 7, 3);
    let once = image.resize_exact(4, 5).into_vec();
    let twice = image.resize_exact(4, 5).into_vec();
    assert_eq!(once, twice);
}

#[test]
fn images_of_one_size_pass_through_unchanged() {
    let a = counting(4, 4, 0);
    let b = counting(4, 4, 100);
    let (first, second) = standardise_size(a, b);
    assert_eq!(first.dimensions(), (4, 4));
    assert_eq!(second.dimensions(), (4, 4));
    assert_eq!(first.into_vec(), counting(4, 4, 0).into_vec());
    assert_eq!(second.into_vec(), counting(4, 4, 100).into_vec());
}

#[test]
fn the_larger_second_image_is_shrunk() {
    let a = counting(2, 2, 0);
    let b = uniform(100, 100, [9, 8, 7, 6]);
    let (first, second) = standardise_size(a, b);
    assert_eq!(first.dimensions(), (2, 2));
    assert_eq!(second.dimensions(), (2, 2));
    assert_eq!(first.into_vec(), (0u8..16).collect::<Vec<u8>>());
    assert_eq!(second.into_vec(), [9u8, 8, 7, 6].repeat(4));
}

#[test]
fn the_larger_first_image_is_shrunk() {
    let a = uniform(100, 100, [9, 8, 7, 6]);
    let b = counting(2, 2, 0);
    let (first, second) = standardise_size(a, b);
    assert_eq!(first.dimensions(), (2, 2));
    assert_eq!(second.dimensions(), (2, 2));
    assert_eq!(first.into_vec(), [9u8, 8, 7, 6].repeat(4));
    assert_eq!(second.into_vec(), (0u8..16).collect::<Vec<u8>>());
}

#[test]
fn with_as_many_pixels_the_first_image_sets_the_size() {
    let a = counting(2, 8, 0);
    let b = uniform(4, 4, [1, 2, 3, 4]);
    let (first, second) = standardise_size(a, b);
    assert_eq!(first.dimensions(), (2, 8));
    assert_eq!(second.dimensions(), (2, 8));
    assert_eq!(first.into_vec(), (0u8..64).collect::<Vec<u8>>());
    assert_eq!(second.into_vec(), [1u8, 2, 3, 4].repeat(16));
}

#[test]
fn combining_merges_the_pixels_of_both_images() {
    let a = counting(2, 2, 0);
    let b = counting(2, 2, 100);
    assert_eq!(
        combine_images(a, b),
        vec![0, 1, 2, 3, 104, 105, 106, 107, 8, 9, 10, 11, 112, 113, 114, 115]
    );
}

#[test]
fn sizes_that_the_resampler_takes() {
    assert!(resample_supported((100, 100), (2, 2)));
    assert!(resample_supported((1, 1), (65_535, 1)));
    assert!(resample_supported((65_535, 65_535), (1, 1)));
    assert!(!resample_supported((0, 100), (2, 2)));
    assert!(!resample_supported((100, 0), (2, 2)));
    assert!(!resample_supported((100, 100), (0, 2)));
    assert!(!resample_supported((100, 100), (2, 0)));
    assert!(!resample_supported((65_536, 1), (1, 1)));
    assert!(!resample_supported((1, 65_536), (1, 1)));
    assert!(!resample_supported((1, 1), (65_536, 1)));
    assert!(!resample_supported((1, 1), (1, 65_536)));
}

#[test]
fn pairs_of_images_that_can_be_standardised() {
    assert!(standardise_supported(&counting(2, 2, 0), &counting(10, 10, 0)));
    assert!(standardise_supported(&counting(10, 10, 0), &counting(2, 2, 0)));
    // Nothing is resampled where the sizes agree, whatever they are.
    assert!(standardise_supported(
        &RasterImage::new(0, 3, Vec::new()).unwrap(),
        &RasterImage::new(0, 3, Vec::new()).unwrap()
    ));
    // An empty image would be the target, and the other cannot be brought to it.
    assert!(!standardise_supported(
        &RasterImage::new(0, 3, Vec::new()).unwrap(),
        &counting(2, 2, 0)
    ));
}

use image_combiner::{alternate_pixels, set_rgba};

#[test]
fn pixels_alternate_between_the_two_sources() {
    let a: Vec<u8> = (0u8..16).collect();
    let b: Vec<u8> = (100u8..116).collect();
    let merged = alternate_pixels(a, b);
    assert_eq!(
        merged,
        vec![0, 1, 2, 3, 104, 105, 106, 107, 8, 9, 10, 11, 112, 113, 114, 115]
    );
}

#[test]
fn every_group_of_four_comes_from_one_source_at_its_own_offset() {
    let a: Vec<u8> = (0..64).map(|i| i as u8).collect();
    let b: Vec<u8> = (0..64).map(|i| 200 - i as u8).collect();
    let merged = alternate_pixels(a.clone(), b.clone());
    assert_eq!(merged.len(), 64);
    let mut i = 0;
    while i < 64 {
        if (i / 4) % 2 == 0 {
            assert_eq!(&merged[i..i + 4], &a[i..i + 4]);
        } else {
            assert_eq!(&merged[i..i + 4], &b[i..i + 4]);
        }
        i += 4;
    }
}

#[test]
fn a_single_pixel_is_taken_from_the_first_source() {
    assert_eq!(alternate_pixels(vec![1, 2, 3, 4], vec![5, 6, 7, 8]), vec![1, 2, 3, 4]);
}

#[test]
fn empty_buffers_merge_to_an_empty_buffer() {
    assert_eq!(alternate_pixels(Vec::new(), Vec::new()), Vec::<u8>::new());
}

#[test]
fn merging_depends_on_the_order_of_the_sources() {
    let a = vec![1u8, 1, 1, 1, 2, 2, 2, 2];
    let b = vec![1u8, 1, 1, 1, 9, 9, 9, 9];
    let ab = alternate_pixels(a.clone(), b.clone());
    let ba = alternate_pixels(b, a);
    assert_eq!(ab, vec![1, 1, 1, 1, 9, 9, 9, 9]);
    assert_eq!(ba, vec![1, 1, 1, 1, 2, 2, 2, 2]);
    assert_ne!(ab, ba);
}

#[test]
fn merging_a_buffer_with_itself_gives_it_back() {
    let a: Vec<u8> = (0u8..24).collect();
    assert_eq!(alternate_pixels(a.clone(), a.clone()), a);
}

#[test]
fn set_rgba_copies_an_inclusive_range() {
    let v: Vec<u8> = (10u8..20).collect();
    assert_eq!(set_rgba(&v, 4, 7), vec![14, 15, 16, 17]);
    assert_eq!(set_rgba(&v, 0, 0), vec![10]);
    assert_eq!(set_rgba(&v, 0, 9), v);
    assert_eq!(set_rgba(&v, 9, 9), vec![19]);
}

#[test]
fn set_rgba_of_an_empty_range_reads_nothing() {
    let v: Vec<u8> = vec![1, 2, 3];
    assert_eq!(set_rgba(&v, 2, 1), Vec::<u8>::new());
    assert_eq!(set_rgba(&v, 7, 3), Vec::<u8>::new());
    assert_eq!(set_rgba(&Vec::new(), 1, 0), Vec::<u8>::new());
}

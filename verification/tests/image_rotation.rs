use badge_core::display::Point;
use badge_core::display_image::{get_current_image, Bitmaps, DisplayImage};
use badge_core::image::{self, ImageIndex, Shift};

#[test]
fn next_wraps_from_last_to_first() {
    let mut index = ImageIndex::new(3).unwrap();
    assert_eq!(image::get(&index), 0);
    image::next(&mut index);
    assert_eq!(image::get(&index), 1);
    image::next(&mut index);
    assert_eq!(image::get(&index), 2);
    image::next(&mut index);
    assert_eq!(image::get(&index), 0);
}

#[test]
fn next_cycles_through_all_images() {
    for count in 1..=7usize {
        for start in 0..count {
            let mut index = ImageIndex::new(count).unwrap();
            image::set(&mut index, start);
            let mut seen = vec![false; count];
            for _ in 0..count {
                assert!(!seen[image::get(&index)]);
                seen[image::get(&index)] = true;
                image::next(&mut index);
            }
            assert!(seen.iter().all(|shown| *shown));
            assert_eq!(image::get(&index), start);
        }
    }
}

#[test]
fn prev_wraps_from_first_to_last() {
    let mut index = ImageIndex::new(3).unwrap();
    image::prev(&mut index);
    assert_eq!(image::get(&index), 2);
    image::prev(&mut index);
    assert_eq!(image::get(&index), 1);
    image::prev(&mut index);
    assert_eq!(image::get(&index), 0);
}

#[test]
fn prev_undoes_next() {
    let mut index = ImageIndex::new(5).unwrap();
    for start in 0..5 {
        image::set(&mut index, start);
        image::next(&mut index);
        image::prev(&mut index);
        assert_eq!(image::get(&index), start);
    }
}

#[test]
fn shift_follows_direction() {
    let mut index = ImageIndex::new(3).unwrap();
    image::shift(&mut index, Shift::Next);
    assert_eq!(index.current, 1);
    image::shift(&mut index, Shift::Stay);
    assert_eq!(index.current, 1);
    image::shift(&mut index, Shift::Prev);
    assert_eq!(index.current, 0);
    image::shift(&mut index, Shift::Prev);
    assert_eq!(index.current, 2);
}

#[test]
fn set_clamps_to_last_image() {
    let mut index = ImageIndex::new(3).unwrap();
    image::set(&mut index, 1);
    assert_eq!(image::get(&index), 1);
    image::set(&mut index, 2);
    assert_eq!(image::get(&index), 2);
    image::set(&mut index, 3);
    assert_eq!(image::get(&index), 2);
    image::set(&mut index, usize::MAX);
    assert_eq!(image::get(&index), 2);
    assert_eq!(index.count, 3);
}

#[test]
fn no_images_no_index() {
    assert_eq!(ImageIndex::new(0), None);
    assert_eq!(ImageIndex::new(1), Some(ImageIndex { current: 0, count: 1 }));
}

#[test]
fn single_image_stays_selected() {
    let mut index = ImageIndex::new(1).unwrap();
    image::next(&mut index);
    assert_eq!(image::get(&index), 0);
    image::prev(&mut index);
    assert_eq!(image::get(&index), 0);
}

#[test]
fn get_image_picks_selected_bitmap() {
    let first: &[u8] = &[1, 2, 3];
    let second: &[u8] = &[4, 5];
    let third: &[u8] = &[6];
    let images: [&[u8]; 3] = [first, second, third];
    let mut index = ImageIndex::new(3).unwrap();
    assert_eq!(image::get_image(&index, &images), Some(first));
    image::next(&mut index);
    assert_eq!(image::get_image(&index, &images), Some(second));
    image::prev(&mut index);
    image::prev(&mut index);
    assert_eq!(image::get_image(&index, &images), Some(third));
    assert_eq!(image::get_image(&index, &images[..2]), None);
}

#[test]
fn rotating_images_sit_below_the_header() {
    assert_eq!(image::get_position(), (0, 24));
}

#[test]
fn display_image_numbers_round_trip() {
    assert_eq!(DisplayImage::from_u8(0), Some(DisplayImage::Ferris));
    assert_eq!(DisplayImage::from_u8(1), Some(DisplayImage::Repo));
    assert_eq!(DisplayImage::from_u8(2), Some(DisplayImage::MtrasLogo));
    assert_eq!(DisplayImage::from_u8(3), None);
    assert_eq!(DisplayImage::from_u8(255), None);
    for code in 0..3u8 {
        assert_eq!(DisplayImage::from_u8(code).unwrap().as_u8(), code);
    }
}

#[test]
fn display_image_next_wraps() {
    assert_eq!(DisplayImage::Ferris.next(), DisplayImage::Repo);
    assert_eq!(DisplayImage::Repo.next(), DisplayImage::MtrasLogo);
    assert_eq!(DisplayImage::MtrasLogo.next(), DisplayImage::Ferris);
}

#[test]
fn display_image_bitmap_and_location() {
    let bitmaps = Bitmaps { ferris: &[1], repo: &[2, 2], mtras_logo: &[3, 3, 3] };
    assert_eq!(DisplayImage::Ferris.image(&bitmaps), &[1]);
    assert_eq!(DisplayImage::Repo.image(&bitmaps), &[2, 2]);
    assert_eq!(DisplayImage::MtrasLogo.image(&bitmaps), &[3, 3, 3]);
    assert_eq!(DisplayImage::Ferris.image_location(), Point { x: 0, y: 24 });
    assert_eq!(DisplayImage::Repo.image_location(), Point { x: 190, y: 26 });
    assert_eq!(DisplayImage::MtrasLogo.image_location(), Point { x: 190, y: 26 });
}

#[test]
fn current_image_follows_the_index() {
    let mut index = ImageIndex::new(3).unwrap();
    assert_eq!(get_current_image(&index), DisplayImage::Ferris);
    image::next(&mut index);
    assert_eq!(get_current_image(&index), DisplayImage::Repo);
    image::next(&mut index);
    assert_eq!(get_current_image(&index), DisplayImage::MtrasLogo);
}

#[test]
fn set_repairs_a_selection_past_the_end() {
    let mut index = ImageIndex { current: 9, count: 3 };
    image::set(&mut index, 1);
    assert_eq!(index, ImageIndex { current: 1, count: 3 });
}

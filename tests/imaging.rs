use image::{DynamicImage, GenericImageView, Rgb, RgbImage};
use image_sorter::imaging::{crop_image, extract_region, flip_polarity, Picture};
use image_sorter::report::{failures, finish_entry, screen_entry, settled_entry, AppError, Outcome, Screen};

fn striped(width: u32, height: u32) -> Picture {
    Picture::new(DynamicImage::ImageRgb8(RgbImage::from_fn(width, height, |x, y| Rgb([(x % 256) as u8, (y % 256) as u8, 7]))))
}

#[test]
fn crop_of_800_by_600_image() {
    let out = crop_image(&striped(800, 600), &"a.png".to_string()).unwrap();
    assert_eq!((out.width_px(), out.height_px()), (800, 493));
    assert_eq!(out.image().dimensions(), (800, 493));
    // the first kept row is row 33 of the source
    assert_eq!(out.image().get_pixel(5, 0).0[1], 33);
}

#[test]
fn crop_of_one_row_image_fails() {
    match crop_image(&striped(4, 1), &"tiny.png".to_string()) {
        Err(AppError::Geometry { filepath, width, height }) => {
            assert_eq!(filepath, "tiny.png");
            assert_eq!((width, height), (4, 1));
        }
        other => panic!("unexpected {:?}", other.map(|i| i.image().dimensions())),
    }
}

#[test]
fn crop_is_deterministic() {
    let src = striped(120, 90);
    let a = crop_image(&src, &"a.png".to_string()).unwrap();
    let b = crop_image(&src, &"a.png".to_string()).unwrap();
    assert_eq!(a.image().as_bytes(), b.image().as_bytes());
    assert_eq!(src.image().dimensions(), (120, 90));
}

#[test]
fn region_is_grayscale_label_area() {
    let out = extract_region(&striped(473, 842), &"p.png".to_string()).unwrap();
    assert_eq!((out.width_px(), out.height_px()), (170, 772));
    assert_eq!(out.image().dimensions(), (170, 772));
    assert!(out.image().as_luma8().is_some());
}

#[test]
fn region_of_tiny_image_fails() {
    assert!(matches!(extract_region(&striped(2, 2), &"p.png".to_string()), Err(AppError::Geometry { .. })));
}

#[test]
fn polarity_flip_inverts() {
    let img = Picture::new(DynamicImage::ImageLuma8(image::GrayImage::from_pixel(3, 2, image::Luma([10]))));
    let out = flip_polarity(img);
    assert_eq!((out.width_px(), out.height_px()), (3, 2));
    assert_eq!(out.image().as_luma8().unwrap().get_pixel(1, 1).0[0], 245);
}

#[test]
fn directory_with_image_sentinel_and_text() {
    let entries = [("a.png", Some(striped(800, 600))), (".DS_Store", None), ("b.txt", None)];
    let mut outcomes = Vec::new();
    let mut written = Vec::new();
    for (name, decoded) in entries.iter() {
        let path = format!("/src/{}", name);
        match screen_entry(name, &path) {
            Screen::Skip => outcomes.push(Outcome::Skipped),
            Screen::Reject(e) => outcomes.push(Outcome::Failed(e)),
            Screen::Process => {
                let img = decoded.as_ref().unwrap();
                match crop_image(img, &path) {
                    Ok(out) => {
                        written.push((name.to_string(), out.image().dimensions()));
                        outcomes.push(finish_entry(Ok(())));
                    }
                    Err(e) => outcomes.push(Outcome::Failed(e)),
                }
            }
        }
    }
    assert_eq!(written, vec![("a.png".to_string(), (800, 493))]);
    let report = failures(outcomes);
    assert_eq!(report.len(), 1);
    assert!(matches!(&report[0], AppError::Image { filepath, .. } if filepath.ends_with("b.txt")));
}

#[test]
fn outcomes_of_settled_and_finished_entries() {
    assert_eq!(settled_entry(Screen::Skip), Some(Outcome::Skipped));
    assert_eq!(settled_entry(Screen::Process), None);
    assert_eq!(
        settled_entry(Screen::Reject(AppError::Custom("x".to_string()))),
        Some(Outcome::Failed(AppError::Custom("x".to_string())))
    );
    assert_eq!(finish_entry(Ok(())), Outcome::Done);
    assert_eq!(finish_entry(Err(AppError::EngineNotReady)), Outcome::Failed(AppError::EngineNotReady));
}

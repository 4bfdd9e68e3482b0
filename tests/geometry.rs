use image_sorter::geometry::{band_rect, ceil_px, crop_rect, floor_px, GeometryError, Margins, Ratio, Rect};
use image_sorter::imaging::{crop_plan, region_plan};

#[test]
fn floor_and_ceil_of_fractions() {
    let r = Ratio { num: 55, den: 1000 };
    assert_eq!(ceil_px(r, 600), 33);
    assert_eq!(floor_px(r, 600), 33);
    assert_eq!(ceil_px(r, 100), 6);
    assert_eq!(floor_px(r, 100), 5);
    assert_eq!(ceil_px(r, 0), 0);
}

#[test]
fn crop_plan_of_800_by_600() {
    assert_eq!(crop_plan(800, 600), Ok(Rect { x: 0, y: 33, width: 800, height: 493 }));
}

#[test]
fn crop_plan_height_formula() {
    for h in 1u32..2000 {
        let top = (55 * h as u64 + 999) / 1000;
        let bottom = (124 * h as u64) / 1000;
        let expected = h as u64 - top - bottom;
        match crop_plan(10, h) {
            Ok(rect) => {
                assert_eq!(rect.height as u64, expected);
                assert!(rect.height < h);
                assert_eq!(rect.y as u64, top);
            }
            Err(e) => {
                assert_eq!(expected, 0);
                assert_eq!(e, GeometryError { width: 10, height: h });
            }
        }
    }
}

#[test]
fn crop_plan_of_one_row_fails() {
    assert_eq!(crop_plan(5, 1), Err(GeometryError { width: 5, height: 1 }));
    assert_eq!(crop_plan(0, 600), Err(GeometryError { width: 0, height: 600 }));
}

#[test]
fn region_plan_of_layout_size() {
    // 60/473 and 230/473 of 473 columns; 17/842 up and 53/842 down of 842 rows.
    assert_eq!(region_plan(473, 842), Ok(Rect { x: 60, y: 17, width: 170, height: 772 }));
    assert_eq!(region_plan(946, 1684), Ok(Rect { x: 120, y: 34, width: 340, height: 1544 }));
}

#[test]
fn region_plan_of_tiny_image_fails() {
    assert_eq!(region_plan(2, 2), Err(GeometryError { width: 2, height: 2 }));
}

#[test]
fn crop_rect_rounds_top_up_and_others_down() {
    let m = Margins {
        left: Ratio { num: 1, den: 3 },
        top: Ratio { num: 1, den: 3 },
        right: Ratio { num: 2, den: 3 },
        bottom: Ratio { num: 1, den: 3 },
    };
    // width 10: left edge 3, right edge 6; height 10: 4 rows off the top, 3 off the bottom.
    assert_eq!(crop_rect(10, 10, m), Ok(Rect { x: 3, y: 4, width: 3, height: 3 }));
}

#[test]
fn crop_rect_with_crossed_edges_fails() {
    let m = Margins {
        left: Ratio { num: 2, den: 3 },
        top: Ratio { num: 0, den: 1 },
        right: Ratio { num: 1, den: 3 },
        bottom: Ratio { num: 0, den: 1 },
    };
    assert_eq!(crop_rect(9, 9, m), Err(GeometryError { width: 9, height: 9 }));
}

#[test]
fn band_rect_with_overlapping_cuts_fails() {
    let half = Ratio { num: 999, den: 1000 };
    assert_eq!(band_rect(4, 4, half, half), Err(GeometryError { width: 4, height: 4 }));
    let none = Ratio { num: 0, den: 1 };
    assert_eq!(band_rect(4, 4, none, none), Ok(Rect { x: 0, y: 0, width: 4, height: 4 }));
}

#[test]
fn geometry_at_largest_size() {
    let m = crop_plan(u32::MAX, u32::MAX).unwrap();
    assert_eq!(m.width, u32::MAX);
    assert!(m.height < u32::MAX);
}

#[test]
fn largest_denominator() {
    let r = Ratio { num: u32::MAX as u64 - 1, den: u32::MAX as u64 };
    assert_eq!(floor_px(r, u32::MAX), u32::MAX - 1);
    assert_eq!(ceil_px(r, u32::MAX), u32::MAX - 1);
    assert_eq!(ceil_px(r, 1), 1);
    assert_eq!(floor_px(r, 1), 0);
}

//! Crop geometry engine and comparator tests. Pixel values are expressed
//! in the library's sub-pixel units (`PIXEL` units per pixel); tolerances
//! of one pixel become tolerances of `PIXEL` units.

use vertcrop::crop::{
    calculate_bounding_box, calculate_crop_area, calculate_crop_from_largest_head,
    calculate_four_and_five_heads_crop, calculate_no_heads_crop, calculate_single_head_crop,
    calculate_six_or_more_heads_crop, calculate_three_heads_crop, calculate_two_heads_crop,
    is_crop_class_same, is_crop_similar, CropArea, CropResult, ObjectBox, PIXEL,
};

fn px(v: f64) -> i64 {
    (v * PIXEL as f64).round() as i64
}

const TOL: i64 = PIXEL;

fn from_xywh(x: f64, y: f64, w: f64, h: f64) -> ObjectBox {
    ObjectBox { x: px(x), y: px(y), width: px(w), height: px(h), confidence: None, label: None }
}

fn from_cxcywh(cx: f64, cy: f64, w: f64, h: f64) -> ObjectBox {
    from_xywh(cx - w / 2.0, cy - h / 2.0, w, h)
}

fn from_xyxy(x1: f64, y1: f64, x2: f64, y2: f64) -> ObjectBox {
    ObjectBox {
        x: px(x1),
        y: px(y1),
        width: px(x2) - px(x1),
        height: px(y2) - px(y1),
        confidence: None,
        label: None,
    }
}

fn with_confidence(b: ObjectBox, c: f64) -> ObjectBox {
    ObjectBox { confidence: Some((c * 1_000_000.0) as i64), ..b }
}

fn xmin(b: &ObjectBox) -> i64 {
    b.x
}

fn xmax(b: &ObjectBox) -> i64 {
    b.x + b.width
}

fn cx(b: &ObjectBox) -> i64 {
    b.x + b.width / 2
}

fn in_bounds(crop: &CropArea, frame_width: i64, frame_height: i64) {
    assert!(crop.x >= 0);
    assert!(crop.y >= 0);
    assert!(crop.x + crop.width <= frame_width);
    assert!(crop.y + crop.height <= frame_height);
}

#[test]
fn test_calculate_bounding_box() {
    // Single head.
    let head = from_xywh(300.0, 300.0, 100.0, 100.0);
    let bbox = calculate_bounding_box(&vec![head]);
    assert!((bbox.x - px(300.0)).abs() < TOL);
    assert!((bbox.y - px(300.0)).abs() < TOL);
    assert!((bbox.width - px(100.0)).abs() < TOL);
    assert!((bbox.height - px(100.0)).abs() < TOL);

    // Two heads.
    let head1 = from_xywh(300.0, 300.0, 100.0, 100.0);
    let head2 = from_xywh(1000.0, 300.0, 100.0, 100.0);
    let bbox = calculate_bounding_box(&vec![head1, head2]);
    assert!((bbox.x - px(300.0)).abs() < TOL);
    assert!((bbox.y - px(300.0)).abs() < TOL);
    assert!((bbox.width - px(800.0)).abs() < TOL);
    assert!((bbox.height - px(100.0)).abs() < TOL);

    // Two heads with one at the right edge.
    let head1 = from_xyxy(1063.6982, 335.45892, 1262.3218, 646.60675);
    let head2 = from_xyxy(1846.0652, 228.14204, 1919.9954, 533.70746);
    let bbox = calculate_bounding_box(&vec![head1, head2]);
    assert!((bbox.x - px(1063.6982)).abs() < TOL);
    assert!((bbox.y - px(228.14204)).abs() < TOL);
    assert!((bbox.width - px(856.2972)).abs() < TOL);
    assert!((bbox.height - px(418.46471)).abs() < TOL);

    // Three heads in a triangle formation.
    let head1 = from_xywh(300.0, 300.0, 100.0, 100.0);
    let head2 = from_xywh(1000.0, 300.0, 100.0, 100.0);
    let head3 = from_xywh(1000.0, 1000.0, 100.0, 100.0);
    let bbox = calculate_bounding_box(&vec![head1, head2, head3]);
    assert!((bbox.x - px(300.0)).abs() < TOL);
    assert!((bbox.y - px(300.0)).abs() < TOL);
    assert!((bbox.width - px(800.0)).abs() < TOL);
    assert!((bbox.height - px(800.0)).abs() < TOL);

    // Empty vector.
    let bbox = calculate_bounding_box(&vec![]);
    assert_eq!(bbox.x, 0);
    assert_eq!(bbox.y, 0);
    assert_eq!(bbox.width, 0);
    assert_eq!(bbox.height, 0);
}

#[test]
fn test_calculate_no_heads_crop() {
    let frame_width = px(1920.0);
    let frame_height = px(1080.0);

    let crop = calculate_no_heads_crop(frame_width, frame_height, false);

    match crop {
        CropResult::Single(crop) => {
            assert!((crop.height - frame_height).abs() < TOL);
            let expected_width = 3 * frame_height / 4;
            assert!((crop.width - expected_width).abs() < TOL);
            let expected_x = (frame_width - expected_width) / 2;
            assert!((crop.x - expected_x).abs() < TOL);
            assert!(crop.y.abs() < TOL);
            in_bounds(&crop, frame_width, frame_height);
        }
        _ => panic!("Expected single crop for no heads case"),
    }
}

#[test]
fn test_calculate_no_heads_crop_graphic() {
    let frame_width = px(1920.0);
    let frame_height = px(1080.0);

    let crop = calculate_no_heads_crop(frame_width, frame_height, true);

    match crop {
        CropResult::Resize(crop) => {
            assert_eq!(crop.x, 0);
            assert_eq!(crop.y, 0);
            assert_eq!(crop.width, frame_width);
            assert_eq!(crop.height, frame_height);
        }
        _ => panic!("Expected resize crop for graphic mode"),
    }
}

#[test]
fn test_calculate_single_head_crop() {
    let frame_width = px(1920.0);
    let frame_height = px(1080.0);

    // Centered head.
    let head = from_cxcywh(960.0, 540.0, 100.0, 100.0);
    let crop = calculate_single_head_crop(frame_width, frame_height, &head);
    match crop {
        CropResult::Single(crop) => {
            assert!((crop.height - frame_height).abs() < TOL);
            let expected_width = 3 * frame_height / 4;
            assert!((crop.width - expected_width).abs() < TOL);
            assert!((crop.x + crop.width / 2 - frame_width / 2).abs() < TOL);
            in_bounds(&crop, frame_width, frame_height);
        }
        _ => panic!("Expected single crop for single head case"),
    }

    // Head on the far left.
    let head = from_cxcywh(50.0, 540.0, 100.0, 100.0);
    let crop = calculate_single_head_crop(frame_width, frame_height, &head);
    match crop {
        CropResult::Single(crop) => {
            assert!((crop.height - frame_height).abs() < TOL);
            let expected_width = 3 * frame_height / 4;
            assert!((crop.width - expected_width).abs() < TOL);
            assert!(crop.x.abs() < TOL);
            in_bounds(&crop, frame_width, frame_height);
        }
        _ => panic!("Expected single crop for single head case"),
    }

    // Head on the far right.
    let head = from_cxcywh(1870.0, 540.0, 100.0, 100.0);
    let crop = calculate_single_head_crop(frame_width, frame_height, &head);
    match crop {
        CropResult::Single(crop) => {
            assert!((crop.height - frame_height).abs() < TOL);
            let expected_width = 3 * frame_height / 4;
            assert!((crop.width - expected_width).abs() < TOL);
            assert!((crop.x + crop.width - frame_width).abs() < TOL);
            in_bounds(&crop, frame_width, frame_height);
        }
        _ => panic!("Expected single crop for single head case"),
    }
}

#[test]
fn test_calculate_two_heads_crop_close() {
    let frame_width = px(1920.0);
    let frame_height = px(1080.0);

    let head1 = from_xywh(300.0, 300.0, 100.0, 100.0);
    let head2 = from_xywh(450.0, 300.0, 100.0, 100.0);
    let crop = calculate_two_heads_crop(true, frame_width, frame_height, &head1, &head2);

    match crop {
        CropResult::Single(crop) => {
            assert!((crop.height - frame_height).abs() < TOL);
            let expected_width = 3 * frame_height / 4;
            assert!((crop.width - expected_width).abs() < TOL);
            let bbox_center_x = px(425.0);
            assert!((crop.x + crop.width / 2 - bbox_center_x).abs() < TOL);
            in_bounds(&crop, frame_width, frame_height);
            assert!(crop.x <= head1.x);
            assert!(crop.x + crop.width >= xmax(&head2));
        }
        _ => panic!("Expected single crop for close heads case"),
    }
}

#[test]
fn test_calculate_two_heads_crop_far() {
    let frame_width = px(1920.0);
    let frame_height = px(1080.0);

    let head1 = from_cxcywh(480.0, 540.0, 100.0, 100.0);
    let head2 = from_cxcywh(1440.0, 540.0, 100.0, 100.0);
    let crop = calculate_two_heads_crop(true, frame_width, frame_height, &head1, &head2);

    match crop {
        CropResult::Stacked(crop1, crop2) => {
            let expected_width = frame_width / 2;
            assert!((crop1.width - expected_width).abs() < TOL);
            assert!((crop2.width - expected_width).abs() < TOL);
            let expected_height = 8 * expected_width / 9;
            assert!((crop1.height - expected_height).abs() < TOL);
            assert!((crop2.height - expected_height).abs() < TOL);
            assert!(crop1.x.abs() < TOL);
            assert!((crop2.x - frame_width / 2).abs() < TOL);
            let expected_y = (frame_height - expected_height) / 2;
            assert!((crop1.y - expected_y).abs() < TOL);
            assert!((crop2.y - expected_y).abs() < TOL);
            in_bounds(&crop1, frame_width, frame_height);
            in_bounds(&crop2, frame_width, frame_height);
        }
        _ => panic!("Expected stacked crops for far heads case"),
    }
}

#[test]
fn test_calculate_two_heads_crop_far_with_edge_heads() {
    let frame_width = px(1920.0);
    let frame_height = px(1080.0);

    // One head near the top, one near the bottom.
    let head1 = from_cxcywh(480.0, 50.0, 100.0, 100.0);
    let head2 = from_cxcywh(1440.0, 1030.0, 100.0, 100.0);
    let crop = calculate_two_heads_crop(true, frame_width, frame_height, &head1, &head2);

    match crop {
        CropResult::Stacked(crop1, crop2) => {
            let expected_width = frame_width / 2;
            assert!((crop1.width - expected_width).abs() < TOL);
            assert!((crop2.width - expected_width).abs() < TOL);
            let expected_height = 8 * expected_width / 9;
            assert!((crop1.height - expected_height).abs() < TOL);
            assert!((crop2.height - expected_height).abs() < TOL);
            assert!(crop1.x.abs() < TOL);
            assert!((crop2.x - frame_width / 2).abs() < TOL);
            // First crop nudged to the top, second to the bottom.
            assert!(crop1.y.abs() < TOL);
            assert!((crop2.y - (frame_height - expected_height)).abs() < TOL);
            in_bounds(&crop1, frame_width, frame_height);
            in_bounds(&crop2, frame_width, frame_height);
        }
        _ => panic!("Expected stacked crops for far heads case"),
    }
}

#[test]
fn test_calculate_two_heads_crop_far_with_spanning_head() {
    let frame_width = px(1920.0);
    let frame_height = px(1080.0);

    // A head that spans both halves, and one far to the right.
    let head1 = from_cxcywh(960.0, 540.0, 400.0, 100.0);
    let head2 = from_cxcywh(1720.0, 540.0, 100.0, 100.0);

    let crop = calculate_two_heads_crop(true, frame_width, frame_height, &head1, &head2);

    match crop {
        CropResult::Stacked(crop1, crop2) => {
            let expected_width = frame_width / 2;
            assert!((crop1.width - expected_width).abs() < TOL);
            assert!((crop2.width - expected_width).abs() < TOL);
            let expected_height = 8 * expected_width / 9;
            assert!((crop1.height - expected_height).abs() < TOL);
            assert!((crop2.height - expected_height).abs() < TOL);
            let expected_y = (frame_height - expected_height) / 2;
            assert!((crop1.y - expected_y).abs() < TOL);
            assert!((crop2.y - expected_y).abs() < TOL);
            // Crop1 adjusted to fully contain head1.
            assert!(crop1.x <= xmin(&head1));
            assert!(crop1.x + crop1.width >= xmax(&head1));
            // Crop2 still contains head2.
            assert!(crop2.x <= xmin(&head2));
            assert!(crop2.x + crop2.width >= xmax(&head2));
            in_bounds(&crop1, frame_width, frame_height);
            in_bounds(&crop2, frame_width, frame_height);
        }
        _ => panic!("Expected stacked crops for far heads case"),
    }
}

#[test]
fn test_calculate_two_heads_crop_specific_heads() {
    let frame_width = px(1920.0);
    let frame_height = px(1080.0);

    let head1 = from_xyxy(1063.6982, 335.45892, 1262.3218, 646.60675);
    let head2 = from_xyxy(1846.0652, 228.14204, 1919.9954, 533.70746);

    let crop = calculate_two_heads_crop(true, frame_width, frame_height, &head1, &head2);

    match crop {
        CropResult::Stacked(crop1, crop2) => {
            let expected_width = frame_width / 2;
            assert!((crop1.width - expected_width).abs() < TOL);
            assert!((crop2.width - expected_width).abs() < TOL);
            let expected_height = 8 * expected_width / 9;
            assert!((crop1.height - expected_height).abs() < TOL);
            assert!((crop2.height - expected_height).abs() < TOL);
            in_bounds(&crop1, frame_width, frame_height);
            in_bounds(&crop2, frame_width, frame_height);

            let head1_in_crop1 = xmin(&head1) >= crop1.x && xmax(&head1) <= crop1.x + crop1.width;
            let head1_in_crop2 = xmin(&head1) >= crop2.x && xmax(&head1) <= crop2.x + crop2.width;
            assert!(
                head1_in_crop1 || head1_in_crop2,
                "Head1 should be fully contained in at least one crop"
            );

            let head2_in_crop1 = xmin(&head2) >= crop1.x && xmax(&head2) <= crop1.x + crop1.width;
            let head2_in_crop2 = xmin(&head2) >= crop2.x && xmax(&head2) <= crop2.x + crop2.width;
            assert!(
                head2_in_crop1 || head2_in_crop2,
                "Head2 should be fully contained in at least one crop"
            );
        }
        _ => panic!("Expected stacked crops for far heads case"),
    }
}

#[test]
fn test_calculate_four_and_five_heads_crop_close() {
    let frame_width = px(1920.0);
    let frame_height = px(1080.0);

    let head1 = from_cxcywh(860.0, 540.0, 100.0, 100.0);
    let head2 = from_cxcywh(960.0, 540.0, 100.0, 100.0);
    let head3 = from_cxcywh(1060.0, 540.0, 100.0, 100.0);
    let heads = vec![head1, head2, head3];

    let crop = calculate_four_and_five_heads_crop(true, frame_width, frame_height, &heads);

    match crop {
        CropResult::Single(crop) => {
            assert!((crop.height - frame_height).abs() < TOL);
            let expected_width = 3 * frame_height / 4;
            assert!((crop.width - expected_width).abs() < TOL);
            let bbox = calculate_bounding_box(&heads);
            let bbox_center_x = bbox.x + bbox.width / 2;
            assert!((crop.x + crop.width / 2 - bbox_center_x).abs() < TOL);
            in_bounds(&crop, frame_width, frame_height);
            assert!(crop.x <= cx(&head1));
            assert!(crop.x + crop.width >= cx(&head3));
        }
        _ => panic!("Expected single crop for close heads case"),
    }
}

#[test]
fn test_calculate_four_and_five_heads_crop_far_default() {
    let frame_width = px(1920.0);
    let frame_height = px(1080.0);

    let head1 = from_cxcywh(200.0, 540.0, 100.0, 100.0);
    let head2 = from_cxcywh(1200.0, 540.0, 100.0, 100.0);
    let head3 = from_cxcywh(1800.0, 540.0, 100.0, 100.0);
    let heads = vec![head1, head2, head3];

    let crop = calculate_four_and_five_heads_crop(true, frame_width, frame_height, &heads);

    match crop {
        CropResult::Stacked(crop1, crop2) => {
            let expected_width = frame_width / 2;
            let expected_height = 8 * expected_width / 9;
            assert!((crop1.height - expected_height).abs() < TOL);
            assert!((crop2.height - expected_height).abs() < TOL);
            assert!((crop1.width - expected_width).abs() < TOL);
            assert!((crop2.width - expected_width).abs() < TOL);
            let expected_y = (frame_height - expected_height) / 2;
            assert!((crop1.y - expected_y).abs() < TOL);
            assert!((crop2.y - expected_y).abs() < TOL);
            assert!(crop1.x.abs() < TOL);
            assert!((crop2.x - frame_width / 2).abs() < TOL);
            in_bounds(&crop1, frame_width, frame_height);
            in_bounds(&crop2, frame_width, frame_height);

            for head in &heads {
                let in_crop1 = xmin(head) >= crop1.x && xmax(head) <= crop1.x + crop1.width;
                let in_crop2 = xmin(head) >= crop2.x && xmax(head) <= crop2.x + crop2.width;
                assert!(
                    in_crop1 || in_crop2,
                    "Head should be fully contained in at least one crop"
                );
            }
        }
        _ => panic!("Expected stacked crops for far heads case"),
    }
}

#[test]
fn test_calculate_four_and_five_heads_crop_all_heads_contained_with_vertical_adjust() {
    let frame_width = px(1920.0);
    let frame_height = px(1080.0);

    // Left-side heads near the top; right-side heads near the bottom.
    let head_left_top = from_cxcywh(200.0, 60.0, 100.0, 100.0);
    let head_left_top2 = from_cxcywh(400.0, 65.0, 100.0, 100.0);
    let head_right_bottom = from_cxcywh(1520.0, 1020.0, 100.0, 100.0);
    let head_right_bottom2 = from_cxcywh(1720.0, 1015.0, 100.0, 100.0);
    let heads = vec![head_left_top, head_left_top2, head_right_bottom, head_right_bottom2];

    let crop = calculate_four_and_five_heads_crop(true, frame_width, frame_height, &heads);

    match crop {
        CropResult::Stacked(crop1, crop2) => {
            let expected_width = frame_width / 2;
            let expected_height = 8 * expected_width / 9;

            // Left crop nudged to the top, right crop to the bottom.
            assert!(crop1.y.abs() < TOL);
            assert!((crop2.y - (frame_height - expected_height)).abs() < TOL);

            assert!((crop1.width - expected_width).abs() < TOL);
            assert!((crop2.width - expected_width).abs() < TOL);
            assert!((crop1.height - expected_height).abs() < TOL);
            assert!((crop2.height - expected_height).abs() < TOL);

            // Horizontal positions stay at the default halves.
            assert!(crop1.x.abs() < TOL);
            assert!((crop2.x - expected_width).abs() < TOL);
        }
        _ => panic!("Expected stacked crops for all_heads_contained with vertical adjust case"),
    }
}

#[test]
fn test_calculate_four_and_five_heads_crop_far_adjusted() {
    let frame_width = px(1920.0);
    let frame_height = px(1080.0);

    let head1 = from_cxcywh(400.0, 540.0, 100.0, 100.0);
    let head2 = from_cxcywh(1000.0, 540.0, 200.0, 100.0);
    let head3 = from_cxcywh(1600.0, 540.0, 100.0, 100.0);
    let heads = vec![head1, head2, head3];

    let crop = calculate_four_and_five_heads_crop(true, frame_width, frame_height, &heads);

    match crop {
        CropResult::Stacked(crop1, crop2) => {
            let expected_width = frame_width / 2;
            let expected_height = 8 * expected_width / 9;
            assert!((crop1.height - expected_height).abs() < TOL);
            assert!((crop2.height - expected_height).abs() < TOL);
            assert!((crop1.width - expected_width).abs() < TOL);
            assert!((crop2.width - expected_width).abs() < TOL);
            let expected_y = (frame_height - expected_height) / 2;
            assert!((crop1.y - expected_y).abs() < TOL);
            assert!((crop2.y - expected_y).abs() < TOL);

            assert!(crop1.x <= xmin(&head1));
            assert!(crop1.x + crop1.width >= xmax(&head1));
            assert!(crop2.x <= xmin(&head3));
            assert!(crop2.x + crop2.width >= xmax(&head3));
            in_bounds(&crop1, frame_width, frame_height);
            in_bounds(&crop2, frame_width, frame_height);

            for head in &heads {
                let in_crop1 = xmin(head) >= crop1.x && xmax(head) <= crop1.x + crop1.width;
                let in_crop2 = xmin(head) >= crop2.x && xmax(head) <= crop2.x + crop2.width;
                assert!(
                    in_crop1 || in_crop2,
                    "Head should be fully contained in at least one crop"
                );
            }
        }
        _ => panic!("Expected stacked crops for far heads case"),
    }
}

#[test]
fn test_calculate_more_than_five_heads_crop() {
    let frame_width = px(1920.0);
    let frame_height = px(1080.0);

    let head1 = from_cxcywh(320.0, 180.0, 100.0, 100.0);
    let head2 = from_cxcywh(640.0, 360.0, 100.0, 100.0);
    let head3 = from_cxcywh(960.0, 540.0, 100.0, 100.0);
    let head4 = from_cxcywh(1280.0, 720.0, 100.0, 100.0);
    let head5 = from_cxcywh(1600.0, 900.0, 100.0, 100.0);
    let head6 = from_cxcywh(1820.0, 980.0, 100.0, 100.0);
    let heads = vec![head1, head2, head3, head4, head5, head6];

    let crop = calculate_crop_from_largest_head(frame_width, frame_height, &heads);

    match crop {
        CropResult::Single(crop) => {
            assert!((crop.height - frame_height).abs() < TOL);
            let expected_width = 3 * frame_height / 4;
            assert!((crop.width - expected_width).abs() < TOL);
            // Centered on the largest head unless clamped at an edge.
            let largest_center = cx(&head6);
            if crop.x > 0 && crop.x + crop.width < frame_width {
                assert!((crop.x + crop.width / 2 - largest_center).abs() < TOL);
            }
            assert!(crop.y.abs() < TOL);
            in_bounds(&crop, frame_width, frame_height);
        }
        _ => panic!("Expected single crop for more than 5 heads case"),
    }
}

#[test]
fn test_calculate_more_than_five_heads_crop_edge_head() {
    let frame_width = px(1920.0);
    let frame_height = px(1080.0);

    let head1 = from_cxcywh(320.0, 180.0, 100.0, 100.0);
    let head2 = from_cxcywh(640.0, 360.0, 100.0, 100.0);
    let head3 = from_cxcywh(960.0, 540.0, 100.0, 100.0);
    let head4 = from_cxcywh(1280.0, 720.0, 100.0, 100.0);
    let head5 = from_cxcywh(1600.0, 900.0, 100.0, 100.0);
    // The largest head, near the right edge.
    let head6 = from_cxcywh(1670.0, 540.0, 200.0, 200.0);
    let heads = vec![head1, head2, head3, head4, head5, head6];

    let crop = calculate_crop_from_largest_head(frame_width, frame_height, &heads);

    match crop {
        CropResult::Single(crop) => {
            assert!((crop.height - frame_height).abs() < TOL);
            let expected_width = 3 * frame_height / 4;
            assert!((crop.width - expected_width).abs() < TOL);
            // Clamped to the right edge.
            assert!((crop.x + crop.width - frame_width).abs() < TOL);
            assert!(crop.y.abs() < TOL);
            in_bounds(&crop, frame_width, frame_height);
        }
        _ => panic!("Expected single crop for more than 5 heads case"),
    }
}

#[test]
fn test_calculate_crop_area() {
    let frame_width = px(1920.0);
    let frame_height = px(1080.0);

    // No heads.
    let heads: Vec<ObjectBox> = vec![];
    let crop = calculate_crop_area(true, false, frame_width, frame_height, &heads);
    assert!(matches!(crop, CropResult::Single(_)));

    // Single head.
    let head = with_confidence(from_cxcywh(960.0, 540.0, 100.0, 100.0), 0.9);
    let crop = calculate_crop_area(true, false, frame_width, frame_height, &vec![head]);
    assert!(matches!(crop, CropResult::Single(_)));

    // Two heads.
    let head1 = with_confidence(from_cxcywh(480.0, 540.0, 100.0, 100.0), 0.9);
    let head2 = with_confidence(from_cxcywh(1440.0, 540.0, 100.0, 100.0), 0.9);
    let crop = calculate_crop_area(true, false, frame_width, frame_height, &vec![head1, head2]);
    assert!(matches!(crop, CropResult::Stacked(_, _)));

    // Three heads.
    let head1 = with_confidence(from_cxcywh(480.0, 270.0, 100.0, 100.0), 0.9);
    let head2 = with_confidence(from_cxcywh(960.0, 540.0, 100.0, 100.0), 0.9);
    let head3 = with_confidence(from_cxcywh(1440.0, 810.0, 100.0, 100.0), 0.9);
    let crop = calculate_crop_area(true, false, frame_width, frame_height, &vec![head1, head2, head3]);
    assert!(matches!(crop, CropResult::Stacked(_, _)));

    // More than five heads.
    let head1 = with_confidence(from_cxcywh(320.0, 180.0, 100.0, 100.0), 0.9);
    let head2 = with_confidence(from_cxcywh(640.0, 360.0, 100.0, 100.0), 0.9);
    let head3 = with_confidence(from_cxcywh(960.0, 540.0, 100.0, 100.0), 0.9);
    let head4 = with_confidence(from_cxcywh(1280.0, 720.0, 100.0, 100.0), 0.9);
    let head5 = with_confidence(from_cxcywh(1600.0, 900.0, 100.0, 100.0), 0.9);
    let head6 = with_confidence(from_cxcywh(1820.0, 980.0, 100.0, 100.0), 0.9);
    let crop = calculate_crop_area(
        true, false, frame_width, frame_height,
        &vec![head1, head2, head3, head4, head5, head6],
    );
    assert!(matches!(crop, CropResult::Single(_)));
}

#[test]
fn test_calculate_crop_area_graphic() {
    let frame_width = px(1920.0);
    let frame_height = px(1080.0);

    // No heads with graphic mode.
    let heads: Vec<ObjectBox> = vec![];
    let crop = calculate_crop_area(true, true, frame_width, frame_height, &heads);
    assert!(matches!(crop, CropResult::Resize(_)));

    // Single head with graphic mode: still Single, not Resize.
    let head = with_confidence(from_cxcywh(960.0, 540.0, 100.0, 100.0), 0.9);
    let crop = calculate_crop_area(true, true, frame_width, frame_height, &vec![head]);
    assert!(matches!(crop, CropResult::Single(_)));

    // More than five heads with graphic mode.
    let head1 = with_confidence(from_cxcywh(320.0, 180.0, 100.0, 100.0), 0.9);
    let head2 = with_confidence(from_cxcywh(640.0, 360.0, 100.0, 100.0), 0.9);
    let head3 = with_confidence(from_cxcywh(960.0, 540.0, 100.0, 100.0), 0.9);
    let head4 = with_confidence(from_cxcywh(1280.0, 720.0, 100.0, 100.0), 0.9);
    let head5 = with_confidence(from_cxcywh(1600.0, 900.0, 100.0, 100.0), 0.9);
    let head6 = with_confidence(from_cxcywh(1820.0, 980.0, 100.0, 100.0), 0.9);
    let crop = calculate_crop_area(
        true, true, frame_width, frame_height,
        &vec![head1, head2, head3, head4, head5, head6],
    );
    assert!(matches!(crop, CropResult::Single(_)));
}

#[test]
fn test_is_within_percentage() {
    let frame_width = px(1920.0);
    let threshold: i64 = 5;
    let max_diff = frame_width * threshold / 100;

    // Identical values.
    let crop1 = CropArea::new(px(100.0), px(100.0), px(200.0), px(200.0));
    let crop2 = CropArea::new(px(100.0), px(100.0), px(200.0), px(200.0));
    assert!(crop1.is_within_percentage(&crop2, frame_width, threshold));

    // Small difference, well within threshold.
    let crop1 = CropArea::new(px(100.0), px(100.0), px(200.0), px(200.0));
    let crop2 = CropArea::new(px(150.0), px(100.0), px(250.0), px(200.0));
    assert!(crop1.is_within_percentage(&crop2, frame_width, threshold));

    // Difference exactly at the threshold.
    let crop1 = CropArea::new(px(100.0), px(100.0), px(200.0), px(200.0));
    let crop2 = CropArea::new(px(100.0) + max_diff, px(100.0), px(200.0) + max_diff, px(200.0));
    assert!(crop1.is_within_percentage(&crop2, frame_width, threshold));

    // Difference just over the threshold.
    let crop1 = CropArea::new(px(100.0), px(100.0), px(200.0), px(200.0));
    let crop2 = CropArea::new(
        px(100.0) + max_diff + px(1.0),
        px(100.0),
        px(200.0) + max_diff + px(1.0),
        px(200.0),
    );
    assert!(!crop1.is_within_percentage(&crop2, frame_width, threshold));

    // All zero values.
    let crop1 = CropArea::new(0, 0, 0, 0);
    let crop2 = CropArea::new(0, 0, 0, 0);
    assert!(crop1.is_within_percentage(&crop2, frame_width, threshold));

    // One zero and one non-zero value within the threshold.
    let crop1 = CropArea::new(0, 0, 0, 0);
    let crop2 = CropArea::new(px(1.0), 0, px(1.0), 0);
    assert!(crop1.is_within_percentage(&crop2, frame_width, threshold));

    // Different threshold values.
    let crop1 = CropArea::new(px(100.0), px(100.0), px(200.0), px(200.0));
    let crop2 = CropArea::new(px(200.0), px(100.0), px(300.0), px(200.0));
    assert!(!crop1.is_within_percentage(&crop2, frame_width, 5));
    assert!(crop1.is_within_percentage(&crop2, frame_width, 10));
    assert!(crop1.is_within_percentage(&crop2, frame_width, 15));

    // Mixed differences: x within threshold, width over it.
    let crop1 = CropArea::new(px(100.0), px(100.0), px(200.0), px(200.0));
    let crop2 = CropArea::new(px(150.0), px(100.0), px(300.0), px(200.0));
    assert!(!crop1.is_within_percentage(&crop2, frame_width, threshold));
}

#[test]
fn test_calculate_two_heads_crop_far_no_stack() {
    let frame_width = px(1920.0);
    let frame_height = px(1080.0);

    let head1 = from_cxcywh(480.0, 540.0, 100.0, 100.0);
    let head2 = from_cxcywh(1440.0, 540.0, 100.0, 100.0);
    let crop = calculate_two_heads_crop(false, frame_width, frame_height, &head1, &head2);

    match crop {
        CropResult::Single(crop) => {
            assert!((crop.height - frame_height).abs() < TOL);
            let expected_width = 3 * frame_height / 4;
            assert!((crop.width - expected_width).abs() < TOL);
            in_bounds(&crop, frame_width, frame_height);
        }
        _ => panic!("Expected single crop when use_stack_crop is false"),
    }
}

#[test]
fn test_calculate_four_and_five_heads_crop_far_no_stack() {
    let frame_width = px(1920.0);
    let frame_height = px(1080.0);

    let head1 = from_cxcywh(200.0, 540.0, 100.0, 100.0);
    let head2 = from_cxcywh(1000.0, 540.0, 200.0, 100.0); // Largest head.
    let head3 = from_cxcywh(1800.0, 540.0, 100.0, 100.0);
    let heads = vec![head1, head2, head3];

    let crop = calculate_four_and_five_heads_crop(false, frame_width, frame_height, &heads);

    match crop {
        CropResult::Single(crop) => {
            assert!((crop.height - frame_height).abs() < TOL);
            let expected_width = 3 * frame_height / 4;
            assert!((crop.width - expected_width).abs() < TOL);
            let largest_head_center = cx(&head2);
            assert!((crop.x + crop.width / 2 - largest_head_center).abs() < TOL);
            in_bounds(&crop, frame_width, frame_height);
        }
        _ => panic!("Expected single crop when use_stack_crop is false"),
    }
}

fn check_three_heads_special(
    crop: CropResult,
    head1: &ObjectBox,
    head2: &ObjectBox,
    head3: &ObjectBox,
    frame_width: i64,
    frame_height: i64,
    mismatch_message: &str,
) {
    match crop {
        CropResult::Stacked(crop1, crop2) => {
            // First crop: 80% height, 9:6 aspect ratio, 10% from the top.
            let expected_crop1_height = 4 * frame_height / 5;
            let expected_crop1_width = 3 * expected_crop1_height / 2;
            assert!((crop1.height - expected_crop1_height).abs() < TOL);
            assert!((crop1.width - expected_crop1_width).abs() < TOL);
            assert!((crop1.y - frame_height / 10).abs() < TOL);

            // Second crop: 80% height, 9:10 aspect ratio, 15% from the top.
            let expected_crop2_height = 4 * frame_height / 5;
            let expected_crop2_width = 9 * expected_crop2_height / 10;
            assert!((crop2.height - expected_crop2_height).abs() < TOL);
            assert!((crop2.width - expected_crop2_width).abs() < TOL);
            assert!((crop2.y - 3 * frame_height / 20).abs() < TOL);

            in_bounds(&crop1, frame_width, frame_height);
            in_bounds(&crop2, frame_width, frame_height);

            let head1_in_crop1 = xmin(head1) >= crop1.x && xmax(head1) <= crop1.x + crop1.width;
            let head2_in_crop1 = xmin(head2) >= crop1.x && xmax(head2) <= crop1.x + crop1.width;
            assert!(head1_in_crop1, "First crop should contain the leftmost head");
            assert!(head2_in_crop1, "First crop should contain head2");

            let head3_in_crop2 = xmin(head3) >= crop2.x && xmax(head3) <= crop2.x + crop2.width;
            assert!(head3_in_crop2, "Second crop should contain head3");
        }
        _ => panic!("{}", mismatch_message),
    }
}

#[test]
fn test_calculate_three_heads_crop_real_world() {
    let frame_width = px(1920.0);
    let frame_height = px(1080.0);

    let head1 = from_xyxy(114.34512, 265.61224, 304.0035, 513.53564);
    let head2 = from_xyxy(531.13, 213.28334, 704.7175, 470.2871);
    let head3 = from_xyxy(943.43054, 278.49518, 1161.655, 579.9011);
    let heads = vec![head1, head2, head3];
    let crop = calculate_three_heads_crop(true, frame_width, frame_height, &heads);
    check_three_heads_special(
        crop, &head1, &head2, &head3, frame_width, frame_height,
        "Expected stacked crops for real world case",
    );
}

#[test]
fn test_calculate_three_heads_crop_real_world_lex() {
    let frame_width = px(1920.0);
    let frame_height = px(1080.0);

    let head1 = from_xyxy(459.09668, 252.47464, 587.0282, 434.82794);
    let head2 = from_xyxy(864.88776, 344.61285, 1026.0613, 568.9608);
    let head3 = from_xyxy(1477.2578, 277.67084, 1673.3591, 527.8382);
    let heads = vec![head1, head2, head3];
    let crop = calculate_three_heads_crop(true, frame_width, frame_height, &heads);
    check_three_heads_special(
        crop, &head1, &head2, &head3, frame_width, frame_height,
        "Expected stacked crops for real world case",
    );
}

#[test]
fn test_calculate_three_heads_crop_special_case() {
    let frame_width = px(1920.0);
    let frame_height = px(1080.0);

    // Similar sizes, equally spaced.
    let head1 = from_cxcywh(400.0, 540.0, 100.0, 100.0);
    let head2 = from_cxcywh(960.0, 540.0, 100.0, 100.0);
    let head3 = from_cxcywh(1520.0, 540.0, 100.0, 100.0);
    let heads = vec![head1, head2, head3];

    let crop = calculate_three_heads_crop(true, frame_width, frame_height, &heads);
    check_three_heads_special(
        crop, &head1, &head2, &head3, frame_width, frame_height,
        "Expected stacked crops for special three heads case",
    );
}

#[test]
fn test_calculate_three_heads_crop_fallback() {
    let frame_width = px(1920.0);
    let frame_height = px(1080.0);

    // Sizes differ too much: the middle head is far larger.
    let head1 = from_cxcywh(400.0, 540.0, 100.0, 100.0);
    let head2 = from_cxcywh(960.0, 540.0, 200.0, 200.0);
    let head3 = from_cxcywh(1520.0, 540.0, 100.0, 100.0);
    let heads = vec![head1, head2, head3];

    let crop = calculate_three_heads_crop(true, frame_width, frame_height, &heads);

    // Falls back to the four-and-five-heads logic: far apart, stacked with
    // the default half-stack dimensions.
    match crop {
        CropResult::Stacked(crop1, crop2) => {
            let expected_width = frame_width / 2;
            let expected_height = 8 * expected_width / 9;
            assert!((crop1.height - expected_height).abs() < TOL);
            assert!((crop2.height - expected_height).abs() < TOL);
            assert!((crop1.width - expected_width).abs() < TOL);
            assert!((crop2.width - expected_width).abs() < TOL);
        }
        _ => panic!("Expected stacked crops for fallback case"),
    }
}

#[test]
fn test_calculate_crop_area_no_stack() {
    let frame_width = px(1920.0);
    let frame_height = px(1080.0);

    // Two heads with use_stack_crop = false.
    let head1 = with_confidence(from_cxcywh(480.0, 540.0, 100.0, 100.0), 0.9);
    let head2 = with_confidence(from_cxcywh(1440.0, 540.0, 100.0, 100.0), 0.9);
    let crop = calculate_crop_area(false, false, frame_width, frame_height, &vec![head1, head2]);
    assert!(matches!(crop, CropResult::Single(_)));

    // Three heads with use_stack_crop = false.
    let head1 = with_confidence(from_cxcywh(480.0, 270.0, 100.0, 100.0), 0.9);
    let head2 = with_confidence(from_cxcywh(960.0, 540.0, 200.0, 200.0), 0.9);
    let head3 = with_confidence(from_cxcywh(1440.0, 810.0, 100.0, 100.0), 0.9);
    let crop = calculate_crop_area(false, false, frame_width, frame_height, &vec![head1, head2, head3]);
    assert!(matches!(crop, CropResult::Single(_)));
}

#[test]
fn zero_area_frame_is_defined() {
    // A degenerate frame is a defined case, not an error.
    let crop = calculate_crop_area(true, false, 0, 0, &vec![]);
    match crop {
        CropResult::Single(c) => {
            assert_eq!((c.x, c.y, c.width, c.height), (0, 0, 0, 0));
        }
        _ => panic!("Expected single crop for a degenerate frame"),
    }
    let crop = calculate_crop_area(true, true, 0, 0, &vec![]);
    match crop {
        CropResult::Resize(c) => {
            assert_eq!((c.x, c.y, c.width, c.height), (0, 0, 0, 0));
        }
        _ => panic!("Expected resize crop for a degenerate graphic frame"),
    }
}

#[test]
fn test_has_crop_class_changed() {
    // Same class.
    assert!(is_crop_class_same(0, 0));
    assert!(is_crop_class_same(1, 1));
    assert!(is_crop_class_same(2, 2));
    assert!(is_crop_class_same(3, 3));
    assert!(is_crop_class_same(4, 4));
    assert!(is_crop_class_same(5, 5));
    assert!(is_crop_class_same(6, 6));
    assert!(is_crop_class_same(10, 10));

    // Different classes.
    assert!(!is_crop_class_same(0, 1));
    assert!(!is_crop_class_same(1, 2));
    assert!(!is_crop_class_same(2, 3));
    assert!(!is_crop_class_same(3, 4));
    assert!(!is_crop_class_same(0, 6));
    assert!(!is_crop_class_same(1, 10));

    // Within the same class.
    assert!(is_crop_class_same(4, 5));
    assert!(is_crop_class_same(6, 7));
    assert!(is_crop_class_same(6, 10));
    assert!(is_crop_class_same(7, 15));

    // Edge cases.
    assert!(!is_crop_class_same(2, 3));
    assert!(!is_crop_class_same(3, 4));
    assert!(!is_crop_class_same(0, 100));
}

#[test]
fn test_is_crop_similar_resize() {
    let frame_width = px(1920.0);
    let threshold: i64 = 5;

    // Identical resize crops.
    let crop1 = CropResult::Resize(CropArea::new(0, 0, frame_width, px(1080.0)));
    let crop2 = CropResult::Resize(CropArea::new(0, 0, frame_width, px(1080.0)));
    assert!(is_crop_similar(&crop1, &crop2, frame_width, threshold));

    // Slightly different resize crops.
    let crop1 = CropResult::Resize(CropArea::new(0, 0, frame_width, px(1080.0)));
    let crop2 = CropResult::Resize(CropArea::new(0, 0, frame_width + px(10.0), px(1080.0)));
    assert!(is_crop_similar(&crop1, &crop2, frame_width, threshold));

    // Resize vs single: never similar.
    let crop1 = CropResult::Resize(CropArea::new(0, 0, frame_width, px(1080.0)));
    let crop2 = CropResult::Single(CropArea::new(px(100.0), px(100.0), px(200.0), px(200.0)));
    assert!(!is_crop_similar(&crop1, &crop2, frame_width, threshold));
}

#[test]
fn test_is_crop_similar_real_values() {
    let frame_width = px(1920.0);
    let threshold: i64 = 10;

    let crop1 = CropResult::Stacked(
        CropArea::new(px(32.520447), px(60.0), px(1080.0), px(960.0)),
        CropArea::new(px(790.54004), px(60.0), px(1080.0), px(960.0)),
    );
    let crop2 = CropResult::Stacked(
        CropArea::new(0, px(60.0), px(1080.0), px(960.0)),
        CropArea::new(px(840.0), px(60.0), px(1080.0), px(960.0)),
    );
    assert!(is_crop_similar(&crop1, &crop2, frame_width, threshold));
}

#[test]
fn test_calculate_six_or_more_heads_crop_close() {
    let frame_width = px(1920.0);
    let frame_height = px(1080.0);

    let head1 = from_cxcywh(810.0, 540.0, 100.0, 100.0);
    let head2 = from_cxcywh(860.0, 540.0, 100.0, 100.0);
    let head3 = from_cxcywh(910.0, 540.0, 100.0, 100.0);
    let head4 = from_cxcywh(960.0, 540.0, 100.0, 100.0);
    let head5 = from_cxcywh(1010.0, 540.0, 100.0, 100.0);
    let head6 = from_cxcywh(1060.0, 540.0, 100.0, 100.0);
    let heads = vec![head1, head2, head3, head4, head5, head6];

    let crop = calculate_six_or_more_heads_crop(true, frame_width, frame_height, &heads);

    match crop {
        CropResult::Single(crop) => {
            assert!((crop.height - frame_height).abs() < TOL);
            let expected_width = 3 * frame_height / 4;
            assert!((crop.width - expected_width).abs() < TOL);
            let bbox = calculate_bounding_box(&heads);
            let bbox_center_x = bbox.x + bbox.width / 2;
            assert!((crop.x + crop.width / 2 - bbox_center_x).abs() < TOL);
            in_bounds(&crop, frame_width, frame_height);
            assert!(crop.x <= cx(&head1));
            assert!(crop.x + crop.width >= cx(&head6));
        }
        _ => panic!("Expected single crop for close heads case"),
    }
}

#[test]
fn test_calculate_six_or_more_heads_crop_with_large_head() {
    let frame_width = px(1920.0);
    let frame_height = px(1080.0);

    let head1 = from_cxcywh(480.0, 540.0, 100.0, 100.0);
    let head2 = from_cxcywh(640.0, 540.0, 100.0, 100.0);
    let head3 = from_cxcywh(960.0, 540.0, 100.0, 100.0);
    let head4 = from_cxcywh(1280.0, 540.0, 100.0, 100.0);
    let head5 = from_cxcywh(1440.0, 540.0, 100.0, 100.0);
    // A head with nine times the area of the others.
    let head6 = from_cxcywh(960.0, 540.0, 300.0, 300.0);
    let heads = vec![head1, head2, head3, head4, head5, head6];

    let crop = calculate_six_or_more_heads_crop(true, frame_width, frame_height, &heads);

    match crop {
        CropResult::Stacked(crop1, crop2) => {
            let expected_width = frame_width / 2;
            let expected_height = 8 * expected_width / 9;
            assert!((crop1.height - expected_height).abs() < TOL);
            assert!((crop2.height - expected_height).abs() < TOL);
            assert!((crop1.width - expected_width).abs() < TOL);
            assert!((crop2.width - expected_width).abs() < TOL);
            let expected_y = (frame_height - expected_height) / 2;
            assert!((crop1.y - expected_y).abs() < TOL);
            assert!((crop2.y - expected_y).abs() < TOL);
            // First crop centered on the large head.
            let large_head_center = cx(&head6);
            assert!((crop1.x + crop1.width / 2 - large_head_center).abs() < TOL);
            in_bounds(&crop1, frame_width, frame_height);
            in_bounds(&crop2, frame_width, frame_height);
        }
        _ => panic!("Expected stacked crops for large head case"),
    }
}

#[test]
fn test_calculate_six_or_more_heads_crop_with_large_head_no_stack() {
    let frame_width = px(1920.0);
    let frame_height = px(1080.0);

    let head1 = from_cxcywh(480.0, 540.0, 100.0, 100.0);
    let head2 = from_cxcywh(640.0, 540.0, 100.0, 100.0);
    let head3 = from_cxcywh(960.0, 540.0, 100.0, 100.0);
    let head4 = from_cxcywh(1280.0, 540.0, 100.0, 100.0);
    let head5 = from_cxcywh(1440.0, 540.0, 100.0, 100.0);
    let head6 = from_cxcywh(960.0, 540.0, 300.0, 300.0);
    let heads = vec![head1, head2, head3, head4, head5, head6];

    let crop = calculate_six_or_more_heads_crop(false, frame_width, frame_height, &heads);

    match crop {
        CropResult::Single(crop) => {
            assert!((crop.height - frame_height).abs() < TOL);
            let expected_width = 3 * frame_height / 4;
            assert!((crop.width - expected_width).abs() < TOL);
            let large_head_center = cx(&head6);
            assert!((crop.x + crop.width / 2 - large_head_center).abs() < TOL);
            in_bounds(&crop, frame_width, frame_height);
        }
        _ => panic!("Expected single crop when use_stack_crop is false"),
    }
}

#[test]
fn test_calculate_six_or_more_heads_crop_no_large_head() {
    let frame_width = px(1920.0);
    let frame_height = px(1080.0);

    // Many heads, far apart, with no dominant one.
    let head1 = from_xyxy(1204.4794, 259.98706, 1263.6251, 338.74368);
    let head2 = from_xyxy(165.4296, 204.68535, 231.6294, 278.2456);
    let head3 = from_xyxy(269.37784, 235.31018, 334.4793, 320.63513);
    let head4 = from_xyxy(497.31262, 304.38455, 545.0585, 366.63437);
    let head5 = from_xyxy(1573.1497, 222.41495, 1644.2009, 311.7543);
    let head6 = from_xyxy(1359.9382, 202.51102, 1425.143, 283.78268);
    let head7 = from_xyxy(1119.0876, 314.16095, 1164.9473, 367.55884);
    let head8 = from_xyxy(1004.2882, 279.04803, 1053.5553, 333.7185);
    let head9 = from_xyxy(1682.1179, 164.2292, 1732.0024, 222.09727);
    let head10 = from_xyxy(1316.1659, 216.26654, 1361.8198, 279.69714);
    let head11 = from_xyxy(747.9746, 290.0324, 799.1831, 354.62122);
    let head12 = from_xyxy(64.98474, 272.07635, 135.15686, 358.80164);
    let head13 = from_xyxy(548.1885, 238.84857, 596.61804, 293.81744);
    let head14 = from_xyxy(404.89105, 273.33435, 455.97382, 324.4703);
    let head15 = from_xyxy(640.2843, 268.06158, 691.5074, 330.74475);
    let head16 = from_xyxy(792.7516, 244.46857, 846.63715, 314.46362);
    let head17 = from_xyxy(1525.2106, 225.71266, 1579.5985, 292.49323);
    let head18 = from_xyxy(904.9985, 297.55618, 951.48126, 358.47745);
    let head19 = from_xyxy(327.26227, 255.41493, 377.07877, 321.57587);
    let head20 = from_xyxy(680.5171, 259.2168, 719.5209, 310.3493);
    let head21 = from_xyxy(129.4746, 170.53577, 184.49347, 230.3624);
    let heads = vec![
        head1, head2, head3, head4, head5, head6, head7, head8, head9, head10, head11, head12,
        head13, head14, head15, head16, head17, head18, head19, head20, head21,
    ];

    let crop = calculate_six_or_more_heads_crop(true, frame_width, frame_height, &heads);

    match crop {
        CropResult::Single(crop) => {
            assert!((crop.height - frame_height).abs() < TOL);
            let expected_width = 3 * frame_height / 4;
            assert!((crop.width - expected_width).abs() < TOL);
            let expected_x = (frame_width - expected_width) / 2;
            assert!((crop.x - expected_x).abs() < TOL);
            assert!(crop.y.abs() < TOL);
            in_bounds(&crop, frame_width, frame_height);
        }
        _ => panic!("Expected single crop for no large head case"),
    }
}

#[test]
fn test_calculate_crop_area_six_or_more_heads() {
    let frame_width = px(1920.0);
    let frame_height = px(1080.0);

    // Six heads, none dominant.
    let head1 = with_confidence(from_cxcywh(320.0, 180.0, 100.0, 100.0), 0.9);
    let head2 = with_confidence(from_cxcywh(640.0, 360.0, 100.0, 100.0), 0.9);
    let head3 = with_confidence(from_cxcywh(960.0, 540.0, 100.0, 100.0), 0.9);
    let head4 = with_confidence(from_cxcywh(1280.0, 720.0, 100.0, 100.0), 0.9);
    let head5 = with_confidence(from_cxcywh(1600.0, 900.0, 100.0, 100.0), 0.9);
    let head6 = with_confidence(from_cxcywh(1820.0, 980.0, 100.0, 100.0), 0.9);
    let crop = calculate_crop_area(
        true, false, frame_width, frame_height,
        &vec![head1, head2, head3, head4, head5, head6],
    );
    assert!(matches!(crop, CropResult::Single(_)));

    // Six heads with one dominant head.
    let head1 = with_confidence(from_cxcywh(480.0, 540.0, 100.0, 100.0), 0.9);
    let head2 = with_confidence(from_cxcywh(640.0, 540.0, 100.0, 100.0), 0.9);
    let head3 = with_confidence(from_cxcywh(960.0, 540.0, 100.0, 100.0), 0.9);
    let head4 = with_confidence(from_cxcywh(1280.0, 540.0, 100.0, 100.0), 0.9);
    let head5 = with_confidence(from_cxcywh(1440.0, 540.0, 100.0, 100.0), 0.9);
    let head6 = with_confidence(from_cxcywh(960.0, 540.0, 300.0, 300.0), 0.9);
    let crop = calculate_crop_area(
        true, false, frame_width, frame_height,
        &vec![head1, head2, head3, head4, head5, head6],
    );
    assert!(matches!(crop, CropResult::Stacked(_, _)));
}

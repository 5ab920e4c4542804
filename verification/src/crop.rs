//! Crop geometry: rectangles, detected-object boxes, the crop decision type,
//! and the comparators that judge whether two decisions are close enough to
//! be treated as the same.
//!
//! All coordinates are integers in sub-pixel units, [`PIXEL`] units per
//! pixel. With that scale every ratio the layout rules use (3/4, 1/2, 8/9,
//! 4/5, 3/2, 9/10, 1/10, 3/20) is exact on whole-pixel inputs, so the
//! contracts can state results exactly instead of within a float tolerance.

use vstd::prelude::*;

verus! {

/// Sub-pixel units per pixel. 1800 is divisible by 8, 9, 20 and 25, which
/// makes every ratio used by the layout rules exact on whole-pixel inputs.
pub const PIXEL: i64 = 1800;

/// Upper bound on every coordinate, size and threshold handed to this
/// library (about 8,800 pixels at [`PIXEL`] units per pixel). The bound
/// keeps every intermediate product of the geometry rules inside `i64`.
pub const MAX_COORD: i64 = 16_000_000;

/// A rectangular region of a frame: top-left corner plus size.
///
/// Width and height are never negative when the rectangle is well formed;
/// a rectangle is not guaranteed to lie inside the frame unless the rule
/// that produced it clamps it.
#[derive(Clone, Copy, Debug, PartialEq, Eq, Structural)]
pub struct CropArea {
    pub x: i64,
    pub y: i64,
    pub width: i64,
    pub height: i64,
}

/// A detected object's bounding box: top-left corner, size, and what the
/// detector reported about it. `confidence` is in parts per 1,000,000;
/// `label` is a caller-chosen class identifier.
#[derive(Clone, Copy, Debug, PartialEq)]
pub struct ObjectBox {
    pub x: i64,
    pub y: i64,
    pub width: i64,
    pub height: i64,
    pub confidence: Option<i64>,
    pub label: Option<u32>,
}

/// The decision for one frame: either one region resized into the output,
/// two regions stacked vertically (first on top), or the whole frame.
#[derive(Clone, Copy, Debug, PartialEq, Eq, Structural)]
pub enum CropResult {
    /// A single crop area.
    Single(CropArea),
    /// Two crop areas that should be stacked vertically.
    Stacked(CropArea, CropArea),
    /// Resize the entire frame (for graphic content).
    Resize(CropArea),
}

/// The four coordinates of a rectangle as mathematical integers.
pub open spec fn area_tuple(c: CropArea) -> (int, int, int, int) {
    (c.x as int, c.y as int, c.width as int, c.height as int)
}

/// Every field of the rectangle is within twice [`MAX_COORD`] in magnitude,
/// the range the layout rules can produce from in-range inputs.
pub open spec fn area_in_range(c: CropArea) -> bool {
    &&& -2 * (MAX_COORD as int) <= c.x <= 2 * (MAX_COORD as int)
    &&& -2 * (MAX_COORD as int) <= c.y <= 2 * (MAX_COORD as int)
    &&& -2 * (MAX_COORD as int) <= c.width <= 2 * (MAX_COORD as int)
    &&& -2 * (MAX_COORD as int) <= c.height <= 2 * (MAX_COORD as int)
}

/// Every rectangle held by the decision is within range.
pub open spec fn result_in_range(c: CropResult) -> bool {
    match c {
        CropResult::Single(a) => area_in_range(a),
        CropResult::Stacked(a, b) => area_in_range(a) && area_in_range(b),
        CropResult::Resize(a) => area_in_range(a),
    }
}

/// An object box with non-negative in-range coordinates and sizes.
pub open spec fn object_in_range(h: ObjectBox) -> bool {
    &&& 0 <= h.x <= MAX_COORD as int
    &&& 0 <= h.y <= MAX_COORD as int
    &&& 0 <= h.width <= MAX_COORD as int
    &&& 0 <= h.height <= MAX_COORD as int
}

/// Every object in the sequence is within range.
pub open spec fn objects_in_range(s: Seq<ObjectBox>) -> bool {
    forall|i: int| 0 <= i < s.len() ==> object_in_range(#[trigger] s[i])
}

pub open spec fn abs_diff(a: int, b: int) -> int {
    if a >= b { a - b } else { b - a }
}

/// Two values differ by no more than `threshold_percent` percent of the
/// frame width. The comparison is inclusive at the boundary.
pub open spec fn values_within_percentage(a: int, b: int, frame_width: int, threshold_percent: int) -> bool {
    100 * abs_diff(a, b) <= threshold_percent * frame_width
}

/// Two rectangles agree, field by field, to within `threshold_percent`
/// percent of the frame width.
///
/// The tolerance is measured against the frame width for all four fields,
/// the one convention used throughout this library. Two equal values (in
/// particular two zeros) always pass; a zero against a non-zero passes
/// exactly when the difference itself is within the tolerance.
pub open spec fn areas_within_percentage(a: CropArea, b: CropArea, frame_width: int, threshold_percent: int) -> bool {
    &&& values_within_percentage(a.x as int, b.x as int, frame_width, threshold_percent)
    &&& values_within_percentage(a.y as int, b.y as int, frame_width, threshold_percent)
    &&& values_within_percentage(a.width as int, b.width as int, frame_width, threshold_percent)
    &&& values_within_percentage(a.height as int, b.height as int, frame_width, threshold_percent)
}

/// Two decisions are similar when they have the same shape and every
/// constituent rectangle pair is within the tolerance; decisions of
/// different shapes are never similar.
pub open spec fn spec_crop_similar(c1: CropResult, c2: CropResult, frame_width: int, threshold_percent: int) -> bool {
    match (c1, c2) {
        (CropResult::Single(a), CropResult::Single(b)) =>
            areas_within_percentage(a, b, frame_width, threshold_percent),
        (CropResult::Stacked(a1, a2), CropResult::Stacked(b1, b2)) =>
            areas_within_percentage(a1, b1, frame_width, threshold_percent)
                && areas_within_percentage(a2, b2, frame_width, threshold_percent),
        (CropResult::Resize(a), CropResult::Resize(b)) =>
            areas_within_percentage(a, b, frame_width, threshold_percent),
        _ => false,
    }
}

/// The object-count class a raw count falls in: one class each for 0, 1, 2
/// and 3 objects, one for 4 and 5, and one for 6 or more.
pub open spec fn crop_class(count: int) -> int {
    if count == 0 { 0 }
    else if count == 1 { 1 }
    else if count == 2 { 2 }
    else if count == 3 { 3 }
    else if count <= 5 { 4 }
    else { 5 }
}

impl CropArea {
    pub fn new(x: i64, y: i64, width: i64, height: i64) -> (r: Self)
        ensures
            r.x == x && r.y == y && r.width == width && r.height == height,
    {
        Self { x, y, width, height }
    }

    /// Checks if this crop area is within the given percentage of another,
    /// measuring every field's difference against the frame width.
    pub fn is_within_percentage(
        &self,
        other: &CropArea,
        frame_width: i64,
        threshold_percent: i64,
    ) -> (r: bool)
        requires
            area_in_range(*self),
            area_in_range(*other),
            0 <= frame_width <= MAX_COORD as int,
            0 <= threshold_percent <= MAX_COORD as int,
        ensures
            r == areas_within_percentage(*self, *other, frame_width as int, threshold_percent as int),
    {
        let x_ok = value_within_threshold(self.x, other.x, frame_width, threshold_percent);
        let y_ok = value_within_threshold(self.y, other.y, frame_width, threshold_percent);
        let w_ok = value_within_threshold(self.width, other.width, frame_width, threshold_percent);
        let h_ok = value_within_threshold(self.height, other.height, frame_width, threshold_percent);
        x_ok && y_ok && w_ok && h_ok
    }
}

/// One field comparison of [`CropArea::is_within_percentage`].
fn value_within_threshold(a: i64, b: i64, frame_width: i64, threshold_percent: i64) -> (r: bool)
    requires
        -2 * (MAX_COORD as int) <= a <= 2 * (MAX_COORD as int),
        -2 * (MAX_COORD as int) <= b <= 2 * (MAX_COORD as int),
        0 <= frame_width <= MAX_COORD as int,
        0 <= threshold_percent <= MAX_COORD as int,
    ensures
        r == values_within_percentage(a as int, b as int, frame_width as int, threshold_percent as int),
{
    let diff: i64 = if a >= b { a - b } else { b - a };
    proof {
        assert(threshold_percent * frame_width <= (MAX_COORD as int) * (MAX_COORD as int))
            by (nonlinear_arith)
            requires 0 <= threshold_percent <= MAX_COORD as int && 0 <= frame_width <= MAX_COORD as int;
    }
    100 * diff <= threshold_percent * frame_width
}

/// Whether two object counts fall in the same class.
///
/// The classes are {0}, {1}, {2}, {3}, {4, 5} and {6 or more}: counts in
/// the same class lead to the same kind of layout, so a change between
/// them is not treated as a layout change.
pub fn is_crop_class_same(head_count1: usize, head_count2: usize) -> (r: bool)
    ensures
        r == (crop_class(head_count1 as int) == crop_class(head_count2 as int)),
{
    get_crop_class(head_count1) == get_crop_class(head_count2)
}

/// The class index of one object count.
fn get_crop_class(head_count: usize) -> (r: u8)
    ensures
        r as int == crop_class(head_count as int),
{
    if head_count == 0 { 0 }
    else if head_count == 1 { 1 }
    else if head_count == 2 { 2 }
    else if head_count == 3 { 3 }
    else if head_count <= 5 { 4 }
    else { 5 }
}

/// Checks if two crop decisions are similar: same shape, and every
/// rectangle pair within `threshold` percent of the frame width.
pub fn is_crop_similar(crop1: &CropResult, crop2: &CropResult, width: i64, threshold: i64) -> (r: bool)
    requires
        result_in_range(*crop1),
        result_in_range(*crop2),
        0 <= width <= MAX_COORD as int,
        0 <= threshold <= MAX_COORD as int,
    ensures
        r == spec_crop_similar(*crop1, *crop2, width as int, threshold as int),
{
    match (crop1, crop2) {
        (CropResult::Single(a), CropResult::Single(b)) => a.is_within_percentage(b, width, threshold),
        (CropResult::Stacked(a1, a2), CropResult::Stacked(b1, b2)) => {
            a1.is_within_percentage(b1, width, threshold)
                && a2.is_within_percentage(b2, width, threshold)
        }
        (CropResult::Resize(a), CropResult::Resize(b)) => a.is_within_percentage(b, width, threshold),
        _ => false,
    }
}

/// The left edge of an object box.
pub open spec fn spec_xmin(h: ObjectBox) -> int { h.x as int }

/// The right edge of an object box.
pub open spec fn spec_xmax(h: ObjectBox) -> int { h.x + h.width }

/// The top edge of an object box.
pub open spec fn spec_ymin(h: ObjectBox) -> int { h.y as int }

/// The bottom edge of an object box.
pub open spec fn spec_ymax(h: ObjectBox) -> int { h.y + h.height }

/// The horizontal center of an object box, rounded down.
pub open spec fn spec_cx(h: ObjectBox) -> int { h.x + h.width / 2 }

/// The area of an object box.
pub open spec fn spec_area(h: ObjectBox) -> int { h.width * h.height }

/// The least left edge over a non-empty sequence of boxes.
pub open spec fn spec_min_xmin(s: Seq<ObjectBox>) -> int
    recommends s.len() >= 1,
    decreases s.len(),
{
    if s.len() <= 1 { spec_xmin(s[0]) }
    else {
        let rest = spec_min_xmin(s.drop_last());
        if spec_xmin(s.last()) < rest { spec_xmin(s.last()) } else { rest }
    }
}

/// The least top edge over a non-empty sequence of boxes.
pub open spec fn spec_min_ymin(s: Seq<ObjectBox>) -> int
    recommends s.len() >= 1,
    decreases s.len(),
{
    if s.len() <= 1 { spec_ymin(s[0]) }
    else {
        let rest = spec_min_ymin(s.drop_last());
        if spec_ymin(s.last()) < rest { spec_ymin(s.last()) } else { rest }
    }
}

/// The greatest right edge over a non-empty sequence of boxes.
pub open spec fn spec_max_xmax(s: Seq<ObjectBox>) -> int
    recommends s.len() >= 1,
    decreases s.len(),
{
    if s.len() <= 1 { spec_xmax(s[0]) }
    else {
        let rest = spec_max_xmax(s.drop_last());
        if spec_xmax(s.last()) > rest { spec_xmax(s.last()) } else { rest }
    }
}

/// The greatest bottom edge over a non-empty sequence of boxes.
pub open spec fn spec_max_ymax(s: Seq<ObjectBox>) -> int
    recommends s.len() >= 1,
    decreases s.len(),
{
    if s.len() <= 1 { spec_ymax(s[0]) }
    else {
        let rest = spec_max_ymax(s.drop_last());
        if spec_ymax(s.last()) > rest { spec_ymax(s.last()) } else { rest }
    }
}

/// The minimal axis-aligned rectangle containing every box of the
/// sequence, as `(x, y, width, height)`; the zero rectangle at the origin
/// for an empty sequence.
pub open spec fn spec_bounding_box(s: Seq<ObjectBox>) -> (int, int, int, int) {
    if s.len() == 0 { (0, 0, 0, 0) }
    else {
        (
            spec_min_xmin(s),
            spec_min_ymin(s),
            spec_max_xmax(s) - spec_min_xmin(s),
            spec_max_ymax(s) - spec_min_ymin(s),
        )
    }
}

/// The width of the single-region shape: 3/4 of the frame height, so the
/// region is 3:4 at full frame height.
pub open spec fn spec_three_four_width(frame_height: int) -> int {
    3 * frame_height / 4
}

/// Clamp a region start so the region sits inside `[0, frame_width]`:
/// a negative start moves to the left edge; a start whose region runs past
/// the right edge moves back to end exactly there.
pub open spec fn spec_clamp_x(x: int, width: int, frame_width: int) -> int {
    if x < 0 { 0 }
    else if x + width > frame_width { frame_width - width }
    else { x }
}

/// The single-region rule shared by every count bucket: full frame height,
/// width 3/4 of that, horizontally centered on `center_x` and clamped into
/// the frame.
pub open spec fn spec_single_centered(center_x: int, frame_width: int, frame_height: int) -> (int, int, int, int) {
    let width = spec_three_four_width(frame_height);
    (spec_clamp_x(center_x - width / 2, width, frame_width), 0, width, frame_height)
}

/// Every bound that [`spec_bounding_box`] takes its fields from is an edge
/// of some box, and bounds every box.
pub proof fn lemma_bounds_cover(s: Seq<ObjectBox>)
    requires
        s.len() >= 1,
    ensures
        forall|i: int| 0 <= i < s.len() ==> {
            &&& spec_min_xmin(s) <= spec_xmin(#[trigger] s[i])
            &&& spec_min_ymin(s) <= spec_ymin(s[i])
            &&& spec_max_xmax(s) >= spec_xmax(s[i])
            &&& spec_max_ymax(s) >= spec_ymax(s[i])
        },
        exists|i: int| 0 <= i < s.len() && spec_min_xmin(s) == spec_xmin(#[trigger] s[i]),
        exists|i: int| 0 <= i < s.len() && spec_max_xmax(s) == spec_xmax(#[trigger] s[i]),
    decreases s.len(),
{
    if s.len() == 1 {
        assert(spec_min_xmin(s) == spec_xmin(s[0]));
        assert(spec_max_xmax(s) == spec_xmax(s[0]));
    } else {
        lemma_bounds_cover(s.drop_last());
        assert(forall|i: int| 0 <= i < s.len() - 1 ==> s.drop_last()[i] == #[trigger] s[i]);
        assert(s.last() == s[s.len() - 1]);
        let jmin = choose|i: int| 0 <= i < s.drop_last().len()
            && spec_min_xmin(s.drop_last()) == spec_xmin(#[trigger] s.drop_last()[i]);
        if spec_xmin(s.last()) < spec_min_xmin(s.drop_last()) {
            assert(spec_min_xmin(s) == spec_xmin(s[s.len() - 1]));
        } else {
            assert(spec_min_xmin(s) == spec_xmin(s[jmin]));
        }
        let jmax = choose|i: int| 0 <= i < s.drop_last().len()
            && spec_max_xmax(s.drop_last()) == spec_xmax(#[trigger] s.drop_last()[i]);
        if spec_xmax(s.last()) > spec_max_xmax(s.drop_last()) {
            assert(spec_max_xmax(s) == spec_xmax(s[s.len() - 1]));
        } else {
            assert(spec_max_xmax(s) == spec_xmax(s[jmax]));
        }
    }
}

/// Calculates the bounding box that contains all given heads.
///
/// Returns the zero rectangle at the origin when the list is empty: that
/// case is defined, not an error.
pub fn calculate_bounding_box(heads: &Vec<ObjectBox>) -> (r: CropArea)
    requires
        objects_in_range(heads@),
    ensures
        area_tuple(r) == spec_bounding_box(heads@),
        area_in_range(r),
        r.width >= 0 && r.height >= 0,
{
    if heads.len() == 0 {
        return CropArea::new(0, 0, 0, 0);
    }
    let first = heads[0];
    let mut min_x: i64 = first.x;
    let mut min_y: i64 = first.y;
    let mut max_x: i64 = first.x + first.width;
    let mut max_y: i64 = first.y + first.height;
    let mut i: usize = 1;
    proof {
        assert(heads@.take(1).len() == 1);
        assert(heads@.take(1)[0] == heads@[0]);
    }
    while i < heads.len()
        invariant
            1 <= i <= heads@.len(),
            objects_in_range(heads@),
            min_x == spec_min_xmin(heads@.take(i as int)),
            min_y == spec_min_ymin(heads@.take(i as int)),
            max_x == spec_max_xmax(heads@.take(i as int)),
            max_y == spec_max_ymax(heads@.take(i as int)),
            0 <= min_x <= MAX_COORD as int,
            0 <= min_y <= MAX_COORD as int,
            0 <= max_x <= 2 * (MAX_COORD as int),
            0 <= max_y <= 2 * (MAX_COORD as int),
        decreases heads@.len() - i,
    {
        let h = heads[i];
        proof {
            assert(heads@.take(i + 1).drop_last() =~= heads@.take(i as int));
            assert(heads@.take(i + 1).last() == heads@[i as int]);
        }
        if h.x < min_x { min_x = h.x; }
        if h.y < min_y { min_y = h.y; }
        if h.x + h.width > max_x { max_x = h.x + h.width; }
        if h.y + h.height > max_y { max_y = h.y + h.height; }
        i = i + 1;
    }
    proof {
        assert(heads@.take(heads@.len() as int) =~= heads@);
    }
    CropArea::new(min_x, min_y, max_x - min_x, max_y - min_y)
}

/// The single-region width: 3/4 of the frame height, rounded down.
fn compute_three_four_width(frame_height: i64) -> (r: i64)
    requires
        0 <= frame_height <= MAX_COORD as int,
    ensures
        r == spec_three_four_width(frame_height as int),
        0 <= r <= MAX_COORD as int,
{
    (3 * frame_height) / 4
}

/// Clamps a region start into the frame, left edge winning over right.
fn clamp_x_for_width(x: i64, width: i64, frame_width: i64) -> (r: i64)
    requires
        -4 * (MAX_COORD as int) <= x <= 4 * (MAX_COORD as int),
        0 <= width <= 2 * (MAX_COORD as int),
        0 <= frame_width <= MAX_COORD as int,
    ensures
        r == spec_clamp_x(x as int, width as int, frame_width as int),
{
    if x < 0 {
        0
    } else if x + width > frame_width {
        frame_width - width
    } else {
        x
    }
}

/// Builds the shared single-region shape centered on `center_x`.
fn make_single_crop_centered(center_x: i64, frame_width: i64, frame_height: i64) -> (r: CropArea)
    requires
        -3 * (MAX_COORD as int) <= center_x <= 3 * (MAX_COORD as int),
        0 <= frame_width <= MAX_COORD as int,
        0 <= frame_height <= MAX_COORD as int,
    ensures
        area_tuple(r) == spec_single_centered(center_x as int, frame_width as int, frame_height as int),
        area_in_range(r),
{
    let height = frame_height;
    let width = compute_three_four_width(frame_height);
    let x = clamp_x_for_width(center_x - width / 2, width, frame_width);
    CropArea::new(x, 0, width, height)
}

/// The horizontal center of a rectangle, rounded down.
fn center_x_of_bbox(bbox: &CropArea) -> (r: i64)
    requires
        area_in_range(*bbox),
        bbox.width >= 0,
    ensures
        r == bbox.x + bbox.width / 2,
{
    bbox.x + bbox.width / 2
}

/// Calculates the crop area when no heads are detected: the full frame for
/// graphic content, else the single-region shape centered on the frame.
pub fn calculate_no_heads_crop(frame_width: i64, frame_height: i64, is_graphic: bool) -> (r: CropResult)
    requires
        0 <= frame_width <= MAX_COORD as int,
        0 <= frame_height <= MAX_COORD as int,
    ensures
        is_graphic ==> (r matches CropResult::Resize(a)
            && area_tuple(a) == (0int, 0int, frame_width as int, frame_height as int)),
        !is_graphic ==> (r matches CropResult::Single(a)
            && area_tuple(a) == spec_single_centered(frame_width as int / 2, frame_width as int, frame_height as int)),
        result_in_range(r),
{
    if is_graphic {
        CropResult::Resize(CropArea::new(0, 0, frame_width, frame_height))
    } else {
        let center_x = frame_width / 2;
        CropResult::Single(make_single_crop_centered(center_x, frame_width, frame_height))
    }
}

/// Calculates the crop area for a single head: the single-region shape
/// centered on the head's horizontal center.
pub fn calculate_single_head_crop(frame_width: i64, frame_height: i64, head: &ObjectBox) -> (r: CropResult)
    requires
        0 <= frame_width <= MAX_COORD as int,
        0 <= frame_height <= MAX_COORD as int,
        object_in_range(*head),
    ensures
        r matches CropResult::Single(a)
            && area_tuple(a) == spec_single_centered(spec_cx(*head), frame_width as int, frame_height as int),
        result_in_range(r),
{
    CropResult::Single(make_single_crop_centered(head.x + head.width / 2, frame_width, frame_height))
}

/// The index `Iterator::max_by` would pick when maximising box area over a
/// non-empty sequence: the last index whose area is maximal.
pub open spec fn spec_largest_head_idx(s: Seq<ObjectBox>) -> int
    recommends s.len() >= 1,
    decreases s.len(),
{
    if s.len() <= 1 { 0 }
    else {
        let prev = spec_largest_head_idx(s.drop_last());
        if spec_area(s.last()) >= spec_area(s[prev]) { s.len() - 1 } else { prev }
    }
}

/// The largest-area index is a valid index and its area is maximal.
pub proof fn lemma_largest_head_idx(s: Seq<ObjectBox>)
    requires
        s.len() >= 1,
    ensures
        0 <= spec_largest_head_idx(s) < s.len(),
        forall|i: int| 0 <= i < s.len() ==> spec_area(#[trigger] s[i]) <= spec_area(s[spec_largest_head_idx(s)]),
    decreases s.len(),
{
    if s.len() > 1 {
        lemma_largest_head_idx(s.drop_last());
        assert(forall|i: int| 0 <= i < s.len() - 1 ==> s.drop_last()[i] == #[trigger] s[i]);
        assert(s.last() == s[s.len() - 1]);
    }
}

/// The area of a box.
fn box_area(h: &ObjectBox) -> (r: i64)
    requires
        object_in_range(*h),
    ensures
        r == spec_area(*h),
        0 <= r <= (MAX_COORD as int) * (MAX_COORD as int),
{
    proof {
        assert(h.width * h.height <= (MAX_COORD as int) * (MAX_COORD as int) && h.width * h.height >= 0)
            by (nonlinear_arith)
            requires 0 <= h.width <= MAX_COORD as int && 0 <= h.height <= MAX_COORD as int;
    }
    h.width * h.height
}

/// Calculates the crop area centered on the largest head by area (the last
/// such head when areas tie, as a maximum fold finds it).
pub fn calculate_crop_from_largest_head(frame_width: i64, frame_height: i64, heads: &Vec<ObjectBox>) -> (r: CropResult)
    requires
        0 <= frame_width <= MAX_COORD as int,
        0 <= frame_height <= MAX_COORD as int,
        objects_in_range(heads@),
        heads@.len() >= 1,
    ensures
        r matches CropResult::Single(a)
            && area_tuple(a) == spec_single_centered(
                spec_cx(heads@[spec_largest_head_idx(heads@)]),
                frame_width as int,
                frame_height as int,
            ),
        result_in_range(r),
{
    let mut best: usize = 0;
    let mut best_area: i64 = box_area(&heads[0]);
    let mut i: usize = 1;
    proof {
        assert(heads@.take(1)[0] == heads@[0]);
    }
    while i < heads.len()
        invariant
            1 <= i <= heads@.len(),
            objects_in_range(heads@),
            0 <= best < i,
            best == spec_largest_head_idx(heads@.take(i as int)),
            best_area == spec_area(heads@[best as int]),
        decreases heads@.len() - i,
    {
        proof {
            assert(heads@.take(i + 1).drop_last() =~= heads@.take(i as int));
            assert(heads@.take(i + 1).last() == heads@[i as int]);
            assert(forall|j: int| 0 <= j < i ==> heads@.take(i as int)[j] == #[trigger] heads@[j]);
        }
        let a = box_area(&heads[i]);
        if a >= best_area {
            best = i;
            best_area = a;
        }
        i = i + 1;
    }
    proof {
        assert(heads@.take(heads@.len() as int) =~= heads@);
    }
    let largest = heads[best];
    CropResult::Single(make_single_crop_centered(largest.x + largest.width / 2, frame_width, frame_height))
}

/// Division by two rounded toward zero, the rounding executable signed
/// halving uses.
pub open spec fn half_toward_zero(v: int) -> int {
    if v >= 0 { v / 2 } else { -((-v) / 2) }
}

/// Halves a value, rounding toward zero.
pub(crate) fn half_i64(v: i64) -> (r: i64)
    requires
        -8 * (MAX_COORD as int) <= v <= 8 * (MAX_COORD as int),
    ensures
        r == half_toward_zero(v as int),
{
    if v >= 0 { v / 2 } else { -((-v) / 2) }
}

/// The shared dimensions of one half of a stacked pair: half the frame
/// width, 8/9 of that as height, and the top offset that centers such a
/// region vertically, as `(width, height, default_y)`.
pub open spec fn spec_half_stack(frame_width: int, frame_height: int) -> (int, int, int) {
    let crop_width = frame_width / 2;
    let crop_height = 8 * crop_width / 9;
    (crop_width, crop_height, half_toward_zero(frame_height - crop_height))
}

/// Computes the stacked-pair dimensions.
fn half_stack_dims(frame_width: i64, frame_height: i64) -> (r: (i64, i64, i64))
    requires
        0 <= frame_width <= MAX_COORD as int,
        0 <= frame_height <= MAX_COORD as int,
    ensures
        (r.0 as int, r.1 as int, r.2 as int) == spec_half_stack(frame_width as int, frame_height as int),
        0 <= r.0 <= MAX_COORD as int,
        0 <= r.1 <= MAX_COORD as int,
        -(MAX_COORD as int) <= r.2 <= MAX_COORD as int,
{
    let crop_width = frame_width / 2;
    let crop_height = (8 * crop_width) / 9;
    let default_y = half_i64(frame_height - crop_height);
    (crop_width, crop_height, default_y)
}

/// Where a stacked region sits vertically for the given group of heads:
/// at the top when the group pokes above the default band, at the bottom
/// when it pokes below, else at the default offset. An empty group keeps
/// the default.
pub open spec fn spec_vertical_y(s: Seq<ObjectBox>, default_y: int, frame_height: int, crop_height: int) -> int {
    if s.len() == 0 { default_y }
    else {
        let group_top = spec_min_ymin(s);
        let group_bottom = spec_max_ymax(s);
        if group_top < default_y { 0 }
        else if group_bottom > default_y + crop_height { frame_height - crop_height }
        else { default_y }
    }
}

/// Picks the vertical position of one stacked region for its heads.
fn vertical_y_for_heads(heads: &Vec<ObjectBox>, default_y: i64, frame_height: i64, crop_height: i64) -> (r: i64)
    requires
        objects_in_range(heads@),
        -(MAX_COORD as int) <= default_y <= MAX_COORD as int,
        0 <= frame_height <= MAX_COORD as int,
        0 <= crop_height <= MAX_COORD as int,
    ensures
        r == spec_vertical_y(heads@, default_y as int, frame_height as int, crop_height as int),
        -(MAX_COORD as int) <= r <= MAX_COORD as int,
{
    if heads.len() == 0 {
        return default_y;
    }
    let first = heads[0];
    let mut group_top: i64 = first.y;
    let mut group_bottom: i64 = first.y + first.height;
    let mut i: usize = 1;
    proof {
        assert(heads@.take(1)[0] == heads@[0]);
    }
    while i < heads.len()
        invariant
            1 <= i <= heads@.len(),
            objects_in_range(heads@),
            group_top == spec_min_ymin(heads@.take(i as int)),
            group_bottom == spec_max_ymax(heads@.take(i as int)),
            0 <= group_top <= MAX_COORD as int,
            0 <= group_bottom <= 2 * (MAX_COORD as int),
        decreases heads@.len() - i,
    {
        let h = heads[i];
        proof {
            assert(heads@.take(i + 1).drop_last() =~= heads@.take(i as int));
            assert(heads@.take(i + 1).last() == heads@[i as int]);
        }
        if h.y < group_top { group_top = h.y; }
        if h.y + h.height > group_bottom { group_bottom = h.y + h.height; }
        i = i + 1;
    }
    proof {
        assert(heads@.take(heads@.len() as int) =~= heads@);
    }
    if group_top < default_y {
        0
    } else if group_bottom > default_y + crop_height {
        frame_height - crop_height
    } else {
        default_y
    }
}

pub open spec fn spec_max(a: int, b: int) -> int { if a >= b { a } else { b } }

pub open spec fn spec_min(a: int, b: int) -> int { if a <= b { a } else { b } }

/// How much of the horizontal span `[xmin, xmax]` lies inside a region
/// starting at `crop_x` and `crop_width` wide.
pub open spec fn spec_overlap_width(xmin: int, xmax: int, crop_x: int, crop_width: int) -> int {
    spec_max(0, spec_min(xmax, crop_x + crop_width) - spec_max(xmin, crop_x))
}

/// The stacked layout for two far-apart heads. Both regions take the
/// half-stack dimensions; the left head's region defaults to the left half
/// and the right head's to the right half, each vertically nudged for its
/// head; when either head straddles the halves, both regions are shifted to
/// fully contain their head, clamped into `[0, crop_width]`.
pub open spec fn spec_two_heads_stacked(left: ObjectBox, right: ObjectBox, frame_width: int, frame_height: int)
    -> ((int, int, int, int), (int, int, int, int))
{
    let dims = spec_half_stack(frame_width, frame_height);
    let crop_width = dims.0;
    let crop_height = dims.1;
    let default_y = dims.2;
    let crop1_y = spec_vertical_y(seq![left], default_y, frame_height, crop_height);
    let crop2_y = spec_vertical_y(seq![right], default_y, frame_height, crop_height);
    let left_in_crop1 = spec_overlap_width(spec_xmin(left), spec_xmax(left), 0, crop_width);
    let left_in_crop2 = spec_overlap_width(spec_xmin(left), spec_xmax(left), crop_width, crop_width);
    let right_in_crop1 = spec_overlap_width(spec_xmin(right), spec_xmax(right), 0, crop_width);
    let right_in_crop2 = spec_overlap_width(spec_xmin(right), spec_xmax(right), crop_width, crop_width);
    let left_spans = left_in_crop1 > 0 && left_in_crop2 > 0;
    let right_spans = right_in_crop1 > 0 && right_in_crop2 > 0;
    if left_spans || right_spans {
        let c1a = if spec_xmax(left) > crop_width { spec_xmax(left) - crop_width } else { 0 };
        let c1b = if spec_xmin(left) < c1a { spec_xmin(left) } else { c1a };
        let crop1_x = spec_min(spec_max(c1b, 0), crop_width);
        let c2a = if spec_xmin(right) < crop_width { spec_xmin(right) } else { crop_width };
        let c2b = if spec_xmax(right) > c2a + crop_width { spec_xmax(right) - crop_width } else { c2a };
        let crop2_x = spec_min(spec_max(c2b, 0), crop_width);
        ((crop1_x, crop1_y, crop_width, crop_height), (crop2_x, crop2_y, crop_width, crop_height))
    } else {
        ((0, crop1_y, crop_width, crop_height), (crop_width, crop2_y, crop_width, crop_height))
    }
}

/// The head pair ordered by horizontal center, the first head winning ties.
pub open spec fn spec_ordered_pair(head1: ObjectBox, head2: ObjectBox) -> (ObjectBox, ObjectBox) {
    if spec_cx(head1) <= spec_cx(head2) { (head1, head2) } else { (head2, head1) }
}

/// What [`calculate_two_heads_crop`] returns, as a predicate on the result.
pub open spec fn spec_two_heads_post(
    r: CropResult,
    head1: ObjectBox,
    head2: ObjectBox,
    use_stack_crop: bool,
    frame_width: int,
    frame_height: int,
) -> bool {
    let pair = seq![head1, head2];
    let bbox = spec_bounding_box(pair);
    let close = 4 * bbox.2 <= 3 * frame_height;
    &&& close ==> (r matches CropResult::Single(a)
        && area_tuple(a) == spec_single_centered(bbox.0 + bbox.2 / 2, frame_width, frame_height))
    &&& !close && use_stack_crop ==> (r matches CropResult::Stacked(c1, c2)
        && ({
            let ordered = spec_ordered_pair(head1, head2);
            let stacked = spec_two_heads_stacked(ordered.0, ordered.1, frame_width, frame_height);
            area_tuple(c1) == stacked.0 && area_tuple(c2) == stacked.1
        }))
    &&& !close && !use_stack_crop ==> (r matches CropResult::Single(a)
        && area_tuple(a) == spec_single_centered(
            spec_cx(pair[spec_largest_head_idx(pair)]), frame_width, frame_height))
}

/// Calculates the crop areas for two heads.
///
/// When the pair's bounding width fits 3/4 of the frame height, one region
/// centered on the pair; otherwise two stacked regions when stacking is
/// allowed, else one region centered on the larger head.
#[verifier::rlimit(60)]
pub fn calculate_two_heads_crop(
    use_stack_crop: bool,
    frame_width: i64,
    frame_height: i64,
    head1: &ObjectBox,
    head2: &ObjectBox,
) -> (r: CropResult)
    requires
        0 <= frame_width <= MAX_COORD as int,
        0 <= frame_height <= MAX_COORD as int,
        object_in_range(*head1),
        object_in_range(*head2),
    ensures
        spec_two_heads_post(r, *head1, *head2, use_stack_crop, frame_width as int, frame_height as int),
        result_in_range(r),
{
    let mut pair: Vec<ObjectBox> = Vec::new();
    pair.push(*head1);
    pair.push(*head2);
    proof {
        assert(pair@ =~= seq![*head1, *head2]);
        lemma_largest_head_idx(pair@);
    }
    let bbox = calculate_bounding_box(&pair);
    if 4 * bbox.width <= 3 * frame_height {
        let center_x = center_x_of_bbox(&bbox);
        CropResult::Single(make_single_crop_centered(center_x, frame_width, frame_height))
    } else if use_stack_crop {
        let (crop_width, crop_height, default_y) = half_stack_dims(frame_width, frame_height);

        let (left_head, right_head) = if head1.x + head1.width / 2 <= head2.x + head2.width / 2 {
            (*head1, *head2)
        } else {
            (*head2, *head1)
        };

        let mut left_vec: Vec<ObjectBox> = Vec::new();
        left_vec.push(left_head);
        let mut right_vec: Vec<ObjectBox> = Vec::new();
        right_vec.push(right_head);
        let crop1_y = vertical_y_for_heads(&left_vec, default_y, frame_height, crop_height);
        let crop2_y = vertical_y_for_heads(&right_vec, default_y, frame_height, crop_height);

        let mut crop1_x: i64 = 0;
        let mut crop2_x: i64 = crop_width;

        let left_in_crop1 = overlap_width(left_head.x, left_head.x + left_head.width, crop1_x, crop_width);
        let left_in_crop2 = overlap_width(left_head.x, left_head.x + left_head.width, crop2_x, crop_width);
        let right_in_crop1 = overlap_width(right_head.x, right_head.x + right_head.width, crop1_x, crop_width);
        let right_in_crop2 = overlap_width(right_head.x, right_head.x + right_head.width, crop2_x, crop_width);

        let left_head_spans = left_in_crop1 > 0 && left_in_crop2 > 0;
        let right_head_spans = right_in_crop1 > 0 && right_in_crop2 > 0;

        if left_head_spans || right_head_spans {
            crop1_x = 0;
            crop2_x = crop_width;

            if left_head.x + left_head.width > crop1_x + crop_width {
                crop1_x = left_head.x + left_head.width - crop_width;
            }
            if left_head.x < crop1_x {
                crop1_x = left_head.x;
            }
            if crop1_x < 0 { crop1_x = 0; }
            if crop1_x > crop_width { crop1_x = crop_width; }

            if right_head.x < crop2_x {
                crop2_x = right_head.x;
            }
            if right_head.x + right_head.width > crop2_x + crop_width {
                crop2_x = right_head.x + right_head.width - crop_width;
            }
            if crop2_x < 0 { crop2_x = 0; }
            if crop2_x > crop_width { crop2_x = crop_width; }
        }

        let crop1 = CropArea::new(crop1_x, crop1_y, crop_width, crop_height);
        let crop2 = CropArea::new(crop2_x, crop2_y, crop_width, crop_height);
        CropResult::Stacked(crop1, crop2)
    } else {
        calculate_crop_from_largest_head(frame_width, frame_height, &pair)
    }
}

/// The heads whose horizontal center lies left of `frame_center`, in order.
pub open spec fn spec_left_heads(s: Seq<ObjectBox>, frame_center: int) -> Seq<ObjectBox>
    decreases s.len(),
{
    if s.len() == 0 { Seq::empty() }
    else {
        let rest = spec_left_heads(s.drop_last(), frame_center);
        if spec_cx(s.last()) < frame_center { rest.push(s.last()) } else { rest }
    }
}

/// The heads whose horizontal center lies at or right of `frame_center`.
pub open spec fn spec_right_heads(s: Seq<ObjectBox>, frame_center: int) -> Seq<ObjectBox>
    decreases s.len(),
{
    if s.len() == 0 { Seq::empty() }
    else {
        let rest = spec_right_heads(s.drop_last(), frame_center);
        if spec_cx(s.last()) >= frame_center { rest.push(s.last()) } else { rest }
    }
}

/// A head sits inside one of the two default half-frame regions.
pub open spec fn spec_head_in_default_halves(h: ObjectBox, crop_width: int) -> bool {
    ||| spec_xmin(h) >= 0 && spec_xmax(h) <= crop_width
    ||| spec_xmin(h) >= crop_width && spec_xmax(h) <= 2 * crop_width
}

/// The left region's start for its group of heads: at the group's left
/// edge, or centered on the group when the group is wider than the region,
/// clamped into `[0, crop_width]`.
pub open spec fn spec_side_x_left(group: Seq<ObjectBox>, crop_width: int) -> int
    recommends group.len() >= 1,
{
    let mn = spec_min_xmin(group);
    let mx = spec_max_xmax(group);
    let raw = if mx - mn > crop_width { (mn + mx - crop_width) / 2 } else { mn };
    spec_min(spec_max(raw, 0), crop_width)
}

/// The right region's start for its group of heads: at the group's right
/// edge minus the region width, or centered on the group when the group is
/// wider than the region, clamped into `[0, crop_width]`.
pub open spec fn spec_side_x_right(group: Seq<ObjectBox>, crop_width: int) -> int
    recommends group.len() >= 1,
{
    let mn = spec_min_xmin(group);
    let mx = spec_max_xmax(group);
    let raw = if mx - mn > crop_width { (mn + mx - crop_width) / 2 } else { mx - crop_width };
    spec_min(spec_max(raw, 0), crop_width)
}

/// One step of the containment pass: a head contained in neither region
/// moves the nearer region (by center distance, the left one winning ties)
/// so that region reaches the head, clamped into `[0, crop_width]`.
pub open spec fn spec_nudge_step(h: ObjectBox, x1: int, x2: int, crop_width: int) -> (int, int) {
    let in1 = spec_xmin(h) >= x1 && spec_xmax(h) <= x1 + crop_width;
    let in2 = spec_xmin(h) >= x2 && spec_xmax(h) <= x2 + crop_width;
    if !in1 && !in2 {
        let d1 = abs_diff(spec_cx(h), x1 + crop_width / 2);
        let d2 = abs_diff(spec_cx(h), x2 + crop_width / 2);
        if d1 <= d2 {
            (spec_min(spec_max(spec_xmin(h), 0), crop_width), x2)
        } else {
            (x1, spec_min(spec_max(spec_xmax(h) - crop_width, 0), crop_width))
        }
    } else {
        (x1, x2)
    }
}

/// The containment pass over all heads in order, threading the two region
/// starts through [`spec_nudge_step`].
pub open spec fn spec_nudge_fold(s: Seq<ObjectBox>, x1: int, x2: int, crop_width: int) -> (int, int)
    decreases s.len(),
{
    if s.len() == 0 { (x1, x2) }
    else {
        let st = spec_nudge_fold(s.drop_last(), x1, x2, crop_width);
        spec_nudge_step(s.last(), st.0, st.1, crop_width)
    }
}

/// The stacked layout for four or five heads (and the fallback for three).
///
/// When every head already sits in a default half, the regions keep the
/// default horizontal split and are only nudged vertically, each for the
/// heads on its side of the frame center. Otherwise each region is placed
/// horizontally over its side's heads, and a final pass nudges the nearer
/// region toward any head still contained in neither.
pub open spec fn spec_four_five_stacked(s: Seq<ObjectBox>, frame_width: int, frame_height: int)
    -> ((int, int, int, int), (int, int, int, int))
{
    let dims = spec_half_stack(frame_width, frame_height);
    let crop_width = dims.0;
    let crop_height = dims.1;
    let default_y = dims.2;
    let frame_center = frame_width / 2;
    let left = spec_left_heads(s, frame_center);
    let right = spec_right_heads(s, frame_center);
    let all_contained = forall|j: int| 0 <= j < s.len()
        ==> spec_head_in_default_halves(#[trigger] s[j], crop_width);
    if all_contained {
        let left_y = spec_vertical_y(left, default_y, frame_height, crop_height);
        let right_y = spec_vertical_y(right, default_y, frame_height, crop_height);
        ((0, left_y, crop_width, crop_height), (crop_width, right_y, crop_width, crop_height))
    } else {
        let crop1_y = spec_vertical_y(left, default_y, frame_height, crop_height);
        let crop2_y = spec_vertical_y(right, default_y, frame_height, crop_height);
        let x1 = if left.len() > 0 { spec_side_x_left(left, crop_width) } else { 0 };
        let x2 = if right.len() > 0 { spec_side_x_right(right, crop_width) } else { crop_width };
        let nudged = spec_nudge_fold(s, x1, x2, crop_width);
        ((nudged.0, crop1_y, crop_width, crop_height), (nudged.1, crop2_y, crop_width, crop_height))
    }
}

/// The least left edge over a non-empty group.
fn group_min_xmin(heads: &Vec<ObjectBox>) -> (r: i64)
    requires
        objects_in_range(heads@),
        heads@.len() >= 1,
    ensures
        r == spec_min_xmin(heads@),
        0 <= r <= MAX_COORD as int,
{
    let mut r: i64 = heads[0].x;
    let mut i: usize = 1;
    proof {
        assert(heads@.take(1)[0] == heads@[0]);
    }
    while i < heads.len()
        invariant
            1 <= i <= heads@.len(),
            objects_in_range(heads@),
            r == spec_min_xmin(heads@.take(i as int)),
            0 <= r <= MAX_COORD as int,
        decreases heads@.len() - i,
    {
        proof {
            assert(heads@.take(i + 1).drop_last() =~= heads@.take(i as int));
            assert(heads@.take(i + 1).last() == heads@[i as int]);
        }
        if heads[i].x < r { r = heads[i].x; }
        i = i + 1;
    }
    proof {
        assert(heads@.take(heads@.len() as int) =~= heads@);
    }
    r
}

/// The greatest right edge over a non-empty group.
fn group_max_xmax(heads: &Vec<ObjectBox>) -> (r: i64)
    requires
        objects_in_range(heads@),
        heads@.len() >= 1,
    ensures
        r == spec_max_xmax(heads@),
        0 <= r <= 2 * (MAX_COORD as int),
{
    let mut r: i64 = heads[0].x + heads[0].width;
    let mut i: usize = 1;
    proof {
        assert(heads@.take(1)[0] == heads@[0]);
    }
    while i < heads.len()
        invariant
            1 <= i <= heads@.len(),
            objects_in_range(heads@),
            r == spec_max_xmax(heads@.take(i as int)),
            0 <= r <= 2 * (MAX_COORD as int),
        decreases heads@.len() - i,
    {
        proof {
            assert(heads@.take(i + 1).drop_last() =~= heads@.take(i as int));
            assert(heads@.take(i + 1).last() == heads@[i as int]);
        }
        if heads[i].x + heads[i].width > r { r = heads[i].x + heads[i].width; }
        i = i + 1;
    }
    proof {
        assert(heads@.take(heads@.len() as int) =~= heads@);
    }
    r
}

/// Clamps a value into `[0, hi]`, the upper bound winning.
fn clamp_0_to(v: i64, hi: i64) -> (r: i64)
    requires
        -4 * (MAX_COORD as int) <= v <= 4 * (MAX_COORD as int),
        0 <= hi <= MAX_COORD as int,
    ensures
        r == spec_min(spec_max(v as int, 0), hi as int),
{
    let lo = if v >= 0 { v } else { 0 };
    if lo <= hi { lo } else { hi }
}

/// What [`calculate_four_and_five_heads_crop`] returns, as a predicate on
/// the result.
pub open spec fn spec_four_five_post(
    r: CropResult,
    s: Seq<ObjectBox>,
    use_stack_crop: bool,
    frame_width: int,
    frame_height: int,
) -> bool {
    let bbox = spec_bounding_box(s);
    let close = 4 * bbox.2 <= 3 * frame_height;
    &&& close ==> (r matches CropResult::Single(a)
        && area_tuple(a) == spec_single_centered(bbox.0 + bbox.2 / 2, frame_width, frame_height))
    &&& !close && use_stack_crop ==> (r matches CropResult::Stacked(c1, c2)
        && ({
            let stacked = spec_four_five_stacked(s, frame_width, frame_height);
            area_tuple(c1) == stacked.0 && area_tuple(c2) == stacked.1
        }))
    &&& !close && !use_stack_crop ==> (r matches CropResult::Single(a)
        && area_tuple(a) == spec_single_centered(
            spec_cx(s[spec_largest_head_idx(s)]), frame_width, frame_height))
}

/// Calculates the crop areas for four or five heads (also the fallback
/// layout for three).
///
/// A single region centered on all heads when they fit 3/4 of the frame
/// height; otherwise the stacked layout of [`spec_four_five_stacked`] when
/// stacking is allowed, else one region centered on the largest head.
#[verifier::rlimit(100)]
pub fn calculate_four_and_five_heads_crop(
    use_stack_crop: bool,
    frame_width: i64,
    frame_height: i64,
    heads: &Vec<ObjectBox>,
) -> (r: CropResult)
    requires
        0 <= frame_width <= MAX_COORD as int,
        0 <= frame_height <= MAX_COORD as int,
        objects_in_range(heads@),
    ensures
        spec_four_five_post(r, heads@, use_stack_crop, frame_width as int, frame_height as int),
        result_in_range(r),
{
    let bbox = calculate_bounding_box(heads);
    if 4 * bbox.width <= 3 * frame_height {
        let center_x = center_x_of_bbox(&bbox);
        CropResult::Single(make_single_crop_centered(center_x, frame_width, frame_height))
    } else if use_stack_crop {
        let (crop_width, crop_height, default_y) = half_stack_dims(frame_width, frame_height);

        let mut all_heads_contained = true;
        let mut i: usize = 0;
        while i < heads.len()
            invariant
                0 <= i <= heads@.len(),
                objects_in_range(heads@),
                0 <= crop_width <= MAX_COORD as int,
                all_heads_contained == forall|j: int| 0 <= j < i
                    ==> spec_head_in_default_halves(#[trigger] heads@[j], crop_width as int),
            decreases heads@.len() - i,
        {
            let h = heads[i];
            let in_crop1 = h.x >= 0 && h.x + h.width <= crop_width;
            let in_crop2 = h.x >= crop_width && h.x + h.width <= crop_width + crop_width;
            all_heads_contained = all_heads_contained && (in_crop1 || in_crop2);
            i = i + 1;
        }

        let frame_center = frame_width / 2;
        let mut left_heads: Vec<ObjectBox> = Vec::new();
        let mut right_heads: Vec<ObjectBox> = Vec::new();
        let mut k: usize = 0;
        while k < heads.len()
            invariant
                0 <= k <= heads@.len(),
                objects_in_range(heads@),
                frame_center == frame_width as int / 2,
                0 <= frame_width <= MAX_COORD as int,
                left_heads@ == spec_left_heads(heads@.take(k as int), frame_center as int),
                right_heads@ == spec_right_heads(heads@.take(k as int), frame_center as int),
                objects_in_range(left_heads@),
                objects_in_range(right_heads@),
            decreases heads@.len() - k,
        {
            let h = heads[k];
            proof {
                assert(heads@.take(k + 1).drop_last() =~= heads@.take(k as int));
                assert(heads@.take(k + 1).last() == heads@[k as int]);
            }
            if h.x + h.width / 2 < frame_center {
                left_heads.push(h);
            } else {
                right_heads.push(h);
            }
            k = k + 1;
        }
        proof {
            assert(heads@.take(heads@.len() as int) =~= heads@);
        }

        let crop1_y = vertical_y_for_heads(&left_heads, default_y, frame_height, crop_height);
        let crop2_y = vertical_y_for_heads(&right_heads, default_y, frame_height, crop_height);

        if all_heads_contained {
            let crop1 = CropArea::new(0, crop1_y, crop_width, crop_height);
            let crop2 = CropArea::new(crop_width, crop2_y, crop_width, crop_height);
            return CropResult::Stacked(crop1, crop2);
        }

        let mut x1: i64 = 0;
        let mut x2: i64 = crop_width;
        if left_heads.len() > 0 {
            let min_x = group_min_xmin(&left_heads);
            let max_x = group_max_xmax(&left_heads);
            let raw = if max_x - min_x > crop_width { (min_x + max_x - crop_width) / 2 } else { min_x };
            x1 = clamp_0_to(raw, crop_width);
        }
        if right_heads.len() > 0 {
            let min_x = group_min_xmin(&right_heads);
            let max_x = group_max_xmax(&right_heads);
            let raw = if max_x - min_x > crop_width { (min_x + max_x - crop_width) / 2 } else { max_x - crop_width };
            x2 = clamp_0_to(raw, crop_width);
        }

        let ghost x1_init: int = x1 as int;
        let ghost x2_init: int = x2 as int;
        let mut n: usize = 0;
        while n < heads.len()
            invariant
                0 <= n <= heads@.len(),
                objects_in_range(heads@),
                0 <= crop_width <= MAX_COORD as int,
                0 <= x1 <= crop_width,
                0 <= x2 <= crop_width,
                (x1 as int, x2 as int) == spec_nudge_fold(heads@.take(n as int), x1_init, x2_init, crop_width as int),
            decreases heads@.len() - n,
        {
            let h = heads[n];
            proof {
                assert(heads@.take(n + 1).drop_last() =~= heads@.take(n as int));
                assert(heads@.take(n + 1).last() == heads@[n as int]);
            }
            let in_crop1 = h.x >= x1 && h.x + h.width <= x1 + crop_width;
            let in_crop2 = h.x >= x2 && h.x + h.width <= x2 + crop_width;
            if !in_crop1 && !in_crop2 {
                let head_center = h.x + h.width / 2;
                let c1_center = x1 + crop_width / 2;
                let c2_center = x2 + crop_width / 2;
                let d1 = if head_center >= c1_center { head_center - c1_center } else { c1_center - head_center };
                let d2 = if head_center >= c2_center { head_center - c2_center } else { c2_center - head_center };
                if d1 <= d2 {
                    x1 = clamp_0_to(h.x, crop_width);
                } else {
                    x2 = clamp_0_to(h.x + h.width - crop_width, crop_width);
                }
            }
            n = n + 1;
        }
        proof {
            assert(heads@.take(heads@.len() as int) =~= heads@);
        }

        let crop1 = CropArea::new(x1, crop1_y, crop_width, crop_height);
        let crop2 = CropArea::new(x2, crop2_y, crop_width, crop_height);
        CropResult::Stacked(crop1, crop2)
    } else {
        proof {
            if heads@.len() == 0 {
                assert(spec_bounding_box(heads@).2 == 0);
            }
            lemma_largest_head_idx(heads@);
        }
        calculate_crop_from_largest_head(frame_width, frame_height, heads)
    }
}

/// Three values in ascending order.
pub open spec fn spec_sort3(a: int, b: int, c: int) -> (int, int, int) {
    let lo = spec_min(a, spec_min(b, c));
    let hi = spec_max(a, spec_max(b, c));
    (lo, a + b + c - lo - hi, hi)
}

/// Of three heads, the first whose horizontal center equals `c`.
pub open spec fn spec_pick_by_cx(s: Seq<ObjectBox>, c: int) -> ObjectBox
    recommends s.len() == 3,
{
    if spec_cx(s[0]) == c { s[0] }
    else if spec_cx(s[1]) == c { s[1] }
    else { s[2] }
}

/// Whether three heads qualify for the bespoke three-head layout: their
/// areas within a 5:2 ratio of each other and the two gaps between their
/// sorted centers within a 2:1 ratio of each other (both comparisons by
/// cross-multiplication, so degenerate zero areas or zero gaps count as
/// equal).
pub open spec fn spec_three_special_applies(s: Seq<ObjectBox>) -> bool
    recommends s.len() == 3,
{
    let amin = spec_min(spec_area(s[0]), spec_min(spec_area(s[1]), spec_area(s[2])));
    let amax = spec_max(spec_area(s[0]), spec_max(spec_area(s[1]), spec_area(s[2])));
    let similar_size = 2 * amax <= 5 * amin;
    let sorted = spec_sort3(spec_cx(s[0]), spec_cx(s[1]), spec_cx(s[2]));
    let spacing1 = sorted.1 - sorted.0;
    let spacing2 = sorted.2 - sorted.1;
    let equally_spaced = spec_max(spacing1, spacing2) <= 2 * spec_min(spacing1, spacing2);
    similar_size && equally_spaced
}

/// The bespoke three-head layout: a 9:6 region at 80% frame height placed
/// over the two left-most heads, 10% of the frame height from the top, and
/// a 9:10 region at 80% frame height placed over the right-most head, 15%
/// from the top, each clamped into the frame.
pub open spec fn spec_three_heads_special(s: Seq<ObjectBox>, frame_width: int, frame_height: int)
    -> ((int, int, int, int), (int, int, int, int))
    recommends s.len() == 3,
{
    let crop1_height = 4 * frame_height / 5;
    let crop1_width = 3 * crop1_height / 2;
    let crop1_y = frame_height / 10;
    let crop2_height = 4 * frame_height / 5;
    let crop2_width = 9 * crop2_height / 10;
    let crop2_y = 3 * frame_height / 20;
    let sorted = spec_sort3(spec_cx(s[0]), spec_cx(s[1]), spec_cx(s[2]));
    let head1 = spec_pick_by_cx(s, sorted.0);
    let head2 = spec_pick_by_cx(s, sorted.1);
    let min_x = spec_min(spec_xmin(head1), spec_xmin(head2));
    let max_x = spec_max(spec_xmax(head1), spec_xmax(head2));
    let center_between_two = (min_x + max_x) / 2;
    let crop1_x = spec_min(spec_max(center_between_two - crop1_width / 2, 0), frame_width - crop1_width);
    let crop2_x = spec_min(spec_max(sorted.2 - crop2_width / 2, 0), frame_width - crop2_width);
    ((crop1_x, crop1_y, crop1_width, crop1_height), (crop2_x, crop2_y, crop2_width, crop2_height))
}

/// What [`calculate_three_heads_crop`] returns, as a predicate on the
/// result.
pub open spec fn spec_three_heads_post(
    r: CropResult,
    s: Seq<ObjectBox>,
    use_stack_crop: bool,
    frame_width: int,
    frame_height: int,
) -> bool
    recommends s.len() == 3,
{
    let applies = spec_three_special_applies(s) && use_stack_crop;
    &&& applies ==> (r matches CropResult::Stacked(c1, c2)
        && ({
            let special = spec_three_heads_special(s, frame_width, frame_height);
            area_tuple(c1) == special.0 && area_tuple(c2) == special.1
        }))
    &&& !applies ==> spec_four_five_post(r, s, use_stack_crop, frame_width, frame_height)
}

/// Calculates the crop areas for three heads.
///
/// When the heads are similar in size and roughly evenly spaced and
/// stacking is allowed, a bespoke pair: one wide region over the two
/// left-most heads and one narrow region over the right-most. Otherwise
/// the four-and-five-heads rule decides.
#[verifier::rlimit(100)]
pub fn calculate_three_heads_crop(
    use_stack_crop: bool,
    frame_width: i64,
    frame_height: i64,
    heads: &Vec<ObjectBox>,
) -> (r: CropResult)
    requires
        0 <= frame_width <= MAX_COORD as int,
        0 <= frame_height <= MAX_COORD as int,
        objects_in_range(heads@),
        heads@.len() == 3,
    ensures
        spec_three_heads_post(r, heads@, use_stack_crop, frame_width as int, frame_height as int),
        result_in_range(r),
{
    let h0 = heads[0];
    let h1 = heads[1];
    let h2 = heads[2];
    let area0 = box_area(&h0);
    let area1 = box_area(&h1);
    let area2 = box_area(&h2);
    let min_area = if area0 <= area1 && area0 <= area2 { area0 }
        else if area1 <= area2 { area1 } else { area2 };
    let max_area = if area0 >= area1 && area0 >= area2 { area0 }
        else if area1 >= area2 { area1 } else { area2 };
    let similar_size = 2 * max_area <= 5 * min_area;

    let c0 = h0.x + h0.width / 2;
    let c1 = h1.x + h1.width / 2;
    let c2 = h2.x + h2.width / 2;
    let lo = if c0 <= c1 && c0 <= c2 { c0 } else if c1 <= c2 { c1 } else { c2 };
    let hi = if c0 >= c1 && c0 >= c2 { c0 } else if c1 >= c2 { c1 } else { c2 };
    let mid = c0 + c1 + c2 - lo - hi;

    let spacing1 = mid - lo;
    let spacing2 = hi - mid;
    let max_spacing = if spacing1 >= spacing2 { spacing1 } else { spacing2 };
    let min_spacing = if spacing1 <= spacing2 { spacing1 } else { spacing2 };
    let equally_spaced = max_spacing <= 2 * min_spacing;

    if similar_size && equally_spaced && use_stack_crop {
        let crop1_height = (4 * frame_height) / 5;
        let crop1_width = (3 * crop1_height) / 2;
        let crop1_y = frame_height / 10;
        let crop2_height = (4 * frame_height) / 5;
        let crop2_width = (9 * crop2_height) / 10;
        let crop2_y = (3 * frame_height) / 20;

        let head1 = if c0 == lo { h0 } else if c1 == lo { h1 } else { h2 };
        let head2 = if c0 == mid { h0 } else if c1 == mid { h1 } else { h2 };

        let min_x = if head1.x <= head2.x { head1.x } else { head2.x };
        let max_x = if head1.x + head1.width >= head2.x + head2.width {
            head1.x + head1.width
        } else {
            head2.x + head2.width
        };
        let center_between_two = (min_x + max_x) / 2;

        let raw1 = center_between_two - crop1_width / 2;
        let raw1 = if raw1 >= 0 { raw1 } else { 0 };
        let crop1_x = if raw1 <= frame_width - crop1_width { raw1 } else { frame_width - crop1_width };

        let raw2 = hi - crop2_width / 2;
        let raw2 = if raw2 >= 0 { raw2 } else { 0 };
        let crop2_x = if raw2 <= frame_width - crop2_width { raw2 } else { frame_width - crop2_width };

        let crop1 = CropArea::new(crop1_x, crop1_y, crop1_width, crop1_height);
        let crop2 = CropArea::new(crop2_x, crop2_y, crop2_width, crop2_height);
        return CropResult::Stacked(crop1, crop2);
    }

    calculate_four_and_five_heads_crop(use_stack_crop, frame_width, frame_height, heads)
}

/// Head `i` dominates: its area is at least 5/2 of every other head's.
pub open spec fn spec_is_dominant(s: Seq<ObjectBox>, i: int) -> bool {
    forall|j: int| 0 <= j < s.len() && j != i
        ==> 2 * spec_area(s[i]) >= 5 * spec_area(#[trigger] s[j])
}

/// The first dominant index at or after `i`, or -1 when none exists.
pub open spec fn spec_first_dominant_from(s: Seq<ObjectBox>, i: int) -> int
    decreases s.len() - i,
{
    if i >= s.len() || i < 0 { -1 }
    else if spec_is_dominant(s, i) { i }
    else { spec_first_dominant_from(s, i + 1) }
}

/// The first dominant index of the sequence, or -1 when none exists.
pub open spec fn spec_first_dominant(s: Seq<ObjectBox>) -> int {
    spec_first_dominant_from(s, 0)
}

/// Whether head `i` dominates every other head.
fn is_dominant_at(heads: &Vec<ObjectBox>, i: usize) -> (r: bool)
    requires
        objects_in_range(heads@),
        0 <= i < heads@.len(),
    ensures
        r == spec_is_dominant(heads@, i as int),
{
    let area_i = box_area(&heads[i]);
    let mut ok = true;
    let mut j: usize = 0;
    while j < heads.len()
        invariant
            0 <= j <= heads@.len(),
            0 <= i < heads@.len(),
            objects_in_range(heads@),
            area_i == spec_area(heads@[i as int]),
            0 <= area_i <= (MAX_COORD as int) * (MAX_COORD as int),
            ok == forall|j2: int| 0 <= j2 < j && j2 != i as int
                ==> 2 * spec_area(heads@[i as int]) >= 5 * spec_area(#[trigger] heads@[j2]),
        decreases heads@.len() - j,
    {
        if j != i {
            let area_j = box_area(&heads[j]);
            ok = ok && 2 * area_i >= 5 * area_j;
        }
        j = j + 1;
    }
    ok
}

/// Finds the first head at least 5/2 the area of every other head.
fn find_large_head(heads: &Vec<ObjectBox>) -> (r: Option<usize>)
    requires
        objects_in_range(heads@),
    ensures
        ({
            let d = spec_first_dominant(heads@);
            if d >= 0 { r matches Some(i) && i as int == d } else { r is None }
        }),
        r matches Some(i) ==> 0 <= i < heads@.len(),
{
    let mut i: usize = 0;
    while i < heads.len()
        invariant
            0 <= i <= heads@.len(),
            objects_in_range(heads@),
            spec_first_dominant(heads@) == spec_first_dominant_from(heads@, i as int),
        decreases heads@.len() - i,
    {
        if is_dominant_at(heads, i) {
            return Some(i);
        }
        i = i + 1;
    }
    None
}

/// What [`calculate_six_or_more_heads_crop`] returns, as a predicate on
/// the result.
///
/// One region centered on all heads when they fit 3/4 of the frame
/// height. Otherwise, with a dominant head: when stacking is allowed, one
/// half-stack region centered on that head and one over the rest (moved to
/// the far side of the frame when the two would overlap by half a region
/// or more); without stacking, one region centered on the dominant head.
/// With no dominant head, the zero-heads layout.
pub open spec fn spec_six_more_post(
    r: CropResult,
    s: Seq<ObjectBox>,
    use_stack_crop: bool,
    frame_width: int,
    frame_height: int,
) -> bool {
    let bbox = spec_bounding_box(s);
    let close = 4 * bbox.2 <= 3 * frame_height;
    &&& close ==> (r matches CropResult::Single(a)
        && area_tuple(a) == spec_single_centered(bbox.0 + bbox.2 / 2, frame_width, frame_height))
    &&& !close ==> ({
        let d = spec_first_dominant(s);
        &&& d >= 0 && use_stack_crop ==> ({
            let dims = spec_half_stack(frame_width, frame_height);
            let crop_width = dims.0;
            let crop_height = dims.1;
            let crop_y = dims.2;
            let crop1_x = spec_min(spec_max(spec_cx(s[d]) - crop_width / 2, 0), frame_width - crop_width);
            let remaining = s.remove(d);
            if remaining.len() == 0 {
                r matches CropResult::Single(a)
                    && area_tuple(a) == (crop1_x, 0int, crop_width, frame_height)
            } else {
                let rb = spec_bounding_box(remaining);
                let c2_raw = spec_min(spec_max(rb.0 + rb.2 / 2 - crop_width / 2, 0), frame_width - crop_width);
                let crop2_x = if 2 * abs_diff(crop1_x, c2_raw) < crop_width {
                    if crop1_x < frame_width / 2 { frame_width - crop_width } else { 0 }
                } else {
                    c2_raw
                };
                r matches CropResult::Stacked(c1, c2)
                    && area_tuple(c1) == (crop1_x, crop_y, crop_width, crop_height)
                    && area_tuple(c2) == (crop2_x, crop_y, crop_width, crop_height)
            }
        })
        &&& d >= 0 && !use_stack_crop ==> (r matches CropResult::Single(a)
            && area_tuple(a) == spec_single_centered(spec_cx(s[d]), frame_width, frame_height))
        &&& d < 0 ==> (r matches CropResult::Single(a)
            && area_tuple(a) == spec_single_centered(frame_width / 2, frame_width, frame_height))
    })
}

/// Calculates the crop areas for six or more heads.
#[verifier::rlimit(100)]
pub fn calculate_six_or_more_heads_crop(
    use_stack_crop: bool,
    frame_width: i64,
    frame_height: i64,
    heads: &Vec<ObjectBox>,
) -> (r: CropResult)
    requires
        0 <= frame_width <= MAX_COORD as int,
        0 <= frame_height <= MAX_COORD as int,
        objects_in_range(heads@),
    ensures
        spec_six_more_post(r, heads@, use_stack_crop, frame_width as int, frame_height as int),
        result_in_range(r),
{
    let bbox = calculate_bounding_box(heads);
    if 4 * bbox.width <= 3 * frame_height {
        let center_x = center_x_of_bbox(&bbox);
        CropResult::Single(make_single_crop_centered(center_x, frame_width, frame_height))
    } else {
        let large_head_index = find_large_head(heads);
        if let Some(large_head_idx) = large_head_index {
            let large_head = heads[large_head_idx];
            if use_stack_crop {
                let (crop_width, crop_height, crop_y) = half_stack_dims(frame_width, frame_height);

                let raw1 = large_head.x + large_head.width / 2 - crop_width / 2;
                let raw1 = if raw1 >= 0 { raw1 } else { 0 };
                let crop1_x = if raw1 <= frame_width - crop_width { raw1 } else { frame_width - crop_width };

                let mut remaining: Vec<ObjectBox> = Vec::new();
                let mut k: usize = 0;
                while k < heads.len()
                    invariant
                        0 <= k <= heads@.len(),
                        0 <= large_head_idx < heads@.len(),
                        objects_in_range(heads@),
                        k <= large_head_idx ==> remaining@ == heads@.take(k as int),
                        k > large_head_idx ==> remaining@ == heads@.take(k as int).remove(large_head_idx as int),
                        objects_in_range(remaining@),
                    decreases heads@.len() - k,
                {
                    proof {
                        assert(heads@.take(k + 1).drop_last() =~= heads@.take(k as int));
                        assert(heads@.take(k + 1).last() == heads@[k as int]);
                        if k == large_head_idx {
                            assert(heads@.take(k + 1).remove(large_head_idx as int) =~= heads@.take(k as int));
                        } else if k > large_head_idx {
                            assert(heads@.take(k + 1).remove(large_head_idx as int)
                                =~= heads@.take(k as int).remove(large_head_idx as int).push(heads@[k as int]));
                        }
                    }
                    if k != large_head_idx {
                        remaining.push(heads[k]);
                    }
                    k = k + 1;
                }
                proof {
                    assert(heads@.take(heads@.len() as int) =~= heads@);
                }

                if remaining.len() == 0 {
                    return CropResult::Single(CropArea::new(crop1_x, 0, crop_width, frame_height));
                }

                let remaining_bbox = calculate_bounding_box(&remaining);
                let raw2 = center_x_of_bbox(&remaining_bbox) - crop_width / 2;
                let raw2 = if raw2 >= 0 { raw2 } else { 0 };
                let mut crop2_x = if raw2 <= frame_width - crop_width { raw2 } else { frame_width - crop_width };

                let gap = if crop1_x >= crop2_x { crop1_x - crop2_x } else { crop2_x - crop1_x };
                if 2 * gap < crop_width {
                    if crop1_x < frame_width / 2 {
                        crop2_x = frame_width - crop_width;
                    } else {
                        crop2_x = 0;
                    }
                }

                let crop1 = CropArea::new(crop1_x, crop_y, crop_width, crop_height);
                let crop2 = CropArea::new(crop2_x, crop_y, crop_width, crop_height);
                CropResult::Stacked(crop1, crop2)
            } else {
                calculate_single_head_crop(frame_width, frame_height, &large_head)
            }
        } else {
            calculate_no_heads_crop(frame_width, frame_height, false)
        }
    }
}

/// What [`calculate_crop_area`] returns for each object count.
pub open spec fn spec_crop_area_post(
    r: CropResult,
    s: Seq<ObjectBox>,
    use_stack_crop: bool,
    is_graphic: bool,
    frame_width: int,
    frame_height: int,
) -> bool {
    if s.len() == 0 {
        &&& is_graphic ==> (r matches CropResult::Resize(a)
            && area_tuple(a) == (0int, 0int, frame_width, frame_height))
        &&& !is_graphic ==> (r matches CropResult::Single(a)
            && area_tuple(a) == spec_single_centered(frame_width / 2, frame_width, frame_height))
    } else if s.len() == 1 {
        r matches CropResult::Single(a)
            && area_tuple(a) == spec_single_centered(spec_cx(s[0]), frame_width, frame_height)
    } else if s.len() == 2 {
        spec_two_heads_post(r, s[0], s[1], use_stack_crop, frame_width, frame_height)
    } else if s.len() == 3 {
        spec_three_heads_post(r, s, use_stack_crop, frame_width, frame_height)
    } else if s.len() <= 5 {
        spec_four_five_post(r, s, use_stack_crop, frame_width, frame_height)
    } else {
        spec_six_more_post(r, s, use_stack_crop, frame_width, frame_height)
    }
}

/// Calculates the optimal crop area for the detected heads, dispatching on
/// the object count.
///
/// Total over every well-formed input: every count, including zero, has a
/// defined layout and the function never fails.
pub fn calculate_crop_area(
    use_stack_crop: bool,
    is_graphic: bool,
    frame_width: i64,
    frame_height: i64,
    heads: &Vec<ObjectBox>,
) -> (r: CropResult)
    requires
        0 <= frame_width <= MAX_COORD as int,
        0 <= frame_height <= MAX_COORD as int,
        objects_in_range(heads@),
    ensures
        spec_crop_area_post(r, heads@, use_stack_crop, is_graphic, frame_width as int, frame_height as int),
        result_in_range(r),
{
    if heads.len() == 0 {
        calculate_no_heads_crop(frame_width, frame_height, is_graphic)
    } else if heads.len() == 1 {
        calculate_single_head_crop(frame_width, frame_height, &heads[0])
    } else if heads.len() == 2 {
        calculate_two_heads_crop(use_stack_crop, frame_width, frame_height, &heads[0], &heads[1])
    } else if heads.len() == 3 {
        calculate_three_heads_crop(use_stack_crop, frame_width, frame_height, heads)
    } else if heads.len() <= 5 {
        calculate_four_and_five_heads_crop(use_stack_crop, frame_width, frame_height, heads)
    } else {
        calculate_six_or_more_heads_crop(use_stack_crop, frame_width, frame_height, heads)
    }
}

/// How much of the span `[xmin, xmax]` lies inside the region starting at
/// `crop_x` and `crop_width` wide.
fn overlap_width(xmin: i64, xmax: i64, crop_x: i64, crop_width: i64) -> (r: i64)
    requires
        0 <= xmin <= 2 * (MAX_COORD as int),
        0 <= xmax <= 2 * (MAX_COORD as int),
        0 <= crop_x <= MAX_COORD as int,
        0 <= crop_width <= MAX_COORD as int,
    ensures
        r == spec_overlap_width(xmin as int, xmax as int, crop_x as int, crop_width as int),
{
    let hi = if xmax <= crop_x + crop_width { xmax } else { crop_x + crop_width };
    let lo = if xmin >= crop_x { xmin } else { crop_x };
    if hi - lo >= 0 { hi - lo } else { 0 }
}

/// The zero-objects layout is truly centered: with no objects and a frame
/// wide enough for the 3:4 region, the region spans the full frame height
/// from `y = 0`, is 3/4 of that height wide, and its horizontal center is
/// the frame's horizontal center.
pub proof fn lemma_no_heads_centered(frame_width: int, frame_height: int)
    requires
        0 <= frame_height,
        spec_three_four_width(frame_height) <= frame_width,
    ensures
        ({
            let t = spec_single_centered(frame_width / 2, frame_width, frame_height);
            &&& t.1 == 0
            &&& t.2 == spec_three_four_width(frame_height)
            &&& t.3 == frame_height
            &&& t.0 + t.2 / 2 == frame_width / 2
            &&& 0 <= t.0
            &&& t.0 + t.2 <= frame_width
        }),
{
    lemma_single_crop_centered(frame_width / 2, frame_width, frame_height);
    let w = spec_three_four_width(frame_height);
    vstd::arithmetic::div_mod::lemma_div_is_ordered(w, frame_width, 2);
    vstd::arithmetic::div_mod::lemma_fundamental_div_mod(w, 2);
    vstd::arithmetic::div_mod::lemma_fundamental_div_mod(frame_width, 2);
    vstd::arithmetic::div_mod::lemma_mod_bound(w, 2);
    vstd::arithmetic::div_mod::lemma_mod_bound(frame_width, 2);
}

/// The single-region rule is truly centered: whenever the 3:4 region fits
/// the frame on both sides of the requested center, no clamping happens
/// and the region's horizontal center is exactly the requested one.
pub proof fn lemma_single_crop_centered(center_x: int, frame_width: int, frame_height: int)
    requires
        0 <= frame_height,
        spec_three_four_width(frame_height) / 2 <= center_x,
        center_x + spec_three_four_width(frame_height) - spec_three_four_width(frame_height) / 2 <= frame_width,
    ensures
        ({
            let t = spec_single_centered(center_x, frame_width, frame_height);
            &&& t.0 == center_x - spec_three_four_width(frame_height) / 2
            &&& t.0 + t.2 / 2 == center_x
            &&& 0 <= t.0
            &&& t.0 + t.2 <= frame_width
        }),
{
}

/// Containment law for the stacked two-head layout: when the frame width
/// is even, both heads lie inside the frame, and neither head is wider
/// than half the frame, every head's horizontal span is fully contained in
/// at least one of the two regions.
#[verifier::rlimit(100)]
pub proof fn lemma_two_heads_stacked_contains(head1: ObjectBox, head2: ObjectBox, frame_width: int, frame_height: int)
    requires
        object_in_range(head1),
        object_in_range(head2),
        0 <= frame_width <= MAX_COORD as int,
        frame_width % 2 == 0,
        spec_xmax(head1) <= frame_width,
        spec_xmax(head2) <= frame_width,
        2 * head1.width <= frame_width,
        2 * head2.width <= frame_width,
    ensures
        ({
            let ordered = spec_ordered_pair(head1, head2);
            let st = spec_two_heads_stacked(ordered.0, ordered.1, frame_width, frame_height);
            &&& (st.0.0 <= spec_xmin(ordered.0) && spec_xmax(ordered.0) <= st.0.0 + st.0.2)
                || (st.1.0 <= spec_xmin(ordered.0) && spec_xmax(ordered.0) <= st.1.0 + st.1.2)
            &&& (st.0.0 <= spec_xmin(ordered.1) && spec_xmax(ordered.1) <= st.0.0 + st.0.2)
                || (st.1.0 <= spec_xmin(ordered.1) && spec_xmax(ordered.1) <= st.1.0 + st.1.2)
        }),
{
    let ordered = spec_ordered_pair(head1, head2);
    let left = ordered.0;
    let right = ordered.1;
    let crop_width = frame_width / 2;
    vstd::arithmetic::div_mod::lemma_fundamental_div_mod(frame_width, 2);
    assert(2 * crop_width == frame_width);
    assert(left.width <= crop_width && right.width <= crop_width) by {
        vstd::arithmetic::div_mod::lemma_div_is_ordered(2 * left.width, frame_width, 2);
        vstd::arithmetic::div_mod::lemma_div_is_ordered(2 * right.width, frame_width, 2);
        vstd::arithmetic::div_mod::lemma_fundamental_div_mod(2 * left.width, 2);
        vstd::arithmetic::div_mod::lemma_fundamental_div_mod(2 * right.width, 2);
        vstd::arithmetic::div_mod::lemma_mod_bound(2 * left.width, 2);
        vstd::arithmetic::div_mod::lemma_mod_bound(2 * right.width, 2);
    };
    let left_in_crop1 = spec_overlap_width(spec_xmin(left), spec_xmax(left), 0, crop_width);
    let left_in_crop2 = spec_overlap_width(spec_xmin(left), spec_xmax(left), crop_width, crop_width);
    let right_in_crop1 = spec_overlap_width(spec_xmin(right), spec_xmax(right), 0, crop_width);
    let right_in_crop2 = spec_overlap_width(spec_xmin(right), spec_xmax(right), crop_width, crop_width);
    let left_spans = left_in_crop1 > 0 && left_in_crop2 > 0;
    let right_spans = right_in_crop1 > 0 && right_in_crop2 > 0;
    if !(left_spans || right_spans) {
        assert(spec_xmax(left) <= crop_width || crop_width <= spec_xmin(left));
        assert(spec_xmax(right) <= crop_width || crop_width <= spec_xmin(right));
    }
}

/// The field-wise tolerance check is reflexive: every rectangle is within
/// any non-negative threshold of itself.
pub proof fn lemma_within_percentage_reflexive(a: CropArea, frame_width: int, threshold_percent: int)
    requires
        frame_width >= 0,
        threshold_percent >= 0,
    ensures
        areas_within_percentage(a, a, frame_width, threshold_percent),
{
    assert(threshold_percent * frame_width >= 0) by (nonlinear_arith)
        requires threshold_percent >= 0 && frame_width >= 0;
}

/// The field-wise tolerance check is monotonic in the threshold: what is
/// within a tolerance is within every larger tolerance.
pub proof fn lemma_within_percentage_monotonic(
    a: CropArea, b: CropArea, frame_width: int, t1: int, t2: int,
)
    requires
        frame_width >= 0,
        t1 <= t2,
        areas_within_percentage(a, b, frame_width, t1),
    ensures
        areas_within_percentage(a, b, frame_width, t2),
{
    assert(t1 * frame_width <= t2 * frame_width) by (nonlinear_arith)
        requires t1 <= t2 && frame_width >= 0;
}

} // verus!

//! Where things go: sprites on a sheet, images and buttons on a screen.

use vstd::prelude::*;
use crate::button::InteractiveButton;
use crate::geometry::{Point, Rect};

verus! {

/// The offset that centres something `size` long in an extent `extent`
/// long: half of what is left over, rounded down. It is negative where the
/// thing is longer than the extent.
pub open spec fn spec_centered(extent: u32, size: u32) -> int {
    (extent - size) / 2
}

/// The offset that puts the end of something `size` long at the end of an
/// extent `extent` long.
pub open spec fn spec_flush_end(extent: u32, size: u32) -> int {
    extent - size
}

/// The four places that put something `w` wide and `h` high into the
/// corners of a screen: top left, top right, bottom left, bottom right.
pub open spec fn spec_corners(screen_w: u32, screen_h: u32, w: u32, h: u32) -> Seq<(int, int)> {
    seq![
        (0int, 0int),
        (spec_flush_end(screen_w, w), 0int),
        (0int, spec_flush_end(screen_h, h)),
        (spec_flush_end(screen_w, w), spec_flush_end(screen_h, h)),
    ]
}

/// Whether `v` can be a screen coordinate.
pub open spec fn fits_coordinate(v: int) -> bool {
    i32::MIN <= v <= i32::MAX
}

/// The offset that centres something `size` long in an extent `extent`
/// long.
pub fn centered(extent: u32, size: u32) -> (offset: i32)
    ensures
        offset == spec_centered(extent, size),
{
    let left_over: i64 = extent as i64 - size as i64;
    if left_over >= 0 {
        (left_over / 2) as i32
    } else {
        let lacking: i64 = -left_over;
        (-((lacking + 1) / 2)) as i32
    }
}

/// The offset that puts the end of something `size` long at the end of an
/// extent `extent` long; `None` where that is no screen coordinate.
pub fn flush_end(extent: u32, size: u32) -> (offset: Option<i32>)
    ensures
        offset is Some <==> fits_coordinate(spec_flush_end(extent, size)),
        offset matches Some(v) ==> v == spec_flush_end(extent, size),
{
    let v: i64 = extent as i64 - size as i64;
    if v < i32::MIN as i64 || v > i32::MAX as i64 {
        None
    } else {
        Some(v as i32)
    }
}

/// The four places that put something `w` wide and `h` high into the
/// corners of a screen, in the order top left, top right, bottom left,
/// bottom right; `None` where one of them is no screen coordinate.
pub fn corners(screen_w: u32, screen_h: u32, w: u32, h: u32) -> (places: Option<[Point; 4]>)
    ensures
        places is Some <==> fits_coordinate(spec_flush_end(screen_w, w)) && fits_coordinate(
            spec_flush_end(screen_h, h),
        ),
        places matches Some(p) ==> forall|i: int|
            0 <= i < 4 ==> (#[trigger] p[i]).x == spec_corners(screen_w, screen_h, w, h)[i].0
                && p[i].y == spec_corners(screen_w, screen_h, w, h)[i].1,
{
    match (flush_end(screen_w, w), flush_end(screen_h, h)) {
        (Some(right), Some(bottom)) => Some(
            [
                Point { x: 0, y: 0 },
                Point { x: right, y: 0 },
                Point { x: 0, y: bottom },
                Point { x: right, y: bottom },
            ],
        ),
        _ => None,
    }
}

/// Four idle buttons, each `w` wide and `h` high, in the corners of a
/// screen, in the order top left, top right, bottom left, bottom right;
/// `None` where one of the places is no screen coordinate.
pub fn corner_buttons(screen_w: u32, screen_h: u32, w: u32, h: u32) -> (buttons: Option<
    [InteractiveButton; 4],
>)
    ensures
        buttons is Some <==> fits_coordinate(spec_flush_end(screen_w, w)) && fits_coordinate(
            spec_flush_end(screen_h, h),
        ),
        buttons matches Some(b) ==> forall|i: int|
            0 <= i < 4 ==> (#[trigger] b[i])@ == crate::button::ButtonModel::idle(
                Rect {
                    x: spec_corners(screen_w, screen_h, w, h)[i].0 as i32,
                    y: spec_corners(screen_w, screen_h, w, h)[i].1 as i32,
                    w,
                    h,
                },
            ),
{
    match corners(screen_w, screen_h, w, h) {
        Some(p) => Some(
            [
                InteractiveButton::with_bounds(Rect { x: p[0].x, y: p[0].y, w, h }),
                InteractiveButton::with_bounds(Rect { x: p[1].x, y: p[1].y, w, h }),
                InteractiveButton::with_bounds(Rect { x: p[2].x, y: p[2].y, w, h }),
                InteractiveButton::with_bounds(Rect { x: p[3].x, y: p[3].y, w, h }),
            ],
        ),
        None => None,
    }
}

/// The clip of sprite `i` on a sheet that stacks sprites `w` wide and `h`
/// high in one column.
pub open spec fn spec_column_clip(w: u32, h: u32, i: int) -> Rect {
    Rect { x: 0, y: (i * h) as i32, w, h }
}

/// The clips of the four sprites on a sheet that stacks them in one column,
/// top to bottom; `None` where the lowest sprite starts below every screen
/// coordinate.
pub fn column_clips(w: u32, h: u32) -> (clips: Option<[Rect; 4]>)
    ensures
        clips is Some <==> 3 * h <= i32::MAX,
        clips matches Some(c) ==> forall|i: int|
            0 <= i < 4 ==> #[trigger] c[i] == spec_column_clip(w, h, i),
{
    let step: i64 = h as i64;
    if 3 * step > i32::MAX as i64 {
        None
    } else {
        let c = [
            Rect { x: 0, y: 0, w, h },
            Rect { x: 0, y: step as i32, w, h },
            Rect { x: 0, y: (2 * step) as i32, w, h },
            Rect { x: 0, y: (3 * step) as i32, w, h },
        ];
        assert forall|i: int| 0 <= i < 4 implies #[trigger] c[i] == spec_column_clip(w, h, i) by {
            assert(i == 0 || i == 1 || i == 2 || i == 3);
            assert(0 * h == 0 && 1 * h == h && 2 * h == h + h && 3 * h == h + h + h);
        }
        Some(c)
    }
}

/// The clip of sprite `i` on a sheet that holds four sprites `w` wide and
/// `h` high in two rows of two.
pub open spec fn spec_grid_clip(w: u32, h: u32, i: int) -> Rect {
    Rect {
        x: if i % 2 == 0 {
            0
        } else {
            w as i32
        },
        y: if i / 2 == 0 {
            0
        } else {
            h as i32
        },
        w,
        h,
    }
}

/// The clips of the four sprites on a sheet that holds them in two rows of
/// two, row by row; `None` where the second column or row starts beyond
/// every screen coordinate.
pub fn grid_clips(w: u32, h: u32) -> (clips: Option<[Rect; 4]>)
    ensures
        clips is Some <==> w <= i32::MAX && h <= i32::MAX,
        clips matches Some(c) ==> forall|i: int|
            0 <= i < 4 ==> #[trigger] c[i] == spec_grid_clip(w, h, i),
{
    if w > i32::MAX as u32 || h > i32::MAX as u32 {
        None
    } else {
        let x: i32 = w as i32;
        let y: i32 = h as i32;
        let c = [
            Rect { x: 0, y: 0, w, h },
            Rect { x, y: 0, w, h },
            Rect { x: 0, y, w, h },
            Rect { x, y, w, h },
        ];
        assert forall|i: int| 0 <= i < 4 implies #[trigger] c[i] == spec_grid_clip(w, h, i) by {
            assert(i == 0 || i == 1 || i == 2 || i == 3);
        }
        Some(c)
    }
}

/// Number of frames in a walk cycle.
pub const WALKING_FRAMES: usize = 4;

/// The frame that follows `frame` in a walk cycle: the next one, and after
/// the last the first again.
pub fn next_frame(frame: usize) -> (next: usize)
    ensures
        next == (frame + 1) % (WALKING_FRAMES as int),
        next < WALKING_FRAMES,
{
    let within: usize = frame % WALKING_FRAMES;
    if within + 1 == WALKING_FRAMES {
        0
    } else {
        within + 1
    }
}

/// The clip that shows frame `frame` of a walk cycle, whose sprites are
/// `clips`. Frames beyond the cycle's length wrap round.
pub fn frame_clip(clips: &[Rect; 4], frame: usize) -> (clip: Rect)
    ensures
        clip == clips[frame as int % 4],
{
    clips[frame % WALKING_FRAMES]
}

/// The three views of a split screen: the top left quarter, the top right
/// quarter, and the bottom half.
pub open spec fn spec_viewports(screen_w: u32, screen_h: u32) -> Seq<Rect> {
    seq![
        Rect { x: 0, y: 0, w: screen_w / 2, h: screen_h / 2 },
        Rect { x: (screen_w / 2) as i32, y: 0, w: screen_w / 2, h: screen_h / 2 },
        Rect { x: 0, y: (screen_h / 2) as i32, w: screen_w, h: screen_h / 2 },
    ]
}

/// The three views of a split screen: the top left quarter, the top right
/// quarter, and the bottom half.
pub fn viewports(screen_w: u32, screen_h: u32) -> (views: [Rect; 3])
    ensures
        views@ == spec_viewports(screen_w, screen_h),
{
    let half_w: u32 = screen_w / 2;
    let half_h: u32 = screen_h / 2;
    let views = [
        Rect { x: 0, y: 0, w: half_w, h: half_h },
        Rect { x: half_w as i32, y: 0, w: half_w, h: half_h },
        Rect { x: 0, y: half_h as i32, w: screen_w, h: half_h },
    ];
    assert(views@ =~= spec_viewports(screen_w, screen_h));
    views
}

/// The box that is filled in the middle of a screen: half as wide and half
/// as high as the screen, a quarter of the screen away from the top left.
pub fn filled_box(screen_w: u32, screen_h: u32) -> (r: Rect)
    ensures
        r == (Rect {
            x: (screen_w / 4) as i32,
            y: (screen_h / 4) as i32,
            w: screen_w / 2,
            h: screen_h / 2,
        }),
{
    Rect { x: (screen_w / 4) as i32, y: (screen_h / 4) as i32, w: screen_w / 2, h: screen_h / 2 }
}

/// The box that is outlined in the middle of a screen: two thirds as wide
/// and as high as the screen, a sixth of the screen away from the top left.
pub fn outline_box(screen_w: u32, screen_h: u32) -> (r: Rect)
    ensures
        r == (Rect {
            x: (screen_w / 6) as i32,
            y: (screen_h / 6) as i32,
            w: ((screen_w * 2) / 3) as u32,
            h: ((screen_h * 2) / 3) as u32,
        }),
{
    Rect {
        x: (screen_w / 6) as i32,
        y: (screen_h / 6) as i32,
        w: ((screen_w as u64 * 2) / 3) as u32,
        h: ((screen_h as u64 * 2) / 3) as u32,
    }
}

/// The ends of the line that halves a screen into top and bottom: from the
/// left edge to the first column beyond the right edge, at half the height;
/// `None` where that column is no screen coordinate.
pub fn midline(screen_w: u32, screen_h: u32) -> (ends: Option<(Point, Point)>)
    ensures
        ends is Some <==> screen_w <= i32::MAX,
        ends matches Some(e) ==> e.0 == (Point { x: 0, y: (screen_h / 2) as i32 }) && e.1 == (Point {
            x: screen_w as i32,
            y: (screen_h / 2) as i32,
        }),
{
    if screen_w > i32::MAX as u32 {
        None
    } else {
        let y: i32 = (screen_h / 2) as i32;
        Some((Point { x: 0, y }, Point { x: screen_w as i32, y }))
    }
}

/// The points of a dotted column at `x`: one every `step` rows, from row 0
/// up to but not including row `height`.
pub open spec fn spec_dotted_column(x: i32, height: i32, step: i32) -> Seq<Point> {
    Seq::new(
        if height <= 0 {
            0nat
        } else {
            ((height + step - 1) / step as int) as nat
        },
        |k: int| Point { x, y: (k * step) as i32 },
    )
}

/// The points of a dotted column at `x`: one every `step` rows, from row 0
/// up to but not including row `height`.
pub fn dotted_column(x: i32, height: i32, step: i32) -> (points: Vec<Point>)
    requires
        step > 0,
    ensures
        points@ == spec_dotted_column(x, height, step),
        forall|k: int| 0 <= k < points.len() ==> 0 <= (#[trigger] points[k]).y < height,
{
    let mut points: Vec<Point> = Vec::new();
    let mut row: i64 = 0;
    while row < height as i64
        invariant
            step > 0,
            0 <= row,
            (row as int) % (step as int) == 0,
            height > 0 ==> row < height + step,
            height <= 0 ==> row == 0,
            points.len() == (row as int) / (step as int),
            forall|k: int|
                0 <= k < points.len() ==> #[trigger] points[k] == (Point {
                    x,
                    y: (k * step) as i32,
                }),
            forall|k: int| 0 <= k < points.len() ==> 0 <= (#[trigger] points[k]).y < height,
        decreases height + step - row,
    {
        proof {
            lemma_next_row(row as int, step as int);
        }
        points.push(Point { x, y: row as i32 });
        row = row + step as i64;
    }
    proof {
        if height > 0 {
            lemma_row_count(row as int, height as int, step as int);
        }
        assert(points@ =~= spec_dotted_column(x, height, step));
    }
    points
}

proof fn lemma_next_row(row: int, step: int)
    requires
        step > 0,
        row >= 0,
        row % step == 0,
    ensures
        (row / step) * step == row,
        (row + step) % step == 0,
        (row + step) / step == row / step + 1,
{
    vstd::arithmetic::div_mod::lemma_fundamental_div_mod(row, step);
    assert((row / step) * step == step * (row / step)) by (nonlinear_arith);
    assert((row / step + 1) * step == (row / step) * step + step) by (nonlinear_arith);
    vstd::arithmetic::div_mod::lemma_fundamental_div_mod_converse(
        row + step,
        step,
        row / step + 1,
        0,
    );
}

proof fn lemma_row_count(row: int, height: int, step: int)
    requires
        step > 0,
        row >= 0,
        row % step == 0,
        height <= row < height + step,
    ensures
        (height + step - 1) / step == row / step,
{
    vstd::arithmetic::div_mod::lemma_fundamental_div_mod(row, step);
    assert((row / step) * step == step * (row / step)) by (nonlinear_arith);
    vstd::arithmetic::div_mod::lemma_fundamental_div_mod_converse(
        height + step - 1,
        step,
        row / step,
        height + step - 1 - row,
    );
}

} // verus!

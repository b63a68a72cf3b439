use sprite_scene::button::{ButtonState, InteractiveButton, BUTTON_HEIGHT, BUTTON_WIDTH};
use sprite_scene::geometry::{Point, Rect};
use sprite_scene::layout::{
    centered, column_clips, corner_buttons, corners, dotted_column, filled_box, flush_end,
    frame_clip, grid_clips, midline, next_frame, outline_box, viewports, WALKING_FRAMES,
};

#[test]
fn centered_halves_what_is_left_over() {
    assert_eq!(centered(640, 64), 288);
    assert_eq!(centered(480, 205), 137);
    assert_eq!(centered(640, 640), 0);
    assert_eq!(centered(10, 7), 1);
    assert_eq!(centered(7, 10), -2);
    assert_eq!(centered(0, 1), -1);
    assert_eq!(centered(u32::MAX, 0), i32::MAX);
    assert_eq!(centered(0, u32::MAX), i32::MIN);
}

#[test]
fn flush_end_is_the_difference() {
    assert_eq!(flush_end(640, 300), Some(340));
    assert_eq!(flush_end(480, 200), Some(280));
    assert_eq!(flush_end(100, 300), Some(-200));
    assert_eq!(flush_end(i32::MAX as u32, 0), Some(i32::MAX));
    assert_eq!(flush_end(i32::MAX as u32 + 1, 0), None);
    assert_eq!(flush_end(0, i32::MAX as u32 + 1), Some(i32::MIN));
    assert_eq!(flush_end(0, i32::MAX as u32 + 2), None);
}

#[test]
fn corners_in_reading_order() {
    assert_eq!(
        corners(640, 480, 100, 100),
        Some([
            Point::new(0, 0),
            Point::new(540, 0),
            Point::new(0, 380),
            Point::new(540, 380)
        ])
    );
    assert_eq!(corners(u32::MAX, 480, 100, 100), None);
    assert_eq!(corners(640, u32::MAX, 100, 100), None);
}

#[test]
fn corner_buttons_are_idle_in_the_corners() {
    let buttons = corner_buttons(640, 480, BUTTON_WIDTH, BUTTON_HEIGHT).unwrap();
    let places = [(0, 0), (340, 0), (0, 280), (340, 280)];
    for (b, (x, y)) in buttons.iter().zip(places) {
        assert_eq!(b.rect(), Rect::new(x, y, 300, 200));
        assert_eq!(b.state(), ButtonState::Idle);
        assert!(!b.pressed_before());
    }
    assert_eq!(buttons[0], InteractiveButton::new());
    assert_eq!(buttons[3], InteractiveButton::new_from_point(Point::new(340, 280)));
    assert!(corner_buttons(u32::MAX, 480, 1, 1).is_none());
}

#[test]
fn column_clips_stack_downwards() {
    assert_eq!(
        column_clips(300, 200),
        Some([
            Rect::new(0, 0, 300, 200),
            Rect::new(0, 200, 300, 200),
            Rect::new(0, 400, 300, 200),
            Rect::new(0, 600, 300, 200)
        ])
    );
    assert_eq!(column_clips(5, 0).unwrap()[3], Rect::new(0, 0, 5, 0));
    let limit = i32::MAX as u32 / 3;
    assert_eq!(column_clips(1, limit).unwrap()[3].y, i32::MAX - 1);
    assert_eq!(column_clips(1, limit + 1), None);
}

#[test]
fn grid_clips_go_row_by_row() {
    assert_eq!(
        grid_clips(100, 100),
        Some([
            Rect::new(0, 0, 100, 100),
            Rect::new(100, 0, 100, 100),
            Rect::new(0, 100, 100, 100),
            Rect::new(100, 100, 100, 100)
        ])
    );
    assert_eq!(
        grid_clips(3, 5).unwrap(),
        [Rect::new(0, 0, 3, 5), Rect::new(3, 0, 3, 5), Rect::new(0, 5, 3, 5), Rect::new(3, 5, 3, 5)]
    );
    assert!(grid_clips(i32::MAX as u32, i32::MAX as u32).is_some());
    assert_eq!(grid_clips(i32::MAX as u32 + 1, 1), None);
    assert_eq!(grid_clips(1, i32::MAX as u32 + 1), None);
}

#[test]
fn walk_cycle_wraps() {
    assert_eq!(WALKING_FRAMES, 4);
    assert_eq!(next_frame(0), 1);
    assert_eq!(next_frame(1), 2);
    assert_eq!(next_frame(2), 3);
    assert_eq!(next_frame(3), 0);
    assert_eq!(next_frame(4), 1);
    assert_eq!(next_frame(7), 0);
    assert_eq!(next_frame(usize::MAX), 0);
    let clips = [
        Rect::new(0, 0, 64, 205),
        Rect::new(64, 0, 64, 205),
        Rect::new(128, 0, 64, 205),
        Rect::new(196, 0, 64, 205),
    ];
    assert_eq!(frame_clip(&clips, 0), clips[0]);
    assert_eq!(frame_clip(&clips, 3), clips[3]);
    assert_eq!(frame_clip(&clips, 4), clips[0]);
    assert_eq!(frame_clip(&clips, 6), clips[2]);
    assert_eq!(frame_clip(&clips, usize::MAX), clips[3]);
}

#[test]
fn viewports_split_the_screen() {
    assert_eq!(
        viewports(640, 480),
        [Rect::new(0, 0, 320, 240), Rect::new(320, 0, 320, 240), Rect::new(0, 240, 640, 240)]
    );
    assert_eq!(
        viewports(5, 3),
        [Rect::new(0, 0, 2, 1), Rect::new(2, 0, 2, 1), Rect::new(0, 1, 5, 1)]
    );
    assert_eq!(viewports(u32::MAX, 0)[1], Rect::new(i32::MAX, 0, i32::MAX as u32, 0));
}

#[test]
fn boxes_in_the_middle() {
    assert_eq!(filled_box(640, 480), Rect::new(160, 120, 320, 240));
    assert_eq!(outline_box(640, 480), Rect::new(106, 80, 426, 320));
    assert_eq!(outline_box(u32::MAX, 3), Rect::new(715827882, 0, 2863311530, 2));
    assert_eq!(filled_box(u32::MAX, 0), Rect::new(1073741823, 0, 2147483647, 0));
}

#[test]
fn midline_halves_the_height() {
    assert_eq!(midline(640, 480), Some((Point::new(0, 240), Point::new(640, 240))));
    assert_eq!(midline(i32::MAX as u32 + 1, 480), None);
    assert_eq!(
        midline(i32::MAX as u32, u32::MAX),
        Some((Point::new(0, i32::MAX), Point::new(i32::MAX, i32::MAX)))
    );
}

#[test]
fn dotted_column_every_fourth_row() {
    let points = dotted_column(320, 480, 4);
    assert_eq!(points.len(), 120);
    assert_eq!(points[0], Point::new(320, 0));
    assert_eq!(points[1], Point::new(320, 4));
    assert_eq!(points[119], Point::new(320, 476));
}

#[test]
fn dotted_column_edge_cases() {
    assert_eq!(dotted_column(1, 0, 4), vec![]);
    assert_eq!(dotted_column(1, -5, 4), vec![]);
    assert_eq!(dotted_column(1, 1, 4), vec![Point::new(1, 0)]);
    assert_eq!(dotted_column(1, 4, 4), vec![Point::new(1, 0)]);
    assert_eq!(dotted_column(1, 5, 4), vec![Point::new(1, 0), Point::new(1, 4)]);
    assert_eq!(dotted_column(-2, 3, 1), vec![Point::new(-2, 0), Point::new(-2, 1), Point::new(-2, 2)]);
    assert_eq!(
        dotted_column(0, i32::MAX, i32::MAX - 1),
        vec![Point::new(0, 0), Point::new(0, i32::MAX - 1)]
    );
}

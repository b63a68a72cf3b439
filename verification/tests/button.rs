use sprite_scene::button::{
    ButtonState, InteractiveButton, BUTTON_HEIGHT, BUTTON_STATES, BUTTON_WIDTH,
};
use sprite_scene::geometry::{Point, Rect};
use sprite_scene::layout::column_clips;
use sprite_scene::texture::{DrawOptions, TextureInfo, TexturedImage};

fn button_300_by_200() -> InteractiveButton {
    InteractiveButton::with_bounds(Rect::new(0, 0, 300, 200))
}

#[test]
fn new_button_is_idle_at_origin() {
    let b = InteractiveButton::new();
    assert_eq!(b.position(), Point::new(0, 0));
    assert_eq!(b.width(), 300);
    assert_eq!(b.height(), 200);
    assert_eq!(b.width(), BUTTON_WIDTH);
    assert_eq!(b.height(), BUTTON_HEIGHT);
    assert_eq!(b.state(), ButtonState::Idle);
    assert!(!b.pressed_before());
}

#[test]
fn new_from_point_keeps_the_point() {
    let b = InteractiveButton::new_from_point(Point::new(340, 280));
    assert_eq!(b.position(), Point::new(340, 280));
    assert_eq!(b.rect(), Rect::new(340, 280, 300, 200));
    assert_eq!(b.state(), ButtonState::Idle);
    assert!(!b.pressed_before());
}

#[test]
fn with_bounds_keeps_the_bounds() {
    let b = InteractiveButton::with_bounds(Rect::new(-5, 7, 11, 13));
    assert_eq!(b.rect(), Rect::new(-5, 7, 11, 13));
    assert_eq!(b.state(), ButtonState::Idle);
}

#[test]
fn set_position_moves_only_the_corner() {
    let mut b = button_300_by_200();
    b.update(Point::new(1, 1), true);
    b.set_position(40, -50);
    assert_eq!(b.position(), Point::new(40, -50));
    assert_eq!(b.width(), 300);
    assert_eq!(b.height(), 200);
    assert_eq!(b.state(), ButtonState::Pressed);
    assert!(b.pressed_before());
}

#[test]
fn press_then_release_then_rest() {
    let mut b = button_300_by_200();
    b.update(Point::new(150, 100), true);
    assert_eq!(b.state(), ButtonState::Pressed);
    b.update(Point::new(150, 100), false);
    assert_eq!(b.state(), ButtonState::Released);
    b.update(Point::new(150, 100), false);
    assert_eq!(b.state(), ButtonState::Released);
    assert_ne!(b.state(), ButtonState::HoverMotion);
}

#[test]
fn held_outside_is_idle() {
    let mut b = button_300_by_200();
    b.update(Point::new(400, 50), true);
    assert_eq!(b.state(), ButtonState::Idle);
    assert!(!b.pressed_before());
}

#[test]
fn hover_without_press() {
    let mut b = button_300_by_200();
    b.update(Point::new(10, 10), false);
    assert_eq!(b.state(), ButtonState::HoverMotion);
    assert!(!b.pressed_before());
}

#[test]
fn leaving_makes_idle_but_keeps_the_press() {
    let mut b = button_300_by_200();
    b.update(Point::new(10, 10), true);
    b.update(Point::new(-1, 10), false);
    assert_eq!(b.state(), ButtonState::Idle);
    assert!(b.pressed_before());
    b.update(Point::new(10, 10), false);
    assert_eq!(b.state(), ButtonState::Released);
}

#[test]
fn corners_follow_the_half_open_convention() {
    let mut b = InteractiveButton::with_bounds(Rect::new(20, 30, 300, 200));
    b.update(Point::new(20, 30), false);
    assert_eq!(b.state(), ButtonState::HoverMotion);
    b.update(Point::new(320, 230), false);
    assert_eq!(b.state(), ButtonState::Idle);
    b.update(Point::new(319, 229), false);
    assert_eq!(b.state(), ButtonState::HoverMotion);
    b.update(Point::new(320, 100), true);
    assert_eq!(b.state(), ButtonState::Idle);
    b.update(Point::new(100, 230), true);
    assert_eq!(b.state(), ButtonState::Idle);
    b.update(Point::new(19, 30), true);
    assert_eq!(b.state(), ButtonState::Idle);
    b.update(Point::new(20, 29), true);
    assert_eq!(b.state(), ButtonState::Idle);
}

#[test]
fn empty_button_is_never_entered() {
    let mut b = InteractiveButton::with_bounds(Rect::new(0, 0, 0, 200));
    b.update(Point::new(0, 0), true);
    assert_eq!(b.state(), ButtonState::Idle);
}

#[test]
fn button_at_the_far_end_of_the_screen_does_not_overflow() {
    let mut b = InteractiveButton::with_bounds(Rect::new(i32::MAX, i32::MAX, u32::MAX, u32::MAX));
    b.update(Point::new(i32::MAX, i32::MAX), true);
    assert_eq!(b.state(), ButtonState::Pressed);
    b.update(Point::new(i32::MAX - 1, i32::MAX), true);
    assert_eq!(b.state(), ButtonState::Idle);
}

#[test]
fn update_gives_the_same_for_the_same() {
    let mut a = button_300_by_200();
    let mut b = button_300_by_200();
    let frames = [
        (Point::new(5, 5), false),
        (Point::new(5, 5), true),
        (Point::new(500, 5), true),
        (Point::new(299, 199), false),
    ];
    for (pointer, held) in frames {
        a.update(pointer, held);
        b.update(pointer, held);
        assert_eq!(a, b);
    }
    assert_eq!(a.state(), ButtonState::Released);
}

#[test]
fn state_index_is_in_source_order() {
    assert_eq!(ButtonState::Idle.index(), 0);
    assert_eq!(ButtonState::HoverMotion.index(), 1);
    assert_eq!(ButtonState::Pressed.index(), 2);
    assert_eq!(ButtonState::Released.index(), 3);
    assert_eq!(BUTTON_STATES, 4);
}

#[test]
fn state_indices_differ() {
    let all = [
        ButtonState::Idle,
        ButtonState::HoverMotion,
        ButtonState::Pressed,
        ButtonState::Released,
    ];
    for (i, s) in all.iter().enumerate() {
        assert_eq!(s.index(), i);
        assert!(s.index() < BUTTON_STATES);
        for (j, t) in all.iter().enumerate() {
            assert_eq!(s.index() == t.index(), i == j);
        }
    }
}

#[test]
fn render_picks_the_sprite_of_the_state() {
    let sheet = TexturedImage::new(TextureInfo { width: 300, height: 800 });
    let clips = column_clips(300, 200).unwrap();
    let mut b = InteractiveButton::new_from_point(Point::new(340, 0));

    let idle = b.render(&sheet, &clips);
    assert_eq!(idle.source, Rect::new(0, 0, 300, 200));
    assert_eq!(idle.destination, Rect::new(340, 0, 300, 200));
    assert_eq!(idle.rotation, 0);
    assert_eq!(idle.pivot, None);
    assert!(!idle.flip_horizontal);
    assert!(!idle.flip_vertical);

    b.update(Point::new(341, 1), false);
    assert_eq!(b.render(&sheet, &clips).source, Rect::new(0, 200, 300, 200));
    b.update(Point::new(341, 1), true);
    assert_eq!(b.render(&sheet, &clips).source, Rect::new(0, 400, 300, 200));
    b.update(Point::new(341, 1), false);
    assert_eq!(b.render(&sheet, &clips).source, Rect::new(0, 600, 300, 200));
}

#[test]
fn render_is_a_clipped_draw() {
    let sheet = TexturedImage::new(TextureInfo { width: 300, height: 800 });
    let clips = [
        Rect::new(1, 2, 3, 4),
        Rect::new(5, 6, 7, 8),
        Rect::new(9, 10, 11, 12),
        Rect::new(13, 14, 15, 16),
    ];
    let mut b = InteractiveButton::new_from_point(Point::new(-7, 9));
    b.update(Point::new(0, 10), true);
    assert_eq!(
        b.render(&sheet, &clips),
        sheet.draw(-7, 9, DrawOptions::clipped(Rect::new(9, 10, 11, 12)))
    );
}

//! What a key press or a held key does to a scene.

use vstd::prelude::*;
use crate::color::Color;

verus! {

/// The keys that a scene listens to.
#[derive(Clone, Copy, Debug, PartialEq, Eq, Structural)]
pub enum Key {
    Up,
    Down,
    Left,
    Right,
    Escape,
    Q,
    W,
    E,
    A,
    S,
    D,
    /// Any other key.
    Other,
}

/// The image that an arrow key picks.
#[derive(Clone, Copy, Debug, PartialEq, Eq, Structural)]
pub enum ArrowImage {
    /// Shown until a key is pressed, and after a key that is no arrow.
    Press,
    Up,
    Down,
    Left,
    Right,
}

/// How much one key press changes a tint channel or the opacity.
pub const MODULATION_STEP: u8 = 32;

/// How far one key press turns an image, in degrees.
pub const TURN_STEP: i32 = 60;

/// How an image is turned and mirrored.
#[derive(Clone, Copy, Debug, PartialEq, Eq, Structural)]
pub struct Pose {
    /// Clockwise rotation in whole degrees.
    pub degrees: i32,
    /// Mirror left to right.
    pub flip_horizontal: bool,
    /// Mirror top to bottom.
    pub flip_vertical: bool,
}

/// Whether a key press ends the scene: `Escape` and `Q` do.
pub open spec fn spec_quits(key: Key) -> bool {
    key == Key::Escape || key == Key::Q
}

/// The image shown after a key press: the arrow's own image for an arrow
/// key, the image before for a key that ends the scene, and `Press` for any
/// other key.
pub open spec fn spec_image_on_press(current: ArrowImage, key: Key) -> ArrowImage {
    match key {
        Key::Up => ArrowImage::Up,
        Key::Down => ArrowImage::Down,
        Key::Left => ArrowImage::Left,
        Key::Right => ArrowImage::Right,
        Key::Escape | Key::Q => current,
        _ => ArrowImage::Press,
    }
}

/// The image shown while arrow keys are held: where several are held, left
/// goes before right, right before down and down before up; where none is,
/// the image before stays.
pub open spec fn spec_image_while_held(
    current: ArrowImage,
    up: bool,
    down: bool,
    right: bool,
    left: bool,
) -> ArrowImage {
    if left {
        ArrowImage::Left
    } else if right {
        ArrowImage::Right
    } else if down {
        ArrowImage::Down
    } else if up {
        ArrowImage::Up
    } else {
        current
    }
}

/// A channel one step brighter; from 224 on it stays as it is.
pub open spec fn spec_brighter(channel: u8) -> u8 {
    if channel < 224 {
        (channel + MODULATION_STEP) as u8
    } else {
        channel
    }
}

/// A channel one step darker; up to 32 it stays as it is.
pub open spec fn spec_darker(channel: u8) -> u8 {
    if channel > 32 {
        (channel - MODULATION_STEP) as u8
    } else {
        channel
    }
}

/// The tint after a key press: `Q`, `W`, `E` brighten red, green, blue by
/// one step, `A`, `S`, `D` darken them; other keys leave the tint.
pub open spec fn spec_tint_on_press(tint: Color, key: Key) -> Color {
    match key {
        Key::Q => Color { r: spec_brighter(tint.r), ..tint },
        Key::W => Color { g: spec_brighter(tint.g), ..tint },
        Key::E => Color { b: spec_brighter(tint.b), ..tint },
        Key::A => Color { r: spec_darker(tint.r), ..tint },
        Key::S => Color { g: spec_darker(tint.g), ..tint },
        Key::D => Color { b: spec_darker(tint.b), ..tint },
        _ => tint,
    }
}

/// The opacity after a key press: `W` raises it by one step and `S` lowers
/// it by one, neither beyond full or none; other keys leave it.
pub open spec fn spec_alpha_on_press(alpha: u8, key: Key) -> u8 {
    match key {
        Key::W => if alpha < 224 {
            (alpha + MODULATION_STEP) as u8
        } else {
            255
        },
        Key::S => if alpha > 32 {
            (alpha - MODULATION_STEP) as u8
        } else {
            0
        },
        _ => alpha,
    }
}

/// The rotation after a turn by `by` degrees from `degrees`: their sum, or,
/// where the sum is beyond what a rotation can hold, the sum brought into
/// `[0, 360)`.
pub open spec fn spec_turned(degrees: i32, by: i32) -> int {
    if i32::MIN <= degrees + by <= i32::MAX {
        degrees + by
    } else {
        (degrees + by) % 360
    }
}

/// The pose after a key press: `A` turns one step against the clock and `D`
/// one step with it, `Q` mirrors left to right and `E` top to bottom, `W`
/// takes both mirrorings back; other keys leave the pose.
pub open spec fn spec_pose_on_press(pose: Pose, key: Key) -> Pose {
    match key {
        Key::A => Pose { degrees: spec_turned(pose.degrees, -60i32) as i32, ..pose },
        Key::D => Pose { degrees: spec_turned(pose.degrees, 60i32) as i32, ..pose },
        Key::Q => Pose { flip_horizontal: !pose.flip_horizontal, ..pose },
        Key::W => Pose { flip_horizontal: false, flip_vertical: false, ..pose },
        Key::E => Pose { flip_vertical: !pose.flip_vertical, ..pose },
        _ => pose,
    }
}

/// Whether a key press ends the scene.
pub fn quits(key: Key) -> (q: bool)
    ensures
        q == spec_quits(key),
{
    match key {
        Key::Escape | Key::Q => true,
        _ => false,
    }
}

/// The image shown after a key press.
pub fn image_on_press(current: ArrowImage, key: Key) -> (image: ArrowImage)
    ensures
        image == spec_image_on_press(current, key),
{
    match key {
        Key::Up => ArrowImage::Up,
        Key::Down => ArrowImage::Down,
        Key::Left => ArrowImage::Left,
        Key::Right => ArrowImage::Right,
        Key::Escape | Key::Q => current,
        _ => ArrowImage::Press,
    }
}

/// The image shown while arrow keys are held.
pub fn image_while_held(current: ArrowImage, up: bool, down: bool, right: bool, left: bool) -> (image:
    ArrowImage)
    ensures
        image == spec_image_while_held(current, up, down, right, left),
{
    let mut image = current;
    if up {
        image = ArrowImage::Up;
    }
    if down {
        image = ArrowImage::Down;
    }
    if right {
        image = ArrowImage::Right;
    }
    if left {
        image = ArrowImage::Left;
    }
    image
}

/// The tint after a key press.
pub fn tint_on_press(tint: Color, key: Key) -> (next: Color)
    ensures
        next == spec_tint_on_press(tint, key),
{
    let mut next = tint;
    match key {
        Key::Q => {
            if next.r < 224 {
                next.r += MODULATION_STEP;
            }
        },
        Key::W => {
            if next.g < 224 {
                next.g += MODULATION_STEP;
            }
        },
        Key::E => {
            if next.b < 224 {
                next.b += MODULATION_STEP;
            }
        },
        Key::A => {
            if next.r > 32 {
                next.r -= MODULATION_STEP;
            }
        },
        Key::S => {
            if next.g > 32 {
                next.g -= MODULATION_STEP;
            }
        },
        Key::D => {
            if next.b > 32 {
                next.b -= MODULATION_STEP;
            }
        },
        _ => {},
    }
    next
}

/// The opacity after a key press.
pub fn alpha_on_press(alpha: u8, key: Key) -> (next: u8)
    ensures
        next == spec_alpha_on_press(alpha, key),
{
    match key {
        Key::W => {
            if alpha < 224 {
                alpha + MODULATION_STEP
            } else {
                255
            }
        },
        Key::S => {
            if alpha > 32 {
                alpha - MODULATION_STEP
            } else {
                0
            }
        },
        _ => alpha,
    }
}

/// The rotation after a turn by `by` degrees from `degrees`. It always
/// faces the way that the sum of the two does.
pub fn turned(degrees: i32, by: i32) -> (next: i32)
    ensures
        next == spec_turned(degrees, by),
        crate::texture::orientation(next as int) == crate::texture::orientation(degrees + by),
{
    let sum: i64 = degrees as i64 + by as i64;
    if sum < i32::MIN as i64 {
        let back: i64 = (-sum) % 360;
        proof {
            lemma_negative_remainder(sum as int, back as int);
            vstd::arithmetic::div_mod::lemma_mod_twice(sum as int, 360);
        }
        if back == 0 {
            0
        } else {
            (360 - back) as i32
        }
    } else if sum > i32::MAX as i64 {
        proof {
            vstd::arithmetic::div_mod::lemma_mod_twice(sum as int, 360);
        }
        (sum % 360) as i32
    } else {
        sum as i32
    }
}

/// The remainder of a negative number, from the remainder of its opposite.
proof fn lemma_negative_remainder(v: int, back: int)
    requires
        v < 0,
        back == (-v) % 360,
    ensures
        v % 360 == if back == 0 {
            0
        } else {
            360 - back
        },
{
    let q = (-v) / 360;
    vstd::arithmetic::div_mod::lemma_fundamental_div_mod(-v, 360);
    if back == 0 {
        vstd::arithmetic::div_mod::lemma_fundamental_div_mod_converse(v, 360, -q, 0);
    } else {
        vstd::arithmetic::div_mod::lemma_fundamental_div_mod_converse(v, 360, -q - 1, 360 - back);
    }
}

/// The pose after a key press.
pub fn pose_on_press(pose: Pose, key: Key) -> (next: Pose)
    ensures
        next == spec_pose_on_press(pose, key),
{
    match key {
        Key::A => Pose { degrees: turned(pose.degrees, -TURN_STEP), ..pose },
        Key::D => Pose { degrees: turned(pose.degrees, TURN_STEP), ..pose },
        Key::Q => Pose { flip_horizontal: !pose.flip_horizontal, ..pose },
        Key::W => Pose { flip_horizontal: false, flip_vertical: false, ..pose },
        Key::E => Pose { flip_vertical: !pose.flip_vertical, ..pose },
        _ => pose,
    }
}

} // verus!

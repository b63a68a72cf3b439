//! An image that lives with a renderer, and the blits that draw it.
//!
//! The image's pixels stay with the renderer. This module keeps what drawing
//! depends on, the size and the modulation, and turns a request to draw into
//! a `DrawCommand` that says exactly what the renderer is to do.

use vstd::prelude::*;
use crate::color::{Color, Modulation};
use crate::geometry::{Point, Rect};

verus! {

/// What a renderer reports of an image that it holds.
#[derive(Clone, Copy, Debug, PartialEq, Eq, Structural)]
pub struct TextureInfo {
    /// Width in pixels.
    pub width: u32,
    /// Height in pixels.
    pub height: u32,
}

/// How to draw an image. Each part that is left out stands for the plain
/// choice: the whole image, no rotation, the centre as pivot, no flip.
#[derive(Clone, Copy, Debug, PartialEq, Eq, Structural)]
pub struct DrawOptions {
    /// The part of the image to draw; `None` for all of it.
    pub clip: Option<Rect>,
    /// Clockwise rotation in whole degrees; `None` for 0.
    pub rotation: Option<i32>,
    /// The point that stays fixed under rotation, counted from the
    /// destination's top-left corner; `None` for the destination's centre.
    pub pivot: Option<Point>,
    /// Mirror left to right.
    pub flip_horizontal: bool,
    /// Mirror top to bottom.
    pub flip_vertical: bool,
}

/// One blit, with nothing left open.
#[derive(Clone, Copy, Debug, PartialEq, Eq, Structural)]
pub struct DrawCommand {
    /// The part of the image that is copied.
    pub source: Rect,
    /// Where on the target it lands.
    pub destination: Rect,
    /// Clockwise rotation in whole degrees.
    pub rotation: i32,
    /// The point that stays fixed under rotation, counted from the
    /// destination's top-left corner; `None` for the destination's centre.
    pub pivot: Option<Point>,
    /// Mirror left to right.
    pub flip_horizontal: bool,
    /// Mirror top to bottom.
    pub flip_vertical: bool,
    /// Tint and opacity that the image is drawn with.
    pub modulation: Modulation,
}

/// The mathematical content of a `TexturedImage`.
#[derive(Clone, Copy, Debug, PartialEq, Eq, Structural)]
pub struct ImageModel {
    /// Width in pixels.
    pub width: u32,
    /// Height in pixels.
    pub height: u32,
    /// Tint and opacity for the draws to come.
    pub modulation: Modulation,
}

/// An image held by a renderer: its size, fixed when it is built, and the
/// modulation that the next draws use.
#[derive(Debug, PartialEq, Eq, Structural)]
pub struct TexturedImage {
    width: u32,
    height: u32,
    modulation: Modulation,
}

/// The direction that an image faces after a clockwise rotation by
/// `degrees`: the angle brought into `[0, 360)`.
pub open spec fn orientation(degrees: int) -> int {
    degrees % 360
}

impl DrawOptions {
    /// No clip, no rotation, no pivot, no flip.
    pub open spec fn spec_plain() -> DrawOptions {
        DrawOptions {
            clip: None,
            rotation: None,
            pivot: None,
            flip_horizontal: false,
            flip_vertical: false,
        }
    }

    /// The options that draw the whole image upright.
    pub fn plain() -> (o: DrawOptions)
        ensures
            o == Self::spec_plain(),
    {
        DrawOptions {
            clip: None,
            rotation: None,
            pivot: None,
            flip_horizontal: false,
            flip_vertical: false,
        }
    }

    /// The options that draw the part `clip` of the image upright.
    pub fn clipped(clip: Rect) -> (o: DrawOptions)
        ensures
            o == (DrawOptions { clip: Some(clip), ..Self::spec_plain() }),
    {
        DrawOptions {
            clip: Some(clip),
            rotation: None,
            pivot: None,
            flip_horizontal: false,
            flip_vertical: false,
        }
    }

    /// These options, but for the part `clip` of the image.
    pub fn with_clip(self, clip: Rect) -> (o: DrawOptions)
        ensures
            o == (DrawOptions { clip: Some(clip), ..self }),
    {
        DrawOptions { clip: Some(clip), ..self }
    }

    /// These options, but rotated clockwise by `degrees`.
    pub fn with_rotation(self, degrees: i32) -> (o: DrawOptions)
        ensures
            o == (DrawOptions { rotation: Some(degrees), ..self }),
    {
        DrawOptions { rotation: Some(degrees), ..self }
    }

    /// These options, but rotating about `pivot`.
    pub fn with_pivot(self, pivot: Point) -> (o: DrawOptions)
        ensures
            o == (DrawOptions { pivot: Some(pivot), ..self }),
    {
        DrawOptions { pivot: Some(pivot), ..self }
    }

    /// These options, but mirrored as `horizontal` and `vertical` say.
    pub fn with_flip(self, horizontal: bool, vertical: bool) -> (o: DrawOptions)
        ensures
            o == (DrawOptions { flip_horizontal: horizontal, flip_vertical: vertical, ..self }),
    {
        DrawOptions { flip_horizontal: horizontal, flip_vertical: vertical, ..self }
    }
}

impl DrawCommand {
    /// Twice the pivot's offset from the destination's top-left corner, so
    /// that the centre of a destination of odd size is still an integer.
    pub open spec fn pivot_doubled(self) -> (int, int) {
        match self.pivot {
            Some(p) => (2 * p.x, 2 * p.y),
            None => (self.destination.w as int, self.destination.h as int),
        }
    }

    /// The direction that the image faces on the target, in `[0, 360)`.
    pub open spec fn spec_orientation(self) -> int {
        orientation(self.rotation as int)
    }

    /// Twice the pivot's offset from the destination's top-left corner.
    pub fn doubled_pivot(&self) -> (d: (i64, i64))
        ensures
            d.0 == self.pivot_doubled().0,
            d.1 == self.pivot_doubled().1,
    {
        match self.pivot {
            Some(p) => (2 * (p.x as i64), 2 * (p.y as i64)),
            None => (self.destination.w as i64, self.destination.h as i64),
        }
    }

    /// The direction that the image faces on the target: the rotation
    /// brought into `[0, 360)`.
    pub fn orientation(&self) -> (d: u16)
        ensures
            d == self.spec_orientation(),
            d < 360,
    {
        let r: i64 = self.rotation as i64;
        if r >= 0 {
            (r % 360) as u16
        } else {
            let back: i64 = (-r) % 360;
            if back == 0 {
                0
            } else {
                (360 - back) as u16
            }
        }
    }
}

impl ImageModel {
    /// The whole image as a clip.
    pub open spec fn full_rect(self) -> Rect {
        Rect { x: 0, y: 0, w: self.width, h: self.height }
    }

    /// The blit that draws the image at `(x, y)` under `options`. The source
    /// is the clip, or the whole image. The destination has its top-left
    /// corner at `(x, y)` and the size of the source. Rotation, pivot and
    /// flips are those of the options, and the modulation is the image's.
    pub open spec fn draw(self, x: i32, y: i32, options: DrawOptions) -> DrawCommand {
        let source = match options.clip {
            Some(clip) => clip,
            None => self.full_rect(),
        };
        DrawCommand {
            source,
            destination: Rect { x, y, w: source.w, h: source.h },
            rotation: match options.rotation {
                Some(degrees) => degrees,
                None => 0,
            },
            pivot: options.pivot,
            flip_horizontal: options.flip_horizontal,
            flip_vertical: options.flip_vertical,
            modulation: self.modulation,
        }
    }

    /// The image with `color` as its tint.
    pub open spec fn with_tint(self, color: Color) -> ImageModel {
        ImageModel { modulation: Modulation { tint: color, ..self.modulation }, ..self }
    }

    /// The image with `alpha` as its opacity.
    pub open spec fn with_alpha(self, alpha: u8) -> ImageModel {
        ImageModel { modulation: Modulation { alpha, ..self.modulation }, ..self }
    }
}

impl View for TexturedImage {
    type V = ImageModel;

    closed spec fn view(&self) -> ImageModel {
        ImageModel { width: self.width, height: self.height, modulation: self.modulation }
    }
}

impl TexturedImage {
    /// The content of an image that was just built from `info`: the reported
    /// size, and the modulation that changes nothing.
    pub open spec fn spec_new(info: TextureInfo) -> ImageModel {
        ImageModel {
            width: info.width,
            height: info.height,
            modulation: Modulation::spec_identity(),
        }
    }

    /// Wraps an image that a renderer holds and reports as `info`. It starts
    /// with the modulation that changes nothing.
    pub fn new(info: TextureInfo) -> (image: TexturedImage)
        ensures
            image@ == Self::spec_new(info),
            image@.width == info.width,
            image@.height == info.height,
    {
        TexturedImage {
            width: info.width,
            height: info.height,
            modulation: Modulation::identity(),
        }
    }

    /// Width in pixels.
    pub fn width(&self) -> (w: u32)
        ensures
            w == self@.width,
    {
        self.width
    }

    /// Height in pixels.
    pub fn height(&self) -> (h: u32)
        ensures
            h == self@.height,
    {
        self.height
    }

    /// What the renderer reported when the image was built.
    pub fn info(&self) -> (info: TextureInfo)
        ensures
            info == (TextureInfo { width: self@.width, height: self@.height }),
    {
        TextureInfo { width: self.width, height: self.height }
    }

    /// Tint and opacity that the next draws use.
    pub fn modulation(&self) -> (m: Modulation)
        ensures
            m == self@.modulation,
    {
        self.modulation
    }

    /// The whole image as a clip.
    pub fn full_rect(&self) -> (r: Rect)
        ensures
            r == self@.full_rect(),
    {
        Rect { x: 0, y: 0, w: self.width, h: self.height }
    }

    /// Sets the tint for the draws to come. The last value wins; size and
    /// opacity stay.
    pub fn set_tint(&mut self, color: Color)
        ensures
            final(self)@ == old(self)@.with_tint(color),
    {
        self.modulation.tint = color;
    }

    /// Sets the opacity for the draws to come. The last value wins; size and
    /// tint stay.
    pub fn set_alpha(&mut self, alpha: u8)
        ensures
            final(self)@ == old(self)@.with_alpha(alpha),
    {
        self.modulation.alpha = alpha;
    }

    /// Plans the blit that draws the image at `(x, y)` under `options`.
    pub fn draw(&self, x: i32, y: i32, options: DrawOptions) -> (command: DrawCommand)
        ensures
            command == self@.draw(x, y, options),
            options.clip matches Some(clip) ==> command.destination.w == clip.w
                && command.destination.h == clip.h,
            options.clip is None ==> command.destination.w == self@.width
                && command.destination.h == self@.height,
    {
        let source = match options.clip {
            Some(clip) => clip,
            None => self.full_rect(),
        };
        let rotation: i32 = match options.rotation {
            Some(degrees) => degrees,
            None => 0,
        };
        DrawCommand {
            source,
            destination: Rect { x, y, w: source.w, h: source.h },
            rotation,
            pivot: options.pivot,
            flip_horizontal: options.flip_horizontal,
            flip_vertical: options.flip_vertical,
            modulation: self.modulation,
        }
    }

    /// Plans the blit that draws the whole image upright with its top-left
    /// corner at `position`, or at the origin where no position is given.
    pub fn draw_at(&self, position: Option<Point>) -> (command: DrawCommand)
        ensures
            position matches Some(p) ==> command == self@.draw(p.x, p.y, DrawOptions::spec_plain()),
            position is None ==> command == self@.draw(0, 0, DrawOptions::spec_plain()),
    {
        match position {
            Some(p) => self.draw(p.x, p.y, DrawOptions::plain()),
            None => self.draw(0, 0, DrawOptions::plain()),
        }
    }
}

/// Two images with the same content are the same image.
pub proof fn lemma_view_injective(a: TexturedImage, b: TexturedImage)
    requires
        a@ == b@,
    ensures
        a == b,
{
}

/// An image that was just built has the size that the renderer reported,
/// and reports it back.
pub proof fn lemma_size_round_trip(info: TextureInfo)
    ensures
        TexturedImage::spec_new(info).width == info.width,
        TexturedImage::spec_new(info).height == info.height,
        TexturedImage::spec_new(info).full_rect() == (Rect {
            x: 0,
            y: 0,
            w: info.width,
            h: info.height,
        }),
{
}

/// The destination of a draw is as large as the clip, or as the whole image
/// where there is no clip, and its top-left corner is where the draw was
/// asked for.
pub proof fn lemma_destination_size(image: ImageModel, x: i32, y: i32, options: DrawOptions)
    ensures
        image.draw(x, y, options).destination.x == x,
        image.draw(x, y, options).destination.y == y,
        options.clip matches Some(clip) ==> {
            &&& image.draw(x, y, options).source == clip
            &&& image.draw(x, y, options).destination.w == clip.w
            &&& image.draw(x, y, options).destination.h == clip.h
        },
        options.clip is None ==> {
            &&& image.draw(x, y, options).source == image.full_rect()
            &&& image.draw(x, y, options).destination.w == image.width
            &&& image.draw(x, y, options).destination.h == image.height
        },
{
}

/// A full turn more changes nothing that can be seen: a draw rotated by
/// `degrees` and the same draw rotated by `degrees + 360` copy the same
/// source to the same destination about the same pivot, with the same flips
/// and modulation, and the image faces the same direction.
pub proof fn lemma_full_turn(image: ImageModel, x: i32, y: i32, options: DrawOptions, degrees: i32)
    requires
        degrees + 360 <= i32::MAX,
    ensures
        ({
            let once = image.draw(
                x,
                y,
                DrawOptions { rotation: Some(degrees), ..options },
            );
            let turned = image.draw(
                x,
                y,
                DrawOptions { rotation: Some((degrees + 360) as i32), ..options },
            );
            &&& turned.pivot == once.pivot
            &&& turned.pivot_doubled() == once.pivot_doubled()
            &&& turned.spec_orientation() == once.spec_orientation()
            &&& turned == (DrawCommand { rotation: turned.rotation, ..once })
        }),
{
}

/// The orientation is always in `[0, 360)`, and whole turns do not change it.
pub proof fn lemma_orientation_periodic(degrees: int, turns: int)
    ensures
        0 <= orientation(degrees) < 360,
        orientation(degrees + 360 * turns) == orientation(degrees),
{
    assert((degrees + 360 * turns) % 360 == degrees % 360) by (nonlinear_arith);
}

/// Setting the same tint twice leaves the image as setting it once does, and
/// of two tints the later one wins.
pub proof fn lemma_tint_idempotent(image: ImageModel, first: Color, color: Color)
    ensures
        image.with_tint(color).with_tint(color) == image.with_tint(color),
        image.with_tint(first).with_tint(color) == image.with_tint(color),
{
}

/// Setting the same opacity twice leaves the image as setting it once does,
/// and of two opacities the later one wins.
pub proof fn lemma_alpha_idempotent(image: ImageModel, first: u8, alpha: u8)
    ensures
        image.with_alpha(alpha).with_alpha(alpha) == image.with_alpha(alpha),
        image.with_alpha(first).with_alpha(alpha) == image.with_alpha(alpha),
{
}

/// Tint and opacity do not disturb each other, and neither changes the size.
pub proof fn lemma_modulation_independent(image: ImageModel, color: Color, alpha: u8)
    ensures
        image.with_tint(color).with_alpha(alpha) == image.with_alpha(alpha).with_tint(color),
        image.with_tint(color).width == image.width,
        image.with_tint(color).height == image.height,
        image.with_alpha(alpha).width == image.width,
        image.with_alpha(alpha).height == image.height,
        image.with_tint(color).modulation.alpha == image.modulation.alpha,
        image.with_alpha(alpha).modulation.tint == image.modulation.tint,
{
}

} // verus!

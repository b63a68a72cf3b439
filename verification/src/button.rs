//! A rectangular button driven by the pointer: its visual state is
//! recomputed from scratch on every frame.

use vstd::prelude::*;
use crate::geometry::{Point, Rect};
use crate::texture::{DrawCommand, DrawOptions, ImageModel, TexturedImage};

verus! {

/// Width of a button that is built without an explicit size, in pixels.
pub const BUTTON_WIDTH: u32 = 300;

/// Height of a button that is built without an explicit size, in pixels.
pub const BUTTON_HEIGHT: u32 = 200;

/// Number of visual states, and so of sprites on a button sheet.
pub const BUTTON_STATES: usize = 4;

/// What a button looks like.
#[derive(Clone, Copy, Debug, PartialEq, Eq, Structural)]
pub enum ButtonState {
    /// The pointer is outside the button.
    Idle,
    /// The pointer is over the button, which has never been pressed.
    HoverMotion,
    /// The pointer is over the button and its primary button is held.
    Pressed,
    /// The pointer is over the button, not held, after an earlier press.
    Released,
}

impl ButtonState {
    /// Position of the state's sprite on a button sheet.
    pub open spec fn spec_index(self) -> int {
        match self {
            ButtonState::Idle => 0,
            ButtonState::HoverMotion => 1,
            ButtonState::Pressed => 2,
            ButtonState::Released => 3,
        }
    }

    /// Position of the state's sprite on a button sheet: 0 for `Idle`, 1 for
    /// `HoverMotion`, 2 for `Pressed`, 3 for `Released`.
    pub fn index(self) -> (i: usize)
        ensures
            i == self.spec_index(),
            i < BUTTON_STATES,
    {
        match self {
            ButtonState::Idle => 0,
            ButtonState::HoverMotion => 1,
            ButtonState::Pressed => 2,
            ButtonState::Released => 3,
        }
    }
}

/// Two states with the same sprite position are the same state.
pub proof fn lemma_index_injective(a: ButtonState, b: ButtonState)
    requires
        a.spec_index() == b.spec_index(),
    ensures
        a == b,
{
}

/// Every state has a sprite position, and all of them lie below
/// `BUTTON_STATES`: a sheet with that many sprites has one for each state.
pub proof fn lemma_index_total(s: ButtonState)
    ensures
        0 <= s.spec_index() < BUTTON_STATES,
{
}

/// The mathematical content of an `InteractiveButton`.
#[derive(Clone, Copy, Debug, PartialEq, Eq, Structural)]
pub struct ButtonModel {
    /// Top-left corner.
    pub position: Point,
    /// Width in pixels.
    pub width: u32,
    /// Height in pixels.
    pub height: u32,
    /// Current visual state.
    pub state: ButtonState,
    /// Whether the pointer was ever held over the button.
    pub pressed_before: bool,
}

/// A button: where it is, how large it is, what it looks like, and whether
/// it has ever been pressed.
#[derive(Debug, PartialEq, Eq, Structural)]
pub struct InteractiveButton {
    position: Point,
    width: u32,
    height: u32,
    state: ButtonState,
    pressed_before: bool,
}

/// The visual state after a frame in which the pointer was inside the button
/// or not, was held or not, and the button had been pressed before or not.
pub open spec fn next_state(inside: bool, held: bool, pressed_before: bool) -> ButtonState {
    if !inside {
        ButtonState::Idle
    } else if held {
        ButtonState::Pressed
    } else if pressed_before {
        ButtonState::Released
    } else {
        ButtonState::HoverMotion
    }
}

impl ButtonModel {
    /// An idle, never pressed button that covers `bounds`.
    pub open spec fn idle(bounds: Rect) -> ButtonModel {
        ButtonModel {
            position: Point { x: bounds.x, y: bounds.y },
            width: bounds.w,
            height: bounds.h,
            state: ButtonState::Idle,
            pressed_before: false,
        }
    }

    /// The region of the screen that the button covers.
    pub open spec fn bounds(self) -> Rect {
        Rect { x: self.position.x, y: self.position.y, w: self.width, h: self.height }
    }

    /// The button after a frame with the pointer at `pointer`, its primary
    /// button held or not. Outside the bounds the button is idle, whatever
    /// came before. Inside, it is pressed while held, and from the first
    /// press on it shows as released instead of hovered when not held.
    /// Position and size never change.
    pub open spec fn updated(self, pointer: Point, held: bool) -> ButtonModel {
        let inside = self.bounds().contains(pointer);
        ButtonModel {
            state: next_state(inside, held, self.pressed_before),
            pressed_before: self.pressed_before || (inside && held),
            ..self
        }
    }

    /// The blit that shows the button: the sprite of its state, taken from
    /// `clips`, drawn upright at the button's position.
    pub open spec fn render(self, sheet: ImageModel, clips: [Rect; 4]) -> DrawCommand {
        sheet.draw(
            self.position.x,
            self.position.y,
            DrawOptions { clip: Some(clips[self.state.spec_index()]), ..DrawOptions::spec_plain() },
        )
    }
}

impl View for InteractiveButton {
    type V = ButtonModel;

    closed spec fn view(&self) -> ButtonModel {
        ButtonModel {
            position: self.position,
            width: self.width,
            height: self.height,
            state: self.state,
            pressed_before: self.pressed_before,
        }
    }
}

impl InteractiveButton {
    /// An idle, never pressed button of the default size at the origin.
    pub fn new() -> (b: InteractiveButton)
        ensures
            b@ == ButtonModel::idle(Rect { x: 0, y: 0, w: BUTTON_WIDTH, h: BUTTON_HEIGHT }),
    {
        InteractiveButton {
            position: Point { x: 0, y: 0 },
            width: BUTTON_WIDTH,
            height: BUTTON_HEIGHT,
            state: ButtonState::Idle,
            pressed_before: false,
        }
    }

    /// An idle, never pressed button of the default size with its top-left
    /// corner at `p`.
    pub fn new_from_point(p: Point) -> (b: InteractiveButton)
        ensures
            b@ == ButtonModel::idle(Rect { x: p.x, y: p.y, w: BUTTON_WIDTH, h: BUTTON_HEIGHT }),
    {
        InteractiveButton {
            position: p,
            width: BUTTON_WIDTH,
            height: BUTTON_HEIGHT,
            state: ButtonState::Idle,
            pressed_before: false,
        }
    }

    /// An idle, never pressed button that covers `bounds`.
    pub fn with_bounds(bounds: Rect) -> (b: InteractiveButton)
        ensures
            b@ == ButtonModel::idle(bounds),
            b@.bounds() == bounds,
    {
        InteractiveButton {
            position: Point { x: bounds.x, y: bounds.y },
            width: bounds.w,
            height: bounds.h,
            state: ButtonState::Idle,
            pressed_before: false,
        }
    }

    /// Moves the top-left corner to `(x, y)`; nothing else changes.
    pub fn set_position(&mut self, x: i32, y: i32)
        ensures
            final(self)@ == (ButtonModel { position: Point { x, y }, ..old(self)@ }),
    {
        self.position = Point { x, y };
    }

    /// Recomputes the visual state for a frame with the pointer at
    /// `pointer`, its primary button held or not.
    pub fn update(&mut self, pointer: Point, held: bool)
        ensures
            final(self)@ == old(self)@.updated(pointer, held),
    {
        let inside = self.rect().contains_point(pointer);
        if !inside {
            self.state = ButtonState::Idle;
        } else if held {
            self.pressed_before = true;
            self.state = ButtonState::Pressed;
        } else if self.pressed_before {
            self.state = ButtonState::Released;
        } else {
            self.state = ButtonState::HoverMotion;
        }
    }

    /// Plans the blit that shows the button: the sprite of its state, taken
    /// from `clips`, drawn upright at the button's position. The sheet holds
    /// one sprite for each state, so no lookup can miss.
    pub fn render(&self, sheet: &TexturedImage, clips: &[Rect; 4]) -> (command: DrawCommand)
        ensures
            command == self@.render(sheet@, *clips),
            command.source == clips[self@.state.spec_index()],
            command.destination == (Rect {
                x: self@.position.x,
                y: self@.position.y,
                w: command.source.w,
                h: command.source.h,
            }),
    {
        let clip = clips[self.state.index()];
        sheet.draw(self.position.x, self.position.y, DrawOptions::clipped(clip))
    }

    /// Top-left corner.
    pub fn position(&self) -> (p: Point)
        ensures
            p == self@.position,
    {
        self.position
    }

    /// Width in pixels.
    pub fn width(&self) -> (w: u32)
        ensures
            w == self@.width,
    {
        self.width
    }

    /// Height in pixels.
    pub fn height(&self) -> (h: u32)
        ensures
            h == self@.height,
    {
        self.height
    }

    /// The region of the screen that the button covers.
    pub fn rect(&self) -> (r: Rect)
        ensures
            r == self@.bounds(),
    {
        Rect { x: self.position.x, y: self.position.y, w: self.width, h: self.height }
    }

    /// Current visual state.
    pub fn state(&self) -> (s: ButtonState)
        ensures
            s == self@.state,
    {
        self.state
    }

    /// Whether the pointer was ever held over the button.
    pub fn pressed_before(&self) -> (p: bool)
        ensures
            p == self@.pressed_before,
    {
        self.pressed_before
    }
}

/// Two buttons with the same content are the same button.
pub proof fn lemma_view_injective(a: InteractiveButton, b: InteractiveButton)
    requires
        a@ == b@,
    ensures
        a == b,
{
}

/// An update depends on nothing but the button before it, the pointer's
/// position and whether it is held: the same three give the same button.
pub proof fn lemma_update_deterministic(
    a: ButtonModel,
    b: ButtonModel,
    pointer_a: Point,
    pointer_b: Point,
    held_a: bool,
    held_b: bool,
)
    requires
        a == b,
        pointer_a == pointer_b,
        held_a == held_b,
    ensures
        a.updated(pointer_a, held_a) == b.updated(pointer_b, held_b),
{
}

/// The state after an update is decided by three facts alone: whether the
/// pointer is inside, whether it is held, and whether the button was ever
/// pressed. The state before plays no part.
pub proof fn lemma_state_ignores_history(a: ButtonModel, b: ButtonModel, pointer: Point, held: bool)
    requires
        a.bounds() == b.bounds(),
        a.pressed_before == b.pressed_before,
    ensures
        a.updated(pointer, held).state == b.updated(pointer, held).state,
        a.updated(pointer, held).pressed_before == b.updated(pointer, held).pressed_before,
{
}

/// A pointer outside the bounds leaves the button idle, held or not and
/// whatever the state before; it does not make the button forget a press.
pub proof fn lemma_outside_is_idle(b: ButtonModel, pointer: Point, held: bool)
    requires
        !b.bounds().contains(pointer),
    ensures
        b.updated(pointer, held).state == ButtonState::Idle,
        b.updated(pointer, held).pressed_before == b.pressed_before,
{
}

/// A pointer held inside the bounds presses the button, and the press is
/// remembered.
pub proof fn lemma_held_inside_is_pressed(b: ButtonModel, pointer: Point)
    requires
        b.bounds().contains(pointer),
    ensures
        b.updated(pointer, true).state == ButtonState::Pressed,
        b.updated(pointer, true).pressed_before,
{
}

/// A pointer inside the bounds that is not held shows the button as released
/// if it was ever pressed, and as hovered if not.
pub proof fn lemma_free_inside(b: ButtonModel, pointer: Point)
    requires
        b.bounds().contains(pointer),
    ensures
        b.pressed_before ==> b.updated(pointer, false).state == ButtonState::Released,
        !b.pressed_before ==> b.updated(pointer, false).state == ButtonState::HoverMotion,
        b.updated(pointer, false).pressed_before == b.pressed_before,
{
}

/// Once pressed, always pressed before; position and size never change.
pub proof fn lemma_update_preserves(b: ButtonModel, pointer: Point, held: bool)
    ensures
        b.pressed_before ==> b.updated(pointer, held).pressed_before,
        b.updated(pointer, held).position == b.position,
        b.updated(pointer, held).width == b.width,
        b.updated(pointer, held).height == b.height,
        b.updated(pointer, held).bounds() == b.bounds(),
{
}

/// The half-open convention at the corners: a pointer exactly on the
/// top-left corner of a button that is not empty is inside, and a pointer
/// exactly on the corner diagonally opposite is outside, so that an update
/// there leaves the button idle.
pub proof fn lemma_corner_convention(b: ButtonModel, held: bool, far: Point)
    requires
        b.width > 0,
        b.height > 0,
        far.x == b.position.x + b.width,
        far.y == b.position.y + b.height,
    ensures
        b.bounds().contains(b.position),
        b.updated(b.position, held).state != ButtonState::Idle,
        !b.bounds().contains(far),
        b.updated(far, held).state == ButtonState::Idle,
{
}

} // verus!

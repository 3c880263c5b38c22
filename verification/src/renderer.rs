//! The drawing interface between the scenes and a platform surface.
//!
//! Scenes draw in a logical coordinate space centred at the origin; the
//! surface behind a `Renderer` maps that space onto its own pixels. A
//! surface answers in `drawn` for what it has drawn, so that the contract
//! of a scene can say what a frame consists of. `DrawList` is the surface
//! that keeps the requests as values, for a platform to carry out.

use vstd::prelude::*;

verus! {

/// An RGB colour.
#[derive(Debug, Copy, Clone, PartialEq, Eq, Structural)]
pub struct Color {
    pub r: u8,
    pub g: u8,
    pub b: u8,
}

impl Color {
    /// White, the colour of the world outline and of plain labels.
    #[verifier::allow_in_spec]
    pub fn white() -> Color
        returns
            (Color { r: 255, g: 255, b: 255 }),
    {
        Color { r: 255, g: 255, b: 255 }
    }

    /// Blue, the colour of the snake and of the selected label.
    #[verifier::allow_in_spec]
    pub fn blue() -> Color
        returns
            (Color { r: 0, g: 0, b: 255 }),
    {
        Color { r: 0, g: 0, b: 255 }
    }

    /// Red, the colour of food.
    #[verifier::allow_in_spec]
    pub fn red() -> Color
        returns
            (Color { r: 255, g: 0, b: 0 }),
    {
        Color { r: 255, g: 0, b: 0 }
    }
}

/// What a single drawing request asks for.
pub enum Drawing {
    /// The outline of a rectangle given by its centre and its size.
    Rect { center_x: i32, center_y: i32, width: u32, height: u32, color: Color },
    /// A label centred on a point.
    Text { text: Seq<char>, x: i32, y: i32, color: Color },
}

/// A surface that scenes draw on.
pub trait Renderer {
    /// Everything drawn on this surface so far, oldest first.
    spec fn drawn(&self) -> Seq<Drawing>;

    /// Draws `text` centred on `(x, y)`.
    fn draw_text(&mut self, text: &String, x: i32, y: i32, color: &Color)
        ensures
            final(self).drawn() == old(self).drawn().push(
                (Drawing::Text { text: text@, x, y, color: *color }),
            ),
    ;

    /// Draws the outline of a rectangle centred on `(center_x, center_y)`.
    fn draw_rect(&mut self, center_x: i32, center_y: i32, width: u32, height: u32, color: &Color)
        ensures
            final(self).drawn() == old(self).drawn().push(
                (Drawing::Rect { center_x, center_y, width, height, color: *color }),
            ),
    ;
}

/// A drawing request held as a value.
#[derive(Debug, PartialEq, Eq)]
pub enum DrawCommand {
    Rect { center_x: i32, center_y: i32, width: u32, height: u32, color: Color },
    Text { text: String, x: i32, y: i32, color: Color },
}

impl View for DrawCommand {
    type V = Drawing;

    open spec fn view(&self) -> Drawing {
        match self {
            DrawCommand::Rect { center_x, center_y, width, height, color } => Drawing::Rect {
                center_x: *center_x,
                center_y: *center_y,
                width: *width,
                height: *height,
                color: *color,
            },
            DrawCommand::Text { text, x, y, color } => Drawing::Text {
                text: text@,
                x: *x,
                y: *y,
                color: *color,
            },
        }
    }
}

/// A surface that keeps every request it receives, in order.
pub struct DrawList {
    commands: Vec<DrawCommand>,
}

impl DrawList {
    /// An empty list.
    pub fn new() -> (list: DrawList)
        ensures
            list.drawn() == Seq::<Drawing>::empty(),
    {
        DrawList { commands: Vec::new() }
    }

    /// The requests received so far, oldest first.
    pub fn commands(&self) -> (commands: &Vec<DrawCommand>)
        ensures
            commands@.map_values(|c: DrawCommand| c@) == self.drawn(),
    {
        &self.commands
    }
}

impl Renderer for DrawList {
    closed spec fn drawn(&self) -> Seq<Drawing> {
        self.commands@.map_values(|c: DrawCommand| c@)
    }

    fn draw_text(&mut self, text: &String, x: i32, y: i32, color: &Color) {
        self.commands.push(DrawCommand::Text { text: text.clone(), x, y, color: *color });
    }

    fn draw_rect(&mut self, center_x: i32, center_y: i32, width: u32, height: u32, color: &Color) {
        self.commands.push(DrawCommand::Rect { center_x, center_y, width, height, color: *color });
    }
}

} // verus!

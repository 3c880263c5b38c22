//! The game's side of its window: the keys that went down in a frame, the
//! request to close, and the place of the logical origin on the screen.
//! Opening the window, polling it and putting pixels on it is the
//! platform's part.

use crate::input::Key;
use crate::point::Point;
use vstd::prelude::*;

verus! {

/// Whether the window is still open once its events are handled.
#[derive(Debug, Copy, Clone, PartialEq, Eq, Structural)]
pub enum GameWindowState {
    Open,
    Closed,
}

/// An event of the window, as far as the game tells events apart.
#[derive(Debug, Copy, Clone, PartialEq, Eq, Structural)]
pub enum WindowEvent {
    /// The window was asked to close.
    Quit,
    /// A key went down: the key, if the platform knows which.
    KeyDown(Option<Key>),
    /// The window has a new width and height, in pixels.
    Resized(i32, i32),
    /// Anything else.
    Other,
}

impl WindowEvent {
    /// Whether this event ends the program at once: a request to close the
    /// window, or Escape.
    pub open spec fn closes(self) -> bool {
        self == WindowEvent::Quit || self == WindowEvent::KeyDown(Some(Key::Escape))
    }
}

/// Half of `x`, rounded towards zero.
pub open spec fn half(x: int) -> int {
    if x >= 0 {
        x / 2
    } else {
        -((-x) / 2)
    }
}

/// The game's side of its window as a mathematical value.
pub struct WindowView {
    /// The screen column of the logical origin.
    pub screen_center_x: i32,
    /// The screen row of the logical origin.
    pub screen_center_y: i32,
    /// The keys that went down in this frame, oldest first.
    pub pressed_keys: Seq<Key>,
}

impl WindowView {
    /// The window at the start of a frame: no key has gone down yet.
    pub open spec fn cleared(self) -> WindowView {
        WindowView { pressed_keys: Seq::empty(), ..self }
    }

    /// The window after an event that does not close it: a known key is
    /// noted, a new size moves the origin to its middle, anything else,
    /// a key that the platform cannot name among it, is ignored.
    pub open spec fn after(self, event: WindowEvent) -> WindowView {
        match event {
            WindowEvent::KeyDown(Some(key)) => WindowView {
                pressed_keys: self.pressed_keys.push(key),
                ..self
            },
            WindowEvent::Resized(width, height) => WindowView {
                screen_center_x: half(width as int) as i32,
                screen_center_y: half(height as int) as i32,
                ..self
            },
            _ => self,
        }
    }

    /// The window after `events`, handled in order up to the first that
    /// closes it, and whether it is still open then.
    pub open spec fn run(self, events: Seq<WindowEvent>) -> (WindowView, GameWindowState)
        decreases events.len(),
    {
        if events.len() == 0 {
            (self, GameWindowState::Open)
        } else if events[0].closes() {
            (self, GameWindowState::Closed)
        } else {
            self.after(events[0]).run(events.drop_first())
        }
    }

    /// Whether the screen position of the logical point `(x, y)` lies
    /// within `i32`.
    pub open spec fn on_screen(self, x: i32, y: i32) -> bool {
        &&& i32::MIN <= x + self.screen_center_x <= i32::MAX
        &&& i32::MIN <= y + self.screen_center_y <= i32::MAX
    }

    /// The screen position of the logical point `(x, y)`.
    pub open spec fn to_screen(self, x: i32, y: i32) -> Point {
        Point { x: (x + self.screen_center_x) as i32, y: (y + self.screen_center_y) as i32 }
    }

    /// Whether the corner of a text of the given size, centred on the
    /// logical point `(x, y)`, lies within `i32`.
    pub open spec fn text_on_screen(self, x: i32, y: i32, width: u32, height: u32) -> bool {
        &&& self.on_screen(x, y)
        &&& i32::MIN <= x + self.screen_center_x - width / 2 <= i32::MAX
        &&& i32::MIN <= y + self.screen_center_y - height / 2 <= i32::MAX
    }

    /// The top left corner on the screen of a text of the given size that
    /// is centred on the logical point `(x, y)`.
    pub open spec fn text_corner(self, x: i32, y: i32, width: u32, height: u32) -> Point {
        Point {
            x: (x + self.screen_center_x - width / 2) as i32,
            y: (y + self.screen_center_y - height / 2) as i32,
        }
    }
}

/// The game's side of its window.
pub struct GameWindow {
    screen_center_x: i32,
    screen_center_y: i32,
    pressed_keys: Vec<Key>,
}

impl View for GameWindow {
    type V = WindowView;

    closed spec fn view(&self) -> WindowView {
        WindowView {
            screen_center_x: self.screen_center_x,
            screen_center_y: self.screen_center_y,
            pressed_keys: self.pressed_keys@,
        }
    }
}

impl GameWindow {
    /// The side of a window of the given width and height: the logical
    /// origin lies in its middle and no key has gone down.
    pub fn create(initial_size: (u32, u32)) -> (window: GameWindow)
        ensures
            window@ == (WindowView {
                screen_center_x: (initial_size.0 / 2) as i32,
                screen_center_y: (initial_size.1 / 2) as i32,
                pressed_keys: Seq::empty(),
            }),
    {
        let center_x: i32 = (initial_size.0 / 2) as i32;
        let center_y: i32 = (initial_size.1 / 2) as i32;
        GameWindow {
            screen_center_x: center_x,
            screen_center_y: center_y,
            pressed_keys: Vec::new(),
        }
    }

    /// Handles the events of one frame in order. The keys of the frame
    /// before are forgotten first. A request to close the window, or
    /// Escape, ends the frame at once: the events behind it are not
    /// looked at.
    pub fn event_loop(&mut self, events: &Vec<WindowEvent>) -> (state: GameWindowState)
        ensures
            (final(self)@, state) == old(self)@.cleared().run(events@),
    {
        self.pressed_keys.clear();
        assert(self@ == old(self)@.cleared());
        assert(events@.skip(0) =~= events@);
        let mut i: usize = 0;
        while i < events.len()
            invariant
                i <= events.len(),
                old(self)@.cleared().run(events@) == self@.run(events@.skip(i as int)),
            decreases events.len() - i,
        {
            proof {
                let rest = events@.skip(i as int);
                assert(rest[0] == events@[i as int]);
                assert(rest.drop_first() =~= events@.skip(i + 1));
            }
            match events[i] {
                WindowEvent::Quit | WindowEvent::KeyDown(Some(Key::Escape)) => {
                    return GameWindowState::Closed;
                },
                WindowEvent::KeyDown(Some(keycode)) => self.pressed_keys.push(keycode),
                WindowEvent::Resized(x, y) => {
                    let center_x: i32 = x / 2;
                    let center_y: i32 = y / 2;
                    self.screen_center_x = center_x;
                    self.screen_center_y = center_y;
                },
                _ => {},
            }
            i += 1;
        }
        GameWindowState::Open
    }

    /// The screen position of the logical origin.
    pub fn screen_center(&self) -> (center: Point)
        ensures
            center == (Point { x: self@.screen_center_x, y: self@.screen_center_y }),
    {
        Point { x: self.screen_center_x, y: self.screen_center_y }
    }

    /// The keys that went down in this frame, oldest first.
    pub fn pressed_keys(&self) -> (keys: &Vec<Key>)
        ensures
            keys@ == self@.pressed_keys,
    {
        &self.pressed_keys
    }

    /// The screen position of the logical point `(x, y)`.
    pub fn to_screen(&self, x: i32, y: i32) -> (screen: Point)
        requires
            self@.on_screen(x, y),
        ensures
            screen == self@.to_screen(x, y),
    {
        Point { x: x + self.screen_center_x, y: y + self.screen_center_y }
    }

    /// The top left corner on the screen of a text of the given size that
    /// is centred on the logical point `(x, y)`.
    pub fn text_corner(&self, x: i32, y: i32, width: u32, height: u32) -> (corner: Point)
        requires
            self@.text_on_screen(x, y, width, height),
        ensures
            corner == self@.text_corner(x, y, width, height),
    {
        Point {
            x: x + self.screen_center_x - (width / 2) as i32,
            y: y + self.screen_center_y - (height / 2) as i32,
        }
    }
}

} // verus!

//! The menu scene: a short list of labels, a selection, and the request
//! that a confirmed selection leaves for the next tick.

use crate::game_state::{State, StateView};
use crate::input::Intent;
use crate::renderer::{Color, Drawing, Renderer};
use crate::snake_game::SnakeGame;
use vstd::prelude::*;

verus! {

/// The width and the height, in tiles, of a game started from the menu.
pub const DEFAULT_TILES: i32 = 16;

/// The vertical distance between two neighbouring labels.
pub const BUTTON_SPACE: i32 = 100;

/// A menu as a mathematical value.
pub struct MenuView {
    /// The index of the selected label.
    pub selected: usize,
    /// The labels, top to bottom.
    pub buttons: Seq<Seq<char>>,
    /// The colour of a label that is not selected.
    pub color: Color,
    /// The colour of the selected label.
    pub selected_color: Color,
    /// Whether a game was asked for and not yet started.
    pub play: bool,
    /// Whether leaving was asked for and not yet carried out.
    pub quit: bool,
}

impl MenuView {
    /// The menu as it is when its scene is entered.
    pub open spec fn initial() -> MenuView {
        MenuView {
            selected: 0,
            buttons: seq!["Play"@, "Quit"@],
            color: Color::white(),
            selected_color: Color::blue(),
            play: false,
            quit: false,
        }
    }

    /// A menu shows the two fixed labels and selects one of them.
    pub open spec fn valid(self) -> bool {
        &&& self.buttons == Self::initial().buttons
        &&& self.selected < self.buttons.len()
    }

    /// The menu after the selection moves one label down, from the last
    /// label round to the first.
    pub open spec fn moved_down(self) -> MenuView {
        MenuView {
            selected: if self.selected + 1 >= self.buttons.len() {
                0
            } else {
                (self.selected + 1) as usize
            },
            ..self
        }
    }

    /// The menu after the selection moves one label up, from the first
    /// label round to the last.
    pub open spec fn moved_up(self) -> MenuView {
        MenuView {
            selected: if self.selected == 0 {
                (self.buttons.len() - 1) as usize
            } else {
                (self.selected - 1) as usize
            },
            ..self
        }
    }

    /// The menu after the selection is confirmed: the first label asks for
    /// a game, the second for leaving, and each confirmation sets both
    /// requests anew.
    pub open spec fn confirmed(self) -> MenuView {
        MenuView { play: self.selected == 0, quit: self.selected == 1, ..self }
    }

    /// The menu after one intent.
    pub open spec fn applied(self, intent: Intent) -> MenuView {
        match intent {
            Intent::Up => self.moved_up(),
            Intent::Down => self.moved_down(),
            Intent::Confirm => self.confirmed(),
            _ => self,
        }
    }

    /// The menu after `intents`, applied in order.
    pub open spec fn applied_all(self, intents: Seq<Intent>) -> MenuView
        decreases intents.len(),
    {
        if intents.len() == 0 {
            self
        } else {
            self.applied_all(intents.drop_last()).applied(intents.last())
        }
    }

    /// The menu after a tick has read its requests: both are gone, and
    /// everything else is as it was.
    pub open spec fn consumed(self) -> MenuView {
        MenuView { play: false, quit: false, ..self }
    }

    /// Whether `transition` is what a tick of this menu may return: a game
    /// at its start on the default grid if one was asked for, else the end
    /// of the application if leaving was asked for, else nothing.
    pub open spec fn tick_to(self, transition: Option<StateView>) -> bool {
        if self.play {
            transition matches Some(StateView::Play(game)) && game.is_start(
                DEFAULT_TILES,
                DEFAULT_TILES,
            )
        } else if self.quit {
            transition == Some(StateView::Quit)
        } else {
            transition is None
        }
    }

    /// The height at which the label at `index` is drawn: the rows are
    /// `BUTTON_SPACE` apart and start half the menu's height above the
    /// origin.
    pub open spec fn row(self, index: int) -> int {
        index * BUTTON_SPACE - (BUTTON_SPACE * self.buttons.len()) / 2
    }

    /// What drawing the menu requests: each label in turn, the selected one
    /// in its own colour.
    pub open spec fn drawings(self) -> Seq<Drawing> {
        Seq::new(
            self.buttons.len(),
            |i: int|
                Drawing::Text {
                    text: self.buttons[i],
                    x: 0,
                    y: self.row(i) as i32,
                    color: if i == self.selected {
                        self.selected_color
                    } else {
                        self.color
                    },
                },
        )
    }
}

/// The selection wraps round: up from the first label leads to the last,
/// down from the last label leads to the first.
pub proof fn lemma_selection_wraps(menu: MenuView)
    requires
        menu.valid(),
    ensures
        menu.selected == 0 ==> menu.moved_up().selected == menu.buttons.len() - 1,
        menu.selected == menu.buttons.len() - 1 ==> menu.moved_down().selected == 0,
        menu.moved_up().valid(),
        menu.moved_down().valid(),
{
}

/// A request is served once: whatever was asked for, the tick after the
/// one that read it returns nothing.
pub proof fn lemma_request_is_served_once(menu: MenuView, transition: Option<StateView>)
    requires
        menu.consumed().tick_to(transition),
    ensures
        transition is None,
        menu.consumed().consumed() == menu.consumed(),
{
}

/// The menu scene.
pub struct MainMenu {
    selected: usize,
    buttons: Vec<String>,
    color: Color,
    selected_color: Color,
    play: bool,
    quit: bool,
}

impl View for MainMenu {
    type V = MenuView;

    closed spec fn view(&self) -> MenuView {
        MenuView {
            selected: self.selected,
            buttons: self.buttons@.map_values(|label: String| label@),
            color: self.color,
            selected_color: self.selected_color,
            play: self.play,
            quit: self.quit,
        }
    }
}

impl MainMenu {
    /// Whether this menu is in a state that its operations keep.
    pub open spec fn wf(&self) -> bool {
        self@.valid()
    }

    /// A menu with the first label selected and nothing asked for.
    pub fn new() -> (menu: MainMenu)
        ensures
            menu.wf(),
            menu@ == MenuView::initial(),
    {
        let mut buttons: Vec<String> = Vec::new();
        buttons.push(String::from_str("Play"));
        buttons.push(String::from_str("Quit"));
        let menu = MainMenu {
            selected: 0,
            buttons,
            color: Color::white(),
            selected_color: Color::blue(),
            play: false,
            quit: false,
        };
        assert(menu@.buttons =~= MenuView::initial().buttons);
        menu
    }

    /// Applies the intents of one frame in order: up and down move the
    /// selection, confirm leaves a request for the next tick, anything
    /// else is ignored.
    pub fn handle_input(&mut self, intents: &Vec<Intent>)
        requires
            old(self).wf(),
        ensures
            final(self).wf(),
            final(self)@ == old(self)@.applied_all(intents@),
    {
        let mut i: usize = 0;
        while i < intents.len()
            invariant
                i <= intents.len(),
                self.wf(),
                self@ == old(self)@.applied_all(intents@.take(i as int)),
            decreases intents.len() - i,
        {
            proof {
                let done = intents@.take(i + 1);
                assert(done.drop_last() =~= intents@.take(i as int));
                assert(done.last() == intents@[i as int]);
            }
            match intents[i] {
                Intent::Up => self.move_up(),
                Intent::Down => self.move_down(),
                Intent::Confirm => {
                    self.play = self.selected == 0;
                    self.quit = self.selected == 1;
                },
                _ => {},
            }
            i += 1;
        }
        assert(intents@.take(i as int) =~= intents@);
    }

    /// Carries out what was asked for and forgets it: starts a game on the
    /// default grid, or ends the application, or does nothing. A request
    /// is read once; the tick after it finds none.
    pub fn tick(&mut self) -> (transition: Option<State>)
        requires
            old(self).wf(),
        ensures
            final(self).wf(),
            final(self)@ == old(self)@.consumed(),
            transition matches Some(state) ==> state.wf(),
            old(self)@.tick_to(State::views(transition)),
    {
        let play: bool = self.play;
        let quit: bool = self.quit;
        self.play = false;
        self.quit = false;
        if play {
            Some(State::Play(SnakeGame::new(DEFAULT_TILES, DEFAULT_TILES)))
        } else if quit {
            Some(State::Quit)
        } else {
            None
        }
    }

    /// Moves the selection one label down, from the last round to the
    /// first.
    pub fn move_down(&mut self)
        requires
            old(self).wf(),
        ensures
            final(self).wf(),
            final(self)@ == old(self)@.moved_down(),
    {
        let mut selected: usize = self.selected + 1;
        if selected >= self.buttons.len() {
            selected = 0;
        }
        self.selected = selected;
    }

    /// Moves the selection one label up, from the first round to the last.
    pub fn move_up(&mut self)
        requires
            old(self).wf(),
        ensures
            final(self).wf(),
            final(self)@ == old(self)@.moved_up(),
    {
        if self.selected == 0 {
            self.selected = self.buttons.len() - 1
        } else {
            self.selected -= 1;
        }
    }

    /// Draws the labels one below the other around the origin, the
    /// selected one in its own colour.
    pub fn render<R: Renderer + ?Sized>(&self, renderer: &mut R)
        requires
            self.wf(),
        ensures
            final(renderer).drawn() == old(renderer).drawn() + self@.drawings(),
    {
        let button_space: i32 = BUTTON_SPACE;
        let offset: i32 = (button_space * self.buttons.len() as i32) / 2;
        let mut index: usize = 0;
        while index < self.buttons.len()
            invariant
                self.wf(),
                index <= self.buttons.len(),
                button_space == BUTTON_SPACE,
                offset == (BUTTON_SPACE * self.buttons.len()) / 2,
                renderer.drawn() == old(renderer).drawn() + self@.drawings().take(index as int),
            decreases self.buttons.len() - index,
        {
            let color = if index == self.selected {
                self.selected_color
            } else {
                self.color
            };
            renderer.draw_text(
                &self.buttons[index],
                0,
                (index as i32 * button_space) - offset,
                &color,
            );
            proof {
                let all = self@.drawings();
                assert(all.take(index + 1) =~= all.take(index as int).push(all[index as int]));
            }
            index += 1;
        }
        assert(self@.drawings().take(index as int) =~= self@.drawings());
    }

    /// The labels, top to bottom.
    pub fn buttons(&self) -> (buttons: &Vec<String>)
        ensures
            buttons@.map_values(|label: String| label@) == self@.buttons,
    {
        &self.buttons
    }

    /// The index of the selected label.
    pub fn selected(&self) -> (selected: usize)
        ensures
            selected == self@.selected,
    {
        self.selected
    }

    /// Whether a game was asked for.
    pub fn play_requested(&self) -> (play: bool)
        ensures
            play == self@.play,
    {
        self.play
    }

    /// Whether leaving was asked for.
    pub fn quit_requested(&self) -> (quit: bool)
        ensures
            quit == self@.quit,
    {
        self.quit
    }
}

} // verus!

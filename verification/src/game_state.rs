//! The application state: exactly one scene is live at a time, and a
//! transition replaces it whole.

use crate::input::{intents, Intent, Key};
use crate::main_menu::{MainMenu, MenuView};
use crate::renderer::{Drawing, Renderer};
use crate::snake_game::{GameView, SnakeGame};
use vstd::prelude::*;

verus! {

/// The application state.
pub enum State {
    /// The menu is shown.
    Menu(MainMenu),
    /// A game is played.
    Play(SnakeGame),
    /// The application is over.
    Quit,
}

/// The application state as a mathematical value.
pub enum StateView {
    Menu(MenuView),
    Play(GameView),
    Quit,
}

impl StateView {
    /// The state after the intents of one frame went to the live scene.
    pub open spec fn steered(self, intents: Seq<Intent>) -> StateView {
        match self {
            StateView::Menu(menu) => StateView::Menu(menu.applied_all(intents)),
            StateView::Play(game) => StateView::Play(game.steered(intents)),
            StateView::Quit => StateView::Quit,
        }
    }

    /// Whether a tick may take this state to `after` and return
    /// `transition`: the live scene ticks, the menu forgetting the request
    /// that it serves, and the end of the application hands itself on.
    pub open spec fn tick_to(self, after: StateView, transition: Option<StateView>) -> bool {
        match self {
            StateView::Menu(menu) => after == StateView::Menu(menu.consumed()) && menu.tick_to(
                transition,
            ),
            StateView::Play(game) => after matches StateView::Play(next) && game.tick_to(
                next,
                transition,
            ),
            StateView::Quit => after == self && transition == Some(StateView::Quit),
        }
    }

    /// The state that a frame leaves behind: the transition, where the
    /// tick returned one, else the ticked state.
    pub open spec fn settled(after: StateView, transition: Option<StateView>) -> StateView {
        match transition {
            Some(next) => next,
            None => after,
        }
    }

    /// What drawing the live scene requests.
    pub open spec fn drawings(self) -> Seq<Drawing> {
        match self {
            StateView::Menu(menu) => menu.drawings(),
            StateView::Play(game) => game.drawings(),
            StateView::Quit => Seq::empty(),
        }
    }
}

impl View for State {
    type V = StateView;

    open spec fn view(&self) -> StateView {
        match self {
            State::Menu(menu) => StateView::Menu(menu@),
            State::Play(game) => StateView::Play(game@),
            State::Quit => StateView::Quit,
        }
    }
}

impl State {
    /// Whether the live scene is in a state that its operations keep.
    pub open spec fn wf(&self) -> bool {
        match self {
            State::Menu(menu) => menu.wf(),
            State::Play(game) => game.wf(),
            State::Quit => true,
        }
    }

    /// Whether a tick of this state keeps the score within `u32`: only a
    /// game that is about to eat can fail to.
    pub open spec fn can_tick(&self) -> bool {
        self matches State::Play(game) ==> game@.can_tick()
    }

    /// Tells whether a tick of this state keeps the score within `u32`.
    pub fn tick_fits(&self) -> (fits: bool)
        requires
            self.wf(),
        ensures
            fits == self.can_tick(),
    {
        match self {
            State::Play(game) => game.tick_fits(),
            _ => true,
        }
    }

    /// The mathematical value of a transition, if there is one.
    pub open spec fn views(transition: Option<State>) -> Option<StateView> {
        match transition {
            Some(state) => Some(state@),
            None => None,
        }
    }

    /// Whether the live scene is the menu, where letters stand in for
    /// arrow keys.
    pub open spec fn in_menu(&self) -> bool {
        self is Menu
    }

    /// Turns the keys of one frame into the intents that the live scene
    /// is to get.
    pub fn intents(&self, keys: &Vec<Key>) -> (asked: Vec<Intent>)
        ensures
            asked@ == crate::input::intents_of(keys@, self.in_menu()),
    {
        match self {
            State::Menu(_) => intents(keys, true),
            _ => intents(keys, false),
        }
    }

    /// Hands the intents of one frame to the live scene.
    pub fn handle_input(&mut self, intents: &Vec<Intent>)
        requires
            old(self).wf(),
        ensures
            final(self).wf(),
            final(self)@ == old(self)@.steered(intents@),
    {
        match self {
            State::Menu(main_menu) => main_menu.handle_input(intents),
            State::Play(snake_game) => snake_game.handle_input(intents),
            State::Quit => {},
        }
    }

    /// Ticks the live scene and returns the state that is to replace this
    /// one, if the scene asks for a transition. The end of the application
    /// always hands itself on.
    pub fn tick(&mut self) -> (transition: Option<State>)
        requires
            old(self).wf(),
            old(self).can_tick(),
        ensures
            final(self).wf(),
            transition matches Some(state) ==> state.wf(),
            old(self)@.tick_to(final(self)@, Self::views(transition)),
    {
        match self {
            State::Menu(menu) => menu.tick(),
            State::Play(snake_game) => snake_game.tick(),
            State::Quit => Some(State::Quit),
        }
    }

    /// Ticks the live scene and becomes what the tick leaves behind: the
    /// new state where the scene asked for a transition, else this state
    /// as the tick left it.
    pub fn advance(self) -> (next: State)
        requires
            self.wf(),
            self.can_tick(),
        ensures
            next.wf(),
            exists|after: StateView, transition: Option<StateView>|
                #[trigger] self@.tick_to(after, transition) && next@ == StateView::settled(
                    after,
                    transition,
                ),
    {
        let mut state = self;
        let transition = state.tick();
        assert(self@.tick_to(state@, Self::views(transition)));
        match transition {
            Some(next) => next,
            None => state,
        }
    }

    /// Lets the live scene draw itself; the end of the application draws
    /// nothing.
    pub fn render<R: Renderer + ?Sized>(&self, renderer: &mut R)
        requires
            self.wf(),
        ensures
            final(renderer).drawn() == old(renderer).drawn() + self@.drawings(),
    {
        match self {
            State::Menu(main_menu) => {
                main_menu.render(renderer);
            },
            State::Play(snake_game) => {
                snake_game.render(renderer);
            },
            State::Quit => {},
        }
    }
}

} // verus!

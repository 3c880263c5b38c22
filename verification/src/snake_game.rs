//! The play scene: a snake and its food on a wrap-around grid, moved on a
//! fixed cadence that quickens with the score.

use crate::food::{generate_food, respawn, FOOD_COUNT};
use crate::game_state::{State, StateView};
use crate::input::Intent;
use crate::main_menu::{MainMenu, MenuView};
use crate::point::{position, Direction, Point};
use crate::renderer::{Color, Drawing, Renderer};
use crate::snake::{Snake, SnakeView};
use crate::text::score_label;
use vstd::prelude::*;

verus! {

/// The edge of a tile in logical units.
pub const TILE_SIZE: i32 = 32;

/// The ticks between two movements when a game starts.
pub const START_TICKS: u32 = 30;

/// The fewest ticks between two movements that scoring can lead to.
pub const MIN_TICKS: u32 = 5;

/// The largest tile count of an axis whose world outline fits in `i32`.
pub const MAX_TILES: i32 = 67_108_862;

/// How far above the world outline the score label sits.
pub const SCORE_OFFSET: i32 = 24;

/// A game as a mathematical value.
pub struct GameView {
    /// The tile count of the horizontal axis.
    pub tiles_x: i32,
    /// The tile count of the vertical axis.
    pub tiles_y: i32,
    /// The edge of a tile in logical units.
    pub tile_size: i32,
    /// The ticks since the last movement.
    pub game_ticks: u32,
    /// The ticks between two movements.
    pub ticks_per_movement: u32,
    /// The snake.
    pub snake: SnakeView,
    /// The food entries.
    pub food: Seq<Point>,
    /// The number of entries eaten so far.
    pub score: u32,
}

impl GameView {
    /// Whether `p` is a tile the snake can occupy: wrapping keeps each
    /// coordinate between zero and the tile count, both included.
    pub open spec fn on_grid(self, p: Point) -> bool {
        &&& 0 <= p.x <= self.tiles_x
        &&& 0 <= p.y <= self.tiles_y
    }

    /// What holds of a game from its start on.
    pub open spec fn valid(self) -> bool {
        &&& 0 < self.tiles_x <= MAX_TILES
        &&& 0 < self.tiles_y <= MAX_TILES
        &&& self.tile_size == TILE_SIZE
        &&& MIN_TICKS <= self.ticks_per_movement <= START_TICKS
        &&& self.game_ticks < START_TICKS
        &&& self.snake.valid()
        &&& forall|i: int|
            0 <= i < self.snake.body.len() ==> self.on_grid(#[trigger] self.snake.body[i])
        &&& self.food.len() == FOOD_COUNT
        &&& crate::food::all_spawnable(self.food, self.tiles_x, self.tiles_y)
    }

    /// The game at its start: a snake of one segment at the centre heading
    /// north, the given food, no score and the slowest cadence.
    pub open spec fn start(tiles_x: i32, tiles_y: i32, food: Seq<Point>) -> GameView {
        GameView {
            tiles_x,
            tiles_y,
            tile_size: TILE_SIZE,
            game_ticks: 0,
            ticks_per_movement: START_TICKS,
            snake: SnakeView {
                body: seq![Point { x: (tiles_x / 2) as i32, y: (tiles_y / 2) as i32 }],
                direction: Direction::North,
            },
            food,
            score: 0,
        }
    }

    /// Whether this is a game at its start on a `tiles_x` by `tiles_y`
    /// grid, with its full count of food placed where food may appear.
    pub open spec fn is_start(self, tiles_x: i32, tiles_y: i32) -> bool {
        &&& self == Self::start(tiles_x, tiles_y, self.food)
        &&& self.food.len() == FOOD_COUNT
        &&& crate::food::all_spawnable(self.food, tiles_x, tiles_y)
    }

    /// Whether the next tick moves the snake.
    pub open spec fn moves_now(self) -> bool {
        self.game_ticks + 1 >= self.ticks_per_movement
    }

    /// The tile the head enters at the next movement.
    pub open spec fn next_head(self) -> Point {
        self.snake.next_position(self.tiles_x, self.tiles_y)
    }

    /// Whether the next tick eats a food entry.
    pub open spec fn eats(self) -> bool {
        self.moves_now() && self.food.contains(self.next_head())
    }

    /// Whether the next tick runs the snake into itself.
    pub open spec fn collides(self) -> bool {
        self.moves_now() && self.snake.collides_at(self.next_head())
    }

    /// Whether the next tick keeps the score within `u32`: a tick that
    /// eats needs room for one more point, any other tick needs nothing.
    pub open spec fn can_tick(self) -> bool {
        self.eats() ==> self.score < u32::MAX
    }

    /// The game after one point is scored: the score grows by one and the
    /// cadence quickens by one tick, down to `MIN_TICKS`.
    pub open spec fn scored(self) -> GameView {
        GameView {
            score: (self.score + 1) as u32,
            ticks_per_movement: if self.ticks_per_movement > MIN_TICKS {
                (self.ticks_per_movement - 1) as u32
            } else {
                self.ticks_per_movement
            },
            ..self
        }
    }

    /// The game after `n` points are scored in a row.
    pub open spec fn scored_times(self, n: nat) -> GameView
        decreases n,
    {
        if n == 0 {
            self
        } else {
            self.scored_times((n - 1) as nat).scored()
        }
    }

    /// The game after one tick, where `fresh` replaces the food that the
    /// tick eats, if it eats any. Until the cadence is reached only the
    /// tick counter moves. Then the counter starts over and the head goes
    /// for the next tile: food there is eaten, scored and replaced, and
    /// the snake grows; a tile of the body rejects the move.
    pub open spec fn ticked(self, fresh: Point) -> GameView {
        if !self.moves_now() {
            GameView { game_ticks: (self.game_ticks + 1) as u32, ..self }
        } else {
            match self.food.index_of_first(self.next_head()) {
                Some(index) => GameView {
                    game_ticks: 0,
                    food: crate::food::respawned(self.food, index, fresh),
                    snake: self.snake.moved_to(self.next_head(), true),
                    ..self.scored()
                },
                None => GameView {
                    game_ticks: 0,
                    snake: self.snake.moved_to(self.next_head(), false),
                    ..self
                },
            }
        }
    }

    /// The game after a run of ticks, where `fresh[k]` stands ready to
    /// replace what tick `k` eats.
    pub open spec fn ticked_all(self, fresh: Seq<Point>) -> GameView
        decreases fresh.len(),
    {
        if fresh.len() == 0 {
            self
        } else {
            self.ticked_all(fresh.drop_last()).ticked(fresh.last())
        }
    }

    /// What a tick hands on: a collision ends the game and asks for a
    /// menu in its initial state; otherwise the game goes on.
    pub open spec fn transition(self) -> Option<StateView> {
        if self.collides() {
            Some(StateView::Menu(MenuView::initial()))
        } else {
            None
        }
    }

    /// Whether a tick may take this game to `after` and return
    /// `transition`, whatever tile the new food falls on.
    pub open spec fn tick_to(self, after: GameView, transition: Option<StateView>) -> bool {
        &&& transition == self.transition()
        &&& exists|fresh: Point|
            crate::food::spawnable(fresh, self.tiles_x, self.tiles_y) && after
                == #[trigger] self.ticked(fresh)
    }

    /// The game after the snake's heading is set.
    pub open spec fn turned(self, direction: Direction) -> GameView {
        GameView { snake: self.snake.turned(direction), ..self }
    }

    /// The game after the intents of one frame: the last directional
    /// intent sets the heading.
    pub open spec fn steered(self, intents: Seq<Intent>) -> GameView {
        self.turned(crate::input::steer(self.snake.direction, intents))
    }

    /// Whether the world position of `p` can be computed within `i32`.
    pub open spec fn maps_to_world(self, p: Point) -> bool {
        &&& i32::MIN <= p.x * self.tile_size <= i32::MAX
        &&& i32::MIN <= p.y * self.tile_size <= i32::MAX
        &&& i32::MIN <= p.x * self.tile_size - (self.tiles_x * self.tile_size) / 2 <= i32::MAX
        &&& i32::MIN <= p.y * self.tile_size - (self.tiles_y * self.tile_size) / 2 <= i32::MAX
    }

    /// The world position of a tile: the grid is centred on the origin.
    pub open spec fn to_world(self, p: Point) -> Point {
        Point {
            x: (p.x * self.tile_size - (self.tiles_x * self.tile_size) / 2) as i32,
            y: (p.y * self.tile_size - (self.tiles_y * self.tile_size) / 2) as i32,
        }
    }

    /// The outline of the world: one tile wider and higher than the grid,
    /// centred on the origin.
    pub open spec fn outline(self) -> Drawing {
        Drawing::Rect {
            center_x: 0,
            center_y: 0,
            width: (self.tiles_x * self.tile_size + self.tile_size) as u32,
            height: (self.tiles_y * self.tile_size + self.tile_size) as u32,
            color: Color::white(),
        }
    }

    /// One square for each food entry, half a tile wide.
    pub open spec fn food_drawings(self) -> Seq<Drawing> {
        Seq::new(
            self.food.len(),
            |i: int|
                Drawing::Rect {
                    center_x: self.to_world(self.food[i]).x,
                    center_y: self.to_world(self.food[i]).y,
                    width: (self.tile_size / 2) as u32,
                    height: (self.tile_size / 2) as u32,
                    color: Color::red(),
                },
        )
    }

    /// One square for each segment of the snake, a full tile wide.
    pub open spec fn snake_drawings(self) -> Seq<Drawing> {
        Seq::new(
            self.snake.body.len(),
            |i: int|
                Drawing::Rect {
                    center_x: self.to_world(self.snake.body[i]).x,
                    center_y: self.to_world(self.snake.body[i]).y,
                    width: self.tile_size as u32,
                    height: self.tile_size as u32,
                    color: Color::blue(),
                },
        )
    }

    /// The score label, `SCORE_OFFSET` above the top of the outline.
    pub open spec fn score_drawing(self) -> Drawing {
        Drawing::Text {
            text: crate::text::score_text(self.score as nat),
            x: 0,
            y: (-((self.tiles_y * self.tile_size + self.tile_size) / 2) - SCORE_OFFSET) as i32,
            color: Color::white(),
        }
    }

    /// What drawing the game requests: the outline, the food, the snake
    /// and the score.
    pub open spec fn drawings(self) -> Seq<Drawing> {
        seq![self.outline()] + self.food_drawings() + self.snake_drawings()
            + seq![self.score_drawing()]
    }
}

/// The play scene.
pub struct SnakeGame {
    tiles_x: i32,
    tiles_y: i32,
    tile_size: i32,
    game_ticks: u32,
    ticks_per_movement: u32,
    snake: Snake,
    food: Vec<Point>,
    score: u32,
}

impl View for SnakeGame {
    type V = GameView;

    closed spec fn view(&self) -> GameView {
        GameView {
            tiles_x: self.tiles_x,
            tiles_y: self.tiles_y,
            tile_size: self.tile_size,
            game_ticks: self.game_ticks,
            ticks_per_movement: self.ticks_per_movement,
            snake: self.snake@,
            food: self.food@,
            score: self.score,
        }
    }
}

impl SnakeGame {
    /// Whether this game is in a state that its operations keep.
    pub open spec fn wf(&self) -> bool {
        self@.valid()
    }

    /// A game at its start with food on four tiles picked at random.
    pub fn new(tiles_x: i32, tiles_y: i32) -> (game: SnakeGame)
        requires
            0 < tiles_x <= MAX_TILES,
            0 < tiles_y <= MAX_TILES,
        ensures
            game.wf(),
            game@.is_start(tiles_x, tiles_y),
    {
        let food = [
            generate_food(tiles_x, tiles_y),
            generate_food(tiles_x, tiles_y),
            generate_food(tiles_x, tiles_y),
            generate_food(tiles_x, tiles_y),
        ];
        Self::with_food(tiles_x, tiles_y, food)
    }

    /// A game at its start with the given food.
    pub fn with_food(tiles_x: i32, tiles_y: i32, food: [Point; 4]) -> (game: SnakeGame)
        requires
            0 < tiles_x <= MAX_TILES,
            0 < tiles_y <= MAX_TILES,
            crate::food::all_spawnable(food@, tiles_x, tiles_y),
        ensures
            game.wf(),
            game@ == GameView::start(tiles_x, tiles_y, food@),
    {
        let mut entries: Vec<Point> = Vec::new();
        let mut i: usize = 0;
        while i < FOOD_COUNT
            invariant
                i <= FOOD_COUNT,
                entries@ == food@.take(i as int),
            decreases FOOD_COUNT - i,
        {
            entries.push(food[i]);
            assert(food@.take(i + 1) =~= food@.take(i as int).push(food@[i as int]));
            i += 1;
        }
        assert(food@.take(FOOD_COUNT as int) =~= food@);
        let snake_head = Point { x: tiles_x / 2, y: tiles_y / 2 };
        SnakeGame {
            tiles_x,
            tiles_y,
            tile_size: TILE_SIZE,
            game_ticks: 0,
            ticks_per_movement: START_TICKS,
            snake: Snake::new(snake_head),
            food: entries,
            score: 0,
        }
    }

    /// Scores one point: the score grows by one and the cadence quickens by
    /// one tick, down to `MIN_TICKS`.
    pub fn give_score(&mut self)
        requires
            old(self)@.score < u32::MAX,
        ensures
            final(self)@ == old(self)@.scored(),
            old(self).wf() ==> final(self).wf(),
    {
        if self.ticks_per_movement > MIN_TICKS {
            self.ticks_per_movement -= 1;
        }
        self.score += 1;
    }

    /// Counts one tick and tells whether the snake is to move now, in
    /// which case the count starts over.
    fn advance_clock(&mut self) -> (due: bool)
        requires
            old(self).wf(),
        ensures
            due == old(self)@.moves_now(),
            final(self)@ == (GameView {
                game_ticks: if due {
                    0
                } else {
                    (old(self)@.game_ticks + 1) as u32
                },
                ..old(self)@
            }),
    {
        self.game_ticks = self.game_ticks + 1;
        if self.game_ticks >= self.ticks_per_movement {
            self.game_ticks = 0;
            true
        } else {
            false
        }
    }

    /// Moves the head onto `next_head`, growing if food was eaten, and asks
    /// for the menu when the snake runs into itself.
    fn advance_snake(&mut self, next_head: Point, eat: bool) -> (transition: Option<State>)
        requires
            old(self).snake.wf(),
        ensures
            final(self)@ == (GameView {
                snake: old(self)@.snake.moved_to(next_head, eat),
                ..old(self)@
            }),
            transition matches Some(state) ==> state.wf(),
            State::views(transition) == if old(self)@.snake.collides_at(next_head) {
                Some(StateView::Menu(MenuView::initial()))
            } else {
                None
            },
    {
        match self.snake.move_to(next_head, eat) {
            None => Some(State::Menu(MainMenu::new())),
            _ => None,
        }
    }

    /// Tells whether the next tick keeps the score within `u32`.
    pub fn tick_fits(&self) -> (fits: bool)
        requires
            self.wf(),
        ensures
            fits == self@.can_tick(),
    {
        if self.score < u32::MAX || self.game_ticks + 1 < self.ticks_per_movement {
            return true;
        }
        let next_head = self.snake.get_next_position(self.tiles_x, self.tiles_y);
        position(&self.food, next_head).is_none()
    }

    /// Advances the game by one tick. Food that is eaten is replaced on a
    /// tile picked at random. Returns the menu that is to replace the game
    /// when the snake runs into itself.
    pub fn tick(&mut self) -> (transition: Option<State>)
        requires
            old(self).wf(),
            old(self)@.can_tick(),
        ensures
            final(self).wf(),
            transition matches Some(state) ==> state.wf(),
            old(self)@.tick_to(final(self)@, State::views(transition)),
    {
        if !self.advance_clock() {
            proof {
                let any = Point { x: 0, y: 0 };
                assert(self@ == old(self)@.ticked(any));
            }
            return None;
        }
        let next_head = self.snake.get_next_position(self.tiles_x, self.tiles_y);
        let ghost fresh_or_any;
        let eat = match position(&self.food, next_head) {
            Some(fi) => {
                let fresh = generate_food(self.tiles_x, self.tiles_y);
                proof {
                    fresh_or_any = fresh;
                }
                self.give_score();
                respawn(&mut self.food, fi, fresh);
                true
            },
            None => {
                proof {
                    fresh_or_any = Point { x: 0, y: 0 };
                }
                false
            },
        };
        let transition = self.advance_snake(next_head, eat);
        proof {
            old(self)@.lemma_tick_keeps_valid(fresh_or_any);
            assert(self@ == old(self)@.ticked(fresh_or_any));
        }
        transition
    }

    /// Advances the game by one tick, where `fresh` replaces the food that
    /// the tick eats, if it eats any. Returns the menu that is to replace
    /// the game when the snake runs into itself.
    pub fn tick_with(&mut self, fresh: Point) -> (transition: Option<State>)
        requires
            old(self).wf(),
            old(self)@.can_tick(),
            crate::food::spawnable(fresh, old(self)@.tiles_x, old(self)@.tiles_y),
        ensures
            final(self).wf(),
            final(self)@ == old(self)@.ticked(fresh),
            transition matches Some(state) ==> state.wf(),
            State::views(transition) == old(self)@.transition(),
    {
        proof {
            old(self)@.lemma_tick_keeps_valid(fresh);
        }
        if !self.advance_clock() {
            return None;
        }
        let next_head = self.snake.get_next_position(self.tiles_x, self.tiles_y);
        let eat = match position(&self.food, next_head) {
            Some(fi) => {
                self.give_score();
                respawn(&mut self.food, fi, fresh);
                true
            },
            None => false,
        };
        self.advance_snake(next_head, eat)
    }

    /// Applies the intents of one frame in order: each directional intent
    /// sets the heading, so the last one wins; anything else is ignored.
    pub fn handle_input(&mut self, intents: &Vec<Intent>)
        ensures
            final(self)@ == old(self)@.steered(intents@),
            final(self).wf() == old(self).wf(),
    {
        let mut i: usize = 0;
        while i < intents.len()
            invariant
                i <= intents.len(),
                self@ == old(self)@.steered(intents@.take(i as int)),
            decreases intents.len() - i,
        {
            proof {
                let done = intents@.take(i + 1);
                assert(done.drop_last() =~= intents@.take(i as int));
                assert(done.last() == intents@[i as int]);
            }
            match intents[i] {
                Intent::Up => self.change_direction(Direction::North),
                Intent::Down => self.change_direction(Direction::South),
                Intent::Left => self.change_direction(Direction::West),
                Intent::Right => self.change_direction(Direction::East),
                _ => {},
            }
            i += 1;
        }
        assert(intents@.take(i as int) =~= intents@);
    }

    /// Draws the world outline, the food, the snake and the score.
    pub fn render<R: Renderer + ?Sized>(&self, renderer: &mut R)
        requires
            self.wf(),
        ensures
            final(renderer).drawn() == old(renderer).drawn() + self@.drawings(),
    {
        self.render_world(renderer);
        self.render_food(renderer);
        self.render_snake(renderer);
        self.render_score(renderer);
        assert(renderer.drawn() =~= old(renderer).drawn() + self@.drawings());
    }

    /// Sets the snake's heading, whatever it was before.
    pub fn change_direction(&mut self, direction: Direction)
        ensures
            final(self)@ == old(self)@.turned(direction),
            final(self).wf() == old(self).wf(),
    {
        self.snake.change_direction(direction);
    }

    /// Draws the outline of the world.
    fn render_world<R: Renderer + ?Sized>(&self, renderer: &mut R)
        requires
            self.wf(),
        ensures
            final(renderer).drawn() == old(renderer).drawn().push(self@.outline()),
    {
        renderer.draw_rect(
            0,
            0,
            (self.tiles_x * self.tile_size + self.tile_size) as u32,
            (self.tiles_y * self.tile_size + self.tile_size) as u32,
            &Color::white(),
        );
    }

    /// Draws the score label above the outline.
    fn render_score<R: Renderer + ?Sized>(&self, renderer: &mut R)
        requires
            self.wf(),
        ensures
            final(renderer).drawn() == old(renderer).drawn().push(self@.score_drawing()),
    {
        let top: i32 = -(self.tiles_y * self.tile_size + self.tile_size) / 2;
        renderer.draw_text(&score_label(self.score), 0, top - SCORE_OFFSET, &Color::white())
    }

    /// Draws the segments of the snake, head first.
    fn render_snake<R: Renderer + ?Sized>(&self, renderer: &mut R)
        requires
            self.wf(),
        ensures
            final(renderer).drawn() == old(renderer).drawn() + self@.snake_drawings(),
    {
        let tile_size: i32 = self.tile_size;
        let parts = self.snake.parts();
        let mut i: usize = 0;
        while i < parts.len()
            invariant
                self.wf(),
                i <= parts.len(),
                parts@ == self@.snake.body,
                tile_size == self@.tile_size,
                renderer.drawn() == old(renderer).drawn() + self@.snake_drawings().take(i as int),
            decreases parts.len() - i,
        {
            let center = self.to_world(&parts[i]);
            renderer.draw_rect(
                center.x,
                center.y,
                tile_size as u32,
                tile_size as u32,
                &Color::blue(),
            );
            proof {
                let all = self@.snake_drawings();
                assert(all.take(i + 1) =~= all.take(i as int).push(all[i as int]));
            }
            i += 1;
        }
        assert(self@.snake_drawings().take(i as int) =~= self@.snake_drawings());
    }

    /// Draws the food entries in the order in which they are kept.
    fn render_food<R: Renderer + ?Sized>(&self, renderer: &mut R)
        requires
            self.wf(),
        ensures
            final(renderer).drawn() == old(renderer).drawn() + self@.food_drawings(),
    {
        let mut i: usize = 0;
        while i < self.food.len()
            invariant
                self.wf(),
                i <= self.food.len(),
                renderer.drawn() == old(renderer).drawn() + self@.food_drawings().take(i as int),
            decreases self.food.len() - i,
        {
            let center = self.to_world(&self.food[i]);
            renderer.draw_rect(
                center.x,
                center.y,
                (self.tile_size / 2) as u32,
                (self.tile_size / 2) as u32,
                &Color::red(),
            );
            proof {
                let all = self@.food_drawings();
                assert(all.take(i + 1) =~= all.take(i as int).push(all[i as int]));
            }
            i += 1;
        }
        assert(self@.food_drawings().take(i as int) =~= self@.food_drawings());
    }

    /// The world position of a tile: the grid is centred on the origin.
    pub fn to_world(&self, point: &Point) -> (world: Point)
        requires
            self.wf(),
            self@.maps_to_world(*point),
        ensures
            world == self@.to_world(*point),
    {
        let half_size_x: i32 = self.tiles_x * self.tile_size / 2;
        let half_size_y: i32 = self.tiles_y * self.tile_size / 2;
        Point {
            x: -half_size_x + point.x * self.tile_size,
            y: -half_size_y + point.y * self.tile_size,
        }
    }

    /// The tile count of the horizontal axis.
    pub fn tiles_x(&self) -> (tiles: i32)
        ensures
            tiles == self@.tiles_x,
    {
        self.tiles_x
    }

    /// The tile count of the vertical axis.
    pub fn tiles_y(&self) -> (tiles: i32)
        ensures
            tiles == self@.tiles_y,
    {
        self.tiles_y
    }

    /// The number of entries eaten so far.
    pub fn score(&self) -> (score: u32)
        ensures
            score == self@.score,
    {
        self.score
    }

    /// The ticks between two movements.
    pub fn ticks_per_movement(&self) -> (ticks: u32)
        ensures
            ticks == self@.ticks_per_movement,
    {
        self.ticks_per_movement
    }

    /// The ticks since the last movement.
    pub fn game_ticks(&self) -> (ticks: u32)
        ensures
            ticks == self@.game_ticks,
    {
        self.game_ticks
    }

    /// The snake.
    pub fn snake(&self) -> (snake: &Snake)
        ensures
            snake@ == self@.snake,
    {
        &self.snake
    }

    /// The food entries.
    pub fn food(&self) -> (food: &Vec<Point>)
        ensures
            food@ == self@.food,
    {
        &self.food
    }
}

impl GameView {
    /// A tick takes a game that is valid to one that is valid, wherever the
    /// new food may fall.
    pub proof fn lemma_tick_keeps_valid(self, fresh: Point)
        requires
            self.valid(),
            crate::food::spawnable(fresh, self.tiles_x, self.tiles_y),
        ensures
            self.ticked(fresh).valid(),
    {
        if self.moves_now() {
            let next = self.next_head();
            let after = self.ticked(fresh);
            self.food.index_of_first_ensures(next);
            let expand = self.food.index_of_first(next) is Some;
            self.snake.lemma_move_keeps_valid(next, expand);
            assert(self.on_grid(self.snake.head()));
            assert(self.on_grid(next));
            assert forall|i: int| 0 <= i < after.snake.body.len() implies self.on_grid(
                #[trigger] after.snake.body[i],
            ) by {
                if !self.snake.collides_at(next) && i > 0 {
                    assert(after.snake.body[i] == self.snake.body[i - 1]);
                }
            }
        }
    }

    /// However many ticks pass and wherever new food falls, the game stays
    /// valid: it keeps its full count of food, and the cadence never drops
    /// below `MIN_TICKS`.
    pub proof fn lemma_ticks_keep_valid(self, fresh: Seq<Point>)
        requires
            self.valid(),
            crate::food::all_spawnable(fresh, self.tiles_x, self.tiles_y),
        ensures
            self.ticked_all(fresh).valid(),
            self.ticked_all(fresh).food.len() == FOOD_COUNT,
            self.ticked_all(fresh).ticks_per_movement >= MIN_TICKS,
            self.ticked_all(fresh).tiles_x == self.tiles_x,
            self.ticked_all(fresh).tiles_y == self.tiles_y,
        decreases fresh.len(),
    {
        if fresh.len() > 0 {
            self.lemma_ticks_keep_valid(fresh.drop_last());
            self.ticked_all(fresh.drop_last()).lemma_tick_keeps_valid(fresh.last());
        }
    }

    /// A tick that eats scores exactly one point and quickens the cadence
    /// by one tick unless it is at `MIN_TICKS` already; any other tick
    /// leaves score and cadence alone.
    pub proof fn lemma_tick_scores_what_it_eats(self, fresh: Point)
        requires
            self.valid(),
            self.can_tick(),
        ensures
            self.eats() ==> self.ticked(fresh).score == self.score + 1,
            self.eats() && self.ticks_per_movement > MIN_TICKS ==> self.ticked(
                fresh,
            ).ticks_per_movement == self.ticks_per_movement - 1,
            self.eats() && self.ticks_per_movement == MIN_TICKS ==> self.ticked(
                fresh,
            ).ticks_per_movement == MIN_TICKS,
            !self.eats() ==> self.ticked(fresh).score == self.score,
            !self.eats() ==> self.ticked(fresh).ticks_per_movement == self.ticks_per_movement,
    {
        self.food.index_of_first_ensures(self.next_head());
    }

    /// After `n` points in a row the score is up by exactly `n`, and the
    /// cadence is down by `n` ticks or at `MIN_TICKS`, whichever is more.
    pub proof fn lemma_scoring(self, n: nat)
        requires
            MIN_TICKS <= self.ticks_per_movement,
            self.score + n <= u32::MAX,
        ensures
            self.scored_times(n).score == self.score + n,
            self.scored_times(n).ticks_per_movement == if self.ticks_per_movement - n
                > MIN_TICKS {
                self.ticks_per_movement - n
            } else {
                MIN_TICKS as int
            },
            self.scored_times(n).ticks_per_movement >= MIN_TICKS,
        decreases n,
    {
        if n > 0 {
            self.lemma_scoring((n - 1) as nat);
        }
    }
}

} // verus!

use snake::game_state::State;
use snake::input::Intent;
use snake::point::{Direction, Point};
use snake::renderer::{Color, DrawCommand, DrawList};
use snake::snake_game::{SnakeGame, MAX_TILES, MIN_TICKS, START_TICKS, TILE_SIZE};

fn p(x: i32, y: i32) -> Point {
    Point { x, y }
}

/// Food in the corner columns, out of the way of a snake that starts at the
/// centre of a grid of sixteen tiles or more.
fn far_food() -> [Point; 4] {
    [p(0, 0), p(1, 0), p(2, 0), p(3, 0)]
}

fn tick_times(game: &mut SnakeGame, times: u32, fresh: Point) {
    for _ in 0..times {
        assert!(game.tick_with(fresh).is_none());
    }
}

#[test]
fn constants() {
    assert_eq!(TILE_SIZE, 32);
    assert_eq!(START_TICKS, 30);
    assert_eq!(MIN_TICKS, 5);
    assert_eq!(MAX_TILES, (i32::MAX - 32) / 32);
}

#[test]
fn a_new_game_starts_centred_and_slow() {
    let game = SnakeGame::new(16, 16);
    assert_eq!(game.tiles_x(), 16);
    assert_eq!(game.tiles_y(), 16);
    assert_eq!(game.snake().parts(), &vec![p(8, 8)]);
    assert_eq!(game.snake().direction(), Direction::North);
    assert_eq!(game.score(), 0);
    assert_eq!(game.game_ticks(), 0);
    assert_eq!(game.ticks_per_movement(), 30);
    assert_eq!(game.food().len(), 4);
}

#[test]
fn a_new_game_places_food_in_the_half_open_range() {
    for _ in 0..200 {
        let game = SnakeGame::new(5, 3);
        assert_eq!(game.snake().parts(), &vec![p(2, 1)]);
        for food in game.food() {
            assert!(0 <= food.x && food.x < 5);
            assert!(0 <= food.y && food.y < 3);
        }
    }
}

#[test]
fn a_new_game_moves_on_the_thirtieth_tick() {
    let mut game = SnakeGame::new(16, 16);
    for tick in 1..30 {
        assert!(game.tick().is_none());
        assert_eq!(game.snake().parts(), &vec![p(8, 8)]);
        assert_eq!(game.game_ticks(), tick);
    }
    assert!(game.tick().is_none());
    assert_eq!(game.snake().parts()[0], p(8, 7));
    assert_eq!(game.game_ticks(), 0);
    assert_eq!(game.food().len(), 4);
}

#[test]
fn a_game_with_given_food_keeps_it_in_order() {
    let food = [p(3, 4), p(0, 0), p(15, 15), p(3, 4)];
    let game = SnakeGame::with_food(16, 16, food);
    assert_eq!(game.food(), &food.to_vec());
    assert_eq!(game.snake().parts(), &vec![p(8, 8)]);
    assert_eq!(game.score(), 0);
    assert_eq!(game.ticks_per_movement(), 30);
}

#[test]
fn the_centre_of_an_odd_grid_rounds_down() {
    let game = SnakeGame::with_food(1, 7, [p(0, 0), p(0, 1), p(0, 2), p(0, 3)]);
    assert_eq!(game.snake().parts(), &vec![p(0, 3)]);
}

#[test]
fn food_may_start_under_the_snake() {
    let game = SnakeGame::with_food(16, 16, [p(8, 8), p(8, 8), p(0, 0), p(1, 1)]);
    assert_eq!(game.food()[0], game.snake().parts()[0]);
}

#[test]
fn a_plain_movement_keeps_score_cadence_and_food() {
    let mut game = SnakeGame::with_food(16, 16, far_food());
    tick_times(&mut game, 30, p(9, 9));
    assert_eq!(game.snake().parts(), &vec![p(8, 7)]);
    assert_eq!(game.score(), 0);
    assert_eq!(game.ticks_per_movement(), 30);
    assert_eq!(game.food(), &far_food().to_vec());
    assert_eq!(game.game_ticks(), 0);
}

#[test]
fn eating_scores_grows_and_replaces_the_food() {
    let mut game = SnakeGame::with_food(16, 16, [p(0, 0), p(8, 7), p(2, 0), p(3, 0)]);
    tick_times(&mut game, 29, p(9, 9));
    assert_eq!(game.score(), 0);
    assert!(game.tick_with(p(9, 9)).is_none());
    assert_eq!(game.score(), 1);
    assert_eq!(game.ticks_per_movement(), 29);
    assert_eq!(game.snake().parts(), &vec![p(8, 7), p(8, 8)]);
    assert_eq!(game.food(), &vec![p(0, 0), p(3, 0), p(2, 0), p(9, 9)]);
    assert_eq!(game.game_ticks(), 0);
}

#[test]
fn only_the_first_of_two_entries_on_a_tile_is_eaten() {
    let mut game = SnakeGame::with_food(16, 16, [p(8, 7), p(8, 7), p(2, 0), p(3, 0)]);
    tick_times(&mut game, 30, p(9, 9));
    assert_eq!(game.score(), 1);
    assert_eq!(game.food(), &vec![p(3, 0), p(8, 7), p(2, 0), p(9, 9)]);
}

#[test]
fn the_cadence_quickens_after_a_meal() {
    let mut game = SnakeGame::with_food(16, 16, [p(8, 7), p(1, 0), p(2, 0), p(3, 0)]);
    tick_times(&mut game, 30, p(0, 0));
    assert_eq!(game.ticks_per_movement(), 29);
    tick_times(&mut game, 28, p(0, 0));
    assert_eq!(game.snake().parts()[0], p(8, 7));
    assert_eq!(game.game_ticks(), 28);
    tick_times(&mut game, 1, p(0, 0));
    assert_eq!(game.snake().parts()[0], p(8, 6));
    assert_eq!(game.game_ticks(), 0);
}

/// Lets the snake eat on every movement by putting the replacement food on
/// the tile after the next one.
fn eat_in_a_row(game: &mut SnakeGame, meals: u32) {
    for meal in 0..meals {
        let cadence = game.ticks_per_movement();
        let head = game.snake().parts()[0];
        let score = game.score();
        for _ in 0..cadence {
            assert!(game.tick_with(p(head.x, head.y - 2)).is_none());
        }
        assert_eq!(game.score(), score + 1);
        assert_eq!(game.snake().parts()[0], p(head.x, head.y - 1));
        assert_eq!(game.snake().parts().len() as u32, meal + 2);
        assert_eq!(game.food().len(), 4);
        let expected = if cadence > 5 { cadence - 1 } else { 5 };
        assert_eq!(game.ticks_per_movement(), expected);
    }
}

#[test]
fn each_meal_scores_one_and_the_cadence_stops_at_five() {
    let mut game = SnakeGame::with_food(100, 100, [p(50, 49), p(1, 0), p(2, 0), p(3, 0)]);
    eat_in_a_row(&mut game, 25);
    assert_eq!(game.score(), 25);
    assert_eq!(game.ticks_per_movement(), 5);
    eat_in_a_row_from(&mut game, 25, 15);
    assert_eq!(game.score(), 40);
    assert_eq!(game.ticks_per_movement(), 5);
    assert_eq!(game.snake().parts().len(), 41);
}

fn eat_in_a_row_from(game: &mut SnakeGame, eaten: u32, meals: u32) {
    for meal in 0..meals {
        let head = game.snake().parts()[0];
        for _ in 0..game.ticks_per_movement() {
            assert!(game.tick_with(p(head.x, head.y - 2)).is_none());
        }
        assert_eq!(game.score(), eaten + meal + 1);
        assert!(game.ticks_per_movement() >= 5);
        assert_eq!(game.food().len(), 4);
    }
}

#[test]
fn give_score_adds_one_point_and_quickens_the_cadence() {
    let mut game = SnakeGame::with_food(16, 16, far_food());
    game.give_score();
    assert_eq!(game.score(), 1);
    assert_eq!(game.ticks_per_movement(), 29);
    assert_eq!(game.game_ticks(), 0);
    assert_eq!(game.snake().parts(), &vec![p(8, 8)]);
    assert_eq!(game.food(), &far_food().to_vec());
}

#[test]
fn give_score_never_takes_the_cadence_below_five() {
    let mut game = SnakeGame::with_food(16, 16, far_food());
    for point in 1..=40u32 {
        game.give_score();
        assert_eq!(game.score(), point);
        let expected = if point < 25 { 30 - point } else { 5 };
        assert_eq!(game.ticks_per_movement(), expected);
    }
}

#[test]
fn a_game_scored_late_in_its_cadence_moves_on_the_next_tick() {
    let mut game = SnakeGame::with_food(16, 16, far_food());
    tick_times(&mut game, 29, p(0, 0));
    game.give_score();
    game.give_score();
    assert_eq!(game.game_ticks(), 29);
    assert_eq!(game.ticks_per_movement(), 28);
    tick_times(&mut game, 1, p(0, 0));
    assert_eq!(game.game_ticks(), 0);
    assert_eq!(game.snake().parts(), &vec![p(8, 7)]);
}

#[test]
fn a_tick_fits_while_the_score_has_room() {
    let mut game = SnakeGame::with_food(16, 16, [p(8, 7), p(1, 0), p(2, 0), p(3, 0)]);
    for _ in 0..30 {
        assert!(game.tick_fits());
        assert!(game.tick_with(p(0, 0)).is_none());
    }
    assert_eq!(game.score(), 1);
    assert!(game.tick_fits());
}

#[test]
fn the_food_count_stays_four_with_random_replacements() {
    let mut game = SnakeGame::new(3, 3);
    let turns = [Direction::East, Direction::South, Direction::West, Direction::North];
    let mut over = false;
    for step in 0..3000 {
        if step % 7 == 0 {
            game.change_direction(turns[(step / 7) % 4]);
        }
        if game.tick().is_some() {
            over = true;
            break;
        }
        assert_eq!(game.food().len(), 4);
        assert!(game.ticks_per_movement() >= 5);
        for food in game.food() {
            assert!(0 <= food.x && food.x < 3 && 0 <= food.y && food.y < 3);
        }
        for part in game.snake().parts() {
            assert!(0 <= part.x && part.x <= 3 && 0 <= part.y && part.y <= 3);
        }
    }
    assert_eq!(game.food().len(), 4);
    assert!(over || game.score() as usize + 1 == game.snake().parts().len());
}

#[test]
fn the_snake_wraps_to_the_far_edge() {
    let mut game = SnakeGame::with_food(16, 16, far_food());
    for _ in 0..8 {
        tick_times(&mut game, 30, p(0, 0));
    }
    assert_eq!(game.snake().parts(), &vec![p(8, 0)]);
    tick_times(&mut game, 30, p(0, 0));
    assert_eq!(game.snake().parts(), &vec![p(8, 16)]);
    tick_times(&mut game, 30, p(0, 0));
    assert_eq!(game.snake().parts(), &vec![p(8, 15)]);
}

#[test]
fn the_snake_reaches_a_column_where_food_never_falls() {
    let mut game = SnakeGame::with_food(16, 16, far_food());
    game.change_direction(Direction::East);
    for _ in 0..8 {
        tick_times(&mut game, 30, p(0, 0));
    }
    assert_eq!(game.snake().parts(), &vec![p(16, 8)]);
    tick_times(&mut game, 30, p(0, 0));
    assert_eq!(game.snake().parts(), &vec![p(0, 8)]);
}

#[test]
fn a_collision_hands_over_to_a_fresh_menu() {
    let mut game = SnakeGame::with_food(16, 16, [p(8, 7), p(1, 0), p(2, 0), p(3, 0)]);
    tick_times(&mut game, 30, p(0, 0));
    assert_eq!(game.snake().parts(), &vec![p(8, 7), p(8, 8)]);
    game.change_direction(Direction::South);
    tick_times(&mut game, 28, p(0, 0));
    match game.tick_with(p(0, 0)) {
        Some(State::Menu(menu)) => {
            assert_eq!(menu.selected(), 0);
            assert!(!menu.play_requested());
            assert!(!menu.quit_requested());
        }
        _ => panic!("the collision did not lead to the menu"),
    }
    assert_eq!(game.snake().parts(), &vec![p(8, 7), p(8, 8)]);
    assert_eq!(game.score(), 1);
    assert_eq!(game.game_ticks(), 0);
}

#[test]
fn a_collision_with_random_replacement_hands_over_to_a_fresh_menu() {
    let mut game = SnakeGame::with_food(16, 16, [p(8, 7), p(1, 0), p(2, 0), p(3, 0)]);
    for _ in 0..30 {
        assert!(game.tick().is_none());
    }
    game.change_direction(Direction::South);
    for _ in 0..28 {
        assert!(game.tick().is_none());
    }
    match game.tick() {
        Some(State::Menu(menu)) => assert_eq!(menu.selected(), 0),
        _ => panic!("the collision did not lead to the menu"),
    }
}

#[test]
fn food_under_the_body_is_eaten_before_the_collision_ends_the_game() {
    let mut game = SnakeGame::with_food(16, 16, [p(8, 7), p(1, 0), p(2, 0), p(3, 0)]);
    tick_times(&mut game, 30, p(8, 8));
    assert_eq!(game.food(), &vec![p(3, 0), p(1, 0), p(2, 0), p(8, 8)]);
    game.change_direction(Direction::South);
    tick_times(&mut game, 28, p(5, 5));
    assert!(matches!(game.tick_with(p(5, 5)), Some(State::Menu(_))));
    assert_eq!(game.score(), 2);
    assert_eq!(game.ticks_per_movement(), 28);
    assert_eq!(game.food(), &vec![p(3, 0), p(1, 0), p(2, 0), p(5, 5)]);
    assert_eq!(game.snake().parts(), &vec![p(8, 7), p(8, 8)]);
}

#[test]
fn directional_intents_set_the_heading() {
    let mut game = SnakeGame::with_food(16, 16, far_food());
    game.handle_input(&vec![Intent::Down]);
    assert_eq!(game.snake().direction(), Direction::South);
    game.handle_input(&vec![Intent::Left]);
    assert_eq!(game.snake().direction(), Direction::West);
    game.handle_input(&vec![Intent::Right]);
    assert_eq!(game.snake().direction(), Direction::East);
    game.handle_input(&vec![Intent::Up]);
    assert_eq!(game.snake().direction(), Direction::North);
}

#[test]
fn the_last_directional_intent_wins() {
    let mut game = SnakeGame::with_food(16, 16, far_food());
    game.handle_input(&vec![Intent::Left, Intent::Down, Intent::Confirm, Intent::Right, Intent::Cancel]);
    assert_eq!(game.snake().direction(), Direction::East);
}

#[test]
fn other_intents_keep_the_heading() {
    let mut game = SnakeGame::with_food(16, 16, far_food());
    game.handle_input(&vec![Intent::Confirm, Intent::Cancel]);
    assert_eq!(game.snake().direction(), Direction::North);
    game.handle_input(&Vec::new());
    assert_eq!(game.snake().direction(), Direction::North);
    assert_eq!(game.snake().parts(), &vec![p(8, 8)]);
    assert_eq!(game.game_ticks(), 0);
}

#[test]
fn change_direction_sets_the_heading() {
    let mut game = SnakeGame::with_food(16, 16, far_food());
    game.change_direction(Direction::West);
    assert_eq!(game.snake().direction(), Direction::West);
    tick_times(&mut game, 30, p(0, 0));
    assert_eq!(game.snake().parts(), &vec![p(7, 8)]);
}

#[test]
fn to_world_centres_the_grid_on_the_origin() {
    let game = SnakeGame::with_food(16, 16, far_food());
    assert_eq!(game.to_world(&p(0, 0)), p(-256, -256));
    assert_eq!(game.to_world(&p(8, 8)), p(0, 0));
    assert_eq!(game.to_world(&p(16, 16)), p(256, 256));
    assert_eq!(game.to_world(&p(3, 11)), p(-160, 96));
}

#[test]
fn to_world_on_an_odd_grid() {
    let game = SnakeGame::with_food(5, 3, [p(0, 0), p(1, 0), p(2, 0), p(3, 0)]);
    assert_eq!(game.to_world(&p(0, 0)), p(-80, -48));
    assert_eq!(game.to_world(&p(2, 1)), p(-16, -16));
}

fn rect(center_x: i32, center_y: i32, width: u32, height: u32, color: Color) -> DrawCommand {
    DrawCommand::Rect { center_x, center_y, width, height, color }
}

#[test]
fn render_draws_outline_food_snake_and_score() {
    let mut game = SnakeGame::with_food(16, 16, [p(8, 7), p(0, 0), p(15, 15), p(3, 11)]);
    tick_times(&mut game, 30, p(4, 4));
    let mut list = DrawList::new();
    game.render(&mut list);
    let expected = vec![
        rect(0, 0, 544, 544, Color::white()),
        rect(-160, 96, 16, 16, Color::red()),
        rect(-256, -256, 16, 16, Color::red()),
        rect(224, 224, 16, 16, Color::red()),
        rect(-128, -128, 16, 16, Color::red()),
        rect(0, -32, 32, 32, Color::blue()),
        rect(0, 0, 32, 32, Color::blue()),
        DrawCommand::Text { text: String::from("score 1"), x: 0, y: -296, color: Color::white() },
    ];
    assert_eq!(list.commands(), &expected);
}

#[test]
fn render_on_the_largest_grid() {
    let game = SnakeGame::with_food(MAX_TILES, 1, [p(0, 0), p(MAX_TILES - 1, 0), p(0, 0), p(0, 0)]);
    let mut list = DrawList::new();
    game.render(&mut list);
    assert_eq!(list.commands()[0], rect(0, 0, 2_147_483_616, 64, Color::white()));
    assert_eq!(list.commands()[2], rect(1_073_741_760, -16, 16, 16, Color::red()));
    assert_eq!(list.commands().len(), 7);
}

#[test]
fn render_changes_nothing_and_appends_to_what_was_drawn() {
    let game = SnakeGame::with_food(16, 16, far_food());
    let mut list = DrawList::new();
    game.render(&mut list);
    game.render(&mut list);
    assert_eq!(list.commands().len(), 14);
    assert_eq!(list.commands()[0], list.commands()[7]);
    assert_eq!(list.commands()[6], list.commands()[13]);
    assert_eq!(game.score(), 0);
}

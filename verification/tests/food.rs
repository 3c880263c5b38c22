use snake::food::{generate_food, respawn, FOOD_COUNT};
use snake::point::Point;

fn p(x: i32, y: i32) -> Point {
    Point { x, y }
}

#[test]
fn food_count_is_four() {
    assert_eq!(FOOD_COUNT, 4);
}

#[test]
fn generated_food_lies_in_the_half_open_range() {
    for _ in 0..2000 {
        let food = generate_food(16, 9);
        assert!(0 <= food.x && food.x < 16);
        assert!(0 <= food.y && food.y < 9);
    }
}

#[test]
fn generated_food_on_a_single_tile_is_that_tile() {
    for _ in 0..50 {
        assert_eq!(generate_food(1, 1), p(0, 0));
    }
}

#[test]
fn generated_food_reaches_every_tile_of_a_small_grid() {
    let mut seen = [[false; 2]; 3];
    for _ in 0..2000 {
        let food = generate_food(3, 2);
        seen[food.x as usize][food.y as usize] = true;
    }
    for column in seen {
        for tile in column {
            assert!(tile);
        }
    }
}

#[test]
fn respawn_moves_the_last_entry_into_the_gap() {
    let mut food = vec![p(1, 1), p(2, 2), p(3, 3), p(4, 4)];
    respawn(&mut food, 1, p(9, 9));
    assert_eq!(food, vec![p(1, 1), p(4, 4), p(3, 3), p(9, 9)]);
}

#[test]
fn respawn_of_the_last_entry_replaces_it() {
    let mut food = vec![p(1, 1), p(2, 2), p(3, 3), p(4, 4)];
    respawn(&mut food, 3, p(9, 9));
    assert_eq!(food, vec![p(1, 1), p(2, 2), p(3, 3), p(9, 9)]);
}

#[test]
fn respawn_keeps_the_count_over_many_meals() {
    let mut food = vec![p(1, 1), p(2, 2), p(3, 3), p(4, 4)];
    for round in 0..100 {
        respawn(&mut food, round % 4, generate_food(16, 16));
        assert_eq!(food.len(), 4);
    }
}

#[test]
fn respawn_may_repeat_a_tile() {
    let mut food = vec![p(1, 1), p(2, 2), p(3, 3), p(4, 4)];
    respawn(&mut food, 0, p(2, 2));
    assert_eq!(food, vec![p(4, 4), p(2, 2), p(3, 3), p(2, 2)]);
}

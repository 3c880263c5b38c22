//! Food: where it may appear and how an eaten entry is replaced.

use crate::point::Point;
use rand::Rng;
use vstd::prelude::*;

verus! {

/// The number of food entries a game keeps at all times.
pub const FOOD_COUNT: usize = 4;

/// Whether food may appear at `p` on a `tiles_x` by `tiles_y` grid: both
/// coordinates lie in the half-open range from zero to the tile count.
pub open spec fn spawnable(p: Point, tiles_x: i32, tiles_y: i32) -> bool {
    &&& 0 <= p.x < tiles_x
    &&& 0 <= p.y < tiles_y
}

/// Whether every entry of `food` lies where food may appear.
pub open spec fn all_spawnable(food: Seq<Point>, tiles_x: i32, tiles_y: i32) -> bool {
    forall|i: int| 0 <= i < food.len() ==> spawnable(#[trigger] food[i], tiles_x, tiles_y)
}

/// The food after the entry at `index` is eaten and `fresh` takes its
/// place: the last entry moves into the gap and `fresh` goes to the end.
pub open spec fn respawned(food: Seq<Point>, index: int, fresh: Point) -> Seq<Point> {
    food.update(index, food.last()).drop_last().push(fresh)
}

/// The food after a run of meals, each given as the index eaten and the
/// entry that replaces it.
pub open spec fn respawned_all(food: Seq<Point>, meals: Seq<(int, Point)>) -> Seq<Point>
    decreases meals.len(),
{
    if meals.len() == 0 {
        food
    } else {
        respawned(respawned_all(food, meals.drop_last()), meals.last().0, meals.last().1)
    }
}

/// Draws an integer from `0..bound` with `Rng::gen_range` on
/// `rand::thread_rng()`. Trusted: the result lies in the half-open range;
/// the call panics on an empty range, which `requires` leaves out.
#[verifier::external_body]
fn random_below(bound: i32) -> (r: i32)
    requires
        0 < bound,
    ensures
        0 <= r < bound,
{
    rand::thread_rng().gen_range(0, bound)
}

/// Picks a tile for new food at random. Nothing keeps it off the snake or
/// off other food.
pub fn generate_food(tiles_x: i32, tiles_y: i32) -> (food: Point)
    requires
        0 < tiles_x,
        0 < tiles_y,
    ensures
        spawnable(food, tiles_x, tiles_y),
{
    Point { x: random_below(tiles_x), y: random_below(tiles_y) }
}

/// Removes the eaten entry at `index` and appends `fresh`.
pub fn respawn(food: &mut Vec<Point>, index: usize, fresh: Point)
    requires
        index < old(food).len(),
    ensures
        final(food)@ == respawned(old(food)@, index as int, fresh),
{
    food.swap_remove(index);
    food.push(fresh);
}

/// Eating one entry and replacing it keeps the number of entries, takes
/// one occurrence of the eaten tile away and adds the new one.
pub proof fn lemma_respawn_exchanges_one(food: Seq<Point>, index: int, fresh: Point)
    requires
        0 <= index < food.len(),
    ensures
        respawned(food, index, fresh).len() == food.len(),
        respawned(food, index, fresh).to_multiset() == food.to_multiset().remove(
            food[index],
        ).insert(fresh),
{
    broadcast use {
        vstd::multiset::group_multiset_axioms,
        vstd::seq_lib::to_multiset_build,
        vstd::seq_lib::to_multiset_remove,
        vstd::seq_lib::to_multiset_update,
        vstd::seq_lib::to_multiset_contains,
    };

    let last = food.len() - 1;
    let swapped = food.update(index, food.last());
    let rest = swapped.drop_last();
    assert(rest =~= swapped.remove(last));
    assert(food.contains(food[index]) && food.contains(food.last()));
    assert(rest.to_multiset() =~= food.to_multiset().remove(food[index]));
}

/// However many entries are eaten and replaced, the number of entries
/// stays what it was.
pub proof fn lemma_food_count_is_constant(food: Seq<Point>, meals: Seq<(int, Point)>)
    requires
        forall|k: int| 0 <= k < meals.len() ==> 0 <= (#[trigger] meals[k]).0 < food.len(),
    ensures
        respawned_all(food, meals).len() == food.len(),
    decreases meals.len(),
{
    if meals.len() > 0 {
        lemma_food_count_is_constant(food, meals.drop_last());
    }
}

} // verus!

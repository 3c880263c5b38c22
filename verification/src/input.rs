//! What the player asks for: the keys that matter to the game, and the
//! intents that the scenes understand.

use crate::point::Direction;
use vstd::prelude::*;

verus! {

/// A key of the keyboard, as far as the game tells keys apart.
#[derive(Debug, Copy, Clone, PartialEq, Eq, Structural)]
pub enum Key {
    Up,
    Down,
    Left,
    Right,
    W,
    S,
    Return,
    Escape,
    /// Any other key.
    Other,
}

impl Key {
    /// The intent behind this key. The arrow keys steer in every scene and
    /// Return confirms; W and S stand for up and down in the menu only.
    /// Any other key means nothing.
    pub open spec fn intent(self, in_menu: bool) -> Option<Intent> {
        match self {
            Key::Up => Some(Intent::Up),
            Key::Down => Some(Intent::Down),
            Key::Left => Some(Intent::Left),
            Key::Right => Some(Intent::Right),
            Key::W => if in_menu {
                Some(Intent::Up)
            } else {
                None
            },
            Key::S => if in_menu {
                Some(Intent::Down)
            } else {
                None
            },
            Key::Return => Some(Intent::Confirm),
            _ => None,
        }
    }

    /// Returns the intent behind this key, if it has one.
    pub fn to_intent(&self, in_menu: bool) -> (intent: Option<Intent>)
        ensures
            intent == self.intent(in_menu),
    {
        match self {
            Key::Up => Some(Intent::Up),
            Key::Down => Some(Intent::Down),
            Key::Left => Some(Intent::Left),
            Key::Right => Some(Intent::Right),
            Key::W => if in_menu {
                Some(Intent::Up)
            } else {
                None
            },
            Key::S => if in_menu {
                Some(Intent::Down)
            } else {
                None
            },
            Key::Return => Some(Intent::Confirm),
            _ => None,
        }
    }
}

/// The intents behind `keys`, in the order of the keys; a key without an
/// intent leaves no trace.
pub open spec fn intents_of(keys: Seq<Key>, in_menu: bool) -> Seq<Intent>
    decreases keys.len(),
{
    if keys.len() == 0 {
        Seq::empty()
    } else {
        match keys.last().intent(in_menu) {
            Some(intent) => intents_of(keys.drop_last(), in_menu).push(intent),
            None => intents_of(keys.drop_last(), in_menu),
        }
    }
}

/// Turns the keys of a frame into its intents, in the order in which the
/// keys went down.
pub fn intents(keys: &Vec<Key>, in_menu: bool) -> (intents: Vec<Intent>)
    ensures
        intents@ == intents_of(keys@, in_menu),
{
    let mut intents: Vec<Intent> = Vec::new();
    let mut i: usize = 0;
    while i < keys.len()
        invariant
            i <= keys.len(),
            intents@ == intents_of(keys@.take(i as int), in_menu),
        decreases keys.len() - i,
    {
        proof {
            let done = keys@.take(i + 1);
            assert(done.drop_last() =~= keys@.take(i as int));
            assert(done.last() == keys@[i as int]);
        }
        match keys[i].to_intent(in_menu) {
            Some(intent) => intents.push(intent),
            None => {},
        }
        i += 1;
    }
    assert(keys@.take(i as int) =~= keys@);
    intents
}

/// An abstract input that is active during a frame.
#[derive(Debug, Copy, Clone, PartialEq, Eq, Structural)]
pub enum Intent {
    Up,
    Down,
    Left,
    Right,
    Confirm,
    Cancel,
}

impl Intent {
    /// The heading that a directional intent asks for.
    pub open spec fn heading(self) -> Option<Direction> {
        match self {
            Intent::Up => Some(Direction::North),
            Intent::Down => Some(Direction::South),
            Intent::Left => Some(Direction::West),
            Intent::Right => Some(Direction::East),
            _ => None,
        }
    }
}

/// The heading after `intents` are applied in order to `direction`: each
/// directional intent replaces the heading, every other intent keeps it.
pub open spec fn steer(direction: Direction, intents: Seq<Intent>) -> Direction
    decreases intents.len(),
{
    if intents.len() == 0 {
        direction
    } else {
        match intents.last().heading() {
            Some(asked) => asked,
            None => steer(direction, intents.drop_last()),
        }
    }
}

/// The last directional intent of a frame decides the heading; a frame
/// without one keeps it.
pub proof fn lemma_last_heading_wins(direction: Direction, intents: Seq<Intent>, last: int)
    requires
        0 <= last < intents.len(),
        intents[last].heading() is Some,
        forall|k: int| last < k < intents.len() ==> (#[trigger] intents[k]).heading() is None,
    ensures
        Some(steer(direction, intents)) == intents[last].heading(),
    decreases intents.len(),
{
    if last < intents.len() - 1 {
        lemma_last_heading_wins(direction, intents.drop_last(), last);
    }
}

/// A frame without a directional intent keeps the heading.
pub proof fn lemma_no_heading_keeps_direction(direction: Direction, intents: Seq<Intent>)
    requires
        forall|k: int| 0 <= k < intents.len() ==> (#[trigger] intents[k]).heading() is None,
    ensures
        steer(direction, intents) == direction,
    decreases intents.len(),
{
    if intents.len() > 0 {
        lemma_no_heading_keeps_direction(direction, intents.drop_last());
    }
}

} // verus!

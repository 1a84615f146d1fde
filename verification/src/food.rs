//! Food items and the weighted spawning table: a draw in `[0, 50)` is mapped
//! through disjoint ranges to one of five categories with different effects
//! on score and game state.
use vstd::prelude::*;
use crate::{BUFFER_HEIGHT, BUFFER_WIDTH};

verus! {

/// Behavioral tag of a food item, deciding its effect on score and state.
#[derive(Copy, Clone, PartialEq, Eq, Debug, Structural)]
pub enum FoodKind {
    /// Adds one point.
    Normal,
    /// Doubles the score.
    Special,
    /// Halves the score (integer truncation).
    Evil,
    /// Clears the whole inventory and forces a fresh batch.
    Bomb,
    /// Ends the game immediately.
    SuperEvil,
}

/// One food item: a grid cell plus its category.
#[derive(Copy, Clone, PartialEq, Eq, Debug, Structural)]
pub struct NewSnakeChar {
    pub x: usize,
    pub y: usize,
    pub kind: FoodKind,
}

impl NewSnakeChar {
    /// A food item is well formed when its cell lies inside the grid.
    pub open spec fn wf(self) -> bool {
        self.x < BUFFER_WIDTH && self.y < BUFFER_HEIGHT
    }

    /// Placeholder item: a normal food away from the grid center.
    pub fn new() -> (r: Self)
        ensures
            r.x == BUFFER_WIDTH / 2 + 10,
            r.y == BUFFER_HEIGHT / 2 + 10,
            r.kind == FoodKind::Normal,
            r.wf(),
    {
        NewSnakeChar { x: BUFFER_WIDTH / 2 + 10, y: BUFFER_HEIGHT / 2 + 10, kind: FoodKind::Normal }
    }

    /// Builds the item that a random draw in `[0, 50)` produces at `(x, y)`.
    pub fn from_draw(x: usize, y: usize, draw: u32) -> (r: Self)
        requires
            x < BUFFER_WIDTH,
            y < BUFFER_HEIGHT,
            draw < 50,
        ensures
            r.x == x,
            r.y == y,
            r.kind == kind_of_draw(draw),
            r.wf(),
    {
        let kind = if draw <= 25 {
            FoodKind::Normal
        } else if draw <= 33 {
            FoodKind::Special
        } else if draw <= 44 {
            FoodKind::Evil
        } else if draw <= 46 {
            FoodKind::Bomb
        } else {
            FoodKind::SuperEvil
        };
        NewSnakeChar { x, y, kind }
    }

    /// The character a food item shows, decided by its category.
    pub fn glyph(&self) -> (c: char)
        ensures
            c == glyph_of(self.kind),
    {
        match self.kind {
            FoodKind::Evil => 'X',
            FoodKind::SuperEvil => '!',
            _ => 'o',
        }
    }
}

/// The ordered table of (range, category) pairs for a draw in `[0, 50)`.
pub open spec fn kind_of_draw(draw: u32) -> FoodKind {
    if draw <= 25 {
        FoodKind::Normal
    } else if draw <= 33 {
        FoodKind::Special
    } else if draw <= 44 {
        FoodKind::Evil
    } else if draw <= 46 {
        FoodKind::Bomb
    } else {
        FoodKind::SuperEvil
    }
}

/// Display character of each food category.
pub open spec fn glyph_of(k: FoodKind) -> char {
    match k {
        FoodKind::Evil => 'X',
        FoodKind::SuperEvil => '!',
        _ => 'o',
    }
}

/// A food item occupies the cell `p`.
pub open spec fn hits(item: NewSnakeChar, p: (usize, usize)) -> bool {
    item.x == p.0 && item.y == p.1
}

/// Index of the first item at or after `k` that occupies `p`, or -1 when
/// none does: collision scans the inventory in insertion order and the
/// first match wins.
pub open spec fn first_hit_from(food: Seq<NewSnakeChar>, p: (usize, usize), k: int) -> int
    decreases food.len() - k,
{
    if k < 0 || k >= food.len() {
        -1
    } else if hits(food[k], p) {
        k
    } else {
        first_hit_from(food, p, k + 1)
    }
}

/// Index of the first inventory item occupying `p`, or -1 when none does.
pub open spec fn first_hit(food: Seq<NewSnakeChar>, p: (usize, usize)) -> int {
    first_hit_from(food, p, 0)
}

/// The first hit is the witness found by a front-to-back scan.
pub proof fn lemma_first_hit_found(food: Seq<NewSnakeChar>, p: (usize, usize), i: int, k: int)
    requires
        0 <= k <= i < food.len(),
        hits(food[i], p),
        forall|j: int| k <= j < i ==> !hits(food[j], p),
    ensures
        first_hit_from(food, p, k) == i,
    decreases i - k,
{
    if k < i {
        lemma_first_hit_found(food, p, i, k + 1);
    }
}

/// A scan that found nothing means there is no hit at all.
pub proof fn lemma_first_hit_none(food: Seq<NewSnakeChar>, p: (usize, usize), k: int)
    requires
        0 <= k <= food.len(),
        forall|j: int| k <= j < food.len() ==> !hits(food[j], p),
    ensures
        first_hit_from(food, p, k) == -1,
    decreases food.len() - k,
{
    if k < food.len() {
        lemma_first_hit_none(food, p, k + 1);
    }
}

/// A character can stand in a grid cell when its low byte is a printable
/// ASCII code (space through tilde).
pub open spec fn drawable_char(c: char) -> bool {
    0x20 <= (c as u32) % 256 <= 0x7e
}

/// Whether a character can be drawn in a grid cell.
pub fn char_drawable(c: char) -> (r: bool)
    ensures
        r == drawable_char(c),
{
    let n = (c as u32) % 256;
    0x20 <= n && n <= 0x7e
}

} // verus!

//! The game-state engine: snake body movement and growth, collision and
//! consumption resolution, weighted food spawning, and the three-state
//! lifecycle (welcome, playing, game over). The whole game is one
//! explicitly-owned state value driven from outside through `tick` and `key`.
use vstd::prelude::*;
use crate::food::{
    drawable_char, first_hit, glyph_of, hits, lemma_first_hit_found, lemma_first_hit_none,
    FoodKind, NewSnakeChar,
};
use crate::rng::{rand_init_of, rand_step_of, rng_new, rng_range};
use crate::{add1, BUFFER_HEIGHT, BUFFER_WIDTH};

verus! {

/// Most cells the snake body can occupy.
pub const BODY_CAP: usize = 100;

/// Most food items the inventory can hold: one per grid cell.
pub const FOOD_CAP: usize = BUFFER_WIDTH * BUFFER_HEIGHT;

/// Starting cell of the snake body.
pub const START_X: usize = 10;
/// Starting cell of the snake body.
pub const START_Y: usize = 10;

/// Heading of the snake, a unit step on the grid.
#[derive(Copy, Clone, PartialEq, Eq, Debug, Structural)]
pub enum Direction {
    Up,
    Down,
    Left,
    Right,
}

/// Horizontal step of a heading.
pub open spec fn dir_dx(d: Direction) -> int {
    match d {
        Direction::Left => -1,
        Direction::Right => 1,
        _ => 0,
    }
}

/// Vertical step of a heading.
pub open spec fn dir_dy(d: Direction) -> int {
    match d {
        Direction::Up => -1,
        Direction::Down => 1,
        _ => 0,
    }
}

/// Lifecycle tag of the game.
#[derive(Copy, Clone, PartialEq, Eq, Debug, Structural)]
pub enum GameMode {
    Welcome,
    Playing,
    GameOver,
}

/// What one movement step did.
#[derive(Copy, Clone, PartialEq, Eq, Debug, Structural)]
pub enum MoveOutcome {
    /// The head advanced one cell.
    Moved,
    /// The step would have left the grid: fatal, never a wrapped position.
    WallExit,
    /// The new head met an existing body cell: fatal.
    SelfCollision,
}

/// A decoded navigational key, as the input collaborator hands it over.
#[derive(Copy, Clone, PartialEq, Eq, Debug, Structural)]
pub enum RawInput {
    ArrowLeft,
    ArrowRight,
    ArrowUp,
    ArrowDown,
    /// The designated "start" key.
    Shift,
    /// Any navigational key the game ignores.
    Other,
}

/// One decoded key event: a navigational key or a printable character.
#[derive(Copy, Clone, PartialEq, Eq, Debug, Structural)]
pub enum KeyInput {
    Raw(RawInput),
    Unicode(char),
}

/// The whole game state: one long-lived value, exclusively owned, driven by
/// a periodic `tick` and an asynchronous stream of `key` events.
pub struct LetterMover {
    /// Trailing-letters buffer, cosmetic decoration of the snake.
    pub letters: Vec<char>,
    /// How many letters of the buffer are in use.
    pub num_letters: usize,
    /// Where the next letter goes, wrapping around the buffer.
    pub next_letter: usize,
    /// The snake body: front is the tail (oldest), back is the head.
    pub coordinates: Vec<(usize, usize)>,
    /// Current heading; movement follows it every tick while playing.
    pub direction: Direction,
    /// Horizontal delta of the last accepted direction key.
    pub dx: isize,
    /// Vertical delta of the last accepted direction key.
    pub dy: isize,
    /// Food inventory in insertion order; the first match wins on collision.
    pub food: Vec<NewSnakeChar>,
    /// Current score; saturates at the integer limit instead of overflowing.
    pub score: usize,
    /// Grow on the next move instead of shrinking the tail.
    pub is_digesting: bool,
    /// Lifecycle state.
    pub mode: GameMode,
    /// Best score over all rounds; monotonic across the game-over edge.
    pub hi_score: usize,
    /// Tick counter, used only to seed the food spawner.
    pub ticks: u64,
}

/// Smaller of two mathematical integers.
pub open spec fn min2(a: int, b: int) -> int {
    if a <= b {
        a
    } else {
        b
    }
}

/// Larger of two mathematical integers.
pub open spec fn max2(a: int, b: int) -> int {
    if a >= b {
        a
    } else {
        b
    }
}

/// A grid cell lies inside the fixed bounds; there is no wraparound.
pub open spec fn cell_in_bounds(c: (usize, usize)) -> bool {
    c.0 < BUFFER_WIDTH && c.1 < BUFFER_HEIGHT
}

/// All cells of a body are distinct.
pub open spec fn distinct_cells(s: Seq<(usize, usize)>) -> bool {
    forall|i: int, j: int| 0 <= i < j < s.len() ==> s[i] != s[j]
}

/// Some cell of the body equals `c`.
pub open spec fn contains_cell(s: Seq<(usize, usize)>, c: (usize, usize)) -> bool {
    exists|i: int| 0 <= i < s.len() && s[i] == c
}

/// The item one triple of draws produces: a position on the grid and a
/// category from the weighted table.
pub open spec fn item_of_draws(x: u32, y: u32, t: u32) -> NewSnakeChar {
    NewSnakeChar { x: x as usize, y: y as usize, kind: crate::food::kind_of_draw(t) }
}

/// One item of a spawn event: three ranged draws (column, row, category)
/// taken in order from the generator, and the state they leave behind.
pub open spec fn spawn_step(s: (u64, u64)) -> (NewSnakeChar, (u64, u64)) {
    let rx = rand_step_of(s, 0, BUFFER_WIDTH as u32);
    let ry = rand_step_of(rx.1, 0, BUFFER_HEIGHT as u32);
    let rt = rand_step_of(ry.1, 0, 50);
    (item_of_draws(rx.0, ry.0, rt.0), rt.1)
}

/// The generator state after the first `n` items of a spawn event seeded
/// with `seed`.
pub open spec fn spawn_state(seed: u64, n: int) -> (u64, u64)
    decreases n,
{
    if n <= 0 {
        rand_init_of(seed)
    } else {
        spawn_step(spawn_state(seed, n - 1)).1
    }
}

/// Item `i` of the batch that a spawn event seeded with `seed` produces:
/// deterministic replay given the seed.
pub open spec fn batch_item(seed: u64, i: int) -> NewSnakeChar {
    spawn_step(spawn_state(seed, i)).0
}

/// The inventory after one spawn event seeded with `seed`: the batch the
/// seed determines — three items, each an in-bounds position and a category
/// drawn from the weighted table — appended in order, dropping whatever
/// exceeds the overall capacity.
pub open spec fn spawn_rel(seed: u64, a: Seq<NewSnakeChar>, b: Seq<NewSnakeChar>) -> bool {
    &&& b.len() == min2(a.len() as int + 3, FOOD_CAP as int)
    &&& (forall|i: int| 0 <= i < a.len() ==> b[i] == a[i])
    &&& (forall|i: int|
        a.len() <= i < b.len() ==> (#[trigger] b[i]).wf() && b[i] == batch_item(
            seed,
            i - a.len(),
        ))
}

/// Score after consuming a food item: `Normal` adds one, `Special` doubles,
/// `Evil` halves with integer truncation; the additions saturate at the
/// integer limit rather than overflow.
pub open spec fn score_after(k: FoodKind, s: usize) -> usize {
    match k {
        FoodKind::Normal => if s < usize::MAX {
            (s + 1) as usize
        } else {
            usize::MAX
        },
        FoodKind::Special => if s <= usize::MAX / 2 {
            (s * 2) as usize
        } else {
            usize::MAX
        },
        FoodKind::Evil => (s / 2) as usize,
        _ => s,
    }
}

impl LetterMover {
    /// Well-formedness: the body is a nonempty bounded sequence of distinct
    /// in-bounds cells, the inventory is bounded and in-bounds, the letter
    /// buffer spans the grid width, and the motion deltas are unit steps.
    pub open spec fn wf(self) -> bool {
        &&& 1 <= self.coordinates@.len() <= BODY_CAP
        &&& (forall|i: int|
            0 <= i < self.coordinates@.len() ==> cell_in_bounds(#[trigger] self.coordinates@[i]))
        &&& distinct_cells(self.coordinates@)
        &&& self.food@.len() <= FOOD_CAP
        &&& (forall|i: int| 0 <= i < self.food@.len() ==> (#[trigger] self.food@[i]).wf())
        &&& self.letters@.len() == BUFFER_WIDTH
        &&& self.next_letter < BUFFER_WIDTH
        &&& 1 <= self.num_letters <= BUFFER_WIDTH
        &&& (self.dx == -1 || self.dx == 0 || self.dx == 1)
        &&& (self.dy == -1 || self.dy == 0 || self.dy == 1)
    }

    /// The head: the most recently added cell.
    pub open spec fn head_spec(self) -> (usize, usize) {
        self.coordinates@.last()
    }

    /// Where the head would move this tick, as unbounded integers.
    pub open spec fn next_x(self) -> int {
        self.head_spec().0 + dir_dx(self.direction)
    }

    /// Where the head would move this tick, as unbounded integers.
    pub open spec fn next_y(self) -> int {
        self.head_spec().1 + dir_dy(self.direction)
    }

    /// The candidate next head stays inside the grid.
    pub open spec fn next_in_bounds(self) -> bool {
        0 <= self.next_x() < BUFFER_WIDTH && 0 <= self.next_y() < BUFFER_HEIGHT
    }

    /// The candidate next head cell (meaningful when it is in bounds).
    pub open spec fn next_cell(self) -> (usize, usize) {
        (self.next_x() as usize, self.next_y() as usize)
    }

    /// This move will grow the body: a digestion is pending and there is room.
    pub open spec fn will_grow(self) -> bool {
        self.is_digesting && self.coordinates@.len() < BODY_CAP
    }

    /// The cells that survive this move, and hence the collision set for the
    /// candidate head: the whole body when a pending growth keeps the tail,
    /// otherwise the body without the tail cell, which this move vacates.
    pub open spec fn kept_body(self) -> Seq<(usize, usize)> {
        if self.will_grow() {
            self.coordinates@
        } else {
            self.coordinates@.skip(1)
        }
    }

    /// The candidate next head meets a cell that survives this move. Under
    /// normal, non-growth movement the vacating tail is excluded: chasing
    /// one's own tail is a legal move.
    pub open spec fn self_collides(self) -> bool {
        contains_cell(self.kept_body(), self.next_cell())
    }

    /// The body after a successful move: the new head is appended to the
    /// kept cells, so the length grows by one exactly on a pending growth.
    pub open spec fn advanced_body(self) -> Seq<(usize, usize)> {
        self.kept_body().push(self.next_cell())
    }

    /// The trailing-letters buffer is untouched.
    pub open spec fn same_letters(self, other: Self) -> bool {
        &&& other.letters@ == self.letters@
        &&& other.num_letters == self.num_letters
        &&& other.next_letter == self.next_letter
    }

    /// Heading and motion deltas are untouched.
    pub open spec fn same_steering(self, other: Self) -> bool {
        &&& other.direction == self.direction
        &&& other.dx == self.dx
        &&& other.dy == self.dy
    }

    /// Everything but the food inventory is untouched.
    pub open spec fn same_but_food(self, other: Self) -> bool {
        &&& self.same_letters(other)
        &&& self.same_steering(other)
        &&& other.coordinates@ == self.coordinates@
        &&& other.score == self.score
        &&& other.hi_score == self.hi_score
        &&& other.is_digesting == self.is_digesting
        &&& other.mode == self.mode
        &&& other.ticks == self.ticks
    }

    /// How one printable key event changes the trailing-letters buffer: a
    /// drawable character lands at the write position, which wraps around
    /// the buffer; anything else is ignored.
    pub open spec fn letters_push_rel(self, other: Self, c: char) -> bool {
        if drawable_char(c) {
            &&& other.letters@ == self.letters@.update(self.next_letter as int, c)
            &&& other.next_letter == (self.next_letter + 1) % (BUFFER_WIDTH as int)
            &&& other.num_letters == min2(self.num_letters as int + 1, BUFFER_WIDTH as int)
        } else {
            self.same_letters(other)
        }
    }

    /// How one printable key event changes the whole state: only the
    /// trailing-letters buffer moves; printable events are accepted in every
    /// lifecycle state.
    pub open spec fn unicode_rel(self, other: Self, c: char) -> bool {
        &&& self.letters_push_rel(other, c)
        &&& other.coordinates@ == self.coordinates@
        &&& other.food@ == self.food@
        &&& other.score == self.score
        &&& other.hi_score == self.hi_score
        &&& other.is_digesting == self.is_digesting
        &&& other.mode == self.mode
        &&& other.ticks == self.ticks
        &&& self.same_steering(other)
    }

    /// What one movement step does. On a fatal step (wall exit, or meeting a
    /// body cell that survives the move — the vacating tail is no obstacle)
    /// the game ends, the body stands as it was, and the high score absorbs
    /// the final score. Otherwise the head advances, growing by one exactly
    /// when a digestion was pending, and the pending digestion is consumed.
    pub open spec fn move_rel(self, other: Self, r: MoveOutcome) -> bool {
        &&& self.same_letters(other)
        &&& self.same_steering(other)
        &&& other.food@ == self.food@
        &&& other.score == self.score
        &&& other.ticks == self.ticks
        &&& if !self.next_in_bounds() {
            &&& r == MoveOutcome::WallExit
            &&& other.mode == GameMode::GameOver
            &&& other.coordinates@ == self.coordinates@
            &&& other.is_digesting == self.is_digesting
            &&& other.hi_score == max2(self.hi_score as int, self.score as int)
        } else if self.self_collides() {
            &&& r == MoveOutcome::SelfCollision
            &&& other.mode == GameMode::GameOver
            &&& other.coordinates@ == self.coordinates@
            &&& other.is_digesting == self.is_digesting
            &&& other.hi_score == max2(self.hi_score as int, self.score as int)
        } else {
            &&& r == MoveOutcome::Moved
            &&& other.mode == self.mode
            &&& other.coordinates@ == self.advanced_body()
            &&& !other.is_digesting
            &&& other.hi_score == self.hi_score
        }
    }

    /// What resolving the head against the food inventory does. The scan
    /// goes in insertion order and the first item under the head wins; at
    /// most one item is consumed per tick. `Bomb` clears the inventory and
    /// forces a fresh batch; `SuperEvil` ends the game with nothing else
    /// touched; the ordinary categories adjust the score, remove the item
    /// (order preserved) and replenish. Every consumption signals growth
    /// through the digestion flag except `SuperEvil`, and echoes the item's
    /// glyph into the trailing-letters buffer.
    pub open spec fn eat_rel(self, other: Self, r: Option<FoodKind>) -> bool {
        let p = self.head_spec();
        let h = first_hit(self.food@, p);
        &&& other.coordinates@ == self.coordinates@
        &&& self.same_steering(other)
        &&& other.ticks == self.ticks
        &&& if h == -1 {
            &&& r is None
            &&& other == self
        } else {
            let k = self.food@[h].kind;
            &&& r == Some(k)
            &&& self.letters_push_rel(other, glyph_of(k))
            &&& match k {
                FoodKind::SuperEvil => {
                    &&& other.mode == GameMode::GameOver
                    &&& other.food@ == self.food@
                    &&& other.score == self.score
                    &&& other.is_digesting == self.is_digesting
                    &&& other.hi_score == max2(self.hi_score as int, self.score as int)
                },
                FoodKind::Bomb => {
                    &&& other.mode == self.mode
                    &&& other.score == self.score
                    &&& other.is_digesting
                    &&& spawn_rel(self.ticks, Seq::empty(), other.food@)
                    &&& other.hi_score == self.hi_score
                },
                _ => {
                    &&& other.mode == self.mode
                    &&& other.score == score_after(k, self.score)
                    &&& other.is_digesting
                    &&& spawn_rel(self.ticks, self.food@.remove(h), other.food@)
                    &&& other.hi_score == self.hi_score
                },
            }
        }
    }

    /// What one tick does while playing: the body advances per `move_rel`;
    /// a fatal step ends the game with nothing else touched; otherwise the
    /// new head is resolved against the food inventory per `eat_rel`.
    pub open spec fn playing_tick_rel(self, other: Self) -> bool {
        &&& self.same_steering(other)
        &&& if !self.next_in_bounds() {
            &&& other.mode == GameMode::GameOver
            &&& other.coordinates@ == self.coordinates@
            &&& other.food@ == self.food@
            &&& other.score == self.score
            &&& other.hi_score == max2(self.hi_score as int, self.score as int)
            &&& other.is_digesting == self.is_digesting
            &&& self.same_letters(other)
        } else if self.self_collides() {
            &&& other.mode == GameMode::GameOver
            &&& other.coordinates@ == self.coordinates@
            &&& other.food@ == self.food@
            &&& other.score == self.score
            &&& other.hi_score == max2(self.hi_score as int, self.score as int)
            &&& other.is_digesting == self.is_digesting
            &&& self.same_letters(other)
        } else {
            &&& other.coordinates@ == self.advanced_body()
            &&& ({
                let h = first_hit(self.food@, self.next_cell());
                if h == -1 {
                    &&& other.mode == GameMode::Playing
                    &&& other.food@ == self.food@
                    &&& other.score == self.score
                    &&& !other.is_digesting
                    &&& other.hi_score == self.hi_score
                    &&& self.same_letters(other)
                } else {
                    let k = self.food@[h].kind;
                    &&& self.letters_push_rel(other, glyph_of(k))
                    &&& match k {
                        FoodKind::SuperEvil => {
                            &&& other.mode == GameMode::GameOver
                            &&& other.food@ == self.food@
                            &&& other.score == self.score
                            &&& !other.is_digesting
                            &&& other.hi_score == max2(self.hi_score as int, self.score as int)
                        },
                        FoodKind::Bomb => {
                            &&& other.mode == GameMode::Playing
                            &&& other.score == self.score
                            &&& other.is_digesting
                            &&& spawn_rel((self.ticks + 1) as u64, Seq::empty(), other.food@)
                            &&& other.hi_score == self.hi_score
                        },
                        _ => {
                            &&& other.mode == GameMode::Playing
                            &&& other.score == score_after(k, self.score)
                            &&& other.is_digesting
                            &&& spawn_rel((self.ticks + 1) as u64, self.food@.remove(h), other.food@)
                            &&& other.hi_score == self.hi_score
                        },
                    }
                }
            })
        }
    }

    /// Everything but the tick counter is untouched.
    pub open spec fn same_except_ticks(self, other: Self) -> bool {
        &&& self.same_letters(other)
        &&& self.same_steering(other)
        &&& other.coordinates@ == self.coordinates@
        &&& other.food@ == self.food@
        &&& other.score == self.score
        &&& other.hi_score == self.hi_score
        &&& other.is_digesting == self.is_digesting
        &&& other.mode == self.mode
    }

    /// What one tick does. The counter always advances; the welcome and
    /// game-over screens perform no game logic; while playing, the snake
    /// moves and the result is resolved against the food inventory.
    pub open spec fn tick_rel(self, other: Self) -> bool {
        &&& other.ticks == self.ticks + 1
        &&& match self.mode {
            GameMode::Welcome => self.same_except_ticks(other),
            GameMode::GameOver => self.same_except_ticks(other),
            GameMode::Playing => self.playing_tick_rel(other),
        }
    }

    /// A direction key was accepted: the heading and its deltas change and
    /// nothing else does.
    pub open spec fn steer_to(self, other: Self, d: Direction) -> bool {
        &&& other.direction == d
        &&& other.dx == dir_dx(d)
        &&& other.dy == dir_dy(d)
        &&& self.same_letters(other)
        &&& other.coordinates@ == self.coordinates@
        &&& other.food@ == self.food@
        &&& other.score == self.score
        &&& other.hi_score == self.hi_score
        &&& other.is_digesting == self.is_digesting
        &&& other.mode == self.mode
        &&& other.ticks == self.ticks
    }

    /// The restart edge out of game over: score, body, inventory, heading,
    /// digestion and tick counter reset, a fresh batch is spawned, and the
    /// recorded high score survives.
    pub open spec fn restart_rel(self, other: Self) -> bool {
        &&& other.mode == GameMode::Playing
        &&& other.score == 0
        &&& other.hi_score == self.hi_score
        &&& other.coordinates@.len() == 1 && other.coordinates@[0] == (START_X, START_Y)
        &&& other.direction == Direction::Right && other.dx == 1 && other.dy == 0
        &&& !other.is_digesting
        &&& other.ticks == 0
        &&& spawn_rel(0, Seq::empty(), other.food@)
        &&& self.same_letters(other)
    }

    /// The start edge out of the welcome screen: play begins and the first
    /// food batch is spawned; everything else is untouched.
    pub open spec fn start_rel(self, other: Self) -> bool {
        &&& other.mode == GameMode::Playing
        &&& spawn_rel(self.ticks, self.food@, other.food@)
        &&& other.coordinates@ == self.coordinates@
        &&& other.score == self.score
        &&& other.hi_score == self.hi_score
        &&& other.is_digesting == self.is_digesting
        &&& other.ticks == self.ticks
        &&& self.same_steering(other)
        &&& self.same_letters(other)
    }

    /// What one navigational key does, filtered by state: direction keys
    /// act only while playing and only orthogonally to the current motion
    /// (no reversal into the neck — a reversing key is silently ignored);
    /// the down arrow doubles as restart in game over; shift starts the game
    /// from the welcome screen; everything else is ignored.
    pub open spec fn raw_rel(self, other: Self, k: RawInput) -> bool {
        match k {
            RawInput::ArrowLeft => if self.mode == GameMode::Playing && self.dx == 0 {
                self.steer_to(other, Direction::Left)
            } else {
                other == self
            },
            RawInput::ArrowRight => if self.mode == GameMode::Playing && self.dx == 0 {
                self.steer_to(other, Direction::Right)
            } else {
                other == self
            },
            RawInput::ArrowUp => if self.mode == GameMode::Playing && self.dy == 0 {
                self.steer_to(other, Direction::Up)
            } else {
                other == self
            },
            RawInput::ArrowDown => if self.mode == GameMode::GameOver {
                self.restart_rel(other)
            } else if self.mode == GameMode::Playing && self.dy == 0 {
                self.steer_to(other, Direction::Down)
            } else {
                other == self
            },
            RawInput::Shift => if self.mode == GameMode::Welcome {
                self.start_rel(other)
            } else {
                other == self
            },
            RawInput::Other => other == self,
        }
    }

    /// What one decoded key event does.
    pub open spec fn key_rel(self, other: Self, k: KeyInput) -> bool {
        match k {
            KeyInput::Raw(raw) => self.raw_rel(other, raw),
            KeyInput::Unicode(c) => self.unicode_rel(other, c),
        }
    }
}

impl Default for LetterMover {
    /// The initial game: welcome screen, a single starting body cell, no
    /// food, zero scores, heading right with no motion delta recorded yet.
    fn default() -> (r: Self)
        ensures
            r.wf(),
            r.mode == GameMode::Welcome,
            r.score == 0 && r.hi_score == 0 && r.ticks == 0,
            !r.is_digesting,
            r.coordinates@.len() == 1 && r.coordinates@[0] == (START_X, START_Y),
            r.food@.len() == 0,
            r.direction == Direction::Right && r.dx == 0 && r.dy == 0,
            r.num_letters == 1 && r.next_letter == 1,
            forall|i: int| 0 <= i < BUFFER_WIDTH ==> r.letters@[i] == 'o',
    {
        let letters: Vec<char> = vec!['o'; BUFFER_WIDTH];
        let mut coordinates: Vec<(usize, usize)> = Vec::new();
        coordinates.push((START_X, START_Y));
        LetterMover {
            letters,
            num_letters: 1,
            next_letter: 1,
            coordinates,
            direction: Direction::Right,
            dx: 0,
            dy: 0,
            food: Vec::new(),
            score: 0,
            is_digesting: false,
            mode: GameMode::Welcome,
            hi_score: 0,
            ticks: 0,
        }
    }
}

/// Some cell of the body at or after `start` equals `(x, y)`.
fn body_contains_from(v: &Vec<(usize, usize)>, start: usize, x: usize, y: usize) -> (r: bool)
    requires
        start <= v@.len(),
    ensures
        r == contains_cell(v@.skip(start as int), (x, y)),
{
    let mut i: usize = start;
    let mut found = false;
    while i < v.len()
        invariant
            start <= i <= v@.len(),
            found == exists|j: int| start <= j < i && v@[j] == (x, y),
        decreases v@.len() - i,
    {
        let c = v[i];
        if c.0 == x && c.1 == y {
            assert(v@[i as int] == (x, y));
            found = true;
        }
        i = i + 1;
    }
    proof {
        let tail = v@.skip(start as int);
        if found {
            let j = choose|j: int| start <= j < v@.len() && v@[j] == (x, y);
            assert(tail[j - start] == (x, y));
        } else {
            assert forall|j: int| 0 <= j < tail.len() implies tail[j] != (x, y) by {
                assert(tail[j] == v@[j + start]);
            }
        }
    }
    found
}

impl LetterMover {
    /// Enters the game-over state; the high score absorbs the final score.
    fn enter_game_over(&mut self)
        ensures
            final(self).mode == GameMode::GameOver,
            final(self).hi_score == max2(old(self).hi_score as int, old(self).score as int),
            final(self).coordinates@ == old(self).coordinates@,
            final(self).food@ == old(self).food@,
            final(self).score == old(self).score,
            final(self).ticks == old(self).ticks,
            final(self).is_digesting == old(self).is_digesting,
            old(self).same_letters(*final(self)),
            old(self).same_steering(*final(self)),
    {
        self.mode = GameMode::GameOver;
        if self.score > self.hi_score {
            self.hi_score = self.score;
        }
    }

    /// One movement step of the snake body: computes the candidate next head
    /// from the heading, rejects as fatal a step out of bounds or into a
    /// body cell that survives the move (the vacating tail is no obstacle on
    /// a normal, non-growth step), and otherwise advances, growing exactly
    /// when a digestion was pending (a pending growth is dropped if the body
    /// is at capacity).
    pub fn update_location(&mut self) -> (r: MoveOutcome)
        requires
            old(self).wf(),
            old(self).mode == GameMode::Playing,
        ensures
            final(self).wf(),
            old(self).move_rel(*final(self), r),
    {
        let len = self.coordinates.len();
        let head = self.coordinates[len - 1];
        let mut ok = true;
        let mut nx: usize = head.0;
        let mut ny: usize = head.1;
        match self.direction {
            Direction::Up => {
                if head.1 > 0 {
                    ny = head.1 - 1;
                } else {
                    ok = false;
                }
            },
            Direction::Down => {
                if head.1 + 1 < BUFFER_HEIGHT {
                    ny = head.1 + 1;
                } else {
                    ok = false;
                }
            },
            Direction::Left => {
                if head.0 > 0 {
                    nx = head.0 - 1;
                } else {
                    ok = false;
                }
            },
            Direction::Right => {
                if head.0 + 1 < BUFFER_WIDTH {
                    nx = head.0 + 1;
                } else {
                    ok = false;
                }
            },
        }
        assert(ok == self.next_in_bounds());
        if !ok {
            self.enter_game_over();
            return MoveOutcome::WallExit;
        }
        assert((nx, ny) == old(self).next_cell());
        let grow = self.is_digesting && self.coordinates.len() < BODY_CAP;
        let start: usize = if grow {
            0
        } else {
            1
        };
        proof {
            assert(old(self).kept_body() =~= self.coordinates@.skip(start as int));
        }
        if body_contains_from(&self.coordinates, start, nx, ny) {
            self.enter_game_over();
            return MoveOutcome::SelfCollision;
        }
        proof {
            assert(forall|i: int|
                0 <= i < old(self).kept_body().len() ==> old(self).kept_body()[i] != (nx, ny));
        }
        if grow {
            self.coordinates.push((nx, ny));
        } else {
            self.coordinates.remove(0);
            self.coordinates.push((nx, ny));
            proof {
                assert(self.coordinates@ =~= old(self).coordinates@.skip(1).push((nx, ny)));
            }
        }
        self.is_digesting = false;
        proof {
            let pre = old(self).coordinates@;
            let kept = old(self).kept_body();
            let post = self.coordinates@;
            assert(post =~= kept.push((nx, ny)));
            assert forall|i: int, j: int| 0 <= i < j < post.len() implies post[i] != post[j] by {
                if !old(self).will_grow() {
                    assert(i < post.len() - 1 ==> post[i] == pre[i + 1]);
                    assert(j < post.len() - 1 ==> post[j] == pre[j + 1]);
                }
                if j == post.len() - 1 {
                    assert(post[i] == kept[i] && post[j] == (nx, ny));
                }
            }
            assert forall|i: int| 0 <= i < post.len() implies cell_in_bounds(
                #[trigger] post[i],
            ) by {
                if i < post.len() - 1 && !old(self).will_grow() {
                    assert(post[i] == pre[i + 1]);
                }
            }
        }
        MoveOutcome::Moved
    }

    /// One spawn event: reseeds the generator from the tick counter — a
    /// deterministic replay, the batch a pure function of the seed — and
    /// appends its three items, each with a position drawn uniformly over
    /// the grid and a category drawn from the weighted table; items beyond
    /// capacity are silently dropped.
    pub fn new_food(&mut self)
        requires
            old(self).wf(),
        ensures
            final(self).wf(),
            spawn_rel(old(self).ticks, old(self).food@, final(self).food@),
            old(self).same_but_food(*final(self)),
    {
        let ghost seed = old(self).ticks;
        let mut st: (u64, u64) = rng_new(self.ticks);
        let mut n: usize = 0;
        while n < 3
            invariant
                old(self).wf(),
                n <= 3,
                st == spawn_state(seed, n as int),
                self.food@.len() == min2(old(self).food@.len() as int + n, FOOD_CAP as int),
                forall|i: int| 0 <= i < old(self).food@.len() ==> self.food@[i] == old(
                    self,
                ).food@[i],
                forall|i: int|
                    old(self).food@.len() <= i < self.food@.len() ==> (#[trigger] self.food@[i]).wf()
                        && self.food@[i] == batch_item(seed, i - old(self).food@.len()),
                old(self).same_but_food(*self),
            decreases 3 - n,
        {
            let rx = rng_range(st, 0, BUFFER_WIDTH as u32);
            let ry = rng_range(rx.1, 0, BUFFER_HEIGHT as u32);
            let rt = rng_range(ry.1, 0, 50);
            let item = NewSnakeChar::from_draw(rx.0 as usize, ry.0 as usize, rt.0);
            proof {
                assert(item == batch_item(seed, n as int));
                assert(rt.1 == spawn_state(seed, n as int + 1));
            }
            st = rt.1;
            if self.food.len() < FOOD_CAP {
                self.food.push(item);
            }
            n = n + 1;
        }
    }

    /// Forwards one printable character to the trailing-letters buffer: a
    /// drawable character is stored at the write position, which wraps
    /// around the grid width; anything else is silently ignored. Accepted
    /// in every lifecycle state.
    pub fn handle_unicode(&mut self, key: char)
        requires
            old(self).wf(),
        ensures
            final(self).wf(),
            old(self).letters_push_rel(*final(self), key),
            final(self).coordinates@ == old(self).coordinates@,
            final(self).food@ == old(self).food@,
            final(self).score == old(self).score,
            final(self).hi_score == old(self).hi_score,
            final(self).is_digesting == old(self).is_digesting,
            final(self).mode == old(self).mode,
            final(self).ticks == old(self).ticks,
            old(self).same_steering(*final(self)),
    {
        if crate::food::char_drawable(key) {
            let idx = self.next_letter;
            self.letters[idx] = key;
            self.next_letter = add1::<BUFFER_WIDTH>(self.next_letter);
            self.num_letters = if self.num_letters < BUFFER_WIDTH {
                self.num_letters + 1
            } else {
                BUFFER_WIDTH
            };
        }
    }

    /// Resolves the head against the food inventory, in insertion order,
    /// consuming at most the first matching item and applying its effect:
    /// score per category, digestion signalled, the inventory adjusted and
    /// replenished (`Bomb` clears it first; `SuperEvil` only ends the game).
    pub fn resolve_food(&mut self) -> (r: Option<FoodKind>)
        requires
            old(self).wf(),
        ensures
            final(self).wf(),
            old(self).eat_rel(*final(self), r),
    {
        let len = self.coordinates.len();
        let head = self.coordinates[len - 1];
        let mut i: usize = 0;
        while i < self.food.len()
            invariant
                old(self).wf(),
                *self == *old(self),
                head == old(self).head_spec(),
                i <= self.food@.len(),
                forall|j: int| 0 <= j < i ==> !hits(#[trigger] self.food@[j], head),
            decreases self.food@.len() - i,
        {
            let it = self.food[i];
            if it.x == head.0 && it.y == head.1 {
                proof {
                    lemma_first_hit_found(self.food@, head, i as int, 0);
                }
                let kind = it.kind;
                let c = it.glyph();
                self.handle_unicode(c);
                match kind {
                    FoodKind::Bomb => {
                        self.food = Vec::new();
                        self.new_food();
                        self.is_digesting = true;
                    },
                    FoodKind::SuperEvil => {
                        self.enter_game_over();
                    },
                    _ => {
                        match kind {
                            FoodKind::Special => {
                                self.score = if self.score <= usize::MAX / 2 {
                                    self.score * 2
                                } else {
                                    usize::MAX
                                };
                            },
                            FoodKind::Evil => {
                                self.score = self.score / 2;
                            },
                            _ => {
                                self.score = if self.score < usize::MAX {
                                    self.score + 1
                                } else {
                                    usize::MAX
                                };
                            },
                        }
                        self.food.remove(i);
                        self.new_food();
                        self.is_digesting = true;
                    },
                }
                return Some(kind);
            }
            i = i + 1;
        }
        proof {
            lemma_first_hit_none(self.food@, head, 0);
        }
        None
    }

    /// One periodic tick. The counter always advances. The welcome and
    /// game-over screens perform no game logic (their rendering lives with
    /// the caller). While playing, the snake advances; a fatal step ends
    /// the game, and otherwise the new head is resolved against the food.
    pub fn tick(&mut self)
        requires
            old(self).wf(),
            old(self).ticks < u64::MAX,
        ensures
            final(self).wf(),
            old(self).tick_rel(*final(self)),
    {
        self.ticks = self.ticks + 1;
        match self.mode {
            GameMode::Welcome => {},
            GameMode::GameOver => {},
            GameMode::Playing => {
                let outcome = self.update_location();
                match outcome {
                    MoveOutcome::Moved => {
                        let _ = self.resolve_food();
                    },
                    _ => {},
                }
            },
        }
    }

    /// Handles one navigational key, filtered by state: direction keys act
    /// only while playing and only orthogonally to the current motion (a
    /// reversing key is silently ignored); the down arrow doubles as the
    /// restart key in game over; shift starts play from the welcome screen.
    pub fn handle_raw(&mut self, key: RawInput)
        requires
            old(self).wf(),
        ensures
            final(self).wf(),
            old(self).raw_rel(*final(self), key),
    {
        match key {
            RawInput::ArrowLeft => {
                if matches!(self.mode, GameMode::Playing) && self.dx == 0 {
                    self.dx = -1;
                    self.dy = 0;
                    self.direction = Direction::Left;
                }
            },
            RawInput::ArrowRight => {
                if matches!(self.mode, GameMode::Playing) && self.dx == 0 {
                    self.dx = 1;
                    self.dy = 0;
                    self.direction = Direction::Right;
                }
            },
            RawInput::ArrowUp => {
                if matches!(self.mode, GameMode::Playing) && self.dy == 0 {
                    self.dy = -1;
                    self.dx = 0;
                    self.direction = Direction::Up;
                }
            },
            RawInput::ArrowDown => {
                if matches!(self.mode, GameMode::GameOver) {
                    self.mode = GameMode::Playing;
                    self.score = 0;
                    let mut coordinates: Vec<(usize, usize)> = Vec::new();
                    coordinates.push((START_X, START_Y));
                    self.coordinates = coordinates;
                    self.food = Vec::new();
                    self.direction = Direction::Right;
                    self.dx = 1;
                    self.dy = 0;
                    self.is_digesting = false;
                    self.ticks = 0;
                    self.new_food();
                } else if matches!(self.mode, GameMode::Playing) && self.dy == 0 {
                    self.dy = 1;
                    self.dx = 0;
                    self.direction = Direction::Down;
                }
            },
            RawInput::Shift => {
                if matches!(self.mode, GameMode::Welcome) {
                    self.mode = GameMode::Playing;
                    self.new_food();
                }
            },
            RawInput::Other => {},
        }
    }

    /// Consumes one decoded key event: navigational keys steer, start or
    /// restart the game; printable characters decorate the snake.
    pub fn key(&mut self, key: KeyInput)
        requires
            old(self).wf(),
        ensures
            final(self).wf(),
            old(self).key_rel(*final(self), key),
    {
        match key {
            KeyInput::Raw(code) => self.handle_raw(code),
            KeyInput::Unicode(c) => self.handle_unicode(c),
        }
    }
}

} // verus!

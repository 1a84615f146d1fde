//! The general laws of the engine, each proved from the public relations
//! that `tick` and `key` ensure.
use vstd::prelude::*;
use crate::food::{first_hit, FoodKind, NewSnakeChar};
use crate::game::{
    batch_item, cell_in_bounds, contains_cell, max2, spawn_rel, Direction, GameMode, LetterMover,
    RawInput, BODY_CAP, FOOD_CAP,
};

verus! {

/// Deterministic replay of the spawner: two spawn events seeded alike, on
/// equally filled inventories, append identical batches — the items are a
/// pure function of the seed.
pub proof fn lemma_spawn_replay(
    seed: u64,
    a1: Seq<NewSnakeChar>,
    b1: Seq<NewSnakeChar>,
    a2: Seq<NewSnakeChar>,
    b2: Seq<NewSnakeChar>,
)
    requires
        spawn_rel(seed, a1, b1),
        spawn_rel(seed, a2, b2),
        a1.len() == a2.len(),
        a1.len() <= FOOD_CAP,
    ensures
        b1.skip(a1.len() as int) == b2.skip(a2.len() as int),
{
    let n = a1.len() as int;
    let t1 = b1.skip(n);
    let t2 = b2.skip(n);
    assert forall|i: int| 0 <= i < t1.len() implies t1[i] == t2[i] by {
        assert(t1[i] == b1[i + n]);
        assert(t2[i] == b2[i + n]);
        assert(b1[i + n] == batch_item(seed, i));
        assert(b2[i + n] == batch_item(seed, i));
    }
    assert(t1 =~= t2);
}

/// While playing, every body cell — the head included — lies inside the
/// grid, and a tick keeps it that way.
pub proof fn lemma_body_in_bounds(pre: LetterMover, post: LetterMover)
    requires
        pre.wf(),
        pre.tick_rel(post),
    ensures
        forall|i: int| 0 <= i < pre.coordinates@.len() ==> cell_in_bounds(#[trigger] pre.coordinates@[i]),
        cell_in_bounds(pre.head_spec()),
        forall|i: int|
            0 <= i < post.coordinates@.len() ==> cell_in_bounds(#[trigger] post.coordinates@[i]),
{
    assert(cell_in_bounds(pre.coordinates@[pre.coordinates@.len() - 1]));
    if pre.mode == GameMode::Playing && pre.next_in_bounds() && !pre.self_collides() {
        assert(post.coordinates@ == pre.advanced_body());
        assert forall|i: int|
            0 <= i < post.coordinates@.len() implies cell_in_bounds(
            #[trigger] post.coordinates@[i],
        ) by {
            if i < post.coordinates@.len() - 1 {
                if pre.will_grow() {
                    assert(post.coordinates@[i] == pre.coordinates@[i]);
                } else {
                    assert(post.coordinates@[i] == pre.coordinates@[i + 1]);
                }
            } else {
                assert(post.coordinates@[i] == pre.next_cell());
            }
        }
    }
}

/// A step that would leave the grid ends the game on that tick and never
/// yields a wrapped position: the body stands exactly as it was.
pub proof fn lemma_wall_exit_ends_game(pre: LetterMover, post: LetterMover)
    requires
        pre.wf(),
        pre.mode == GameMode::Playing,
        pre.tick_rel(post),
        !pre.next_in_bounds(),
    ensures
        post.mode == GameMode::GameOver,
        post.coordinates@ == pre.coordinates@,
        post.score == pre.score,
        post.food@ == pre.food@,
{
}

/// A new head meeting a body cell that survives the move — any cell at all
/// when a pending growth keeps the tail, any cell but the vacating tail
/// otherwise — always ends the game on that tick, whatever the food
/// inventory holds: body, score and inventory are untouched.
pub proof fn lemma_self_collision_ends_game(pre: LetterMover, post: LetterMover)
    requires
        pre.wf(),
        pre.mode == GameMode::Playing,
        pre.tick_rel(post),
        pre.next_in_bounds(),
        pre.self_collides(),
    ensures
        post.mode == GameMode::GameOver,
        post.coordinates@ == pre.coordinates@,
        post.score == pre.score,
        post.food@ == pre.food@,
{
}

/// Chasing one's own tail is legal: on a normal, non-growth step whose
/// candidate head is exactly the cell the tail is about to vacate, the move
/// is no collision — the body rotates, and with no food under the new head
/// play simply continues.
pub proof fn lemma_tail_chase_is_legal(pre: LetterMover, post: LetterMover)
    requires
        pre.wf(),
        pre.mode == GameMode::Playing,
        pre.tick_rel(post),
        pre.next_in_bounds(),
        !pre.is_digesting,
        pre.next_cell() == pre.coordinates@[0],
    ensures
        !pre.self_collides(),
        post.coordinates@ == pre.coordinates@.skip(1).push(pre.coordinates@[0]),
        post.coordinates@.len() == pre.coordinates@.len(),
        first_hit(pre.food@, pre.next_cell()) == -1 ==> post.mode == GameMode::Playing,
{
    let kept = pre.kept_body();
    assert forall|j: int| 0 <= j < kept.len() implies kept[j] != pre.next_cell() by {
        assert(kept[j] == pre.coordinates@[j + 1]);
    }
    assert(!contains_cell(kept, pre.next_cell()));
}

/// Body-length accounting for a successful step: the body grows by one
/// exactly when a digestion was pending (and there is room), and otherwise
/// keeps its length.
pub proof fn lemma_growth_on_digestion(pre: LetterMover, post: LetterMover)
    requires
        pre.wf(),
        pre.mode == GameMode::Playing,
        pre.tick_rel(post),
        pre.next_in_bounds(),
        !pre.self_collides(),
    ensures
        pre.is_digesting && pre.coordinates@.len() < BODY_CAP ==> post.coordinates@.len()
            == pre.coordinates@.len() + 1,
        !(pre.is_digesting && pre.coordinates@.len() < BODY_CAP) ==> post.coordinates@.len()
            == pre.coordinates@.len(),
{
}

/// The digestion flag leaves a successful step set if and only if a
/// consumable item (anything but `SuperEvil`) was consumed on that tick; so
/// the growth of the following step happens exactly after a consumption.
pub proof fn lemma_digestion_records_consumption(pre: LetterMover, post: LetterMover)
    requires
        pre.wf(),
        pre.mode == GameMode::Playing,
        pre.tick_rel(post),
        pre.next_in_bounds(),
        !pre.self_collides(),
    ensures
        post.is_digesting <==> {
            let h = first_hit(pre.food@, pre.next_cell());
            h != -1 && pre.food@[h].kind != FoodKind::SuperEvil
        },
{
}

/// Consuming a `SuperEvil` item ends the game with no score change, and —
/// when no digestion was already pending — no length change either.
pub proof fn lemma_super_evil_ends_game(pre: LetterMover, post: LetterMover)
    requires
        pre.wf(),
        pre.mode == GameMode::Playing,
        pre.tick_rel(post),
        pre.next_in_bounds(),
        !pre.self_collides(),
        first_hit(pre.food@, pre.next_cell()) != -1,
        pre.food@[first_hit(pre.food@, pre.next_cell())].kind == FoodKind::SuperEvil,
        !pre.is_digesting,
    ensures
        post.mode == GameMode::GameOver,
        post.score == pre.score,
        post.coordinates@.len() == pre.coordinates@.len(),
        !post.is_digesting,
{
}

/// Score arithmetic of a consumption on a successful step: `Normal` adds
/// one, `Special` doubles, `Evil` halves with integer truncation (the
/// additions saturate at the integer limit), and a tick without consumption
/// leaves the score alone.
pub proof fn lemma_score_arithmetic(pre: LetterMover, post: LetterMover)
    requires
        pre.wf(),
        pre.mode == GameMode::Playing,
        pre.tick_rel(post),
        pre.next_in_bounds(),
        !pre.self_collides(),
    ensures
        ({
            let h = first_hit(pre.food@, pre.next_cell());
            if h == -1 {
                post.score == pre.score
            } else {
                match pre.food@[h].kind {
                    FoodKind::Normal => pre.score < usize::MAX ==> post.score == pre.score + 1,
                    FoodKind::Special => pre.score <= usize::MAX / 2 ==> post.score == pre.score
                        * 2,
                    FoodKind::Evil => post.score == pre.score / 2,
                    _ => post.score == pre.score,
                }
            }
        }),
{
}

/// A direction key that would reverse along the current axis of motion is
/// rejected outright: the whole state is untouched.
pub proof fn lemma_reversal_rejected(pre: LetterMover, post: LetterMover, k: RawInput)
    requires
        pre.wf(),
        pre.mode == GameMode::Playing,
        pre.raw_rel(post, k),
        (k == RawInput::ArrowLeft || k == RawInput::ArrowRight) ==> pre.dx != 0,
        (k == RawInput::ArrowUp || k == RawInput::ArrowDown) ==> pre.dy != 0,
        k != RawInput::Shift && k != RawInput::Other,
    ensures
        post == pre,
{
}

/// A direction key orthogonal to the current axis of motion is accepted:
/// the heading follows the key and its unit deltas are recorded.
pub proof fn lemma_orthogonal_accepted(pre: LetterMover, post: LetterMover, k: RawInput)
    requires
        pre.wf(),
        pre.mode == GameMode::Playing,
        pre.raw_rel(post, k),
        (k == RawInput::ArrowLeft || k == RawInput::ArrowRight) && pre.dx == 0 || (k
            == RawInput::ArrowUp || k == RawInput::ArrowDown) && pre.dy == 0,
    ensures
        k == RawInput::ArrowLeft ==> post.direction == Direction::Left,
        k == RawInput::ArrowRight ==> post.direction == Direction::Right,
        k == RawInput::ArrowUp ==> post.direction == Direction::Up,
        k == RawInput::ArrowDown ==> post.direction == Direction::Down,
        post.coordinates@ == pre.coordinates@,
        post.score == pre.score,
{
}

/// The restart edge out of game over: score back to zero, the body back to
/// a single starting cell, and the recorded high score preserved.
pub proof fn lemma_restart_preserves_high_score(pre: LetterMover, post: LetterMover)
    requires
        pre.wf(),
        pre.mode == GameMode::GameOver,
        pre.raw_rel(post, RawInput::ArrowDown),
    ensures
        post.mode == GameMode::Playing,
        post.score == 0,
        post.coordinates@.len() == 1,
        post.hi_score == pre.hi_score,
{
}

/// The high score is monotonic across every tick, and in game over it has
/// absorbed the final score of the round that just ended.
pub proof fn lemma_high_score_monotonic(pre: LetterMover, post: LetterMover)
    requires
        pre.wf(),
        pre.tick_rel(post),
    ensures
        post.hi_score >= pre.hi_score,
        pre.mode == GameMode::Playing && post.mode == GameMode::GameOver ==> post.hi_score == max2(
            pre.hi_score as int,
            pre.score as int,
        ),
{
}

} // verus!

//! Initial game data of the example snake script that the embedding harness
//! runs: the computed body-part positions and the per-session data record.

use vstd::prelude::*;
use crate::sig::copy_vec;

verus! {

/// The script-side settings that game-data initialisation reads.
#[derive(Debug, Copy, Clone, PartialEq, Eq, Structural)]
pub struct Settings {
    /// How many body parts the snake starts with.
    pub snake_parts: u64,
    /// Edge length of one body part.
    pub snake_parts_size: u64,
}

/// Per-session game data: the snake's body-part positions, the positions it
/// moves to next, and its heading.
#[derive(Debug)]
pub struct GameData {
    /// Current body-part positions.
    pub snake_body: Vec<(u64, u64)>,
    /// The positions the body moves to next; starts as a copy of the body.
    pub next_snake_body: Vec<(u64, u64)>,
    /// The snake's heading; starts at zero.
    pub snake_angle: u64,
}

/// Both coordinates of body part `i` out of `parts`: the first part sits at
/// `(parts - 1) * size` and each following part `size` closer to the origin.
pub open spec fn body_part_at(parts: u64, size: u64, i: int) -> int {
    (parts - 1 - i) * size
}

/// Computes the initial snake body: `parts` positions on the diagonal, part
/// `i` at `body_part_at(parts, size, i)` in both coordinates.
pub fn init_snake_body_parts_size(parts: u64, size: u64) -> (body: Vec<(u64, u64)>)
    requires
        parts * size <= u64::MAX,
    ensures
        body@.len() == parts,
        forall|i: int|
            0 <= i < parts ==> (#[trigger] body@[i]).0 == body_part_at(parts, size, i)
                && body@[i].1 == body_part_at(parts, size, i),
{
    let mut body: Vec<(u64, u64)> = Vec::new();
    if parts == 0 {
        return body;
    }
    proof {
        assert((parts - 1) * size <= parts * size) by (nonlinear_arith)
            requires
                1 <= parts,
                0 <= size,
        ;
    }
    let end: u64 = (parts - 1) * size;
    let mut i: u64 = 0;
    while i < parts
        invariant
            i <= parts,
            1 <= parts,
            parts * size <= u64::MAX,
            end == (parts - 1) * size,
            body@.len() == i as int,
            forall|k: int|
                0 <= k < i ==> (#[trigger] body@[k]).0 == body_part_at(parts, size, k)
                    && body@[k].1 == body_part_at(parts, size, k),
        decreases parts - i,
    {
        proof {
            assert(i * size <= (parts - 1) * size) by (nonlinear_arith)
                requires
                    i <= parts - 1,
                    0 <= size,
            ;
            assert((parts - 1) * size - i * size == (parts - 1 - i) * size) by (nonlinear_arith);
        }
        let off: u64 = i * size;
        body.push((end - off, end - off));
        i += 1;
    }
    body
}

/// Builds the per-session game data from the settings: the initial snake
/// body, an identical next body, and a zero heading.
pub fn init_data(settings: &Settings) -> (d: GameData)
    requires
        settings.snake_parts * settings.snake_parts_size <= u64::MAX,
    ensures
        d.snake_angle == 0,
        d.snake_body@.len() == settings.snake_parts,
        forall|i: int|
            0 <= i < settings.snake_parts ==> (#[trigger] d.snake_body@[i]).0 == body_part_at(
                settings.snake_parts,
                settings.snake_parts_size,
                i,
            ) && d.snake_body@[i].1 == body_part_at(
                settings.snake_parts,
                settings.snake_parts_size,
                i,
            ),
        d.next_snake_body@ == d.snake_body@,
{
    let body = init_snake_body_parts_size(settings.snake_parts, settings.snake_parts_size);
    let next = copy_vec(&body);
    GameData { snake_body: body, next_snake_body: next, snake_angle: 0 }
}

} // verus!

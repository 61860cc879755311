//! How a sprite is drawn, bit by bit, and why that gives the frame that the
//! semantics asks for.
//!
//! The machine goes through the rows of a sprite from the top and through
//! the bits of each row from the left, and flips the pixel under each set
//! bit. [`drawn_upto`] and [`collides_upto`] say how far that has come at any
//! step; the lemmas lead from the frame before the drawing to
//! [`crate::semantics::drawn`] and [`crate::semantics::collides`].
use vstd::prelude::*;
use vstd::arithmetic::div_mod::{lemma_fundamental_div_mod, lemma_fundamental_div_mod_converse};
use crate::semantics::{
    collides, drawn, msb_bit, sprite_col, sprite_covers, sprite_row, State, DISPLAY_SIZE,
};

verus! {

/// Whether the drawing of a sprite, which goes through the sprite's rows from
/// the top and through each row from the left, has passed pixel `p` when it
/// stands before column `dx` of row `dy`.
pub open spec fn sprite_passed(s: State, x: int, y: int, dy: int, dx: int, p: int) -> bool {
    let row = sprite_row(s.v[y] as int, p);
    row < dy || (row == dy && sprite_col(s.v[x] as int, p) < dx)
}

/// The pixel on which column `dx` of row `dy` of the sprite falls.
pub open spec fn sprite_pixel(s: State, x: int, y: int, dy: int, dx: int) -> int {
    ((s.v[y] + dy) % 32) * 64 + (s.v[x] + dx) % 64
}

/// The frame while the sprite is drawn, when the drawing stands before
/// column `dx` of row `dy`: the pixels that it has passed are as they will
/// be, the others as they were.
pub open spec fn drawn_upto(s: State, x: int, y: int, n: int, dy: int, dx: int) -> Seq<bool> {
    Seq::new(
        DISPLAY_SIZE as nat,
        |p: int| s.display[p] != (sprite_covers(s, x, y, n, p) && sprite_passed(s, x, y, dy, dx, p)),
    )
}

/// Whether the drawing has turned a pixel off when it stands before column
/// `dx` of row `dy`.
pub open spec fn collides_upto(s: State, x: int, y: int, n: int, dy: int, dx: int) -> bool {
    exists|p: int|
        0 <= p < DISPLAY_SIZE && s.display[p] && #[trigger] sprite_covers(s, x, y, n, p)
            && sprite_passed(s, x, y, dy, dx, p)
}

/// Counting `d` on from `from` modulo `m` comes to `c` exactly if `c` lies
/// `d` after `from`, modulo `m`.
#[verifier::rlimit(50)]
pub proof fn lemma_offset_modulo(c: int, from: int, d: int, m: int)
    requires
        0 < m,
        0 <= c < m,
        0 <= d < m,
    ensures
        ((c - from) % m == d) <==> (c == (from + d) % m),
{
    lemma_fundamental_div_mod(c - from, m);
    lemma_fundamental_div_mod(from + d, m);
    if (c - from) % m == d {
        let k = (c - from) / m;
        assert(from + d == (-k) * m + c) by (nonlinear_arith)
            requires
                c - from == m * k + d,
        ;
        lemma_fundamental_div_mod_converse(from + d, m, -k, c);
    }
    if c == (from + d) % m {
        let k = (from + d) / m;
        assert(c - from == (-k) * m + d) by (nonlinear_arith)
            requires
                from + d == m * k + c,
        ;
        lemma_fundamental_div_mod_converse(c - from, m, -k, d);
    }
}

/// Column `dx` of row `dy` of a sprite falls on one pixel, and on no other.
#[verifier::rlimit(50)]
pub proof fn lemma_sprite_pixel(left: int, top: int, dx: int, dy: int, p: int)
    requires
        0 <= dx < 64,
        0 <= dy < 32,
        0 <= p < 2048,
    ensures
        (sprite_col(left, p) == dx && sprite_row(top, p) == dy) <==> p == ((top + dy) % 32) * 64 + (
        left + dx) % 64,
        0 <= sprite_col(left, p) < 64,
        0 <= sprite_row(top, p) < 32,
{
    let col = (left + dx) % 64;
    let row = (top + dy) % 32;
    lemma_offset_modulo(p % 64, left, dx, 64);
    lemma_offset_modulo(p / 64, top, dy, 32);
    lemma_fundamental_div_mod(p, 64);
    if p == row * 64 + col {
        lemma_fundamental_div_mod_converse(p, 64, row, col);
    }
}

/// Before its first row the drawing has changed nothing.
pub proof fn lemma_draw_start(s: State, x: int, y: int, n: int)
    requires
        s.wf(),
    ensures
        drawn_upto(s, x, y, n, 0, 0) == s.display,
        !collides_upto(s, x, y, n, 0, 0),
{
    assert(drawn_upto(s, x, y, n, 0, 0) =~= s.display);
}

/// One step of the drawing: the pixel under column `dx` of row `dy` is
/// flipped if the sprite's bit is set, and has collided if it was on as
/// well. Until then the pixel is as it was before the drawing.
#[verifier::rlimit(50)]
pub proof fn lemma_draw_step(s: State, x: int, y: int, n: int, dy: int, dx: int)
    requires
        s.wf(),
        0 <= x < 16,
        0 <= y < 16,
        0 <= dy < n <= 32,
        0 <= dx < 8,
    ensures
        0 <= sprite_pixel(s, x, y, dy, dx) < DISPLAY_SIZE,
        drawn_upto(s, x, y, n, dy, dx)[sprite_pixel(s, x, y, dy, dx)] == s.display[sprite_pixel(
            s,
            x,
            y,
            dy,
            dx,
        )],
        drawn_upto(s, x, y, n, dy, dx + 1) == drawn_upto(s, x, y, n, dy, dx).update(
            sprite_pixel(s, x, y, dy, dx),
            s.display[sprite_pixel(s, x, y, dy, dx)] != msb_bit(s.memory[s.i + dy], dx),
        ),
        collides_upto(s, x, y, n, dy, dx + 1) == (collides_upto(s, x, y, n, dy, dx) || (
        s.display[sprite_pixel(s, x, y, dy, dx)] && msb_bit(s.memory[s.i + dy], dx))),
{
    let q = sprite_pixel(s, x, y, dy, dx);
    let left = s.v[x] as int;
    let top = s.v[y] as int;
    assert forall|p: int| 0 <= p < DISPLAY_SIZE implies (sprite_passed(s, x, y, dy, dx + 1, p) <==> (
    sprite_passed(s, x, y, dy, dx, p) || p == q)) by {
        lemma_sprite_pixel(left, top, dx, dy, p);
    }
    lemma_sprite_pixel(left, top, dx, dy, q);
    assert(sprite_covers(s, x, y, n, q) == msb_bit(s.memory[s.i + dy], dx));
    assert(!sprite_passed(s, x, y, dy, dx, q));
    assert(drawn_upto(s, x, y, n, dy, dx + 1) =~= drawn_upto(s, x, y, n, dy, dx).update(
        q,
        s.display[q] != msb_bit(s.memory[s.i + dy], dx),
    ));
    if collides_upto(s, x, y, n, dy, dx) {
        let w = choose|p: int|
            0 <= p < DISPLAY_SIZE && s.display[p] && #[trigger] sprite_covers(s, x, y, n, p)
                && sprite_passed(s, x, y, dy, dx, p);
        assert(sprite_covers(s, x, y, n, w) && sprite_passed(s, x, y, dy, dx + 1, w));
    }
    if s.display[q] && msb_bit(s.memory[s.i + dy], dx) {
        assert(sprite_covers(s, x, y, n, q) && sprite_passed(s, x, y, dy, dx + 1, q));
    }
}

/// After the last column of a row the drawing stands before the next row.
#[verifier::rlimit(50)]
pub proof fn lemma_draw_row_end(s: State, x: int, y: int, n: int, dy: int)
    requires
        s.wf(),
        0 <= x < 16,
        0 <= y < 16,
    ensures
        drawn_upto(s, x, y, n, dy, 8) == drawn_upto(s, x, y, n, dy + 1, 0),
        collides_upto(s, x, y, n, dy, 8) == collides_upto(s, x, y, n, dy + 1, 0),
{
    assert forall|p: int| 0 <= p < DISPLAY_SIZE implies (sprite_covers(s, x, y, n, p)
        && sprite_passed(s, x, y, dy, 8, p)) == (#[trigger] sprite_covers(s, x, y, n, p)
        && sprite_passed(s, x, y, dy + 1, 0, p)) by {
        lemma_sprite_pixel(s.v[x] as int, s.v[y] as int, 0, 0, p);
    }
    assert(drawn_upto(s, x, y, n, dy, 8) =~= drawn_upto(s, x, y, n, dy + 1, 0));
}

/// After its last row the drawing has passed all of the sprite.
#[verifier::rlimit(50)]
pub proof fn lemma_draw_end(s: State, x: int, y: int, n: int)
    requires
        s.wf(),
    ensures
        drawn_upto(s, x, y, n, n, 0) == drawn(s, x, y, n),
        collides_upto(s, x, y, n, n, 0) == collides(s, x, y, n),
{
    assert forall|p: int|
        0 <= p < DISPLAY_SIZE && #[trigger] sprite_covers(s, x, y, n, p) implies sprite_passed(
        s,
        x,
        y,
        n,
        0,
        p,
    ) by {}
    assert(drawn_upto(s, x, y, n, n, 0) =~= drawn(s, x, y, n));
}

} // verus!

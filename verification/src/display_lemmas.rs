//! What the sprite blitter does to the display, proved from its
//! definition.

use crate::display::{
    blit, collides, drawn, has_pixels, hits, lands_apart_within, lands_on, screen_wf,
    sprite_pixel, target_clear, target_column, target_pixel, target_row, toggle, Screen,
};
use vstd::prelude::*;

verus! {

/// Inverting a pixel twice restores the display.
pub proof fn lemma_toggle_twice(screen: Screen, row: int, column: int)
    requires
        screen_wf(screen),
        0 <= row < 32,
        0 <= column < 64,
    ensures
        toggle(toggle(screen, row, column), row, column) == screen,
{
    assert(toggle(toggle(screen, row, column), row, column) =~~= screen);
}

/// Inverting two pixels gives the same display in either order.
pub proof fn lemma_toggle_commutes(screen: Screen, r1: int, c1: int, r2: int, c2: int)
    requires
        screen_wf(screen),
        0 <= r1 < 32,
        0 <= c1 < 64,
        0 <= r2 < 32,
        0 <= c2 < 64,
    ensures
        toggle(toggle(screen, r1, c1), r2, c2) == toggle(toggle(screen, r2, c2), r1, c1),
{
    assert(toggle(toggle(screen, r1, c1), r2, c2) =~~= toggle(toggle(screen, r2, c2), r1, c1));
}

/// Drawing keeps the display's shape.
pub proof fn lemma_blit_wf(screen: Screen, sprite: Seq<u8>, x: int, y: int, k: nat)
    requires
        screen_wf(screen),
        0 <= x,
        0 <= y,
    ensures
        screen_wf(blit(screen, sprite, x, y, k).0),
    decreases k,
{
    if k > 0 {
        lemma_blit_wf(screen, sprite, x, y, (k - 1) as nat);
    }
}

/// A display pixel on which none of the first `k` sprite pixels lands is
/// left as it was.
pub proof fn lemma_blit_frame(
    screen: Screen,
    sprite: Seq<u8>,
    x: int,
    y: int,
    k: nat,
    row: int,
    column: int,
)
    requires
        screen_wf(screen),
        0 <= x,
        0 <= y,
        0 <= row < 32,
        0 <= column < 64,
        !lands_on(sprite, x, y, k as int, row, column),
    ensures
        blit(screen, sprite, x, y, k).0[row][column] == screen[row][column],
    decreases k,
{
    if k > 0 {
        let j = (k - 1) as nat;
        lemma_blit_frame(screen, sprite, x, y, j, row, column);
        lemma_blit_wf(screen, sprite, x, y, j);
    }
}

/// Once a sprite pixel has found its target set, the collision stays
/// recorded.
pub proof fn lemma_blit_collision_stays(
    screen: Screen,
    sprite: Seq<u8>,
    x: int,
    y: int,
    j: nat,
    k: nat,
)
    requires
        j <= k,
        blit(screen, sprite, x, y, j).1,
    ensures
        blit(screen, sprite, x, y, k).1,
    decreases k,
{
    if j < k {
        lemma_blit_collision_stays(screen, sprite, x, y, j, (k - 1) as nat);
    }
}

/// Sprite pixels that land apart on clear display pixels find none of them
/// set.
pub proof fn lemma_blit_apart_on_clear(screen: Screen, sprite: Seq<u8>, x: int, y: int, k: nat)
    requires
        screen_wf(screen),
        0 <= x,
        0 <= y,
        k <= 8 * sprite.len(),
        lands_apart_within(sprite, x, y, k as int),
        target_clear(screen, sprite, x, y),
    ensures
        !blit(screen, sprite, x, y, k).1,
    decreases k,
{
    if k > 0 {
        let j = (k - 1) as nat;
        lemma_blit_apart_on_clear(screen, sprite, x, y, j);
        if sprite_pixel(sprite, j as int) {
            lemma_blit_frame(
                screen,
                sprite,
                x,
                y,
                j,
                target_row(y, j as int),
                target_column(x, j as int),
            );
        }
    }
}

/// Where the set pixels among the first `k` land apart, each of them has
/// inverted its target.
pub proof fn lemma_blit_apart_inverts(
    screen: Screen,
    sprite: Seq<u8>,
    x: int,
    y: int,
    k: nat,
    p: int,
)
    requires
        screen_wf(screen),
        0 <= x,
        0 <= y,
        lands_apart_within(sprite, x, y, k as int),
        0 <= p < k,
        sprite_pixel(sprite, p),
    ensures
        target_pixel(blit(screen, sprite, x, y, k).0, x, y, p) == !target_pixel(screen, x, y, p),
    decreases k,
{
    let j = (k - 1) as nat;
    lemma_blit_wf(screen, sprite, x, y, j);
    if p == j {
        lemma_blit_frame(screen, sprite, x, y, j, target_row(y, p), target_column(x, p));
    } else {
        lemma_blit_apart_inverts(screen, sprite, x, y, j, p);
    }
}

/// A display pixel is inverted once for each set sprite pixel that lands on
/// it: after the first `k` sprite pixels it differs from what it was exactly
/// when an odd number of them has landed on it.
pub proof fn lemma_blit_parity(
    screen: Screen,
    sprite: Seq<u8>,
    x: int,
    y: int,
    k: nat,
    row: int,
    column: int,
)
    requires
        screen_wf(screen),
        0 <= x,
        0 <= y,
        0 <= row < 32,
        0 <= column < 64,
    ensures
        blit(screen, sprite, x, y, k).0[row][column] == (screen[row][column] != (hits(
            sprite,
            x,
            y,
            k,
            row,
            column,
        ) % 2 == 1)),
    decreases k,
{
    if k > 0 {
        let j = (k - 1) as nat;
        lemma_blit_parity(screen, sprite, x, y, j, row, column);
        lemma_blit_wf(screen, sprite, x, y, j);
    }
}

/// Where no pixel from `j` up to `k` is set, as many have landed on a
/// display pixel after `k` as after `j`.
pub proof fn lemma_hits_stop(
    sprite: Seq<u8>,
    x: int,
    y: int,
    j: nat,
    k: nat,
    row: int,
    column: int,
)
    requires
        j <= k,
        forall|p: int| j <= p < k ==> !#[trigger] sprite_pixel(sprite, p),
    ensures
        hits(sprite, x, y, k, row, column) == hits(sprite, x, y, j, row, column),
    decreases k,
{
    if j < k {
        lemma_hits_stop(sprite, x, y, j, (k - 1) as nat, row, column);
    }
}

/// Among the first `k` pixels of a sprite, if any is set, one is the last
/// that is set.
pub proof fn lemma_last_pixel(sprite: Seq<u8>, k: nat) -> (last: int)
    requires
        exists|p: int| 0 <= p < k && #[trigger] sprite_pixel(sprite, p),
    ensures
        0 <= last < k,
        sprite_pixel(sprite, last),
        forall|p: int| last < p < k ==> !#[trigger] sprite_pixel(sprite, p),
    decreases k,
{
    if sprite_pixel(sprite, k - 1) {
        k - 1
    } else {
        lemma_last_pixel(sprite, (k - 1) as nat)
    }
}

/// A sprite with a set pixel, drawn a second time where it was drawn on a
/// clear target, finds a pixel set: its last set pixel lands where one more
/// pixel has landed in the first draw than before it in the second.
pub proof fn lemma_blit_again_collides(screen: Screen, sprite: Seq<u8>, x: int, y: int)
    requires
        screen_wf(screen),
        0 <= x,
        0 <= y,
        target_clear(screen, sprite, x, y),
        has_pixels(sprite),
    ensures
        collides(drawn(screen, sprite, x, y), sprite, x, y),
{
    let n = (8 * sprite.len()) as nat;
    let once = drawn(screen, sprite, x, y);
    let last = lemma_last_pixel(sprite, n);
    let row = target_row(y, last);
    let column = target_column(x, last);
    lemma_blit_wf(screen, sprite, x, y, n);
    lemma_blit_parity(screen, sprite, x, y, n, row, column);
    lemma_blit_parity(once, sprite, x, y, last as nat, row, column);
    lemma_hits_stop(sprite, x, y, (last + 1) as nat, n, row, column);
    lemma_blit_collision_stays(once, sprite, x, y, (last + 1) as nat, n);
}

/// On a display where its target is clear, a sprite of which two set
/// pixels among the first `k` land on the same display pixel finds a pixel
/// set.
pub proof fn lemma_blit_overlap_collides(screen: Screen, sprite: Seq<u8>, x: int, y: int, k: nat)
    requires
        screen_wf(screen),
        0 <= x,
        0 <= y,
        k <= 8 * sprite.len(),
        target_clear(screen, sprite, x, y),
        !lands_apart_within(sprite, x, y, k as int),
    ensures
        blit(screen, sprite, x, y, k).1,
    decreases k,
{
    let j = (k - 1) as nat;
    if !lands_apart_within(sprite, x, y, j as int) {
        lemma_blit_overlap_collides(screen, sprite, x, y, j);
    } else {
        let (p, q) = choose|p: int, q: int|
            #![trigger sprite_pixel(sprite, p), sprite_pixel(sprite, q)]
            0 <= p < q < k && sprite_pixel(sprite, p) && sprite_pixel(sprite, q) && target_row(y, p)
                == target_row(y, q) && target_column(x, p) == target_column(x, q);
        lemma_blit_apart_inverts(screen, sprite, x, y, j, p);
    }
}

/// Inverting a display pixel before drawing gives the display that
/// inverting it after drawing gives.
pub proof fn lemma_blit_toggle_commutes(
    screen: Screen,
    sprite: Seq<u8>,
    x: int,
    y: int,
    k: nat,
    row: int,
    column: int,
)
    requires
        screen_wf(screen),
        0 <= x,
        0 <= y,
        0 <= row < 32,
        0 <= column < 64,
    ensures
        blit(toggle(screen, row, column), sprite, x, y, k).0 == toggle(
            blit(screen, sprite, x, y, k).0,
            row,
            column,
        ),
    decreases k,
{
    if k > 0 {
        let j = (k - 1) as nat;
        lemma_blit_toggle_commutes(screen, sprite, x, y, j, row, column);
        if sprite_pixel(sprite, j as int) {
            lemma_blit_wf(screen, sprite, x, y, j);
            lemma_toggle_commutes(
                blit(screen, sprite, x, y, j).0,
                row,
                column,
                target_row(y, j as int),
                target_column(x, j as int),
            );
        }
    }
}

/// Drawing the first `k` pixels of a sprite twice in the same place
/// restores the display.
pub proof fn lemma_blit_twice_restores(screen: Screen, sprite: Seq<u8>, x: int, y: int, k: nat)
    requires
        screen_wf(screen),
        0 <= x,
        0 <= y,
    ensures
        blit(blit(screen, sprite, x, y, k).0, sprite, x, y, k).0 == screen,
    decreases k,
{
    if k > 0 {
        let j = (k - 1) as nat;
        let before = blit(screen, sprite, x, y, j).0;
        lemma_blit_twice_restores(screen, sprite, x, y, j);
        if sprite_pixel(sprite, j as int) {
            let row = target_row(y, j as int);
            let column = target_column(x, j as int);
            lemma_blit_wf(screen, sprite, x, y, j);
            lemma_blit_toggle_commutes(before, sprite, x, y, j, row, column);
            lemma_toggle_twice(screen, row, column);
        }
    }
}

} // verus!

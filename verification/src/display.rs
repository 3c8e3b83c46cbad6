//! The monochrome display as a grid of pixels, and the sprite blitter that
//! draws on it.

use crate::{CHIP8_DISPLAY_HEIGHT, CHIP8_DISPLAY_WIDTH};
use vstd::prelude::*;

verus! {

/// A display: 32 rows of 64 pixels, `true` for a pixel that is set.
pub type Screen = Seq<Seq<bool>>;

/// Whether `screen` has the display's 32 rows of 64 pixels.
pub open spec fn screen_wf(screen: Screen) -> bool {
    &&& screen.len() == 32
    &&& forall|row: int| 0 <= row < 32 ==> (#[trigger] screen[row]).len() == 64
}

/// The display with every pixel clear.
pub open spec fn blank_screen() -> Screen {
    Seq::new(32, |row: int| Seq::new(64, |column: int| false))
}

/// The display row that a sprite row aimed at `y` lands on: rows past the
/// bottom edge land on the last row.
pub open spec fn clamp_row(y: int) -> int {
    if y >= 32 {
        31
    } else {
        y
    }
}

/// The display column that a sprite pixel aimed at `x` lands on: columns
/// past the right edge land on the last column.
pub open spec fn clamp_column(x: int) -> int {
    if x >= 64 {
        63
    } else {
        x
    }
}

/// `screen` with the pixel at (`row`, `column`) inverted.
pub open spec fn toggle(screen: Screen, row: int, column: int) -> Screen {
    screen.update(row, screen[row].update(column, !screen[row][column]))
}

/// Whether pixel `bit` of a sprite row is set, counting from the most
/// significant bit: pixel 0 is bit 7 of the byte.
pub open spec fn sprite_bit(row: u8, bit: int) -> bool {
    (row >> ((7 - bit) as u8)) & 1u8 == 1u8
}

/// Whether sprite pixel number `k` is set, the pixels counted row by row,
/// eight to a row.
pub open spec fn sprite_pixel(sprite: Seq<u8>, k: int) -> bool {
    sprite_bit(sprite[k / 8], k % 8)
}

/// The display row that pixel number `k` of a sprite drawn at row `y` lands
/// on.
pub open spec fn target_row(y: int, k: int) -> int {
    clamp_row(y + k / 8)
}

/// The display column that pixel number `k` of a sprite drawn at column `x`
/// lands on.
pub open spec fn target_column(x: int, k: int) -> int {
    clamp_column(x + k % 8)
}

/// Whether the display pixel on which pixel number `k` of a sprite drawn at
/// (`x`, `y`) lands is set in `screen`.
pub open spec fn target_pixel(screen: Screen, x: int, y: int, k: int) -> bool {
    screen[target_row(y, k)][target_column(x, k)]
}

/// The display after the first `k` pixels of `sprite` have been drawn at
/// (`x`, `y`), and whether any of them found its target pixel set. The
/// pixels are taken row by row and from the left; each set pixel inverts its
/// target on the display as the pixels before it have left it.
pub open spec fn blit(screen: Screen, sprite: Seq<u8>, x: int, y: int, k: nat) -> (Screen, bool)
    decreases k,
{
    if k == 0 {
        (screen, false)
    } else {
        let before = blit(screen, sprite, x, y, (k - 1) as nat);
        if sprite_pixel(sprite, k - 1) {
            (
                toggle(before.0, target_row(y, k - 1), target_column(x, k - 1)),
                before.1 || target_pixel(before.0, x, y, k - 1),
            )
        } else {
            before
        }
    }
}

/// The display after the whole of `sprite` has been drawn at (`x`, `y`).
pub open spec fn drawn(screen: Screen, sprite: Seq<u8>, x: int, y: int) -> Screen {
    blit(screen, sprite, x, y, 8 * sprite.len()).0
}

/// Whether drawing the whole of `sprite` at (`x`, `y`) finds a target pixel
/// set.
pub open spec fn collides(screen: Screen, sprite: Seq<u8>, x: int, y: int) -> bool {
    blit(screen, sprite, x, y, 8 * sprite.len()).1
}

/// Whether some set pixel among the first `k` of `sprite`, drawn at
/// (`x`, `y`), lands on (`row`, `column`).
pub open spec fn lands_on(sprite: Seq<u8>, x: int, y: int, k: int, row: int, column: int) -> bool {
    exists|p: int|
        0 <= p < k && #[trigger] sprite_pixel(sprite, p) && target_row(y, p) == row
            && target_column(x, p) == column
}

/// Whether no two set pixels among the first `k` of `sprite`, drawn at
/// (`x`, `y`), land on the same display pixel.
pub open spec fn lands_apart_within(sprite: Seq<u8>, x: int, y: int, k: int) -> bool {
    forall|p: int, q: int|
        #![trigger sprite_pixel(sprite, p), sprite_pixel(sprite, q)]
        0 <= p < q < k && sprite_pixel(sprite, p) && sprite_pixel(sprite, q) ==> !(target_row(y, p)
            == target_row(y, q) && target_column(x, p) == target_column(x, q))
}

/// Whether no two set pixels of `sprite`, drawn at (`x`, `y`), land on the
/// same display pixel. Clamping at the right and bottom edges is what can
/// make two of them meet.
pub open spec fn lands_apart(sprite: Seq<u8>, x: int, y: int) -> bool {
    lands_apart_within(sprite, x, y, 8 * sprite.len() as int)
}

/// Whether `sprite` has a set pixel.
pub open spec fn has_pixels(sprite: Seq<u8>) -> bool {
    exists|p: int| 0 <= p < 8 * sprite.len() && #[trigger] sprite_pixel(sprite, p)
}

/// Whether every display pixel on which a set pixel of `sprite`, drawn at
/// (`x`, `y`), lands is clear in `screen`.
pub open spec fn target_clear(screen: Screen, sprite: Seq<u8>, x: int, y: int) -> bool {
    forall|p: int|
        0 <= p < 8 * sprite.len() && #[trigger] sprite_pixel(sprite, p) ==> !target_pixel(
            screen,
            x,
            y,
            p,
        )
}

/// How many set pixels among the first `k` of `sprite`, drawn at (`x`,
/// `y`), land on (`row`, `column`).
pub open spec fn hits(sprite: Seq<u8>, x: int, y: int, k: nat, row: int, column: int) -> nat
    decreases k,
{
    if k == 0 {
        0
    } else {
        let earlier = hits(sprite, x, y, (k - 1) as nat, row, column);
        if sprite_pixel(sprite, k - 1) && target_row(y, k - 1) == row && target_column(x, k - 1)
            == column {
            earlier + 1
        } else {
            earlier
        }
    }
}

/// The cell that stands for a pixel: 1 for a pixel that is set, 0 for one
/// that is clear.
pub open spec fn cell_of(pixel: bool) -> u8 {
    if pixel {
        1
    } else {
        0
    }
}

/// The display that a frame buffer stands for: a pixel is set where its
/// cell holds 1.
pub open spec fn screen_of(gfx: [[u8; 64]; 32]) -> Screen {
    Seq::new(32, |row: int| Seq::new(64, |column: int| gfx[row][column] == 1u8))
}

/// Flipping one cell between 0 and 1 inverts the pixel that it stands for
/// and no other.
proof fn lemma_flip_cell(before: [[u8; 64]; 32], after: [[u8; 64]; 32], row: int, column: int)
    requires
        0 <= row < 32,
        0 <= column < 64,
        before[row][column] <= 1,
        after[row][column] == 1 - before[row][column],
        forall|r: int, c: int|
            0 <= r < 32 && 0 <= c < 64 && (r != row || c != column) ==> #[trigger] after[r][c]
                == before[r][c],
    ensures
        screen_of(after) == toggle(screen_of(before), row, column),
{
    assert(screen_of(after) =~~= toggle(screen_of(before), row, column));
}

/// The display in executable form: one cell per pixel, 1 for a pixel that
/// is set and 0 for one that is clear.
pub struct FrameBuffer {
    cells: [[u8; CHIP8_DISPLAY_WIDTH]; CHIP8_DISPLAY_HEIGHT],
}

impl View for FrameBuffer {
    type V = Screen;

    closed spec fn view(&self) -> Screen {
        screen_of(self.cells)
    }
}

impl FrameBuffer {
    /// Every cell holds 0 or 1.
    #[verifier::type_invariant]
    spec fn cells_are_bits(self) -> bool {
        forall|row: int, column: int|
            0 <= row < 32 && 0 <= column < 64 ==> (#[trigger] self.cells[row][column]) <= 1
    }

    /// The display that a frame buffer stands for has the display's shape.
    pub proof fn lemma_view_wf(&self)
        ensures
            screen_wf(self@),
    {
    }

    /// A frame buffer with every pixel clear.
    pub fn new() -> (buffer: FrameBuffer)
        ensures
            buffer@ == blank_screen(),
    {
        let buffer = FrameBuffer { cells: [[0; CHIP8_DISPLAY_WIDTH]; CHIP8_DISPLAY_HEIGHT] };
        assert(buffer@ =~~= blank_screen());
        buffer
    }

    /// The cells, row by row.
    pub fn cells(&self) -> (cells: &[[u8; CHIP8_DISPLAY_WIDTH]; CHIP8_DISPLAY_HEIGHT])
        ensures
            forall|row: int, column: int|
                0 <= row < 32 && 0 <= column < 64 ==> #[trigger] cells[row][column] == cell_of(
                    self@[row][column],
                ),
    {
        proof {
            use_type_invariant(self);
        }
        &self.cells
    }

    /// Inverts the pixel at (`row`, `column`) and says whether it was set.
    pub(crate) fn flip(&mut self, row: usize, column: usize) -> (was_set: bool)
        requires
            row < 32,
            column < 64,
        ensures
            was_set == old(self)@[row as int][column as int],
            final(self)@ == toggle(old(self)@, row as int, column as int),
    {
        proof {
            use_type_invariant(&*self);
        }
        let ghost before = self.cells;
        let cell: u8 = self.cells[row][column];
        assert(cell ^ 1 == 1 - cell) by (bit_vector)
            requires
                cell <= 1,
        ;
        self.cells[row][column] ^= 1;
        proof {
            lemma_flip_cell(before, self.cells, row as int, column as int);
        }
        cell == 1
    }
}

} // verus!

use vstd::prelude::*;
use vstd::slice::slice_index_get;

verus! {

/// Columns of the display.
pub const DISPLAY_WIDTH: usize = 64;

/// Rows of the display.
pub const DISPLAY_HEIGHT: usize = 32;

/// Width in pixels of one sprite byte.
pub const SPRITE_WIDTH: usize = 8;

/// `value` rotated right by `amount % 64` bit positions.
pub open spec fn rotate_right_spec(value: u64, amount: u64) -> u64 {
    if amount % 64 == 0 {
        value
    } else {
        (value >> (amount % 64)) | (value << ((64 - (amount % 64)) as u64))
    }
}

/// The 64-bit row mask of one sprite byte aligned to column `x`: the byte's
/// most significant bit lands on column `x` (bit 63 of a row is column 0),
/// and bits pushed past column 63 wrap around to column 0 of the same row.
/// The byte starts out in the row's 8 highest bits, then rotates into place.
pub open spec fn sprite_mask(byte: u8, x: u8) -> u64 {
    rotate_right_spec((byte as u64) << ((DISPLAY_WIDTH - SPRITE_WIDTH) as u64), x as u64)
}

/// The rows after XOR-drawing `sprite` at `(x, y)`: sprite byte `i` is
/// rotated into place and XORed into row `(y + i) % 32`, in order.
pub open spec fn rows_after_draw(rows: Seq<u64>, x: u8, y: u8, sprite: Seq<u8>) -> Seq<u64>
    decreases sprite.len(),
{
    if sprite.len() == 0 {
        rows
    } else {
        let prev = rows_after_draw(rows, x, y, sprite.drop_last());
        let row = (y + sprite.len() - 1) % 32;
        prev.update(row, prev[row] ^ sprite_mask(sprite.last(), x))
    }
}

/// Whether XOR-drawing `sprite` at `(x, y)` clears at least one pixel that
/// was set just before its byte was applied: the draw call's collision result.
pub open spec fn draw_collision(rows: Seq<u64>, x: u8, y: u8, sprite: Seq<u8>) -> bool
    decreases sprite.len(),
{
    if sprite.len() == 0 {
        false
    } else {
        let prev = rows_after_draw(rows, x, y, sprite.drop_last());
        let row = (y + sprite.len() - 1) % 32;
        draw_collision(rows, x, y, sprite.drop_last())
            || prev[row] & sprite_mask(sprite.last(), x) != 0
    }
}

/// Row that sprite byte `i` of a draw starting at row `y` lands on.
pub open spec fn target_row(y: u8, i: int) -> int {
    (y + i) % 32
}

/// Sprite byte `i` of a draw at `(x, y)` overlaps a set pixel of `rows`.
pub open spec fn byte_overlaps(rows: Seq<u64>, x: u8, y: u8, sprite: Seq<u8>, i: int) -> bool {
    rows[target_row(y, i)] & sprite_mask(sprite[i], x) != 0
}

/// XOR of the masks of every sprite byte that lands on row `r`.
spec fn accumulated_mask(r: int, x: u8, y: u8, sprite: Seq<u8>) -> u64
    decreases sprite.len(),
{
    if sprite.len() == 0 {
        0u64
    } else {
        accumulated_mask(r, x, y, sprite.drop_last()) ^ (if (y + sprite.len() - 1) % 32 == r {
            sprite_mask(sprite.last(), x)
        } else {
            0u64
        })
    }
}

proof fn lemma_xor_zero(value: u64)
    by (bit_vector)
    ensures
        value ^ 0 == value,
        0 ^ value == value,
{
}

proof fn lemma_xor_assoc(a: u64, b: u64, c: u64)
    by (bit_vector)
    ensures
        (a ^ b) ^ c == a ^ (b ^ c),
{
}

proof fn lemma_xor_cancel(a: u64, b: u64)
    by (bit_vector)
    ensures
        (a ^ b) ^ b == a,
{
}

proof fn lemma_xor_disjoint(a: u64, b: u64)
    by (bit_vector)
    requires
        a & b == 0,
    ensures
        (a ^ b) & b == b,
{
}

proof fn lemma_sprite_mask_nonzero(byte: u8, x: u8)
    by (bit_vector)
    ensures
        (sprite_mask(byte, x) != 0) == (byte != 0),
{
}

/// Each row of the drawn buffer is the original row XORed with the masks of
/// the sprite bytes that landed on it.
proof fn lemma_rows_after_draw_acc(rows: Seq<u64>, x: u8, y: u8, sprite: Seq<u8>)
    requires
        rows.len() == 32,
    ensures
        rows_after_draw(rows, x, y, sprite).len() == 32,
        forall|r: int|
            0 <= r < 32 ==> rows_after_draw(rows, x, y, sprite)[r] == rows[r]
                ^ accumulated_mask(r, x, y, sprite),
    decreases sprite.len(),
{
    if sprite.len() == 0 {
        assert forall|r: int| 0 <= r < 32 implies rows_after_draw(rows, x, y, sprite)[r] == rows[r]
            ^ accumulated_mask(r, x, y, sprite) by {
            lemma_xor_zero(rows[r]);
        }
    } else {
        let rest = sprite.drop_last();
        let prev = rows_after_draw(rows, x, y, rest);
        let ry = (y + sprite.len() - 1) % 32;
        let mask = sprite_mask(sprite.last(), x);
        lemma_rows_after_draw_acc(rows, x, y, rest);
        assert forall|r: int| 0 <= r < 32 implies rows_after_draw(rows, x, y, sprite)[r] == rows[r]
            ^ accumulated_mask(r, x, y, sprite) by {
            if r == ry {
                lemma_xor_assoc(rows[r], accumulated_mask(r, x, y, rest), mask);
            } else {
                lemma_xor_zero(accumulated_mask(r, x, y, rest));
            }
        }
    }
}

/// A row no sprite byte lands on accumulates no mask.
proof fn lemma_accumulated_mask_untouched(r: int, x: u8, y: u8, sprite: Seq<u8>)
    requires
        forall|i: int| 0 <= i < sprite.len() ==> #[trigger] target_row(y, i) != r,
    ensures
        accumulated_mask(r, x, y, sprite) == 0,
    decreases sprite.len(),
{
    if sprite.len() > 0 {
        lemma_accumulated_mask_untouched(r, x, y, sprite.drop_last());
        assert(target_row(y, sprite.len() - 1) != r);
        lemma_xor_zero(0u64);
    }
}

/// With at most 32 sprite bytes, the rows drawn on are pairwise distinct, so
/// the row of byte `j` accumulates exactly byte `j`'s mask.
proof fn lemma_accumulated_mask_distinct(x: u8, y: u8, sprite: Seq<u8>, j: int)
    requires
        sprite.len() <= 32,
        0 <= j < sprite.len(),
    ensures
        accumulated_mask((y + j) % 32, x, y, sprite) == sprite_mask(sprite[j], x),
    decreases sprite.len(),
{
    let rest = sprite.drop_last();
    let ry = (y + sprite.len() - 1) % 32;
    let rj = (y + j) % 32;
    if j == sprite.len() - 1 {
        assert forall|i: int| 0 <= i < rest.len() implies #[trigger] target_row(y, i) != ry by {}
        lemma_accumulated_mask_untouched(ry, x, y, rest);
        lemma_xor_zero(sprite_mask(sprite.last(), x));
    } else {
        lemma_accumulated_mask_distinct(x, y, rest, j);
        assert(rj != ry);
        lemma_xor_zero(sprite_mask(sprite[j], x));
    }
}

/// Drawing the same sprite at the same position twice restores the buffer:
/// the XOR composition of a row with the same masks cancels out.
pub proof fn lemma_draw_self_inverse(rows: Seq<u64>, x: u8, y: u8, sprite: Seq<u8>)
    requires
        rows.len() == 32,
    ensures
        rows_after_draw(rows_after_draw(rows, x, y, sprite), x, y, sprite) == rows,
{
    let once = rows_after_draw(rows, x, y, sprite);
    let twice = rows_after_draw(once, x, y, sprite);
    lemma_rows_after_draw_acc(rows, x, y, sprite);
    lemma_rows_after_draw_acc(once, x, y, sprite);
    assert forall|r: int| 0 <= r < 32 implies twice[r] == rows[r] by {
        lemma_xor_cancel(rows[r], accumulated_mask(r, x, y, sprite));
    }
    assert(twice =~= rows);
}

/// The collision result of a draw of at most 32 sprite bytes is true exactly
/// when some sprite byte overlaps a pixel that was set before the call.
pub proof fn lemma_draw_collision_overlap(rows: Seq<u64>, x: u8, y: u8, sprite: Seq<u8>)
    requires
        rows.len() == 32,
        sprite.len() <= 32,
    ensures
        draw_collision(rows, x, y, sprite) <==> exists|i: int|
            0 <= i < sprite.len() && #[trigger] byte_overlaps(rows, x, y, sprite, i),
    decreases sprite.len(),
{
    if sprite.len() > 0 {
        let rest = sprite.drop_last();
        let last = sprite.len() - 1;
        let ry = (y + sprite.len() - 1) % 32;
        lemma_draw_collision_overlap(rows, x, y, rest);
        lemma_rows_after_draw_acc(rows, x, y, rest);
        assert forall|i: int| 0 <= i < rest.len() implies #[trigger] target_row(y, i) != ry by {}
        lemma_accumulated_mask_untouched(ry, x, y, rest);
        lemma_xor_zero(rows[ry]);
        assert(rows_after_draw(rows, x, y, rest)[ry] == rows[ry]);
        if draw_collision(rows, x, y, sprite) {
            if draw_collision(rows, x, y, rest) {
                let i = choose|i: int|
                    0 <= i < rest.len() && #[trigger] byte_overlaps(rows, x, y, rest, i);
                assert(byte_overlaps(rows, x, y, sprite, i));
            } else {
                assert(byte_overlaps(rows, x, y, sprite, last));
            }
        }
        if exists|i: int| 0 <= i < sprite.len() && #[trigger] byte_overlaps(rows, x, y, sprite, i) {
            let i = choose|i: int|
                0 <= i < sprite.len() && #[trigger] byte_overlaps(rows, x, y, sprite, i);
            if i < last {
                assert(byte_overlaps(rows, x, y, rest, i));
            }
            assert(draw_collision(rows, x, y, sprite));
        }
    }
}

/// After a collision-free draw of at most 32 sprite bytes, drawing the same
/// sprite at the same position again reports a collision exactly when the
/// sprite has any set bit: the second draw clears what the first one set.
pub proof fn lemma_second_draw_collision(rows: Seq<u64>, x: u8, y: u8, sprite: Seq<u8>)
    requires
        rows.len() == 32,
        sprite.len() <= 32,
        !draw_collision(rows, x, y, sprite),
    ensures
        draw_collision(rows_after_draw(rows, x, y, sprite), x, y, sprite) <==> exists|i: int|
            0 <= i < sprite.len() && sprite[i] != 0,
{
    let once = rows_after_draw(rows, x, y, sprite);
    lemma_rows_after_draw_acc(rows, x, y, sprite);
    lemma_draw_collision_overlap(rows, x, y, sprite);
    lemma_draw_collision_overlap(once, x, y, sprite);
    assert forall|i: int| 0 <= i < sprite.len() implies #[trigger] byte_overlaps(
        once,
        x,
        y,
        sprite,
        i,
    ) == (sprite[i] != 0) by {
        let ri = (y + i) % 32;
        let mask = sprite_mask(sprite[i], x);
        lemma_accumulated_mask_distinct(x, y, sprite, i);
        assert(once[ri] == rows[ri] ^ mask);
        assert(!byte_overlaps(rows, x, y, sprite, i));
        lemma_xor_disjoint(rows[ri], mask);
        lemma_sprite_mask_nonzero(sprite[i], x);
    }
    if exists|i: int| 0 <= i < sprite.len() && sprite[i] != 0 {
        let i = choose|i: int| 0 <= i < sprite.len() && sprite[i] != 0;
        assert(byte_overlaps(once, x, y, sprite, i));
    }
}

/// 32 rows of 64 monochrome pixels each; bit 63 of a row is column 0.
/// Mutation happens only by XOR composition with wraparound, or by `clear`.
pub struct FrameBuffer {
    rows: Vec<u64>,
}

impl View for FrameBuffer {
    type V = Seq<u64>;

    closed spec fn view(&self) -> Seq<u64> {
        self.rows@
    }
}

/// `value` rotated right by `amount % 64` bit positions.
fn rotate_right_u64(value: u64, amount: u8) -> (rotated: u64)
    ensures
        rotated == rotate_right_spec(value, amount as u64),
{
    let shift = (amount as u64) % 64;
    if shift == 0 {
        value
    } else {
        (value >> shift) | (value << (64 - shift))
    }
}

proof fn lemma_turned_off_bits(previous: u64, mask: u64)
    by (bit_vector)
    ensures
        (previous & !(previous ^ mask) != 0) == (previous & mask != 0),
{
}

impl FrameBuffer {
    pub open spec fn wf(&self) -> bool {
        self@.len() == DISPLAY_HEIGHT
    }

    /// XOR-draw `sprite` at `position`, one byte per row downwards, with
    /// horizontal and vertical wraparound; the result reports whether any
    /// previously set pixel was cleared.
    #[verifier::loop_isolation(false)]
    #[verifier::rlimit(30)]
    pub fn draw(&mut self, position: (u8, u8), sprite: &[u8]) -> (collision: bool)
        requires
            old(self).wf(),
        ensures
            final(self).wf(),
            final(self)@ == rows_after_draw(old(self)@, position.0, position.1, sprite@),
            collision == draw_collision(old(self)@, position.0, position.1, sprite@),
    {
        let (x, y) = position;
        let mut turned_bit_off = false;
        let mut row: usize = (y as usize) % DISPLAY_HEIGHT;
        let mut i: usize = 0;
        while i < sprite.len()
            invariant
                i <= sprite@.len(),
                self.wf(),
                row == (y + i) % 32,
                self@ == rows_after_draw(old(self)@, x, y, sprite@.take(i as int)),
                turned_bit_off == draw_collision(old(self)@, x, y, sprite@.take(i as int)),
            decreases sprite@.len() - i,
        {
            let byte = *slice_index_get(sprite, i);
            let mask = rotate_right_u64((byte as u64) << ((DISPLAY_WIDTH - SPRITE_WIDTH) as u64), x);
            let previous = self.rows[row];
            let updated = previous ^ mask;

            if previous & !updated != 0 {
                turned_bit_off = true;
            }
            proof {
                lemma_turned_off_bits(previous, mask);
                assert(sprite@.take(i + 1).drop_last() =~= sprite@.take(i as int));
            }

            self.rows.set(row, updated);

            i = i + 1;
            row = (row + 1) % DISPLAY_HEIGHT;
        }
        proof {
            assert(sprite@.take(sprite@.len() as int) =~= sprite@);
        }
        turned_bit_off
    }

    /// Reset every pixel to unset.
    pub fn clear(&mut self)
        requires
            old(self).wf(),
        ensures
            final(self).wf(),
            final(self)@ == Seq::new(32, |i: int| 0u64),
    {
        *self = FrameBuffer::default();
    }

    pub fn get_screen_width(&self) -> (width: usize)
        ensures
            width == DISPLAY_WIDTH,
    {
        DISPLAY_WIDTH
    }

    pub fn get_screen_height(&self) -> (height: usize)
        ensures
            height == DISPLAY_HEIGHT,
    {
        DISPLAY_HEIGHT
    }

    /// Read-only access to the 32-row representation.
    pub fn rows(&self) -> (rows: &Vec<u64>)
        ensures
            rows@ == self@,
    {
        &self.rows
    }
}

impl Default for FrameBuffer {
    /// A frame buffer with every pixel unset.
    #[verifier::loop_isolation(false)]
    fn default() -> (buffer: FrameBuffer)
        ensures
            buffer.wf(),
            buffer@ == Seq::new(32, |i: int| 0u64),
    {
        let mut rows: Vec<u64> = Vec::new();
        while rows.len() < DISPLAY_HEIGHT
            invariant
                rows@.len() <= 32,
                rows@ == Seq::new(rows@.len(), |i: int| 0u64),
            decreases 32 - rows@.len(),
        {
            rows.push(0);
            proof {
                assert(rows@ =~= Seq::new(rows@.len(), |i: int| 0u64));
            }
        }
        FrameBuffer { rows }
    }
}

} // verus!

use vstd::prelude::*;

verus! {

/// Width of the display in pixels.
pub const WIDTH: usize = 64;

/// Height of the display in pixels.
pub const HEIGHT: usize = 32;

/// Number of pixels of the display.
pub const DISPLAY_SIZE: usize = WIDTH * HEIGHT;

/// Whether bit `c` (0 is the most significant) of `byte` is set.
pub open spec fn bit_of(byte: u8, c: int) -> bool {
    ((byte >> ((7 - c) as u8)) & 1u8) == 1u8
}

/// The pixel in column `px` and row `py` of a row-major pixel sequence.
pub open spec fn pixel(s: Seq<bool>, px: int, py: int) -> bool {
    s[py * WIDTH + px]
}

/// Whether `(px, py)` lies on the display.
pub open spec fn on_grid(px: int, py: int) -> bool {
    0 <= px < WIDTH && 0 <= py < HEIGHT
}

/// Whether the sprite `sprite`, placed with its top-left corner at `(x, y)`,
/// has a set bit over the pixel `(px, py)`.
pub open spec fn sprite_hits(sprite: Seq<u8>, x: int, y: int, px: int, py: int) -> bool {
    &&& x <= px < x + 8
    &&& y <= py < y + sprite.len()
    &&& bit_of(sprite[py - y], px - x)
}

/// The display `s` after `sprite` was XORed onto it at `(x, y)`.
pub open spec fn draw(s: Seq<bool>, sprite: Seq<u8>, x: int, y: int) -> Seq<bool> {
    Seq::new(
        s.len(),
        |p: int| s[p] != sprite_hits(sprite, x, y, p % (WIDTH as int), p / (WIDTH as int)),
    )
}

/// The display with every pixel off.
pub open spec fn blank() -> Seq<bool> {
    Seq::new(DISPLAY_SIZE as nat, |p: int| false)
}

/// Whether drawing `sprite` at `(x, y)` over `s` turns some lit pixel off.
pub open spec fn collides(s: Seq<bool>, sprite: Seq<u8>, x: int, y: int) -> bool {
    exists|px: int, py: int|
        on_grid(px, py) && #[trigger] pixel(s, px, py) && sprite_hits(sprite, x, y, px, py)
}

proof fn lemma_pixel_index_distinct(px: int, py: int, qx: int, qy: int)
    requires
        on_grid(px, py),
        on_grid(qx, qy),
        px != qx || py != qy,
    ensures
        py * WIDTH + px != qy * WIDTH + qx,
{
}

proof fn lemma_draw_pointwise(s: Seq<bool>, t: Seq<bool>, sprite: Seq<u8>, x: int, y: int)
    requires
        s.len() == DISPLAY_SIZE,
        t.len() == DISPLAY_SIZE,
        forall|px: int, py: int|
            on_grid(px, py) ==> #[trigger] pixel(t, px, py) == (pixel(s, px, py) != sprite_hits(
                sprite,
                x,
                y,
                px,
                py,
            )),
    ensures
        t == draw(s, sprite, x, y),
{
    assert forall|p: int| 0 <= p < DISPLAY_SIZE implies t[p] == draw(s, sprite, x, y)[p] by {
        let (px, py) = (p % (WIDTH as int), p / (WIDTH as int));
        assert(py * WIDTH + px == p);
        assert(pixel(t, px, py) == (pixel(s, px, py) != sprite_hits(sprite, x, y, px, py)));
    }
    assert(t =~= draw(s, sprite, x, y));
}

/// The 64x32 monochrome display, row-major.
pub struct DisplayBuffer {
    pub buffer: [bool; DISPLAY_SIZE],
}

impl View for DisplayBuffer {
    type V = Seq<bool>;

    open spec fn view(&self) -> Seq<bool> {
        self.buffer@
    }
}

/// The eight bits of `byte`, the most significant first.
pub fn to_bits(byte: u8) -> (r: [bool; 8])
    ensures
        forall|c: int| 0 <= c < 8 ==> r@[c] == bit_of(byte, c),
{
    let mut r = [false; 8];
    let mut c: usize = 0;
    while c < 8
        invariant
            c <= 8,
            r@.len() == 8,
            forall|d: int| 0 <= d < c ==> r@[d] == bit_of(byte, d),
        decreases 8 - c,
    {
        r[c] = ((byte >> ((7 - c) as u8)) & 1u8) == 1u8;
        c = c + 1;
    }
    r
}

impl DisplayBuffer {
    pub fn new() -> (r: DisplayBuffer)
        ensures
            r@ == blank(),
    {
        let r = DisplayBuffer { buffer: [false; DISPLAY_SIZE] };
        assert(r@ =~= blank());
        r
    }

    pub fn buffer(&self) -> (r: &[bool; DISPLAY_SIZE])
        ensures
            r@ == self@,
    {
        &self.buffer
    }

    /// XORs `sprite` onto the display with its top-left corner at `(x, y)`.
    /// Bits that fall off the right or bottom edge are dropped. Returns whether
    /// any lit pixel was turned off.
    pub fn write_sprite(&mut self, sprite: &[u8], x: usize, y: usize) -> (collision: bool)
        ensures
            final(self)@.len() == DISPLAY_SIZE,
            forall|px: int, py: int|
                on_grid(px, py) ==> #[trigger] pixel(final(self)@, px, py) == (pixel(
                    old(self)@,
                    px,
                    py,
                ) != sprite_hits(sprite@, x as int, y as int, px, py)),
            final(self)@ == draw(old(self)@, sprite@, x as int, y as int),
            collision == collides(old(self)@, sprite@, x as int, y as int),
    {
        let ghost old_s = self@;
        let rows: usize = if y >= HEIGHT {
            0
        } else if sprite.len() < HEIGHT - y {
            sprite.len()
        } else {
            HEIGHT - y
        };
        let cols: usize = if x >= WIDTH {
            0
        } else if 8 < WIDTH - x {
            8
        } else {
            WIDTH - x
        };
        let mut collision = false;
        let mut r: usize = 0;
        while r < rows
            invariant
                r <= rows,
                rows <= sprite@.len(),
                rows > 0 ==> y + rows <= HEIGHT,
                cols <= 8,
                cols > 0 ==> x + cols <= WIDTH,
                x >= WIDTH ==> cols == 0,
                x < WIDTH ==> (cols == 8 || x + cols == WIDTH),
                y >= HEIGHT ==> rows == 0,
                y < HEIGHT ==> (rows == sprite@.len() || y + rows == HEIGHT),
                self@.len() == DISPLAY_SIZE,
                old_s.len() == DISPLAY_SIZE,
                forall|px: int, py: int|
                    on_grid(px, py) ==> #[trigger] pixel(self@, px, py) == (pixel(old_s, px, py) != (
                    sprite_hits(sprite@, x as int, y as int, px, py) && py < y + r)),
                collision == exists|px: int, py: int|
                    on_grid(px, py) && #[trigger] pixel(old_s, px, py) && sprite_hits(
                        sprite@,
                        x as int,
                        y as int,
                        px,
                        py,
                    ) && py < y + r,
            decreases rows - r,
        {
            let bits = to_bits(sprite[r]);
            let mut c: usize = 0;
            while c < cols
                invariant
                    r < rows,
                    c <= cols,
                    rows <= sprite@.len(),
                    y + rows <= HEIGHT,
                    cols <= 8,
                    cols > 0 ==> x + cols <= WIDTH,
                    x < WIDTH ==> (cols == 8 || x + cols == WIDTH),
                    x >= WIDTH ==> cols == 0,
                    forall|d: int| 0 <= d < 8 ==> bits@[d] == bit_of(sprite@[r as int], d),
                    self@.len() == DISPLAY_SIZE,
                    old_s.len() == DISPLAY_SIZE,
                    forall|px: int, py: int|
                        on_grid(px, py) ==> #[trigger] pixel(self@, px, py) == (pixel(old_s, px, py)
                            != (sprite_hits(sprite@, x as int, y as int, px, py) && (py < y + r || (
                        py == y + r && px < x + c)))),
                    collision == exists|px: int, py: int|
                        on_grid(px, py) && #[trigger] pixel(old_s, px, py) && sprite_hits(
                            sprite@,
                            x as int,
                            y as int,
                            px,
                            py,
                        ) && (py < y + r || (py == y + r && px < x + c)),
                decreases cols - c,
            {
                let ghost before = self@;
                let ghost (qx, qy) = ((x + c) as int, (y + r) as int);
                assert(pixel(before, qx, qy) == pixel(old_s, qx, qy));
                let hit = self.set_pos(x + c, y + r, bits[c]);
                assert forall|px: int, py: int|
                    on_grid(px, py) && (px != qx || py != qy) implies #[trigger] pixel(
                        self@,
                        px,
                        py,
                    ) == pixel(before, px, py) by {
                    lemma_pixel_index_distinct(px, py, qx, qy);
                }
                assert(sprite_hits(sprite@, x as int, y as int, qx, qy) == bits@[c as int]);
                if hit {
                    assert(on_grid(qx, qy) && pixel(old_s, qx, qy) && sprite_hits(
                        sprite@,
                        x as int,
                        y as int,
                        qx,
                        qy,
                    ));
                }
                collision = collision || hit;
                c = c + 1;
            }
            r = r + 1;
        }
        proof {
            lemma_draw_pointwise(old_s, self@, sprite@, x as int, y as int);
        }
        collision
    }

    /// Turns every pixel off.
    pub fn clear(&mut self)
        ensures
            final(self)@ == blank(),
    {
        let mut p: usize = 0;
        while p < DISPLAY_SIZE
            invariant
                p <= DISPLAY_SIZE,
                self@.len() == DISPLAY_SIZE,
                forall|q: int| 0 <= q < p ==> !self@[q],
            decreases DISPLAY_SIZE - p,
        {
            self.buffer[p] = false;
            p = p + 1;
        }
        assert(self@ =~= blank());
    }

    /// XORs `val` into the pixel `(x, y)` if it lies on the display, and returns
    /// whether a lit pixel was turned off.
    fn set_pos(&mut self, x: usize, y: usize, val: bool) -> (r: bool)
        ensures
            on_grid(x as int, y as int) ==> final(self)@ == old(self)@.update(
                y * WIDTH + x,
                old(self)@[y * WIDTH + x] != val,
            ) && r == (old(self)@[y * WIDTH + x] && val),
            !on_grid(x as int, y as int) ==> final(self)@ == old(self)@ && !r,
    {
        if x >= WIDTH || y >= HEIGHT {
            return false;
        }
        let index = y * WIDTH + x;
        let collision = self.buffer[index] && val;
        self.buffer[index] = self.buffer[index] != val;
        collision
    }
}

/// Drawing the same sprite twice at the same place restores the display: every
/// pixel the first draw touched is turned back. On a blank display the first draw
/// reports no collision, and the second reports one exactly when the sprite lit
/// some pixel of the display.
pub proof fn lemma_draw_twice(s: Seq<bool>, sprite: Seq<u8>, x: int, y: int)
    ensures
        draw(draw(s, sprite, x, y), sprite, x, y) == s,
        !collides(blank(), sprite, x, y),
        collides(draw(blank(), sprite, x, y), sprite, x, y) <==> exists|px: int, py: int|
            on_grid(px, py) && #[trigger] sprite_hits(sprite, x, y, px, py),
{
    assert(draw(draw(s, sprite, x, y), sprite, x, y) =~= s);
    let once = draw(blank(), sprite, x, y);
    if exists|px: int, py: int| on_grid(px, py) && #[trigger] sprite_hits(sprite, x, y, px, py) {
        let (px, py) = choose|px: int, py: int|
            on_grid(px, py) && #[trigger] sprite_hits(sprite, x, y, px, py);
        let p = py * WIDTH + px;
        assert(p % (WIDTH as int) == px && p / (WIDTH as int) == py);
        assert(pixel(once, px, py));
    }
}

/// Sprites are clipped, never wrapped: a draw at `(x, y)` leaves every pixel left
/// of column `x` or above row `y` as it was.
pub proof fn lemma_draw_clips(s: Seq<bool>, sprite: Seq<u8>, x: int, y: int, px: int, py: int)
    requires
        s.len() == DISPLAY_SIZE,
        on_grid(px, py),
        px < x || py < y,
    ensures
        pixel(draw(s, sprite, x, y), px, py) == pixel(s, px, py),
{
    let p = py * WIDTH + px;
    assert(p % (WIDTH as int) == px && p / (WIDTH as int) == py);
}

} // verus!

use vstd::prelude::*;
use vstd::arithmetic::div_mod::lemma_fundamental_div_mod_converse;

verus! {

/// Side of the square placeholder texture, in pixels.
pub const PLACEHOLDER_SIZE: u32 = 256;

/// Channel `c` (RGBA order) of the placeholder pixel at column `x`, row `y`:
/// opaque black where `(x < 128) == (y < 128)`, opaque magenta elsewhere.
pub open spec fn checker_byte(x: int, y: int, c: int) -> u8 {
    if (x < 128) == (y < 128) {
        if c == 3 { 255 } else { 0 }
    } else {
        if c == 1 { 0 } else { 255 }
    }
}

/// Byte `p` of the placeholder image, pixels stored four bytes each, row
/// after row of 256 pixels.
pub open spec fn placeholder_byte(p: int) -> u8 {
    checker_byte((p / 4) / 256, (p / 4) % 256, p % 4)
}

/// The channel `c` of the pixel at column `x`, row `y` of the placeholder
/// image sits at byte `(x * 256 + y) * 4 + c`.
pub proof fn lemma_placeholder_pixel(x: int, y: int, c: int)
    requires
        0 <= x < 256,
        0 <= y < 256,
        0 <= c < 4,
    ensures
        placeholder_byte((x * 256 + y) * 4 + c) == checker_byte(x, y, c),
{
    lemma_fundamental_div_mod_converse((x * 256 + y) * 4 + c, 4, x * 256 + y, c);
    lemma_fundamental_div_mod_converse(x * 256 + y, 256, x, y);
}

/// Generates the placeholder image: a 256x256 RGBA checkerboard of four
/// quadrants.
pub fn placeholder_data() -> (r: Vec<u8>)
    ensures
        r@.len() == 256 * 256 * 4,
        forall|p: int| 0 <= p < r@.len() ==> #[trigger] r@[p] == placeholder_byte(p),
{
    let mut data: Vec<u8> = Vec::new();
    let mut q: u32 = 0;
    while q < PLACEHOLDER_SIZE * PLACEHOLDER_SIZE
        invariant
            0 <= q <= 256 * 256,
            data@.len() == 4 * q,
            forall|p: int| 0 <= p < data@.len() ==> #[trigger] data@[p] == placeholder_byte(p),
        decreases 256 * 256 - q,
    {
        let x = q / PLACEHOLDER_SIZE;
        let y = q % PLACEHOLDER_SIZE;
        let black = (x < 128) == (y < 128);
        let px: [u8; 4] = if black { [0, 0, 0, 255] } else { [255, 0, 255, 255] };
        let mut c: usize = 0;
        while c < 4
            invariant
                0 <= c <= 4,
                q < 256 * 256,
                x == q / 256,
                y == q % 256,
                black == ((x < 128) == (y < 128)),
                forall|k: int| 0 <= k < 4 ==> #[trigger] px@[k] == checker_byte(x as int, y as int, k),
                data@.len() == 4 * q + c,
                forall|p: int| 0 <= p < data@.len() ==> #[trigger] data@[p] == placeholder_byte(p),
            decreases 4 - c,
        {
            proof {
                lemma_fundamental_div_mod_converse(4 * q + c, 4, q as int, c as int);
            }
            data.push(px[c]);
            c = c + 1;
        }
        q = q + 1;
    }
    data
}

} // verus!

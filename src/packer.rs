//! Packing of an RGB(A) raster into a bit-per-pixel mask whose scanlines are
//! padded to whole 32-bit words.

use vstd::arithmetic::div_mod::{lemma_fundamental_div_mod, lemma_fundamental_div_mod_converse};
use vstd::prelude::*;

verus! {

/// Pixels whose mean channel brightness is below this value are ink.
pub const INK_THRESHOLD: u32 = 128;

/// A raster as a byte buffer: pixel `(x, y)` starts at byte
/// `y * pitch + x * bytes_per_pixel` and holds red, green and blue first.
pub struct Raster {
    pub pixels: Vec<u8>,
    pub width: u32,
    pub height: u32,
    pub pitch: usize,
    pub bytes_per_pixel: usize,
}

/// A bit-per-pixel mask: bit `x % 32` of word `(y * padded_width + x) / 32`
/// is set when pixel `(x, y)` is ink.
pub struct PackedBitmap {
    pub words: Vec<u32>,
    pub width: u32,
    pub height: u32,
    pub padded_width: u32,
}

/// Scanline width rounded up to the next multiple of 32.
pub open spec fn padded_width_spec(width: nat) -> nat {
    ((width + 31) / 32 * 32) as nat
}

/// Number of words that hold one padded scanline.
pub open spec fn row_stride(width: nat) -> nat {
    padded_width_spec(width) / 32
}

/// Mean of the three colour channels, rounded down.
pub open spec fn brightness(r: u8, g: u8, b: u8) -> int {
    (r + g + b) / 3
}

/// Whether the pixel at `(x, y)` lies inside the raster, has its three
/// colour bytes inside the buffer, and is darker than the threshold.
pub open spec fn is_ink(r: Raster, x: int, y: int) -> bool {
    let o = y * r.pitch + x * r.bytes_per_pixel;
    &&& 0 <= x < r.width
    &&& 0 <= y < r.height
    &&& o + 2 < r.pixels@.len()
    &&& brightness(r.pixels@[o], r.pixels@[o + 1], r.pixels@[o + 2]) < INK_THRESHOLD
}

/// Whether bit `b` of `w` is set.
pub open spec fn word_bit(w: u32, b: nat) -> bool {
    (w >> (b as u32)) & 1 == 1
}

/// The word made of the first `n` pixels of row `y` from column `x0`:
/// pixel `x0 + i` gives bit `i`.
pub open spec fn chunk_word(r: Raster, x0: int, y: int, n: nat) -> u32
    decreases n,
{
    if n == 0 {
        0
    } else {
        let prev = chunk_word(r, x0, y, (n - 1) as nat);
        if is_ink(r, x0 + n - 1, y) {
            prev | (1u32 << ((n - 1) as u32))
        } else {
            prev
        }
    }
}

/// The packed words of a raster: row after row, `row_stride` words per row.
pub open spec fn pack_words(r: Raster) -> Seq<u32> {
    let stride = row_stride(r.width as nat);
    Seq::new(
        (r.height * stride) as nat,
        |k: int| chunk_word(r, (k % stride as int) * 32, k / stride as int, 32),
    )
}

/// Whether the mask `words`, with scanlines `padded` bits long, marks `(x, y)`.
pub open spec fn packed_bit(words: Seq<u32>, padded: nat, x: int, y: int) -> bool {
    word_bit(words[(y * padded + x) / 32], (x % 32) as nat)
}

impl PackedBitmap {
    /// The mask agrees with its stated dimensions.
    pub open spec fn wf(&self) -> bool {
        &&& self.width <= u32::MAX - 31
        &&& self.padded_width == padded_width_spec(self.width as nat)
        &&& self.words@.len() == self.height * row_stride(self.width as nat)
    }

    /// Whether the mask marks pixel `(x, y)` as ink; `x` may reach into the
    /// padding of its scanline.
    pub fn bit_at(&self, x: u32, y: u32) -> (r: bool)
        requires
            self.wf(),
            x < self.padded_width,
            y < self.height,
        ensures
            r == packed_bit(self.words@, self.padded_width as nat, x as int, y as int),
    {
        let stride = self.padded_width / 32;
        let n = self.words.len();
        proof {
            lemma_padded_width(self.width as nat);
            lemma_word_index(y as int, x as int, self.padded_width as int);
            lemma_row_in_bounds(y as int, stride as int, self.height as int, (x / 32) as int);
        }
        let k = y as usize * stride as usize + (x / 32) as usize;
        (self.words[k] >> (x % 32)) & 1 == 1
    }
}

/// Rounds `width` up to the next multiple of 32 bits.
pub fn padded_width(width: u32) -> (r: u32)
    requires
        width <= u32::MAX - 31,
    ensures
        r == padded_width_spec(width as nat),
{
    (width + 31) / 32 * 32
}

/// The padded width is a multiple of 32, at least the width, and equal to
/// it exactly when the width is already a multiple of 32.
pub proof fn lemma_padded_width(width: nat)
    ensures
        padded_width_spec(width) % 32 == 0,
        padded_width_spec(width) >= width,
        padded_width_spec(width) < width + 32,
        padded_width_spec(width) == width <==> width % 32 == 0,
{
    lemma_fundamental_div_mod((width + 31) as int, 32);
    lemma_fundamental_div_mod(width as int, 32);
    let q = (width + 31) / 32;
    assert((q * 32) % 32 == 0) by {
        lemma_fundamental_div_mod_converse((q * 32) as int, 32, q as int, 0);
    }
}

proof fn lemma_word_index(y: int, x: int, padded: int)
    requires
        0 <= y,
        0 <= x < padded,
        padded % 32 == 0,
    ensures
        (y * padded + x) / 32 == y * (padded / 32) + x / 32,
        (x / 32) * 32 + x % 32 == x,
        x / 32 < padded / 32,
{
    let s = padded / 32;
    lemma_fundamental_div_mod(padded, 32);
    lemma_fundamental_div_mod(x, 32);
    assert(y * padded + x == (y * s + x / 32) * 32 + x % 32) by (nonlinear_arith)
        requires
            padded == 32 * s,
            x == 32 * (x / 32) + x % 32,
    ;
    lemma_fundamental_div_mod_converse(y * padded + x, 32, y * s + x / 32, x % 32);
    assert(x / 32 < s) by (nonlinear_arith)
        requires
            padded == 32 * s,
            x == 32 * (x / 32) + x % 32,
            x < padded,
            0 <= x % 32,
    ;
}

proof fn lemma_row_in_bounds(y: int, stride: int, height: int, c: int)
    requires
        0 <= y < height,
        0 <= c < stride,
    ensures
        y * stride + c < height * stride,
        0 <= y * stride + c,
        (y * stride + c) / stride == y,
        (y * stride + c) % stride == c,
{
    assert(y * stride + c < height * stride) by (nonlinear_arith)
        requires
            0 <= y < height,
            0 <= c < stride,
    ;
    assert(0 <= y * stride) by (nonlinear_arith)
        requires
            0 <= y,
            0 <= c < stride,
    ;
    lemma_fundamental_div_mod_converse(y * stride + c, stride, y, c);
}

proof fn lemma_set_bit(v: u32, i: u32, b: u32)
    requires
        i < 32,
        b < 32,
    ensures
        ((v | (1u32 << i)) >> b) & 1 == (if b == i {
            1u32
        } else {
            (v >> b) & 1
        }),
{
    assert(((v | (1u32 << i)) >> b) & 1 == (if b == i {
        1u32
    } else {
        (v >> b) & 1
    })) by (bit_vector)
        requires
            i < 32,
            b < 32,
    ;
}

proof fn lemma_zero_bit(b: u32)
    ensures
        (0u32 >> b) & 1 == 0,
{
    assert((0u32 >> b) & 1 == 0) by (bit_vector);
}

proof fn lemma_chunk_word_bit(r: Raster, x0: int, y: int, n: nat, b: nat)
    requires
        n <= 32,
        b < 32,
    ensures
        word_bit(chunk_word(r, x0, y, n), b) == (b < n && is_ink(r, x0 + b, y)),
    decreases n,
{
    if n == 0 {
        lemma_zero_bit(b as u32);
    } else {
        lemma_chunk_word_bit(r, x0, y, (n - 1) as nat, b);
        let prev = chunk_word(r, x0, y, (n - 1) as nat);
        if is_ink(r, x0 + n - 1, y) {
            lemma_set_bit(prev, (n - 1) as u32, b as u32);
        }
    }
}

/// Unpacking a packed raster gives back its ink classification: inside the
/// raster each bit is set exactly for the pixels darker than the threshold,
/// and the padding bits are clear.
pub proof fn lemma_pack_unpack(r: Raster, x: int, y: int)
    requires
        r.width <= u32::MAX - 31,
        0 <= y < r.height,
        0 <= x < padded_width_spec(r.width as nat),
    ensures
        packed_bit(pack_words(r), padded_width_spec(r.width as nat), x, y) == is_ink(r, x, y),
        x >= r.width ==> !packed_bit(pack_words(r), padded_width_spec(r.width as nat), x, y),
{
    let padded = padded_width_spec(r.width as nat) as int;
    let stride = row_stride(r.width as nat) as int;
    lemma_padded_width(r.width as nat);
    lemma_word_index(y, x, padded);
    lemma_row_in_bounds(y, stride, r.height as int, x / 32);
    let k = y * stride + x / 32;
    assert(pack_words(r)[k] == chunk_word(r, (x / 32) * 32, y, 32));
    lemma_chunk_word_bit(r, (x / 32) * 32, y, 32, (x % 32) as nat);
}

/// Whether pixel `(x, y)` of the raster is ink.
fn ink_at(r: &Raster, x: u32, y: u32) -> (ink: bool)
    ensures
        ink == is_ink(*r, x as int, y as int),
{
    let len = r.pixels.len();
    if x >= r.width || y >= r.height {
        return false;
    }
    proof {
        let (yi, pi, xi, bi) = (y as int, r.pitch as int, x as int, r.bytes_per_pixel as int);
        assert(yi * pi >= 0 && xi * bi >= 0) by (nonlinear_arith)
            requires
                yi >= 0,
                pi >= 0,
                xi >= 0,
                bi >= 0,
        ;
    }
    let row = match (y as usize).checked_mul(r.pitch) {
        Some(v) => v,
        None => return false,
    };
    let col = match (x as usize).checked_mul(r.bytes_per_pixel) {
        Some(v) => v,
        None => return false,
    };
    let o = match row.checked_add(col) {
        Some(v) => v,
        None => return false,
    };
    if o >= len || len - o <= 2 {
        return false;
    }
    let red = r.pixels[o] as u32;
    let green = r.pixels[o + 1] as u32;
    let blue = r.pixels[o + 2] as u32;
    (red + green + blue) / 3 < INK_THRESHOLD
}

/// Packs a raster into a bit-per-pixel mask, 32 pixels per word with pixel
/// `i` of a chunk in bit `i`, each scanline padded with clear bits to a whole
/// number of words.
pub fn pack_raster(r: &Raster) -> (p: PackedBitmap)
    requires
        r.width <= u32::MAX - 31,
    ensures
        p.wf(),
        p.width == r.width,
        p.height == r.height,
        p.words@ == pack_words(*r),
{
    let pw = padded_width(r.width);
    let stride = pw / 32;
    let ghost spec_words = pack_words(*r);
    let mut words: Vec<u32> = Vec::new();
    let mut y: u32 = 0;
    while y < r.height
        invariant
            y <= r.height,
            stride == row_stride(r.width as nat),
            stride <= u32::MAX / 32,
            words@.len() == y * stride,
            spec_words == pack_words(*r),
            forall|k: int| 0 <= k < words@.len() ==> words@[k] == spec_words[k],
        decreases r.height - y,
    {
        let mut c: u32 = 0;
        while c < stride
            invariant
                y < r.height,
                c <= stride,
                stride == row_stride(r.width as nat),
                stride <= u32::MAX / 32,
                words@.len() == y * stride + c,
                spec_words == pack_words(*r),
                forall|k: int| 0 <= k < words@.len() ==> words@[k] == spec_words[k],
            decreases stride - c,
        {
            let mut value: u32 = 0;
            let mut i: u32 = 0;
            while i < 32
                invariant
                    i <= 32,
                    c < stride,
                    stride <= u32::MAX / 32,
                    value == chunk_word(*r, (c * 32) as int, y as int, i as nat),
                decreases 32 - i,
            {
                let x = c * 32 + i;
                if ink_at(r, x, y) {
                    value = value | (1u32 << i);
                }
                i += 1;
            }
            proof {
                lemma_row_in_bounds(y as int, stride as int, r.height as int, c as int);
            }
            words.push(value);
            c += 1;
        }
        proof {
            assert((y + 1) * stride == y * stride + stride) by (nonlinear_arith);
        }
        y += 1;
    }
    proof {
        assert(words@ =~= spec_words);
    }
    PackedBitmap { words, width: r.width, height: r.height, padded_width: pw }
}

} // verus!

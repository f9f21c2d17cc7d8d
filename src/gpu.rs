use vstd::prelude::*;

verus! {

/// Bytes in the frame buffer: 32 x 32 tiles of 8 x 8 pixels, 3 bytes each.
pub const DISPLAY_SIZE_IN_BYTES: usize = 196_608;

/// Bytes of one packed tile.
pub const TILE_BYTES: usize = 16;

/// Bytes of one decoded tile: 64 pixels of R, G, B.
pub const TILE_RGB_BYTES: usize = 192;

/// Bit `k` of `b`, as 0 or 1.
pub open spec fn bit(b: u8, k: u8) -> u8 {
    (b >> k) & 1
}

/// Bits 7, 5, 3 and 1 of `b` as a nibble, bit 7 highest.
pub open spec fn odd_bits(b: u8) -> u8 {
    (8 * bit(b, 7) + 4 * bit(b, 5) + 2 * bit(b, 3) + bit(b, 1)) as u8
}

/// Bits 6, 4, 2 and 0 of `b` as a nibble, bit 6 highest.
pub open spec fn even_bits(b: u8) -> u8 {
    (8 * bit(b, 6) + 4 * bit(b, 4) + 2 * bit(b, 2) + bit(b, 0)) as u8
}

/// Byte `i` of the rearranged tile. Each pair of input bytes gives two
/// bytes: first the even-position bits of both, then the odd-position bits.
pub open spec fn arranged_byte(t: Seq<u8>, i: int) -> u8 {
    let lhs = t[i - i % 2];
    let rhs = t[i - i % 2 + 1];
    if i % 2 == 0 {
        (16 * even_bits(lhs) + even_bits(rhs)) as u8
    } else {
        (16 * odd_bits(lhs) + odd_bits(rhs)) as u8
    }
}

pub open spec fn arranged(t: Seq<u8>) -> Seq<u8> {
    Seq::new(t.len(), |i: int| arranged_byte(t, i))
}

/// RGB color of a 2-bit color index.
pub open spec fn palette(index: u8) -> u32 {
    if index == 0 {
        0xE0F8D0
    } else if index == 1 {
        0x89C06F
    } else if index == 2 {
        0x356856
    } else {
        0x081820
    }
}

/// Channel `c` of `color`: 0 red, 1 green, 2 blue.
pub open spec fn channel(color: u32, c: int) -> u8 {
    if c == 0 {
        (color / 0x10000) as u8
    } else if c == 1 {
        ((color / 0x100) % 0x100) as u8
    } else {
        (color % 0x100) as u8
    }
}

/// Color index of pixel `p`: the `p % 4`-th two-bit group, from the top,
/// of byte `p / 4`.
pub open spec fn color_index(t: Seq<u8>, p: int) -> u8 {
    (t[p / 4] >> ((6 - 2 * (p % 4)) as u8)) & 3
}

/// RGB bytes of the 64 pixels of `t`, row-major.
pub open spec fn pixels_rgb(t: Seq<u8>) -> Seq<u8> {
    Seq::new(TILE_RGB_BYTES as nat, |i: int| channel(palette(color_index(t, i / 3)), i % 3))
}

/// The decoded form of a packed 16-byte tile.
pub open spec fn tile_rgb(t: Seq<u8>) -> Seq<u8> {
    pixels_rgb(arranged(t))
}

pub fn extract_high_bits(byte: u8) -> (r: u8)
    ensures
        r == odd_bits(byte),
{
    assert(((byte >> 4) & 0b1000) | ((byte >> 3) & 0b0100) | ((byte >> 2) & 0b0010) | ((byte >> 1)
        & 0b0001) == (8 * ((byte >> 7) & 1) + 4 * ((byte >> 5) & 1) + 2 * ((byte >> 3) & 1) + ((
    byte >> 1) & 1)) as u8) by (bit_vector);
    ((byte >> 4) & 0b1000) | ((byte >> 3) & 0b0100) | ((byte >> 2) & 0b0010) | ((byte >> 1)
        & 0b0001)
}

pub fn extract_low_bits(byte: u8) -> (r: u8)
    ensures
        r == even_bits(byte),
{
    assert(((byte >> 3) & 0b1000) | ((byte >> 2) & 0b0100) | ((byte >> 1) & 0b0010) | (byte
        & 0b0001) == (8 * ((byte >> 6) & 1) + 4 * ((byte >> 4) & 1) + 2 * ((byte >> 2) & 1) + ((
    byte >> 0) & 1)) as u8) by (bit_vector);
    ((byte >> 3) & 0b1000) | ((byte >> 2) & 0b0100) | ((byte >> 1) & 0b0010) | (byte & 0b0001)
}

proof fn lemma_nibbles_bounded(b: u8)
    ensures
        odd_bits(b) < 16,
        even_bits(b) < 16,
{
    assert((8 * ((b >> 7) & 1) + 4 * ((b >> 5) & 1) + 2 * ((b >> 3) & 1) + ((b >> 1) & 1)) < 16)
        by (bit_vector);
    assert((8 * ((b >> 6) & 1) + 4 * ((b >> 4) & 1) + 2 * ((b >> 2) & 1) + ((b >> 0) & 1)) < 16)
        by (bit_vector);
}

/// Joins two nibbles into a byte, `high` on top.
fn join_nibbles(high: u8, low: u8) -> (r: u8)
    requires
        high < 16,
        low < 16,
    ensures
        r == (16 * high + low) as u8,
{
    assert((high << 4) | low == (16 * high + low) as u8) by (bit_vector)
        requires
            high < 16,
            low < 16,
    ;
    (high << 4) | low
}

/// Regroups the bits of a packed tile so that each byte holds four
/// consecutive two-bit color indices.
pub fn arrange_tile_bytes(tile: &[u8]) -> (r: Vec<u8>)
    requires
        tile@.len() == TILE_BYTES,
    ensures
        r@ == arranged(tile@),
{
    let mut result: Vec<u8> = Vec::new();
    let mut i: usize = 0;
    while i < TILE_BYTES
        invariant
            tile@.len() == TILE_BYTES,
            i <= TILE_BYTES,
            i % 2 == 0,
            result@.len() == i,
            forall|k: int| 0 <= k < i ==> result@[k] == arranged_byte(tile@, k),
        decreases TILE_BYTES - i,
    {
        let lhs = tile[i];
        let rhs = tile[i + 1];
        proof {
            lemma_nibbles_bounded(lhs);
            lemma_nibbles_bounded(rhs);
        }
        let high = join_nibbles(extract_low_bits(lhs), extract_low_bits(rhs));
        let low = join_nibbles(extract_high_bits(lhs), extract_high_bits(rhs));
        result.push(high);
        result.push(low);
        assert(i as int + 1 - (i as int + 1) % 2 == i as int);
        i = i + 2;
    }
    assert(result@ =~= arranged(tile@));
    result
}

pub fn palette_color(index: u8) -> (r: u32)
    ensures
        r == palette(index),
{
    match index {
        0 => 0xE0F8D0,
        1 => 0x89C06F,
        2 => 0x356856,
        _ => 0x081820,
    }
}

/// Expands 16 bytes of four two-bit color indices each into 64 RGB pixels.
pub fn map_tile_pixels(tile: &[u8]) -> (r: Vec<u8>)
    requires
        tile@.len() == TILE_BYTES,
    ensures
        r@ == pixels_rgb(tile@),
{
    let mut result: Vec<u8> = Vec::new();
    let mut i: usize = 0;
    while i < TILE_BYTES
        invariant
            tile@.len() == TILE_BYTES,
            i <= TILE_BYTES,
            result@.len() == 12 * i,
            forall|k: int| 0 <= k < 12 * i ==> result@[k] == pixels_rgb(tile@)[k],
        decreases TILE_BYTES - i,
    {
        let b = tile[i];
        let mut j: u8 = 0;
        while j < 4
            invariant
                tile@.len() == TILE_BYTES,
                i < TILE_BYTES,
                b == tile@[i as int],
                j <= 4,
                result@.len() == 12 * i + 3 * j,
                forall|k: int| 0 <= k < 12 * i + 3 * j ==> result@[k] == pixels_rgb(tile@)[k],
            decreases 4 - j,
        {
            let offset: u8 = 6 - 2 * j;
            let index = (b >> offset) & 0b11;
            let color = palette_color(index);
            let ghost p: int = 4 * i + j;
            assert((color & 0x00FF_0000) >> 16 == color / 0x10000) by (bit_vector)
                requires
                    color < 0x0100_0000,
            ;
            assert((color & 0x0000_FF00) >> 8 == (color / 0x100) % 0x100) by (bit_vector);
            assert(color & 0x0000_00FF == color % 0x100) by (bit_vector);
            assert(p / 4 == i && p % 4 == j);
            assert((3 * p) / 3 == p && (3 * p + 1) / 3 == p && (3 * p + 2) / 3 == p);
            assert((3 * p) % 3 == 0 && (3 * p + 1) % 3 == 1 && (3 * p + 2) % 3 == 2);
            result.push(((color & 0x00FF_0000) >> 16) as u8);
            result.push(((color & 0x0000_FF00) >> 8) as u8);
            result.push((color & 0x0000_00FF) as u8);
            j = j + 1;
        }
        i = i + 1;
    }
    assert(result@ =~= pixels_rgb(tile@));
    result
}

/// Decodes a packed 2-bit-per-pixel tile into 192 bytes of RGB.
pub fn decode_tile(tile: &[u8]) -> (r: Vec<u8>)
    requires
        tile@.len() == TILE_BYTES,
    ensures
        r@ == tile_rgb(tile@),
        r@.len() == TILE_RGB_BYTES,
{
    let arranged_bytes = arrange_tile_bytes(tile);
    map_tile_pixels(arranged_bytes.as_slice())
}

/// Decoding depends on the input bytes alone: equal inputs give equal
/// outputs, and every output is 192 bytes long.
pub proof fn lemma_decode_tile_deterministic(x: Seq<u8>, y: Seq<u8>)
    requires
        x.len() == TILE_BYTES,
        x == y,
    ensures
        tile_rgb(x) == tile_rgb(y),
        tile_rgb(x).len() == TILE_RGB_BYTES,
{
}

/// A frame of 256 x 256 RGB pixels, laid out tile after tile.
pub struct FrameBuffer {
    pub display: Vec<u8>,
}

impl FrameBuffer {
    pub open spec fn wf(&self) -> bool {
        self.display@.len() == DISPLAY_SIZE_IN_BYTES
    }

    pub fn new() -> (r: Self)
        ensures
            r.wf(),
            forall|i: int| 0 <= i < DISPLAY_SIZE_IN_BYTES ==> r.display@[i] == 0,
    {
        FrameBuffer { display: vec![0u8; DISPLAY_SIZE_IN_BYTES] }
    }

    /// Copies a decoded tile to the bytes from `position` on.
    pub fn set_tile_on_display(&mut self, tile: &[u8], position: usize)
        requires
            old(self).wf(),
            tile@.len() == TILE_RGB_BYTES,
            position + TILE_RGB_BYTES <= DISPLAY_SIZE_IN_BYTES,
        ensures
            final(self).wf(),
            forall|k: int|
                0 <= k < DISPLAY_SIZE_IN_BYTES ==> final(self).display@[k] == if position <= k
                    < position + TILE_RGB_BYTES {
                    tile@[k - position]
                } else {
                    old(self).display@[k]
                },
    {
        let mut i: usize = 0;
        while i < TILE_RGB_BYTES
            invariant
                tile@.len() == TILE_RGB_BYTES,
                position + TILE_RGB_BYTES <= DISPLAY_SIZE_IN_BYTES,
                i <= TILE_RGB_BYTES,
                self.wf(),
                forall|k: int|
                    0 <= k < DISPLAY_SIZE_IN_BYTES ==> self.display@[k] == if position <= k
                        < position + i {
                        tile@[k - position]
                    } else {
                        old(self).display@[k]
                    },
            decreases TILE_RGB_BYTES - i,
        {
            self.display.set(position + i, tile[i]);
            i = i + 1;
        }
    }
}

} // verus!

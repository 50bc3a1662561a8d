//! 24-bit RGB colours shared by the board's settings, menus and LED engine.
use vstd::prelude::*;
use embedded_graphics::pixelcolor::{IntoStorage, Rgb565};

verus! {

/// Why a run of colours could not be turned into bytes.
#[derive(Debug, Clone, Copy, PartialEq, Eq, Structural)]
pub enum ColorConversionError {
    NonHomogeneousIterator,
    TooMuchColorData,
}

/// The colour type used throughout the project (24 bits per pixel).
#[derive(Clone, Copy, Debug, PartialEq, Eq, Structural)]
pub struct RGB {
    pub r: u8,
    pub g: u8,
    pub b: u8,
}

/// Perceived brightness of a colour, weighting the channels 77:150:29 out of 256.
pub open spec fn spec_luminance(c: RGB) -> int {
    (c.r * 77 + c.g * 150 + c.b * 29) / 256
}

/// `a + b` clamped to the range of a byte.
pub open spec fn sat_add(a: int, b: int) -> int {
    if a + b > 255 { 255 } else { a + b }
}

/// `a - b` clamped at zero.
pub open spec fn sat_sub(a: int, b: int) -> int {
    if a - b < 0 { 0 } else { a - b }
}

/// `a * b` clamped to the range of a byte.
pub open spec fn sat_mul(a: int, b: int) -> int {
    if a * b > 255 { 255 } else { a * b }
}

/// The three bytes of a colour, red first.
pub open spec fn rgb_bytes(c: RGB) -> Seq<u8> {
    seq![c.r, c.g, c.b]
}

/// The bytes of a run of colours: three per colour, in order.
pub open spec fn flatten_rgb(s: Seq<RGB>) -> Seq<u8>
    decreases s.len(),
{
    if s.len() == 0 {
        Seq::empty()
    } else {
        flatten_rgb(s.drop_last()) + rgb_bytes(s.last())
    }
}

pub proof fn lemma_flatten_rgb_len(s: Seq<RGB>)
    ensures
        flatten_rgb(s).len() == 3 * s.len(),
    decreases s.len(),
{
    if s.len() > 0 {
        lemma_flatten_rgb_len(s.drop_last());
    }
}

/// The byte at position `k` of the flattened run is channel `k % 3` of colour `k / 3`.
pub proof fn lemma_flatten_rgb_index(s: Seq<RGB>, k: int)
    requires
        0 <= k < 3 * s.len(),
    ensures
        flatten_rgb(s).len() == 3 * s.len(),
        flatten_rgb(s)[k] == rgb_bytes(s[k / 3])[k % 3],
    decreases s.len(),
{
    lemma_flatten_rgb_len(s);
    lemma_flatten_rgb_len(s.drop_last());
    if k < 3 * (s.len() - 1) {
        lemma_flatten_rgb_index(s.drop_last(), k);
    }
}

fn byte_sat_add(a: u8, b: u8) -> (r: u8)
    ensures
        r == sat_add(a as int, b as int),
{
    if a as u16 + b as u16 > 255 { 255 } else { a + b }
}

fn byte_sat_sub(a: u8, b: u8) -> (r: u8)
    ensures
        r == sat_sub(a as int, b as int),
{
    if a < b { 0 } else { a - b }
}

fn byte_sat_mul(a: u8, b: u8) -> (r: u8)
    ensures
        r == sat_mul(a as int, b as int),
{
    let a16 = a as u16;
    let b16 = b as u16;
    assert(a16 * b16 <= 255 * 255) by (nonlinear_arith)
        requires
            a16 <= 255,
            b16 <= 255,
    ;
    let p: u16 = a16 * b16;
    if p > 255 { 255 } else { p as u8 }
}

/// The 16-bit R5G6B5 word of a colour: the top five bits of red, the top six of green and the
/// top five of blue, red in the high bits.
pub open spec fn rgb565_of(c: RGB) -> int {
    (c.r / 8) * 2048 + (c.g / 4) * 32 + c.b / 8
}

/// `Rgb565::new(r, g, b).into_storage()` of embedded-graphics. Its source masks each channel to
/// its width (five, six and five bits) and packs red at bit 11, green at bit 5 and blue at bit 0;
/// the contract states that packing.
#[verifier::external_body]
fn rgb565_word(r: u8, g: u8, b: u8) -> (w: u16)
    ensures
        w == (r % 32) * 2048 + (g % 64) * 32 + (b % 32),
{
    Rgb565::new(r, g, b).into_storage()
}

impl RGB {
    /// A colour with all three channels equal to `v`.
    pub fn grey(v: u8) -> (c: RGB)
        ensures
            c == (RGB { r: v, g: v, b: v }),
    {
        RGB { r: v, g: v, b: v }
    }

    /// Perceived brightness: `(77 r + 150 g + 29 b) >> 8`.
    pub fn luminance(&self) -> (l: u16)
        ensures
            l == spec_luminance(*self),
            l <= 255,
    {
        let v: u16 = (self.r as u16 * 77) + (self.g as u16 * 150) + (self.b as u16 * 29);
        assert(v >> 8 == v / 256) by (bit_vector);
        v >> 8
    }

    /// The colour as embedded-graphics' `Rgb565` stores it, the low bits of each channel dropped.
    pub fn as_rgb565(&self) -> (w: u16)
        ensures
            w == rgb565_of(*self),
    {
        let r = self.r;
        let g = self.g;
        let b = self.b;
        assert(r >> 3 == r / 8 && g >> 2 == g / 4 && b >> 3 == b / 8) by (bit_vector);
        rgb565_word(r >> 3, g >> 2, b >> 3)
    }

    /// Channel-wise saturating sum.
    pub fn add(self, other: RGB) -> (c: RGB)
        ensures
            c.r == sat_add(self.r as int, other.r as int),
            c.g == sat_add(self.g as int, other.g as int),
            c.b == sat_add(self.b as int, other.b as int),
    {
        RGB {
            r: byte_sat_add(self.r, other.r),
            g: byte_sat_add(self.g, other.g),
            b: byte_sat_add(self.b, other.b),
        }
    }

    /// Channel-wise saturating difference.
    pub fn sub(self, other: RGB) -> (c: RGB)
        ensures
            c.r == sat_sub(self.r as int, other.r as int),
            c.g == sat_sub(self.g as int, other.g as int),
            c.b == sat_sub(self.b as int, other.b as int),
    {
        RGB {
            r: byte_sat_sub(self.r, other.r),
            g: byte_sat_sub(self.g, other.g),
            b: byte_sat_sub(self.b, other.b),
        }
    }

    /// Channel-wise saturating product.
    pub fn mul(self, other: RGB) -> (c: RGB)
        ensures
            c.r == sat_mul(self.r as int, other.r as int),
            c.g == sat_mul(self.g as int, other.g as int),
            c.b == sat_mul(self.b as int, other.b as int),
    {
        RGB {
            r: byte_sat_mul(self.r, other.r),
            g: byte_sat_mul(self.g, other.g),
            b: byte_sat_mul(self.b, other.b),
        }
    }

    /// Every channel multiplied by `k`; the product must fit in a byte.
    pub fn scale(self, k: u8) -> (c: RGB)
        requires
            self.r * k <= 255,
            self.g * k <= 255,
            self.b * k <= 255,
        ensures
            c.r == self.r * k,
            c.g == self.g * k,
            c.b == self.b * k,
    {
        RGB { r: self.r * k, g: self.g * k, b: self.b * k }
    }

    /// The three bytes of the colour, red first.
    pub fn to_bytes(self) -> (a: [u8; 3])
        ensures
            a@ == rgb_bytes(self),
    {
        [self.r, self.g, self.b]
    }

    /// The bytes of a run of colours, three per colour; fails when that count overflows.
    pub fn to_byte_array(data: &[RGB]) -> (res: Result<Vec<u8>, ColorConversionError>)
        ensures
            match res {
                Ok(v) => 3 * data@.len() <= usize::MAX && v@ == flatten_rgb(data@),
                Err(e) => 3 * data@.len() > usize::MAX && e == ColorConversionError::TooMuchColorData,
            },
    {
        let n = data.len();
        match n.checked_mul(3) {
            None => Err(ColorConversionError::TooMuchColorData),
            Some(_) => {
                let mut out: Vec<u8> = Vec::new();
                let mut i: usize = 0;
                while i < n
                    invariant
                        n == data@.len(),
                        i <= n,
                        out@ == flatten_rgb(data@.take(i as int)),
                    decreases n - i,
                {
                    let c = data[i];
                    out.push(c.r);
                    out.push(c.g);
                    out.push(c.b);
                    proof {
                        assert(data@.take(i + 1).drop_last() =~= data@.take(i as int));
                        assert(out@ =~= flatten_rgb(data@.take(i + 1)));
                    }
                    i = i + 1;
                }
                assert(data@.take(n as int) =~= data@);
                Ok(out)
            },
        }
    }
}

/// The bytes of a run of colours as the display reads them in its 16-bit pixel format: each
/// colour's R5G6B5 word, high byte first.
pub open spec fn rgb565_bytes(s: Seq<RGB>) -> Seq<u8>
    decreases s.len(),
{
    if s.len() == 0 {
        Seq::empty()
    } else {
        let w = rgb565_of(s.last());
        rgb565_bytes(s.drop_last()) + seq![(w / 256) as u8, (w % 256) as u8]
    }
}

pub proof fn lemma_rgb565_bytes_len(s: Seq<RGB>)
    ensures
        rgb565_bytes(s).len() == 2 * s.len(),
    decreases s.len(),
{
    if s.len() > 0 {
        lemma_rgb565_bytes_len(s.drop_last());
    }
}

impl RGB {
    /// The bytes of a run of colours in the display's 16-bit format, two per colour (the R5G6B5
    /// word, high byte first); fails when that count overflows.
    pub fn to_rgb565_bytes(data: &[RGB]) -> (res: Result<Vec<u8>, ColorConversionError>)
        ensures
            match res {
                Ok(v) => 2 * data@.len() <= usize::MAX && v@ == rgb565_bytes(data@),
                Err(e) => 2 * data@.len() > usize::MAX && e == ColorConversionError::TooMuchColorData,
            },
    {
        let n = data.len();
        match n.checked_mul(2) {
            None => Err(ColorConversionError::TooMuchColorData),
            Some(_) => {
                let mut out: Vec<u8> = Vec::new();
                let mut i: usize = 0;
                while i < n
                    invariant
                        n == data@.len(),
                        i <= n,
                        out@ == rgb565_bytes(data@.take(i as int)),
                    decreases n - i,
                {
                    let w = data[i].as_rgb565();
                    out.push((w / 256) as u8);
                    out.push((w % 256) as u8);
                    proof {
                        assert(data@.take(i + 1).drop_last() =~= data@.take(i as int));
                        assert(out@ =~= rgb565_bytes(data@.take(i + 1)));
                    }
                    i = i + 1;
                }
                assert(data@.take(n as int) =~= data@);
                Ok(out)
            },
        }
    }
}

/// Linear interpolation between `a` and `b` at `t / 255`, rounded to nearest.
pub open spec fn spec_lerp(a: int, b: int, t: int) -> int {
    (a * (255 - t) + b * t + 127) / 255
}

/// A blend of two channel values stays between them, starts at the first, ends at the second,
/// and blending a value with itself gives it back.
pub proof fn lemma_lerp_range(a: int, b: int, t: int)
    requires
        0 <= a <= 255,
        0 <= b <= 255,
        0 <= t <= 255,
    ensures
        vstd::math::min(a, b) <= spec_lerp(a, b, t) <= vstd::math::max(a, b),
        t == 0 ==> spec_lerp(a, b, t) == a,
        t == 255 ==> spec_lerp(a, b, t) == b,
        a == b ==> spec_lerp(a, b, t) == a,
{
    let x = a * (255 - t) + b * t;
    let lo = vstd::math::min(a, b);
    let hi = vstd::math::max(a, b);
    assert(255 * lo <= x <= 255 * hi) by (nonlinear_arith)
        requires
            x == a * (255 - t) + b * t,
            0 <= t <= 255,
            lo <= a <= hi,
            lo <= b <= hi,
    {
        assert(a * (255 - t) >= lo * (255 - t));
        assert(b * t >= lo * t);
        assert(a * (255 - t) <= hi * (255 - t));
        assert(b * t <= hi * t);
    }
    assert(lo <= (x + 127) / 255 <= hi) by (nonlinear_arith)
        requires
            255 * lo <= x <= 255 * hi,
    ;
    if t == 0 {
        assert(x == 255 * a) by (nonlinear_arith)
            requires
                x == a * (255 - t) + b * t,
                t == 0,
        ;
    }
    if t == 255 {
        assert(x == 255 * b) by (nonlinear_arith)
            requires
                x == a * (255 - t) + b * t,
                t == 255,
        ;
    }
}

/// Linearly interpolates between `a` and `b` at the fraction `t / 255`.
pub fn lerp(a: u8, b: u8, t: u8) -> (r: u8)
    ensures
        r == spec_lerp(a as int, b as int, t as int),
        t == 0 ==> r == a,
        t == 255 ==> r == b,
{
    let a16 = a as u32;
    let b16 = b as u32;
    let t16 = t as u32;
    assert(a16 * (255 - t16) + b16 * t16 <= 255 * 255) by (nonlinear_arith)
        requires
            a16 <= 255,
            b16 <= 255,
            t16 <= 255,
    {
        assert(a16 * (255 - t16) <= 255 * (255 - t16));
        assert(b16 * t16 <= 255 * t16);
    }
    let result = (a16 * (255 - t16) + b16 * t16 + 127) / 255;
    proof {
        let x = a16 * (255 - t16) + b16 * t16;
        assert(x + 127 < 256 * 255);
        assert((x + 127) / 255 < 256) by (nonlinear_arith)
            requires
                x + 127 < 256 * 255,
                x + 127 >= 0,
        ;
        if t == 0 {
            assert(x == a16 * 255) by (nonlinear_arith)
                requires
                    x == a16 * (255 - t16) + b16 * t16,
                    t16 == 0,
            ;
            assert((a16 * 255 + 127) / 255 == a16) by (nonlinear_arith)
                requires
                    a16 <= 255,
            ;
        }
        if t == 255 {
            assert(x == b16 * 255) by (nonlinear_arith)
                requires
                    x == a16 * (255 - t16) + b16 * t16,
                    t16 == 255,
            ;
            assert((b16 * 255 + 127) / 255 == b16) by (nonlinear_arith)
                requires
                    b16 <= 255,
            ;
        }
    }
    result as u8
}

} // verus!

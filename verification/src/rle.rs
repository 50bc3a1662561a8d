//! The run-length encoding of the visual data in CBF font files and CBI background images.
//!
//! An encoded stream is a series of opcodes, ended by the byte `0xff` or by the end of the data:
//! - an opcode `c` with the top bit set copies the next `(c ^ 0x80) + 1` bytes literally;
//! - any other opcode `c` repeats the next byte `c + 2` times.
use vstd::prelude::*;
use vstd::arithmetic::div_mod::lemma_fundamental_div_mod_converse;

verus! {

/// Every opcode from position `i` on has its operands inside the stream.
pub open spec fn rle_ok(s: Seq<u8>, i: int) -> bool
    decreases s.len() - i,
{
    if i < 0 || i >= s.len() || s[i] == 0xff {
        true
    } else if s[i] >= 0x80 {
        let n = s[i] - 0x80;
        i + n + 1 < s.len() && rle_ok(s, i + n + 2)
    } else {
        i + 1 < s.len() && rle_ok(s, i + 2)
    }
}

/// The bytes that the opcodes from position `i` on stand for.
pub open spec fn rle_decode(s: Seq<u8>, i: int) -> Seq<u8>
    decreases s.len() - i,
{
    if i < 0 || i >= s.len() || s[i] == 0xff {
        Seq::empty()
    } else if s[i] >= 0x80 {
        let n = s[i] - 0x80;
        if i + n + 1 < s.len() {
            s.subrange(i + 1, i + n + 2) + rle_decode(s, i + n + 2)
        } else {
            Seq::empty()
        }
    } else {
        if i + 1 < s.len() {
            Seq::new((s[i] + 2) as nat, |k: int| s[i + 1]) + rle_decode(s, i + 2)
        } else {
            Seq::empty()
        }
    }
}

/// A well-formed stream: no opcode reads past the end of the data.
pub open spec fn rle_well_formed(s: Seq<u8>) -> bool {
    rle_ok(s, 0)
}

/// The bytes that a well-formed stream stands for.
pub open spec fn rle_decoded(s: Seq<u8>) -> Seq<u8> {
    rle_decode(s, 0)
}

/// The opcodes from position `i` on end exactly at the end of the stream, and none of them is
/// the terminator `0xff`.
pub open spec fn rle_complete(s: Seq<u8>, i: int) -> bool
    decreases s.len() - i,
{
    if i < 0 || i > s.len() {
        false
    } else if i == s.len() {
        true
    } else if s[i] == 0xff {
        false
    } else if s[i] >= 0x80 {
        let n = s[i] - 0x80;
        i + n + 2 <= s.len() && rle_complete(s, i + n + 2)
    } else {
        i + 2 <= s.len() && rle_complete(s, i + 2)
    }
}

/// Decoding from inside the second of two streams put together is decoding that stream.
proof fn lemma_decode_shift(p: Seq<u8>, b: Seq<u8>, j: int)
    requires
        j >= 0,
    ensures
        rle_decode(p + b, p.len() + j) == rle_decode(b, j),
        rle_ok(p + b, p.len() + j) == rle_ok(b, j),
    decreases b.len() - j,
{
    let s = p + b;
    let i = p.len() + j;
    if j < b.len() {
        assert(s[i] == b[j]);
        if b[j] != 0xff {
            if b[j] >= 0x80 {
                let n = b[j] - 0x80;
                if j + n + 1 < b.len() {
                    lemma_decode_shift(p, b, j + n + 2);
                    assert(s.subrange(i + 1, i + n + 2) =~= b.subrange(j + 1, j + n + 2));
                }
            } else {
                if j + 1 < b.len() {
                    lemma_decode_shift(p, b, j + 2);
                    assert(s[i + 1] == b[j + 1]);
                    assert(Seq::new((s[i] + 2) as nat, |k: int| s[i + 1]) =~= Seq::new((b[j] + 2) as nat, |k: int| b[j + 1]));
                }
            }
        }
    }
}

/// Decoding two streams put together, from a position of the first whose opcodes end exactly
/// at its end, gives the first's decoding from there and then the second's.
proof fn lemma_decode_concat_from(a: Seq<u8>, b: Seq<u8>, i: int)
    requires
        rle_complete(a, i),
    ensures
        rle_decode(a + b, i) == rle_decode(a, i) + rle_decoded(b),
        rle_ok(a + b, i) == rle_well_formed(b),
    decreases a.len() - i,
{
    let s = a + b;
    if i == a.len() {
        lemma_decode_shift(a, b, 0);
        assert(rle_decode(a, i) =~= Seq::<u8>::empty());
        assert(rle_decode(a + b, i) =~= rle_decode(a, i) + rle_decoded(b));
    } else {
        assert(s[i] == a[i]);
        if a[i] >= 0x80 {
            let n = a[i] - 0x80;
            lemma_decode_concat_from(a, b, i + n + 2);
            assert(s.subrange(i + 1, i + n + 2) =~= a.subrange(i + 1, i + n + 2));
            assert(rle_decode(s, i) =~= rle_decode(a, i) + rle_decoded(b));
        } else {
            lemma_decode_concat_from(a, b, i + 2);
            assert(s[i + 1] == a[i + 1]);
            assert(Seq::new((s[i] + 2) as nat, |k: int| s[i + 1]) =~= Seq::new((a[i] + 2) as nat, |k: int| a[i + 1]));
            assert(rle_decode(s, i) =~= rle_decode(a, i) + rle_decoded(b));
        }
    }
}

/// A stream that ends on a whole opcode, with no terminator, followed by another stream: the
/// decoding is the two decodings one after the other, and the whole is well formed exactly when
/// the second stream is.
pub proof fn lemma_decode_concat(a: Seq<u8>, b: Seq<u8>)
    requires
        rle_complete(a, 0),
    ensures
        rle_decoded(a + b) == rle_decoded(a) + rle_decoded(b),
        rle_well_formed(a + b) == rle_well_formed(b),
{
    lemma_decode_concat_from(a, b, 0);
}

/// The terminator `0xff` ends a stream: whatever follows it is not decoded.
pub proof fn lemma_decode_terminator(a: Seq<u8>, t: Seq<u8>)
    requires
        rle_complete(a, 0),
    ensures
        rle_decoded(a + (seq![0xffu8] + t)) == rle_decoded(a),
        rle_well_formed(a + (seq![0xffu8] + t)),
{
    let b = seq![0xffu8] + t;
    lemma_decode_concat_from(a, b, 0);
    assert(b[0] == 0xff);
    assert(rle_decoded(b) =~= Seq::<u8>::empty());
    assert(rle_decoded(a) + rle_decoded(b) =~= rle_decoded(a));
}

/// Whether a stream is well formed: no opcode's operands run past the end of the data.
pub fn well_formed(indata: &[u8]) -> (ok: bool)
    ensures
        ok == rle_well_formed(indata@),
{
    let ghost s = indata@;
    let len = indata.len();
    let mut i: usize = 0;
    while i < len && indata[i] != 0xff
        invariant
            s == indata@,
            len == s.len(),
            0 <= i <= len,
            rle_ok(s, 0) == rle_ok(s, i as int),
        decreases len - i,
    {
        let op = indata[i];
        if op >= 0x80 {
            let n = (op - 0x80) as usize;
            if n >= len - i - 1 {
                return false;
            }
            i = i + n + 2;
        } else {
            if i + 1 >= len {
                return false;
            }
            i = i + 2;
        }
    }
    true
}

/// RLE decoding of horizontally encoded image data (characters and background images).
/// The stream must be well formed: an opcode whose operands run past the data is out of bounds.
pub fn decode(indata: &[u8]) -> (ret: Vec<u8>)
    requires
        rle_well_formed(indata@),
    ensures
        ret@ == rle_decoded(indata@),
{
    let ghost s = indata@;
    let slen = indata.len();
    let mut ret: Vec<u8> = Vec::new();
    let mut i: usize = 0;
    while i < indata.len() && indata[i] != 0xff
        invariant
            s == indata@,
            slen == s.len(),
            0 <= i <= s.len(),
            rle_ok(s, i as int),
            ret@ + rle_decode(s, i as int) == rle_decoded(s),
        decreases s.len() - i,
    {
        let op = indata[i];
        if op & 0x80 != 0 {
            assert(op & 0x80 != 0 ==> op >= 0x80) by (bit_vector);
            assert(op >= 0x80 ==> op ^ 0x80 == op - 0x80) by (bit_vector);
            let n = (op ^ 0x80) as usize;
            assert(op == s[i as int]);
            assert(i + n + 1 < s.len());
            let ghost before = ret@;
            let mut m: usize = 0;
            while m <= n
                invariant
                    s == indata@,
                    slen == s.len(),
                    i + n + 1 < s.len(),
                    m <= n + 1,
                    ret@ == before + s.subrange(i + 1, i + 1 + m),
                decreases n + 1 - m,
            {
                ret.push(indata[i + 1 + m]);
                proof {
                    assert(s.subrange(i + 1, i + 1 + m + 1) =~= s.subrange(i + 1, i + 1 + m).push(
                        s[i + 1 + m],
                    ));
                }
                m = m + 1;
            }
            proof {
                assert(ret@ + rle_decode(s, i + n + 2) =~= before + rle_decode(s, i as int));
            }
            i = i + n + 2;
        } else {
            assert(op & 0x80 == 0 ==> op < 0x80) by (bit_vector);
            let count = (op + 2) as usize;
            let v = indata[i + 1];
            let ghost before = ret@;
            let mut c: usize = 0;
            while c < count
                invariant
                    c <= count,
                    ret@ == before + Seq::new(c as nat, |k: int| v),
                decreases count - c,
            {
                ret.push(v);
                proof {
                    assert(Seq::new((c + 1) as nat, |k: int| v) =~= Seq::new(c as nat, |k: int| v).push(v));
                }
                c = c + 1;
            }
            proof {
                assert(Seq::new(count as nat, |k: int| v) =~= Seq::new((s[i as int] + 2) as nat, |k: int| s[i + 1]));
                assert(ret@ + rle_decode(s, i + 2) =~= before + rle_decode(s, i as int));
            }
            i = i + 2;
        }
    }
    proof {
        assert(rle_decode(s, i as int) =~= Seq::<u8>::empty());
        assert(ret@ =~= ret@ + rle_decode(s, i as int));
    }
    ret
}

/// The column-major step count: `max(height, 1)`.
pub open spec fn col_len(height: int) -> int {
    if height < 1 { 1 } else { height }
}

/// Where the `p`-th decoded byte of a vertically encoded image lands: row `p % height`,
/// column `p / height`, stored at `row * width + column`.
pub open spec fn vert_pos(p: int, width: int, height: int) -> int {
    (p % col_len(height)) * width + p / col_len(height)
}

/// The arithmetic for the `p`-th decoded byte stays within 16 bits.
pub open spec fn vert_step_ok(p: int, width: int, height: int) -> bool {
    &&& vert_pos(p, width, height) <= 0xffff
    &&& (p + 1) / col_len(height) <= 0xffff
}

/// Every decoded byte of the stream can be placed without 16-bit overflow.
pub open spec fn vert_fits(decoded: Seq<u8>, width: int, height: int) -> bool {
    &&& width * height <= 0xffff
    &&& forall|p: int| 0 <= p < decoded.len() ==> #[trigger] vert_step_ok(p, width, height)
}

/// Whether the decoded bytes of a vertically encoded image can be placed in a `width * height`
/// buffer without 16-bit overflow.
pub fn vert_fits_check(decoded: &[u8], width: u16, height: u16) -> (ok: bool)
    ensures
        ok == vert_fits(decoded@, width as int, height as int),
{
    assert(width as int * height as int <= 0xffff * 0xffff) by (nonlinear_arith)
        requires
            width <= 0xffff,
            height <= 0xffff,
    ;
    let wh: u64 = width as u64 * height as u64;
    if wh > 0xffff {
        return false;
    }
    let cl: u64 = if height < 1 { 1 } else { height as u64 };
    let w: u64 = width as u64;
    let len = decoded.len();
    let mut p: usize = 0;
    while p < len
        invariant
            len == decoded@.len(),
            p <= len,
            cl == col_len(height as int),
            w == width,
            width * height <= 0xffff,
            forall|q: int| 0 <= q < p ==> #[trigger] vert_step_ok(q, width as int, height as int),
        decreases len - p,
    {
        let pp: u64 = p as u64;
        let next: u64 = (pp + 1) / cl;
        if next > 0xffff {
            assert(!vert_step_ok(p as int, width as int, height as int));
            return false;
        }
        assert(pp as int / cl as int <= (pp as int + 1) / cl as int) by (nonlinear_arith)
            requires
                cl >= 1,
        ;
        let r: u64 = pp % cl;
        assert(r * w <= 0xffff * 0xffff) by (nonlinear_arith)
            requires
                r < cl,
                cl <= 0xffff,
                w <= 0xffff,
        ;
        let pos: u64 = r * w + pp / cl;
        if pos > 0xffff {
            assert(!vert_step_ok(p as int, width as int, height as int));
            return false;
        }
        assert(vert_step_ok(p as int, width as int, height as int));
        p = p + 1;
    }
    true
}

/// A `width * height` buffer of zeros with the bytes of `px` written, in order, at their
/// positions; bytes whose position falls outside the buffer are dropped.
pub open spec fn vert_fill(px: Seq<u8>, width: int, height: int) -> Seq<u8>
    decreases px.len(),
{
    if px.len() == 0 {
        Seq::new((width * height) as nat, |k: int| 0u8)
    } else {
        let b = vert_fill(px.drop_last(), width, height);
        let q = vert_pos(px.len() - 1, width, height);
        if 0 <= q < b.len() {
            b.update(q, px.last())
        } else {
            b
        }
    }
}

pub proof fn lemma_vert_fill_len(px: Seq<u8>, width: int, height: int)
    requires
        width * height >= 0,
    ensures
        vert_fill(px, width, height).len() == width * height,
    decreases px.len(),
{
    if px.len() > 0 {
        lemma_vert_fill_len(px.drop_last(), width, height);
    }
}

/// Decoded byte `x * height + y` of a vertically encoded image lands at row `y`, column `x` of
/// the buffer (index `y * width + x`), and a cell that no decoded byte reaches stays 0, when
/// the image holds at most `width * height` bytes.
pub proof fn lemma_vert_fill_index(px: Seq<u8>, width: int, height: int, x: int, y: int)
    requires
        height >= 1,
        px.len() <= width * height,
        0 <= x < width,
        0 <= y < height,
    ensures
        0 <= y * width + x < width * height,
        vert_fill(px, width, height).len() == width * height,
        vert_fill(px, width, height)[y * width + x] == if x * height + y < px.len() {
            px[x * height + y]
        } else {
            0u8
        },
    decreases px.len(),
{
    assert(0 <= y * width + x < width * height) by (nonlinear_arith)
        requires
            0 <= x < width,
            0 <= y < height,
    ;
    lemma_vert_fill_len(px, width, height);
    if px.len() > 0 {
        let p = px.len() - 1;
        let b = vert_fill(px.drop_last(), width, height);
        lemma_vert_fill_index(px.drop_last(), width, height, x, y);
        lemma_vert_fill_len(px.drop_last(), width, height);
        let pr = p % height;
        let pq = p / height;
        vstd::arithmetic::div_mod::lemma_fundamental_div_mod(p, height);
        assert(0 <= pr < height) by {
            vstd::arithmetic::div_mod::lemma_mod_pos_bound(p, height);
        }
        assert(0 <= pq < width) by (nonlinear_arith)
            requires
                p == height * pq + pr,
                0 <= pr < height,
                0 <= p < width * height,
                height >= 1,
        ;
        let q = vert_pos(p, width, height);
        assert(q == pr * width + pq);
        assert(0 <= q < width * height) by (nonlinear_arith)
            requires
                q == pr * width + pq,
                0 <= pr < height,
                0 <= pq < width,
        ;
        if p == x * height + y {
            lemma_fundamental_div_mod_converse(p, height, x, y);
            assert(q == y * width + x);
        } else {
            if q == y * width + x {
                lemma_fundamental_div_mod_converse(q, width, pr, pq);
                lemma_fundamental_div_mod_converse(q, width, y, x);
                assert(p == x * height + y) by (nonlinear_arith)
                    requires
                        p == height * pq + pr,
                        pq == x,
                        pr == y,
                ;
            }
        }
    }
}

/// What [`decode_vert`] gives, cell by cell: row `y`, column `x` holds decoded byte
/// `x * height + y`, or 0 where the decoded bytes run out.
pub proof fn lemma_decode_vert_index(indata: Seq<u8>, width: u16, height: u16, x: int, y: int)
    requires
        height >= 1,
        rle_decoded(indata).len() <= width * height,
        0 <= x < width,
        0 <= y < height,
    ensures
        ({
            let d = rle_decoded(indata);
            let out = vert_fill(d, width as int, height as int);
            &&& out.len() == width * height
            &&& out[y * width + x] == if x * height + y < d.len() { d[x * height + y] } else { 0u8 }
        }),
{
    lemma_vert_fill_index(rle_decoded(indata), width as int, height as int, x, y);
}

/// RLE decoding of vertically encoded image data: the decoded bytes fill a `width * height`
/// buffer column by column (`height` bytes per column). The stream must be well formed and its
/// bytes must be placeable without 16-bit overflow.
pub fn decode_vert(indata: &[u8], width: u16, height: u16) -> (outdata: Vec<u8>)
    requires
        rle_well_formed(indata@),
        vert_fits(rle_decoded(indata@), width as int, height as int),
    ensures
        outdata@ == vert_fill(rle_decoded(indata@), width as int, height as int),
        outdata@.len() == width * height,
{
    let ghost s = indata@;
    let ghost total = rle_decoded(s);
    let ghost w = width as int;
    let ghost h = height as int;
    let len: u16 = width * height;
    let mut outdata: Vec<u8> = Vec::new();
    let mut z: u16 = 0;
    while z < len
        invariant
            z <= len,
            outdata@ == Seq::new(z as nat, |k: int| 0u8),
        decreases len - z,
    {
        outdata.push(0u8);
        proof {
            assert(Seq::new((z + 1) as nat, |k: int| 0u8) =~= Seq::new(z as nat, |k: int| 0u8).push(0u8));
        }
        z = z + 1;
    }
    let slen = indata.len();
    let mut i: usize = 0;
    let mut x: u16 = 0;
    let mut y: u16 = 0;
    let ghost mut produced: Seq<u8> = Seq::empty();
    assert(outdata@ =~= vert_fill(produced, w, h));
    while i < indata.len() && indata[i] != 0xff
        invariant
            s == indata@,
            slen == s.len(),
            total == rle_decoded(s),
            w == width,
            h == height,
            len == w * h,
            vert_fits(total, w, h),
            0 <= i <= s.len(),
            rle_ok(s, i as int),
            produced + rle_decode(s, i as int) == total,
            outdata@ == vert_fill(produced, w, h),
            outdata@.len() == len,
            produced.len() == x * col_len(h) + y,
            0 <= y < col_len(h),
        decreases s.len() - i,
    {
        let op = indata[i];
        assert(op == s[i as int]);
        let ghost base = produced;
        let ghost run: Seq<u8>;
        let mut cnt: usize;
        let next: usize;
        let lit: bool = op & 0x80 != 0;
        if lit {
            assert(op & 0x80 != 0 ==> op >= 0x80) by (bit_vector);
            assert(op >= 0x80 ==> op ^ 0x80 == op - 0x80) by (bit_vector);
            cnt = (op ^ 0x80) as usize + 1;
            assert(i + cnt < s.len());
            next = i + cnt + 1;
            proof {
                run = s.subrange(i + 1, i + 1 + cnt);
            }
        } else {
            assert(op & 0x80 == 0 ==> op < 0x80) by (bit_vector);
            cnt = (op + 2) as usize;
            assert(i + 1 < s.len());
            next = i + 2;
            proof {
                run = Seq::new(cnt as nat, |k: int| s[i + 1]);
            }
        }
        proof {
            assert(run + rle_decode(s, next as int) =~= rle_decode(s, i as int)) by {
                if lit {
                    assert(run + rle_decode(s, next as int) =~= rle_decode(s, i as int));
                } else {
                    assert(Seq::new((s[i as int] + 2) as nat, |k: int| s[i + 1]) =~= run);
                }
            }
            assert(base + run + rle_decode(s, next as int) =~= total);
        }
        let mut m: usize = 0;
        while m < cnt
            invariant
                s == indata@,
                slen == s.len(),
                total == rle_decoded(s),
                w == width,
                h == height,
                len == w * h,
                vert_fits(total, w, h),
                lit ==> i + cnt < s.len() && next == i + cnt + 1,
                !lit ==> i + 1 < s.len() && next == i + 2,
                lit ==> run == s.subrange(i + 1, i + 1 + cnt),
                !lit ==> run == Seq::new(cnt as nat, |k: int| s[i + 1]),
                base + run + rle_decode(s, next as int) == total,
                m <= cnt,
                produced == base + run.take(m as int),
                outdata@ == vert_fill(produced, w, h),
                outdata@.len() == len,
                produced.len() == x * col_len(h) + y,
                0 <= y < col_len(h),
            decreases cnt - m,
        {
            let v = if lit { indata[i + 1 + m] } else { indata[i + 1] };
            let ghost p = produced.len() as int;
            proof {
                assert(v == run[m as int]);
                assert(total.len() == base.len() + run.len() + rle_decode(s, next as int).len());
                assert(p < total.len());
                assert(vert_step_ok(p, w, h));
                lemma_fundamental_div_mod_converse(p, col_len(h), x as int, y as int);
            }
            let pos: u16 = y * width + x;
            if (pos as usize) < outdata.len() {
                outdata.set(pos as usize, v);
            }
            proof {
                let np = produced.push(v);
                assert(np.drop_last() =~= produced);
                assert(vert_pos(p, w, h) == pos);
                produced = np;
                assert(run.take(m + 1) =~= run.take(m as int).push(v));
                assert(produced =~= base + run.take(m + 1));
            }
            y = y + 1;
            if y >= height {
                proof {
                    let c = col_len(h);
                    assert(y == c);
                    assert(p + 1 == (x + 1) * c) by (nonlinear_arith)
                        requires
                            p == x * c + (y - 1),
                            y == c,
                    ;
                    lemma_fundamental_div_mod_converse(p + 1, c, x + 1, 0);
                    assert(vert_step_ok(p, w, h));
                }
                y = 0;
                x = x + 1;
            }
            m = m + 1;
        }
        proof {
            assert(run.take(cnt as int) =~= run);
        }
        i = next;
    }
    proof {
        assert(rle_decode(s, i as int) =~= Seq::<u8>::empty());
        assert(produced =~= total);
    }
    outdata
}

} // verus!

//! Small text utilities over bytes: splitting on a separator, decimal numbers, ASCII strings.
use vstd::prelude::*;

verus! {

/// The pieces of `b` between occurrences of `sep`, as `str::split` yields them: one more piece
/// than there are separators, empty pieces included.
pub open spec fn split_fields(b: Seq<u8>, sep: u8) -> Seq<Seq<u8>>
    decreases b.len(),
{
    if b.len() == 0 {
        seq![Seq::<u8>::empty()]
    } else {
        let rest = split_fields(b.drop_last(), sep);
        if b.last() == sep {
            rest.push(Seq::<u8>::empty())
        } else {
            rest.update(rest.len() - 1, rest.last().push(b.last()))
        }
    }
}

pub proof fn lemma_split_fields_nonempty(b: Seq<u8>, sep: u8)
    ensures
        split_fields(b, sep).len() >= 1,
    decreases b.len(),
{
    if b.len() > 0 {
        lemma_split_fields_nonempty(b.drop_last(), sep);
    }
}

/// Splits `b` on every `sep`.
pub fn split_bytes(b: &[u8], sep: u8) -> (out: Vec<Vec<u8>>)
    ensures
        out@.len() == split_fields(b@, sep).len(),
        forall|k: int| 0 <= k < out@.len() ==> #[trigger] out@[k]@ == split_fields(b@, sep)[k],
{
    let n = b.len();
    let mut out: Vec<Vec<u8>> = Vec::new();
    let mut cur: Vec<u8> = Vec::new();
    let mut i: usize = 0;
    while i < n
        invariant
            n == b@.len(),
            i <= n,
            out@.len() + 1 == split_fields(b@.take(i as int), sep).len(),
            forall|k: int| 0 <= k < out@.len() ==> #[trigger] out@[k]@ == split_fields(b@.take(i as int), sep)[k],
            cur@ == split_fields(b@.take(i as int), sep).last(),
        decreases n - i,
    {
        let c = b[i];
        proof {
            lemma_split_fields_nonempty(b@.take(i as int), sep);
            assert(b@.take(i + 1).drop_last() =~= b@.take(i as int));
            assert(b@.take(i + 1).last() == c);
        }
        if c == sep {
            let done = cur;
            out.push(done);
            cur = Vec::new();
        } else {
            cur.push(c);
        }
        i = i + 1;
    }
    proof {
        lemma_split_fields_nonempty(b@, sep);
        assert(b@.take(n as int) =~= b@);
    }
    out.push(cur);
    proof {
        let f = split_fields(b@, sep);
        assert forall|k: int| 0 <= k < out@.len() implies #[trigger] out@[k]@ == f[k] by {
            if k < out@.len() - 1 {
            }
        }
    }
    out
}

/// The bytes of `b` are all ASCII decimal digits.
pub open spec fn all_digits(b: Seq<u8>) -> bool {
    forall|i: int| 0 <= i < b.len() ==> 48 <= #[trigger] b[i] <= 57
}

/// The number that a string of decimal digits writes.
pub open spec fn digits_value(b: Seq<u8>) -> nat
    decreases b.len(),
{
    if b.len() == 0 {
        0
    } else {
        digits_value(b.drop_last()) * 10 + (b.last() - 48) as nat
    }
}

/// The byte that a non-empty string of decimal digits writes, if it fits.
pub open spec fn spec_parse_u8_of(d: Seq<u8>) -> Option<u8> {
    if d.len() > 0 && all_digits(d) && digits_value(d) <= 255 {
        Some(digits_value(d) as u8)
    } else {
        None
    }
}

/// What `u8::from_str` gives: an optional `+`, then at least one decimal digit, for a value
/// that fits in a byte.
pub open spec fn spec_parse_u8(b: Seq<u8>) -> Option<u8> {
    spec_parse_u8_of(if b.len() > 0 && b[0] == 43 { b.skip(1) } else { b })
}

pub proof fn lemma_digits_value_grows(b: Seq<u8>, i: int)
    requires
        all_digits(b),
        0 <= i <= b.len(),
    ensures
        digits_value(b.take(i)) <= digits_value(b),
    decreases b.len() - i,
{
    if i < b.len() {
        lemma_digits_value_grows(b, i + 1);
        assert(b.take(i + 1).drop_last() =~= b.take(i));
    } else {
        assert(b.take(i) =~= b);
    }
}

/// Parses a decimal byte as `u8::from_str` does.
pub fn parse_u8(b: &[u8]) -> (r: Option<u8>)
    ensures
        r == spec_parse_u8(b@),
{
    let n = b.len();
    let start: usize = if n > 0 && b[0] == 43 { 1 } else { 0 };
    let ghost d = if b@.len() > 0 && b@[0] == 43 { b@.skip(1) } else { b@ };
    assert(d =~= b@.skip(start as int));
    if start == n {
        return None;
    }
    let mut i: usize = start;
    while i < n
        invariant
            n == b@.len(),
            start <= i <= n,
            d == b@.skip(start as int),
            d == (if b@.len() > 0 && b@[0] == 43 { b@.skip(1) } else { b@ }),
            forall|j: int| 0 <= j < i - start ==> 48 <= #[trigger] d[j] <= 57,
        decreases n - i,
    {
        if b[i] < 48 || b[i] > 57 {
            assert(d[i - start] == b@[i as int]);
            assert(!all_digits(d));
            assert(spec_parse_u8(b@) == spec_parse_u8_of(d));
            return None;
        }
        i = i + 1;
    }
    assert(all_digits(d));
    let mut v: u32 = 0;
    let mut k: usize = start;
    while k < n
        invariant
            n == b@.len(),
            start <= k <= n,
            d == b@.skip(start as int),
            d == (if b@.len() > 0 && b@[0] == 43 { b@.skip(1) } else { b@ }),
            all_digits(d),
            v == digits_value(d.take(k - start)),
            v <= 255,
        decreases n - k,
    {
        assert(d.take(k - start + 1).drop_last() =~= d.take(k - start));
        assert(d[k - start] == b@[k as int]);
        v = v * 10 + (b[k] - 48) as u32;
        assert(v == digits_value(d.take(k - start + 1)));
        if v > 255 {
            proof {
                lemma_digits_value_grows(d, k - start + 1);
                assert(digits_value(d) > 255);
                assert(spec_parse_u8(b@) == spec_parse_u8_of(d));
            }
            return None;
        }
        k = k + 1;
    }
    assert(d.take(n - start) =~= d);
    Some(v as u8)
}

/// The decimal digits of `v`, most significant first, without leading zeros.
pub open spec fn spec_decimal(v: nat) -> Seq<u8>
    decreases v,
{
    if v < 10 {
        seq![(48 + v) as u8]
    } else {
        spec_decimal(v / 10).push((48 + v % 10) as u8)
    }
}

/// The decimal digits of a byte.
pub fn decimal_u8(v: u8) -> (d: Vec<u8>)
    ensures
        d@ == spec_decimal(v as nat),
{
    let mut d: Vec<u8> = Vec::new();
    if v >= 100 {
        d.push(48 + v / 100);
        d.push(48 + (v / 10) % 10);
        d.push(48 + v % 10);
        let ghost a = (v / 100) as nat;
        let ghost bb = (v / 10) as nat;
        assert(a < 10 && bb >= 10 && bb / 10 == a && bb % 10 == (v / 10) % 10);
        assert(spec_decimal(a) =~= seq![(48 + v / 100) as u8]);
        assert(spec_decimal(bb) =~= seq![(48 + v / 100) as u8, (48 + (v / 10) % 10) as u8]);
        assert(spec_decimal(v as nat) =~= spec_decimal(bb).push((48 + v % 10) as u8));
        assert(d@ =~= spec_decimal(v as nat));
    } else if v >= 10 {
        d.push(48 + v / 10);
        d.push(48 + v % 10);
        let ghost a = (v / 10) as nat;
        assert(spec_decimal(a) =~= seq![(48 + v / 10) as u8]);
        assert(d@ =~= spec_decimal(v as nat));
    } else {
        d.push(48 + v);
        assert(d@ =~= spec_decimal(v as nat));
    }
    d
}

/// The string of chars that ASCII bytes stand for.
pub open spec fn ascii_chars(b: Seq<u8>) -> Seq<char> {
    Seq::new(b.len(), |i: int| b[i] as char)
}

/// The bytes are all ASCII.
pub open spec fn is_ascii_bytes(b: Seq<u8>) -> bool {
    forall|i: int| 0 <= i < b.len() ==> #[trigger] b[i] < 128
}

/// Turns ASCII bytes into a `String` with `String::from_utf8`, which accepts every ASCII
/// sequence and keeps each byte as the char of the same value.
#[verifier::external_body]
pub(crate) fn ascii_string(b: Vec<u8>) -> (s: String)
    requires
        is_ascii_bytes(b@),
    ensures
        s@ == ascii_chars(b@),
{
    String::from_utf8(b).unwrap()
}

/// Appends the bytes of `src` to `dst`.
pub fn append_bytes(dst: &mut Vec<u8>, src: &[u8])
    ensures
        final(dst)@ == old(dst)@ + src@,
{
    let n = src.len();
    let mut i: usize = 0;
    while i < n
        invariant
            n == src@.len(),
            i <= n,
            dst@ == old(dst)@ + src@.take(i as int),
        decreases n - i,
    {
        dst.push(src[i]);
        assert(src@.take(i + 1) =~= src@.take(i as int).push(src@[i as int]));
        i = i + 1;
    }
    assert(src@.take(n as int) =~= src@);
}

/// Turns bytes that are valid UTF-8 into a `String` with `String::from_utf8`, which accepts
/// exactly the valid UTF-8 sequences and keeps the chars that they encode.
#[verifier::external_body]
pub(crate) fn utf8_string(b: Vec<u8>) -> (s: String)
    requires
        vstd::utf8::valid_utf8(b@),
    ensures
        s@ == vstd::utf8::decode_utf8(b@),
{
    String::from_utf8(b).unwrap()
}

/// The UTF-8 encoding of two strings one after the other is the encodings one after the other.
pub proof fn lemma_encode_concat(a: Seq<char>, b: Seq<char>)
    ensures
        vstd::utf8::encode_utf8(a + b) == vstd::utf8::encode_utf8(a) + vstd::utf8::encode_utf8(b),
    decreases a.len(),
{
    if a.len() == 0 {
        assert(a + b =~= b);
        assert(vstd::utf8::encode_utf8(a) + vstd::utf8::encode_utf8(b) =~= vstd::utf8::encode_utf8(b));
    } else {
        lemma_encode_concat(a.drop_first(), b);
        assert((a + b).drop_first() =~= a.drop_first() + b);
        assert((a + b)[0] == a[0]);
        let e0 = vstd::utf8::encode_scalar(a[0] as u32);
        assert(vstd::utf8::encode_utf8(a + b) == e0 + vstd::utf8::encode_utf8(a.drop_first() + b));
        assert(vstd::utf8::encode_utf8(a) == e0 + vstd::utf8::encode_utf8(a.drop_first()));
        assert(e0 + (vstd::utf8::encode_utf8(a.drop_first()) + vstd::utf8::encode_utf8(b))
            =~= (e0 + vstd::utf8::encode_utf8(a.drop_first())) + vstd::utf8::encode_utf8(b));
    }
}

/// The string `a` followed by the string `b`.
pub fn concat_str(a: &str, b: &str) -> (s: String)
    ensures
        s@ == a@ + b@,
{
    let mut out: Vec<u8> = Vec::new();
    append_bytes(&mut out, a.as_bytes());
    append_bytes(&mut out, b.as_bytes());
    proof {
        lemma_encode_concat(a@, b@);
        vstd::utf8::encode_utf8_valid_utf8(a@ + b@);
        vstd::utf8::encode_utf8_decode_utf8(a@ + b@);
    }
    utf8_string(out)
}

/// What `u16::from_str` gives: an optional `+`, then at least one decimal digit, for a value
/// that fits in 16 bits.
pub open spec fn spec_parse_u16(b: Seq<u8>) -> Option<u16> {
    let d = if b.len() > 0 && b[0] == 43 { b.skip(1) } else { b };
    if d.len() > 0 && all_digits(d) && digits_value(d) <= 65535 {
        Some(digits_value(d) as u16)
    } else {
        None
    }
}

/// Parses a decimal 16-bit number as `u16::from_str` does.
pub fn parse_u16(b: &[u8]) -> (r: Option<u16>)
    ensures
        r == spec_parse_u16(b@),
{
    let n = b.len();
    let start: usize = if n > 0 && b[0] == 43 { 1 } else { 0 };
    let ghost d = if b@.len() > 0 && b@[0] == 43 { b@.skip(1) } else { b@ };
    assert(d =~= b@.skip(start as int));
    if start == n {
        return None;
    }
    let mut i: usize = start;
    while i < n
        invariant
            n == b@.len(),
            start <= i <= n,
            d == b@.skip(start as int),
            d == (if b@.len() > 0 && b@[0] == 43 { b@.skip(1) } else { b@ }),
            forall|j: int| 0 <= j < i - start ==> 48 <= #[trigger] d[j] <= 57,
        decreases n - i,
    {
        if b[i] < 48 || b[i] > 57 {
            assert(d[i - start] == b@[i as int]);
            assert(!all_digits(d));
            return None;
        }
        i = i + 1;
    }
    assert(all_digits(d));
    let mut v: u32 = 0;
    let mut k: usize = start;
    while k < n
        invariant
            n == b@.len(),
            start <= k <= n,
            d == b@.skip(start as int),
            d == (if b@.len() > 0 && b@[0] == 43 { b@.skip(1) } else { b@ }),
            all_digits(d),
            v == digits_value(d.take(k - start)),
            v <= 65535,
        decreases n - k,
    {
        assert(d.take(k - start + 1).drop_last() =~= d.take(k - start));
        assert(d[k - start] == b@[k as int]);
        v = v * 10 + (b[k] - 48) as u32;
        assert(v == digits_value(d.take(k - start + 1)));
        if v > 65535 {
            proof {
                lemma_digits_value_grows(d, k - start + 1);
                assert(digits_value(d) > 65535);
            }
            return None;
        }
        k = k + 1;
    }
    assert(d.take(n - start) =~= d);
    Some(v as u16)
}

/// The decimal digits of `v`, most significant first.
pub fn decimal_u32(v: u32) -> (d: Vec<u8>)
    ensures
        d@ == spec_decimal(v as nat),
    decreases v,
{
    if v < 10 {
        let mut d: Vec<u8> = Vec::new();
        d.push(48 + v as u8);
        assert(d@ =~= spec_decimal(v as nat));
        d
    } else {
        let mut d = decimal_u32(v / 10);
        d.push(48 + (v % 10) as u8);
        assert(d@ =~= spec_decimal(v as nat));
        d
    }
}

/// The decimal digits are ASCII, and there is at least one.
pub proof fn lemma_decimal_ascii(v: nat)
    ensures
        is_ascii_bytes(spec_decimal(v)),
        spec_decimal(v).len() >= 1,
    decreases v,
{
    if v >= 10 {
        lemma_decimal_ascii(v / 10);
    }
}

/// The text of a decimal number, as a string.
pub fn decimal_string(v: u32) -> (s: String)
    ensures
        s@ == ascii_chars(spec_decimal(v as nat)),
{
    let d = decimal_u32(v);
    proof {
        lemma_decimal_ascii(v as nat);
    }
    ascii_string(d)
}

/// `c` occurs in the C string `a`: before the first zero byte of `a`, or anywhere in `a` where it
/// holds no zero byte.
pub open spec fn cstr_contains(a: Seq<u8>, c: u8) -> bool {
    exists|j: int| 0 <= j < a.len() && a[j] == c && forall|k: int| 0 <= k < j ==> a[k] != 0
}

/// Whether the C string `a` holds the nonzero byte `c`.
fn cstr_has(a: &[u8], c: u8) -> (r: bool)
    requires
        c != 0,
    ensures
        r == cstr_contains(a@, c),
{
    let mut j: usize = 0;
    while j < a.len() && a[j] != 0
        invariant
            j <= a.len(),
            c != 0,
            forall|k: int| 0 <= k < j ==> a@[k] != 0 && a@[k] != c,
        decreases a.len() - j,
    {
        if a[j] == c {
            assert(forall|k: int| 0 <= k < j ==> a@[k] != 0);
            return true;
        }
        j = j + 1;
    }
    assert(!cstr_contains(a@, c)) by {
        if cstr_contains(a@, c) {
            let w = choose|w: int| 0 <= w < a@.len() && a@[w] == c && forall|k: int| 0 <= k < w ==> a@[k] != 0;
            if w > j as int {
                assert(a@[j as int] != 0);
            }
        }
    }
    false
}

/// The length of the longest prefix of the C string `s` made of bytes of the C string `accept`,
/// as C's `strspn` counts it. A string ends at its first zero byte or at the end of the slice.
pub fn strspn(s: &[u8], accept: &[u8]) -> (n: usize)
    ensures
        n <= s.len(),
        forall|i: int| #![trigger s@[i]] 0 <= i < n ==> s@[i] != 0 && cstr_contains(accept@, s@[i]),
        n == s.len() || s@[n as int] == 0 || !cstr_contains(accept@, s@[n as int]),
{
    let mut n: usize = 0;
    while n < s.len()
        invariant
            n <= s.len(),
            forall|i: int| #![trigger s@[i]] 0 <= i < n ==> s@[i] != 0 && cstr_contains(accept@, s@[i]),
        decreases s.len() - n,
    {
        let c = s[n];
        if c == 0 {
            return n;
        }
        if !cstr_has(accept, c) {
            return n;
        }
        n = n + 1;
    }
    n
}

/// The length of the longest prefix of the C string `s` holding no byte of the C string `reject`,
/// as C's `strcspn` counts it. A string ends at its first zero byte or at the end of the slice.
pub fn strcspn(s: &[u8], reject: &[u8]) -> (n: usize)
    ensures
        n <= s.len(),
        forall|i: int| #![trigger s@[i]] 0 <= i < n ==> s@[i] != 0 && !cstr_contains(reject@, s@[i]),
        n == s.len() || s@[n as int] == 0 || cstr_contains(reject@, s@[n as int]),
{
    let mut n: usize = 0;
    while n < s.len()
        invariant
            n <= s.len(),
            forall|i: int| #![trigger s@[i]] 0 <= i < n ==> s@[i] != 0 && !cstr_contains(reject@, s@[i]),
        decreases s.len() - n,
    {
        let c = s[n];
        if c == 0 {
            return n;
        }
        if cstr_has(reject, c) {
            return n;
        }
        n = n + 1;
    }
    n
}

} // verus!

use vstd::prelude::*;

use vstd::arithmetic::div_mod::{lemma_fundamental_div_mod, lemma_fundamental_div_mod_converse};
use vstd::arithmetic::mul::lemma_mul_inequality;

verus! {

/// Channels per pixel of a grayscale input: luma, plus alpha when there is one.
pub open spec fn in_channels(alpha: bool) -> int {
    if alpha { 2 } else { 1 }
}

/// Channels per pixel of the expanded buffer: RGB, plus alpha when there is one.
pub open spec fn out_channels(alpha: bool) -> int {
    if alpha { 4 } else { 3 }
}

/// The number of whole pixels in a grayscale buffer of `len` bytes.
pub open spec fn gray_pixel_count(len: int, sample_bytes: int, alpha: bool) -> int {
    len / (in_channels(alpha) * sample_bytes)
}

/// Offset of byte `byte` of channel `channel` of pixel `pixel` in a buffer of
/// `channels` interleaved channels of `sample_bytes` bytes each.
pub open spec fn gray_index(pixel: int, channel: int, byte: int, channels: int, sample_bytes: int) -> int {
    (pixel * channels + channel) * sample_bytes + byte
}

/// Offset in the grayscale input of the byte that lands at (`pixel`, `channel`,
/// `byte`) of the expanded buffer: the three color channels come from luma,
/// the fourth from alpha.
pub open spec fn gray_source_index(pixel: int, channel: int, byte: int, sample_bytes: int, alpha: bool) -> int {
    gray_index(pixel, if channel < 3 { 0 } else { 1 }, byte, in_channels(alpha), sample_bytes)
}

/// The grayscale buffer `buf` with luma replicated into R, G and B (and alpha
/// kept as the fourth channel); bytes after the last whole pixel are dropped.
pub open spec fn expanded_gray(buf: Seq<u8>, sample_bytes: int, alpha: bool) -> Seq<u8> {
    let px = out_channels(alpha) * sample_bytes;
    Seq::new(
        (gray_pixel_count(buf.len() as int, sample_bytes, alpha) * px) as nat,
        |k: int|
            buf[gray_source_index(k / px, (k % px) / sample_bytes, k % sample_bytes, sample_bytes, alpha)],
    )
}

/// The bytes that pixel `p` of a grayscale buffer expands to.
spec fn pixel_out(buf: Seq<u8>, sb: int, alpha: bool, p: int) -> Seq<u8> {
    let base = p * in_channels(alpha) * sb;
    let luma = buf.subrange(base, base + sb);
    if alpha {
        luma + luma + luma + buf.subrange(base + sb, base + 2 * sb)
    } else {
        luma + luma + luma
    }
}

proof fn lemma_gray_index(p: int, c: int, b: int, ch: int, sb: int)
    requires
        0 <= p,
        0 <= c < ch,
        0 <= b < sb,
    ensures
        gray_index(p, c, b, ch, sb) / (ch * sb) == p,
        gray_index(p, c, b, ch, sb) % (ch * sb) == c * sb + b,
        (c * sb + b) / sb == c,
        gray_index(p, c, b, ch, sb) % sb == b,
        p * (ch * sb) <= gray_index(p, c, b, ch, sb) < p * (ch * sb) + ch * sb,
{
    let k = gray_index(p, c, b, ch, sb);
    assert(k == p * (ch * sb) + (c * sb + b)) by (nonlinear_arith)
        requires
            k == (p * ch + c) * sb + b,
    ;
    assert(0 <= c * sb + b < ch * sb) by (nonlinear_arith)
        requires
            0 <= c < ch,
            0 <= b < sb,
    ;
    lemma_fundamental_div_mod_converse(k, ch * sb, p, c * sb + b);
    lemma_fundamental_div_mod_converse(c * sb + b, sb, c, b);
    lemma_fundamental_div_mod_converse(k, sb, p * ch + c, b);
}

/// Each whole pixel lies inside the buffer.
proof fn lemma_pixel_in_bounds(len: int, sb: int, alpha: bool, i: int)
    requires
        sb > 0,
        0 <= len,
        0 <= i < gray_pixel_count(len, sb, alpha),
    ensures
        (i + 1) * (in_channels(alpha) * sb) <= len,
        i * in_channels(alpha) * sb == i * (in_channels(alpha) * sb),
        (i + 1) * (in_channels(alpha) * sb) == i * (in_channels(alpha) * sb) + in_channels(alpha) * sb,
{
    let d = in_channels(alpha) * sb;
    assert(d > 0) by (nonlinear_arith)
        requires
            sb > 0,
            d == in_channels(alpha) * sb,
            in_channels(alpha) >= 1,
    ;
    lemma_fundamental_div_mod(len, d);
    lemma_mul_inequality(i + 1, len / d, d);
    assert(d * (len / d) == (len / d) * d) by (nonlinear_arith);
    assert(i * in_channels(alpha) * sb == i * d) by (nonlinear_arith)
        requires
            d == in_channels(alpha) * sb,
    ;
    assert((i + 1) * d == i * d + d) by (nonlinear_arith);
}

proof fn lemma_pixel_step(buf: Seq<u8>, sb: int, alpha: bool, i: int)
    requires
        sb > 0,
        0 <= i < gray_pixel_count(buf.len() as int, sb, alpha),
    ensures
        expanded_gray(buf, sb, alpha).take((i + 1) * (out_channels(alpha) * sb))
            == expanded_gray(buf, sb, alpha).take(i * (out_channels(alpha) * sb)) + pixel_out(buf, sb, alpha, i),
{
    let oc = out_channels(alpha);
    let ic = in_channels(alpha);
    let px = oc * sb;
    let e = expanded_gray(buf, sb, alpha);
    let n = gray_pixel_count(buf.len() as int, sb, alpha);
    let base = i * ic * sb;
    lemma_pixel_in_bounds(buf.len() as int, sb, alpha, i);
    assert((i + 1) * px <= n * px) by (nonlinear_arith)
        requires
            i + 1 <= n,
            px > 0,
    ;
    assert(px > 0) by (nonlinear_arith)
        requires
            sb > 0,
            px == oc * sb,
            oc >= 3,
    ;
    assert((i + 1) * px == i * px + px) by (nonlinear_arith);
    let lhs = e.take((i + 1) * px);
    let rhs = e.take(i * px) + pixel_out(buf, sb, alpha, i);
    assert(pixel_out(buf, sb, alpha, i).len() == px) by (nonlinear_arith)
        requires
            pixel_out(buf, sb, alpha, i).len() == (if alpha { 4 * sb } else { 3 * sb }),
            px == oc * sb,
            oc == out_channels(alpha),
    ;
    assert forall|k: int| 0 <= k < lhs.len() implies lhs[k] == rhs[k] by {
        if k >= i * px {
            let r = k - i * px;
            let c = r / sb;
            let b = r % sb;
            lemma_fundamental_div_mod(r, sb);
            assert(r == c * sb + b) by (nonlinear_arith)
                requires
                    r == sb * (r / sb) + r % sb,
                    c == r / sb,
                    b == r % sb,
            ;
            assert(c < oc) by (nonlinear_arith)
                requires
                    r == c * sb + b,
                    0 <= b,
                    r < oc * sb,
                    sb > 0,
            ;
            assert(0 <= c) by (nonlinear_arith)
                requires
                    r == c * sb + b,
                    b < sb,
                    0 <= r,
                    sb > 0,
            ;
            assert(k == gray_index(i, c, b, oc, sb)) by (nonlinear_arith)
                requires
                    k == i * px + r,
                    px == oc * sb,
                    r == c * sb + b,
            ;
            lemma_gray_index(i, c, b, oc, sb);
            let src = gray_source_index(i, c, b, sb, alpha);
            assert(e[k] == buf[src]);
            let cs = if c < 3 { 0int } else { 1int };
            assert(src == base + cs * sb + b) by (nonlinear_arith)
                requires
                    src == (i * ic + cs) * sb + b,
                    base == i * ic * sb,
            ;
            assert(c * sb + b - (if c < 3 { c } else { 3 }) * sb == b) by (nonlinear_arith)
                requires
                    c < 3 || c == 3,
            ;
            assert(rhs[k] == pixel_out(buf, sb, alpha, i)[r]);
            if c == 0 {
            } else if c == 1 {
            } else if c == 2 {
            } else {
                assert(alpha);
            }
        }
    }
    assert(lhs =~= rhs);
}

/// Offset of the source byte of (`p`, `c`, `b`) within the input, and that
/// it lies inside pixel `p`.
proof fn lemma_source_in_pixel(p: int, c: int, b: int, sb: int, alpha: bool)
    requires
        0 <= p,
        0 <= c < out_channels(alpha),
        0 <= b < sb,
    ensures
        gray_source_index(p, c, b, sb, alpha) == p * (in_channels(alpha) * sb) + (if c < 3 { 0int } else {
            1int
        }) * sb + b,
        p * (in_channels(alpha) * sb) <= gray_source_index(p, c, b, sb, alpha) < p * (in_channels(
            alpha,
        ) * sb) + in_channels(alpha) * sb,
{
    let cs = if c < 3 { 0int } else { 1int };
    let ic = in_channels(alpha);
    assert(gray_source_index(p, c, b, sb, alpha) == p * (ic * sb) + cs * sb + b) by (nonlinear_arith)
        requires
            gray_source_index(p, c, b, sb, alpha) == (p * ic + cs) * sb + b,
    ;
    assert(cs * sb + b < ic * sb) by (nonlinear_arith)
        requires
            0 <= cs < ic,
            0 <= b < sb,
    ;
    assert(0 <= cs * sb) by (nonlinear_arith)
        requires
            0 <= cs,
            0 <= sb,
    ;
}

/// Pixels are expanded independently and in order: when the first buffer
/// holds whole pixels only, expanding the two buffers one after the other
/// gives the expansion of their concatenation.
pub proof fn expand_gray_concat(a: Seq<u8>, b: Seq<u8>, sample_bytes: int, alpha: bool)
    requires
        sample_bytes >= 1,
        a.len() as int % (in_channels(alpha) * sample_bytes) == 0,
    ensures
        expanded_gray(a + b, sample_bytes, alpha) == expanded_gray(a, sample_bytes, alpha)
            + expanded_gray(b, sample_bytes, alpha),
{
    let sb = sample_bytes;
    let ic = in_channels(alpha);
    let oc = out_channels(alpha);
    let d = ic * sb;
    let px = oc * sb;
    let ab = a + b;
    let na = gray_pixel_count(a.len() as int, sb, alpha);
    let nb = gray_pixel_count(b.len() as int, sb, alpha);
    assert(d >= 1 && px >= 1) by (nonlinear_arith)
        requires
            d == ic * sb,
            px == oc * sb,
            sb >= 1,
            ic >= 1,
            oc >= 1,
    ;
    lemma_fundamental_div_mod(a.len() as int, d);
    lemma_fundamental_div_mod(b.len() as int, d);
    assert(a.len() == na * d) by (nonlinear_arith)
        requires
            a.len() == d * (a.len() as int / d) + a.len() as int % d,
            a.len() as int % d == 0,
            na == a.len() as int / d,
    ;
    assert(ab.len() == (na + nb) * d + b.len() as int % d) by (nonlinear_arith)
        requires
            ab.len() == a.len() + b.len(),
            a.len() == na * d,
            b.len() == d * nb + b.len() as int % d,
    ;
    lemma_fundamental_div_mod_converse(ab.len() as int, d, na + nb, b.len() as int % d);
    let e = expanded_gray(ab, sb, alpha);
    let ea = expanded_gray(a, sb, alpha);
    let eb = expanded_gray(b, sb, alpha);
    assert((na + nb) * px == na * px + nb * px) by (nonlinear_arith);
    assert(0 <= na * px && 0 <= nb * px) by (nonlinear_arith)
        requires
            0 <= na,
            0 <= nb,
            0 <= px,
    ;
    assert forall|k: int| 0 <= k < e.len() implies e[k] == (ea + eb)[k] by {
        let q = k / px;
        let c = (k % px) / sb;
        let bb = k % sb;
        lemma_fundamental_div_mod(k, px);
        lemma_fundamental_div_mod(k % px, sb);
        lemma_fundamental_div_mod(k, sb);
        assert(0 <= c < oc) by (nonlinear_arith)
            requires
                0 <= k % px < px,
                px == oc * sb,
                k % px == sb * c + (k % px) % sb,
                0 <= (k % px) % sb < sb,
                sb >= 1,
        ;
        if k < na * px {
            assert(q < na) by (nonlinear_arith)
                requires
                    k == px * q + k % px,
                    0 <= k % px,
                    k < na * px,
                    px >= 1,
            ;
            assert(0 <= q) by (nonlinear_arith)
                requires
                    k == px * q + k % px,
                    k % px < px,
                    0 <= k,
                    px >= 1,
            ;
            lemma_source_in_pixel(q, c, bb, sb, alpha);
            assert((q + 1) * d <= na * d) by (nonlinear_arith)
                requires
                    q < na,
                    d >= 1,
            ;
            assert(q * d + d == (q + 1) * d) by (nonlinear_arith);
        } else {
            let k2 = k - na * px;
            let q2 = k2 / px;
            lemma_fundamental_div_mod(k2, px);
            lemma_fundamental_div_mod(k2, sb);
            assert(k == (na + q2) * px + k2 % px) by (nonlinear_arith)
                requires
                    k2 == k - na * px,
                    k2 == px * q2 + k2 % px,
            ;
            lemma_fundamental_div_mod_converse(k, px, na + q2, k2 % px);
            assert(k == (na * oc + k2 / sb) * sb + k2 % sb) by (nonlinear_arith)
                requires
                    k2 == k - na * px,
                    px == oc * sb,
                    k2 == sb * (k2 / sb) + k2 % sb,
            ;
            lemma_fundamental_div_mod_converse(k, sb, na * oc + k2 / sb, k2 % sb);
            assert(q2 < nb) by (nonlinear_arith)
                requires
                    k2 == px * q2 + k2 % px,
                    0 <= k2 % px,
                    k2 < nb * px,
                    px >= 1,
            ;
            assert(0 <= q2) by (nonlinear_arith)
                requires
                    k2 == px * q2 + k2 % px,
                    k2 % px < px,
                    0 <= k2,
                    px >= 1,
            ;
            assert(q == na + q2);
            lemma_source_in_pixel(q, c, bb, sb, alpha);
            lemma_source_in_pixel(q2, c, bb, sb, alpha);
            assert(q * d == na * d + q2 * d) by (nonlinear_arith)
                requires
                    q == na + q2,
            ;
            assert((q2 + 1) * d <= nb * d) by (nonlinear_arith)
                requires
                    q2 < nb,
                    d >= 1,
            ;
            assert(q2 * d + d == (q2 + 1) * d) by (nonlinear_arith);
            assert(eb[k2] == b[gray_source_index(q2, c, bb, sb, alpha)]);
            assert(gray_source_index(q, c, bb, sb, alpha) == a.len() + gray_source_index(q2, c, bb, sb, alpha));
        }
    }
    assert(e =~= ea + eb);
}

/// In the expansion, byte `b` of each of the three color channels of pixel
/// `p` is byte `b` of the pixel's luma, and byte `b` of the fourth channel
/// (when there is alpha) is byte `b` of its alpha.
pub proof fn expansion_replicates_luma(buf: Seq<u8>, sb: int, alpha: bool, p: int, c: int, b: int)
    requires
        sb >= 1,
        0 <= p < buf.len() as int / ((if alpha { 2int } else { 1int }) * sb),
        0 <= c < (if alpha { 4int } else { 3int }),
        0 <= b < sb,
    ensures
        0 <= (p * (if alpha { 4int } else { 3int }) + c) * sb + b < expanded_gray(buf, sb, alpha).len(),
        0 <= p * (if alpha { 2int } else { 1int }) * sb + (if c < 3 { 0 } else { sb }) + b < buf.len(),
        expanded_gray(buf, sb, alpha)[(p * (if alpha { 4int } else { 3int }) + c) * sb + b] == buf[p * (
        if alpha {
            2int
        } else {
            1int
        }) * sb + (if c < 3 { 0 } else { sb }) + b],
{
    let oc = out_channels(alpha);
    let ic = in_channels(alpha);
    let n = gray_pixel_count(buf.len() as int, sb, alpha);
    lemma_gray_index(p, c, b, oc, sb);
    lemma_source_in_pixel(p, c, b, sb, alpha);
    lemma_pixel_in_bounds(buf.len() as int, sb, alpha, p);
    let k = gray_index(p, c, b, oc, sb);
    assert((k % (oc * sb)) / sb == c);
    assert(k < n * (oc * sb)) by (nonlinear_arith)
        requires
            k < p * (oc * sb) + oc * sb,
            p + 1 <= n,
            oc * sb >= 1,
    ;
    assert(oc * sb >= 1) by (nonlinear_arith)
        requires
            oc >= 3,
            sb >= 1,
    ;
    assert(n * (oc * sb) == n * oc * sb) by (nonlinear_arith);
    assert(p * ic * sb == p * (ic * sb)) by (nonlinear_arith);
    assert((if c < 3 { 0int } else { 1int }) * sb == (if c < 3 { 0 } else { sb }));
}

/// Expands a grayscale buffer (L or La) into RGB/RGBA by replicating luma into the
/// three color channels, preserving native-endian samples of `sample_bytes` each.
/// Bytes after the last whole pixel are ignored.
pub fn expand_gray(buf: &[u8], sample_bytes: usize, alpha: bool) -> (out: Vec<u8>)
    requires
        sample_bytes > 0,
        in_channels(alpha) * sample_bytes <= usize::MAX,
        gray_pixel_count(buf@.len() as int, sample_bytes as int, alpha) * out_channels(alpha)
            * sample_bytes <= usize::MAX,
    ensures
        out@ == expanded_gray(buf@, sample_bytes as int, alpha),
        out@.len() == gray_pixel_count(buf@.len() as int, sample_bytes as int, alpha) * out_channels(alpha)
            * sample_bytes,
        forall|p: int, c: int, b: int|
            0 <= p < gray_pixel_count(buf@.len() as int, sample_bytes as int, alpha) && 0 <= c
                < out_channels(alpha) && 0 <= b < sample_bytes ==> 0 <= #[trigger] gray_source_index(
                p,
                c,
                b,
                sample_bytes as int,
                alpha,
            ) < buf@.len() && out@[gray_index(p, c, b, out_channels(alpha), sample_bytes as int)]
                == buf@[gray_source_index(p, c, b, sample_bytes as int, alpha)],
{
    let in_ch: usize = if alpha { 2 } else { 1 };
    let out_ch: usize = if alpha { 4 } else { 3 };
    let pixels: usize = buf.len() / (in_ch * sample_bytes);
    let ghost sb = sample_bytes as int;
    let ghost px = out_channels(alpha) * sb;
    let ghost e = expanded_gray(buf@, sb, alpha);
    assert(pixels * out_ch * sample_bytes == pixels * px) by (nonlinear_arith)
        requires
            px == out_ch * sb,
            sb == sample_bytes,
    ;
    assert(pixels * out_ch <= pixels * out_ch * sample_bytes) by (nonlinear_arith)
        requires
            sample_bytes > 0,
    ;
    let mut out: Vec<u8> = Vec::with_capacity(pixels * out_ch * sample_bytes);
    assert(e.take(0) =~= out@);
    let mut i: usize = 0;
    while i < pixels
        invariant
            sample_bytes > 0,
            buf@.len() <= usize::MAX,
            sb == sample_bytes,
            in_ch as int == in_channels(alpha),
            out_ch as int == out_channels(alpha),
            px == out_channels(alpha) * sb,
            e == expanded_gray(buf@, sb, alpha),
            pixels as int == gray_pixel_count(buf@.len() as int, sb, alpha),
            i <= pixels,
            out@ == e.take(i * px),
        decreases pixels - i,
    {
        proof {
            lemma_pixel_in_bounds(buf@.len() as int, sb, alpha, i as int);
            lemma_pixel_step(buf@, sb, alpha, i as int);
            assert(i * in_ch <= i * in_ch * sample_bytes) by (nonlinear_arith)
                requires
                    sample_bytes > 0,
            ;
            assert(i * in_ch * sample_bytes + in_ch * sample_bytes <= buf@.len());
            assert(sample_bytes <= in_ch * sample_bytes) by (nonlinear_arith)
                requires
                    in_ch >= 1,
            ;
        }
        let base = i * in_ch * sample_bytes;
        let luma = &buf[base..base + sample_bytes];
        out.extend_from_slice(luma);
        out.extend_from_slice(luma);
        out.extend_from_slice(luma);
        if alpha {
            out.extend_from_slice(&buf[base + sample_bytes..base + 2 * sample_bytes]);
        }
        assert(out@ =~= e.take(i * px) + pixel_out(buf@, sb, alpha, i as int));
        i += 1;
    }
    proof {
        assert(e.len() == pixels * px);
        assert(e.take(pixels * px) =~= e);
        assert forall|p: int, c: int, b: int|
            0 <= p < gray_pixel_count(buf@.len() as int, sample_bytes as int, alpha) && 0 <= c
                < out_channels(alpha) && 0 <= b < sample_bytes implies 0 <= #[trigger] gray_source_index(
                p,
                c,
                b,
                sample_bytes as int,
                alpha,
            ) < buf@.len() && out@[gray_index(p, c, b, out_channels(alpha), sample_bytes as int)]
                == buf@[gray_source_index(p, c, b, sample_bytes as int, alpha)] by {
            lemma_gray_index(p, c, b, out_channels(alpha), sb);
            lemma_pixel_in_bounds(buf@.len() as int, sb, alpha, p);
            let cs = if c < 3 { 0int } else { 1int };
            assert(0 <= gray_source_index(p, c, b, sb, alpha) < (p + 1) * (in_channels(alpha) * sb)) by (nonlinear_arith)
                requires
                    gray_source_index(p, c, b, sb, alpha) == (p * in_channels(alpha) + cs) * sb + b,
                    0 <= cs < in_channels(alpha),
                    0 <= b < sb,
                    0 <= p,
            ;
            assert(gray_index(p, c, b, out_channels(alpha), sb) < pixels * px) by (nonlinear_arith)
                requires
                    gray_index(p, c, b, out_channels(alpha), sb) < p * px + px,
                    p + 1 <= pixels,
                    px > 0,
            ;
            let k = gray_index(p, c, b, out_channels(alpha), sb);
            assert((k % px) / sb == c);
            assert(out@[k] == e[k]);
        }
    }
    out
}

} // verus!

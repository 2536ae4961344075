//! Video frames: the planes of an I420 frame turned by 180 degrees (the
//! camera is mounted upside down) into one tightly packed buffer, and the
//! parts of the MJPEG stream.
use vstd::prelude::*;

use crate::text::{chars_of, push_nat_text, nat_text};

verus! {

/// Row `row` of a plane whose rows are `stride` bytes apart, `w` bytes of it,
/// right to left.
pub open spec fn reversed_row(p: Seq<u8>, row: int, w: int, stride: int) -> Seq<u8> {
    p.subrange(row * stride, row * stride + w).reverse()
}

/// The first `k` rows of the turned plane: rows `h - 1`, `h - 2`, ... of the
/// plane, each right to left.
pub open spec fn turned_rows(p: Seq<u8>, w: int, h: int, stride: int, k: nat) -> Seq<u8>
    decreases k,
{
    if k == 0 {
        Seq::empty()
    } else {
        turned_rows(p, w, h, stride, (k - 1) as nat) + reversed_row(p, h - k, w, stride)
    }
}

/// The `w` x `h` plane stored in `p` with rows `stride` bytes apart, turned
/// by 180 degrees and packed without padding.
pub open spec fn turned_plane(p: Seq<u8>, w: int, h: int, stride: int) -> Seq<u8> {
    turned_rows(p, w, h, stride, h as nat)
}

/// Every row of a `w` x `h` plane with rows `stride` bytes apart lies within
/// `len` bytes.
pub open spec fn plane_fits(len: int, w: int, h: int, stride: int) -> bool {
    h == 0 || (h - 1) * stride + w <= len
}

proof fn lemma_row_fits(len: int, w: int, h: int, stride: int, row: int)
    requires
        0 <= row < h,
        0 <= w,
        0 <= stride,
        plane_fits(len, w, h, stride),
    ensures
        0 <= row * stride,
        row * stride + w <= len,
{
    assert(0 <= row * stride <= (h - 1) * stride) by (nonlinear_arith)
        requires
            0 <= row <= h - 1,
            0 <= stride,
    ;
}

/// Appends plane `p` turned by 180 degrees.
pub fn push_turned_plane(out: &mut Vec<u8>, p: &[u8], w: usize, h: usize, stride: usize)
    requires
        plane_fits(p@.len() as int, w as int, h as int, stride as int),
    ensures
        final(out)@ == old(out)@ + turned_plane(p@, w as int, h as int, stride as int),
{
    let plen = p.len();
    let mut k: usize = 0;
    while k < h
        invariant
            k <= h,
            p@.len() == plen,
            plane_fits(p@.len() as int, w as int, h as int, stride as int),
            out@ == old(out)@ + turned_rows(p@, w as int, h as int, stride as int, k as nat),
        decreases h - k,
    {
        let row = h - 1 - k;
        proof {
            lemma_row_fits(p@.len() as int, w as int, h as int, stride as int, row as int);
        }
        let start = row * stride;
        let ghost base = out@;
        let mut c: usize = 0;
        while c < w
            invariant
                c <= w,
                p@.len() == plen,
                start as int + w <= p@.len(),
                out@ == base + p@.subrange(start as int, start + w).reverse().take(c as int),
            decreases w - c,
        {
            out.push(p[start + w - 1 - c]);
            proof {
                assert(out@ =~= base + p@.subrange(start as int, start + w).reverse().take(
                    c + 1,
                ));
            }
            c = c + 1;
        }
        proof {
            assert(p@.subrange(start as int, start + w).reverse().take(w as int) =~= reversed_row(
                p@,
                row as int,
                w as int,
                stride as int,
            ));
            assert(out@ =~= old(out)@ + turned_rows(
                p@,
                w as int,
                h as int,
                stride as int,
                (k + 1) as nat,
            ));
        }
        k = k + 1;
    }
}

/// The frame handed to the JPEG encoder: the Y plane (`w` x `h`) and the U and
/// V planes (half as wide and half as high), each turned by 180 degrees and
/// packed one after the other.
pub open spec fn turned_frame(
    y: Seq<u8>,
    u: Seq<u8>,
    v: Seq<u8>,
    w: int,
    h: int,
    sy: int,
    su: int,
    sv: int,
) -> Seq<u8> {
    turned_plane(y, w, h, sy) + turned_plane(u, w / 2, h / 2, su) + turned_plane(
        v,
        w / 2,
        h / 2,
        sv,
    )
}

/// Turns the three planes of an I420 frame by 180 degrees into one buffer;
/// each plane's rows must lie within its data.
pub fn turn_frame(
    y: &[u8],
    u: &[u8],
    v: &[u8],
    w: usize,
    h: usize,
    sy: usize,
    su: usize,
    sv: usize,
) -> (out: Vec<u8>)
    requires
        w * h * 3 <= usize::MAX,
        plane_fits(y@.len() as int, w as int, h as int, sy as int),
        plane_fits(u@.len() as int, (w / 2) as int, (h / 2) as int, su as int),
        plane_fits(v@.len() as int, (w / 2) as int, (h / 2) as int, sv as int),
    ensures
        out@ == turned_frame(
            y@,
            u@,
            v@,
            w as int,
            h as int,
            sy as int,
            su as int,
            sv as int,
        ),
{
    let mut out: Vec<u8> = Vec::with_capacity(w * h * 3 / 2);
    push_turned_plane(&mut out, y, w, h, sy);
    push_turned_plane(&mut out, u, w / 2, h / 2, su);
    push_turned_plane(&mut out, v, w / 2, h / 2, sv);
    out
}

proof fn lemma_turned_rows_len(p: Seq<u8>, w: int, h: int, stride: int, k: nat)
    requires
        0 <= w,
        0 <= stride,
        k <= h,
        plane_fits(p.len() as int, w, h, stride),
    ensures
        turned_rows(p, w, h, stride, k).len() == k * w,
    decreases k,
{
    if k > 0 {
        lemma_turned_rows_len(p, w, h, stride, (k - 1) as nat);
        lemma_row_fits(p.len() as int, w, h, stride, h - k);
        assert(reversed_row(p, h - k, w, stride).len() == w);
        assert(turned_rows(p, w, h, stride, k) == turned_rows(p, w, h, stride, (k - 1) as nat)
            + reversed_row(p, h - k, w, stride));
        assert((k - 1) * w + w == k * w) by (nonlinear_arith);
    } else {
        assert(k * w == 0) by (nonlinear_arith)
            requires
                k == 0,
        ;
    }
}

proof fn lemma_turned_rows_prefix(p: Seq<u8>, w: int, h: int, stride: int, k: nat, m: nat)
    requires
        0 <= w,
        0 <= stride,
        k <= m <= h,
        plane_fits(p.len() as int, w, h, stride),
    ensures
        turned_rows(p, w, h, stride, m).subrange(0, k * w) == turned_rows(p, w, h, stride, k),
    decreases m,
{
    lemma_turned_rows_len(p, w, h, stride, k);
    lemma_turned_rows_len(p, w, h, stride, m);
    if k < m {
        lemma_turned_rows_prefix(p, w, h, stride, k, (m - 1) as nat);
        lemma_turned_rows_len(p, w, h, stride, (m - 1) as nat);
        let prev = turned_rows(p, w, h, stride, (m - 1) as nat);
        assert(k * w <= (m - 1) * w) by (nonlinear_arith)
            requires
                k <= m - 1,
                0 <= w,
        ;
        assert(turned_rows(p, w, h, stride, m).subrange(0, k * w) =~= prev.subrange(0, k * w));
    } else {
        assert(turned_rows(p, w, h, stride, m).subrange(0, k * w) =~= turned_rows(
            p,
            w,
            h,
            stride,
            k,
        ));
    }
}

/// Turning by 180 degrees: pixel `(i, j)` of the turned plane (row `i`,
/// column `j`) is pixel `(h - 1 - i, w - 1 - j)` of the plane.
pub proof fn lemma_turned_pixel(p: Seq<u8>, w: int, h: int, stride: int, i: int, j: int)
    requires
        0 <= i < h,
        0 <= j < w,
        0 <= stride,
        plane_fits(p.len() as int, w, h, stride),
    ensures
        turned_plane(p, w, h, stride).len() == h * w,
        i * w + j < h * w,
        turned_plane(p, w, h, stride)[i * w + j] == p[(h - 1 - i) * stride + (w - 1 - j)],
{
    lemma_turned_rows_len(p, w, h, stride, h as nat);
    lemma_turned_rows_prefix(p, w, h, stride, (i + 1) as nat, h as nat);
    lemma_turned_rows_len(p, w, h, stride, i as nat);
    lemma_row_fits(p.len() as int, w, h, stride, h - 1 - i);
    assert((i + 1) * w == i * w + w) by (nonlinear_arith);
    assert(i * w + j < h * w) by (nonlinear_arith)
        requires
            0 <= i < h,
            0 <= j < w,
    ;
    let full = turned_plane(p, w, h, stride);
    let part = turned_rows(p, w, h, stride, (i + 1) as nat);
    let before = turned_rows(p, w, h, stride, i as nat);
    let row = reversed_row(p, h - 1 - i, w, stride);
    assert(h - (i + 1) == h - 1 - i);
    assert(part == before + row);
    assert((i + 1) * w <= h * w) by (nonlinear_arith)
        requires
            0 <= i < h,
            0 <= w,
    ;
    assert(full.subrange(0, (i + 1) * w)[i * w + j] == full[i * w + j]);
    assert(part[i * w + j] == row[j]);
    let start = (h - 1 - i) * stride;
    assert(row[j] == p.subrange(start, start + w)[w - 1 - j]);
    assert(full[i * w + j] == part[i * w + j]);
}

/// The boundary between the parts of the MJPEG stream.
pub const MJPEG_BOUNDARY: &'static str = "microscope-video-frame";

/// The head of a stream part carrying a JPEG image of `len` bytes.
pub open spec fn mjpeg_head(len: nat) -> Seq<char> {
    "--microscope-video-frame\r\nContent-Type: image/jpeg\r\nContent-Length: "@ + nat_text(len)
        + "\r\n\r\n"@
}

/// A part of the MJPEG stream: its head, the image, and a line break.
pub open spec fn mjpeg_part_bytes(frame: Seq<u8>) -> Seq<u8> {
    mjpeg_head(frame.len()).map_values(|c: char| c as u8) + frame + seq![13u8, 10u8]
}

/// The part of the MJPEG stream that carries `frame`.
pub fn mjpeg_part(frame: &[u8]) -> (part: Vec<u8>)
    ensures
        part@ == mjpeg_part_bytes(frame@),
{
    let mut head = chars_of("--microscope-video-frame\r\nContent-Type: image/jpeg\r\nContent-Length: ");
    push_nat_text(&mut head, frame.len() as u64);
    let tail = chars_of("\r\n\r\n");
    let mut part: Vec<u8> = Vec::new();
    let ghost expected = mjpeg_head(frame@.len()).map_values(|c: char| c as u8);
    let mut i: usize = 0;
    let ghost head_all = head@ + tail@;
    proof {
        assert(head_all =~= mjpeg_head(frame@.len()));
    }
    while i < head.len()
        invariant
            i <= head@.len(),
            head_all == head@ + tail@,
            part@ == head@.take(i as int).map_values(|c: char| c as u8),
        decreases head.len() - i,
    {
        let c = head[i];
        part.push(c as u8);
        proof {
            assert(part@ =~= head@.take(i + 1).map_values(|c: char| c as u8));
        }
        i = i + 1;
    }
    let mut j: usize = 0;
    while j < tail.len()
        invariant
            j <= tail@.len(),
            i == head@.len(),
            head_all == head@ + tail@,
            part@ == (head@ + tail@.take(j as int)).map_values(|c: char| c as u8),
        decreases tail.len() - j,
    {
        let c = tail[j];
        part.push(c as u8);
        proof {
            assert(part@ =~= (head@ + tail@.take(j + 1)).map_values(|c: char| c as u8));
        }
        j = j + 1;
    }
    proof {
        assert(head@ + tail@.take(j as int) =~= head_all);
        assert(part@ =~= expected);
    }
    let mut k: usize = 0;
    let ghost before = part@;
    while k < frame.len()
        invariant
            k <= frame@.len(),
            part@ == before + frame@.take(k as int),
        decreases frame.len() - k,
    {
        part.push(frame[k]);
        proof {
            assert(part@ =~= before + frame@.take(k + 1));
        }
        k = k + 1;
    }
    part.push(13u8);
    part.push(10u8);
    proof {
        assert(frame@.take(k as int) =~= frame@);
        assert(part@ =~= mjpeg_part_bytes(frame@));
    }
    part
}

} // verus!

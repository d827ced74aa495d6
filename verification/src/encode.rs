//! Wire encoding of one panel's frame: luma clamped to the hardware ceiling,
//! serpentine row order, and a separator byte between consecutive rows.

use vstd::prelude::*;
use vstd::arithmetic::mul::lemma_mul_inequality;
use crate::gray::GrayImage;

verus! {

/// Highest luma the panel hardware can display; brighter values are clamped.
pub const LUMA_CEILING: u8 = 200;

/// Byte written between consecutive rows of a panel body.
pub const ROW_SEPARATOR: u8 = 0;

/// Luma clamped into the displayable range `[0, LUMA_CEILING]`.
pub open spec fn clamp_luma_spec(v: u8) -> u8 {
    if v > 200 {
        200
    } else {
        v
    }
}

pub fn clamp_luma(v: u8) -> (r: u8)
    ensures
        r == clamp_luma_spec(v),
{
    if v > LUMA_CEILING {
        LUMA_CEILING
    } else {
        v
    }
}

/// Row `r` as it is transmitted: clamped luma, with the column order
/// reversed on even-indexed rows to match the serpentine wiring.
pub open spec fn wire_row(img: GrayImage, r: int) -> Seq<u8> {
    let clamped = img.row_seq(r).map_values(|v: u8| clamp_luma_spec(v));
    if r % 2 == 0 {
        clamped.reverse()
    } else {
        clamped
    }
}

/// The body bytes contributed by the first `k` rows: wire rows joined by a
/// single separator byte, with no separator after the last row.
pub open spec fn body_prefix(img: GrayImage, k: int) -> Seq<u8>
    decreases k,
{
    if k <= 0 {
        Seq::empty()
    } else if k == 1 {
        wire_row(img, 0)
    } else {
        body_prefix(img, k - 1) + seq![ROW_SEPARATOR] + wire_row(img, k - 1)
    }
}

/// The full packet body for one panel frame.
pub open spec fn body_spec(img: GrayImage) -> Seq<u8> {
    body_prefix(img, img.spec_rows() as int)
}

/// Length of a panel body: one byte per pixel plus one separator per row gap.
pub open spec fn body_len(rows: int, cols: int) -> int {
    if rows <= 0 {
        0
    } else {
        rows * (cols + 1) - 1
    }
}

pub proof fn lemma_body_prefix_len(img: GrayImage, k: int)
    requires
        0 <= k,
    ensures
        body_prefix(img, k).len() == body_len(k, img.spec_cols() as int),
    decreases k,
{
    if k > 1 {
        lemma_body_prefix_len(img, k - 1);
        assert((k - 1) * (img.spec_cols() as int + 1) + (img.spec_cols() as int + 1)
            == k * (img.spec_cols() as int + 1)) by (nonlinear_arith);
    }
}

/// Where byte `c` of wire row `r` sits inside the packet body.
pub open spec fn body_pos(cols: int, r: int, c: int) -> int {
    r * (cols + 1) + c
}

/// Each wire row is embedded verbatim in the body at its row offset.
pub proof fn lemma_body_index(img: GrayImage, k: int, r: int, c: int)
    requires
        0 <= r < k,
        0 <= c < img.spec_cols(),
    ensures
        0 <= body_pos(img.spec_cols() as int, r, c) < body_prefix(img, k).len(),
        body_prefix(img, k)[body_pos(img.spec_cols() as int, r, c)] == wire_row(img, r)[c],
    decreases k,
{
    let cols = img.spec_cols() as int;
    lemma_body_prefix_len(img, k);
    if r == k - 1 {
        if k == 1 {
        } else {
            lemma_body_prefix_len(img, k - 1);
            assert(body_pos(cols, r, c) == ((k - 1) * (cols + 1) - 1) + 1 + c) by (nonlinear_arith)
                requires
                    r == k - 1,
                    k >= 2,
            ;
        }
    } else {
        lemma_body_index(img, k - 1, r, c);
        lemma_body_prefix_len(img, k - 1);
        assert(body_pos(cols, r, c) < (k - 1) * (cols + 1) - 1) by (nonlinear_arith)
            requires
                0 <= r < k - 1,
                0 <= c < cols,
                body_pos(cols, r, c) == r * (cols + 1) + c,
        ;
    }
}

/// A separator byte sits between any two consecutive rows of the body.
pub proof fn lemma_body_separator(img: GrayImage, k: int, r: int)
    requires
        1 <= r < k,
    ensures
        0 <= body_pos(img.spec_cols() as int, r, 0) - 1 < body_prefix(img, k).len(),
        body_prefix(img, k)[body_pos(img.spec_cols() as int, r, 0) - 1] == ROW_SEPARATOR,
    decreases k,
{
    let cols = img.spec_cols() as int;
    lemma_body_prefix_len(img, k);
    if r == k - 1 {
        lemma_body_prefix_len(img, k - 1);
        assert(body_pos(cols, r, 0) - 1 == (k - 1) * (cols + 1) - 1) by (nonlinear_arith)
            requires
                r == k - 1,
                body_pos(cols, r, 0) == r * (cols + 1),
            ;
    } else {
        lemma_body_separator(img, k - 1, r);
        lemma_body_prefix_len(img, k - 1);
        assert(body_pos(cols, r, 0) - 1 < (k - 1) * (cols + 1) - 1) by (nonlinear_arith)
            requires
                1 <= r < k - 1,
                0 <= cols,
                body_pos(cols, r, 0) == r * (cols + 1),
        ;
    }
}

/// Every byte of a packet body lies within the hardware ceiling: pixel
/// bytes are clamped to `[0, LUMA_CEILING]` and separators are zero.
pub proof fn lemma_body_bounded(img: GrayImage, i: int)
    requires
        0 <= i < body_spec(img).len(),
    ensures
        body_spec(img)[i] <= LUMA_CEILING,
{
    lemma_body_prefix_bounded(img, img.spec_rows() as int, i);
}

proof fn lemma_body_prefix_bounded(img: GrayImage, k: int, i: int)
    requires
        0 <= i < body_prefix(img, k).len(),
    ensures
        body_prefix(img, k)[i] <= LUMA_CEILING,
    decreases k,
{
    if k <= 0 {
    } else if k == 1 {
        lemma_wire_row_bounded(img, 0, i);
    } else {
        let prev = body_prefix(img, k - 1);
        if i < prev.len() {
            lemma_body_prefix_bounded(img, k - 1, i);
        } else if i == prev.len() {
        } else {
            lemma_wire_row_bounded(img, k - 1, i - prev.len() - 1);
        }
    }
}

proof fn lemma_wire_row_bounded(img: GrayImage, r: int, c: int)
    requires
        0 <= c < wire_row(img, r).len(),
    ensures
        wire_row(img, r)[c] <= LUMA_CEILING,
{
}

/// One row of the packet body, already clamped and serpentine-ordered.
pub fn encode_row(img: &GrayImage, r: usize) -> (out: Vec<u8>)
    requires
        img.wf(),
        r < img.spec_rows(),
    ensures
        out@ == wire_row(*img, r as int),
{
    let cols: usize = img.cols();
    let mut out: Vec<u8> = Vec::new();
    if r % 2 == 0 {
        let mut c: usize = cols;
        while c > 0
            invariant
                img.wf(),
                r < img.spec_rows(),
                c <= cols,
                cols == img.spec_cols(),
                out@.len() == cols - c,
                forall|j: int|
                    0 <= j < out@.len()
                        ==> out@[j] == clamp_luma_spec(img.px(r as int, cols - 1 - j)),
            decreases c,
        {
            c = c - 1;
            let v: u8 = clamp_luma(img.get(r, c));
            out.push(v);
        }
    } else {
        let mut c: usize = 0;
        while c < cols
            invariant
                img.wf(),
                r < img.spec_rows(),
                c <= cols,
                cols == img.spec_cols(),
                out@.len() == c,
                forall|j: int|
                    0 <= j < out@.len() ==> out@[j] == clamp_luma_spec(img.px(r as int, j)),
            decreases cols - c,
        {
            let v: u8 = clamp_luma(img.get(r, c));
            out.push(v);
            c = c + 1;
        }
    }
    proof {
        assert(out@ =~= wire_row(*img, r as int));
    }
    out
}

/// The packet body for one frame: every row in serpentine order, with a
/// separator byte after each row except the last.
pub fn encode_body(img: &GrayImage) -> (out: Vec<u8>)
    requires
        img.wf(),
    ensures
        out@ == body_spec(*img),
{
    let rows: usize = img.rows();
    let mut out: Vec<u8> = Vec::new();
    let mut r: usize = 0;
    while r < rows
        invariant
            img.wf(),
            r <= rows,
            rows == img.spec_rows(),
            out@ == body_prefix(*img, r as int),
        decreases rows - r,
    {
        if r > 0 {
            out.push(ROW_SEPARATOR);
        }
        let mut row = encode_row(img, r);
        let ghost prev = out@;
        out.append(&mut row);
        proof {
            if r == 0 {
                assert(out@ =~= body_prefix(*img, 1));
            } else {
                assert(out@ =~= body_prefix(*img, r as int) + seq![ROW_SEPARATOR]
                    + wire_row(*img, r as int));
            }
        }
        r = r + 1;
    }
    out
}

/// Body position holding pixel `(r, c)` once the serpentine reversal of
/// even-indexed rows is taken into account.
pub open spec fn serp_pos(cols: int, r: int, c: int) -> int {
    if r % 2 == 0 {
        body_pos(cols, r, cols - 1 - c)
    } else {
        body_pos(cols, r, c)
    }
}

/// Reading the encoded body at the serpentine position of `(r, c)` gives
/// the clamped luma of pixel `(r, c)`.
pub proof fn lemma_body_at_serp(img: GrayImage, r: int, c: int)
    requires
        img.wf(),
        0 <= r < img.spec_rows(),
        0 <= c < img.spec_cols(),
    ensures
        0 <= serp_pos(img.spec_cols() as int, r, c) < body_spec(img).len(),
        body_spec(img)[serp_pos(img.spec_cols() as int, r, c)] == clamp_luma_spec(img.px(r, c)),
{
    let cols = img.spec_cols() as int;
    if r % 2 == 0 {
        lemma_body_index(img, img.spec_rows() as int, r, cols - 1 - c);
        assert(wire_row(img, r)[cols - 1 - c]
            == img.row_seq(r).map_values(|v: u8| clamp_luma_spec(v)).reverse()[cols - 1 - c]);
    } else {
        lemma_body_index(img, img.spec_rows() as int, r, c);
    }
}

/// Serpentine round-trip: for an image whose luma stays at or below the
/// hardware ceiling, reading the encoded body at the serpentine position of
/// `(r, c)` gives back exactly the original pixel, so un-reversing the
/// even-indexed rows and dropping the separators recovers every row.
pub proof fn lemma_serpentine_round_trip(img: GrayImage, r: int, c: int)
    requires
        img.wf(),
        0 <= r < img.spec_rows(),
        0 <= c < img.spec_cols(),
        img.px(r, c) <= LUMA_CEILING,
    ensures
        0 <= serp_pos(img.spec_cols() as int, r, c) < body_spec(img).len(),
        body_spec(img)[serp_pos(img.spec_cols() as int, r, c)] == img.px(r, c),
{
    lemma_body_at_serp(img, r, c);
}

/// Serpentine round-trip over a whole image: for any image whose luma
/// stays at or below the hardware ceiling, the encoded body holds every
/// pixel at its serpentine position, so un-reversing the even-indexed rows
/// and dropping the separators recovers all the original row data.
pub proof fn lemma_round_trip_image(img: GrayImage)
    requires
        img.wf(),
        forall|r: int, c: int|
            0 <= r < img.spec_rows() && 0 <= c < img.spec_cols()
                ==> img.px(r, c) <= LUMA_CEILING,
    ensures
        body_spec(img).len() == body_len(img.spec_rows() as int, img.spec_cols() as int),
        forall|r: int, c: int|
            0 <= r < img.spec_rows() && 0 <= c < img.spec_cols()
                ==> body_spec(img)[serp_pos(img.spec_cols() as int, r, c)] == img.px(r, c),
{
    lemma_body_prefix_len(img, img.spec_rows() as int);
    assert forall|r: int, c: int|
        0 <= r < img.spec_rows() && 0 <= c < img.spec_cols()
            implies body_spec(img)[serp_pos(img.spec_cols() as int, r, c)] == img.px(r, c) by {
        lemma_serpentine_round_trip(img, r, c);
    }
}

/// Expected body length for the given dimensions, or `None` when it does not
/// fit in `usize`.
fn checked_body_len(rows: usize, cols: usize) -> (out: Option<usize>)
    requires
        rows * cols <= usize::MAX,
    ensures
        match out {
            Some(n) => n == body_len(rows as int, cols as int),
            None => body_len(rows as int, cols as int) > usize::MAX,
        },
{
    if rows == 0 {
        return Some(0);
    }
    proof {
        assert(rows * (cols + 1) - 1 == rows * cols + (rows - 1)) by (nonlinear_arith);
    }
    let base: usize = rows * cols;
    match base.checked_add(rows - 1) {
        Some(n) => Some(n),
        None => None,
    }
}

/// Inverse of `encode_body` up to clamping: splits a packet body back into
/// rows, un-reversing the even-indexed ones. Returns `Some` exactly when the
/// body has the length that frames `rows * cols` pixels.
pub fn decode_body(body: &Vec<u8>, rows: usize, cols: usize) -> (out: Option<GrayImage>)
    requires
        rows * cols <= usize::MAX,
    ensures
        match out {
            Some(img) => {
                &&& img.wf()
                &&& img.spec_rows() == rows
                &&& img.spec_cols() == cols
                &&& body@.len() == body_len(rows as int, cols as int)
                &&& forall|r: int, c: int|
                    0 <= r < rows && 0 <= c < cols
                        ==> img.px(r, c) == body@[serp_pos(cols as int, r, c)]
            },
            None => body@.len() != body_len(rows as int, cols as int),
        },
{
    let expected: usize = match checked_body_len(rows, cols) {
        Some(n) => n,
        None => {
            proof {
                vstd::std_specs::vec::axiom_spec_len(body);
            }
            return None;
        },
    };
    if body.len() != expected {
        return None;
    }
    let mut img = GrayImage::new(rows, cols, 0);
    let mut r: usize = 0;
    while r < rows
        invariant
            img.wf(),
            img.spec_rows() == rows,
            img.spec_cols() == cols,
            r <= rows,
            body@.len() == body_len(rows as int, cols as int),
            rows * cols <= usize::MAX,
            forall|r2: int, c2: int|
                0 <= r2 < r && 0 <= c2 < cols
                    ==> img.px(r2, c2) == body@[serp_pos(cols as int, r2, c2)],
        decreases rows - r,
    {
        let mut c: usize = 0;
        while c < cols
            invariant
                img.wf(),
                img.spec_rows() == rows,
                img.spec_cols() == cols,
                r < rows,
                c <= cols,
                body@.len() == body_len(rows as int, cols as int),
                rows * cols <= usize::MAX,
                forall|r2: int, c2: int|
                    0 <= r2 < r && 0 <= c2 < cols
                        ==> img.px(r2, c2) == body@[serp_pos(cols as int, r2, c2)],
                forall|c2: int|
                    0 <= c2 < c ==> img.px(r as int, c2) == body@[serp_pos(cols as int, r as int, c2)],
            decreases cols - c,
        {
            proof {
                vstd::std_specs::vec::axiom_spec_len(body);
                lemma_pos_in_body(rows as int, cols as int, r as int, c as int);
                lemma_mul_inequality(r as int, rows as int, cols as int);
                assert(r * (cols as int + 1) == r * cols + r) by (nonlinear_arith);
            }
            let col_in_row: usize = if r % 2 == 0 { cols - 1 - c } else { c };
            let pos: usize = r * cols + r + col_in_row;
            let v: u8 = body[pos];
            img.set(r, c, v);
            c = c + 1;
        }
        r = r + 1;
    }
    Some(img)
}

/// The serpentine position of any pixel lies inside the packet body.
pub proof fn lemma_pos_in_body(rows: int, cols: int, r: int, c: int)
    requires
        0 <= r < rows,
        0 <= c < cols,
    ensures
        0 <= serp_pos(cols, r, c) < body_len(rows, cols),
        0 <= body_pos(cols, r, c) < body_len(rows, cols),
{
    assert(r * (cols + 1) + (cols - 1) < rows * (cols + 1) - 1) by (nonlinear_arith)
        requires
            0 <= r < rows,
            1 <= cols,
    ;
    assert(0 <= r * (cols + 1)) by (nonlinear_arith)
        requires
            0 <= r,
            0 <= cols,
    ;
}

} // verus!

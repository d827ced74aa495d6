//! Grayscale images at the panel's working resolutions, stored row-major,
//! with the pure rotation step that precedes wire encoding.

use vstd::prelude::*;
use vstd::arithmetic::mul::lemma_mul_inequality;
use crate::settings::Rotation;

verus! {

/// A grayscale image, one byte of luma per pixel, rows stored top to bottom.
pub struct GrayImage {
    rows: usize,
    cols: usize,
    data: Vec<u8>,
}

/// Row-major position `(r, c)` indexes the backing vector in bounds.
pub proof fn lemma_row_major_in_bounds(r: int, c: int, rows: int, cols: int)
    requires
        0 <= r < rows,
        0 <= c < cols,
    ensures
        0 <= r * cols + c < rows * cols,
{
    assert(r * cols + c < rows * cols) by (nonlinear_arith)
        requires
            0 <= r < rows,
            0 <= c < cols,
    ;
    assert(0 <= r * cols) by (nonlinear_arith)
        requires
            0 <= r,
            0 <= c < cols,
    ;
}

/// Distinct pixel positions occupy distinct row-major indices.
pub proof fn lemma_row_major_injective(r1: int, c1: int, r2: int, c2: int, cols: int)
    requires
        0 <= c1 < cols,
        0 <= c2 < cols,
        0 <= r1,
        0 <= r2,
        (r1, c1) != (r2, c2),
    ensures
        r1 * cols + c1 != r2 * cols + c2,
{
    assert(r1 * cols + c1 != r2 * cols + c2) by (nonlinear_arith)
        requires
            0 <= c1 < cols,
            0 <= c2 < cols,
            0 <= r1,
            0 <= r2,
            (r1, c1) != (r2, c2),
    ;
}

impl GrayImage {
    /// The backing vector holds exactly one byte per pixel.
    pub closed spec fn wf(self) -> bool {
        self.data@.len() == self.rows * self.cols
    }

    pub closed spec fn spec_rows(self) -> usize {
        self.rows
    }

    pub closed spec fn spec_cols(self) -> usize {
        self.cols
    }

    /// Luma of the pixel in row `r`, column `c`.
    pub closed spec fn px(self, r: int, c: int) -> u8 {
        self.data@[r * self.cols + c]
    }

    /// The bytes of row `r`, in column order.
    pub open spec fn row_seq(self, r: int) -> Seq<u8> {
        Seq::new(self.spec_cols() as nat, |c: int| self.px(r, c))
    }

    /// The raw backing bytes, row-major.
    pub closed spec fn bytes(self) -> Seq<u8> {
        self.data@
    }

    pub fn rows(&self) -> (n: usize)
        ensures
            n == self.spec_rows(),
    {
        self.rows
    }

    pub fn cols(&self) -> (n: usize)
        ensures
            n == self.spec_cols(),
    {
        self.cols
    }

    /// A well-formed image's bytes are exactly its pixels, row-major.
    pub proof fn lemma_bytes_index(self)
        requires
            self.wf(),
        ensures
            self.bytes().len() == self.spec_rows() * self.spec_cols(),
            forall|r: int, c: int|
                0 <= r < self.spec_rows() && 0 <= c < self.spec_cols()
                    ==> self.px(r, c) == self.bytes()[r * self.spec_cols() + c],
    {
    }

    /// The raw row-major bytes backing the image.
    pub fn as_bytes(&self) -> (b: &Vec<u8>)
        ensures
            b@ == self.bytes(),
    {
        &self.data
    }

    /// A uniform image of the given dimensions.
    pub fn new(rows: usize, cols: usize, fill: u8) -> (img: GrayImage)
        requires
            rows * cols <= usize::MAX,
        ensures
            img.wf(),
            img.spec_rows() == rows,
            img.spec_cols() == cols,
            forall|r: int, c: int|
                0 <= r < rows && 0 <= c < cols ==> img.px(r, c) == fill,
    {
        let n: usize = rows * cols;
        let mut data: Vec<u8> = Vec::new();
        let mut i: usize = 0;
        while i < n
            invariant
                i <= n,
                data@.len() == i,
                forall|j: int| 0 <= j < i ==> data@[j] == fill,
            decreases n - i,
        {
            data.push(fill);
            i = i + 1;
        }
        let img = GrayImage { rows, cols, data };
        proof {
            assert forall|r: int, c: int|
                0 <= r < rows && 0 <= c < cols implies img.px(r, c) == fill by {
                lemma_row_major_in_bounds(r, c, rows as int, cols as int);
            }
        }
        img
    }

    /// Wraps a row-major byte vector as an image of the given dimensions.
    pub fn from_raw(rows: usize, cols: usize, data: Vec<u8>) -> (img: GrayImage)
        requires
            data@.len() == rows * cols,
        ensures
            img.wf(),
            img.spec_rows() == rows,
            img.spec_cols() == cols,
            img.bytes() == data@,
            forall|r: int, c: int|
                0 <= r < rows && 0 <= c < cols ==> img.px(r, c) == data@[r * cols + c],
    {
        GrayImage { rows, cols, data }
    }

    pub fn get(&self, r: usize, c: usize) -> (v: u8)
        requires
            self.wf(),
            r < self.spec_rows(),
            c < self.spec_cols(),
        ensures
            v == self.px(r as int, c as int),
    {
        proof {
            vstd::std_specs::vec::axiom_spec_len(&self.data);
            lemma_row_major_in_bounds(r as int, c as int, self.rows as int, self.cols as int);
        }
        self.data[r * self.cols + c]
    }

    pub fn set(&mut self, r: usize, c: usize, v: u8)
        requires
            old(self).wf(),
            r < old(self).spec_rows(),
            c < old(self).spec_cols(),
        ensures
            final(self).wf(),
            final(self).spec_rows() == old(self).spec_rows(),
            final(self).spec_cols() == old(self).spec_cols(),
            final(self).px(r as int, c as int) == v,
            forall|r2: int, c2: int|
                0 <= r2 < old(self).spec_rows() && 0 <= c2 < old(self).spec_cols()
                    && (r2, c2) != (r as int, c as int)
                    ==> final(self).px(r2, c2) == old(self).px(r2, c2),
    {
        proof {
            vstd::std_specs::vec::axiom_spec_len(&self.data);
            lemma_row_major_in_bounds(r as int, c as int, self.rows as int, self.cols as int);
        }
        let i: usize = r * self.cols + c;
        self.data[i] = v;
        proof {
            assert forall|r2: int, c2: int|
                0 <= r2 < self.spec_rows() && 0 <= c2 < self.spec_cols()
                    && (r2, c2) != (r as int, c as int)
                    implies self.px(r2, c2) == old(self).px(r2, c2) by {
                lemma_row_major_in_bounds(r2, c2, self.rows as int, self.cols as int);
                lemma_row_major_injective(r2, c2, r as int, c as int, self.cols as int);
            }
        }
    }

    /// Row index in the source image of the pixel that lands at `(r, c)`
    /// after rotating by `rot`.
    pub open spec fn src_row(rot: Rotation, rows: int, cols: int, r: int, c: int) -> int {
        match rot {
            Rotation::Rotate0 => r,
            Rotation::Rotate90 => rows - 1 - c,
            Rotation::Rotate180 => rows - 1 - r,
            Rotation::Rotate270 => c,
        }
    }

    /// Column index in the source image of the pixel that lands at `(r, c)`
    /// after rotating by `rot`.
    pub open spec fn src_col(rot: Rotation, rows: int, cols: int, r: int, c: int) -> int {
        match rot {
            Rotation::Rotate0 => c,
            Rotation::Rotate90 => r,
            Rotation::Rotate180 => cols - 1 - c,
            Rotation::Rotate270 => cols - 1 - r,
        }
    }

    /// Number of rows after rotating an image of the given dimensions.
    pub open spec fn rotated_rows(rot: Rotation, rows: int, cols: int) -> int {
        match rot {
            Rotation::Rotate0 => rows,
            Rotation::Rotate90 => cols,
            Rotation::Rotate180 => rows,
            Rotation::Rotate270 => cols,
        }
    }

    /// Number of columns after rotating an image of the given dimensions.
    pub open spec fn rotated_cols(rot: Rotation, rows: int, cols: int) -> int {
        match rot {
            Rotation::Rotate0 => cols,
            Rotation::Rotate90 => rows,
            Rotation::Rotate180 => cols,
            Rotation::Rotate270 => rows,
        }
    }

    /// The image turned clockwise by the given quarter-turn count.
    pub fn rotated(&self, rot: Rotation) -> (out: GrayImage)
        requires
            self.wf(),
        ensures
            out.wf(),
            out.spec_rows() ==
                Self::rotated_rows(rot, self.spec_rows() as int, self.spec_cols() as int),
            out.spec_cols() ==
                Self::rotated_cols(rot, self.spec_rows() as int, self.spec_cols() as int),
            forall|r: int, c: int|
                0 <= r < out.spec_rows() && 0 <= c < out.spec_cols()
                    ==> out.px(r, c) == self.px(
                        Self::src_row(rot, self.spec_rows() as int, self.spec_cols() as int, r, c),
                        Self::src_col(rot, self.spec_rows() as int, self.spec_cols() as int, r, c),
                    ),
    {
        let (new_rows, new_cols): (usize, usize) = match rot {
            Rotation::Rotate0 => (self.rows, self.cols),
            Rotation::Rotate90 => (self.cols, self.rows),
            Rotation::Rotate180 => (self.rows, self.cols),
            Rotation::Rotate270 => (self.cols, self.rows),
        };
        let ghost srows = self.spec_rows() as int;
        let ghost scols = self.spec_cols() as int;
        let mut data: Vec<u8> = Vec::new();
        let mut r: usize = 0;
        while r < new_rows
            invariant
                self.wf(),
                r <= new_rows,
                new_rows == Self::rotated_rows(rot, srows, scols),
                new_cols == Self::rotated_cols(rot, srows, scols),
                srows == self.spec_rows(),
                scols == self.spec_cols(),
                data@.len() == r * new_cols,
                forall|r2: int, c2: int|
                    0 <= r2 < r && 0 <= c2 < new_cols
                        ==> data@[r2 * new_cols + c2]
                            == self.px(Self::src_row(rot, srows, scols, r2, c2),
                                       Self::src_col(rot, srows, scols, r2, c2)),
            decreases new_rows - r,
        {
            let mut c: usize = 0;
            while c < new_cols
                invariant
                    self.wf(),
                    r < new_rows,
                    c <= new_cols,
                    new_rows == Self::rotated_rows(rot, srows, scols),
                    new_cols == Self::rotated_cols(rot, srows, scols),
                    srows == self.spec_rows(),
                    scols == self.spec_cols(),
                    data@.len() == r * new_cols + c,
                    forall|r2: int, c2: int|
                        0 <= r2 < r && 0 <= c2 < new_cols
                            ==> data@[r2 * new_cols + c2]
                                == self.px(Self::src_row(rot, srows, scols, r2, c2),
                                           Self::src_col(rot, srows, scols, r2, c2)),
                    forall|c2: int|
                        0 <= c2 < c
                            ==> data@[r * new_cols + c2]
                                == self.px(Self::src_row(rot, srows, scols, r as int, c2),
                                           Self::src_col(rot, srows, scols, r as int, c2)),
                decreases new_cols - c,
            {
                let (sr, sc): (usize, usize) = match rot {
                    Rotation::Rotate0 => (r, c),
                    Rotation::Rotate90 => (self.rows - 1 - c, r),
                    Rotation::Rotate180 => (self.rows - 1 - r, self.cols - 1 - c),
                    Rotation::Rotate270 => (c, self.cols - 1 - r),
                };
                let v: u8 = self.get(sr, sc);
                data.push(v);
                c = c + 1;
                proof {
                    lemma_row_major_in_bounds(r as int, c - 1, new_rows as int, new_cols as int);
                    assert forall|r2: int, c2: int|
                        0 <= r2 < r && 0 <= c2 < new_cols
                            implies data@[r2 * new_cols + c2]
                                == self.px(Self::src_row(rot, srows, scols, r2, c2),
                                           Self::src_col(rot, srows, scols, r2, c2)) by {
                        lemma_row_major_in_bounds(r2, c2, r as int, new_cols as int);
                        lemma_mul_inequality(r2 + 1, r as int, new_cols as int);
                    }
                }
            }
            proof {
                assert((r + 1) * new_cols == r * new_cols + new_cols) by (nonlinear_arith);
            }
            r = r + 1;
        }
        let out = GrayImage { rows: new_rows, cols: new_cols, data };
        proof {
            assert forall|r2: int, c2: int|
                0 <= r2 < out.spec_rows() && 0 <= c2 < out.spec_cols()
                    implies out.px(r2, c2)
                        == self.px(Self::src_row(rot, srows, scols, r2, c2),
                                   Self::src_col(rot, srows, scols, r2, c2)) by {
                lemma_row_major_in_bounds(r2, c2, new_rows as int, new_cols as int);
            }
        }
        out
    }
}

} // verus!

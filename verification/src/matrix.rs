//! Dense matrices over the abstract scalar.
//!
//! A sample batch is a matrix whose columns are independent examples; the
//! same column-major batch convention is used by every routine of the
//! engine. The contracts pin down the shape of every result and, for the
//! structural operations (filling, transposing, permuting, slicing,
//! overwriting rows), the exact entries.

use vstd::prelude::*;

use crate::scalar::Scalar;

verus! {

/// A rectangular matrix: `rows` rows, `cols` columns, row-major storage.
pub struct Matrix<T> {
    /// Number of rows.
    pub rows: usize,
    /// Number of columns.
    pub cols: usize,
    /// The entries; `data[r][c]` is the entry in row `r`, column `c`.
    pub data: Vec<Vec<T>>,
}

impl<T> View for Matrix<T> {
    type V = Seq<Seq<T>>;

    open spec fn view(&self) -> Seq<Seq<T>> {
        self.data@.map_values(|row: Vec<T>| row@)
    }
}

impl<T> Matrix<T> {
    /// The matrix is rectangular and its dimension fields match the storage.
    pub open spec fn wf(&self) -> bool {
        &&& self@.len() == self.rows
        &&& forall|i: int| 0 <= i < self@.len() ==> (#[trigger] self@[i]).len() == self.cols
    }

    /// Shape equality: same row and column counts.
    pub open spec fn same_shape(&self, other: &Matrix<T>) -> bool {
        self.rows == other.rows && self.cols == other.cols
    }

    /// Number of rows, for callers outside the verified world.
    pub fn num_rows(&self) -> (r: usize)
        ensures
            r == self.rows,
    {
        self.rows
    }

    /// Number of columns, for callers outside the verified world.
    pub fn num_cols(&self) -> (r: usize)
        ensures
            r == self.cols,
    {
        self.cols
    }
}

impl<T: Copy> Matrix<T> {
    /// A `rows` by `cols` matrix with every entry equal to `v`.
    pub fn fill(rows: usize, cols: usize, v: T) -> (r: Matrix<T>)
        ensures
            r.wf(),
            r.rows == rows,
            r.cols == cols,
            forall|i: int, j: int|
                0 <= i < rows && 0 <= j < cols ==> #[trigger] r@[i][j] == v,
    {
        let mut data: Vec<Vec<T>> = Vec::new();
        let mut i: usize = 0;
        while i < rows
            invariant
                i <= rows,
                data@.len() == i,
                forall|p: int| 0 <= p < i ==> (#[trigger] data@[p])@.len() == cols,
                forall|p: int, q: int|
                    0 <= p < i && 0 <= q < cols ==> #[trigger] data@[p]@[q] == v,
            decreases rows - i,
        {
            let mut row: Vec<T> = Vec::new();
            let mut j: usize = 0;
            while j < cols
                invariant
                    j <= cols,
                    row@.len() == j,
                    forall|q: int| 0 <= q < j ==> #[trigger] row@[q] == v,
                decreases cols - j,
            {
                row.push(v);
                j = j + 1;
            }
            data.push(row);
            i = i + 1;
        }
        Matrix { rows, cols, data }
    }

    /// Builds a matrix from rows already laid out, refusing ragged input.
    /// Returns `None` exactly when two rows differ in length.
    pub fn from_rows(data: Vec<Vec<T>>) -> (r: Option<Matrix<T>>)
        ensures
            match r {
                Some(m) => {
                    &&& m.wf()
                    &&& m.rows == data@.len()
                    &&& m@ == data@.map_values(|row: Vec<T>| row@)
                    &&& data@.len() > 0 ==> m.cols == data@[0]@.len()
                },
                None => exists|i: int|
                    0 <= i < data@.len() && (#[trigger] data@[i])@.len() != data@[0]@.len(),
            },
    {
        let cols: usize = if data.len() > 0 {
            data[0].len()
        } else {
            0
        };
        let mut i: usize = 0;
        while i < data.len()
            invariant
                i <= data@.len(),
                data@.len() > 0 ==> cols == data@[0]@.len(),
                forall|p: int| 0 <= p < i ==> (#[trigger] data@[p])@.len() == cols,
            decreases data@.len() - i,
        {
            if data[i].len() != cols {
                return None;
            }
            i = i + 1;
        }
        let rows: usize = data.len();
        Some(Matrix { rows, cols, data })
    }

    /// Reads one entry.
    pub fn entry(&self, r: usize, c: usize) -> (v: T)
        requires
            self.wf(),
            r < self.rows,
            c < self.cols,
        ensures
            v == self@[r as int][c as int],
    {
        proof {
            assert(self@[r as int] == self.data@[r as int]@);
        }
        self.data[r][c]
    }

    /// Overwrites one entry, leaving every other entry in place.
    pub fn set_entry(&mut self, r: usize, c: usize, v: T)
        requires
            old(self).wf(),
            r < old(self).rows,
            c < old(self).cols,
        ensures
            final(self).wf(),
            final(self).rows == old(self).rows,
            final(self).cols == old(self).cols,
            final(self)@[r as int][c as int] == v,
            forall|i: int, j: int|
                0 <= i < final(self).rows && 0 <= j < final(self).cols && !(i == r && j == c)
                    ==> #[trigger] final(self)@[i][j] == old(self)@[i][j],
    {
        proof {
            assert(old(self)@[r as int] == old(self).data@[r as int]@);
        }
        let row: &mut Vec<T> = &mut self.data[r];
        row.set(c, v);
        assert(self@ =~= old(self)@.update(r as int, old(self)@[r as int].update(c as int, v)));
    }

    /// Overwrites every entry of row `r` with `v`, leaving other rows in place.
    pub fn set_row_to(&mut self, r: usize, v: T)
        requires
            old(self).wf(),
            r < old(self).rows,
        ensures
            final(self).wf(),
            final(self).rows == old(self).rows,
            final(self).cols == old(self).cols,
            forall|j: int| 0 <= j < final(self).cols ==> #[trigger] final(self)@[r as int][j] == v,
            forall|i: int|
                0 <= i < final(self).rows && i != r ==> #[trigger] final(self)@[i] == old(self)@[i],
    {
        let cols: usize = self.cols;
        let mut row: Vec<T> = Vec::new();
        let mut j: usize = 0;
        while j < cols
            invariant
                j <= cols,
                row@.len() == j,
                forall|q: int| 0 <= q < j ==> #[trigger] row@[q] == v,
            decreases cols - j,
        {
            row.push(v);
            j = j + 1;
        }
        self.data[r] = row;
        assert(forall|i: int|
            0 <= i < self.rows && i != r ==> #[trigger] self@[i] == old(self)@[i]);
    }

    /// An entry-for-entry copy of the matrix.
    pub fn duplicate(&self) -> (r: Matrix<T>)
        requires
            self.wf(),
        ensures
            r.wf(),
            r.rows == self.rows,
            r.cols == self.cols,
            r@ == self@,
    {
        let mut data: Vec<Vec<T>> = Vec::new();
        let mut i: usize = 0;
        while i < self.rows
            invariant
                self.wf(),
                i <= self.rows,
                data@.len() == i,
                forall|p: int| 0 <= p < i ==> #[trigger] data@[p]@ == self@[p],
            decreases self.rows - i,
        {
            let mut row: Vec<T> = Vec::new();
            let mut j: usize = 0;
            while j < self.cols
                invariant
                    self.wf(),
                    i < self.rows,
                    j <= self.cols,
                    row@.len() == j,
                    forall|q: int| 0 <= q < j ==> #[trigger] row@[q] == self@[i as int][q],
                decreases self.cols - j,
            {
                row.push(self.entry(i, j));
                j = j + 1;
            }
            proof {
                assert(row@ =~= self@[i as int]);
            }
            data.push(row);
            i = i + 1;
        }
        let m = Matrix { rows: self.rows, cols: self.cols, data };
        proof {
            assert forall|p: int| 0 <= p < m.rows implies #[trigger] m@[p] == self@[p] by {
                assert(m@[p] == m.data@[p]@);
            }
            assert(m@ =~= self@);
        }
        m
    }

    /// The transpose: entry `(i, j)` of the result is entry `(j, i)` of `self`.
    pub fn transpose(&self) -> (r: Matrix<T>)
        requires
            self.wf(),
        ensures
            r.wf(),
            r.rows == self.cols,
            r.cols == self.rows,
            forall|i: int, j: int|
                0 <= i < r.rows && 0 <= j < r.cols ==> #[trigger] r@[i][j] == self@[j][i],
    {
        let mut data: Vec<Vec<T>> = Vec::new();
        let mut i: usize = 0;
        while i < self.cols
            invariant
                self.wf(),
                i <= self.cols,
                data@.len() == i,
                forall|p: int| 0 <= p < i ==> (#[trigger] data@[p])@.len() == self.rows,
                forall|p: int, q: int|
                    0 <= p < i && 0 <= q < self.rows ==> #[trigger] data@[p]@[q] == self@[q][p],
            decreases self.cols - i,
        {
            let mut row: Vec<T> = Vec::new();
            let mut j: usize = 0;
            while j < self.rows
                invariant
                    self.wf(),
                    i < self.cols,
                    j <= self.rows,
                    row@.len() == j,
                    forall|q: int| 0 <= q < j ==> #[trigger] row@[q] == self@[q][i as int],
                decreases self.rows - j,
            {
                proof {
                    assert(self@[j as int] == self.data@[j as int]@);
                }
                row.push(self.data[j][i]);
                j = j + 1;
            }
            data.push(row);
            i = i + 1;
        }
        Matrix { rows: self.cols, cols: self.rows, data }
    }

    /// The columns `start..end`, in order.
    pub fn slice_cols(&self, start: usize, end: usize) -> (r: Matrix<T>)
        requires
            self.wf(),
            start <= end,
            end <= self.cols,
        ensures
            r.wf(),
            r.rows == self.rows,
            r.cols == end - start,
            forall|i: int, j: int|
                0 <= i < r.rows && 0 <= j < r.cols ==> #[trigger] r@[i][j] == self@[i][start + j],
    {
        let width: usize = end - start;
        let mut data: Vec<Vec<T>> = Vec::new();
        let mut i: usize = 0;
        while i < self.rows
            invariant
                self.wf(),
                start + width <= self.cols,
                i <= self.rows,
                data@.len() == i,
                forall|p: int| 0 <= p < i ==> (#[trigger] data@[p])@.len() == width,
                forall|p: int, q: int|
                    0 <= p < i && 0 <= q < width
                        ==> #[trigger] data@[p]@[q] == self@[p][start + q],
            decreases self.rows - i,
        {
            let mut row: Vec<T> = Vec::new();
            let mut j: usize = 0;
            while j < width
                invariant
                    self.wf(),
                    start + width <= self.cols,
                    i < self.rows,
                    j <= width,
                    row@.len() == j,
                    forall|q: int| 0 <= q < j ==> #[trigger] row@[q] == self@[i as int][start + q],
                decreases width - j,
            {
                row.push(self.entry(i, start + j));
                j = j + 1;
            }
            data.push(row);
            i = i + 1;
        }
        Matrix { rows: self.rows, cols: width, data }
    }

    /// The rows `start..end`, in order.
    pub fn slice_rows(&self, start: usize, end: usize) -> (r: Matrix<T>)
        requires
            self.wf(),
            start <= end,
            end <= self.rows,
        ensures
            r.wf(),
            r.rows == end - start,
            r.cols == self.cols,
            forall|i: int| 0 <= i < r.rows ==> #[trigger] r@[i] == self@[start + i],
    {
        let height: usize = end - start;
        let mut data: Vec<Vec<T>> = Vec::new();
        let mut i: usize = 0;
        while i < height
            invariant
                self.wf(),
                start + height <= self.rows,
                i <= height,
                data@.len() == i,
                forall|p: int| 0 <= p < i ==> #[trigger] data@[p]@ == self@[start + p],
            decreases height - i,
        {
            let mut row: Vec<T> = Vec::new();
            let mut j: usize = 0;
            while j < self.cols
                invariant
                    self.wf(),
                    start + height <= self.rows,
                    i < height,
                    j <= self.cols,
                    row@.len() == j,
                    forall|q: int| 0 <= q < j ==> #[trigger] row@[q] == self@[start + i][q],
                decreases self.cols - j,
            {
                row.push(self.entry(start + i, j));
                j = j + 1;
            }
            proof {
                assert(row@ =~= self@[start + i]);
            }
            data.push(row);
            i = i + 1;
        }
        let m = Matrix { rows: height, cols: self.cols, data };
        proof {
            assert forall|p: int| 0 <= p < height implies #[trigger] m@[p] == self@[start + p] by {
                assert(m@[p] == m.data@[p]@);
            }
        }
        m
    }

    /// Reorders columns: column `c` of the result is column `idx[c]` of `self`.
    pub fn permute_cols(&self, idx: &Vec<usize>) -> (r: Matrix<T>)
        requires
            self.wf(),
            idx@.len() == self.cols,
            forall|c: int| 0 <= c < idx@.len() ==> #[trigger] idx@[c] < self.cols,
        ensures
            r.wf(),
            r.rows == self.rows,
            r.cols == self.cols,
            forall|i: int, j: int|
                0 <= i < r.rows && 0 <= j < r.cols
                    ==> #[trigger] r@[i][j] == self@[i][idx@[j] as int],
    {
        let mut data: Vec<Vec<T>> = Vec::new();
        let mut i: usize = 0;
        while i < self.rows
            invariant
                self.wf(),
                idx@.len() == self.cols,
                forall|c: int| 0 <= c < idx@.len() ==> #[trigger] idx@[c] < self.cols,
                i <= self.rows,
                data@.len() == i,
                forall|p: int| 0 <= p < i ==> (#[trigger] data@[p])@.len() == self.cols,
                forall|p: int, q: int|
                    0 <= p < i && 0 <= q < self.cols
                        ==> #[trigger] data@[p]@[q] == self@[p][idx@[q] as int],
            decreases self.rows - i,
        {
            let mut row: Vec<T> = Vec::new();
            let mut j: usize = 0;
            while j < self.cols
                invariant
                    self.wf(),
                    idx@.len() == self.cols,
                    forall|c: int| 0 <= c < idx@.len() ==> #[trigger] idx@[c] < self.cols,
                    i < self.rows,
                    j <= self.cols,
                    row@.len() == j,
                    forall|q: int|
                        0 <= q < j ==> #[trigger] row@[q] == self@[i as int][idx@[q] as int],
                decreases self.cols - j,
            {
                row.push(self.entry(i, idx[j]));
                j = j + 1;
            }
            data.push(row);
            i = i + 1;
        }
        Matrix { rows: self.rows, cols: self.cols, data }
    }

    /// Reorders rows: row `r` of the result is row `idx[r]` of `self`.
    pub fn permute_rows(&self, idx: &Vec<usize>) -> (r: Matrix<T>)
        requires
            self.wf(),
            idx@.len() == self.rows,
            forall|c: int| 0 <= c < idx@.len() ==> #[trigger] idx@[c] < self.rows,
        ensures
            r.wf(),
            r.rows == self.rows,
            r.cols == self.cols,
            forall|i: int| 0 <= i < r.rows ==> #[trigger] r@[i] == self@[idx@[i] as int],
    {
        let mut data: Vec<Vec<T>> = Vec::new();
        let mut i: usize = 0;
        while i < self.rows
            invariant
                self.wf(),
                idx@.len() == self.rows,
                forall|c: int| 0 <= c < idx@.len() ==> #[trigger] idx@[c] < self.rows,
                i <= self.rows,
                data@.len() == i,
                forall|p: int| 0 <= p < i ==> #[trigger] data@[p]@ == self@[idx@[p] as int],
            decreases self.rows - i,
        {
            let src: usize = idx[i];
            let mut row: Vec<T> = Vec::new();
            let mut j: usize = 0;
            while j < self.cols
                invariant
                    self.wf(),
                    src < self.rows,
                    j <= self.cols,
                    row@.len() == j,
                    forall|q: int| 0 <= q < j ==> #[trigger] row@[q] == self@[src as int][q],
                decreases self.cols - j,
            {
                row.push(self.entry(src, j));
                j = j + 1;
            }
            proof {
                assert(row@ =~= self@[src as int]);
            }
            data.push(row);
            i = i + 1;
        }
        let m = Matrix { rows: self.rows, cols: self.cols, data };
        proof {
            assert forall|p: int|
                0 <= p < m.rows implies #[trigger] m@[p] == self@[idx@[p] as int] by {
                assert(m@[p] == m.data@[p]@);
            }
        }
        m
    }
}

impl<T: Scalar> Matrix<T> {
    /// The matrix product `self · other`.
    pub fn matmul(&self, other: &Matrix<T>) -> (r: Matrix<T>)
        requires
            self.wf(),
            other.wf(),
            self.cols == other.rows,
        ensures
            r.wf(),
            r.rows == self.rows,
            r.cols == other.cols,
    {
        let mut data: Vec<Vec<T>> = Vec::new();
        let mut i: usize = 0;
        while i < self.rows
            invariant
                self.wf(),
                other.wf(),
                self.cols == other.rows,
                i <= self.rows,
                data@.len() == i,
                forall|p: int| 0 <= p < i ==> (#[trigger] data@[p])@.len() == other.cols,
            decreases self.rows - i,
        {
            let mut row: Vec<T> = Vec::new();
            let mut j: usize = 0;
            while j < other.cols
                invariant
                    self.wf(),
                    other.wf(),
                    self.cols == other.rows,
                    i < self.rows,
                    j <= other.cols,
                    row@.len() == j,
                decreases other.cols - j,
            {
                let mut acc: T = T::zero();
                let mut k: usize = 0;
                while k < self.cols
                    invariant
                        self.wf(),
                        other.wf(),
                        self.cols == other.rows,
                        i < self.rows,
                        j < other.cols,
                        k <= self.cols,
                    decreases self.cols - k,
                {
                    acc = acc.add(self.entry(i, k).mul(other.entry(k, j)));
                    k = k + 1;
                }
                row.push(acc);
                j = j + 1;
            }
            data.push(row);
            i = i + 1;
        }
        Matrix { rows: self.rows, cols: other.cols, data }
    }

    /// Adds the single-column matrix `col` to every column of `self`.
    pub fn add_col_broadcast(&self, col: &Matrix<T>) -> (r: Matrix<T>)
        requires
            self.wf(),
            col.wf(),
            col.rows == self.rows,
            col.cols == 1,
        ensures
            r.wf(),
            r.rows == self.rows,
            r.cols == self.cols,
    {
        let mut data: Vec<Vec<T>> = Vec::new();
        let mut i: usize = 0;
        while i < self.rows
            invariant
                self.wf(),
                col.wf(),
                col.rows == self.rows,
                col.cols == 1,
                i <= self.rows,
                data@.len() == i,
                forall|p: int| 0 <= p < i ==> (#[trigger] data@[p])@.len() == self.cols,
            decreases self.rows - i,
        {
            let offset: T = col.entry(i, 0);
            let mut row: Vec<T> = Vec::new();
            let mut j: usize = 0;
            while j < self.cols
                invariant
                    self.wf(),
                    i < self.rows,
                    j <= self.cols,
                    row@.len() == j,
                decreases self.cols - j,
            {
                row.push(self.entry(i, j).add(offset));
                j = j + 1;
            }
            data.push(row);
            i = i + 1;
        }
        Matrix { rows: self.rows, cols: self.cols, data }
    }

    /// Entry-wise combination of two matrices of the same shape.
    fn zip_with(&self, other: &Matrix<T>, op: u8) -> (r: Matrix<T>)
        requires
            self.wf(),
            other.wf(),
            self.same_shape(other),
        ensures
            r.wf(),
            r.rows == self.rows,
            r.cols == self.cols,
    {
        let mut data: Vec<Vec<T>> = Vec::new();
        let mut i: usize = 0;
        while i < self.rows
            invariant
                self.wf(),
                other.wf(),
                self.same_shape(other),
                i <= self.rows,
                data@.len() == i,
                forall|p: int| 0 <= p < i ==> (#[trigger] data@[p])@.len() == self.cols,
            decreases self.rows - i,
        {
            let mut row: Vec<T> = Vec::new();
            let mut j: usize = 0;
            while j < self.cols
                invariant
                    self.wf(),
                    other.wf(),
                    self.same_shape(other),
                    i < self.rows,
                    j <= self.cols,
                    row@.len() == j,
                decreases self.cols - j,
            {
                let a: T = self.entry(i, j);
                let b: T = other.entry(i, j);
                let v: T = if op == 0 {
                    a.add(b)
                } else if op == 1 {
                    a.sub(b)
                } else if op == 2 {
                    a.mul(b)
                } else {
                    a.div(b)
                };
                row.push(v);
                j = j + 1;
            }
            data.push(row);
            i = i + 1;
        }
        Matrix { rows: self.rows, cols: self.cols, data }
    }

    /// Entry-wise sum.
    pub fn elem_add(&self, other: &Matrix<T>) -> (r: Matrix<T>)
        requires
            self.wf(),
            other.wf(),
            self.same_shape(other),
        ensures
            r.wf(),
            r.rows == self.rows,
            r.cols == self.cols,
    {
        self.zip_with(other, 0)
    }

    /// Entry-wise difference.
    pub fn elem_sub(&self, other: &Matrix<T>) -> (r: Matrix<T>)
        requires
            self.wf(),
            other.wf(),
            self.same_shape(other),
        ensures
            r.wf(),
            r.rows == self.rows,
            r.cols == self.cols,
    {
        self.zip_with(other, 1)
    }

    /// Entry-wise (Hadamard) product.
    pub fn elem_mul(&self, other: &Matrix<T>) -> (r: Matrix<T>)
        requires
            self.wf(),
            other.wf(),
            self.same_shape(other),
        ensures
            r.wf(),
            r.rows == self.rows,
            r.cols == self.cols,
    {
        self.zip_with(other, 2)
    }

    /// Entry-wise quotient.
    pub fn elem_div(&self, other: &Matrix<T>) -> (r: Matrix<T>)
        requires
            self.wf(),
            other.wf(),
            self.same_shape(other),
        ensures
            r.wf(),
            r.rows == self.rows,
            r.cols == self.cols,
    {
        self.zip_with(other, 3)
    }

    /// Multiplies every entry by `k`.
    pub fn scale(&self, k: T) -> (r: Matrix<T>)
        requires
            self.wf(),
        ensures
            r.wf(),
            r.rows == self.rows,
            r.cols == self.cols,
    {
        let mut data: Vec<Vec<T>> = Vec::new();
        let mut i: usize = 0;
        while i < self.rows
            invariant
                self.wf(),
                i <= self.rows,
                data@.len() == i,
                forall|p: int| 0 <= p < i ==> (#[trigger] data@[p])@.len() == self.cols,
            decreases self.rows - i,
        {
            let mut row: Vec<T> = Vec::new();
            let mut j: usize = 0;
            while j < self.cols
                invariant
                    self.wf(),
                    i < self.rows,
                    j <= self.cols,
                    row@.len() == j,
                decreases self.cols - j,
            {
                row.push(self.entry(i, j).mul(k));
                j = j + 1;
            }
            data.push(row);
            i = i + 1;
        }
        Matrix { rows: self.rows, cols: self.cols, data }
    }

    /// Divides every entry by `k`.
    pub fn scale_div(&self, k: T) -> (r: Matrix<T>)
        requires
            self.wf(),
        ensures
            r.wf(),
            r.rows == self.rows,
            r.cols == self.cols,
    {
        let mut data: Vec<Vec<T>> = Vec::new();
        let mut i: usize = 0;
        while i < self.rows
            invariant
                self.wf(),
                i <= self.rows,
                data@.len() == i,
                forall|p: int| 0 <= p < i ==> (#[trigger] data@[p])@.len() == self.cols,
            decreases self.rows - i,
        {
            let mut row: Vec<T> = Vec::new();
            let mut j: usize = 0;
            while j < self.cols
                invariant
                    self.wf(),
                    i < self.rows,
                    j <= self.cols,
                    row@.len() == j,
                decreases self.cols - j,
            {
                row.push(self.entry(i, j).div(k));
                j = j + 1;
            }
            data.push(row);
            i = i + 1;
        }
        Matrix { rows: self.rows, cols: self.cols, data }
    }

    /// The sum of all entries.
    pub fn sum_all(&self) -> (r: T)
        requires
            self.wf(),
    {
        let mut acc: T = T::zero();
        let mut i: usize = 0;
        while i < self.rows
            invariant
                self.wf(),
                i <= self.rows,
            decreases self.rows - i,
        {
            let mut j: usize = 0;
            while j < self.cols
                invariant
                    self.wf(),
                    i < self.rows,
                    j <= self.cols,
                decreases self.cols - j,
            {
                acc = acc.add(self.entry(i, j));
                j = j + 1;
            }
            i = i + 1;
        }
        acc
    }

    /// A single-row matrix holding the sum of each column.
    pub fn col_sums(&self) -> (r: Matrix<T>)
        requires
            self.wf(),
        ensures
            r.wf(),
            r.rows == 1,
            r.cols == self.cols,
    {
        let mut row: Vec<T> = Vec::new();
        let mut j: usize = 0;
        while j < self.cols
            invariant
                self.wf(),
                j <= self.cols,
                row@.len() == j,
            decreases self.cols - j,
        {
            let mut acc: T = T::zero();
            let mut i: usize = 0;
            while i < self.rows
                invariant
                    self.wf(),
                    j < self.cols,
                    i <= self.rows,
                decreases self.rows - i,
            {
                acc = acc.add(self.entry(i, j));
                i = i + 1;
            }
            row.push(acc);
            j = j + 1;
        }
        let mut data: Vec<Vec<T>> = Vec::new();
        data.push(row);
        Matrix { rows: 1, cols: self.cols, data }
    }

    /// Divides every entry of column `j` by entry `j` of the single-row
    /// matrix `divisors`.
    pub fn div_row_broadcast(&self, divisors: &Matrix<T>) -> (r: Matrix<T>)
        requires
            self.wf(),
            divisors.wf(),
            divisors.rows == 1,
            divisors.cols == self.cols,
        ensures
            r.wf(),
            r.rows == self.rows,
            r.cols == self.cols,
    {
        let mut data: Vec<Vec<T>> = Vec::new();
        let mut i: usize = 0;
        while i < self.rows
            invariant
                self.wf(),
                divisors.wf(),
                divisors.rows == 1,
                divisors.cols == self.cols,
                i <= self.rows,
                data@.len() == i,
                forall|p: int| 0 <= p < i ==> (#[trigger] data@[p])@.len() == self.cols,
            decreases self.rows - i,
        {
            let mut row: Vec<T> = Vec::new();
            let mut j: usize = 0;
            while j < self.cols
                invariant
                    self.wf(),
                    divisors.wf(),
                    divisors.rows == 1,
                    divisors.cols == self.cols,
                    i < self.rows,
                    j <= self.cols,
                    row@.len() == j,
                decreases self.cols - j,
            {
                row.push(self.entry(i, j).div(divisors.entry(0, j)));
                j = j + 1;
            }
            data.push(row);
            i = i + 1;
        }
        Matrix { rows: self.rows, cols: self.cols, data }
    }

    /// A matrix of the same shape whose entries are drawn from the carrier's
    /// unit range and divided by `scale_root`'s square root.
    pub fn sample(rows: usize, cols: usize, scale_root: usize) -> (r: Matrix<T>)
        ensures
            r.wf(),
            r.rows == rows,
            r.cols == cols,
    {
        let denom: T = T::of_usize(scale_root).sqrt();
        let mut data: Vec<Vec<T>> = Vec::new();
        let mut i: usize = 0;
        while i < rows
            invariant
                i <= rows,
                data@.len() == i,
                forall|p: int| 0 <= p < i ==> (#[trigger] data@[p])@.len() == cols,
            decreases rows - i,
        {
            let mut row: Vec<T> = Vec::new();
            let mut j: usize = 0;
            while j < cols
                invariant
                    j <= cols,
                    row@.len() == j,
                decreases cols - j,
            {
                row.push(T::sample_unit().div(denom));
                j = j + 1;
            }
            data.push(row);
            i = i + 1;
        }
        Matrix { rows, cols, data }
    }
}

} // verus!

//! Growable storage for training data.
//!
//! `EMatrix` and `EVector` own a backing store whose *capacity* (allocated
//! rows) can exceed the *logical size* (rows in use).  Appending rows is
//! amortized: when an append would overflow the capacity, the store grows to
//! `max(required_size, capacity + capacity / 2)`, so the capacity increases
//! by a factor of one and a half.  Rows between the logical size and the
//! capacity hold a caller-chosen sentinel and are never exposed: readers only
//! ever see the logical prefix, through [`EMatrix::view_rows`] and
//! [`EVector::view_rows`].

use vstd::prelude::*;
use vstd::pervasive::VecAdditionalExecFns;
use vstd::slice::slice_subrange;

verus! {

/// Error returned by [`EVector::assign`] when the replacement content does
/// not have exactly the logical size of the vector.
#[derive(Clone, Copy, Debug, PartialEq, Eq, Structural)]
pub struct SizeMismatch {
    /// The logical size of the vector.
    pub expected: usize,
    /// The length of the rejected replacement.
    pub found: usize,
}

/// The capacity that a growing append reallocates to: the required size, or
/// the previous capacity increased by half, whichever is larger.
pub open spec fn grown_capacity(required: int, capacity: int) -> int {
    if required > capacity + capacity / 2 {
        required
    } else {
        capacity + capacity / 2
    }
}

/// The logical content after a sequence of appended blocks.
pub open spec fn rows_after_appends<T>(init: Seq<T>, blocks: Seq<Seq<T>>) -> Seq<T>
    decreases blocks.len(),
{
    if blocks.len() == 0 {
        init
    } else {
        rows_after_appends(init + blocks.first(), blocks.drop_first())
    }
}

/// Any sequence of appends yields the ordered concatenation of the appended
/// blocks after the initial content, no matter how many reallocations took
/// place in between: together with the postcondition of
/// [`EMatrix::add_rows`] or [`EVector::add_rows`], which states that one
/// append extends the logical view by exactly the appended block, this
/// pins down the view after any number of appends.
pub proof fn lemma_appends_are_concatenation<T>(init: Seq<T>, blocks: Seq<Seq<T>>)
    ensures
        rows_after_appends(init, blocks) == init + blocks.flatten(),
    decreases blocks.len(),
{
    if blocks.len() == 0 {
        assert(blocks.flatten() == Seq::<T>::empty());
        assert(init + Seq::<T>::empty() =~= init);
    } else {
        lemma_appends_are_concatenation(init + blocks.first(), blocks.drop_first());
        assert(blocks.flatten() == blocks.first() + blocks.drop_first().flatten());
        assert((init + blocks.first()) + blocks.drop_first().flatten() =~= init + (
        blocks.first() + blocks.drop_first().flatten()));
    }
}

/// A matrix that can grow to add additional rows efficiently.
///
/// Each row has exactly `ncols` entries; the backing store holds `cap()`
/// rows of which the first `rows().len()` are logical content.
pub struct EMatrix<T> {
    data: Vec<Vec<T>>,
    nrows: usize,
    ncols: usize,
    sentinel: T,
}

impl<T: Copy> EMatrix<T> {
    /// The logical content: the rows in use, in order.
    pub closed spec fn rows(&self) -> Seq<Seq<T>> {
        self.data@.take(self.nrows as int).map_values(|r: Vec<T>| r@)
    }

    /// The number of allocated rows.
    pub closed spec fn cap(&self) -> int {
        self.data@.len() as int
    }

    /// The common length of every row.
    pub closed spec fn cols(&self) -> int {
        self.ncols as int
    }

    /// Well-formedness: the logical size never exceeds the capacity, and
    /// every allocated row, sentinel rows included, has `cols()` entries.
    pub closed spec fn wf(&self) -> bool {
        &&& self.nrows <= self.data@.len()
        &&& forall|i: int| 0 <= i < self.data@.len() ==> #[trigger] self.data@[i]@.len()
            == self.ncols as int
    }

    /// Creates a matrix whose logical content and capacity are exactly the
    /// given rows.  `sentinel` is the detectable filler for the capacity
    /// rows that later growth allocates.
    pub fn new(data: Vec<Vec<T>>, ncols: usize, sentinel: T) -> (r: Self)
        requires
            forall|i: int| 0 <= i < data@.len() ==> #[trigger] data@[i]@.len() == ncols as int,
        ensures
            r.wf(),
            r.rows() == data@.map_values(|v: Vec<T>| v@),
            r.cap() == data@.len(),
            r.cols() == ncols,
    {
        let nrows = data.len();
        proof {
            assert(data@.take(data@.len() as int) =~= data@);
        }
        EMatrix { data, nrows, ncols, sentinel }
    }

    /// The logical size, in rows.
    pub fn len(&self) -> (r: usize)
        requires
            self.wf(),
        ensures
            r == self.rows().len(),
    {
        self.nrows
    }

    /// The number of allocated rows.
    pub fn capacity(&self) -> (r: usize)
        ensures
            r == self.cap(),
    {
        self.data.len()
    }

    /// A read-only view of exactly the logical prefix: the sentinel-filled
    /// capacity rows are excluded.
    pub fn view_rows(&self) -> (r: &[Vec<T>])
        requires
            self.wf(),
        ensures
            r@.map_values(|v: Vec<T>| v@) == self.rows(),
    {
        let r = slice_subrange(self.data.as_slice(), 0, self.nrows);
        proof {
            assert(r@.map_values(|v: Vec<T>| v@) =~= self.rows());
        }
        r
    }

    /// Appends logical rows at the end, growing the backing store when the
    /// capacity does not suffice.  The logical view afterwards is the old
    /// view followed by exactly the appended rows; the capacity never
    /// shrinks, stays put on a non-growing append, and on a growing append
    /// becomes `max(required_size, old capacity * 3 / 2)`.
    pub fn add_rows(&mut self, rows: &Vec<Vec<T>>)
        requires
            old(self).wf(),
            forall|i: int| 0 <= i < rows@.len() ==> #[trigger] rows@[i]@.len() == old(
                self,
            ).cols(),
            old(self).rows().len() + rows@.len() <= usize::MAX,
            old(self).cap() + old(self).cap() / 2 <= usize::MAX,
        ensures
            final(self).wf(),
            final(self).cols() == old(self).cols(),
            final(self).rows() == old(self).rows() + rows@.map_values(|v: Vec<T>| v@),
            final(self).cap() >= old(self).cap(),
            old(self).rows().len() + rows@.len() <= old(self).cap() ==> final(self).cap()
                == old(self).cap(),
            old(self).rows().len() + rows@.len() > old(self).cap() ==> final(self).cap()
                == grown_capacity(
                old(self).rows().len() + rows@.len() as int,
                old(self).cap(),
            ),
    {
        let required: usize = self.nrows + rows.len();
        if required > self.data.len() {
            let growed: usize = self.data.len() + self.data.len() / 2;
            let new_capacity: usize = if required > growed {
                required
            } else {
                growed
            };
            while self.data.len() < new_capacity
                invariant
                    old(self).wf(),
                    self.nrows == old(self).nrows,
                    self.ncols == old(self).ncols,
                    self.sentinel == old(self).sentinel,
                    old(self).data@.len() <= self.data@.len() <= new_capacity,
                    self.data@.take(old(self).data@.len() as int) == old(self).data@,
                    forall|i: int| 0 <= i < self.data@.len() ==> #[trigger] self.data@[i]@.len()
                        == self.ncols as int,
                decreases new_capacity - self.data@.len(),
            {
                let mut filler: Vec<T> = Vec::new();
                while filler.len() < self.ncols
                    invariant
                        filler@.len() <= self.ncols,
                        forall|k: int| 0 <= k < filler@.len() ==> #[trigger] filler@[k]
                            == self.sentinel,
                    decreases self.ncols - filler@.len(),
                {
                    filler.push(self.sentinel);
                }
                let ghost prev = self.data@;
                self.data.push(filler);
                proof {
                    assert(self.data@.take(old(self).data@.len() as int) =~= prev.take(
                        old(self).data@.len() as int,
                    ));
                }
            }
        }
        let ghost cap_after_growth = self.data@.len();
        proof {
            assert(self.data@.take(self.nrows as int) =~= old(self).data@.take(
                self.nrows as int,
            ));
        }
        let mut j: usize = 0;
        while j < rows.len()
            invariant
                old(self).wf(),
                j <= rows@.len(),
                self.nrows == old(self).nrows,
                self.ncols == old(self).ncols,
                forall|i: int| 0 <= i < rows@.len() ==> #[trigger] rows@[i]@.len() == self.ncols
                    as int,
                self.nrows + rows@.len() <= self.data@.len(),
                self.data@.len() == cap_after_growth,
                self.data@.len() <= usize::MAX,
                forall|i: int| 0 <= i < self.data@.len() ==> #[trigger] self.data@[i]@.len()
                    == self.ncols as int,
                self.data@.take(self.nrows as int) == old(self).data@.take(self.nrows as int),
                forall|i: int| self.nrows <= i < self.nrows + j ==> #[trigger] self.data@[i]@ == rows@[
                    i - self.nrows]@,
            decreases rows@.len() - j,
        {
            let mut row: Vec<T> = Vec::new();
            let source: &Vec<T> = &rows[j];
            let mut k: usize = 0;
            while k < source.len()
                invariant
                    k <= source@.len(),
                    row@ == source@.take(k as int),
                decreases source@.len() - k,
            {
                row.push(source[k]);
                proof {
                    assert(row@ =~= source@.take(k + 1int));
                }
                k += 1;
            }
            proof {
                assert(row@ =~= source@);
            }
            let ghost prev = self.data@;
            self.data.set(self.nrows + j, row);
            proof {
                assert(self.data@.take(self.nrows as int) =~= prev.take(self.nrows as int));
            }
            j += 1;
        }
        self.nrows = required;
        proof {
            assert(self.rows() =~= old(self).rows() + rows@.map_values(|v: Vec<T>| v@));
        }
    }
}

/// A vector that can grow to add additional entries efficiently.
pub struct EVector<T> {
    data: Vec<T>,
    nrows: usize,
    sentinel: T,
}

impl<T: Copy> EVector<T> {
    /// The logical content: the entries in use, in order.
    pub closed spec fn rows(&self) -> Seq<T> {
        self.data@.take(self.nrows as int)
    }

    /// The number of allocated entries.
    pub closed spec fn cap(&self) -> int {
        self.data@.len() as int
    }

    /// Well-formedness: the logical size never exceeds the capacity.
    pub closed spec fn wf(&self) -> bool {
        self.nrows <= self.data@.len()
    }

    /// Creates a vector whose logical content and capacity are exactly the
    /// given entries.  `sentinel` is the detectable filler for the capacity
    /// entries that later growth allocates.
    pub fn new(data: Vec<T>, sentinel: T) -> (r: Self)
        ensures
            r.wf(),
            r.rows() == data@,
            r.cap() == data@.len(),
    {
        let nrows = data.len();
        proof {
            assert(data@.take(data@.len() as int) =~= data@);
        }
        EVector { data, nrows, sentinel }
    }

    /// The logical size, in entries.
    pub fn len(&self) -> (r: usize)
        requires
            self.wf(),
        ensures
            r == self.rows().len(),
    {
        self.nrows
    }

    /// The number of allocated entries.
    pub fn capacity(&self) -> (r: usize)
        ensures
            r == self.cap(),
    {
        self.data.len()
    }

    /// A read-only view of exactly the logical prefix: the sentinel-filled
    /// capacity entries are excluded.
    pub fn view_rows(&self) -> (r: &[T])
        requires
            self.wf(),
        ensures
            r@ == self.rows(),
    {
        slice_subrange(self.data.as_slice(), 0, self.nrows)
    }

    /// Appends logical entries at the end, growing the backing store when
    /// the capacity does not suffice, under the same growth policy as
    /// [`EMatrix::add_rows`].
    pub fn add_rows(&mut self, rows: &Vec<T>)
        requires
            old(self).wf(),
            old(self).rows().len() + rows@.len() <= usize::MAX,
            old(self).cap() + old(self).cap() / 2 <= usize::MAX,
        ensures
            final(self).wf(),
            final(self).rows() == old(self).rows() + rows@,
            final(self).cap() >= old(self).cap(),
            old(self).rows().len() + rows@.len() <= old(self).cap() ==> final(self).cap()
                == old(self).cap(),
            old(self).rows().len() + rows@.len() > old(self).cap() ==> final(self).cap()
                == grown_capacity(
                old(self).rows().len() + rows@.len() as int,
                old(self).cap(),
            ),
    {
        let required: usize = self.nrows + rows.len();
        if required > self.data.len() {
            let growed: usize = self.data.len() + self.data.len() / 2;
            let new_capacity: usize = if required > growed {
                required
            } else {
                growed
            };
            while self.data.len() < new_capacity
                invariant
                    old(self).wf(),
                    self.nrows == old(self).nrows,
                    self.sentinel == old(self).sentinel,
                    old(self).data@.len() <= self.data@.len() <= new_capacity,
                    self.data@.take(old(self).data@.len() as int) == old(self).data@,
                decreases new_capacity - self.data@.len(),
            {
                let ghost prev = self.data@;
                self.data.push(self.sentinel);
                proof {
                    assert(self.data@.take(old(self).data@.len() as int) =~= prev.take(
                        old(self).data@.len() as int,
                    ));
                }
            }
        }
        let ghost cap_after_growth = self.data@.len();
        proof {
            assert(self.data@.take(self.nrows as int) =~= old(self).data@.take(
                self.nrows as int,
            ));
        }
        let mut j: usize = 0;
        while j < rows.len()
            invariant
                old(self).wf(),
                j <= rows@.len(),
                self.nrows == old(self).nrows,
                self.nrows + rows@.len() <= self.data@.len(),
                self.data@.len() == cap_after_growth,
                self.data@.len() <= usize::MAX,
                self.data@.take(self.nrows as int) == old(self).data@.take(self.nrows as int),
                forall|i: int| self.nrows <= i < self.nrows + j ==> #[trigger] self.data@[i] == rows@[
                    i - self.nrows],
            decreases rows@.len() - j,
        {
            let ghost prev = self.data@;
            self.data.set(self.nrows + j, rows[j]);
            proof {
                assert(self.data@.take(self.nrows as int) =~= prev.take(self.nrows as int));
            }
            j += 1;
        }
        self.nrows = required;
        proof {
            assert(self.rows() =~= old(self).rows() + rows@);
        }
    }

    /// Replaces the whole logical content.  The replacement must have
    /// exactly the logical size: any other length is a caller error,
    /// rejected without touching the vector.
    pub fn assign(&mut self, rows: &Vec<T>) -> (r: Result<(), SizeMismatch>)
        requires
            old(self).wf(),
        ensures
            final(self).wf(),
            r is Ok <==> rows@.len() == old(self).rows().len(),
            r is Ok ==> final(self).rows() == rows@,
            r is Err ==> *final(self) == *old(self) && r->Err_0.expected == old(
                self,
            ).rows().len() && r->Err_0.found == rows@.len(),
            final(self).cap() == old(self).cap(),
    {
        if rows.len() != self.nrows {
            return Err(SizeMismatch { expected: self.nrows, found: rows.len() });
        }
        let mut j: usize = 0;
        while j < rows.len()
            invariant
                old(self).wf(),
                rows@.len() == old(self).nrows,
                j <= rows@.len(),
                self.nrows == old(self).nrows,
                self.data@.len() == old(self).data@.len(),
                forall|i: int| 0 <= i < j ==> #[trigger] self.data@[i] == rows@[i],
            decreases rows@.len() - j,
        {
            self.data.set(j, rows[j]);
            j += 1;
        }
        proof {
            assert(self.rows() =~= rows@);
        }
        Ok(())
    }
}

} // verus!

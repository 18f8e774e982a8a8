use vstd::prelude::*;
use vstd::slice::slice_subrange;

verus! {

/// The shared length two sequences are cut down to before an element-wise
/// pass: the minimum of their two lengths.
pub open spec fn common_len(nx: nat, ny: nat) -> nat {
    if nx <= ny {
        nx
    } else {
        ny
    }
}

/// The pair of prefixes an element-wise pass actually sees: both inputs
/// truncated to their common length.
pub open spec fn reconciled<T>(x: Seq<T>, y: Seq<T>) -> (Seq<T>, Seq<T>) {
    (
        x.take(common_len(x.len(), y.len()) as int),
        y.take(common_len(x.len(), y.len()) as int),
    )
}

/// How many index pairs an element-wise loop over two sequences of the given
/// lengths visits.
pub fn reconciled_len(x_len: usize, y_len: usize) -> (end: usize)
    ensures
        end == common_len(x_len as nat, y_len as nat),
{
    if x_len <= y_len {
        x_len
    } else {
        y_len
    }
}

/// Truncates both slices to their common length, dropping the trailing
/// elements of the longer one; equal-length inputs come back unchanged.
pub fn reconcile<'a, T>(x: &'a [T], y: &'a [T]) -> (r: (&'a [T], &'a [T]))
    ensures
        (r.0@, r.1@) == reconciled(x@, y@),
        r.0@.len() == r.1@.len(),
{
    let end = reconciled_len(x.len(), y.len());
    let xr = slice_subrange(x, 0, end);
    let yr = slice_subrange(y, 0, end);
    (xr, yr)
}

/// Reconciliation is idempotent: the reconciled pair, reconciled again, is
/// unchanged. A computation that reconciles its inputs therefore reads the
/// same data from `(x, y)` as from the already-truncated pair.
pub proof fn lemma_reconciled_idempotent<T>(x: Seq<T>, y: Seq<T>)
    ensures
        reconciled(reconciled(x, y).0, reconciled(x, y).1) == reconciled(x, y),
{
    let end = common_len(x.len(), y.len()) as int;
    assert(x.take(end).take(end) =~= x.take(end));
    assert(y.take(end).take(end) =~= y.take(end));
}

/// Swapping the two inputs swaps the two components of the reconciled pair:
/// an element-wise pass visits the same index pairs either way.
pub proof fn lemma_reconciled_symmetric<T>(x: Seq<T>, y: Seq<T>)
    ensures
        reconciled(y, x).0 == reconciled(x, y).1,
        reconciled(y, x).1 == reconciled(x, y).0,
{
}

} // verus!

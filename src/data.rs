//! The training matrix: its shape check, and the selection of support
//! vectors from the solver's coefficients.
use crate::float_bits::{bits_is_zero, is_zero};
use vstd::prelude::*;

verus! {

/// A row whose length differs from that of the first row.
#[derive(Clone, Copy, Debug, PartialEq, Eq, Structural)]
pub struct ShapeError {
    pub row: usize,
    pub expected: usize,
    pub found: usize,
}

/// Whether every row has the length of the first.
pub open spec fn is_rectangular(rows: Seq<Vec<u64>>) -> bool {
    forall|i: int| 0 <= i < rows.len() ==> #[trigger] rows[i]@.len() == rows[0]@.len()
}

/// Accepts the training rows (IEEE-754 bits) when they all have one length,
/// and reports the first row that does not otherwise.
pub fn extract_data(x: Vec<Vec<u64>>) -> (r: Result<Vec<Vec<u64>>, ShapeError>)
    ensures
        r is Ok <==> is_rectangular(x@),
        r matches Ok(d) ==> d@ == x@,
        r matches Err(e) ==> {
            &&& e.row < x@.len()
            &&& e.expected == x@[0]@.len()
            &&& e.found == x@[e.row as int]@.len()
            &&& e.found != e.expected
            &&& forall|i: int| 0 <= i < e.row ==> #[trigger] x@[i]@.len() == e.expected
        },
{
    if x.len() == 0 {
        return Ok(x);
    }
    let nft: usize = x[0].len();
    let mut i: usize = 0;
    while i < x.len()
        invariant
            0 < x@.len(),
            i <= x@.len(),
            nft == x@[0]@.len(),
            forall|j: int| 0 <= j < i ==> #[trigger] x@[j]@.len() == nft,
        decreases x@.len() - i,
    {
        let found: usize = x[i].len();
        if found != nft {
            return Err(ShapeError { row: i, expected: nft, found });
        }
        i = i + 1;
    }
    Ok(x)
}

/// Positions of the non-zero coefficients of `a`, in increasing order.
pub open spec fn support_of(a: Seq<u64>) -> Seq<int>
    decreases a.len(),
{
    if a.len() == 0 {
        Seq::empty()
    } else {
        let s = support_of(a.drop_last());
        if is_zero(a.last()) {
            s
        } else {
            s.push(a.len() - 1)
        }
    }
}

/// The support vectors of a solution: the positions of the non-zero
/// coefficients, those coefficients, and the training rows they belong to.
pub struct Support {
    pub indices: Vec<usize>,
    pub coefficients: Vec<u64>,
    pub rows: Vec<Vec<u64>>,
}

/// Keeps the training rows whose coefficient is non-zero. A problem with
/// more coefficients than rows (one per row and output) wraps around the
/// rows.
pub fn find_support(a: &Vec<u64>, data: &Vec<Vec<u64>>) -> (r: Support)
    requires
        a@.len() == 0 || data@.len() > 0,
    ensures
        r.indices@.len() == support_of(a@).len(),
        r.coefficients@.len() == support_of(a@).len(),
        r.rows@.len() == support_of(a@).len(),
        forall|k: int|
            0 <= k < support_of(a@).len() ==> {
                &&& #[trigger] r.indices@[k] == support_of(a@)[k]
                &&& r.coefficients@[k] == a@[support_of(a@)[k]]
                &&& r.rows@[k]@ == data@[support_of(a@)[k] % (data@.len() as int)]@
            },
{
    let mut indices: Vec<usize> = Vec::new();
    let mut coefficients: Vec<u64> = Vec::new();
    let mut rows: Vec<Vec<u64>> = Vec::new();
    let mut i: usize = 0;
    while i < a.len()
        invariant
            i <= a@.len(),
            a@.len() == 0 || data@.len() > 0,
            indices@.len() == support_of(a@.subrange(0, i as int)).len(),
            coefficients@.len() == indices@.len(),
            rows@.len() == indices@.len(),
            forall|k: int|
                0 <= k < indices@.len() ==> {
                    &&& #[trigger] indices@[k] == support_of(a@.subrange(0, i as int))[k]
                    &&& coefficients@[k] == a@[indices@[k] as int]
                    &&& rows@[k]@ == data@[(indices@[k] as int) % (data@.len() as int)]@
                },
        decreases a@.len() - i,
    {
        let ghost prev = a@.subrange(0, i as int);
        let ghost next = a@.subrange(0, i + 1);
        assert(next.drop_last() =~= prev);
        assert(next.last() == a@[i as int]);
        if !bits_is_zero(a[i]) {
            let row: Vec<u64> = data[i % data.len()].clone();
            indices.push(i);
            coefficients.push(a[i]);
            rows.push(row);
        }
        i = i + 1;
    }
    assert(a@.subrange(0, a@.len() as int) =~= a@);
    Support { indices, coefficients, rows }
}

/// Every position that `support_of` lists holds a non-zero coefficient,
/// every non-zero coefficient is listed, and the positions increase: the
/// support vectors keep the order of the training rows.
pub proof fn lemma_support_in_order(a: Seq<u64>)
    ensures
        forall|k: int|
            0 <= k < support_of(a).len() ==> 0 <= #[trigger] support_of(a)[k] < a.len()
                && !is_zero(a[support_of(a)[k]]),
        forall|k: int, l: int|
            0 <= k < l < support_of(a).len() ==> #[trigger] support_of(a)[k] < #[trigger] support_of(
                a,
            )[l],
        forall|i: int|
            0 <= i < a.len() && !is_zero(#[trigger] a[i]) ==> support_of(a).contains(i),
    decreases a.len(),
{
    if a.len() > 0 {
        let p = a.drop_last();
        lemma_support_in_order(p);
        assert forall|i: int| 0 <= i < p.len() implies #[trigger] p[i] == a[i] by {}
        if !is_zero(a.last()) {
            let s = support_of(p);
            let t = support_of(a);
            assert(t == s.push(a.len() - 1));
            assert forall|k: int| 0 <= k < t.len() implies 0 <= #[trigger] t[k] < a.len() && !is_zero(
                a[t[k]],
            ) by {
                if k < s.len() {
                    assert(t[k] == s[k]);
                    assert(p[s[k]] == a[s[k]]);
                }
            }
            assert forall|k: int, l: int| 0 <= k < l < t.len() implies #[trigger] t[k] < #[trigger] t[l] by {
                assert(t[k] == s[k]);
                if l < s.len() {
                    assert(t[l] == s[l]);
                }
            }
            assert forall|i: int| 0 <= i < a.len() && !is_zero(#[trigger] a[i]) implies support_of(
                a,
            ).contains(i) by {
                if i < a.len() - 1 {
                    assert(p[i] == a[i]);
                    let j = choose|j: int| 0 <= j < s.len() && s[j] == i;
                    assert(support_of(a)[j] == i);
                } else {
                    assert(support_of(a)[s.len() as int] == i);
                }
            }
        } else {
            let s = support_of(p);
            assert(support_of(a) == s);
            assert forall|k: int| 0 <= k < s.len() implies !is_zero(a[#[trigger] s[k]]) by {
                assert(p[s[k]] == a[s[k]]);
            }
            assert forall|i: int| 0 <= i < a.len() && !is_zero(#[trigger] a[i]) implies support_of(
                a,
            ).contains(i) by {
                assert(i < a.len() - 1);
                assert(p[i] == a[i]);
            }
        }
    }
}

} // verus!

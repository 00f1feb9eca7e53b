//! Folding the outcomes of a document's pages into one report.

use vstd::prelude::*;
use crate::error::Error;
use itertools::Itertools;

verus! {

/// The outcome of a document run: which pages went through and which failed, with why.
#[derive(Debug, Clone, PartialEq, Eq)]
pub struct UploadResult {
    /// The indices of the pages that succeeded, ascending.
    pub success_ids: Vec<usize>,
    /// The index and failure of each page that failed, ascending by index.
    pub failure_ids: Vec<(usize, Error)>,
}

/// The indices whose outcome is a success, in order.
pub open spec fn success_indices(rs: Seq<Result<(), Error>>) -> Seq<usize>
    decreases rs.len(),
{
    if rs.len() == 0 {
        Seq::empty()
    } else if rs.last() is Ok {
        success_indices(rs.drop_last()).push((rs.len() - 1) as usize)
    } else {
        success_indices(rs.drop_last())
    }
}

/// The index and failure of each outcome that is a failure, in order.
pub open spec fn failure_pairs(rs: Seq<Result<(), Error>>) -> Seq<(usize, Error)>
    decreases rs.len(),
{
    if rs.len() == 0 {
        Seq::empty()
    } else if rs.last() is Err {
        failure_pairs(rs.drop_last()).push(((rs.len() - 1) as usize, rs.last()->Err_0))
    } else {
        failure_pairs(rs.drop_last())
    }
}

/// The indices of the failure pairs.
pub open spec fn failure_indices(rs: Seq<Result<(), Error>>) -> Seq<usize> {
    failure_pairs(rs).map_values(|p: (usize, Error)| p.0)
}

/// A page's outcome tagged with its index: `Ok(i)` for a success, `Err((i, e))` for a failure.
pub open spec fn side_spec(i: usize, outcome: Result<(), Error>) -> Result<usize, (usize, Error)> {
    match outcome {
        Ok(()) => Ok(i),
        Err(e) => Err((i, e)),
    }
}

/// Tags a page's outcome with its index.
pub fn page_side(i: usize, outcome: Result<(), Error>) -> (r: Result<usize, (usize, Error)>)
    ensures
        r == side_spec(i, outcome),
{
    match outcome {
        Ok(()) => Ok(i),
        Err(e) => Err((i, e)),
    }
}

/// The `Ok` values of a sequence, in order.
pub open spec fn ok_values(xs: Seq<Result<usize, (usize, Error)>>) -> Seq<usize>
    decreases xs.len(),
{
    if xs.len() == 0 {
        Seq::empty()
    } else if xs.last() is Ok {
        ok_values(xs.drop_last()).push(xs.last()->Ok_0)
    } else {
        ok_values(xs.drop_last())
    }
}

/// The `Err` values of a sequence, in order.
pub open spec fn err_values(xs: Seq<Result<usize, (usize, Error)>>) -> Seq<(usize, Error)>
    decreases xs.len(),
{
    if xs.len() == 0 {
        Seq::empty()
    } else if xs.last() is Err {
        err_values(xs.drop_last()).push(xs.last()->Err_0)
    } else {
        err_values(xs.drop_last())
    }
}

/// Relies on itertools::Itertools::partition_result: the `Ok` values and the
/// `Err` values, each in the order of the input.
#[verifier::external_body]
fn split_results(xs: Vec<Result<usize, (usize, Error)>>) -> (r: (Vec<usize>, Vec<(usize, Error)>))
    ensures
        r.0@ == ok_values(xs@),
        r.1@ == err_values(xs@),
{
    xs.into_iter().partition_result()
}

proof fn lemma_tagged_split(rs: Seq<Result<(), Error>>, xs: Seq<Result<usize, (usize, Error)>>)
    requires
        rs.len() == xs.len(),
        rs.len() <= usize::MAX + 1,
        forall|j: int| 0 <= j < xs.len() ==> #[trigger] xs[j] == side_spec(j as usize, rs[j]),
    ensures
        ok_values(xs) == success_indices(rs),
        err_values(xs) == failure_pairs(rs),
    decreases rs.len(),
{
    if rs.len() > 0 {
        let n = rs.len() - 1;
        assert(xs.last() == xs[n]);
        lemma_tagged_split(rs.drop_last(), xs.drop_last());
    }
}

/// Partitions the outcomes of pages `0..n`, given by index, into success
/// indices and (index, failure) pairs.
pub fn aggregate(results: Vec<Result<(), Error>>) -> (r: UploadResult)
    ensures
        r.success_ids@ == success_indices(results@),
        r.failure_ids@ == failure_pairs(results@),
{
    let ghost orig = results@;
    let n = results.len();
    let mut results = results;
    let mut reversed: Vec<Result<(), Error>> = Vec::new();
    while results.len() > 0
        invariant
            orig.len() == n,
            results@ == orig.take(results.len() as int),
            reversed@.len() == n - results.len(),
            forall|j: int| 0 <= j < reversed@.len() ==> reversed@[j] == orig[n - 1 - j],
        decreases results.len(),
    {
        let x = results.pop().unwrap();
        reversed.push(x);
    }
    let mut tagged: Vec<Result<usize, (usize, Error)>> = Vec::new();
    let mut i: usize = 0;
    while i < n
        invariant
            orig.len() == n,
            i <= n,
            reversed@.len() == n - i,
            forall|j: int| 0 <= j < reversed@.len() ==> reversed@[j] == orig[n - 1 - j],
            tagged@.len() == i,
            forall|j: int| 0 <= j < i ==> #[trigger] tagged@[j] == side_spec(j as usize, orig[j]),
        decreases n - i,
    {
        let outcome = reversed.pop().unwrap();
        assert(outcome == orig[i as int]);
        tagged.push(page_side(i, outcome));
        i = i + 1;
    }
    proof {
        lemma_tagged_split(orig, tagged@);
    }
    let (success_ids, failure_ids) = split_results(tagged);
    UploadResult { success_ids, failure_ids }
}

proof fn lemma_success_indices(rs: Seq<Result<(), Error>>)
    requires
        rs.len() <= usize::MAX + 1,
    ensures
        forall|a: int, b: int|
            0 <= a < b < success_indices(rs).len() ==> success_indices(rs)[a]
                < success_indices(rs)[b],
        forall|k: int| 0 <= k < success_indices(rs).len() ==> success_indices(rs)[k] < rs.len(),
        forall|i: usize| success_indices(rs).contains(i) <==> (i < rs.len() && rs[i as int] is Ok),
    decreases rs.len(),
{
    if rs.len() > 0 {
        let prev = rs.drop_last();
        lemma_success_indices(prev);
        assert forall|i: usize| success_indices(rs).contains(i) <==> (i < rs.len()
            && rs[i as int] is Ok) by {
            if success_indices(rs).contains(i) {
                let k = choose|k: int| 0 <= k < success_indices(rs).len() && success_indices(rs)[k] == i;
                if k < success_indices(prev).len() {
                    assert(success_indices(prev).contains(i));
                }
            }
            if i < rs.len() && rs[i as int] is Ok {
                if i < rs.len() - 1 {
                    assert(prev[i as int] == rs[i as int]);
                    assert(success_indices(prev).contains(i));
                    let k = choose|k: int| 0 <= k < success_indices(prev).len() && success_indices(prev)[k] == i;
                    assert(success_indices(rs)[k] == i);
                } else {
                    assert(success_indices(rs).last() == i);
                }
            }
        }
    }
}

proof fn lemma_failure_pairs(rs: Seq<Result<(), Error>>)
    requires
        rs.len() <= usize::MAX + 1,
    ensures
        forall|a: int, b: int|
            0 <= a < b < failure_pairs(rs).len() ==> failure_pairs(rs)[a].0 < failure_pairs(rs)[b].0,
        forall|k: int|
            0 <= k < failure_pairs(rs).len() ==> failure_pairs(rs)[k].0 < rs.len() && rs[failure_pairs(
                rs,
            )[k].0 as int] == Err::<(), Error>(failure_pairs(rs)[k].1),
        forall|i: usize| failure_indices(rs).contains(i) <==> (i < rs.len() && rs[i as int] is Err),
    decreases rs.len(),
{
    if rs.len() > 0 {
        let prev = rs.drop_last();
        lemma_failure_pairs(prev);
        assert forall|k: int|
            0 <= k < failure_pairs(rs).len() implies failure_pairs(rs)[k].0 < rs.len() && rs[failure_pairs(
                rs,
            )[k].0 as int] == Err::<(), Error>(failure_pairs(rs)[k].1) by {
            if k < failure_pairs(prev).len() {
                assert(failure_pairs(rs)[k] == failure_pairs(prev)[k]);
                assert(prev[failure_pairs(prev)[k].0 as int] == rs[failure_pairs(prev)[k].0 as int]);
            }
        }
        assert forall|i: usize| failure_indices(rs).contains(i) <==> (i < rs.len()
            && rs[i as int] is Err) by {
            if failure_indices(rs).contains(i) {
                let k = choose|k: int| 0 <= k < failure_indices(rs).len() && failure_indices(rs)[k] == i;
                assert(failure_pairs(rs)[k].0 == i);
            }
            if i < rs.len() && rs[i as int] is Err {
                if i < rs.len() - 1 {
                    assert(prev[i as int] == rs[i as int]);
                    assert(failure_indices(prev).contains(i));
                    let k = choose|k: int| 0 <= k < failure_indices(prev).len() && failure_indices(prev)[k] == i;
                    assert(failure_pairs(rs)[k] == failure_pairs(prev)[k]);
                    assert(failure_indices(rs)[k] == i);
                } else {
                    let k = failure_pairs(rs).len() - 1;
                    assert(failure_indices(rs)[k] == i);
                }
            }
        }
    }
}

/// Partition: over the outcomes of pages `0..n`, every index below `n`
/// appears exactly once among the success indices and the indices of the
/// failure pairs, and no other index appears.
pub proof fn lemma_report_partitions(rs: Seq<Result<(), Error>>)
    requires
        rs.len() <= usize::MAX + 1,
    ensures
        success_indices(rs).no_duplicates(),
        failure_indices(rs).no_duplicates(),
        success_indices(rs).to_set().disjoint(failure_indices(rs).to_set()),
        success_indices(rs).to_set() + failure_indices(rs).to_set() == Set::new(
            |i: usize| i < rs.len(),
        ),
{
    lemma_success_indices(rs);
    lemma_failure_pairs(rs);
    let s = success_indices(rs);
    let f = failure_indices(rs);
    assert forall|a: int, b: int| 0 <= a < s.len() && 0 <= b < s.len() && a != b implies s[a]
        != s[b] by {
        if a < b {
            assert(s[a] < s[b]);
        } else {
            assert(s[b] < s[a]);
        }
    }
    assert forall|a: int, b: int| 0 <= a < f.len() && 0 <= b < f.len() && a != b implies f[a]
        != f[b] by {
        if a < b {
            assert(failure_pairs(rs)[a].0 < failure_pairs(rs)[b].0);
        } else {
            assert(failure_pairs(rs)[b].0 < failure_pairs(rs)[a].0);
        }
    }
    assert(s.to_set() + f.to_set() =~= Set::new(|i: usize| i < rs.len()));
    assert(s.to_set().disjoint(f.to_set()));
}

/// A refused page fails alone: it stands in the failure list with its
/// refusal and not among the successes, and every other page keeps the
/// place that its own outcome gives it.
pub proof fn lemma_refusal_isolated(rs: Seq<Result<(), Error>>, p: usize, reason: String)
    requires
        rs.len() <= usize::MAX + 1,
        p < rs.len(),
    ensures
        ({
            let refused = rs.update(p as int, Err(Error::Refusal(reason)));
            &&& failure_pairs(refused).contains((p, Error::Refusal(reason)))
            &&& !success_indices(refused).contains(p)
            &&& forall|j: usize|
                j != p ==> (success_indices(refused).contains(j) <==> success_indices(rs).contains(j))
                    && (failure_indices(refused).contains(j) <==> failure_indices(rs).contains(j))
        }),
{
    let refused = rs.update(p as int, Err(Error::Refusal(reason)));
    lemma_success_indices(rs);
    lemma_failure_pairs(rs);
    lemma_success_indices(refused);
    lemma_failure_pairs(refused);
    assert(failure_indices(refused).contains(p));
    let k = choose|k: int| 0 <= k < failure_indices(refused).len() && failure_indices(refused)[k] == p;
    assert(failure_pairs(refused)[k].0 == p);
    assert(refused[p as int] == Err::<(), Error>(failure_pairs(refused)[k].1));
    assert(failure_pairs(refused)[k] == (p, Error::Refusal(reason)));
}

} // verus!

//! Sequences of outcomes, of which the first failure counts.

use crate::diagnostic::{Diagnostic, DiagnosticView};
use crate::text::views;
use vstd::prelude::*;

verus! {

/// All the values when every outcome is a success, else the first failure.
pub open spec fn collect<T, E>(results: Seq<Result<T, E>>) -> Result<Seq<T>, E>
    decreases results.len(),
{
    if results.len() == 0 {
        Ok(Seq::empty())
    } else {
        match collect(results.drop_last()) {
            Err(e) => Err(e),
            Ok(values) => match results.last() {
                Ok(value) => Ok(values.push(value)),
                Err(e) => Err(e),
            },
        }
    }
}

/// The mathematical content of an outcome that holds strings.
pub open spec fn strings_result(r: Result<Vec<String>, Diagnostic>) -> Result<
    Seq<Seq<char>>,
    DiagnosticView,
> {
    match r {
        Ok(strings) => Ok(views(strings@)),
        Err(d) => Err(d@),
    }
}

/// Where every outcome is a success, `collect` yields the values.
pub proof fn lemma_collect_ok<T, E>(results: Seq<Result<T, E>>, values: Seq<T>)
    requires
        results.len() == values.len(),
        forall|i: int| 0 <= i < results.len() ==> results[i] == Ok::<T, E>(values[i]),
    ensures
        collect(results) == Ok::<Seq<T>, E>(values),
    decreases results.len(),
{
    if results.len() == 0 {
        assert(values =~= Seq::empty());
    } else {
        lemma_collect_ok(results.drop_last(), values.drop_last());
        assert(values.drop_last().push(values.last()) =~= values);
    }
}

/// Where the outcome at `i` is the first failure, `collect` yields it.
pub proof fn lemma_collect_err<T, E>(results: Seq<Result<T, E>>, i: int)
    requires
        0 <= i < results.len(),
        results[i] is Err,
        forall|k: int| 0 <= k < i ==> results[k] is Ok,
    ensures
        collect(results) == Err::<Seq<T>, E>(results[i]->Err_0),
    decreases results.len(),
{
    if i == results.len() - 1 {
        let front = results.drop_last();
        let values = Seq::new(front.len(), |k: int| front[k]->Ok_0);
        lemma_collect_ok(front, values);
    } else {
        lemma_collect_err(results.drop_last(), i);
    }
}

/// Where `collect` yields values, there is one for every outcome, in order.
pub proof fn lemma_collected<T, E>(results: Seq<Result<T, E>>)
    ensures
        collect(results) matches Ok(values) ==> values.len() == results.len() && forall|i: int|
            0 <= i < results.len() ==> #[trigger] results[i] == Ok::<T, E>(values[i]),
    decreases results.len(),
{
    if results.len() > 0 {
        lemma_collected(results.drop_last());
        if collect(results) is Ok {
            let front = collect(results.drop_last())->Ok_0;
            let values = collect(results)->Ok_0;
            assert(values == front.push(results.last()->Ok_0));
            assert forall|i: int| 0 <= i < results.len() implies #[trigger] results[i] == Ok::<
                T,
                E,
            >(values[i]) by {
                if i < results.len() - 1 {
                    assert(results.drop_last()[i] == results[i]);
                    assert(values[i] == front[i]);
                }
            }
        }
    }
}

} // verus!

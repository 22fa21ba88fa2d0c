//! Gathering the available wavetables: the built-in ones followed by those found in the
//! preset directories, in the order they were found.
use vstd::prelude::*;

verus! {

/// The items of `outer` in order, where an `Ok` entry stands for all the results it holds
/// and an `Err` entry for itself.
pub open spec fn flatten_spec<T, E>(outer: Seq<Result<Vec<Result<T, E>>, E>>) -> Seq<Result<T, E>>
    decreases outer.len(),
{
    if outer.len() == 0 {
        Seq::empty()
    } else {
        flatten_spec(outer.drop_last()) + match outer.last() {
            Ok(inner) => inner@,
            Err(e) => seq![Err(e)],
        }
    }
}

/// The values of `items` when all of them are `Ok`, otherwise the first error.
pub open spec fn collect_spec<T, E>(items: Seq<Result<T, E>>) -> Result<Seq<T>, E>
    decreases items.len(),
{
    if items.len() == 0 {
        Ok(Seq::empty())
    } else {
        match collect_spec(items.drop_last()) {
            Err(e) => Err(e),
            Ok(values) => match items.last() {
                Ok(x) => Ok(values.push(x)),
                Err(e) => Err(e),
            },
        }
    }
}

/// A single readable listing contributes every one of its entries, in order.
pub proof fn lemma_flatten_one_listing<T, E>(listing: Vec<Result<T, E>>)
    ensures
        flatten_spec(seq![Ok::<Vec<Result<T, E>>, E>(listing)]) == listing@,
{
    let outer = seq![Ok::<Vec<Result<T, E>>, E>(listing)];
    assert(outer.drop_last() =~= Seq::<Result<Vec<Result<T, E>>, E>>::empty());
    assert(flatten_spec(outer.drop_last()) == Seq::<Result<T, E>>::empty());
    assert(outer.last() == Ok::<Vec<Result<T, E>>, E>(listing));
    assert(Seq::<Result<T, E>>::empty() + listing@ =~= listing@);
}

/// A single unreadable listing contributes exactly its error.
pub proof fn lemma_flatten_one_error<T, E>(e: E)
    ensures
        flatten_spec(seq![Err::<Vec<Result<T, E>>, E>(e)]) == seq![Err::<T, E>(e)],
{
    let outer = seq![Err::<Vec<Result<T, E>>, E>(e)];
    assert(outer.drop_last() =~= Seq::<Result<Vec<Result<T, E>>, E>>::empty());
    assert(flatten_spec(outer.drop_last()) == Seq::<Result<T, E>>::empty());
    assert(outer.last() == Err::<Vec<Result<T, E>>, E>(e));
    assert(Seq::<Result<T, E>>::empty() + seq![Err::<T, E>(e)] =~= seq![Err::<T, E>(e)]);
}

/// Flattening works listing by listing: flattening two runs of listings one after the other
/// is flattening each and joining the results in order.
pub proof fn lemma_flatten_concat<T, E>(
    a: Seq<Result<Vec<Result<T, E>>, E>>,
    b: Seq<Result<Vec<Result<T, E>>, E>>,
)
    ensures
        flatten_spec(a + b) == flatten_spec(a) + flatten_spec(b),
    decreases b.len(),
{
    if b.len() == 0 {
        assert(a + b =~= a);
        assert(flatten_spec(a) + flatten_spec(b) =~= flatten_spec(a));
    } else {
        lemma_flatten_concat(a, b.drop_last());
        assert((a + b).drop_last() =~= a + b.drop_last());
        assert((a + b).last() == b.last());
        let tail = match b.last() {
            Ok(inner) => inner@,
            Err(e) => seq![Err(e)],
        };
        assert(flatten_spec(a) + flatten_spec(b.drop_last()) + tail =~= flatten_spec(a) + (
        flatten_spec(b.drop_last()) + tail));
    }
}

/// When every item is `Ok`, collecting gives all the values, in order.
pub proof fn lemma_collect_all_ok<T, E>(items: Seq<Result<T, E>>)
    requires
        forall|i: int| 0 <= i < items.len() ==> items[i] is Ok,
    ensures
        collect_spec(items) is Ok,
        collect_spec(items)->Ok_0.len() == items.len(),
        forall|i: int| 0 <= i < items.len() ==> Ok::<T, E>(#[trigger] collect_spec(items)->Ok_0[i]) == items[i],
    decreases items.len(),
{
    if items.len() > 0 {
        lemma_collect_all_ok(items.drop_last());
        let prefix = collect_spec(items.drop_last())->Ok_0;
        assert forall|i: int| 0 <= i < items.len() implies Ok::<T, E>(
            #[trigger] collect_spec(items)->Ok_0[i],
        ) == items[i] by {
            if i < items.len() - 1 {
                assert(items.drop_last()[i] == items[i]);
            }
        }
    }
}

/// Collecting stops at the first error: when item `k` is the first `Err`, that is the result.
pub proof fn lemma_collect_first_error<T, E>(items: Seq<Result<T, E>>, k: int)
    requires
        0 <= k < items.len(),
        items[k] is Err,
        forall|i: int| 0 <= i < k ==> items[i] is Ok,
    ensures
        collect_spec(items) == Err::<Seq<T>, E>(items[k]->Err_0),
    decreases items.len(),
{
    if k == items.len() - 1 {
        lemma_collect_all_ok(items.drop_last());
    } else {
        lemma_collect_first_error(items.drop_last(), k);
    }
}

/// Flattens a list of listings into one list of results: a listing that could be read
/// contributes its entries, one that could not contributes its error.
pub fn flatten_nested_results<T, E>(outer: Vec<Result<Vec<Result<T, E>>, E>>) -> (r: Vec<Result<T, E>>)
    ensures
        r@ == flatten_spec(outer@),
    decreases outer.len(),
{
    let mut outer = outer;
    let ghost whole = outer@;
    match outer.pop() {
        None => {
            assert(whole.len() == 0);
            Vec::new()
        },
        Some(last) => {
            assert(outer@ =~= whole.drop_last());
            let mut r = flatten_nested_results(outer);
            match last {
                Ok(inner) => {
                    let mut inner = inner;
                    let ghost items = inner@;
                    r.append(&mut inner);
                    assert(items == match whole.last() {
                        Ok(inner) => inner@,
                        Err(e) => seq![Err(e)],
                    });
                },
                Err(e) => {
                    r.push(Err(e));
                },
            }
            r
        },
    }
}

/// The values of `items` when all are `Ok`, otherwise the first error among them.
fn collect_results<T, E>(items: Vec<Result<T, E>>) -> (r: Result<Vec<T>, E>)
    ensures
        match r {
            Ok(v) => collect_spec(items@) == Ok::<Seq<T>, E>(v@),
            Err(e) => collect_spec(items@) == Err::<Seq<T>, E>(e),
        },
    decreases items.len(),
{
    let mut items = items;
    let ghost whole = items@;
    match items.pop() {
        None => {
            assert(whole.len() == 0);
            Ok(Vec::new())
        },
        Some(last) => {
            assert(items@ =~= whole.drop_last());
            match collect_results(items) {
                Err(e) => Err(e),
                Ok(mut values) => match last {
                    Ok(x) => {
                        values.push(x);
                        Ok(values)
                    },
                    Err(e) => Err(e),
                },
            }
        },
    }
}

/// All wavetables: the `builtins` followed by the `found` ones, or the first error met
/// while looking for them.
pub fn tables<T, E>(builtins: Vec<T>, found: Vec<Result<T, E>>) -> (r: Result<Vec<T>, E>)
    ensures
        match r {
            Ok(v) => collect_spec(found@) matches Ok(f) && v@ == builtins@ + f,
            Err(e) => collect_spec(found@) == Err::<Seq<T>, E>(e),
        },
{
    match collect_results(found) {
        Err(e) => Err(e),
        Ok(mut rest) => {
            let mut all = builtins;
            all.append(&mut rest);
            Ok(all)
        },
    }
}

} // verus!

//! Utilities offered to scripts under the `Util` namespace.

use vstd::prelude::*;

pub mod string;

verus! {

/// Name of the namespace these utilities are registered under.
pub const MODULE_NAME: &'static str = "Util";

/// `out` holds, in order, a result of `func` for each of the first items,
/// and each of those calls succeeded.
pub open spec fn mapped_prefix<T, U, E, F: Fn(T) -> Result<U, E>>(
    func: F,
    items: Seq<T>,
    out: Seq<U>,
) -> bool {
    &&& out.len() <= items.len()
    &&& forall|i: int|
        0 <= i < out.len() ==> call_ensures(func, (items[i],), Ok::<U, E>(#[trigger] out[i]))
}

/// The items of `items`, last first.
pub(crate) fn reversed<T>(items: Vec<T>) -> (back: Vec<T>)
    ensures
        back@.len() == items@.len(),
        forall|i: int| 0 <= i < items@.len() ==> back@[i] == items@[items@.len() - 1 - i],
{
    let ghost given = items@;
    let mut rest = items;
    let mut back: Vec<T> = Vec::new();
    while rest.len() > 0
        invariant
            rest@.len() + back@.len() == given.len(),
            forall|i: int| 0 <= i < rest@.len() ==> rest@[i] == given[i],
            forall|i: int| 0 <= i < back@.len() ==> back@[i] == given[given.len() - 1 - i],
        decreases rest@.len(),
    {
        let item = rest.pop().unwrap();
        back.push(item);
    }
    back
}

/// Maps a sequence through a callback of the script: `func` is applied to
/// the items in order, and the results are collected in that order. The
/// first failure ends the mapping at once: it is handed back as it is, and
/// no later item is touched. An empty sequence maps to an empty sequence
/// without any call.
pub fn map_vec<T, U, E, F>(vec: Vec<T>, func: F) -> (mapped: Result<Vec<U>, E>) where
    F: Fn(T) -> Result<U, E>,

    requires
        forall|i: int| 0 <= i < vec@.len() ==> call_requires(func, (#[trigger] vec@[i],)),
    ensures
        mapped is Ok ==> mapped->Ok_0@.len() == vec@.len() && mapped_prefix(
            func,
            vec@,
            mapped->Ok_0@,
        ),
        mapped is Err ==> exists|done: Seq<U>|
            #![trigger mapped_prefix(func, vec@, done)]
            {
                &&& mapped_prefix(func, vec@, done)
                &&& done.len() < vec@.len()
                &&& call_ensures(func, (vec@[done.len() as int],), Err::<U, E>(mapped->Err_0))
            },
{
    let ghost given = vec@;
    let mut pending = reversed(vec);
    let mut result: Vec<U> = Vec::new();
    while pending.len() > 0
        invariant
            given == vec@,
            pending@.len() + result@.len() == given.len(),
            forall|j: int|
                0 <= j < pending@.len() ==> pending@[j] == given[given.len() - 1 - j],
            forall|i: int| 0 <= i < given.len() ==> call_requires(func, (#[trigger] given[i],)),
            mapped_prefix(func, given, result@),
        decreases pending@.len(),
    {
        let ghost at = result@.len() as int;
        let value = pending.pop().unwrap();
        assert(value == given[at]);
        match func(value) {
            Ok(mapped_value) => {
                result.push(mapped_value);
            },
            Err(error) => {
                assert(mapped_prefix(func, given, result@));
                assert(call_ensures(func, (given[result@.len() as int],), Err::<U, E>(error)));
                return Err(error);
            },
        }
    }
    Ok(result)
}

} // verus!

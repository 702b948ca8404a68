//! A mathematical model of JSON trees, used to state what the decoders
//! accept and return. Numbers are modelled by their canonical decimal
//! rendering, so no precision is lost in the model.

use vstd::prelude::*;

verus! {

/// A JSON value: the model that decoder contracts are stated over.
pub enum JsonV {
    Null,
    Bool(bool),
    /// A number, named by its canonical decimal rendering.
    Num(Seq<char>),
    StrV(Seq<char>),
    Arr(Seq<JsonV>),
    Obj(Seq<(Seq<char>, JsonV)>),
}

/// The value under the first entry with key `k`, if any.
pub open spec fn lookup(es: Seq<(Seq<char>, JsonV)>, k: Seq<char>) -> Option<JsonV>
    decreases es.len(),
{
    if es.len() == 0 {
        None
    } else if es[0].0 == k {
        Some(es[0].1)
    } else {
        lookup(es.drop_first(), k)
    }
}

/// A first-match lookup is decided by the earliest matching index.
pub proof fn lemma_lookup_found(es: Seq<(Seq<char>, JsonV)>, k: Seq<char>, i: int)
    requires
        0 <= i < es.len(),
        es[i].0 == k,
        forall|j: int| 0 <= j < i ==> (#[trigger] es[j]).0 != k,
    ensures
        lookup(es, k) == Some(es[i].1),
    decreases i,
{
    if i == 0 {
    } else {
        lemma_lookup_found(es.drop_first(), k, i - 1);
    }
}

/// Where no entry has key `k`, the lookup misses.
pub proof fn lemma_lookup_missing(es: Seq<(Seq<char>, JsonV)>, k: Seq<char>)
    requires
        forall|j: int| 0 <= j < es.len() ==> (#[trigger] es[j]).0 != k,
    ensures
        lookup(es, k) is None,
    decreases es.len(),
{
    if es.len() > 0 {
        lemma_lookup_missing(es.drop_first(), k);
    }
}

} // verus!

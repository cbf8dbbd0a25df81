//! Lists of variants: what makes one the list of an emitted type, and where
//! in it a value or a name stands.

use vstd::prelude::*;

use crate::model::{CanonicalVariant, VariantModel};
use crate::sequence::{
    first_index, lemma_first_index, lemma_first_index_of_front, lemma_first_index_step, models,
};

verus! {

/// Whether no two of `variants` have the same native value.
pub open spec fn values_unique(variants: Seq<VariantModel>) -> bool {
    forall|k: int, l: int|
        0 <= k < l < variants.len() ==> (#[trigger] variants[k]).native_value
            != (#[trigger] variants[l]).native_value
}

/// Whether no two of `variants` have the same name.
pub open spec fn names_unique(variants: Seq<VariantModel>) -> bool {
    forall|k: int, l: int|
        0 <= k < l < variants.len() ==> (#[trigger] variants[k]).name != (#[trigger] variants[l]).name
}

/// The position of the first variant with the native value `native`.
pub open spec fn position_of_value(variants: Seq<VariantModel>, native: i32) -> Option<int> {
    first_index(variants, |v: VariantModel| v.native_value == native)
}

/// The position of the first variant of the name `name`.
pub open spec fn position_of_name(variants: Seq<VariantModel>, name: Seq<char>) -> Option<int> {
    first_index(variants, |v: VariantModel| v.name == name)
}

/// The position of the first variant of the name `name`.
pub fn find_named(variants: &Vec<CanonicalVariant>, name: &String) -> (position: Option<usize>)
    ensures
        match position {
            Some(i) => position_of_name(models(variants@), name@) == Some(i as int),
            None => position_of_name(models(variants@), name@) is None,
        },
{
    let ghost vs = models(variants@);
    let ghost wanted = |v: VariantModel| v.name == name@;
    let mut i: usize = 0;
    while i < variants.len()
        invariant
            i <= variants.len(),
            vs == models(variants@),
            wanted == |v: VariantModel| v.name == name@,
            first_index(vs.take(i as int), wanted) is None,
        decreases variants.len() - i,
    {
        proof {
            lemma_first_index_step(vs, wanted, i as int);
        }
        if variants[i].name == *name {
            proof {
                lemma_first_index_of_front(vs, wanted, i as int);
            }
            return Some(i);
        }
        i = i + 1;
    }
    assert(vs.take(variants.len() as int) =~= vs);
    None
}

/// Two variants of one name, if there are such: the emitted type cannot
/// have both. The second of the pair is the first variant that has the name
/// of one before it, and the first of the pair is the first variant of that
/// name.
pub fn name_conflict(variants: &Vec<CanonicalVariant>) -> (conflict: Option<(usize, usize)>)
    ensures
        match conflict {
            Some((first, second)) => {
                &&& first < second < variants.len()
                &&& variants[first as int].name@ == variants[second as int].name@
                &&& position_of_name(models(variants@), variants[second as int].name@) == Some(
                    first as int,
                )
                &&& forall|l: int|
                    0 <= l < second ==> position_of_name(
                        models(variants@),
                        (#[trigger] variants[l]).name@,
                    ) == Some(l)
            },
            None => names_unique(models(variants@)),
        },
{
    let ghost vs = models(variants@);
    let mut second: usize = 0;
    while second < variants.len()
        invariant
            second <= variants.len(),
            vs == models(variants@),
            forall|l: int|
                0 <= l < second ==> position_of_name(vs, (#[trigger] variants[l]).name@) == Some(l),
        decreases variants.len() - second,
    {
        let name = &variants[second].name;
        proof {
            lemma_first_index(vs, |v: VariantModel| v.name == name@);
            assert(vs[second as int].name == name@);
        }
        match find_named(variants, name) {
            Some(first) => {
                if first < second {
                    return Some((first, second));
                }
            },
            None => {},
        }
        second = second + 1;
    }
    // Two variants of one name would both be the first of that name.
    assert(names_unique(vs));
    None
}

} // verus!

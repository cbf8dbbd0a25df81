//! What the emitted conversions compute: from a value of the emitted type to
//! the native integer and back, and from an error code to a value.

use vstd::prelude::*;
use vstd::string::StringExecFns;

use crate::canonical::{find_named, position_of_name, position_of_value, values_unique};
use crate::model::{CanonicalVariant, MemberModel, RuleModel, VariantModel};
use crate::resolve::{lemma_resolved_values_unique, resolve_spec};
use crate::sequence::{
    first_index, lemma_first_index, lemma_first_index_of_front, lemma_first_index_step, models,
};

verus! {

/// A value of the emitted type: one of its variants, by its position in the
/// list, or the catch-all with the native integer that no variant stands for.
#[derive(Clone, Copy, Debug, PartialEq, Eq, Structural)]
pub enum Variant {
    Canonical(usize),
    Unknown(i32),
}

/// Whether `value` is a value of the type with these variants.
pub open spec fn in_range(variants: Seq<VariantModel>, value: Variant) -> bool {
    match value {
        Variant::Canonical(i) => i < variants.len(),
        Variant::Unknown(_) => true,
    }
}

/// The native integer of `value`: that of the variant, or the one that the
/// catch-all holds.
pub open spec fn to_native_spec(variants: Seq<VariantModel>, value: Variant) -> i32 {
    match value {
        Variant::Canonical(i) => variants[i as int].native_value,
        Variant::Unknown(native) => native,
    }
}

/// The value that stands for `native`: the first variant with that native
/// value, and the catch-all holding `native` where there is none.
pub open spec fn from_native_spec(variants: Seq<VariantModel>, native: i32) -> Variant {
    match position_of_value(variants, native) {
        Some(i) => Variant::Canonical(i as usize),
        None => Variant::Unknown(native),
    }
}

/// The value that stands for the error code `code`: the first variant with
/// that native value; where there is none, the first variant named `Failed`;
/// where there is none either, the catch-all holding `code`.
pub open spec fn error_from_code_spec(variants: Seq<VariantModel>, code: i32) -> Variant {
    match position_of_value(variants, code) {
        Some(i) => Variant::Canonical(i as usize),
        None => match position_of_name(variants, "Failed"@) {
            Some(i) => Variant::Canonical(i as usize),
            None => Variant::Unknown(code),
        },
    }
}

/// What is displayed for `value`: the name of the type, two colons and the
/// variant's name, or `Unknown` for the catch-all.
pub open spec fn displayed(enum_name: Seq<char>, variants: Seq<VariantModel>, value: Variant)
    -> Seq<char> {
    match value {
        Variant::Canonical(i) => enum_name + "::"@ + variants[i as int].name,
        Variant::Unknown(_) => "Unknown"@,
    }
}

/// The native integer of `value`.
pub fn to_native(variants: &Vec<CanonicalVariant>, value: Variant) -> (native: i32)
    requires
        in_range(models(variants@), value),
    ensures
        native == to_native_spec(models(variants@), value),
{
    match value {
        Variant::Canonical(i) => variants[i].native_value,
        Variant::Unknown(native) => native,
    }
}

/// The value that stands for the native integer `native`. There is one for
/// every integer.
pub fn from_native(variants: &Vec<CanonicalVariant>, native: i32) -> (value: Variant)
    ensures
        value == from_native_spec(models(variants@), native),
        in_range(models(variants@), value),
{
    let ghost vs = models(variants@);
    let ghost wanted = |v: VariantModel| v.native_value == native;
    let mut i: usize = 0;
    while i < variants.len()
        invariant
            i <= variants.len(),
            vs == models(variants@),
            wanted == |v: VariantModel| v.native_value == native,
            first_index(vs.take(i as int), wanted) is None,
        decreases variants.len() - i,
    {
        proof {
            lemma_first_index_step(vs, wanted, i as int);
        }
        if variants[i].native_value == native {
            proof {
                lemma_first_index_of_front(vs, wanted, i as int);
            }
            return Variant::Canonical(i);
        }
        i = i + 1;
    }
    assert(vs.take(variants.len() as int) =~= vs);
    Variant::Unknown(native)
}

/// The value that stands for the error code `code`. There is one for every
/// code: a code that no variant has gives the variant named `Failed`, and
/// the catch-all only where the type has no such variant.
pub fn error_from_code(variants: &Vec<CanonicalVariant>, code: i32) -> (value: Option<Variant>)
    ensures
        value == Some(error_from_code_spec(models(variants@), code)),
        in_range(models(variants@), value->0),
{
    match from_native(variants, code) {
        Variant::Canonical(i) => Some(Variant::Canonical(i)),
        Variant::Unknown(_) => {
            let failed = String::from_str("Failed");
            match find_named(variants, &failed) {
                Some(i) => {
                    proof {
                        lemma_first_index(
                            models(variants@),
                            |v: VariantModel| v.name == "Failed"@,
                        );
                    }
                    Some(Variant::Canonical(i))
                },
                None => Some(Variant::Unknown(code)),
            }
        },
    }
}

/// The error code of `value`: its native integer.
pub fn error_code(variants: &Vec<CanonicalVariant>, value: Variant) -> (code: i32)
    requires
        in_range(models(variants@), value),
    ensures
        code == to_native_spec(models(variants@), value),
{
    to_native(variants, value)
}

/// What is displayed for `value`.
pub fn display(enum_name: &str, variants: &Vec<CanonicalVariant>, value: Variant) -> (text: String)
    requires
        in_range(models(variants@), value),
    ensures
        text@ == displayed(enum_name@, models(variants@), value),
{
    match value {
        Variant::Canonical(i) => {
            let mut text = String::from_str(enum_name);
            text.append("::");
            text.append(variants[i].name.as_str());
            text
        },
        Variant::Unknown(_) => String::from_str("Unknown"),
    }
}

/// Every native integer has a value of the emitted type, whether a variant
/// has it or not.
pub proof fn lemma_from_native_total(variants: Seq<VariantModel>, native: i32)
    requires
        variants.len() <= usize::MAX,
    ensures
        in_range(variants, from_native_spec(variants, native)),
        to_native_spec(variants, from_native_spec(variants, native)) == native,
{
    lemma_first_index(variants, |v: VariantModel| v.native_value == native);
}

/// Every error code has a value of the emitted type.
pub proof fn lemma_error_from_code_total(variants: Seq<VariantModel>, code: i32)
    requires
        variants.len() <= usize::MAX,
    ensures
        in_range(variants, error_from_code_spec(variants, code)),
{
    lemma_first_index(variants, |v: VariantModel| v.native_value == code);
    lemma_first_index(variants, |v: VariantModel| v.name == "Failed"@);
}

/// A variant comes back from its native integer: the conversion to the
/// native integer is one to one on the variants.
pub proof fn lemma_round_trip(variants: Seq<VariantModel>, i: usize)
    requires
        values_unique(variants),
        i < variants.len(),
    ensures
        from_native_spec(variants, to_native_spec(variants, Variant::Canonical(i)))
            == Variant::Canonical(i),
{
    let native = variants[i as int].native_value;
    // The first variant with the value of the variant at `i` is at `i`
    // itself: any before it has another value.
    lemma_first_index(variants, |v: VariantModel| v.native_value == native);
}

/// The catch-all comes back from its native integer where no variant has
/// that integer.
pub proof fn lemma_unknown_round_trip(variants: Seq<VariantModel>, native: i32)
    requires
        forall|k: int| 0 <= k < variants.len() ==> (#[trigger] variants[k]).native_value != native,
    ensures
        from_native_spec(variants, to_native_spec(variants, Variant::Unknown(native)))
            == Variant::Unknown(native),
{
    lemma_first_index(variants, |v: VariantModel| v.native_value == native);
}

/// An error code that no variant has gives a variant named `Failed` where
/// the type has one, and the catch-all with the code only where it has none.
pub proof fn lemma_error_fallback(variants: Seq<VariantModel>, code: i32)
    requires
        variants.len() <= usize::MAX,
        forall|k: int| 0 <= k < variants.len() ==> (#[trigger] variants[k]).native_value != code,
    ensures
        match error_from_code_spec(variants, code) {
            Variant::Canonical(i) => i < variants.len() && variants[i as int].name == "Failed"@,
            Variant::Unknown(held) => held == code && forall|k: int|
                0 <= k < variants.len() ==> (#[trigger] variants[k]).name != "Failed"@,
        },
{
    lemma_first_index(variants, |v: VariantModel| v.native_value == code);
    lemma_first_index(variants, |v: VariantModel| v.name == "Failed"@);
}

/// Every variant that is emitted for the members of an enumeration comes
/// back from its native integer, whatever the members and the rules are.
pub proof fn lemma_resolved_round_trip(
    members: Seq<MemberModel>,
    rules: Seq<RuleModel>,
    i: usize,
)
    requires
        i < resolve_spec(members, rules).len(),
    ensures
        from_native_spec(
            resolve_spec(members, rules),
            to_native_spec(resolve_spec(members, rules), Variant::Canonical(i)),
        ) == Variant::Canonical(i),
{
    lemma_resolved_values_unique(members, rules);
    lemma_round_trip(resolve_spec(members, rules), i);
}

} // verus!

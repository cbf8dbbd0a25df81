//! From the members of a native enumeration and the rules of a project to
//! the variants that are emitted: one for each value, in the order in which
//! the values are first declared.

use std::collections::HashSet;
use vstd::prelude::*;

use crate::canonical::values_unique;
use crate::model::{
    CanonicalVariant, MemberModel, MemberOverride, MemberRule, NativeMember, RuleModel,
    VariantModel,
};
use crate::naming::{enum_member_name, member_name};
use crate::sequence::{
    any, first_index, lemma_first_index, lemma_first_index_step, lemma_positions_below, models,
    positions_below,
};
use crate::version::Version;

verus! {

broadcast use vstd::std_specs::hash::group_hash_axioms;

/// Whether `rule` is a rule for the member `name`.
pub open spec fn rule_applies(rule: RuleModel, name: Seq<char>) -> bool {
    rule.name == name
}

/// Whether some rule for `name` calls the member an alias.
pub open spec fn merged_alias(rules: Seq<RuleModel>, name: Seq<char>) -> bool {
    any(rules, |rule: RuleModel| rule_applies(rule, name) && rule.is_alias)
}

/// Whether some rule for `name` has the member ignored.
pub open spec fn merged_ignored(rules: Seq<RuleModel>, name: Seq<char>) -> bool {
    any(rules, |rule: RuleModel| rule_applies(rule, name) && rule.is_ignored)
}

/// The version that the first rule for `name` with a version gives.
pub open spec fn first_version(rules: Seq<RuleModel>, name: Seq<char>) -> Option<Version> {
    match first_index(rules, |rule: RuleModel| rule_applies(rule, name) && rule.version is Some) {
        Some(i) => rules[i].version,
        None => None,
    }
}

/// The deprecating version that the first rule for `name` with one gives.
pub open spec fn first_deprecated_version(rules: Seq<RuleModel>, name: Seq<char>) -> Option<
    Version,
> {
    match first_index(
        rules,
        |rule: RuleModel| rule_applies(rule, name) && rule.deprecated_version is Some,
    ) {
        Some(i) => rules[i].deprecated_version,
        None => None,
    }
}

/// What the rules say of the member `name`, taken together.
pub open spec fn merged_override(rules: Seq<RuleModel>, name: Seq<char>) -> MemberOverride {
    MemberOverride {
        is_alias: merged_alias(rules, name),
        is_ignored: merged_ignored(rules, name),
        version: first_version(rules, name),
        deprecated_version: first_deprecated_version(rules, name),
    }
}

/// What the rules say of the member `name`, taken together: it is an alias,
/// or ignored, where any rule for it says so; its version and its
/// deprecating version are those of the first rule for it that gives one.
pub fn merge_overrides(rules: &Vec<MemberRule>, name: &String) -> (merged: MemberOverride)
    ensures
        merged == merged_override(models(rules@), name@),
{
    let ghost rs = models(rules@);
    let mut merged = MemberOverride {
        is_alias: false,
        is_ignored: false,
        version: None,
        deprecated_version: None,
    };
    let mut i: usize = 0;
    while i < rules.len()
        invariant
            i <= rules.len(),
            rs == models(rules@),
            merged == merged_override(rs.take(i as int), name@),
        decreases rules.len() - i,
    {
        let rule = &rules[i];
        proof {
            lemma_first_index_step(
                rs,
                |r: RuleModel| rule_applies(r, name@) && r.version is Some,
                i as int,
            );
            lemma_first_index_step(
                rs,
                |r: RuleModel| rule_applies(r, name@) && r.deprecated_version is Some,
                i as int,
            );
            lemma_first_index(
                rs.take(i as int),
                |r: RuleModel| rule_applies(r, name@) && r.version is Some,
            );
            lemma_first_index(
                rs.take(i as int),
                |r: RuleModel| rule_applies(r, name@) && r.deprecated_version is Some,
            );
        }
        if rule.name == *name {
            if rule.is_alias {
                merged.is_alias = true;
            }
            if rule.is_ignored {
                merged.is_ignored = true;
            }
            if merged.version.is_none() {
                merged.version = rule.version;
            }
            if merged.deprecated_version.is_none() {
                merged.deprecated_version = rule.deprecated_version;
            }
        }
        i = i + 1;
    }
    assert(rs.take(rules.len() as int) =~= rs);
    merged
}

/// Whether the rules keep the member out of the emitted type by its name.
pub open spec fn skipped(member: MemberModel, rules: Seq<RuleModel>) -> bool {
    merged_alias(rules, member.name) || merged_ignored(rules, member.name)
}

/// Whether the member at `j` is not skipped and has the value `value`.
pub open spec fn carries(members: Seq<MemberModel>, rules: Seq<RuleModel>, j: int, value: i32)
    -> bool {
    0 <= j < members.len() && !skipped(members[j], rules) && members[j].native_value == value
}

/// Whether the member at `i` is emitted: it is not skipped, and no member
/// before it that is not skipped has its value.
pub open spec fn is_canonical(members: Seq<MemberModel>, rules: Seq<RuleModel>, i: int) -> bool {
    &&& 0 <= i < members.len()
    &&& !skipped(members[i], rules)
    &&& forall|j: int| 0 <= j < i ==> !#[trigger] carries(members, rules, j, members[i].native_value)
}

/// The positions of the members that are emitted, in rising order.
pub open spec fn canonical_indices(members: Seq<MemberModel>, rules: Seq<RuleModel>) -> Seq<int> {
    positions_below(members.len(), |i: int| is_canonical(members, rules, i))
}

/// The variant that stands for `member`.
pub open spec fn variant_of(member: MemberModel, rules: Seq<RuleModel>) -> VariantModel {
    VariantModel {
        name: member_name(member.name),
        native_identifier: member.native_identifier,
        native_value: member.native_value,
        version: first_version(rules, member.name),
        deprecated_version: first_deprecated_version(rules, member.name),
    }
}

/// The variants of the emitted type.
pub open spec fn resolve_spec(members: Seq<MemberModel>, rules: Seq<RuleModel>) -> Seq<
    VariantModel,
> {
    canonical_indices(members, rules).map_values(|i: int| variant_of(members[i], rules))
}

/// The variants of the emitted type: for each value the first member that
/// has it, among those that no rule calls an alias or has ignored, in the
/// order of declaration.
pub fn resolve(members: &Vec<NativeMember>, rules: &Vec<MemberRule>) -> (variants: Vec<
    CanonicalVariant,
>)
    ensures
        models(variants@) == resolve_spec(models(members@), models(rules@)),
        values_unique(models(variants@)),
{
    let ghost ms = models(members@);
    let ghost rs = models(rules@);
    let ghost emitted = |k: int| is_canonical(ms, rs, k);
    let mut variants: Vec<CanonicalVariant> = Vec::new();
    let mut seen: HashSet<i32> = HashSet::new();
    let mut i: usize = 0;
    while i < members.len()
        invariant
            i <= members.len(),
            ms == models(members@),
            rs == models(rules@),
            emitted == |k: int| is_canonical(ms, rs, k),
            forall|v: i32|
                seen@.contains(v) <==> exists|j: int| 0 <= j < i && #[trigger] carries(ms, rs, j, v),
            models(variants@) == positions_below(i as nat, emitted).map_values(
                |k: int| variant_of(ms[k], rs),
            ),
        decreases members.len() - i,
    {
        let member = &members[i];
        let merged = merge_overrides(rules, &member.name);
        let known = seen.contains(&member.native_value);
        let ghost seen_before = seen@;
        if !(merged.is_alias || merged.is_ignored || known) {
            seen.insert(member.native_value);
            let variant = CanonicalVariant {
                name: enum_member_name(member.name.as_str()),
                native_identifier: member.native_identifier.clone(),
                native_value: member.native_value,
                version: merged.version,
                deprecated_version: merged.deprecated_version,
            };
            let ghost before = models(variants@);
            variants.push(variant);
            assert(models(variants@) =~= before.push(variant_of(ms[i as int], rs)));
        }
        assert forall|v: i32| seen@.contains(v) <==> exists|j: int|
            0 <= j < i + 1 && #[trigger] carries(ms, rs, j, v) by {
            if seen_before.contains(v) {
                let j = choose|j: int| 0 <= j < i && #[trigger] carries(ms, rs, j, v);
                assert(carries(ms, rs, j, v));
            } else if seen@.contains(v) {
                assert(carries(ms, rs, i as int, v));
            }
            if exists|j: int| 0 <= j < i + 1 && #[trigger] carries(ms, rs, j, v) {
                let j = choose|j: int| 0 <= j < i + 1 && #[trigger] carries(ms, rs, j, v);
                assert(j < i ==> seen_before.contains(v));
            }
        }
        i = i + 1;
    }
    proof {
        lemma_resolved_values_unique(ms, rs);
    }
    variants
}

/// Each emitted position is that of a member that is emitted, the positions
/// rise, and none is left out: the variants keep the order of declaration.
pub proof fn lemma_canonical_indices(members: Seq<MemberModel>, rules: Seq<RuleModel>)
    ensures
        forall|k: int|
            0 <= k < canonical_indices(members, rules).len() ==> is_canonical(
                members,
                rules,
                #[trigger] canonical_indices(members, rules)[k],
            ),
        forall|k: int, l: int|
            0 <= k < l < canonical_indices(members, rules).len() ==> #[trigger] canonical_indices(
                members,
                rules,
            )[k] < #[trigger] canonical_indices(members, rules)[l],
        forall|i: int|
            is_canonical(members, rules, i) ==> #[trigger] canonical_indices(
                members,
                rules,
            ).contains(i),
        resolve_spec(members, rules).len() == canonical_indices(members, rules).len(),
        resolve_spec(members, rules).len() <= members.len(),
{
    lemma_positions_below(members.len(), |i: int| is_canonical(members, rules, i));
}

/// No two emitted variants have the same native value.
pub proof fn lemma_resolved_values_unique(members: Seq<MemberModel>, rules: Seq<RuleModel>)
    ensures
        values_unique(resolve_spec(members, rules)),
{
    let indices = canonical_indices(members, rules);
    let variants = resolve_spec(members, rules);
    lemma_canonical_indices(members, rules);
    assert forall|k: int, l: int| 0 <= k < l < variants.len() implies (#[trigger] variants[k]).native_value
        != (#[trigger] variants[l]).native_value by {
        assert(!carries(members, rules, indices[k], members[indices[l]].native_value));
    }
}

/// A member that a rule calls an alias, or has ignored, is not emitted,
/// whatever its value.
pub proof fn lemma_skipped_member_not_resolved(
    members: Seq<MemberModel>,
    rules: Seq<RuleModel>,
    i: int,
)
    requires
        0 <= i < members.len(),
        merged_alias(rules, members[i].name) || merged_ignored(rules, members[i].name),
    ensures
        !canonical_indices(members, rules).contains(i),
{
    lemma_canonical_indices(members, rules);
}

/// Of the members that are not skipped and have one value, the first is
/// emitted and no other.
pub proof fn lemma_first_occurrence_resolved(
    members: Seq<MemberModel>,
    rules: Seq<RuleModel>,
    i: int,
)
    requires
        0 <= i < members.len(),
        !skipped(members[i], rules),
    ensures
        canonical_indices(members, rules).contains(i) <==> forall|j: int|
            0 <= j < i && !skipped(members[j], rules) ==> members[j].native_value
                != members[i].native_value,
{
    lemma_canonical_indices(members, rules);
    if is_canonical(members, rules, i) {
        assert forall|j: int| 0 <= j < i && !skipped(members[j], rules) implies members[j].native_value
            != members[i].native_value by {
            assert(!carries(members, rules, j, members[i].native_value));
        }
    }
}

/// The version and the deprecating version of a member are those of the
/// first rule for its name that gives one: a rule behind it changes nothing.
pub proof fn lemma_first_rule_wins(rules: Seq<RuleModel>, name: Seq<char>)
    ensures
        match first_version(rules, name) {
            Some(version) => exists|i: int|
                {
                    &&& 0 <= i < rules.len()
                    &&& rule_applies(#[trigger] rules[i], name)
                    &&& rules[i].version == Some(version)
                    &&& forall|j: int|
                        0 <= j < i ==> !(rule_applies(#[trigger] rules[j], name)
                            && rules[j].version is Some)
                },
            None => forall|i: int|
                0 <= i < rules.len() ==> !(rule_applies(#[trigger] rules[i], name)
                    && rules[i].version is Some),
        },
        match first_deprecated_version(rules, name) {
            Some(version) => exists|i: int|
                {
                    &&& 0 <= i < rules.len()
                    &&& rule_applies(#[trigger] rules[i], name)
                    &&& rules[i].deprecated_version == Some(version)
                    &&& forall|j: int|
                        0 <= j < i ==> !(rule_applies(#[trigger] rules[j], name)
                            && rules[j].deprecated_version is Some)
                },
            None => forall|i: int|
                0 <= i < rules.len() ==> !(rule_applies(#[trigger] rules[i], name)
                    && rules[i].deprecated_version is Some),
        },
{
    lemma_first_index(rules, |rule: RuleModel| rule_applies(rule, name) && rule.version is Some);
    lemma_first_index(
        rules,
        |rule: RuleModel| rule_applies(rule, name) && rule.deprecated_version is Some,
    );
}

} // verus!

//! Which of the configured types bindings are generated for, and what they
//! need together.

use vstd::prelude::*;

use crate::flags::{emission_flags, emission_flags_spec};
use crate::model::{
    ConfiguredModel, ConfiguredType, DefinitionModel, EmissionFlags, TypeDefinition,
    MAIN_NAMESPACE,
};
use crate::sequence::{models, positions_below};

verus! {

/// Whether bindings are generated for the type: it is an enumeration, the
/// project wants it generated, and it belongs to the library that the
/// bindings are for.
pub open spec fn qualifies(configured: ConfiguredModel) -> bool {
    &&& configured.definition is Enumeration
    &&& configured.status.needs_generation()
    &&& configured.namespace == Some(MAIN_NAMESPACE)
}

/// The optional conversions of a configured enumeration, and none for
/// another type.
pub open spec fn flags_of(configured: ConfiguredModel) -> EmissionFlags {
    match configured.definition {
        DefinitionModel::Enumeration(metadata) => emission_flags_spec(metadata, configured.options),
        DefinitionModel::Other => EmissionFlags {
            has_display: false,
            has_error_domain: false,
            has_dynamic_type: false,
        },
    }
}

/// The positions of the types that bindings are generated for, in the order
/// of the configuration.
pub open spec fn selected_below(types: Seq<ConfiguredModel>, n: nat) -> Seq<int> {
    positions_below(n, |i: int| qualifies(types[i]))
}

/// The positions of the types that bindings are generated for, in the order
/// of the configuration.
pub open spec fn selected(types: Seq<ConfiguredModel>) -> Seq<int> {
    selected_below(types, types.len())
}

/// What the first `n` types need together: each conversion that one of
/// those that qualify has.
pub open spec fn aggregate_below(types: Seq<ConfiguredModel>, n: int) -> EmissionFlags {
    EmissionFlags {
        has_display: exists|i: int|
            0 <= i < n && qualifies(#[trigger] types[i]) && flags_of(types[i]).has_display,
        has_error_domain: exists|i: int|
            0 <= i < n && qualifies(#[trigger] types[i]) && flags_of(types[i]).has_error_domain,
        has_dynamic_type: exists|i: int|
            0 <= i < n && qualifies(#[trigger] types[i]) && flags_of(types[i]).has_dynamic_type,
    }
}

/// What the selected types need together.
pub open spec fn aggregate_flags(types: Seq<ConfiguredModel>) -> EmissionFlags {
    aggregate_below(types, types.len() as int)
}

/// The types that bindings are generated for, and what they need together.
#[derive(Debug)]
pub struct Selection {
    /// The positions of the types, in the order of the configuration.
    pub indices: Vec<usize>,
    pub flags: EmissionFlags,
}

/// The positions as integers.
pub open spec fn as_positions(indices: Seq<usize>) -> Seq<int> {
    indices.map_values(|i: usize| i as int)
}

/// Whether bindings are generated for the type.
pub fn is_selected(configured: &ConfiguredType) -> (selected: bool)
    ensures
        selected == qualifies(configured@),
{
    let in_main: bool = match configured.namespace {
        Some(namespace) => namespace == MAIN_NAMESPACE,
        None => false,
    };
    let enumeration: bool = match &configured.definition {
        TypeDefinition::Enumeration(_) => true,
        TypeDefinition::Other => false,
    };
    configured.status.need_generate() && in_main && enumeration
}

/// The types that bindings are generated for, in the order of the
/// configuration, with what they need together; nothing where there is no
/// such type.
pub fn select(types: &Vec<ConfiguredType>) -> (selection: Option<Selection>)
    ensures
        match selection {
            Some(selection) => {
                &&& as_positions(selection.indices@) == selected(models(types@))
                &&& selection.indices@.len() > 0
                &&& selection.flags == aggregate_flags(models(types@))
            },
            None => selected(models(types@)).len() == 0,
        },
{
    let ghost ts = models(types@);
    let mut indices: Vec<usize> = Vec::new();
    let mut flags = EmissionFlags {
        has_display: false,
        has_error_domain: false,
        has_dynamic_type: false,
    };
    let mut i: usize = 0;
    while i < types.len()
        invariant
            i <= types.len(),
            ts == models(types@),
            as_positions(indices@) == selected_below(ts, i as nat),
            flags == aggregate_below(ts, i as int),
        decreases types.len() - i,
    {
        let configured = &types[i];
        if is_selected(configured) {
            match &configured.definition {
                TypeDefinition::Enumeration(metadata) => {
                    let own = emission_flags(metadata, &configured.options);
                    assert(own == flags_of(ts[i as int]));
                    flags.has_display = flags.has_display || own.has_display;
                    flags.has_error_domain = flags.has_error_domain || own.has_error_domain;
                    flags.has_dynamic_type = flags.has_dynamic_type || own.has_dynamic_type;
                },
                TypeDefinition::Other => {},
            }
            indices.push(i);
        }
        i = i + 1;
    }
    if indices.len() == 0 {
        None
    } else {
        Some(Selection { indices, flags })
    }
}

} // verus!

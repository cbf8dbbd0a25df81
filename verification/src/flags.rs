//! Which of the optional conversions an enumeration gets.

use vstd::prelude::*;

use crate::model::{
    optional_text, EmissionFlags, EnumOptions, EnumerationMetadata, EnumerationModel,
    FunctionModel, OptionsModel,
};
use crate::sequence::{first_index, lemma_first_index_of_front, lemma_first_index_step, models};

verus! {

/// The native function that gives the error domain of the enumeration: the
/// first of its functions that is named `quark`, where that one has a native
/// identifier, and else the name of the error domain that the library gives.
pub open spec fn error_quark_source(metadata: EnumerationModel) -> Option<Seq<char>> {
    match first_index(metadata.functions, |f: FunctionModel| f.name == "quark"@) {
        Some(i) => match metadata.functions[i].native_identifier {
            Some(identifier) => Some(identifier),
            None => metadata.error_domain,
        },
        None => metadata.error_domain,
    }
}

/// The native function that gives the error domain of the enumeration, if
/// it has one.
pub fn get_error_quark_name(metadata: &EnumerationMetadata) -> (name: Option<String>)
    ensures
        optional_text(name) == error_quark_source(metadata@),
{
    let ghost fs = models(metadata.functions@);
    let ghost wanted = |f: FunctionModel| f.name == "quark"@;
    let quark = "quark".to_owned();
    let mut i: usize = 0;
    while i < metadata.functions.len()
        invariant
            i <= metadata.functions.len(),
            fs == models(metadata.functions@),
            wanted == |f: FunctionModel| f.name == "quark"@,
            quark@ == "quark"@,
            first_index(fs.take(i as int), wanted) is None,
        decreases metadata.functions.len() - i,
    {
        proof {
            lemma_first_index_step(fs, wanted, i as int);
        }
        if metadata.functions[i].name == quark {
            proof {
                lemma_first_index_of_front(fs, wanted, i as int);
            }
            return match &metadata.functions[i].native_identifier {
                Some(identifier) => Some(identifier.clone()),
                None => metadata.error_domain.clone(),
            };
        }
        i = i + 1;
    }
    assert(fs.take(metadata.functions.len() as int) =~= fs);
    metadata.error_domain.clone()
}

/// Which of the optional conversions the enumeration gets.
pub open spec fn emission_flags_spec(metadata: EnumerationModel, options: OptionsModel)
    -> EmissionFlags {
    EmissionFlags {
        has_display: options.generate_display_trait,
        has_error_domain: error_quark_source(metadata) is Some,
        has_dynamic_type: metadata.dynamic_type_getter is Some,
    }
}

/// Which of the optional conversions the enumeration gets: the display
/// where the project asks for it, the error domain where the library names
/// its source, the dynamic type where the library names its getter.
pub fn emission_flags(metadata: &EnumerationMetadata, options: &EnumOptions) -> (flags:
    EmissionFlags)
    ensures
        flags == emission_flags_spec(metadata@, options@),
{
    EmissionFlags {
        has_display: options.generate_display_trait,
        has_error_domain: get_error_quark_name(metadata).is_some(),
        has_dynamic_type: metadata.dynamic_type_getter.is_some(),
    }
}

} // verus!

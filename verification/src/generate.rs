//! The file of the enumerations of a project: what it imports, its text,
//! and the lines that make its types visible from the parent module.

use vstd::prelude::*;
use vstd::string::StringExecFns;

use crate::enumeration::{enumeration_text, generate_enum};
use crate::model::{
    ConfiguredModel, ConfiguredType, EmissionFlags, EnumerationMetadata, EnumerationModel,
    GeneratorConfig, TypeDefinition,
};
use crate::select::{aggregate_flags, as_positions, qualifies, select, selected};
use crate::sequence::{joined, lemma_joined_step, lemma_positions_below, models};
use crate::version::{version_condition_string, version_condition_text};

verus! {

/// What the file imports: the native bindings and the conversions always,
/// and what the error domains, the dynamic types and the displays of its
/// enumerations use where one of them has such.
pub open spec fn required_imports(flags: EmissionFlags) -> Seq<Seq<char>> {
    seq!["sys"@] + (if flags.has_error_domain {
        seq!["glib::Quark"@, "glib::error::ErrorDomain"@]
    } else {
        Seq::<Seq<char>>::empty()
    }) + (if flags.has_dynamic_type {
        seq![
            "glib::Type"@,
            "glib::StaticType"@,
            "glib::value::Value"@,
            "glib::value::SetValue"@,
            "glib::value::FromValue"@,
            "glib::value::FromValueOptional"@,
            "gobject_sys"@,
        ]
    } else {
        Seq::<Seq<char>>::empty()
    }) + seq!["glib::translate::*"@] + (if flags.has_display {
        seq!["std::fmt"@]
    } else {
        Seq::<Seq<char>>::empty()
    })
}

fn push_import(imports: &mut Vec<String>, name: &str)
    ensures
        models(final(imports)@) == models(old(imports)@).push(name@),
{
    imports.push(String::from_str(name));
}

/// What a file with these conversions imports.
pub fn imports(flags: &EmissionFlags) -> (names: Vec<String>)
    ensures
        models(names@) == required_imports(*flags),
{
    let mut names: Vec<String> = Vec::new();
    push_import(&mut names, "sys");
    if flags.has_error_domain {
        push_import(&mut names, "glib::Quark");
        push_import(&mut names, "glib::error::ErrorDomain");
    }
    if flags.has_dynamic_type {
        push_import(&mut names, "glib::Type");
        push_import(&mut names, "glib::StaticType");
        push_import(&mut names, "glib::value::Value");
        push_import(&mut names, "glib::value::SetValue");
        push_import(&mut names, "glib::value::FromValue");
        push_import(&mut names, "glib::value::FromValueOptional");
        push_import(&mut names, "gobject_sys");
    }
    push_import(&mut names, "glib::translate::*");
    if flags.has_display {
        push_import(&mut names, "std::fmt");
    }
    names
}

/// The enumeration of a configured type.
pub open spec fn metadata_of(configured: ConfiguredModel) -> EnumerationModel {
    configured.definition->Enumeration_0
}

/// The lines that make the type of an enumeration visible from the parent
/// module: the line that uses it, with the version attribute of the
/// enumeration in front where it has one.
pub open spec fn reexport_lines(metadata: EnumerationModel, general: GeneratorConfig) -> Seq<
    Seq<char>,
> {
    (match version_condition_text(metadata.version, general.min_cfg_version, 0) {
        Some(condition) => seq![condition],
        None => Seq::<Seq<char>>::empty(),
    }) + seq!["pub use self::enums::"@ + metadata.name + ";"@]
}

/// The lines for the parent module: the declaration of the module of the
/// enumerations, and the lines of each selected enumeration.
pub open spec fn module_lines(types: Seq<ConfiguredModel>, general: GeneratorConfig) -> Seq<
    Seq<char>,
> {
    seq!["\nmod enums;"@] + joined(
        selected(types),
        |i: int| reexport_lines(metadata_of(types[i]), general),
    )
}

/// The text of the file behind its imports: the text of each selected
/// enumeration, in the order of the configuration.
pub open spec fn body_text(types: Seq<ConfiguredModel>, general: GeneratorConfig) -> Seq<char> {
    joined(
        selected(types),
        |i: int| enumeration_text(metadata_of(types[i]), types[i].options, general),
    )
}

/// The file of the enumerations.
#[derive(Debug)]
pub struct Generated {
    /// What the file imports.
    pub imports: Vec<String>,
    /// The text of the file behind its imports.
    pub body: String,
}

fn push_reexport(mod_rs: &mut Vec<String>, metadata: &EnumerationMetadata, general: &GeneratorConfig)
    ensures
        models(final(mod_rs)@) == models(old(mod_rs)@) + reexport_lines(metadata@, *general),
{
    match version_condition_string(metadata.version, &general.min_cfg_version, 0) {
        Some(condition) => {
            mod_rs.push(condition);
        },
        None => {},
    }
    let mut line = String::from_str("pub use self::enums::");
    line.append(metadata.name.as_str());
    line.append(";");
    mod_rs.push(line);
}

/// Generates the file of the enumerations of a project. Where no configured
/// type is an enumeration to generate, there is no file, and `mod_rs` stays
/// as it is. Else the file has the text of each such enumeration, in the
/// order of the configuration, and `mod_rs` gets the declaration of the
/// module and the lines that make each type visible.
pub fn generate(types: &Vec<ConfiguredType>, general: &GeneratorConfig, mod_rs: &mut Vec<String>)
    -> (generated: Option<Generated>)
    ensures
        match generated {
            Some(file) => {
                &&& selected(models(types@)).len() > 0
                &&& models(file.imports@) == required_imports(aggregate_flags(models(types@)))
                &&& file.body@ == body_text(models(types@), *general)
                &&& models(final(mod_rs)@) == models(old(mod_rs)@) + module_lines(
                    models(types@),
                    *general,
                )
            },
            None => {
                &&& selected(models(types@)).len() == 0
                &&& final(mod_rs)@ == old(mod_rs)@
            },
        },
{
    let ghost ts = models(types@);
    let selection = match select(types) {
        Some(selection) => selection,
        None => {
            return None;
        },
    };
    let names = imports(&selection.flags);
    let ghost positions = selected(ts);
    let ghost lines = |i: int| reexport_lines(metadata_of(ts[i]), *general);
    let ghost texts = |i: int| enumeration_text(metadata_of(ts[i]), ts[i].options, *general);
    proof {
        lemma_positions_below(ts.len(), |i: int| qualifies(ts[i]));
    }
    let mut body = String::new();
    let ghost start = models(mod_rs@);
    mod_rs.push(String::from_str("\nmod enums;"));
    let mut k: usize = 0;
    while k < selection.indices.len()
        invariant
            k <= selection.indices.len(),
            ts == models(types@),
            positions == selected(ts),
            as_positions(selection.indices@) == positions,
            forall|l: int|
                0 <= l < positions.len() ==> 0 <= #[trigger] positions[l] < ts.len() && qualifies(
                    ts[positions[l]],
                ),
            lines == |i: int| reexport_lines(metadata_of(ts[i]), *general),
            texts == |i: int| enumeration_text(metadata_of(ts[i]), ts[i].options, *general),
            body@ == joined(positions.take(k as int), texts),
            models(mod_rs@) == start + seq!["\nmod enums;"@] + joined(
                positions.take(k as int),
                lines,
            ),
        decreases selection.indices.len() - k,
    {
        let i: usize = selection.indices[k];
        proof {
            lemma_joined_step(positions, texts, k as int);
            lemma_joined_step(positions, lines, k as int);
        }
        let configured = &types[i];
        match &configured.definition {
            TypeDefinition::Enumeration(metadata) => {
                push_reexport(mod_rs, metadata, general);
                generate_enum(general, &mut body, metadata, &configured.options);
            },
            TypeDefinition::Other => {},
        }
        k = k + 1;
    }
    assert(positions.take(selection.indices.len() as int) =~= positions);
    Some(Generated { imports: names, body })
}

} // verus!

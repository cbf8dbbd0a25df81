//! The description of an enumeration of the native library, the rules of a
//! project for its members, and what both come to: the variants that are
//! emitted.

use vstd::prelude::*;

use crate::sequence::models;
use crate::version::Version;

verus! {

/// The view of an optional string.
pub open spec fn optional_text(s: Option<String>) -> Option<Seq<char>> {
    match s {
        Some(s) => Some(s@),
        None => None,
    }
}

/// A member of a native enumeration, as the library declares it. Several
/// members may have the same value.
#[derive(Clone, Debug)]
pub struct NativeMember {
    /// The name in the description of the library, by which rules find it.
    pub name: String,
    /// The name of the constant in the native library.
    pub native_identifier: String,
    pub native_value: i32,
}

/// What a `NativeMember` holds, as plain values.
pub struct MemberModel {
    pub name: Seq<char>,
    pub native_identifier: Seq<char>,
    pub native_value: i32,
}

impl View for NativeMember {
    type V = MemberModel;

    open spec fn view(&self) -> MemberModel {
        MemberModel {
            name: self.name@,
            native_identifier: self.native_identifier@,
            native_value: self.native_value,
        }
    }
}

/// A rule of the project for the members of that name.
#[derive(Clone, Debug)]
pub struct MemberRule {
    /// The name of the members that the rule is for.
    pub name: String,
    pub is_alias: bool,
    pub is_ignored: bool,
    pub version: Option<Version>,
    pub deprecated_version: Option<Version>,
}

/// What a `MemberRule` holds, as plain values.
pub struct RuleModel {
    pub name: Seq<char>,
    pub is_alias: bool,
    pub is_ignored: bool,
    pub version: Option<Version>,
    pub deprecated_version: Option<Version>,
}

impl View for MemberRule {
    type V = RuleModel;

    open spec fn view(&self) -> RuleModel {
        RuleModel {
            name: self.name@,
            is_alias: self.is_alias,
            is_ignored: self.is_ignored,
            version: self.version,
            deprecated_version: self.deprecated_version,
        }
    }
}

/// What the rules of a project say of one member, all rules for its name
/// taken together.
#[derive(Clone, Copy, Debug, PartialEq, Eq, Structural)]
pub struct MemberOverride {
    pub is_alias: bool,
    pub is_ignored: bool,
    pub version: Option<Version>,
    pub deprecated_version: Option<Version>,
}

/// A variant of the emitted type. In the list of one enumeration no two
/// variants have the same native value.
#[derive(Clone, Debug)]
pub struct CanonicalVariant {
    /// The name of the variant in the emitted type.
    pub name: String,
    /// The name of the constant in the native library.
    pub native_identifier: String,
    pub native_value: i32,
    pub version: Option<Version>,
    pub deprecated_version: Option<Version>,
}

/// What a `CanonicalVariant` holds, as plain values.
pub struct VariantModel {
    pub name: Seq<char>,
    pub native_identifier: Seq<char>,
    pub native_value: i32,
    pub version: Option<Version>,
    pub deprecated_version: Option<Version>,
}

impl View for CanonicalVariant {
    type V = VariantModel;

    open spec fn view(&self) -> VariantModel {
        VariantModel {
            name: self.name@,
            native_identifier: self.native_identifier@,
            native_value: self.native_value,
            version: self.version,
            deprecated_version: self.deprecated_version,
        }
    }
}

/// A function that the native library declares for an enumeration.
#[derive(Clone, Debug)]
pub struct NativeFunction {
    pub name: String,
    /// The name of the function in the native library, where it has one.
    pub native_identifier: Option<String>,
}

/// What a `NativeFunction` holds, as plain values.
pub struct FunctionModel {
    pub name: Seq<char>,
    pub native_identifier: Option<Seq<char>>,
}

impl View for NativeFunction {
    type V = FunctionModel;

    open spec fn view(&self) -> FunctionModel {
        FunctionModel {
            name: self.name@,
            native_identifier: optional_text(self.native_identifier),
        }
    }
}

/// An enumeration of the native library.
#[derive(Clone, Debug)]
pub struct EnumerationMetadata {
    /// The name of the emitted type.
    pub name: String,
    /// The name of the native type.
    pub native_type_name: String,
    /// The members, in the order of their declaration.
    pub members: Vec<NativeMember>,
    pub version: Option<Version>,
    pub deprecated_version: Option<Version>,
    pub functions: Vec<NativeFunction>,
    /// The name of the error domain, where the library gives one.
    pub error_domain: Option<String>,
    /// The native function that returns the type's registration.
    pub dynamic_type_getter: Option<String>,
}

/// What an `EnumerationMetadata` holds, as plain values.
pub struct EnumerationModel {
    pub name: Seq<char>,
    pub native_type_name: Seq<char>,
    pub members: Seq<MemberModel>,
    pub version: Option<Version>,
    pub deprecated_version: Option<Version>,
    pub functions: Seq<FunctionModel>,
    pub error_domain: Option<Seq<char>>,
    pub dynamic_type_getter: Option<Seq<char>>,
}

impl View for EnumerationMetadata {
    type V = EnumerationModel;

    open spec fn view(&self) -> EnumerationModel {
        EnumerationModel {
            name: self.name@,
            native_type_name: self.native_type_name@,
            members: models(self.members@),
            version: self.version,
            deprecated_version: self.deprecated_version,
            functions: models(self.functions@),
            error_domain: optional_text(self.error_domain),
            dynamic_type_getter: optional_text(self.dynamic_type_getter),
        }
    }
}

/// Which of the optional conversions are emitted.
#[derive(Clone, Copy, Debug, PartialEq, Eq, Structural)]
pub struct EmissionFlags {
    pub has_display: bool,
    pub has_error_domain: bool,
    pub has_dynamic_type: bool,
}

/// What a project wants done with a type.
#[derive(Clone, Copy, Debug, PartialEq, Eq, Structural)]
pub enum GenerationStatus {
    Manual,
    Generate,
    Comment,
    Ignore,
}

impl GenerationStatus {
    /// Whether code is generated for the type.
    pub open spec fn needs_generation(self) -> bool {
        self == GenerationStatus::Generate
    }

    /// Whether code is generated for the type.
    pub fn need_generate(&self) -> (needed: bool)
        ensures
            needed == self.needs_generation(),
    {
        match self {
            GenerationStatus::Generate => true,
            _ => false,
        }
    }
}

/// The namespace of the library that the bindings are generated for.
pub const MAIN_NAMESPACE: u16 = 1;

/// What the native library declares under a name.
#[derive(Clone, Debug)]
pub enum TypeDefinition {
    Enumeration(EnumerationMetadata),
    Other,
}

/// What a `TypeDefinition` holds, as plain values.
pub enum DefinitionModel {
    Enumeration(EnumerationModel),
    Other,
}

impl View for TypeDefinition {
    type V = DefinitionModel;

    open spec fn view(&self) -> DefinitionModel {
        match self {
            TypeDefinition::Enumeration(metadata) => DefinitionModel::Enumeration(metadata@),
            TypeDefinition::Other => DefinitionModel::Other,
        }
    }
}

/// What a project asks for one enumeration.
#[derive(Clone, Debug)]
pub struct EnumOptions {
    /// The rules for the members, in the order of the configuration.
    pub members: Vec<MemberRule>,
    pub must_use: bool,
    /// The traits to derive in place of the usual ones, as they are written
    /// between the brackets of the attribute.
    pub derives: Option<String>,
    pub generate_display_trait: bool,
}

/// What an `EnumOptions` holds, as plain values.
pub struct OptionsModel {
    pub members: Seq<RuleModel>,
    pub must_use: bool,
    pub derives: Option<Seq<char>>,
    pub generate_display_trait: bool,
}

impl View for EnumOptions {
    type V = OptionsModel;

    open spec fn view(&self) -> OptionsModel {
        OptionsModel {
            members: models(self.members@),
            must_use: self.must_use,
            derives: optional_text(self.derives),
            generate_display_trait: self.generate_display_trait,
        }
    }
}

/// A type that a project has configured.
#[derive(Clone, Debug)]
pub struct ConfiguredType {
    pub status: GenerationStatus,
    /// The namespace that the type belongs to, where the type is known.
    pub namespace: Option<u16>,
    pub definition: TypeDefinition,
    pub options: EnumOptions,
}

/// What a `ConfiguredType` holds, as plain values.
pub struct ConfiguredModel {
    pub status: GenerationStatus,
    pub namespace: Option<u16>,
    pub definition: DefinitionModel,
    pub options: OptionsModel,
}

impl View for ConfiguredType {
    type V = ConfiguredModel;

    open spec fn view(&self) -> ConfiguredModel {
        ConfiguredModel {
            status: self.status,
            namespace: self.namespace,
            definition: self.definition@,
            options: self.options@,
        }
    }
}

/// What a project asks for all its types.
#[derive(Clone, Copy, Debug, PartialEq, Eq, Structural)]
pub struct GeneratorConfig {
    /// The release of the native library that every build is for, at least.
    pub min_cfg_version: Version,
    pub generate_safety_asserts: bool,
}

} // verus!

//! The text of the emitted type and of its conversions, block by block.

use vstd::prelude::*;
use vstd::string::StringExecFns;

use crate::canonical::{find_named, position_of_name};
use crate::model::{
    CanonicalVariant, EnumOptions, EnumerationMetadata, EnumerationModel, GeneratorConfig,
    OptionsModel, VariantModel,
};
use crate::sequence::{joined, lemma_joined_step, models};
use crate::text::{push_signed_decimal, push_underscored, signed_decimal, underscored};
use crate::version::{guard_lines, push_guard};

verus! {

/// The attributes in front of every block of an enumeration: those of the
/// enumeration itself.
pub open spec fn enum_guard(metadata: EnumerationModel, general: GeneratorConfig) -> Seq<char> {
    guard_lines(metadata.deprecated_version, metadata.version, general.min_cfg_version, 0)
}

/// The attributes in front of the arm of a variant: those of the member it
/// stands for, whatever those of the enumeration are.
pub open spec fn member_guard(variant: VariantModel, general: GeneratorConfig, indent: nat) -> Seq<
    char,
> {
    guard_lines(variant.deprecated_version, variant.version, general.min_cfg_version, indent)
}

/// The places in which every variant has an arm.
#[derive(Clone, Copy, Debug, PartialEq, Eq, Structural)]
pub enum ArmKind {
    Definition,
    Display,
    ToNative,
    FromNative,
    ErrorFromCode,
}

/// The arm of `variant` in the place `kind`, with its own attributes in
/// front.
pub open spec fn arm_text(
    kind: ArmKind,
    enum_name: Seq<char>,
    variant: VariantModel,
    general: GeneratorConfig,
) -> Seq<char> {
    match kind {
        ArmKind::Definition => member_guard(variant, general, 1) + "\t"@ + variant.name + ",\n"@,
        ArmKind::Display => member_guard(variant, general, 3) + "\t\t\t"@ + enum_name + "::"@
            + variant.name + " => \""@ + enum_name + "::"@ + variant.name + "\",\n"@,
        ArmKind::ToNative => member_guard(variant, general, 3) + "\t\t\t"@ + enum_name + "::"@
            + variant.name + " => sys::"@ + variant.native_identifier + ",\n"@,
        ArmKind::FromNative => member_guard(variant, general, 3) + "\t\t\t"@ + signed_decimal(
            variant.native_value as int,
        ) + " => "@ + enum_name + "::"@ + variant.name + ",\n"@,
        ArmKind::ErrorFromCode => member_guard(variant, general, 3) + "\t\t\t"@ + signed_decimal(
            variant.native_value as int,
        ) + " => Some("@ + enum_name + "::"@ + variant.name + "),\n"@,
    }
}

/// The arms of all variants in the place `kind`, in the order of the
/// variants.
pub open spec fn arms_text(
    kind: ArmKind,
    enum_name: Seq<char>,
    variants: Seq<VariantModel>,
    general: GeneratorConfig,
) -> Seq<char> {
    joined(variants, |variant: VariantModel| arm_text(kind, enum_name, variant, general))
}

fn push_arm(
    out: &mut String,
    kind: ArmKind,
    enum_name: &str,
    variant: &CanonicalVariant,
    general: &GeneratorConfig,
)
    ensures
        final(out)@ == old(out)@ + arm_text(kind, enum_name@, variant@, *general),
{
    let min = &general.min_cfg_version;
    match kind {
        ArmKind::Definition => {
            push_guard(out, variant.deprecated_version, variant.version, min, 1);
            out.append("\t");
            out.append(variant.name.as_str());
            out.append(",\n");
        },
        ArmKind::Display => {
            push_guard(out, variant.deprecated_version, variant.version, min, 3);
            out.append("\t\t\t");
            out.append(enum_name);
            out.append("::");
            out.append(variant.name.as_str());
            out.append(" => \"");
            out.append(enum_name);
            out.append("::");
            out.append(variant.name.as_str());
            out.append("\",\n");
        },
        ArmKind::ToNative => {
            push_guard(out, variant.deprecated_version, variant.version, min, 3);
            out.append("\t\t\t");
            out.append(enum_name);
            out.append("::");
            out.append(variant.name.as_str());
            out.append(" => sys::");
            out.append(variant.native_identifier.as_str());
            out.append(",\n");
        },
        ArmKind::FromNative => {
            push_guard(out, variant.deprecated_version, variant.version, min, 3);
            out.append("\t\t\t");
            push_signed_decimal(out, variant.native_value);
            out.append(" => ");
            out.append(enum_name);
            out.append("::");
            out.append(variant.name.as_str());
            out.append(",\n");
        },
        ArmKind::ErrorFromCode => {
            push_guard(out, variant.deprecated_version, variant.version, min, 3);
            out.append("\t\t\t");
            push_signed_decimal(out, variant.native_value);
            out.append(" => Some(");
            out.append(enum_name);
            out.append("::");
            out.append(variant.name.as_str());
            out.append("),\n");
        },
    }
}

fn push_arms(
    out: &mut String,
    kind: ArmKind,
    enum_name: &str,
    variants: &Vec<CanonicalVariant>,
    general: &GeneratorConfig,
)
    ensures
        final(out)@ == old(out)@ + arms_text(kind, enum_name@, models(variants@), *general),
{
    let ghost vs = models(variants@);
    let ghost piece = |variant: VariantModel| arm_text(kind, enum_name@, variant, *general);
    let mut i: usize = 0;
    while i < variants.len()
        invariant
            i <= variants.len(),
            vs == models(variants@),
            piece == |variant: VariantModel| arm_text(kind, enum_name@, variant, *general),
            out@ == old(out)@ + joined(vs.take(i as int), piece),
        decreases variants.len() - i,
    {
        proof {
            lemma_joined_step(vs, piece, i as int);
        }
        push_arm(out, kind, enum_name, &variants[i], general);
        i = i + 1;
    }
    assert(vs.take(variants.len() as int) =~= vs);
}

/// The line that derives the traits of the emitted type: those that the
/// project names, or the usual ones.
pub open spec fn derive_line(options: OptionsModel) -> Seq<char> {
    match options.derives {
        Some(traits) => "#[derive("@ + traits + ")]\n"@,
        None => "#[derive(Debug, Eq, PartialEq, Ord, PartialOrd, Hash)]\n"@,
    }
}

/// The line that has the compiler warn of an unused value, where the
/// project asks for it.
pub open spec fn must_use_line(options: OptionsModel) -> Seq<char> {
    if options.must_use {
        "#[must_use]\n"@
    } else {
        Seq::<char>::empty()
    }
}

/// The check that the library is initialised, where the project asks for
/// such checks.
pub open spec fn safety_assert(general: GeneratorConfig) -> Seq<char> {
    if general.generate_safety_asserts {
        "skip_assert_initialized!();\n\t\t"@
    } else {
        Seq::<char>::empty()
    }
}

/// The definition of the type without the attributes of the enumeration: a
/// variant for each of `variants`, each with the attributes of its own
/// member, and behind them the catch-all that holds a native integer, which
/// is always there.
pub open spec fn type_definition_body(
    enum_name: Seq<char>,
    variants: Seq<VariantModel>,
    options: OptionsModel,
    general: GeneratorConfig,
) -> Seq<char> {
    must_use_line(options) + derive_line(options) + "#[derive(Clone, Copy)]\npub enum "@
        + enum_name + " {\n"@ + arms_text(ArmKind::Definition, enum_name, variants, general)
        + "    #[doc(hidden)]\n    __Unknown(i32),\n}\n"@
}

/// The definition of the type, behind the attributes of the enumeration.
pub open spec fn type_definition_text(
    metadata: EnumerationModel,
    variants: Seq<VariantModel>,
    options: OptionsModel,
    general: GeneratorConfig,
) -> Seq<char> {
    enum_guard(metadata, general) + type_definition_body(metadata.name, variants, options, general)
}

/// The display of the type: the name of the type, two colons and the name
/// of the variant, and `Unknown` for the catch-all.
pub open spec fn display_text(
    metadata: EnumerationModel,
    variants: Seq<VariantModel>,
    general: GeneratorConfig,
) -> Seq<char> {
    enum_guard(metadata, general) + "impl fmt::Display for "@ + metadata.name
        + " {\n\tfn fmt(&self, f: &mut fmt::Formatter) -> fmt::Result {\n\t\twrite!(f, \"{}\", match *self {\n"@
        + arms_text(ArmKind::Display, metadata.name, variants, general)
        + "\t\t\t_ => \"Unknown\",\n\t\t})\n\t}\n}\n"@
}

/// The conversion to the native integer: for each variant the native
/// constant it stands for, for the catch-all the integer it holds.
pub open spec fn to_native_text(
    metadata: EnumerationModel,
    variants: Seq<VariantModel>,
    general: GeneratorConfig,
) -> Seq<char> {
    enum_guard(metadata, general) + "#[doc(hidden)]\nimpl ToGlib for "@ + metadata.name
        + " {\n    type GlibType = sys::"@ + metadata.native_type_name
        + ";\n\n    fn to_glib(&self) -> sys::"@ + metadata.native_type_name
        + " {\n        match *self {\n"@ + arms_text(
        ArmKind::ToNative,
        metadata.name,
        variants,
        general,
    ) + "\t\t\t"@ + metadata.name + "::__Unknown(value) => value\n        }\n    }\n}\n"@
}

/// The conversion from the native integer: the variants by their values, in
/// their order, and behind them the catch-all for every other integer.
pub open spec fn from_native_text(
    metadata: EnumerationModel,
    variants: Seq<VariantModel>,
    general: GeneratorConfig,
) -> Seq<char> {
    enum_guard(metadata, general) + "#[doc(hidden)]\nimpl FromGlib<sys::"@
        + metadata.native_type_name + "> for "@ + metadata.name
        + " {\n    fn from_glib(value: sys::"@ + metadata.native_type_name
        + ") -> Self {\n        "@ + safety_assert(general) + "match value {\n"@ + arms_text(
        ArmKind::FromNative,
        metadata.name,
        variants,
        general,
    ) + "\t\t\tvalue => "@ + metadata.name + "::__Unknown(value),\n        }\n    }\n}\n"@
}

/// Whether one of `variants` is named `Failed`.
pub open spec fn has_failed_variant(variants: Seq<VariantModel>) -> bool {
    position_of_name(variants, "Failed"@) is Some
}

/// The last arm of the conversion from an error code: the variant named
/// `Failed` where the type has one, and else the catch-all.
pub open spec fn error_fallback_arm(enum_name: Seq<char>, variants: Seq<VariantModel>) -> Seq<
    char,
> {
    if has_failed_variant(variants) {
        "\t\t\t_ => Some("@ + enum_name + "::Failed),\n"@
    } else {
        "\t\t\tvalue => Some("@ + enum_name + "::__Unknown(value)),\n"@
    }
}

/// The error domain of the type: the domain, which the native function
/// `quark` gives; the code, which is the native integer; and the
/// conversion from a code, which has a value for every code.
pub open spec fn error_domain_text(
    metadata: EnumerationModel,
    variants: Seq<VariantModel>,
    general: GeneratorConfig,
    quark: Seq<char>,
) -> Seq<char> {
    enum_guard(metadata, general) + "impl ErrorDomain for "@ + metadata.name
        + " {\n    fn domain() -> Quark {\n        "@ + safety_assert(general)
        + "unsafe { from_glib(sys::"@ + underscored(quark)
        + "()) }\n    }\n\n    fn code(self) -> i32 {\n        self.to_glib()\n    }\n\n    fn from(code: i32) -> Option<Self> {\n        "@
        + safety_assert(general) + "match code {\n"@ + arms_text(
        ArmKind::ErrorFromCode,
        metadata.name,
        variants,
        general,
    ) + error_fallback_arm(metadata.name, variants) + "        }\n    }\n}\n"@
}

/// The registration of the type, which the native function `getter` gives.
pub open spec fn static_type_text(
    metadata: EnumerationModel,
    general: GeneratorConfig,
    getter: Seq<char>,
) -> Seq<char> {
    enum_guard(metadata, general) + "impl StaticType for "@ + metadata.name
        + " {\n    fn static_type() -> Type {\n        unsafe { from_glib(sys::"@ + getter
        + "()) }\n    }\n}\n"@
}

/// Reading a value of the type out of a dynamically typed value, by the
/// conversion from the native integer.
pub open spec fn value_read_text(metadata: EnumerationModel, general: GeneratorConfig) -> Seq<
    char,
> {
    enum_guard(metadata, general) + "impl<'a> FromValueOptional<'a> for "@ + metadata.name
        + " {\n    unsafe fn from_value_optional(value: &Value) -> Option<Self> {\n        Some(FromValue::from_value(value))\n    }\n}\n\n"@
        + enum_guard(metadata, general) + "impl<'a> FromValue<'a> for "@ + metadata.name
        + " {\n    unsafe fn from_value(value: &Value) -> Self {\n        from_glib(gobject_sys::g_value_get_enum(value.to_glib_none().0))\n    }\n}\n"@
}

/// Writing a value of the type into a dynamically typed value, by the
/// conversion to the native integer.
pub open spec fn value_write_text(metadata: EnumerationModel, general: GeneratorConfig) -> Seq<
    char,
> {
    enum_guard(metadata, general) + "impl SetValue for "@ + metadata.name
        + " {\n    unsafe fn set_value(value: &mut Value, this: &Self) {\n        gobject_sys::g_value_set_enum(value.to_glib_none_mut().0, this.to_glib())\n    }\n}\n"@
}

fn push_enum_guard(out: &mut String, metadata: &EnumerationMetadata, general: &GeneratorConfig)
    ensures
        final(out)@ == old(out)@ + enum_guard(metadata@, *general),
{
    push_guard(out, metadata.deprecated_version, metadata.version, &general.min_cfg_version, 0);
}

fn push_safety_assert(out: &mut String, general: &GeneratorConfig)
    ensures
        final(out)@ == old(out)@ + safety_assert(*general),
{
    if general.generate_safety_asserts {
        out.append("skip_assert_initialized!();\n\t\t");
    }
}

/// The definition of the type.
pub fn type_definition(
    metadata: &EnumerationMetadata,
    variants: &Vec<CanonicalVariant>,
    options: &EnumOptions,
    general: &GeneratorConfig,
) -> (text: String)
    ensures
        text@ == type_definition_text(metadata@, models(variants@), options@, *general),
{
    let mut out = String::new();
    push_enum_guard(&mut out, metadata, general);
    if options.must_use {
        out.append("#[must_use]\n");
    }
    match &options.derives {
        Some(traits) => {
            out.append("#[derive(");
            out.append(traits.as_str());
            out.append(")]\n");
        },
        None => {
            out.append("#[derive(Debug, Eq, PartialEq, Ord, PartialOrd, Hash)]\n");
        },
    }
    out.append("#[derive(Clone, Copy)]\npub enum ");
    out.append(metadata.name.as_str());
    out.append(" {\n");
    push_arms(&mut out, ArmKind::Definition, metadata.name.as_str(), variants, general);
    out.append("    #[doc(hidden)]\n    __Unknown(i32),\n}\n");
    out
}

/// The display of the type.
pub fn display_impl(
    metadata: &EnumerationMetadata,
    variants: &Vec<CanonicalVariant>,
    general: &GeneratorConfig,
) -> (text: String)
    ensures
        text@ == display_text(metadata@, models(variants@), *general),
{
    let mut out = String::new();
    push_enum_guard(&mut out, metadata, general);
    out.append("impl fmt::Display for ");
    out.append(metadata.name.as_str());
    out.append(
        " {\n\tfn fmt(&self, f: &mut fmt::Formatter) -> fmt::Result {\n\t\twrite!(f, \"{}\", match *self {\n",
    );
    push_arms(&mut out, ArmKind::Display, metadata.name.as_str(), variants, general);
    out.append("\t\t\t_ => \"Unknown\",\n\t\t})\n\t}\n}\n");
    out
}

/// The conversion to the native integer.
pub fn to_native_impl(
    metadata: &EnumerationMetadata,
    variants: &Vec<CanonicalVariant>,
    general: &GeneratorConfig,
) -> (text: String)
    ensures
        text@ == to_native_text(metadata@, models(variants@), *general),
{
    let mut out = String::new();
    push_enum_guard(&mut out, metadata, general);
    out.append("#[doc(hidden)]\nimpl ToGlib for ");
    out.append(metadata.name.as_str());
    out.append(" {\n    type GlibType = sys::");
    out.append(metadata.native_type_name.as_str());
    out.append(";\n\n    fn to_glib(&self) -> sys::");
    out.append(metadata.native_type_name.as_str());
    out.append(" {\n        match *self {\n");
    push_arms(&mut out, ArmKind::ToNative, metadata.name.as_str(), variants, general);
    out.append("\t\t\t");
    out.append(metadata.name.as_str());
    out.append("::__Unknown(value) => value\n        }\n    }\n}\n");
    out
}

/// The conversion from the native integer.
pub fn from_native_impl(
    metadata: &EnumerationMetadata,
    variants: &Vec<CanonicalVariant>,
    general: &GeneratorConfig,
) -> (text: String)
    ensures
        text@ == from_native_text(metadata@, models(variants@), *general),
{
    let mut out = String::new();
    push_enum_guard(&mut out, metadata, general);
    out.append("#[doc(hidden)]\nimpl FromGlib<sys::");
    out.append(metadata.native_type_name.as_str());
    out.append("> for ");
    out.append(metadata.name.as_str());
    out.append(" {\n    fn from_glib(value: sys::");
    out.append(metadata.native_type_name.as_str());
    out.append(") -> Self {\n        ");
    push_safety_assert(&mut out, general);
    out.append("match value {\n");
    push_arms(&mut out, ArmKind::FromNative, metadata.name.as_str(), variants, general);
    out.append("\t\t\tvalue => ");
    out.append(metadata.name.as_str());
    out.append("::__Unknown(value),\n        }\n    }\n}\n");
    out
}

/// The error domain of the type, with the native function `quark` as the
/// source of the domain.
pub fn error_domain_impl(
    metadata: &EnumerationMetadata,
    variants: &Vec<CanonicalVariant>,
    general: &GeneratorConfig,
    quark: &str,
) -> (text: String)
    ensures
        text@ == error_domain_text(metadata@, models(variants@), *general, quark@),
{
    let failed = String::from_str("Failed");
    let has_failed: bool = find_named(variants, &failed).is_some();
    let mut out = String::new();
    push_enum_guard(&mut out, metadata, general);
    out.append("impl ErrorDomain for ");
    out.append(metadata.name.as_str());
    out.append(" {\n    fn domain() -> Quark {\n        ");
    push_safety_assert(&mut out, general);
    out.append("unsafe { from_glib(sys::");
    push_underscored(&mut out, quark);
    out.append(
        "()) }\n    }\n\n    fn code(self) -> i32 {\n        self.to_glib()\n    }\n\n    fn from(code: i32) -> Option<Self> {\n        ",
    );
    push_safety_assert(&mut out, general);
    out.append("match code {\n");
    push_arms(&mut out, ArmKind::ErrorFromCode, metadata.name.as_str(), variants, general);
    if has_failed {
        out.append("\t\t\t_ => Some(");
        out.append(metadata.name.as_str());
        out.append("::Failed),\n");
    } else {
        out.append("\t\t\tvalue => Some(");
        out.append(metadata.name.as_str());
        out.append("::__Unknown(value)),\n");
    }
    out.append("        }\n    }\n}\n");
    out
}

/// The registration of the type, which the native function `getter` gives.
pub fn static_type_impl(metadata: &EnumerationMetadata, general: &GeneratorConfig, getter: &str)
    -> (text: String)
    ensures
        text@ == static_type_text(metadata@, *general, getter@),
{
    let mut out = String::new();
    push_enum_guard(&mut out, metadata, general);
    out.append("impl StaticType for ");
    out.append(metadata.name.as_str());
    out.append(" {\n    fn static_type() -> Type {\n        unsafe { from_glib(sys::");
    out.append(getter);
    out.append("()) }\n    }\n}\n");
    out
}

/// Reading a value of the type out of a dynamically typed value.
pub fn value_read_impl(metadata: &EnumerationMetadata, general: &GeneratorConfig) -> (text: String)
    ensures
        text@ == value_read_text(metadata@, *general),
{
    let mut out = String::new();
    push_enum_guard(&mut out, metadata, general);
    out.append("impl<'a> FromValueOptional<'a> for ");
    out.append(metadata.name.as_str());
    out.append(
        " {\n    unsafe fn from_value_optional(value: &Value) -> Option<Self> {\n        Some(FromValue::from_value(value))\n    }\n}\n\n",
    );
    push_enum_guard(&mut out, metadata, general);
    out.append("impl<'a> FromValue<'a> for ");
    out.append(metadata.name.as_str());
    out.append(
        " {\n    unsafe fn from_value(value: &Value) -> Self {\n        from_glib(gobject_sys::g_value_get_enum(value.to_glib_none().0))\n    }\n}\n",
    );
    out
}

/// Writing a value of the type into a dynamically typed value.
pub fn value_write_impl(metadata: &EnumerationMetadata, general: &GeneratorConfig) -> (text:
    String)
    ensures
        text@ == value_write_text(metadata@, *general),
{
    let mut out = String::new();
    push_enum_guard(&mut out, metadata, general);
    out.append("impl SetValue for ");
    out.append(metadata.name.as_str());
    out.append(
        " {\n    unsafe fn set_value(value: &mut Value, this: &Self) {\n        gobject_sys::g_value_set_enum(value.to_glib_none_mut().0, this.to_glib())\n    }\n}\n",
    );
    out
}

} // verus!

use enum_codegen::emit::{
    display_impl, error_domain_impl, from_native_impl, static_type_impl, to_native_impl,
    type_definition, value_read_impl, value_write_impl,
};
use enum_codegen::enumeration::{enum_blocks, generate_enum, BlockKind};
use enum_codegen::model::{
    CanonicalVariant, EnumOptions, EnumerationMetadata, GeneratorConfig, MemberRule, NativeMember,
};
use enum_codegen::version::Version;

fn version(major: u16, minor: u16) -> Version {
    Version { major, minor, patch: 0 }
}

fn general() -> GeneratorConfig {
    GeneratorConfig { min_cfg_version: version(3, 0), generate_safety_asserts: false }
}

fn asserting() -> GeneratorConfig {
    GeneratorConfig { min_cfg_version: version(3, 0), generate_safety_asserts: true }
}

fn options() -> EnumOptions {
    EnumOptions { members: vec![], must_use: false, derives: None, generate_display_trait: false }
}

fn member(name: &str, identifier: &str, value: i32) -> NativeMember {
    NativeMember {
        name: name.to_string(),
        native_identifier: identifier.to_string(),
        native_value: value,
    }
}

fn status() -> EnumerationMetadata {
    EnumerationMetadata {
        name: "Status".to_string(),
        native_type_name: "NativeStatus".to_string(),
        members: vec![
            member("ok", "NATIVE_STATUS_OK", 0),
            member("fail", "NATIVE_STATUS_FAIL", -1),
        ],
        version: None,
        deprecated_version: None,
        functions: vec![],
        error_domain: None,
        dynamic_type_getter: None,
    }
}

fn variants() -> Vec<CanonicalVariant> {
    vec![
        CanonicalVariant {
            name: "Ok".to_string(),
            native_identifier: "NATIVE_STATUS_OK".to_string(),
            native_value: 0,
            version: None,
            deprecated_version: None,
        },
        CanonicalVariant {
            name: "Fail".to_string(),
            native_identifier: "NATIVE_STATUS_FAIL".to_string(),
            native_value: -1,
            version: Some(version(3, 8)),
            deprecated_version: Some(version(3, 20)),
        },
    ]
}

fn kinds(metadata: &EnumerationMetadata, options: &EnumOptions) -> Vec<BlockKind> {
    enum_blocks(metadata, options, &general()).iter().map(|b| b.kind).collect()
}

#[test]
fn type_definition_has_a_variant_for_each_and_the_catch_all() {
    let text = type_definition(&status(), &variants(), &options(), &general());
    assert_eq!(
        text,
        "#[derive(Debug, Eq, PartialEq, Ord, PartialOrd, Hash)]\n\
         #[derive(Clone, Copy)]\n\
         pub enum Status {\n\
         \tOk,\n\
         \t#[cfg_attr(feature = \"v3_20\", deprecated)]\n\
         \t#[cfg(feature = \"v3_8\")]\n\
         \tFail,\n\
         \x20   #[doc(hidden)]\n\
         \x20   __Unknown(i32),\n\
         }\n"
    );
}

#[test]
fn type_definition_without_variants_still_has_the_catch_all() {
    let text = type_definition(&status(), &vec![], &options(), &general());
    assert_eq!(
        text,
        "#[derive(Debug, Eq, PartialEq, Ord, PartialOrd, Hash)]\n\
         #[derive(Clone, Copy)]\n\
         pub enum Status {\n\
         \x20   #[doc(hidden)]\n\
         \x20   __Unknown(i32),\n\
         }\n"
    );
}

#[test]
fn type_definition_with_must_use_and_own_derives() {
    let asked = EnumOptions {
        members: vec![],
        must_use: true,
        derives: Some("Debug, PartialEq".to_string()),
        generate_display_trait: false,
    };
    let text = type_definition(&status(), &vec![], &asked, &general());
    assert_eq!(
        text,
        "#[must_use]\n\
         #[derive(Debug, PartialEq)]\n\
         #[derive(Clone, Copy)]\n\
         pub enum Status {\n\
         \x20   #[doc(hidden)]\n\
         \x20   __Unknown(i32),\n\
         }\n"
    );
}

#[test]
fn member_deprecation_guards_its_arm_whatever_the_enumeration_has() {
    let mut deprecated_enum = status();
    deprecated_enum.deprecated_version = Some(version(3, 30));
    deprecated_enum.version = Some(version(3, 2));
    let arm = "\t#[cfg_attr(feature = \"v3_20\", deprecated)]\n\t#[cfg(feature = \"v3_8\")]\n\tFail,\n";
    let guarded = type_definition(&deprecated_enum, &variants(), &options(), &general());
    let plain = type_definition(&status(), &variants(), &options(), &general());
    assert!(guarded.contains(arm));
    assert!(plain.contains(arm));
    assert!(guarded.starts_with(
        "#[cfg_attr(feature = \"v3_30\", deprecated)]\n#[cfg(feature = \"v3_2\")]\n#[derive("
    ));
    assert_eq!(
        guarded,
        format!(
            "#[cfg_attr(feature = \"v3_30\", deprecated)]\n#[cfg(feature = \"v3_2\")]\n{}",
            plain
        )
    );
}

#[test]
fn member_deprecation_comes_from_its_rule() {
    let asked = EnumOptions {
        members: vec![MemberRule {
            name: "fail".to_string(),
            is_alias: false,
            is_ignored: false,
            version: None,
            deprecated_version: Some(version(2, 0)),
        }],
        must_use: false,
        derives: None,
        generate_display_trait: false,
    };
    let blocks = enum_blocks(&status(), &asked, &general());
    assert_eq!(blocks[0].kind, BlockKind::TypeDefinition);
    assert_eq!(
        blocks[0].text,
        "#[derive(Debug, Eq, PartialEq, Ord, PartialOrd, Hash)]\n\
         #[derive(Clone, Copy)]\n\
         pub enum Status {\n\
         \tOk,\n\
         \t#[deprecated]\n\
         \tFail,\n\
         \x20   #[doc(hidden)]\n\
         \x20   __Unknown(i32),\n\
         }\n"
    );
}

#[test]
fn display_text_of_the_type() {
    let text = display_impl(&status(), &variants(), &general());
    assert_eq!(
        text,
        "impl fmt::Display for Status {\n\
         \tfn fmt(&self, f: &mut fmt::Formatter) -> fmt::Result {\n\
         \t\twrite!(f, \"{}\", match *self {\n\
         \t\t\tStatus::Ok => \"Status::Ok\",\n\
         \t\t\t#[cfg_attr(feature = \"v3_20\", deprecated)]\n\
         \t\t\t#[cfg(feature = \"v3_8\")]\n\
         \t\t\tStatus::Fail => \"Status::Fail\",\n\
         \t\t\t_ => \"Unknown\",\n\
         \t\t})\n\
         \t}\n\
         }\n"
    );
}

#[test]
fn to_native_text_of_the_type() {
    let text = to_native_impl(&status(), &variants(), &general());
    assert_eq!(
        text,
        "#[doc(hidden)]\n\
         impl ToGlib for Status {\n\
         \x20   type GlibType = sys::NativeStatus;\n\
         \n\
         \x20   fn to_glib(&self) -> sys::NativeStatus {\n\
         \x20       match *self {\n\
         \t\t\tStatus::Ok => sys::NATIVE_STATUS_OK,\n\
         \t\t\t#[cfg_attr(feature = \"v3_20\", deprecated)]\n\
         \t\t\t#[cfg(feature = \"v3_8\")]\n\
         \t\t\tStatus::Fail => sys::NATIVE_STATUS_FAIL,\n\
         \t\t\tStatus::__Unknown(value) => value\n\
         \x20       }\n\
         \x20   }\n\
         }\n"
    );
}

#[test]
fn from_native_text_of_the_type() {
    let text = from_native_impl(&status(), &variants(), &general());
    assert_eq!(
        text,
        "#[doc(hidden)]\n\
         impl FromGlib<sys::NativeStatus> for Status {\n\
         \x20   fn from_glib(value: sys::NativeStatus) -> Self {\n\
         \x20       match value {\n\
         \t\t\t0 => Status::Ok,\n\
         \t\t\t#[cfg_attr(feature = \"v3_20\", deprecated)]\n\
         \t\t\t#[cfg(feature = \"v3_8\")]\n\
         \t\t\t-1 => Status::Fail,\n\
         \t\t\tvalue => Status::__Unknown(value),\n\
         \x20       }\n\
         \x20   }\n\
         }\n"
    );
}

#[test]
fn from_native_text_with_safety_assert() {
    let text = from_native_impl(&status(), &vec![], &asserting());
    assert_eq!(
        text,
        "#[doc(hidden)]\n\
         impl FromGlib<sys::NativeStatus> for Status {\n\
         \x20   fn from_glib(value: sys::NativeStatus) -> Self {\n\
         \x20       skip_assert_initialized!();\n\
         \t\tmatch value {\n\
         \t\t\tvalue => Status::__Unknown(value),\n\
         \x20       }\n\
         \x20   }\n\
         }\n"
    );
}

#[test]
fn error_domain_text_falls_back_to_the_catch_all() {
    let text = error_domain_impl(&status(), &variants(), &general(), "status-error-quark");
    assert_eq!(
        text,
        "impl ErrorDomain for Status {\n\
         \x20   fn domain() -> Quark {\n\
         \x20       unsafe { from_glib(sys::status_error_quark()) }\n\
         \x20   }\n\
         \n\
         \x20   fn code(self) -> i32 {\n\
         \x20       self.to_glib()\n\
         \x20   }\n\
         \n\
         \x20   fn from(code: i32) -> Option<Self> {\n\
         \x20       match code {\n\
         \t\t\t0 => Some(Status::Ok),\n\
         \t\t\t#[cfg_attr(feature = \"v3_20\", deprecated)]\n\
         \t\t\t#[cfg(feature = \"v3_8\")]\n\
         \t\t\t-1 => Some(Status::Fail),\n\
         \t\t\tvalue => Some(Status::__Unknown(value)),\n\
         \x20       }\n\
         \x20   }\n\
         }\n"
    );
}

#[test]
fn error_domain_text_falls_back_to_failed() {
    let mut with_failed = variants();
    with_failed[1].name = "Failed".to_string();
    with_failed[1].version = None;
    with_failed[1].deprecated_version = None;
    let text = error_domain_impl(&status(), &with_failed, &asserting(), "status_quark");
    assert_eq!(
        text,
        "impl ErrorDomain for Status {\n\
         \x20   fn domain() -> Quark {\n\
         \x20       skip_assert_initialized!();\n\
         \t\tunsafe { from_glib(sys::status_quark()) }\n\
         \x20   }\n\
         \n\
         \x20   fn code(self) -> i32 {\n\
         \x20       self.to_glib()\n\
         \x20   }\n\
         \n\
         \x20   fn from(code: i32) -> Option<Self> {\n\
         \x20       skip_assert_initialized!();\n\
         \t\tmatch code {\n\
         \t\t\t0 => Some(Status::Ok),\n\
         \t\t\t-1 => Some(Status::Failed),\n\
         \t\t\t_ => Some(Status::Failed),\n\
         \x20       }\n\
         \x20   }\n\
         }\n"
    );
}

#[test]
fn dynamic_type_texts_of_the_type() {
    let mut versioned = status();
    versioned.version = Some(version(3, 4));
    assert_eq!(
        static_type_impl(&versioned, &general(), "status_get_type"),
        "#[cfg(feature = \"v3_4\")]\n\
         impl StaticType for Status {\n\
         \x20   fn static_type() -> Type {\n\
         \x20       unsafe { from_glib(sys::status_get_type()) }\n\
         \x20   }\n\
         }\n"
    );
    assert_eq!(
        value_read_impl(&versioned, &general()),
        "#[cfg(feature = \"v3_4\")]\n\
         impl<'a> FromValueOptional<'a> for Status {\n\
         \x20   unsafe fn from_value_optional(value: &Value) -> Option<Self> {\n\
         \x20       Some(FromValue::from_value(value))\n\
         \x20   }\n\
         }\n\
         \n\
         #[cfg(feature = \"v3_4\")]\n\
         impl<'a> FromValue<'a> for Status {\n\
         \x20   unsafe fn from_value(value: &Value) -> Self {\n\
         \x20       from_glib(gobject_sys::g_value_get_enum(value.to_glib_none().0))\n\
         \x20   }\n\
         }\n"
    );
    assert_eq!(
        value_write_impl(&versioned, &general()),
        "#[cfg(feature = \"v3_4\")]\n\
         impl SetValue for Status {\n\
         \x20   unsafe fn set_value(value: &mut Value, this: &Self) {\n\
         \x20       gobject_sys::g_value_set_enum(value.to_glib_none_mut().0, this.to_glib())\n\
         \x20   }\n\
         }\n"
    );
}

#[test]
fn blocks_come_in_the_fixed_order() {
    let mut full = status();
    full.error_domain = Some("status-quark".to_string());
    full.dynamic_type_getter = Some("status_get_type".to_string());
    let shown = EnumOptions { generate_display_trait: true, ..options() };
    assert_eq!(
        kinds(&full, &shown),
        vec![
            BlockKind::TypeDefinition,
            BlockKind::Display,
            BlockKind::ToNative,
            BlockKind::FromNative,
            BlockKind::ErrorDomain,
            BlockKind::StaticType,
            BlockKind::ValueRead,
            BlockKind::ValueWrite,
        ]
    );
    assert_eq!(
        kinds(&status(), &options()),
        vec![BlockKind::TypeDefinition, BlockKind::ToNative, BlockKind::FromNative]
    );
}

#[test]
fn without_the_getter_only_the_three_dynamic_blocks_go() {
    let mut with_getter = status();
    with_getter.error_domain = Some("status-quark".to_string());
    with_getter.dynamic_type_getter = Some("status_get_type".to_string());
    let mut without_getter = with_getter.clone();
    without_getter.dynamic_type_getter = None;
    let shown = EnumOptions { generate_display_trait: true, ..options() };

    let with = enum_blocks(&with_getter, &shown, &general());
    let without = enum_blocks(&without_getter, &shown, &general());
    assert_eq!(with.len(), without.len() + 3);
    for (kept, before) in without.iter().zip(with.iter()) {
        assert_eq!(kept.kind, before.kind);
        assert_eq!(kept.text, before.text);
    }
    let gone: Vec<BlockKind> = with[without.len()..].iter().map(|b| b.kind).collect();
    assert_eq!(gone, vec![BlockKind::StaticType, BlockKind::ValueRead, BlockKind::ValueWrite]);
}

#[test]
fn enumeration_text_has_an_empty_line_behind_each_block() {
    let mut out = String::from("// start\n");
    generate_enum(&general(), &mut out, &status(), &options());
    let blocks = enum_blocks(&status(), &options(), &general());
    let mut expected = String::from("// start\n");
    for block in &blocks {
        expected.push_str(&block.text);
        expected.push('\n');
    }
    assert_eq!(out, expected);
    assert!(out.ends_with("}\n\n"));
    assert_eq!(
        out,
        "// start\n\
         #[derive(Debug, Eq, PartialEq, Ord, PartialOrd, Hash)]\n\
         #[derive(Clone, Copy)]\n\
         pub enum Status {\n\
         \tOk,\n\
         \tFail,\n\
         \x20   #[doc(hidden)]\n\
         \x20   __Unknown(i32),\n\
         }\n\
         \n\
         #[doc(hidden)]\n\
         impl ToGlib for Status {\n\
         \x20   type GlibType = sys::NativeStatus;\n\
         \n\
         \x20   fn to_glib(&self) -> sys::NativeStatus {\n\
         \x20       match *self {\n\
         \t\t\tStatus::Ok => sys::NATIVE_STATUS_OK,\n\
         \t\t\tStatus::Fail => sys::NATIVE_STATUS_FAIL,\n\
         \t\t\tStatus::__Unknown(value) => value\n\
         \x20       }\n\
         \x20   }\n\
         }\n\
         \n\
         #[doc(hidden)]\n\
         impl FromGlib<sys::NativeStatus> for Status {\n\
         \x20   fn from_glib(value: sys::NativeStatus) -> Self {\n\
         \x20       match value {\n\
         \t\t\t0 => Status::Ok,\n\
         \t\t\t-1 => Status::Fail,\n\
         \t\t\tvalue => Status::__Unknown(value),\n\
         \x20       }\n\
         \x20   }\n\
         }\n\
         \n"
    );
}

#[test]
fn status_scenario_emits_the_catch_all_as_fallback() {
    let metadata = EnumerationMetadata {
        name: "Status".to_string(),
        native_type_name: "NativeStatus".to_string(),
        members: vec![
            member("Ok", "STATUS_OK", 0),
            member("Fail", "STATUS_FAIL", 1),
            member("FailAlias", "STATUS_FAIL_ALIAS", 1),
        ],
        version: None,
        deprecated_version: None,
        functions: vec![],
        error_domain: Some("status_quark".to_string()),
        dynamic_type_getter: None,
    };
    let asked = EnumOptions {
        members: vec![MemberRule {
            name: "FailAlias".to_string(),
            is_alias: true,
            is_ignored: false,
            version: None,
            deprecated_version: None,
        }],
        must_use: false,
        derives: None,
        generate_display_trait: false,
    };
    let blocks = enum_blocks(&metadata, &asked, &general());
    let kinds: Vec<BlockKind> = blocks.iter().map(|b| b.kind).collect();
    assert_eq!(
        kinds,
        vec![
            BlockKind::TypeDefinition,
            BlockKind::ToNative,
            BlockKind::FromNative,
            BlockKind::ErrorDomain,
        ]
    );
    assert!(blocks[0].text.contains("pub enum Status {\n\tOk,\n\tFail,\n    #[doc(hidden)]\n"));
    assert!(!blocks[0].text.contains("FailAlias"));
    assert!(blocks[1].text.contains("\t\t\tStatus::Ok => sys::STATUS_OK,\n\t\t\tStatus::Fail => sys::STATUS_FAIL,\n"));
    assert!(blocks[2].text.contains("\t\t\t0 => Status::Ok,\n\t\t\t1 => Status::Fail,\n\t\t\tvalue => Status::__Unknown(value),\n"));
    assert!(blocks[3].text.contains("from_glib(sys::status_quark())"));
    assert!(blocks[3].text.contains(
        "\t\t\t0 => Some(Status::Ok),\n\t\t\t1 => Some(Status::Fail),\n\t\t\tvalue => Some(Status::__Unknown(value)),\n"
    ));
    assert!(!blocks[3].text.contains("_ => Some(Status::Failed)"));
}

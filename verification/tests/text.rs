use enum_codegen::naming::enum_member_name;
use enum_codegen::text::{push_decimal, push_signed_decimal, push_tabs, push_underscored};
use enum_codegen::version::{
    cfg_deprecated, push_guard, version_condition, version_condition_string, Version,
};

fn version(major: u16, minor: u16, patch: u16) -> Version {
    Version { major, minor, patch }
}

#[test]
fn tabs_are_appended_behind_what_is_there() {
    let mut out = String::from("x");
    push_tabs(&mut out, 3);
    assert_eq!(out, "x\t\t\t");
    push_tabs(&mut out, 0);
    assert_eq!(out, "x\t\t\t");
}

#[test]
fn decimal_of_small_and_large_numbers() {
    let mut out = String::new();
    push_decimal(&mut out, 0);
    out.push(' ');
    push_decimal(&mut out, 7);
    out.push(' ');
    push_decimal(&mut out, 10);
    out.push(' ');
    push_decimal(&mut out, 1905);
    out.push(' ');
    push_decimal(&mut out, u32::MAX);
    assert_eq!(out, "0 7 10 1905 4294967295");
}

#[test]
fn signed_decimal_of_the_ends_of_the_range() {
    let mut out = String::new();
    push_signed_decimal(&mut out, i32::MIN);
    out.push(' ');
    push_signed_decimal(&mut out, -1);
    out.push(' ');
    push_signed_decimal(&mut out, 0);
    out.push(' ');
    push_signed_decimal(&mut out, i32::MAX);
    assert_eq!(out, "-2147483648 -1 0 2147483647");
}

#[test]
fn hyphens_become_underscores() {
    let mut out = String::from("sys::");
    push_underscored(&mut out, "g-io-error-quark");
    assert_eq!(out, "sys::g_io_error_quark");
    let mut plain = String::new();
    push_underscored(&mut plain, "status_quark");
    assert_eq!(plain, "status_quark");
}

#[test]
fn member_names_are_camel_case() {
    assert_eq!(enum_member_name("ok"), "Ok");
    assert_eq!(enum_member_name("not_found"), "NotFound");
    assert_eq!(enum_member_name("failed"), "Failed");
    assert_eq!(enum_member_name("FailAlias"), "FailAlias");
    assert_eq!(enum_member_name("a__b_"), "AB");
    assert_eq!(enum_member_name("x11_window"), "X11Window");
}

#[test]
fn member_names_start_with_a_letter_or_an_underscore() {
    assert_eq!(enum_member_name("2d"), "_2d");
    assert_eq!(enum_member_name("_private"), "_Private");
    assert_eq!(enum_member_name(""), "_");
    assert_eq!(enum_member_name("3_way_split"), "_3WaySplit");
}

#[test]
fn versions_are_ordered_by_major_minor_patch() {
    assert!(version(3, 10, 0).is_newer_than(&version(3, 8, 5)));
    assert!(version(4, 0, 0).is_newer_than(&version(3, 99, 99)));
    assert!(version(3, 10, 1).is_newer_than(&version(3, 10, 0)));
    assert!(!version(3, 10, 0).is_newer_than(&version(3, 10, 0)));
    assert!(!version(2, 50, 0).is_newer_than(&version(3, 0, 0)));
    assert!(!version(3, 1, 9).is_newer_than(&version(3, 2, 0)));
}

#[test]
fn feature_names_leave_out_a_zero_patch() {
    let mut out = String::new();
    version(3, 10, 0).push_feature(&mut out);
    out.push(' ');
    version(3, 10, 2).push_feature(&mut out);
    out.push(' ');
    version(0, 0, 0).push_feature(&mut out);
    assert_eq!(out, "v3_10 v3_10_2 v0_0");
}

#[test]
fn version_condition_only_for_later_versions() {
    let min = version(3, 4, 0);
    assert_eq!(
        version_condition_string(Some(version(3, 10, 0)), &min, 0),
        Some(String::from("#[cfg(feature = \"v3_10\")]"))
    );
    assert_eq!(
        version_condition_string(Some(version(3, 10, 2)), &min, 2),
        Some(String::from("\t\t#[cfg(feature = \"v3_10_2\")]"))
    );
    assert_eq!(version_condition_string(Some(version(3, 4, 0)), &min, 0), None);
    assert_eq!(version_condition_string(Some(version(2, 0, 0)), &min, 0), None);
    assert_eq!(version_condition_string(None, &min, 0), None);
}

#[test]
fn version_condition_is_a_line_or_nothing() {
    let min = version(3, 4, 0);
    let mut out = String::from("a\n");
    version_condition(&mut out, Some(version(3, 6, 0)), &min, 1);
    assert_eq!(out, "a\n\t#[cfg(feature = \"v3_6\")]\n");
    version_condition(&mut out, None, &min, 1);
    version_condition(&mut out, Some(version(3, 4, 0)), &min, 1);
    assert_eq!(out, "a\n\t#[cfg(feature = \"v3_6\")]\n");
}

#[test]
fn deprecation_is_plain_where_every_build_has_it() {
    let min = version(3, 4, 0);
    let mut out = String::new();
    cfg_deprecated(&mut out, Some(version(3, 2, 0)), &min, 0);
    assert_eq!(out, "#[deprecated]\n");
    let mut same = String::new();
    cfg_deprecated(&mut same, Some(version(3, 4, 0)), &min, 3);
    assert_eq!(same, "\t\t\t#[deprecated]\n");
}

#[test]
fn deprecation_is_conditional_for_later_versions() {
    let min = version(3, 4, 0);
    let mut out = String::new();
    cfg_deprecated(&mut out, Some(version(3, 12, 0)), &min, 1);
    assert_eq!(out, "\t#[cfg_attr(feature = \"v3_12\", deprecated)]\n");
    let mut none = String::new();
    cfg_deprecated(&mut none, None, &min, 1);
    assert_eq!(none, "");
}

#[test]
fn guard_puts_deprecation_before_version() {
    let min = version(3, 0, 0);
    let mut out = String::new();
    push_guard(&mut out, Some(version(3, 12, 0)), Some(version(3, 6, 0)), &min, 1);
    assert_eq!(
        out,
        "\t#[cfg_attr(feature = \"v3_12\", deprecated)]\n\t#[cfg(feature = \"v3_6\")]\n"
    );
}

//! Releases of the native library, and the attributes that tie an emitted
//! item to one of them.

use vstd::prelude::*;
use vstd::string::StringExecFns;

use crate::text::{decimal, push_decimal, push_tabs, tabs};

verus! {

/// A release of the native library.
#[derive(Clone, Copy, Debug, PartialEq, Eq, Structural)]
pub struct Version {
    pub major: u16,
    pub minor: u16,
    pub patch: u16,
}

impl Version {
    /// Whether `self` was released after `other`.
    pub open spec fn newer_than(self, other: Version) -> bool {
        ||| self.major > other.major
        ||| self.major == other.major && self.minor > other.minor
        ||| self.major == other.major && self.minor == other.minor && self.patch > other.patch
    }

    /// Whether `self` was released after `other`.
    pub fn is_newer_than(&self, other: &Version) -> (newer: bool)
        ensures
            newer == self.newer_than(*other),
    {
        self.major > other.major || (self.major == other.major && (self.minor > other.minor || (
        self.minor == other.minor && self.patch > other.patch)))
    }

    /// The name of the crate feature that stands for this release: `v3_10`,
    /// or `v3_10_2` where the patch number is not zero.
    pub open spec fn feature(self) -> Seq<char> {
        "v"@ + decimal(self.major as nat) + "_"@ + decimal(self.minor as nat) + if self.patch
            == 0 {
            Seq::<char>::empty()
        } else {
            "_"@ + decimal(self.patch as nat)
        }
    }

    /// Appends the feature name of this release to `out`.
    pub fn push_feature(&self, out: &mut String)
        ensures
            final(out)@ == old(out)@ + self.feature(),
    {
        out.append("v");
        push_decimal(out, self.major as u32);
        out.append("_");
        push_decimal(out, self.minor as u32);
        if self.patch != 0 {
            out.append("_");
            push_decimal(out, self.patch as u32);
        }
    }
}

/// The attribute that limits an item to builds for `version` or later, at
/// `indent` tabs: none where the item has no version, or where every build
/// is for `min` or later anyway.
pub open spec fn version_condition_text(version: Option<Version>, min: Version, indent: nat)
    -> Option<Seq<char>> {
    match version {
        Some(v) => if v.newer_than(min) {
            Some(tabs(indent) + "#[cfg(feature = \""@ + v.feature() + "\")]"@)
        } else {
            None
        },
        None => None,
    }
}

/// What `version_condition` appends: the attribute on a line of its own, or
/// nothing.
pub open spec fn version_condition_line(version: Option<Version>, min: Version, indent: nat)
    -> Seq<char> {
    match version_condition_text(version, min, indent) {
        Some(text) => text + "\n"@,
        None => Seq::<char>::empty(),
    }
}

/// What `cfg_deprecated` appends: nothing for an item that is not deprecated,
/// a plain `#[deprecated]` where every build is for the deprecating release
/// or a later one, and else a deprecation under the feature of that release.
pub open spec fn cfg_deprecated_line(deprecated: Option<Version>, min: Version, indent: nat)
    -> Seq<char> {
    match deprecated {
        Some(v) => if v.newer_than(min) {
            tabs(indent) + "#[cfg_attr(feature = \""@ + v.feature() + "\", deprecated)]\n"@
        } else {
            tabs(indent) + "#[deprecated]\n"@
        },
        None => Seq::<char>::empty(),
    }
}

/// The version attribute of an item, without a line end.
pub fn version_condition_string(version: Option<Version>, min: &Version, indent: usize) -> (text:
    Option<String>)
    ensures
        match text {
            Some(t) => version_condition_text(version, *min, indent as nat) == Some(t@),
            None => version_condition_text(version, *min, indent as nat) is None,
        },
{
    match version {
        Some(v) => {
            if v.is_newer_than(min) {
                let mut out = String::new();
                push_tabs(&mut out, indent);
                out.append("#[cfg(feature = \"");
                v.push_feature(&mut out);
                out.append("\")]");
                Some(out)
            } else {
                None
            }
        },
        None => None,
    }
}

/// Appends the version attribute of an item to `out`, on a line of its own.
pub fn version_condition(out: &mut String, version: Option<Version>, min: &Version, indent: usize)
    ensures
        final(out)@ == old(out)@ + version_condition_line(version, *min, indent as nat),
{
    if let Some(text) = version_condition_string(version, min, indent) {
        out.append(text.as_str());
        out.append("\n");
    }
}

/// Appends the deprecation attribute of an item to `out`, on a line of its
/// own.
pub fn cfg_deprecated(out: &mut String, deprecated: Option<Version>, min: &Version, indent: usize)
    ensures
        final(out)@ == old(out)@ + cfg_deprecated_line(deprecated, *min, indent as nat),
{
    match deprecated {
        Some(v) => {
            push_tabs(out, indent);
            if v.is_newer_than(min) {
                out.append("#[cfg_attr(feature = \"");
                v.push_feature(out);
                out.append("\", deprecated)]\n");
            } else {
                out.append("#[deprecated]\n");
            }
        },
        None => {},
    }
}

/// The two attributes that guard an item, deprecation first.
pub open spec fn guard_lines(
    deprecated: Option<Version>,
    version: Option<Version>,
    min: Version,
    indent: nat,
) -> Seq<char> {
    cfg_deprecated_line(deprecated, min, indent) + version_condition_line(version, min, indent)
}

/// Appends the two attributes that guard an item to `out`.
pub fn push_guard(
    out: &mut String,
    deprecated: Option<Version>,
    version: Option<Version>,
    min: &Version,
    indent: usize,
)
    ensures
        final(out)@ == old(out)@ + guard_lines(deprecated, version, *min, indent as nat),
{
    cfg_deprecated(out, deprecated, min, indent);
    version_condition(out, version, min, indent);
}

} // verus!

//! Shell families: the closed set of penetration models, and the rule that
//! assigns a normalised shell-type tag to one of them.

use vstd::prelude::*;
use crate::text::{chars_of, same_chars};

verus! {

/// The penetration model that applies to a shell.
#[derive(Clone, Copy, Debug, PartialEq, Eq, Structural)]
pub enum ShellFamily {
    /// Guided or rocket-propelled: no table is produced at all.
    Skip,
    /// Solid or capped kinetic round.
    Ap,
    /// Kinetic round with an explosive filler; pays the filler penalty.
    Aphe,
    /// Composite-core kinetic round.
    SubCaliber,
    /// Fin-stabilised sabot; penetration is read from a supplied curve.
    FinStabilized,
    /// Anything else; penetration is zero.
    Other,
}

/// Tags for which no output is ever produced.
pub open spec fn is_skip_tag(tag: Seq<char>) -> bool {
    tag == "sam"@ || tag == "atgm"@ || tag == "rocket"@ || tag == "aam"@
}

/// Kinetic tags that carry an explosive filler.
pub open spec fn is_aphe_tag(tag: Seq<char>) -> bool {
    tag == "aphe"@ || tag == "aphebc"@ || tag == "ac"@ || tag == "sapcbc"@ || tag == "sap"@
        || tag == "sapi"@
}

/// Kinetic tags, with or without filler.
pub open spec fn is_ap_tag(tag: Seq<char>) -> bool {
    is_aphe_tag(tag) || tag == "i"@ || tag == "t"@ || tag == "ap"@ || tag == "apc"@ || tag
        == "apbc"@ || tag == "apcbc"@
}

pub open spec fn is_sub_caliber_tag(tag: Seq<char>) -> bool {
    tag == "apcr"@ || tag == "apds"@
}

pub open spec fn is_fin_stabilized_tag(tag: Seq<char>) -> bool {
    tag == "apds_fs"@
}

/// The family of a tag; the first matching rule wins.
pub open spec fn family_of(tag: Seq<char>) -> ShellFamily {
    if is_skip_tag(tag) {
        ShellFamily::Skip
    } else if is_aphe_tag(tag) {
        ShellFamily::Aphe
    } else if is_ap_tag(tag) {
        ShellFamily::Ap
    } else if is_sub_caliber_tag(tag) {
        ShellFamily::SubCaliber
    } else if is_fin_stabilized_tag(tag) {
        ShellFamily::FinStabilized
    } else {
        ShellFamily::Other
    }
}

fn is_tag(tag: &Vec<char>, name: &str) -> (r: bool)
    ensures
        r == (tag@ == name@),
{
    let n = chars_of(name);
    same_chars(tag, &n)
}

/// Whether shells of this normalised type produce no output at all.
pub fn should_skip(normalized_type: &str) -> (r: bool)
    ensures
        r == is_skip_tag(normalized_type@),
        r == (family_of(normalized_type@) == ShellFamily::Skip),
{
    let tag = chars_of(normalized_type);
    is_tag(&tag, "sam") || is_tag(&tag, "atgm") || is_tag(&tag, "rocket") || is_tag(&tag, "aam")
}

/// Resolves a normalised shell-type tag to its family.
pub fn classify(normalized_type: &str) -> (r: ShellFamily)
    ensures
        r == family_of(normalized_type@),
{
    let tag = chars_of(normalized_type);
    if is_tag(&tag, "sam") || is_tag(&tag, "atgm") || is_tag(&tag, "rocket") || is_tag(
        &tag,
        "aam",
    ) {
        ShellFamily::Skip
    } else if is_tag(&tag, "aphe") || is_tag(&tag, "aphebc") || is_tag(&tag, "ac") || is_tag(
        &tag,
        "sapcbc",
    ) || is_tag(&tag, "sap") || is_tag(&tag, "sapi") {
        ShellFamily::Aphe
    } else if is_tag(&tag, "i") || is_tag(&tag, "t") || is_tag(&tag, "ap") || is_tag(&tag, "apc")
        || is_tag(&tag, "apbc") || is_tag(&tag, "apcbc") {
        ShellFamily::Ap
    } else if is_tag(&tag, "apcr") || is_tag(&tag, "apds") {
        ShellFamily::SubCaliber
    } else if is_tag(&tag, "apds_fs") {
        ShellFamily::FinStabilized
    } else {
        ShellFamily::Other
    }
}

} // verus!

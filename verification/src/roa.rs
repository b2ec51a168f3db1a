//! Routes of administration.
//!
//! The method by which a substance enters the body.  Route names parse
//! case-insensitively; unrecognized text maps to `Invalid`.
use vstd::prelude::*;

use crate::parse::{eq_ignore_ascii, seq_ieq};

verus! {

/// The documented routes of administration.
#[derive(Debug, Clone, Copy, PartialEq, Eq, PartialOrd, Ord, Structural)]
pub enum ROAs {
    Oral,
    Sublingual,
    Buccal,
    Insufflation,
    Inhalation,
    Smoked,
    Vaporised,
    Intravenous,
    Intramuscular,
    Subcutaneous,
    Rectal,
    Transdermal,
    Invalid,
}

impl Default for ROAs {
    fn default() -> (r: Self)
        ensures
            r == ROAs::Invalid,
    {
        ROAs::Invalid
    }
}

/// How `ROAs` parses: the recognized route names, ASCII-case-insensitive.
/// Insufflation is also accepted under a common misspelling seen in
/// older data.
pub open spec fn spec_parse_roa(s: Seq<char>) -> ROAs {
    if seq_ieq(s, "oral"@) {
        ROAs::Oral
    } else if seq_ieq(s, "sublingual"@) {
        ROAs::Sublingual
    } else if seq_ieq(s, "buccal"@) {
        ROAs::Buccal
    } else if seq_ieq(s, "insufflation"@) {
        ROAs::Insufflation
    } else if seq_ieq(s, "insuffilation"@) {
        ROAs::Insufflation
    } else if seq_ieq(s, "inhalation"@) {
        ROAs::Inhalation
    } else if seq_ieq(s, "smoked"@) {
        ROAs::Smoked
    } else if seq_ieq(s, "vaporised"@) {
        ROAs::Vaporised
    } else if seq_ieq(s, "intravenous"@) {
        ROAs::Intravenous
    } else if seq_ieq(s, "intramuscular"@) {
        ROAs::Intramuscular
    } else if seq_ieq(s, "subcutaneous"@) {
        ROAs::Subcutaneous
    } else if seq_ieq(s, "rectal"@) {
        ROAs::Rectal
    } else if seq_ieq(s, "transdermal"@) {
        ROAs::Transdermal
    } else {
        ROAs::Invalid
    }
}

impl From<String> for ROAs {
    fn from(s: String) -> (r: Self)
        ensures
            r == spec_parse_roa(s@),
    {
        if eq_ignore_ascii(s.as_str(), "oral") {
            ROAs::Oral
        } else if eq_ignore_ascii(s.as_str(), "sublingual") {
            ROAs::Sublingual
        } else if eq_ignore_ascii(s.as_str(), "buccal") {
            ROAs::Buccal
        } else if eq_ignore_ascii(s.as_str(), "insufflation") {
            ROAs::Insufflation
        } else if eq_ignore_ascii(s.as_str(), "insuffilation") {
            ROAs::Insufflation
        } else if eq_ignore_ascii(s.as_str(), "inhalation") {
            ROAs::Inhalation
        } else if eq_ignore_ascii(s.as_str(), "smoked") {
            ROAs::Smoked
        } else if eq_ignore_ascii(s.as_str(), "vaporised") {
            ROAs::Vaporised
        } else if eq_ignore_ascii(s.as_str(), "intravenous") {
            ROAs::Intravenous
        } else if eq_ignore_ascii(s.as_str(), "intramuscular") {
            ROAs::Intramuscular
        } else if eq_ignore_ascii(s.as_str(), "subcutaneous") {
            ROAs::Subcutaneous
        } else if eq_ignore_ascii(s.as_str(), "rectal") {
            ROAs::Rectal
        } else if eq_ignore_ascii(s.as_str(), "transdermal") {
            ROAs::Transdermal
        } else {
            ROAs::Invalid
        }
    }
}

impl vstd::std_specs::convert::FromSpecImpl<String> for ROAs {
    open spec fn obeys_from_spec() -> bool {
        true
    }

    open spec fn from_spec(s: String) -> Self {
        spec_parse_roa(s@)
    }
}

} // verus!

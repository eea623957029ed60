//! Workflow error definitions.

use vstd::prelude::*;

use crate::error::Report;
use crate::validation::{
    child,
    child_path,
    check_min_len,
    check_opt_min_len,
    check_seq,
    check_seq_min_len,
    check_url,
    min_len_vio,
    opt_min_len_vio,
    seq_min_len_vio,
    seq_vio,
    url_vio,
    Validated,
};

verus! {

/// Workflow error definitions: either a URI to a resource containing
/// them, or the definitions written inline.
#[derive(Clone, Debug)]
pub enum Errors {
    /// URI to a resource containing error definitions.
    Uri(String),
    /// Inline checked-error definitions.
    Inlined(Vec<ErrorDef>),
}

impl Validated for Errors {
    open spec fn violations(&self, path: Seq<char>) -> Seq<(Seq<char>, Seq<char>)> {
        match *self {
            Errors::Uri(s) => url_vio(path, s@),
            Errors::Inlined(defs) => seq_min_len_vio(path, defs@.len()) + seq_vio(path, defs@),
        }
    }

    fn validate_into(&self, path: &str, report: &mut Report) {
        match self {
            Errors::Uri(s) => {
                check_url(report, path.to_owned(), s.as_str());
            },
            Errors::Inlined(defs) => {
                check_seq_min_len(report, path.to_owned(), defs.len());
                check_seq(report, path, defs);
                proof {
                    assert(final(report)@ =~= old(report)@ + self.violations(path@));
                }
            },
        }
    }
}

/// A checked error that can be explicitly handled during workflow
/// execution.
#[derive(Clone, Debug)]
pub struct ErrorDef {
    /// Domain-specific error name.
    pub name: String,
    /// Error code, helping runtimes resolve to technical errors.
    pub code: Option<String>,
    /// Error description.
    pub description: Option<String>,
}

impl Validated for ErrorDef {
    open spec fn violations(&self, path: Seq<char>) -> Seq<(Seq<char>, Seq<char>)> {
        min_len_vio(child(path, "name"@), self.name@) + opt_min_len_vio(
            child(path, "code"@),
            self.code,
        )
    }

    fn validate_into(&self, path: &str, report: &mut Report) {
        check_min_len(report, child_path(path, "name"), self.name.as_str());
        check_opt_min_len(report, child_path(path, "code"), &self.code);
        proof {
            assert(final(report)@ =~= old(report)@ + self.violations(path@));
        }
    }
}

} // verus!

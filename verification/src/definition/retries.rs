//! Workflow retry definitions.

use vstd::prelude::*;

use crate::definition::common::NonNegativeNumber;
use crate::error::Report;
use crate::validation::{
    child,
    child_path,
    check_min_len,
    check_seq,
    check_seq_min_len,
    check_url,
    min_len_vio,
    seq_min_len_vio,
    seq_vio,
    url_vio,
    Validated,
};

verus! {

/// Workflow retry definitions: either a URI to a resource containing
/// them, or the definitions written inline.
#[derive(Clone, Debug)]
pub enum Retries {
    /// URI to a resource containing retry definitions.
    Uri(String),
    /// Inline retry definitions.
    Inline(Vec<RetryDef>),
}

impl Validated for Retries {
    open spec fn violations(&self, path: Seq<char>) -> Seq<(Seq<char>, Seq<char>)> {
        match *self {
            Retries::Uri(s) => url_vio(path, s@),
            Retries::Inline(defs) => seq_min_len_vio(path, defs@.len()) + seq_vio(path, defs@),
        }
    }

    fn validate_into(&self, path: &str, report: &mut Report) {
        match self {
            Retries::Uri(s) => {
                check_url(report, path.to_owned(), s.as_str());
            },
            Retries::Inline(defs) => {
                check_seq_min_len(report, path.to_owned(), defs.len());
                check_seq(report, path, defs);
                proof {
                    assert(final(report)@ =~= old(report)@ + self.violations(path@));
                }
            },
        }
    }
}

/// A retry strategy that state error-handling definitions can refer to.
///
/// The strategy's delay multiplier and jitter carry floating-point
/// values, which stay outside the verified library; a document may
/// still declare them, and they pass through the decoder unread.
#[derive(Clone, Debug)]
pub struct RetryDef {
    /// Unique retry strategy name.
    pub name: String,
    /// Time delay between retry attempts (ISO 8601 duration format).
    pub delay: Option<String>,
    /// Maximum time delay between retry attempts (ISO 8601 duration
    /// format).
    pub max_delay: Option<String>,
    /// Static value by which the delay increases during each attempt
    /// (ISO 8601 time format).
    pub increment: Option<String>,
    /// Maximum number of retry attempts.
    pub max_attempts: NonNegativeNumber,
}

impl Validated for RetryDef {
    open spec fn violations(&self, path: Seq<char>) -> Seq<(Seq<char>, Seq<char>)> {
        min_len_vio(child(path, "name"@), self.name@) + self.max_attempts.violations(
            child(path, "max_attempts"@),
        )
    }

    fn validate_into(&self, path: &str, report: &mut Report) {
        check_min_len(report, child_path(path, "name"), self.name.as_str());
        self.max_attempts.validate_into(child_path(path, "max_attempts").as_str(), report);
        proof {
            assert(final(report)@ =~= old(report)@ + self.violations(path@));
        }
    }
}

} // verus!

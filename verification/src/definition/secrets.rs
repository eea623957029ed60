//! Workflow secrets definitions.

use vstd::prelude::*;

use crate::error::Report;
use crate::uri::Uri;
use crate::validation::{check_seq_min_len, seq_min_len_vio, Validated};

verus! {

/// Workflow secrets definitions: either a URI to a resource containing
/// them, or the secret names written inline.
#[derive(Clone, Debug)]
pub enum Secrets {
    /// URI to a resource containing secrets definitions.
    Uri(Uri),
    /// Inline secret names.
    Inline(Vec<String>),
}

impl Validated for Secrets {
    open spec fn violations(&self, path: Seq<char>) -> Seq<(Seq<char>, Seq<char>)> {
        match *self {
            Secrets::Uri(u) => Seq::<(Seq<char>, Seq<char>)>::empty(),
            Secrets::Inline(names) => seq_min_len_vio(path, names@.len()),
        }
    }

    fn validate_into(&self, path: &str, report: &mut Report) {
        match self {
            Secrets::Uri(u) => {
                proof {
                    assert(report@ =~= report@ + self.violations(path@));
                }
            },
            Secrets::Inline(names) => {
                check_seq_min_len(report, path.to_owned(), names.len());
            },
        }
    }
}

} // verus!

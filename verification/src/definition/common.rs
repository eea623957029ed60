//! Common types used in workflow definitions.

use vstd::prelude::*;

use crate::error::{Error, Report};
use crate::json::pairs_to_map;
use crate::numbers::{parse_i64, parsed_i64, rendered_i64};
use crate::validation::{
    check_is_number,
    check_min_len,
    check_non_negative,
    min_len_vio,
    negative_vio,
    not_number_vio,
    Validated,
};

verus! {

/// Metadata information: custom properties attached to a definition.
#[derive(Clone, Debug)]
pub struct Metadata {
    /// Attached metadata, as name/value pairs in the underlying map's
    /// iteration order (key-sorted for the default map), with each name
    /// appearing at most once.
    pub meta: Vec<(String, String)>,
}

impl Metadata {
    /// Well-formedness: each property name appears at most once.
    pub open spec fn wf(self) -> bool {
        forall|i: int, j: int|
            0 <= i < j < self.meta@.len() ==> (#[trigger] self.meta@[i]).0@ != (
            #[trigger] self.meta@[j]).0@
    }

    /// The property map this metadata denotes.
    pub open spec fn map_view(self) -> Map<Seq<char>, Seq<char>> {
        pairs_to_map(self.meta@)
    }
}

/// A non-negative number, represented either as a number or as a string
/// that must contain a number.
#[derive(Clone, Debug)]
pub enum NonNegativeNumber {
    /// Number representation.
    Number(i64),
    /// String representation (that must actually contain a number).
    Text(String),
}

impl NonNegativeNumber {
    /// The numeric value this representation denotes, when it denotes one.
    pub open spec fn numeric_value(self) -> Option<int> {
        match self {
            NonNegativeNumber::Number(n) => Some(n as int),
            NonNegativeNumber::Text(s) => parsed_i64(s@),
        }
    }

    /// The textual rendering of this representation: the digits of the
    /// number, or the string itself.
    pub open spec fn rendered(self) -> Seq<char> {
        match self {
            NonNegativeNumber::Number(n) => rendered_i64(n as int),
            NonNegativeNumber::Text(s) => s@,
        }
    }

    /// Returns the numeric value if possible.
    ///
    /// A number representation always converts; a string representation
    /// converts exactly when it parses as an integer, and otherwise gives
    /// an [`Error::InvalidInt`] carrying the string.
    pub fn value(&self) -> (r: Result<i64, Error>)
        ensures
            match r {
                Ok(v) => self.numeric_value() == Some(v as int),
                Err(e) => self.numeric_value() is None && (e matches Error::InvalidInt { text }
                    && text@ == self.rendered()),
            },
    {
        match self {
            NonNegativeNumber::Number(n) => Ok(*n),
            NonNegativeNumber::Text(s) => match parse_i64(s.as_str()) {
                Some(v) => Ok(v),
                None => Err(Error::InvalidInt { text: s.clone() }),
            },
        }
    }
}

impl Validated for Metadata {
    open spec fn violations(&self, path: Seq<char>) -> Seq<(Seq<char>, Seq<char>)> {
        Seq::<(Seq<char>, Seq<char>)>::empty()
    }

    fn validate_into(&self, path: &str, report: &mut Report) {
        proof {
            assert(report@ =~= report@ + self.violations(path@));
        }
    }
}

impl Validated for NonNegativeNumber {
    open spec fn violations(&self, path: Seq<char>) -> Seq<(Seq<char>, Seq<char>)> {
        match *self {
            NonNegativeNumber::Number(n) => negative_vio(path, n as int),
            NonNegativeNumber::Text(s) => min_len_vio(path, s@) + not_number_vio(path, s@),
        }
    }

    fn validate_into(&self, path: &str, report: &mut Report) {
        match self {
            NonNegativeNumber::Number(n) => {
                check_non_negative(report, path.to_owned(), n);
            },
            NonNegativeNumber::Text(s) => {
                check_min_len(report, path.to_owned(), s.as_str());
                check_is_number(report, path.to_owned(), s.as_str());
                proof {
                    assert(final(report)@ =~= old(report)@ + self.violations(path@));
                }
            },
        }
    }
}

/// Simple wrapper for a non-negative number.
///
/// Used to carry values recovered from valid [`NonNegativeNumber`]s.
#[derive(Clone, Copy, Debug, PartialEq, Eq, Structural)]
pub struct ValidatedNonNegativeNumber<T>(pub T);

impl<T: Copy> ValidatedNonNegativeNumber<T> {
    /// The wrapped value.
    pub fn value(&self) -> (r: T)
        ensures
            r == self.0,
    {
        self.0
    }
}

/// Possible execution modes for actions or workflows.
#[derive(Clone, Copy, Debug, PartialEq, Eq, Structural)]
pub enum ExecutionMode {
    /// Sequential execution.
    Sequential,
    /// Parallel execution.
    Parallel,
}

/// Possible invocation modes for actions or functions.
#[derive(Clone, Copy, Debug, PartialEq, Eq, Structural)]
pub enum InvocationMode {
    /// Synchronous invocation.
    Sync,
    /// Asynchronous invocation.
    Async,
}

} // verus!

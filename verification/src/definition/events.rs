//! Workflow event definitions.

use vstd::prelude::*;

use crate::definition::common::Metadata;
use crate::error::Report;
use crate::validation::{
    child,
    child_path,
    check_consumed_source,
    check_min_len,
    check_opt_min_len,
    check_opt_seq_with_len,
    check_option,
    check_seq_min_len,
    check_url,
    consumed_source_vio,
    min_len_vio,
    option_vio,
    opt_min_len_vio,
    opt_seq_with_len_vio,
    seq_min_len_vio,
    url_vio,
    Validated,
};

verus! {

/// Workflow event definitions: either a URI to a resource containing
/// them, or the definitions written inline.
#[derive(Clone, Debug)]
pub enum Events {
    /// URI to a resource containing event definitions.
    Uri(String),
    /// Inline event definitions.
    Inline(Vec<EventDef>),
}

/// Event definition.
#[derive(Clone, Debug)]
pub struct EventDef {
    /// Unique event name.
    pub name: String,
    /// Event source; mandatory for consumed events.
    pub source: Option<String>,
    /// Event type.
    pub event_type: String,
    /// Whether the event is consumed or produced by the workflow.
    pub kind: EventKind,
    /// Event correlation definitions.
    pub correlation: Option<Vec<CorrelationDef>>,
    /// If `true`, only the event payload is accessible to consuming
    /// workflow states; if `false`, context attributes are accessible too.
    pub data_only: bool,
    /// Metadata information.
    pub metadata: Option<Metadata>,
}

impl Validated for Events {
    open spec fn violations(&self, path: Seq<char>) -> Seq<(Seq<char>, Seq<char>)> {
        match *self {
            Events::Uri(s) => url_vio(path, s@),
            Events::Inline(defs) => seq_min_len_vio(path, defs@.len()),
        }
    }

    fn validate_into(&self, path: &str, report: &mut Report) {
        match self {
            Events::Uri(s) => {
                check_url(report, path.to_owned(), s.as_str());
            },
            Events::Inline(defs) => {
                check_seq_min_len(report, path.to_owned(), defs.len());
            },
        }
    }
}

impl Validated for EventDef {
    open spec fn violations(&self, path: Seq<char>) -> Seq<(Seq<char>, Seq<char>)> {
        min_len_vio(child(path, "name"@), self.name@) + consumed_source_vio(
            child(path, "source"@),
            self.kind,
            self.source is Some,
        ) + opt_seq_with_len_vio(child(path, "correlation"@), self.correlation)
            + option_vio(child(path, "metadata"@), self.metadata)
    }

    fn validate_into(&self, path: &str, report: &mut Report) {
        check_min_len(report, child_path(path, "name"), self.name.as_str());
        check_consumed_source(report, child_path(path, "source"), self.kind, &self.source);
        check_opt_seq_with_len(report, child_path(path, "correlation"), &self.correlation);
        check_option(report, child_path(path, "metadata"), &self.metadata);
        proof {
            assert(final(report)@ =~= old(report)@ + self.violations(path@));
        }
    }
}

/// Event kind.
#[derive(Clone, Copy, Debug, PartialEq, Eq, Structural)]
pub enum EventKind {
    /// The event is consumed by the workflow.
    Consumed,
    /// The event is produced by the workflow.
    Produced,
}

/// Event correlation definition.
#[derive(Clone, Debug)]
pub struct CorrelationDef {
    /// Extension context attribute name.
    pub context_attribute_name: String,
    /// Extension context attribute value.
    pub context_attribute_value: Option<String>,
}

impl Validated for CorrelationDef {
    open spec fn violations(&self, path: Seq<char>) -> Seq<(Seq<char>, Seq<char>)> {
        min_len_vio(child(path, "context_attribute_name"@), self.context_attribute_name@)
            + opt_min_len_vio(child(path, "context_attribute_value"@), self.context_attribute_value)
    }

    fn validate_into(&self, path: &str, report: &mut Report) {
        check_min_len(
            report,
            child_path(path, "context_attribute_name"),
            self.context_attribute_name.as_str(),
        );
        check_opt_min_len(
            report,
            child_path(path, "context_attribute_value"),
            &self.context_attribute_value,
        );
        proof {
            assert(final(report)@ =~= old(report)@ + self.violations(path@));
        }
    }
}

} // verus!

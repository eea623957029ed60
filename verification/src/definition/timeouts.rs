//! Workflow timeouts definitions.

use vstd::prelude::*;

use crate::error::Report;
use crate::validation::{
    child,
    child_path,
    check_min_len,
    check_opt_min_len,
    check_option,
    check_url,
    min_len_vio,
    option_vio,
    opt_min_len_vio,
    url_vio,
    Validated,
};

verus! {

/// Workflow default timeouts: either a URI to a resource containing
/// them, or the definitions written inline.
#[derive(Clone, Debug)]
pub enum Timeouts {
    /// URI to a resource containing timeouts definitions.
    Uri(String),
    /// Workflow default timeouts.
    Complex {
        /// Workflow execution timeouts.
        workflow_exec_timeout: Option<WorkflowExecTimeout>,
        /// State execution timeouts.
        state_exec_timeout: Option<StateExecTimeout>,
        /// Action execution timeouts.
        action_exec_timeout: Option<ActionExecTimeout>,
        /// Branch execution timeouts.
        branch_exec_timeout: Option<BranchExecTimeout>,
        /// Event timeouts.
        event_timeout: Option<EventTimeout>,
    },
}

impl Validated for Timeouts {
    open spec fn violations(&self, path: Seq<char>) -> Seq<(Seq<char>, Seq<char>)> {
        match *self {
            Timeouts::Uri(s) => url_vio(path, s@),
            Timeouts::Complex {
                workflow_exec_timeout,
                state_exec_timeout,
                action_exec_timeout,
                branch_exec_timeout,
                event_timeout,
            } => option_vio(child(path, "workflow_exec_timeout"@), workflow_exec_timeout)
                + option_vio(child(path, "state_exec_timeout"@), state_exec_timeout) + option_vio(
                child(path, "action_exec_timeout"@),
                action_exec_timeout,
            ) + option_vio(child(path, "branch_exec_timeout"@), branch_exec_timeout) + option_vio(
                child(path, "event_timeout"@),
                event_timeout,
            ),
        }
    }

    fn validate_into(&self, path: &str, report: &mut Report) {
        match self {
            Timeouts::Uri(s) => {
                check_url(report, path.to_owned(), s.as_str());
            },
            Timeouts::Complex {
                workflow_exec_timeout,
                state_exec_timeout,
                action_exec_timeout,
                branch_exec_timeout,
                event_timeout,
            } => {
                check_option(report, child_path(path, "workflow_exec_timeout"), workflow_exec_timeout);
                check_option(report, child_path(path, "state_exec_timeout"), state_exec_timeout);
                check_option(report, child_path(path, "action_exec_timeout"), action_exec_timeout);
                check_option(report, child_path(path, "branch_exec_timeout"), branch_exec_timeout);
                check_option(report, child_path(path, "event_timeout"), event_timeout);
                proof {
                    assert(final(report)@ =~= old(report)@ + self.violations(path@));
                }
            },
        }
    }
}

/// Workflow execution timeout.
#[derive(Clone, Debug)]
pub enum WorkflowExecTimeout {
    /// Workflow execution timeout duration (ISO 8601 duration format).
    Simple(String),
    /// Workflow execution timeouts.
    Complex {
        /// Workflow execution timeout duration (ISO 8601 duration format).
        duration: String,
        /// If `false`, the workflow instance is allowed to finish its
        /// current execution; if `true`, it is interrupted at once.
        interrupt: bool,
        /// Name of a workflow state to be executed before the workflow
        /// instance is terminated.
        run_before: Option<String>,
    },
}

impl Validated for WorkflowExecTimeout {
    open spec fn violations(&self, path: Seq<char>) -> Seq<(Seq<char>, Seq<char>)> {
        match *self {
            WorkflowExecTimeout::Simple(s) => min_len_vio(path, s@),
            WorkflowExecTimeout::Complex { duration, interrupt, run_before } => min_len_vio(
                child(path, "duration"@),
                duration@,
            ) + opt_min_len_vio(child(path, "run_before"@), run_before),
        }
    }

    fn validate_into(&self, path: &str, report: &mut Report) {
        match self {
            WorkflowExecTimeout::Simple(s) => {
                check_min_len(report, path.to_owned(), s.as_str());
            },
            WorkflowExecTimeout::Complex { duration, interrupt, run_before } => {
                check_min_len(report, child_path(path, "duration"), duration.as_str());
                check_opt_min_len(report, child_path(path, "run_before"), run_before);
                proof {
                    assert(final(report)@ =~= old(report)@ + self.violations(path@));
                }
            },
        }
    }
}

/// State execution timeout.
#[derive(Clone, Debug)]
pub enum StateExecTimeout {
    /// Total state execution timeout, including retries (ISO 8601
    /// duration format).
    Simple(String),
    /// Split single/total state execution timeouts.
    Complex {
        /// Single state execution timeout, not including retries.
        single: Option<String>,
        /// Total state execution timeout, including retries.
        total: String,
    },
}

impl Validated for StateExecTimeout {
    open spec fn violations(&self, path: Seq<char>) -> Seq<(Seq<char>, Seq<char>)> {
        match *self {
            StateExecTimeout::Simple(s) => min_len_vio(path, s@),
            StateExecTimeout::Complex { single, total } => opt_min_len_vio(
                child(path, "single"@),
                single,
            ) + min_len_vio(child(path, "total"@), total@),
        }
    }

    fn validate_into(&self, path: &str, report: &mut Report) {
        match self {
            StateExecTimeout::Simple(s) => {
                check_min_len(report, path.to_owned(), s.as_str());
            },
            StateExecTimeout::Complex { single, total } => {
                check_opt_min_len(report, child_path(path, "single"), single);
                check_min_len(report, child_path(path, "total"), total.as_str());
                proof {
                    assert(final(report)@ =~= old(report)@ + self.violations(path@));
                }
            },
        }
    }
}

/// Single action execution timeout duration (ISO 8601 duration format).
#[derive(Clone, Debug)]
pub struct ActionExecTimeout(pub String);

impl Validated for ActionExecTimeout {
    open spec fn violations(&self, path: Seq<char>) -> Seq<(Seq<char>, Seq<char>)> {
        min_len_vio(path, self.0@)
    }

    fn validate_into(&self, path: &str, report: &mut Report) {
        check_min_len(report, path.to_owned(), self.0.as_str());
    }
}

/// Single branch execution timeout duration (ISO 8601 duration format).
#[derive(Clone, Debug)]
pub struct BranchExecTimeout(pub String);

impl Validated for BranchExecTimeout {
    open spec fn violations(&self, path: Seq<char>) -> Seq<(Seq<char>, Seq<char>)> {
        min_len_vio(path, self.0@)
    }

    fn validate_into(&self, path: &str, report: &mut Report) {
        check_min_len(report, path.to_owned(), self.0.as_str());
    }
}

/// Timeout duration to wait for consuming defined events (ISO 8601
/// duration format).
#[derive(Clone, Debug)]
pub struct EventTimeout(pub String);

impl Validated for EventTimeout {
    open spec fn violations(&self, path: Seq<char>) -> Seq<(Seq<char>, Seq<char>)> {
        min_len_vio(path, self.0@)
    }

    fn validate_into(&self, path: &str, report: &mut Report) {
        check_min_len(report, path.to_owned(), self.0.as_str());
    }
}

} // verus!

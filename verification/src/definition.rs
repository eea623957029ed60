//! The workflow definition document model.
//!
//! These types mirror the workflow schema: a definition document with an
//! identifier, optional shared sub-definitions (events, functions,
//! timeouts, errors, secrets, auth) and a list of states. Each type
//! knows the exact violations it contributes to a validation report.

use vstd::prelude::*;

pub mod auth;
pub mod common;
pub mod errors;
pub mod events;
pub mod functions;
pub mod retries;
pub mod secrets;
pub mod timeouts;

use crate::definition::auth::Auth;
use crate::definition::common::{ExecutionMode, InvocationMode, Metadata, NonNegativeNumber};
use crate::definition::errors::Errors;
use crate::definition::events::Events;
use crate::definition::functions::Functions;
use crate::definition::retries::Retries;
use crate::definition::secrets::Secrets;
use crate::definition::timeouts::{
    ActionExecTimeout,
    BranchExecTimeout,
    EventTimeout,
    StateExecTimeout,
    Timeouts,
    WorkflowExecTimeout,
};
use crate::error::Report;
use crate::uri::Uri;
use crate::validation::{
    child,
    child_path,
    check_compensation,
    check_min_len,
    check_must_be_true,
    check_one_of_three,
    check_one_of_two,
    check_opt_min_len,
    check_opt_seq,
    check_opt_vec_min_len,
    check_option,
    check_seq,
    check_seq_min_len,
    check_unique,
    compensation_vio,
    min_len_vio,
    must_be_true_vio,
    one_of_three_vio,
    one_of_two_vio,
    option_vio,
    opt_min_len_vio,
    opt_seq_vio,
    opt_vec_min_len_vio,
    seq_min_len_vio,
    seq_vio,
    unique_vio,
    Validated,
    ValidateDefinition,
};

verus! {

/// Workflow definition document.
#[derive(Clone, Debug)]
pub struct WorkflowDefinition {
    /// Workflow unique identifier.
    pub identifier: Identifier,
    /// Workflow description.
    pub description: Option<String>,
    /// Workflow version.
    pub version: Option<String>,
    /// Terms describing the workflow's intended purpose.
    pub annotations: Option<Vec<String>>,
    /// Schema used to validate the workflow data input.
    pub data_input_schema: Option<DataInputSchema>,
    /// Secrets definitions.
    pub secrets: Option<Secrets>,
    /// Workflow constants.
    pub constants: Option<Constants>,
    /// Workflow start definition.
    pub start: Option<StartDef>,
    /// Workflow schema version.
    pub spec_version: String,
    /// The expression language used for workflow expressions.
    pub expression_lang: String,
    /// Timeouts definitions.
    pub timeouts: Option<Timeouts>,
    /// Error definitions.
    pub errors: Option<Errors>,
    /// If `true`, workflow instances are kept active even with no active
    /// execution path.
    pub keep_active: bool,
    /// Workflow metadata.
    pub metadata: Option<Metadata>,
    /// Event definitions.
    pub events: Option<Events>,
    /// Function definitions.
    pub functions: Option<Functions>,
    /// If `true`, actions are automatically retried on unchecked errors.
    pub auto_retries: bool,
    /// Retry definitions.
    pub retries: Option<Retries>,
    /// Auth definitions.
    pub auth: Option<Auth>,
    /// State definitions.
    pub states: Vec<State>,
}

impl WorkflowDefinition {
    /// The name of the starting workflow state, when there is one: the
    /// state the start definition points to or, absent one, the first
    /// state of the list.
    pub open spec fn spec_start_state_name(&self) -> Option<Seq<char>> {
        match self.start {
            Some(sd) => Some(sd.spec_state_name()),
            None => if self.states@.len() > 0 {
                Some(self.states@[0].spec_name())
            } else {
                None
            },
        }
    }

    /// Returns the name of the starting workflow state.
    ///
    /// This is the state pointed to by the start definition or, if there
    /// is none, the first state of the list; with neither, nothing.
    pub fn start_state_name(&self) -> (r: Option<&str>)
        ensures
            match r {
                Some(name) => self.spec_start_state_name() == Some(name@),
                None => self.spec_start_state_name() is None,
            },
    {
        match &self.start {
            Some(sd) => Some(sd.state_name()),
            None => if self.states.len() > 0 {
                Some(self.states[0].name())
            } else {
                None
            },
        }
    }
}

impl Validated for WorkflowDefinition {
    open spec fn violations(&self, path: Seq<char>) -> Seq<(Seq<char>, Seq<char>)> {
        self.identifier.violations(child(path, "identifier"@)) + opt_min_len_vio(
            child(path, "version"@),
            self.version,
        ) + opt_vec_min_len_vio(child(path, "annotations"@), self.annotations) + option_vio(
            child(path, "data_input_schema"@),
            self.data_input_schema,
        ) + option_vio(child(path, "secrets"@), self.secrets) + option_vio(
            child(path, "constants"@),
            self.constants,
        ) + option_vio(child(path, "start"@), self.start) + min_len_vio(
            child(path, "spec_version"@),
            self.spec_version@,
        ) + min_len_vio(child(path, "expression_lang"@), self.expression_lang@) + option_vio(
            child(path, "timeouts"@),
            self.timeouts,
        ) + option_vio(child(path, "errors"@), self.errors) + option_vio(
            child(path, "metadata"@),
            self.metadata,
        ) + option_vio(child(path, "events"@), self.events) + option_vio(
            child(path, "functions"@),
            self.functions,
        ) + option_vio(child(path, "retries"@), self.retries) + option_vio(
            child(path, "auth"@),
            self.auth,
        ) + seq_min_len_vio(child(path, "states"@), self.states@.len()) + seq_vio(
            child(path, "states"@),
            self.states@,
        )
    }

    fn validate_into(&self, path: &str, report: &mut Report) {
        // The report grows by each field's violations in order; `seen`
        // tracks what has been appended so far.
        self.identifier.validate_into(child_path(path, "identifier").as_str(), report);
        let ghost mut seen = self.identifier.violations(child(path@, "identifier"@));
        check_opt_min_len(report, child_path(path, "version"), &self.version);
        proof {
            vstd::seq_lib::lemma_concat_associative(
                old(report)@,
                seen,
                opt_min_len_vio(child(path@, "version"@), self.version),
            );
            seen = seen + opt_min_len_vio(child(path@, "version"@), self.version);
        }
        check_opt_vec_min_len(report, child_path(path, "annotations"), &self.annotations);
        proof {
            vstd::seq_lib::lemma_concat_associative(
                old(report)@,
                seen,
                opt_vec_min_len_vio(child(path@, "annotations"@), self.annotations),
            );
            seen = seen + opt_vec_min_len_vio(child(path@, "annotations"@), self.annotations);
        }
        check_option(report, child_path(path, "data_input_schema"), &self.data_input_schema);
        proof {
            vstd::seq_lib::lemma_concat_associative(
                old(report)@,
                seen,
                option_vio(child(path@, "data_input_schema"@), self.data_input_schema),
            );
            seen = seen + option_vio(child(path@, "data_input_schema"@), self.data_input_schema);
        }
        check_option(report, child_path(path, "secrets"), &self.secrets);
        proof {
            vstd::seq_lib::lemma_concat_associative(
                old(report)@,
                seen,
                option_vio(child(path@, "secrets"@), self.secrets),
            );
            seen = seen + option_vio(child(path@, "secrets"@), self.secrets);
        }
        check_option(report, child_path(path, "constants"), &self.constants);
        proof {
            vstd::seq_lib::lemma_concat_associative(
                old(report)@,
                seen,
                option_vio(child(path@, "constants"@), self.constants),
            );
            seen = seen + option_vio(child(path@, "constants"@), self.constants);
        }
        check_option(report, child_path(path, "start"), &self.start);
        proof {
            vstd::seq_lib::lemma_concat_associative(
                old(report)@,
                seen,
                option_vio(child(path@, "start"@), self.start),
            );
            seen = seen + option_vio(child(path@, "start"@), self.start);
        }
        check_min_len(report, child_path(path, "spec_version"), self.spec_version.as_str());
        proof {
            vstd::seq_lib::lemma_concat_associative(
                old(report)@,
                seen,
                min_len_vio(child(path@, "spec_version"@), self.spec_version@),
            );
            seen = seen + min_len_vio(child(path@, "spec_version"@), self.spec_version@);
        }
        check_min_len(report, child_path(path, "expression_lang"), self.expression_lang.as_str());
        proof {
            vstd::seq_lib::lemma_concat_associative(
                old(report)@,
                seen,
                min_len_vio(child(path@, "expression_lang"@), self.expression_lang@),
            );
            seen = seen + min_len_vio(child(path@, "expression_lang"@), self.expression_lang@);
        }
        check_option(report, child_path(path, "timeouts"), &self.timeouts);
        proof {
            vstd::seq_lib::lemma_concat_associative(
                old(report)@,
                seen,
                option_vio(child(path@, "timeouts"@), self.timeouts),
            );
            seen = seen + option_vio(child(path@, "timeouts"@), self.timeouts);
        }
        check_option(report, child_path(path, "errors"), &self.errors);
        proof {
            vstd::seq_lib::lemma_concat_associative(
                old(report)@,
                seen,
                option_vio(child(path@, "errors"@), self.errors),
            );
            seen = seen + option_vio(child(path@, "errors"@), self.errors);
        }
        check_option(report, child_path(path, "metadata"), &self.metadata);
        proof {
            vstd::seq_lib::lemma_concat_associative(
                old(report)@,
                seen,
                option_vio(child(path@, "metadata"@), self.metadata),
            );
            seen = seen + option_vio(child(path@, "metadata"@), self.metadata);
        }
        check_option(report, child_path(path, "events"), &self.events);
        proof {
            vstd::seq_lib::lemma_concat_associative(
                old(report)@,
                seen,
                option_vio(child(path@, "events"@), self.events),
            );
            seen = seen + option_vio(child(path@, "events"@), self.events);
        }
        check_option(report, child_path(path, "functions"), &self.functions);
        proof {
            vstd::seq_lib::lemma_concat_associative(
                old(report)@,
                seen,
                option_vio(child(path@, "functions"@), self.functions),
            );
            seen = seen + option_vio(child(path@, "functions"@), self.functions);
        }
        check_option(report, child_path(path, "retries"), &self.retries);
        proof {
            vstd::seq_lib::lemma_concat_associative(
                old(report)@,
                seen,
                option_vio(child(path@, "retries"@), self.retries),
            );
            seen = seen + option_vio(child(path@, "retries"@), self.retries);
        }
        check_option(report, child_path(path, "auth"), &self.auth);
        proof {
            vstd::seq_lib::lemma_concat_associative(
                old(report)@,
                seen,
                option_vio(child(path@, "auth"@), self.auth),
            );
            seen = seen + option_vio(child(path@, "auth"@), self.auth);
        }
        check_seq_min_len(report, child_path(path, "states"), self.states.len());
        proof {
            vstd::seq_lib::lemma_concat_associative(
                old(report)@,
                seen,
                seq_min_len_vio(child(path@, "states"@), self.states@.len()),
            );
            seen = seen + seq_min_len_vio(child(path@, "states"@), self.states@.len());
        }
        check_seq(report, child_path(path, "states").as_str(), &self.states);
        proof {
            vstd::seq_lib::lemma_concat_associative(
                old(report)@,
                seen,
                seq_vio(child(path@, "states"@), self.states@),
            );
            seen = seen + seq_vio(child(path@, "states"@), self.states@);
        }
    }
}


impl ValidateDefinition for WorkflowDefinition {
    open spec fn doc_violations(&self) -> Seq<(Seq<char>, Seq<char>)> {
        self.violations(Seq::<char>::empty())
    }

    fn validate_definition(&self) -> (r: Result<(), crate::error::Error>) {
        let mut report = Report::new();
        let root = "".to_owned();
        proof {
            reveal_strlit("");
            assert(root@ =~= Seq::<char>::empty());
        }
        self.validate_into(root.as_str(), &mut report);
        proof {
            assert(report@ =~= self.doc_violations());
        }
        if report.len() == 0 {
            Ok(())
        } else {
            Err(crate::error::Error::ValidationFailed { report })
        }
    }
}

/// Workflow identifier: a unique identifier, a domain-specific key, or
/// both.
#[derive(Clone, Debug)]
pub struct Identifier {
    /// Workflow unique identifier.
    pub id: Option<String>,
    /// Domain-specific workflow identifier.
    pub key: Option<String>,
}

impl Identifier {
    /// Returns the unique, domain-specific workflow identifier: the id
    /// when set, else the key when set, else a missing-identifier error.
    pub fn id(&self) -> (r: Result<&str, crate::error::Error>)
        ensures
            match r {
                Ok(s) => (match self.id {
                    Some(id) => s@ == id@,
                    None => self.key matches Some(k) && s@ == k@,
                }),
                Err(e) => self.id is None && self.key is None && (e matches
                    crate::error::Error::MissingIdentifier),
            },
    {
        match &self.id {
            Some(id) => Ok(id.as_str()),
            None => match &self.key {
                Some(key) => Ok(key.as_str()),
                None => Err(crate::error::Error::MissingIdentifier),
            },
        }
    }
}

impl Validated for Identifier {
    open spec fn violations(&self, path: Seq<char>) -> Seq<(Seq<char>, Seq<char>)> {
        opt_min_len_vio(child(path, "id"@), self.id) + one_of_two_vio(
            child(path, "id"@),
            "id"@,
            "key"@,
            self.id is Some,
            self.key is Some,
        ) + opt_min_len_vio(child(path, "key"@), self.key)
    }

    fn validate_into(&self, path: &str, report: &mut Report) {
        check_opt_min_len(report, child_path(path, "id"), &self.id);
        check_one_of_two(report, child_path(path, "id"), "id", "key", &self.id, &self.key);
        check_opt_min_len(report, child_path(path, "key"), &self.key);
        proof {
            assert(final(report)@ =~= old(report)@ + self.violations(path@));
        }
    }
}

/// Schema used to validate the workflow data input.
#[derive(Clone, Debug)]
pub enum DataInputSchema {
    /// URI of the schema alone.
    UriOnly(String),
    /// Full input schema definition.
    Full {
        /// URI of the schema.
        schema: String,
        /// Whether workflow execution should stop on validation errors.
        fail_on_validation_errors: bool,
    },
}

impl Validated for DataInputSchema {
    open spec fn violations(&self, path: Seq<char>) -> Seq<(Seq<char>, Seq<char>)> {
        match *self {
            DataInputSchema::UriOnly(s) => min_len_vio(path, s@),
            DataInputSchema::Full { schema, fail_on_validation_errors } => min_len_vio(
                child(path, "schema"@),
                schema@,
            ),
        }
    }

    fn validate_into(&self, path: &str, report: &mut Report) {
        match self {
            DataInputSchema::UriOnly(s) => {
                check_min_len(report, path.to_owned(), s.as_str());
            },
            DataInputSchema::Full { schema, fail_on_validation_errors } => {
                check_min_len(report, child_path(path, "schema"), schema.as_str());
            },
        }
    }
}

/// Workflow constants: a URI to a resource containing them, or the
/// constants data itself.
#[derive(Clone, Debug)]
pub enum Constants {
    /// URI to a resource containing constants data.
    One(Uri),
    /// Workflow constants data: an opaque object.
    Multiple {
        /// The constants, as an opaque object.
        constants: serde_json::Value,
    },
}

impl Validated for Constants {
    open spec fn violations(&self, path: Seq<char>) -> Seq<(Seq<char>, Seq<char>)> {
        Seq::<(Seq<char>, Seq<char>)>::empty()
    }

    fn validate_into(&self, path: &str, report: &mut Report) {
        proof {
            assert(report@ =~= report@ + self.violations(path@));
        }
    }
}

/// Sleep time definition: before or after function invocation.
#[derive(Clone, Debug)]
pub struct Sleep {
    /// Amount of time (ISO 8601 duration format) to sleep before
    /// function or subflow invocation.
    pub before: Option<String>,
    /// Amount of time (ISO 8601 duration format) to sleep after function
    /// or subflow invocation.
    pub after: Option<String>,
}

impl Validated for Sleep {
    open spec fn violations(&self, path: Seq<char>) -> Seq<(Seq<char>, Seq<char>)> {
        one_of_two_vio(
            child(path, "before"@),
            "before"@,
            "after"@,
            self.before is Some,
            self.after is Some,
        )
    }

    fn validate_into(&self, path: &str, report: &mut Report) {
        check_one_of_two(
            report,
            child_path(path, "before"),
            "before",
            "after",
            &self.before,
            &self.after,
        );
    }
}

/// Cron definition.
#[derive(Clone, Debug)]
pub enum CronDef {
    /// Cron expression defining when workflow instances are created.
    Expr(String),
    /// Repeating cron definition.
    Repeat {
        /// Repeating interval (cron expression).
        expression: String,
        /// Date and time (ISO 8601 format) after which the cron
        /// expression is no longer valid.
        valid_until: Option<String>,
    },
}

impl Validated for CronDef {
    open spec fn violations(&self, path: Seq<char>) -> Seq<(Seq<char>, Seq<char>)> {
        match *self {
            CronDef::Expr(s) => min_len_vio(path, s@),
            CronDef::Repeat { expression, valid_until } => min_len_vio(
                child(path, "expression"@),
                expression@,
            ),
        }
    }

    fn validate_into(&self, path: &str, report: &mut Report) {
        match self {
            CronDef::Expr(s) => {
                check_min_len(report, path.to_owned(), s.as_str());
            },
            CronDef::Repeat { expression, valid_until } => {
                check_min_len(report, child_path(path, "expression"), expression.as_str());
            },
        }
    }
}

/// "Continue as" definition.
#[derive(Clone, Debug)]
pub enum ContinueAsDef {
    /// Unique id of the workflow to continue execution as.
    Simple(String),
    /// Full "continue as" configuration.
    WithData {
        /// Unique id of the workflow to continue execution as.
        workflow_id: String,
        /// Version of the workflow to continue execution as.
        version: Option<String>,
        /// How to pass data to the workflow to continue execution as.
        data: Option<Data>,
        /// Workflow execution timeout for the continued execution.
        workflow_exec_timeout: Option<WorkflowExecTimeout>,
    },
}

impl Validated for ContinueAsDef {
    open spec fn violations(&self, path: Seq<char>) -> Seq<(Seq<char>, Seq<char>)> {
        match *self {
            ContinueAsDef::Simple(s) => min_len_vio(path, s@),
            ContinueAsDef::WithData { workflow_id, version, data, workflow_exec_timeout } =>
                option_vio(child(path, "data"@), data) + option_vio(
                child(path, "workflow_exec_timeout"@),
                workflow_exec_timeout,
            ),
        }
    }

    fn validate_into(&self, path: &str, report: &mut Report) {
        match self {
            ContinueAsDef::Simple(s) => {
                check_min_len(report, path.to_owned(), s.as_str());
            },
            ContinueAsDef::WithData { workflow_id, version, data, workflow_exec_timeout } => {
                check_option(report, child_path(path, "data"), data);
                check_option(report, child_path(path, "workflow_exec_timeout"), workflow_exec_timeout);
                proof {
                    assert(final(report)@ =~= old(report)@ + self.violations(path@));
                }
            },
        }
    }
}

/// How to pass data to an event or workflow.
#[derive(Clone, Debug)]
pub enum Data {
    /// An expression selecting parts of the state's data.
    Expression(String),
    /// A custom object that becomes the data.
    Object {
        /// The data, as an opaque object.
        fields: serde_json::Value,
    },
}

impl Validated for Data {
    open spec fn violations(&self, path: Seq<char>) -> Seq<(Seq<char>, Seq<char>)> {
        Seq::<(Seq<char>, Seq<char>)>::empty()
    }

    fn validate_into(&self, path: &str, report: &mut Report) {
        proof {
            assert(report@ =~= report@ + self.violations(path@));
        }
    }
}

/// Transition to another state.
#[derive(Clone, Debug)]
pub enum Transition {
    /// Name of the state to transition to.
    ByName(String),
    /// Full transition definition.
    Complex {
        /// Name of the state to transition to.
        next_state: String,
        /// Events to be produced before the transition happens.
        produce_events: Option<Vec<ProduceEventDef>>,
        /// If `true`, triggers workflow compensation before the
        /// transition is taken.
        compensate: bool,
    },
}

impl Validated for Transition {
    open spec fn violations(&self, path: Seq<char>) -> Seq<(Seq<char>, Seq<char>)> {
        match *self {
            Transition::ByName(s) => min_len_vio(path, s@),
            Transition::Complex { next_state, produce_events, compensate } => min_len_vio(
                child(path, "next_state"@),
                next_state@,
            ),
        }
    }

    fn validate_into(&self, path: &str, report: &mut Report) {
        match self {
            Transition::ByName(s) => {
                check_min_len(report, path.to_owned(), s.as_str());
            },
            Transition::Complex { next_state, produce_events, compensate } => {
                check_min_len(report, child_path(path, "next_state"), next_state.as_str());
            },
        }
    }
}

/// Error handling definition attached to a state.
#[derive(Clone, Debug)]
pub struct Error {
    /// Reference to a unique workflow error definition.
    pub error_ref: Option<String>,
    /// References to one or more workflow error definitions.
    pub error_refs: Option<Vec<String>>,
    /// Transition to the next state to handle the error.
    pub transition: Option<Transition>,
    /// End of workflow execution in case of this error.
    pub end: Option<End>,
}

impl Validated for Error {
    open spec fn violations(&self, path: Seq<char>) -> Seq<(Seq<char>, Seq<char>)> {
        one_of_two_vio(
            child(path, "error_ref"@),
            "error_ref"@,
            "error_refs"@,
            self.error_ref is Some,
            self.error_refs is Some,
        ) + option_vio(child(path, "transition"@), self.transition) + one_of_two_vio(
            child(path, "transition"@),
            "transition"@,
            "end"@,
            self.transition is Some,
            self.end is Some,
        ) + option_vio(child(path, "end"@), self.end)
    }

    fn validate_into(&self, path: &str, report: &mut Report) {
        check_one_of_two(
            report,
            child_path(path, "error_ref"),
            "error_ref",
            "error_refs",
            &self.error_ref,
            &self.error_refs,
        );
        check_option(report, child_path(path, "transition"), &self.transition);
        check_one_of_two(
            report,
            child_path(path, "transition"),
            "transition",
            "end",
            &self.transition,
            &self.end,
        );
        check_option(report, child_path(path, "end"), &self.end);
        proof {
            assert(final(report)@ =~= old(report)@ + self.violations(path@));
        }
    }
}

/// Events to be consumed, with the actions they trigger.
#[derive(Clone, Debug)]
pub struct OnEvents {
    /// References to unique event names in the defined workflow events.
    pub event_refs: Vec<String>,
    /// Whether actions are performed in sequence or in parallel.
    pub action_mode: ExecutionMode,
    /// Actions to be performed.
    pub actions: Option<Vec<Action>>,
    /// Event data filter.
    pub event_data_filter: Option<EventDataFilter>,
}

impl Validated for OnEvents {
    open spec fn violations(&self, path: Seq<char>) -> Seq<(Seq<char>, Seq<char>)> {
        seq_min_len_vio(child(path, "event_refs"@), self.event_refs@.len()) + unique_vio(
            child(path, "event_refs"@),
            self.event_refs@,
        ) + opt_seq_vio(child(path, "actions"@), self.actions) + option_vio(
            child(path, "event_data_filter"@),
            self.event_data_filter,
        )
    }

    fn validate_into(&self, path: &str, report: &mut Report) {
        check_seq_min_len(report, child_path(path, "event_refs"), self.event_refs.len());
        check_unique(report, child_path(path, "event_refs"), &self.event_refs);
        check_opt_seq(report, child_path(path, "actions"), &self.actions);
        check_option(report, child_path(path, "event_data_filter"), &self.event_data_filter);
        proof {
            assert(final(report)@ =~= old(report)@ + self.violations(path@));
        }
    }
}

/// Workflow action definition.
#[derive(Clone, Debug)]
pub struct Action {
    /// Unique action identifier.
    pub id: Option<String>,
    /// Unique action definition name.
    pub name: Option<String>,
    /// References a function to be invoked.
    pub function_ref: Option<FunctionRef>,
    /// References trigger and result reusable event definitions.
    pub event_ref: Option<EventRef>,
    /// References a sub-workflow to invoke.
    pub sub_flow_ref: Option<SubflowRef>,
    /// Time periods to sleep before or after function execution.
    pub sleep: Option<Sleep>,
    /// References a defined workflow retry definition.
    pub retry_ref: Option<String>,
    /// References to defined workflow errors for which the action should
    /// not be retried.
    pub non_retryable_errors: Option<Vec<String>>,
    /// References to defined workflow errors for which the action should
    /// be retried.
    pub retryable_errors: Option<Vec<String>>,
    /// Action data filter.
    pub action_data_filter: Option<ActionDataFilter>,
    /// Expression that must evaluate to `true` for this action to be
    /// performed.
    pub condition: Option<String>,
}

impl Validated for Action {
    open spec fn violations(&self, path: Seq<char>) -> Seq<(Seq<char>, Seq<char>)> {
        option_vio(child(path, "function_ref"@), self.function_ref) + one_of_three_vio(
            child(path, "function_ref"@),
            "function_ref"@,
            "event_ref"@,
            "sub_flow_ref"@,
            self.function_ref is Some,
            self.event_ref is Some,
            self.sub_flow_ref is Some,
        ) + option_vio(child(path, "event_ref"@), self.event_ref) + option_vio(
            child(path, "sub_flow_ref"@),
            self.sub_flow_ref,
        ) + option_vio(child(path, "sleep"@), self.sleep) + opt_vec_min_len_vio(
            child(path, "non_retryable_errors"@),
            self.non_retryable_errors,
        ) + opt_vec_min_len_vio(child(path, "retryable_errors"@), self.retryable_errors)
            + option_vio(child(path, "action_data_filter"@), self.action_data_filter)
            + opt_min_len_vio(child(path, "condition"@), self.condition)
    }

    fn validate_into(&self, path: &str, report: &mut Report) {
        check_option(report, child_path(path, "function_ref"), &self.function_ref);
        check_one_of_three(
            report,
            child_path(path, "function_ref"),
            "function_ref",
            "event_ref",
            "sub_flow_ref",
            &self.function_ref,
            &self.event_ref,
            &self.sub_flow_ref,
        );
        check_option(report, child_path(path, "event_ref"), &self.event_ref);
        check_option(report, child_path(path, "sub_flow_ref"), &self.sub_flow_ref);
        check_option(report, child_path(path, "sleep"), &self.sleep);
        check_opt_vec_min_len(
            report,
            child_path(path, "non_retryable_errors"),
            &self.non_retryable_errors,
        );
        check_opt_vec_min_len(report, child_path(path, "retryable_errors"), &self.retryable_errors);
        check_option(report, child_path(path, "action_data_filter"), &self.action_data_filter);
        check_opt_min_len(report, child_path(path, "condition"), &self.condition);
        proof {
            assert(final(report)@ =~= old(report)@ + self.violations(path@));
        }
    }
}

/// Function reference definition.
#[derive(Clone, Debug)]
pub enum FunctionRef {
    /// Name of the referenced function.
    ByName(String),
    /// Full function reference.
    Complex {
        /// Name of the referenced function.
        ref_name: String,
        /// Function arguments.
        arguments: Option<FunctionArguments>,
        /// A GraphQL selection set; only used for GraphQL functions.
        selection_set: Option<String>,
        /// Whether the function is invoked synchronously or
        /// asynchronously.
        invoke: InvocationMode,
    },
}

impl Validated for FunctionRef {
    open spec fn violations(&self, path: Seq<char>) -> Seq<(Seq<char>, Seq<char>)> {
        match *self {
            FunctionRef::ByName(s) => min_len_vio(path, s@),
            FunctionRef::Complex { ref_name, arguments, selection_set, invoke } => Seq::<
                (Seq<char>, Seq<char>),
            >::empty(),
        }
    }

    fn validate_into(&self, path: &str, report: &mut Report) {
        match self {
            FunctionRef::ByName(s) => {
                check_min_len(report, path.to_owned(), s.as_str());
            },
            FunctionRef::Complex { ref_name, arguments, selection_set, invoke } => {
                proof {
                    assert(report@ =~= report@ + self.violations(path@));
                }
            },
        }
    }
}

/// Arguments passed to a function.
#[derive(Clone, Debug)]
pub struct FunctionArguments {
    /// The arguments, as an opaque object.
    pub arguments: serde_json::Value,
}

impl Validated for FunctionArguments {
    open spec fn violations(&self, path: Seq<char>) -> Seq<(Seq<char>, Seq<char>)> {
        Seq::<(Seq<char>, Seq<char>)>::empty()
    }

    fn validate_into(&self, path: &str, report: &mut Report) {
        proof {
            assert(report@ =~= report@ + self.violations(path@));
        }
    }
}

/// References to trigger and result event definitions.
#[derive(Clone, Debug)]
pub struct EventRef {
    /// Reference to the unique name of a produced event definition.
    pub trigger_event_ref: String,
    /// Reference to the unique name of a consumed event definition.
    pub result_event_ref: String,
    /// Maximum amount of time (ISO 8601 format) to wait for the result
    /// event.
    pub result_event_timeout: Option<String>,
    /// How to pass data to the result event.
    pub data: Option<Data>,
    /// Additional extension context attributes for the produced event.
    pub context_attributes: Option<ContextAttributes>,
    /// Whether the function is invoked synchronously or asynchronously.
    pub invoke: InvocationMode,
}

impl Validated for EventRef {
    open spec fn violations(&self, path: Seq<char>) -> Seq<(Seq<char>, Seq<char>)> {
        option_vio(child(path, "data"@), self.data) + option_vio(
            child(path, "context_attributes"@),
            self.context_attributes,
        )
    }

    fn validate_into(&self, path: &str, report: &mut Report) {
        check_option(report, child_path(path, "data"), &self.data);
        check_option(report, child_path(path, "context_attributes"), &self.context_attributes);
        proof {
            assert(final(report)@ =~= old(report)@ + self.violations(path@));
        }
    }
}

/// Event extension context attributes.
#[derive(Clone, Debug)]
pub struct ContextAttributes {
    /// The attributes, as name/value pairs in the underlying map's
    /// iteration order (key-sorted for the default map).
    pub attributes: Vec<(String, String)>,
}

impl Validated for ContextAttributes {
    open spec fn violations(&self, path: Seq<char>) -> Seq<(Seq<char>, Seq<char>)> {
        Seq::<(Seq<char>, Seq<char>)>::empty()
    }

    fn validate_into(&self, path: &str, report: &mut Report) {
        proof {
            assert(report@ =~= report@ + self.violations(path@));
        }
    }
}

/// Sub-workflow reference definition.
#[derive(Clone, Debug)]
pub enum SubflowRef {
    /// Unique id of the sub-workflow to be invoked.
    ById(String),
    /// Full sub-workflow reference.
    Complex {
        /// Unique id of the sub-workflow to be invoked.
        workflow_id: String,
        /// Version of the sub-workflow to be invoked.
        version: Option<String>,
        /// How the sub-workflow behaves when the parent completes.
        on_parent_complete: OnComplete,
        /// Whether the subflow is invoked synchronously or
        /// asynchronously.
        invoke: InvocationMode,
    },
}

impl Validated for SubflowRef {
    open spec fn violations(&self, path: Seq<char>) -> Seq<(Seq<char>, Seq<char>)> {
        match *self {
            SubflowRef::ById(s) => min_len_vio(path, s@),
            SubflowRef::Complex { workflow_id, version, on_parent_complete, invoke } =>
                opt_min_len_vio(child(path, "version"@), version),
        }
    }

    fn validate_into(&self, path: &str, report: &mut Report) {
        match self {
            SubflowRef::ById(s) => {
                check_min_len(report, path.to_owned(), s.as_str());
            },
            SubflowRef::Complex { workflow_id, version, on_parent_complete, invoke } => {
                check_opt_min_len(report, child_path(path, "version"), version);
            },
        }
    }
}

/// Behavior of an asynchronously invoked sub-workflow when its parent
/// workflow completes.
#[derive(Clone, Copy, Debug, PartialEq, Eq, Structural)]
pub enum OnComplete {
    /// The sub-workflow keeps running when the parent completes.
    Continue,
    /// The sub-workflow terminates when the parent completes.
    Terminate,
}

/// Branch definition of a parallel state.
#[derive(Clone, Debug)]
pub struct Branch {
    /// Branch name.
    pub name: String,
    /// Branch-specific timeouts.
    pub timeouts: Option<BranchTimeouts>,
    /// Actions to be executed in this branch.
    pub actions: Vec<Action>,
}

impl Validated for Branch {
    open spec fn violations(&self, path: Seq<char>) -> Seq<(Seq<char>, Seq<char>)> {
        option_vio(child(path, "timeouts"@), self.timeouts) + seq_vio(
            child(path, "actions"@),
            self.actions@,
        )
    }

    fn validate_into(&self, path: &str, report: &mut Report) {
        check_option(report, child_path(path, "timeouts"), &self.timeouts);
        check_seq(report, child_path(path, "actions").as_str(), &self.actions);
        proof {
            assert(final(report)@ =~= old(report)@ + self.violations(path@));
        }
    }
}

/// Possible workflow states.
#[derive(Clone, Debug)]
pub enum State {
    /// Sleep state.
    Sleep(SleepState),
    /// Event state.
    Event(EventState),
    /// Operation state.
    Operation(OperationState),
    /// Parallel state.
    Parallel(ParallelState),
    /// Switch state.
    Switch(SwitchState),
    /// Inject state.
    Inject(InjectState),
    /// For-each state.
    ForEach(ForEachState),
    /// Callback state.
    Callback(CallbackState),
}

impl State {
    /// The state's name.
    pub open spec fn spec_name(&self) -> Seq<char> {
        match *self {
            State::Sleep(s) => s.name@,
            State::Event(s) => s.name@,
            State::Operation(s) => s.name@,
            State::Parallel(s) => s.name@,
            State::Switch(s) => match s {
                SwitchState::EventBased(sw) => sw.name@,
                SwitchState::DataBased(sw) => sw.name@,
            },
            State::Inject(s) => s.name@,
            State::ForEach(s) => s.name@,
            State::Callback(s) => s.name@,
        }
    }

    /// Returns the state name.
    pub fn name(&self) -> (r: &str)
        ensures
            r@ == self.spec_name(),
    {
        match self {
            State::Sleep(s) => s.name.as_str(),
            State::Event(s) => s.name.as_str(),
            State::Operation(s) => s.name.as_str(),
            State::Parallel(s) => s.name.as_str(),
            State::Switch(s) => match s {
                SwitchState::EventBased(sw) => sw.name.as_str(),
                SwitchState::DataBased(sw) => sw.name.as_str(),
            },
            State::Inject(s) => s.name.as_str(),
            State::ForEach(s) => s.name.as_str(),
            State::Callback(s) => s.name.as_str(),
        }
    }
}

impl Validated for State {
    open spec fn violations(&self, path: Seq<char>) -> Seq<(Seq<char>, Seq<char>)> {
        match *self {
            State::Sleep(s) => s.violations(path),
            State::Event(s) => s.violations(path),
            State::Operation(s) => s.violations(path),
            State::Parallel(s) => s.violations(path),
            State::Switch(s) => s.violations(path),
            State::Inject(s) => s.violations(path),
            State::ForEach(s) => s.violations(path),
            State::Callback(s) => s.violations(path),
        }
    }

    fn validate_into(&self, path: &str, report: &mut Report) {
        match self {
            State::Sleep(s) => s.validate_into(path, report),
            State::Event(s) => s.validate_into(path, report),
            State::Operation(s) => s.validate_into(path, report),
            State::Parallel(s) => s.validate_into(path, report),
            State::Switch(s) => s.validate_into(path, report),
            State::Inject(s) => s.validate_into(path, report),
            State::ForEach(s) => s.validate_into(path, report),
            State::Callback(s) => s.validate_into(path, report),
        }
    }
}

/// Causes the workflow execution to sleep for a specified duration.
#[derive(Clone, Debug)]
pub struct SleepState {
    /// Unique state id.
    pub id: Option<String>,
    /// State name.
    pub name: String,
    /// State end definition.
    pub end: Option<End>,
    /// State data filter.
    pub state_data_filter: Option<StateDataFilter>,
    /// Duration (ISO 8601 duration format) to sleep.
    pub duration: String,
    /// State-specific timeouts.
    pub timeouts: Option<SleepStateTimeouts>,
    /// Error handling definitions.
    pub on_errors: Option<Vec<Error>>,
    /// Next transition of the workflow after the sleep.
    pub transition: Option<Transition>,
    /// Name of the workflow state responsible for compensating this one.
    pub compensated_by: Option<String>,
    /// Whether this state is used to compensate another state.
    pub used_for_compensation: bool,
    /// State metadata.
    pub metadata: Option<Metadata>,
}

impl Validated for SleepState {
    open spec fn violations(&self, path: Seq<char>) -> Seq<(Seq<char>, Seq<char>)> {
        opt_min_len_vio(child(path, "id"@), self.id) + option_vio(child(path, "end"@), self.end)
            + option_vio(child(path, "state_data_filter"@), self.state_data_filter) + option_vio(
            child(path, "timeouts"@),
            self.timeouts,
        ) + opt_seq_vio(child(path, "on_errors"@), self.on_errors) + option_vio(
            child(path, "transition"@),
            self.transition,
        ) + opt_min_len_vio(child(path, "compensated_by"@), self.compensated_by)
            + compensation_vio(
            child(path, "used_for_compensation"@),
            self.used_for_compensation,
            self.transition is Some,
            self.end is Some,
        ) + option_vio(child(path, "metadata"@), self.metadata)
    }

    fn validate_into(&self, path: &str, report: &mut Report) {
        // The report grows by each field's violations in order; `seen`
        // tracks what has been appended so far.
        check_opt_min_len(report, child_path(path, "id"), &self.id);
        let ghost mut seen = opt_min_len_vio(child(path@, "id"@), self.id);
        check_option(report, child_path(path, "end"), &self.end);
        proof {
            vstd::seq_lib::lemma_concat_associative(
                old(report)@,
                seen,
                option_vio(child(path@, "end"@), self.end),
            );
            seen = seen + option_vio(child(path@, "end"@), self.end);
        }
        check_option(report, child_path(path, "state_data_filter"), &self.state_data_filter);
        proof {
            vstd::seq_lib::lemma_concat_associative(
                old(report)@,
                seen,
                option_vio(child(path@, "state_data_filter"@), self.state_data_filter),
            );
            seen = seen + option_vio(child(path@, "state_data_filter"@), self.state_data_filter);
        }
        check_option(report, child_path(path, "timeouts"), &self.timeouts);
        proof {
            vstd::seq_lib::lemma_concat_associative(
                old(report)@,
                seen,
                option_vio(child(path@, "timeouts"@), self.timeouts),
            );
            seen = seen + option_vio(child(path@, "timeouts"@), self.timeouts);
        }
        check_opt_seq(report, child_path(path, "on_errors"), &self.on_errors);
        proof {
            vstd::seq_lib::lemma_concat_associative(
                old(report)@,
                seen,
                opt_seq_vio(child(path@, "on_errors"@), self.on_errors),
            );
            seen = seen + opt_seq_vio(child(path@, "on_errors"@), self.on_errors);
        }
        check_option(report, child_path(path, "transition"), &self.transition);
        proof {
            vstd::seq_lib::lemma_concat_associative(
                old(report)@,
                seen,
                option_vio(child(path@, "transition"@), self.transition),
            );
            seen = seen + option_vio(child(path@, "transition"@), self.transition);
        }
        check_opt_min_len(report, child_path(path, "compensated_by"), &self.compensated_by);
        proof {
            vstd::seq_lib::lemma_concat_associative(
                old(report)@,
                seen,
                opt_min_len_vio(child(path@, "compensated_by"@), self.compensated_by),
            );
            seen = seen + opt_min_len_vio(child(path@, "compensated_by"@), self.compensated_by);
        }
        check_compensation(report, child_path(path, "used_for_compensation"), &self.transition, &self.end, self.used_for_compensation);
        proof {
            vstd::seq_lib::lemma_concat_associative(
                old(report)@,
                seen,
                compensation_vio(child(path@, "used_for_compensation"@), self.used_for_compensation, self.transition is Some, self.end is Some),
            );
            seen = seen + compensation_vio(child(path@, "used_for_compensation"@), self.used_for_compensation, self.transition is Some, self.end is Some);
        }
        check_option(report, child_path(path, "metadata"), &self.metadata);
        proof {
            vstd::seq_lib::lemma_concat_associative(
                old(report)@,
                seen,
                option_vio(child(path@, "metadata"@), self.metadata),
            );
            seen = seen + option_vio(child(path@, "metadata"@), self.metadata);
        }
    }
}

/// Sleep-state-specific timeouts.
#[derive(Clone, Debug)]
pub struct SleepStateTimeouts {
    /// State execution timeout.
    pub state_exec_timeout: Option<StateExecTimeout>,
}

impl Validated for SleepStateTimeouts {
    open spec fn violations(&self, path: Seq<char>) -> Seq<(Seq<char>, Seq<char>)> {
        option_vio(child(path, "state_exec_timeout"@), self.state_exec_timeout)
    }

    fn validate_into(&self, path: &str, report: &mut Report) {
        check_option(report, child_path(path, "state_exec_timeout"), &self.state_exec_timeout);
    }
}

/// Waits for events from event sources, consumes them, and invokes
/// actions.
#[derive(Clone, Debug)]
pub struct EventState {
    /// Unique state id.
    pub id: Option<String>,
    /// State name.
    pub name: String,
    /// Whether consuming one event suffices to trigger actions.
    pub exclusive: bool,
    /// The events to be consumed and the actions they trigger.
    pub on_events: Vec<OnEvents>,
    /// State-specific timeouts.
    pub timeouts: Option<EventStateTimeouts>,
    /// State data filter.
    pub state_data_filter: Option<StateDataFilter>,
    /// Error handling definitions.
    pub on_errors: Option<Vec<Error>>,
    /// Next transition of the workflow after all actions are performed.
    pub transition: Option<Transition>,
    /// State end definition.
    pub end: Option<End>,
    /// Name of the workflow state responsible for compensating this one.
    pub compensated_by: Option<String>,
    /// State metadata.
    pub metadata: Option<Metadata>,
}

impl Validated for EventState {
    open spec fn violations(&self, path: Seq<char>) -> Seq<(Seq<char>, Seq<char>)> {
        opt_min_len_vio(child(path, "id"@), self.id) + seq_vio(
            child(path, "on_events"@),
            self.on_events@,
        ) + option_vio(child(path, "timeouts"@), self.timeouts) + option_vio(
            child(path, "state_data_filter"@),
            self.state_data_filter,
        ) + opt_seq_vio(child(path, "on_errors"@), self.on_errors) + option_vio(
            child(path, "transition"@),
            self.transition,
        ) + one_of_two_vio(
            child(path, "transition"@),
            "transition"@,
            "end"@,
            self.transition is Some,
            self.end is Some,
        ) + option_vio(child(path, "end"@), self.end) + opt_min_len_vio(
            child(path, "compensated_by"@),
            self.compensated_by,
        ) + option_vio(child(path, "metadata"@), self.metadata)
    }

    fn validate_into(&self, path: &str, report: &mut Report) {
        // The report grows by each field's violations in order; `seen`
        // tracks what has been appended so far.
        check_opt_min_len(report, child_path(path, "id"), &self.id);
        let ghost mut seen = opt_min_len_vio(child(path@, "id"@), self.id);
        check_seq(report, child_path(path, "on_events").as_str(), &self.on_events);
        proof {
            vstd::seq_lib::lemma_concat_associative(
                old(report)@,
                seen,
                seq_vio(child(path@, "on_events"@), self.on_events@),
            );
            seen = seen + seq_vio(child(path@, "on_events"@), self.on_events@);
        }
        check_option(report, child_path(path, "timeouts"), &self.timeouts);
        proof {
            vstd::seq_lib::lemma_concat_associative(
                old(report)@,
                seen,
                option_vio(child(path@, "timeouts"@), self.timeouts),
            );
            seen = seen + option_vio(child(path@, "timeouts"@), self.timeouts);
        }
        check_option(report, child_path(path, "state_data_filter"), &self.state_data_filter);
        proof {
            vstd::seq_lib::lemma_concat_associative(
                old(report)@,
                seen,
                option_vio(child(path@, "state_data_filter"@), self.state_data_filter),
            );
            seen = seen + option_vio(child(path@, "state_data_filter"@), self.state_data_filter);
        }
        check_opt_seq(report, child_path(path, "on_errors"), &self.on_errors);
        proof {
            vstd::seq_lib::lemma_concat_associative(
                old(report)@,
                seen,
                opt_seq_vio(child(path@, "on_errors"@), self.on_errors),
            );
            seen = seen + opt_seq_vio(child(path@, "on_errors"@), self.on_errors);
        }
        check_option(report, child_path(path, "transition"), &self.transition);
        proof {
            vstd::seq_lib::lemma_concat_associative(
                old(report)@,
                seen,
                option_vio(child(path@, "transition"@), self.transition),
            );
            seen = seen + option_vio(child(path@, "transition"@), self.transition);
        }
        check_one_of_two(report, child_path(path, "transition"), "transition", "end", &self.transition, &self.end);
        proof {
            vstd::seq_lib::lemma_concat_associative(
                old(report)@,
                seen,
                one_of_two_vio(child(path@, "transition"@), "transition"@, "end"@, self.transition is Some, self.end is Some),
            );
            seen = seen + one_of_two_vio(child(path@, "transition"@), "transition"@, "end"@, self.transition is Some, self.end is Some);
        }
        check_option(report, child_path(path, "end"), &self.end);
        proof {
            vstd::seq_lib::lemma_concat_associative(
                old(report)@,
                seen,
                option_vio(child(path@, "end"@), self.end),
            );
            seen = seen + option_vio(child(path@, "end"@), self.end);
        }
        check_opt_min_len(report, child_path(path, "compensated_by"), &self.compensated_by);
        proof {
            vstd::seq_lib::lemma_concat_associative(
                old(report)@,
                seen,
                opt_min_len_vio(child(path@, "compensated_by"@), self.compensated_by),
            );
            seen = seen + opt_min_len_vio(child(path@, "compensated_by"@), self.compensated_by);
        }
        check_option(report, child_path(path, "metadata"), &self.metadata);
        proof {
            vstd::seq_lib::lemma_concat_associative(
                old(report)@,
                seen,
                option_vio(child(path@, "metadata"@), self.metadata),
            );
            seen = seen + option_vio(child(path@, "metadata"@), self.metadata);
        }
    }
}

/// Event-state-specific timeouts.
#[derive(Clone, Debug)]
pub struct EventStateTimeouts {
    /// State execution timeout.
    pub state_exec_timeout: Option<StateExecTimeout>,
    /// Action execution timeout.
    pub action_exec_timeout: Option<ActionExecTimeout>,
    /// Event timeout.
    pub event_timeout: Option<EventTimeout>,
}

impl Validated for EventStateTimeouts {
    open spec fn violations(&self, path: Seq<char>) -> Seq<(Seq<char>, Seq<char>)> {
        option_vio(child(path, "state_exec_timeout"@), self.state_exec_timeout) + option_vio(
            child(path, "action_exec_timeout"@),
            self.action_exec_timeout,
        ) + option_vio(child(path, "event_timeout"@), self.event_timeout)
    }

    fn validate_into(&self, path: &str, report: &mut Report) {
        check_option(report, child_path(path, "state_exec_timeout"), &self.state_exec_timeout);
        check_option(report, child_path(path, "action_exec_timeout"), &self.action_exec_timeout);
        check_option(report, child_path(path, "event_timeout"), &self.event_timeout);
        proof {
            assert(final(report)@ =~= old(report)@ + self.violations(path@));
        }
    }
}

/// Executes a set of defined actions.
#[derive(Clone, Debug)]
pub struct OperationState {
    /// Unique state id.
    pub id: Option<String>,
    /// State name.
    pub name: String,
    /// State end definition.
    pub end: Option<End>,
    /// State data filter.
    pub state_data_filter: Option<StateDataFilter>,
    /// Whether actions are performed in sequence or in parallel.
    pub action_mode: ExecutionMode,
    /// Actions to be performed.
    pub actions: Vec<Action>,
    /// State-specific timeouts.
    pub timeouts: Option<OperationStateTimeouts>,
    /// Error handling definitions.
    pub on_errors: Option<Vec<Error>>,
    /// Next transition of the workflow after all actions are performed.
    pub transition: Option<Transition>,
    /// Name of the workflow state responsible for compensating this one.
    pub compensated_by: Option<String>,
    /// Whether this state is used to compensate another state.
    pub used_for_compensation: bool,
    /// State metadata.
    pub metadata: Option<Metadata>,
}

impl Validated for OperationState {
    open spec fn violations(&self, path: Seq<char>) -> Seq<(Seq<char>, Seq<char>)> {
        opt_min_len_vio(child(path, "id"@), self.id) + option_vio(child(path, "end"@), self.end)
            + option_vio(child(path, "state_data_filter"@), self.state_data_filter) + seq_vio(
            child(path, "actions"@),
            self.actions@,
        ) + option_vio(child(path, "timeouts"@), self.timeouts) + opt_seq_vio(
            child(path, "on_errors"@),
            self.on_errors,
        ) + option_vio(child(path, "transition"@), self.transition) + opt_min_len_vio(
            child(path, "compensated_by"@),
            self.compensated_by,
        ) + compensation_vio(
            child(path, "used_for_compensation"@),
            self.used_for_compensation,
            self.transition is Some,
            self.end is Some,
        ) + option_vio(child(path, "metadata"@), self.metadata)
    }

    fn validate_into(&self, path: &str, report: &mut Report) {
        // The report grows by each field's violations in order; `seen`
        // tracks what has been appended so far.
        check_opt_min_len(report, child_path(path, "id"), &self.id);
        let ghost mut seen = opt_min_len_vio(child(path@, "id"@), self.id);
        check_option(report, child_path(path, "end"), &self.end);
        proof {
            vstd::seq_lib::lemma_concat_associative(
                old(report)@,
                seen,
                option_vio(child(path@, "end"@), self.end),
            );
            seen = seen + option_vio(child(path@, "end"@), self.end);
        }
        check_option(report, child_path(path, "state_data_filter"), &self.state_data_filter);
        proof {
            vstd::seq_lib::lemma_concat_associative(
                old(report)@,
                seen,
                option_vio(child(path@, "state_data_filter"@), self.state_data_filter),
            );
            seen = seen + option_vio(child(path@, "state_data_filter"@), self.state_data_filter);
        }
        check_seq(report, child_path(path, "actions").as_str(), &self.actions);
        proof {
            vstd::seq_lib::lemma_concat_associative(
                old(report)@,
                seen,
                seq_vio(child(path@, "actions"@), self.actions@),
            );
            seen = seen + seq_vio(child(path@, "actions"@), self.actions@);
        }
        check_option(report, child_path(path, "timeouts"), &self.timeouts);
        proof {
            vstd::seq_lib::lemma_concat_associative(
                old(report)@,
                seen,
                option_vio(child(path@, "timeouts"@), self.timeouts),
            );
            seen = seen + option_vio(child(path@, "timeouts"@), self.timeouts);
        }
        check_opt_seq(report, child_path(path, "on_errors"), &self.on_errors);
        proof {
            vstd::seq_lib::lemma_concat_associative(
                old(report)@,
                seen,
                opt_seq_vio(child(path@, "on_errors"@), self.on_errors),
            );
            seen = seen + opt_seq_vio(child(path@, "on_errors"@), self.on_errors);
        }
        check_option(report, child_path(path, "transition"), &self.transition);
        proof {
            vstd::seq_lib::lemma_concat_associative(
                old(report)@,
                seen,
                option_vio(child(path@, "transition"@), self.transition),
            );
            seen = seen + option_vio(child(path@, "transition"@), self.transition);
        }
        check_opt_min_len(report, child_path(path, "compensated_by"), &self.compensated_by);
        proof {
            vstd::seq_lib::lemma_concat_associative(
                old(report)@,
                seen,
                opt_min_len_vio(child(path@, "compensated_by"@), self.compensated_by),
            );
            seen = seen + opt_min_len_vio(child(path@, "compensated_by"@), self.compensated_by);
        }
        check_compensation(report, child_path(path, "used_for_compensation"), &self.transition, &self.end, self.used_for_compensation);
        proof {
            vstd::seq_lib::lemma_concat_associative(
                old(report)@,
                seen,
                compensation_vio(child(path@, "used_for_compensation"@), self.used_for_compensation, self.transition is Some, self.end is Some),
            );
            seen = seen + compensation_vio(child(path@, "used_for_compensation"@), self.used_for_compensation, self.transition is Some, self.end is Some);
        }
        check_option(report, child_path(path, "metadata"), &self.metadata);
        proof {
            vstd::seq_lib::lemma_concat_associative(
                old(report)@,
                seen,
                option_vio(child(path@, "metadata"@), self.metadata),
            );
            seen = seen + option_vio(child(path@, "metadata"@), self.metadata);
        }
    }
}

/// Operation-state-specific timeouts.
#[derive(Clone, Debug)]
pub struct OperationStateTimeouts {
    /// State execution timeout.
    pub state_exec_timeout: Option<StateExecTimeout>,
    /// Action execution timeout.
    pub action_exec_timeout: Option<ActionExecTimeout>,
}

impl Validated for OperationStateTimeouts {
    open spec fn violations(&self, path: Seq<char>) -> Seq<(Seq<char>, Seq<char>)> {
        option_vio(child(path, "state_exec_timeout"@), self.state_exec_timeout) + option_vio(
            child(path, "action_exec_timeout"@),
            self.action_exec_timeout,
        )
    }

    fn validate_into(&self, path: &str, report: &mut Report) {
        check_option(report, child_path(path, "state_exec_timeout"), &self.state_exec_timeout);
        check_option(report, child_path(path, "action_exec_timeout"), &self.action_exec_timeout);
        proof {
            assert(final(report)@ =~= old(report)@ + self.violations(path@));
        }
    }
}

/// A number of branches executed in parallel.
#[derive(Clone, Debug)]
pub struct ParallelState {
    /// Unique state id.
    pub id: Option<String>,
    /// State name.
    pub name: String,
    /// State end definition.
    pub end: Option<End>,
    /// State data filter.
    pub state_data_filter: Option<StateDataFilter>,
    /// State-specific timeouts.
    pub timeouts: Option<ParallelStateTimeouts>,
    /// Branch definitions.
    pub branches: Vec<Branch>,
    /// How branch completion is determined.
    pub completion_type: CompletionType,
    /// Minimum number of completed branches when the completion type
    /// asks for at least a certain count.
    pub num_completed: Option<NonNegativeNumber>,
    /// Error handling definitions.
    pub on_errors: Option<Vec<Error>>,
    /// Next transition of the workflow after all branches complete.
    pub transition: Option<Transition>,
    /// Name of the workflow state responsible for compensating this one.
    pub compensated_by: Option<String>,
    /// Whether this state is used to compensate another state.
    pub used_for_compensation: bool,
    /// State metadata.
    pub metadata: Option<Metadata>,
}

impl Validated for ParallelState {
    open spec fn violations(&self, path: Seq<char>) -> Seq<(Seq<char>, Seq<char>)> {
        opt_min_len_vio(child(path, "id"@), self.id) + option_vio(child(path, "end"@), self.end)
            + option_vio(child(path, "state_data_filter"@), self.state_data_filter) + option_vio(
            child(path, "timeouts"@),
            self.timeouts,
        ) + seq_vio(child(path, "branches"@), self.branches@) + option_vio(
            child(path, "num_completed"@),
            self.num_completed,
        ) + opt_seq_vio(child(path, "on_errors"@), self.on_errors) + option_vio(
            child(path, "transition"@),
            self.transition,
        ) + opt_min_len_vio(child(path, "compensated_by"@), self.compensated_by)
            + compensation_vio(
            child(path, "used_for_compensation"@),
            self.used_for_compensation,
            self.transition is Some,
            self.end is Some,
        ) + option_vio(child(path, "metadata"@), self.metadata)
    }

    fn validate_into(&self, path: &str, report: &mut Report) {
        // The report grows by each field's violations in order; `seen`
        // tracks what has been appended so far.
        check_opt_min_len(report, child_path(path, "id"), &self.id);
        let ghost mut seen = opt_min_len_vio(child(path@, "id"@), self.id);
        check_option(report, child_path(path, "end"), &self.end);
        proof {
            vstd::seq_lib::lemma_concat_associative(
                old(report)@,
                seen,
                option_vio(child(path@, "end"@), self.end),
            );
            seen = seen + option_vio(child(path@, "end"@), self.end);
        }
        check_option(report, child_path(path, "state_data_filter"), &self.state_data_filter);
        proof {
            vstd::seq_lib::lemma_concat_associative(
                old(report)@,
                seen,
                option_vio(child(path@, "state_data_filter"@), self.state_data_filter),
            );
            seen = seen + option_vio(child(path@, "state_data_filter"@), self.state_data_filter);
        }
        check_option(report, child_path(path, "timeouts"), &self.timeouts);
        proof {
            vstd::seq_lib::lemma_concat_associative(
                old(report)@,
                seen,
                option_vio(child(path@, "timeouts"@), self.timeouts),
            );
            seen = seen + option_vio(child(path@, "timeouts"@), self.timeouts);
        }
        check_seq(report, child_path(path, "branches").as_str(), &self.branches);
        proof {
            vstd::seq_lib::lemma_concat_associative(
                old(report)@,
                seen,
                seq_vio(child(path@, "branches"@), self.branches@),
            );
            seen = seen + seq_vio(child(path@, "branches"@), self.branches@);
        }
        check_option(report, child_path(path, "num_completed"), &self.num_completed);
        proof {
            vstd::seq_lib::lemma_concat_associative(
                old(report)@,
                seen,
                option_vio(child(path@, "num_completed"@), self.num_completed),
            );
            seen = seen + option_vio(child(path@, "num_completed"@), self.num_completed);
        }
        check_opt_seq(report, child_path(path, "on_errors"), &self.on_errors);
        proof {
            vstd::seq_lib::lemma_concat_associative(
                old(report)@,
                seen,
                opt_seq_vio(child(path@, "on_errors"@), self.on_errors),
            );
            seen = seen + opt_seq_vio(child(path@, "on_errors"@), self.on_errors);
        }
        check_option(report, child_path(path, "transition"), &self.transition);
        proof {
            vstd::seq_lib::lemma_concat_associative(
                old(report)@,
                seen,
                option_vio(child(path@, "transition"@), self.transition),
            );
            seen = seen + option_vio(child(path@, "transition"@), self.transition);
        }
        check_opt_min_len(report, child_path(path, "compensated_by"), &self.compensated_by);
        proof {
            vstd::seq_lib::lemma_concat_associative(
                old(report)@,
                seen,
                opt_min_len_vio(child(path@, "compensated_by"@), self.compensated_by),
            );
            seen = seen + opt_min_len_vio(child(path@, "compensated_by"@), self.compensated_by);
        }
        check_compensation(report, child_path(path, "used_for_compensation"), &self.transition, &self.end, self.used_for_compensation);
        proof {
            vstd::seq_lib::lemma_concat_associative(
                old(report)@,
                seen,
                compensation_vio(child(path@, "used_for_compensation"@), self.used_for_compensation, self.transition is Some, self.end is Some),
            );
            seen = seen + compensation_vio(child(path@, "used_for_compensation"@), self.used_for_compensation, self.transition is Some, self.end is Some);
        }
        check_option(report, child_path(path, "metadata"), &self.metadata);
        proof {
            vstd::seq_lib::lemma_concat_associative(
                old(report)@,
                seen,
                option_vio(child(path@, "metadata"@), self.metadata),
            );
            seen = seen + option_vio(child(path@, "metadata"@), self.metadata);
        }
    }
}

/// Parallel-state-specific timeouts.
#[derive(Clone, Debug)]
pub struct ParallelStateTimeouts {
    /// State execution timeout.
    pub state_exec_timeout: Option<StateExecTimeout>,
    /// Branch execution timeout.
    pub branch_exec_timeout: Option<BranchExecTimeout>,
}

impl Validated for ParallelStateTimeouts {
    open spec fn violations(&self, path: Seq<char>) -> Seq<(Seq<char>, Seq<char>)> {
        option_vio(child(path, "state_exec_timeout"@), self.state_exec_timeout) + option_vio(
            child(path, "branch_exec_timeout"@),
            self.branch_exec_timeout,
        )
    }

    fn validate_into(&self, path: &str, report: &mut Report) {
        check_option(report, child_path(path, "state_exec_timeout"), &self.state_exec_timeout);
        check_option(report, child_path(path, "branch_exec_timeout"), &self.branch_exec_timeout);
        proof {
            assert(final(report)@ =~= old(report)@ + self.violations(path@));
        }
    }
}

/// How the branches of a parallel state are considered complete.
#[derive(Clone, Copy, Debug, PartialEq, Eq, Structural)]
pub enum CompletionType {
    /// All branches must complete.
    AllOf,
    /// At least a given number of branches must complete.
    AtLeast,
}

/// Branch-specific timeouts.
#[derive(Clone, Debug)]
pub struct BranchTimeouts {
    /// Action execution timeout.
    pub action_exec_timeout: Option<ActionExecTimeout>,
    /// Branch execution timeout.
    pub branch_exec_timeout: Option<BranchExecTimeout>,
}

impl Validated for BranchTimeouts {
    open spec fn violations(&self, path: Seq<char>) -> Seq<(Seq<char>, Seq<char>)> {
        option_vio(child(path, "action_exec_timeout"@), self.action_exec_timeout) + option_vio(
            child(path, "branch_exec_timeout"@),
            self.branch_exec_timeout,
        )
    }

    fn validate_into(&self, path: &str, report: &mut Report) {
        check_option(report, child_path(path, "action_exec_timeout"), &self.action_exec_timeout);
        check_option(report, child_path(path, "branch_exec_timeout"), &self.branch_exec_timeout);
        proof {
            assert(final(report)@ =~= old(report)@ + self.violations(path@));
        }
    }
}

/// Permits transitions to other states based on events or on data
/// conditions.
#[derive(Clone, Debug)]
pub enum SwitchState {
    /// Transitions based on events.
    EventBased(EventBasedSwitchState),
    /// Transitions based on data conditions.
    DataBased(DataBasedSwitchState),
}

impl Validated for SwitchState {
    open spec fn violations(&self, path: Seq<char>) -> Seq<(Seq<char>, Seq<char>)> {
        match *self {
            SwitchState::EventBased(s) => s.violations(path),
            SwitchState::DataBased(s) => s.violations(path),
        }
    }

    fn validate_into(&self, path: &str, report: &mut Report) {
        match self {
            SwitchState::EventBased(s) => s.validate_into(path, report),
            SwitchState::DataBased(s) => s.validate_into(path, report),
        }
    }
}

/// Permits transitions to other states based on events.
#[derive(Clone, Debug)]
pub struct EventBasedSwitchState {
    /// Unique state id.
    pub id: Option<String>,
    /// State name.
    pub name: String,
    /// State data filter.
    pub state_data_filter: Option<StateDataFilter>,
    /// State-specific timeouts.
    pub timeouts: Option<EventBasedSwitchStateTimeouts>,
    /// Conditions evaluated against events.
    pub event_conditions: Vec<EventCondition>,
    /// Error handling definitions.
    pub on_errors: Option<Vec<Error>>,
    /// Default transition when no condition matches.
    pub default_condition: DefaultConditionDef,
    /// Name of the workflow state responsible for compensating this one.
    pub compensated_by: Option<String>,
    /// Whether this state is used to compensate another state.
    pub used_for_compensation: bool,
    /// State metadata.
    pub metadata: Option<Metadata>,
}

impl Validated for EventBasedSwitchState {
    open spec fn violations(&self, path: Seq<char>) -> Seq<(Seq<char>, Seq<char>)> {
        opt_min_len_vio(child(path, "id"@), self.id) + option_vio(
            child(path, "state_data_filter"@),
            self.state_data_filter,
        ) + option_vio(child(path, "timeouts"@), self.timeouts) + seq_vio(
            child(path, "event_conditions"@),
            self.event_conditions@,
        ) + opt_seq_vio(child(path, "on_errors"@), self.on_errors)
            + self.default_condition.violations(child(path, "default_condition"@))
            + opt_min_len_vio(child(path, "compensated_by"@), self.compensated_by) + option_vio(
            child(path, "metadata"@),
            self.metadata,
        )
    }

    fn validate_into(&self, path: &str, report: &mut Report) {
        // The report grows by each field's violations in order; `seen`
        // tracks what has been appended so far.
        check_opt_min_len(report, child_path(path, "id"), &self.id);
        let ghost mut seen = opt_min_len_vio(child(path@, "id"@), self.id);
        check_option(report, child_path(path, "state_data_filter"), &self.state_data_filter);
        proof {
            vstd::seq_lib::lemma_concat_associative(
                old(report)@,
                seen,
                option_vio(child(path@, "state_data_filter"@), self.state_data_filter),
            );
            seen = seen + option_vio(child(path@, "state_data_filter"@), self.state_data_filter);
        }
        check_option(report, child_path(path, "timeouts"), &self.timeouts);
        proof {
            vstd::seq_lib::lemma_concat_associative(
                old(report)@,
                seen,
                option_vio(child(path@, "timeouts"@), self.timeouts),
            );
            seen = seen + option_vio(child(path@, "timeouts"@), self.timeouts);
        }
        check_seq(report, child_path(path, "event_conditions").as_str(), &self.event_conditions);
        proof {
            vstd::seq_lib::lemma_concat_associative(
                old(report)@,
                seen,
                seq_vio(child(path@, "event_conditions"@), self.event_conditions@),
            );
            seen = seen + seq_vio(child(path@, "event_conditions"@), self.event_conditions@);
        }
        check_opt_seq(report, child_path(path, "on_errors"), &self.on_errors);
        proof {
            vstd::seq_lib::lemma_concat_associative(
                old(report)@,
                seen,
                opt_seq_vio(child(path@, "on_errors"@), self.on_errors),
            );
            seen = seen + opt_seq_vio(child(path@, "on_errors"@), self.on_errors);
        }
        self.default_condition.validate_into(child_path(path, "default_condition").as_str(), report);
        proof {
            vstd::seq_lib::lemma_concat_associative(
                old(report)@,
                seen,
                self.default_condition.violations(child(path@, "default_condition"@)),
            );
            seen = seen + self.default_condition.violations(child(path@, "default_condition"@));
        }
        check_opt_min_len(report, child_path(path, "compensated_by"), &self.compensated_by);
        proof {
            vstd::seq_lib::lemma_concat_associative(
                old(report)@,
                seen,
                opt_min_len_vio(child(path@, "compensated_by"@), self.compensated_by),
            );
            seen = seen + opt_min_len_vio(child(path@, "compensated_by"@), self.compensated_by);
        }
        check_option(report, child_path(path, "metadata"), &self.metadata);
        proof {
            vstd::seq_lib::lemma_concat_associative(
                old(report)@,
                seen,
                option_vio(child(path@, "metadata"@), self.metadata),
            );
            seen = seen + option_vio(child(path@, "metadata"@), self.metadata);
        }
    }
}

/// Event-based-switch-state-specific timeouts.
#[derive(Clone, Debug)]
pub struct EventBasedSwitchStateTimeouts {
    /// State execution timeout.
    pub state_exec_timeout: Option<StateExecTimeout>,
    /// Event timeout.
    pub event_timeout: Option<EventTimeout>,
}

impl Validated for EventBasedSwitchStateTimeouts {
    open spec fn violations(&self, path: Seq<char>) -> Seq<(Seq<char>, Seq<char>)> {
        option_vio(child(path, "state_exec_timeout"@), self.state_exec_timeout) + option_vio(
            child(path, "event_timeout"@),
            self.event_timeout,
        )
    }

    fn validate_into(&self, path: &str, report: &mut Report) {
        check_option(report, child_path(path, "state_exec_timeout"), &self.state_exec_timeout);
        check_option(report, child_path(path, "event_timeout"), &self.event_timeout);
        proof {
            assert(final(report)@ =~= old(report)@ + self.violations(path@));
        }
    }
}

/// Permits transitions to other states based on data conditions.
#[derive(Clone, Debug)]
pub struct DataBasedSwitchState {
    /// Unique state id.
    pub id: Option<String>,
    /// State name.
    pub name: String,
    /// State data filter.
    pub state_data_filter: Option<StateDataFilter>,
    /// State-specific timeouts.
    pub timeouts: Option<DataBasedSwitchStateTimeouts>,
    /// Conditions evaluated against state data.
    pub data_conditions: Vec<DataCondition>,
    /// Error handling definitions.
    pub on_errors: Option<Vec<Error>>,
    /// Default transition when no condition matches.
    pub default_condition: DefaultConditionDef,
    /// Name of the workflow state responsible for compensating this one.
    pub compensated_by: Option<String>,
    /// Whether this state is used to compensate another state.
    pub used_for_compensation: bool,
    /// State metadata.
    pub metadata: Option<Metadata>,
}

impl Validated for DataBasedSwitchState {
    open spec fn violations(&self, path: Seq<char>) -> Seq<(Seq<char>, Seq<char>)> {
        opt_min_len_vio(child(path, "id"@), self.id) + option_vio(
            child(path, "state_data_filter"@),
            self.state_data_filter,
        ) + option_vio(child(path, "timeouts"@), self.timeouts) + seq_vio(
            child(path, "data_conditions"@),
            self.data_conditions@,
        ) + opt_seq_vio(child(path, "on_errors"@), self.on_errors)
            + self.default_condition.violations(child(path, "default_condition"@))
            + opt_min_len_vio(child(path, "compensated_by"@), self.compensated_by) + option_vio(
            child(path, "metadata"@),
            self.metadata,
        )
    }

    fn validate_into(&self, path: &str, report: &mut Report) {
        // The report grows by each field's violations in order; `seen`
        // tracks what has been appended so far.
        check_opt_min_len(report, child_path(path, "id"), &self.id);
        let ghost mut seen = opt_min_len_vio(child(path@, "id"@), self.id);
        check_option(report, child_path(path, "state_data_filter"), &self.state_data_filter);
        proof {
            vstd::seq_lib::lemma_concat_associative(
                old(report)@,
                seen,
                option_vio(child(path@, "state_data_filter"@), self.state_data_filter),
            );
            seen = seen + option_vio(child(path@, "state_data_filter"@), self.state_data_filter);
        }
        check_option(report, child_path(path, "timeouts"), &self.timeouts);
        proof {
            vstd::seq_lib::lemma_concat_associative(
                old(report)@,
                seen,
                option_vio(child(path@, "timeouts"@), self.timeouts),
            );
            seen = seen + option_vio(child(path@, "timeouts"@), self.timeouts);
        }
        check_seq(report, child_path(path, "data_conditions").as_str(), &self.data_conditions);
        proof {
            vstd::seq_lib::lemma_concat_associative(
                old(report)@,
                seen,
                seq_vio(child(path@, "data_conditions"@), self.data_conditions@),
            );
            seen = seen + seq_vio(child(path@, "data_conditions"@), self.data_conditions@);
        }
        check_opt_seq(report, child_path(path, "on_errors"), &self.on_errors);
        proof {
            vstd::seq_lib::lemma_concat_associative(
                old(report)@,
                seen,
                opt_seq_vio(child(path@, "on_errors"@), self.on_errors),
            );
            seen = seen + opt_seq_vio(child(path@, "on_errors"@), self.on_errors);
        }
        self.default_condition.validate_into(child_path(path, "default_condition").as_str(), report);
        proof {
            vstd::seq_lib::lemma_concat_associative(
                old(report)@,
                seen,
                self.default_condition.violations(child(path@, "default_condition"@)),
            );
            seen = seen + self.default_condition.violations(child(path@, "default_condition"@));
        }
        check_opt_min_len(report, child_path(path, "compensated_by"), &self.compensated_by);
        proof {
            vstd::seq_lib::lemma_concat_associative(
                old(report)@,
                seen,
                opt_min_len_vio(child(path@, "compensated_by"@), self.compensated_by),
            );
            seen = seen + opt_min_len_vio(child(path@, "compensated_by"@), self.compensated_by);
        }
        check_option(report, child_path(path, "metadata"), &self.metadata);
        proof {
            vstd::seq_lib::lemma_concat_associative(
                old(report)@,
                seen,
                option_vio(child(path@, "metadata"@), self.metadata),
            );
            seen = seen + option_vio(child(path@, "metadata"@), self.metadata);
        }
    }
}

/// Data-based-switch-state-specific timeouts.
#[derive(Clone, Debug)]
pub struct DataBasedSwitchStateTimeouts {
    /// State execution timeout.
    pub state_exec_timeout: Option<StateExecTimeout>,
}

impl Validated for DataBasedSwitchStateTimeouts {
    open spec fn violations(&self, path: Seq<char>) -> Seq<(Seq<char>, Seq<char>)> {
        option_vio(child(path, "state_exec_timeout"@), self.state_exec_timeout)
    }

    fn validate_into(&self, path: &str, report: &mut Report) {
        check_option(report, child_path(path, "state_exec_timeout"), &self.state_exec_timeout);
    }
}

/// Default condition of a switch state: a transition or an end
/// definition.
#[derive(Clone, Debug)]
pub struct DefaultConditionDef {
    /// Transition definition.
    pub transition: Option<Transition>,
    /// End definition.
    pub end: Option<End>,
}

impl Validated for DefaultConditionDef {
    open spec fn violations(&self, path: Seq<char>) -> Seq<(Seq<char>, Seq<char>)> {
        option_vio(child(path, "transition"@), self.transition) + one_of_two_vio(
            child(path, "transition"@),
            "transition"@,
            "end"@,
            self.transition is Some,
            self.end is Some,
        ) + option_vio(child(path, "end"@), self.end)
    }

    fn validate_into(&self, path: &str, report: &mut Report) {
        check_option(report, child_path(path, "transition"), &self.transition);
        check_one_of_two(
            report,
            child_path(path, "transition"),
            "transition",
            "end",
            &self.transition,
            &self.end,
        );
        check_option(report, child_path(path, "end"), &self.end);
        proof {
            assert(final(report)@ =~= old(report)@ + self.violations(path@));
        }
    }
}

/// Switch state event condition.
#[derive(Clone, Debug)]
pub enum EventCondition {
    /// A condition that transitions on match.
    Transition(TransitionEventCondition),
    /// A condition that ends the workflow on match.
    End(EndEventCondition),
}

impl Validated for EventCondition {
    open spec fn violations(&self, path: Seq<char>) -> Seq<(Seq<char>, Seq<char>)> {
        match *self {
            EventCondition::Transition(c) => c.violations(path),
            EventCondition::End(c) => c.violations(path),
        }
    }

    fn validate_into(&self, path: &str, report: &mut Report) {
        match self {
            EventCondition::Transition(c) => c.validate_into(path, report),
            EventCondition::End(c) => c.validate_into(path, report),
        }
    }
}

/// Event condition that transitions on match.
#[derive(Clone, Debug)]
pub struct TransitionEventCondition {
    /// Event condition name.
    pub name: Option<String>,
    /// References a unique event name in the defined workflow events.
    pub event_ref: String,
    /// Next transition of the workflow on a match.
    pub transition: Transition,
    /// Event data filter definition.
    pub event_data_filter: Option<EventDataFilter>,
    /// Condition metadata.
    pub metadata: Option<Metadata>,
}

impl Validated for TransitionEventCondition {
    open spec fn violations(&self, path: Seq<char>) -> Seq<(Seq<char>, Seq<char>)> {
        self.transition.violations(child(path, "transition"@)) + option_vio(
            child(path, "event_data_filter"@),
            self.event_data_filter,
        ) + option_vio(child(path, "metadata"@), self.metadata)
    }

    fn validate_into(&self, path: &str, report: &mut Report) {
        self.transition.validate_into(child_path(path, "transition").as_str(), report);
        check_option(report, child_path(path, "event_data_filter"), &self.event_data_filter);
        check_option(report, child_path(path, "metadata"), &self.metadata);
        proof {
            assert(final(report)@ =~= old(report)@ + self.violations(path@));
        }
    }
}

/// Event condition that ends the workflow on match.
#[derive(Clone, Debug)]
pub struct EndEventCondition {
    /// Event condition name.
    pub name: Option<String>,
    /// References a unique event name in the defined workflow events.
    pub event_ref: String,
    /// End definition taken on a match.
    pub end: End,
    /// Event data filter definition.
    pub event_data_filter: Option<EventDataFilter>,
    /// Condition metadata.
    pub metadata: Option<Metadata>,
}

impl Validated for EndEventCondition {
    open spec fn violations(&self, path: Seq<char>) -> Seq<(Seq<char>, Seq<char>)> {
        self.end.violations(child(path, "end"@)) + option_vio(
            child(path, "event_data_filter"@),
            self.event_data_filter,
        ) + option_vio(child(path, "metadata"@), self.metadata)
    }

    fn validate_into(&self, path: &str, report: &mut Report) {
        self.end.validate_into(child_path(path, "end").as_str(), report);
        check_option(report, child_path(path, "event_data_filter"), &self.event_data_filter);
        check_option(report, child_path(path, "metadata"), &self.metadata);
        proof {
            assert(final(report)@ =~= old(report)@ + self.violations(path@));
        }
    }
}

/// Switch state data condition.
#[derive(Clone, Debug)]
pub enum DataCondition {
    /// A condition that transitions on match.
    Transition(TransitionDataCondition),
    /// A condition that ends the workflow on match.
    End(EndDataCondition),
}

impl Validated for DataCondition {
    open spec fn violations(&self, path: Seq<char>) -> Seq<(Seq<char>, Seq<char>)> {
        match *self {
            DataCondition::Transition(c) => c.violations(path),
            DataCondition::End(c) => c.violations(path),
        }
    }

    fn validate_into(&self, path: &str, report: &mut Report) {
        match self {
            DataCondition::Transition(c) => c.validate_into(path, report),
            DataCondition::End(c) => c.validate_into(path, report),
        }
    }
}

/// Data condition that transitions on match.
#[derive(Clone, Debug)]
pub struct TransitionDataCondition {
    /// Data condition name.
    pub name: Option<String>,
    /// Workflow expression evaluated against state data.
    pub condition: String,
    /// Workflow transition when the condition evaluates to `true`.
    pub transition: Transition,
    /// Condition metadata.
    pub metadata: Option<Metadata>,
}

impl Validated for TransitionDataCondition {
    open spec fn violations(&self, path: Seq<char>) -> Seq<(Seq<char>, Seq<char>)> {
        self.transition.violations(child(path, "transition"@)) + option_vio(
            child(path, "metadata"@),
            self.metadata,
        )
    }

    fn validate_into(&self, path: &str, report: &mut Report) {
        self.transition.validate_into(child_path(path, "transition").as_str(), report);
        check_option(report, child_path(path, "metadata"), &self.metadata);
        proof {
            assert(final(report)@ =~= old(report)@ + self.violations(path@));
        }
    }
}

/// Data condition that ends the workflow on match.
#[derive(Clone, Debug)]
pub struct EndDataCondition {
    /// Data condition name.
    pub name: Option<String>,
    /// Workflow expression evaluated against state data.
    pub condition: String,
    /// Workflow end definition taken on a match.
    pub end: End,
    /// Condition metadata.
    pub metadata: Option<Metadata>,
}

impl Validated for EndDataCondition {
    open spec fn violations(&self, path: Seq<char>) -> Seq<(Seq<char>, Seq<char>)> {
        self.end.violations(child(path, "end"@)) + option_vio(
            child(path, "metadata"@),
            self.metadata,
        )
    }

    fn validate_into(&self, path: &str, report: &mut Report) {
        self.end.validate_into(child_path(path, "end").as_str(), report);
        check_option(report, child_path(path, "metadata"), &self.metadata);
        proof {
            assert(final(report)@ =~= old(report)@ + self.violations(path@));
        }
    }
}

/// Injects static data into state data.
#[derive(Clone, Debug)]
pub struct InjectState {
    /// Unique state id.
    pub id: Option<String>,
    /// State name.
    pub name: String,
    /// State end definition.
    pub end: Option<End>,
    /// The object set as the state's data input.
    pub data: InjectData,
    /// State-specific timeouts.
    pub timeouts: Option<InjectStateTimeouts>,
    /// State data filter.
    pub state_data_filter: Option<StateDataFilter>,
    /// Next transition of the workflow after injection completes.
    pub transition: Option<Transition>,
    /// Name of the workflow state responsible for compensating this one.
    pub compensated_by: Option<String>,
    /// Whether this state is used to compensate another state.
    pub used_for_compensation: bool,
    /// State metadata.
    pub metadata: Option<Metadata>,
}

impl Validated for InjectState {
    open spec fn violations(&self, path: Seq<char>) -> Seq<(Seq<char>, Seq<char>)> {
        opt_min_len_vio(child(path, "id"@), self.id) + option_vio(child(path, "end"@), self.end)
            + option_vio(child(path, "timeouts"@), self.timeouts) + option_vio(
            child(path, "state_data_filter"@),
            self.state_data_filter,
        ) + option_vio(child(path, "transition"@), self.transition) + opt_min_len_vio(
            child(path, "compensated_by"@),
            self.compensated_by,
        ) + compensation_vio(
            child(path, "used_for_compensation"@),
            self.used_for_compensation,
            self.transition is Some,
            self.end is Some,
        ) + option_vio(child(path, "metadata"@), self.metadata)
    }

    fn validate_into(&self, path: &str, report: &mut Report) {
        check_opt_min_len(report, child_path(path, "id"), &self.id);
        check_option(report, child_path(path, "end"), &self.end);
        check_option(report, child_path(path, "timeouts"), &self.timeouts);
        check_option(report, child_path(path, "state_data_filter"), &self.state_data_filter);
        check_option(report, child_path(path, "transition"), &self.transition);
        check_opt_min_len(report, child_path(path, "compensated_by"), &self.compensated_by);
        check_compensation(
            report,
            child_path(path, "used_for_compensation"),
            &self.transition,
            &self.end,
            self.used_for_compensation,
        );
        check_option(report, child_path(path, "metadata"), &self.metadata);
        proof {
            assert(final(report)@ =~= old(report)@ + self.violations(path@));
        }
    }
}

/// Data injected by an inject state.
#[derive(Clone, Debug)]
pub struct InjectData {
    /// The data fields, as an opaque object.
    pub meta: serde_json::Value,
}

/// Inject-state-specific timeouts.
#[derive(Clone, Debug)]
pub struct InjectStateTimeouts {
    /// State execution timeout.
    pub state_exec_timeout: Option<StateExecTimeout>,
}

impl Validated for InjectStateTimeouts {
    open spec fn violations(&self, path: Seq<char>) -> Seq<(Seq<char>, Seq<char>)> {
        option_vio(child(path, "state_exec_timeout"@), self.state_exec_timeout)
    }

    fn validate_into(&self, path: &str, report: &mut Report) {
        check_option(report, child_path(path, "state_exec_timeout"), &self.state_exec_timeout);
    }
}

/// Executes defined actions for each element of a data array.
#[derive(Clone, Debug)]
pub struct ForEachState {
    /// Unique state id.
    pub id: Option<String>,
    /// State name.
    pub name: String,
    /// State end definition.
    pub end: Option<End>,
    /// Workflow expression selecting an array element of the state data.
    pub input_collection: String,
    /// Workflow expression specifying where iteration results are added.
    pub output_collection: Option<String>,
    /// Name of the iteration parameter.
    pub iteration_param: Option<String>,
    /// How many iterations may run in parallel.
    pub batch_size: Option<NonNegativeNumber>,
    /// Actions to be executed for each element.
    pub actions: Vec<Action>,
    /// State-specific timeouts.
    pub timeouts: Option<ForEachStateTimeouts>,
    /// State data filter.
    pub state_data_filter: Option<StateDataFilter>,
    /// Error handling definitions.
    pub on_errors: Option<Vec<Error>>,
    /// Next transition of the workflow after the state completes.
    pub transition: Option<Transition>,
    /// Name of the workflow state responsible for compensating this one.
    pub compensated_by: Option<String>,
    /// Whether this state is used to compensate another state.
    pub used_for_compensation: bool,
    /// Whether iterations are performed sequentially or in parallel.
    pub mode: ExecutionMode,
    /// State metadata.
    pub metadata: Option<Metadata>,
}

impl Validated for ForEachState {
    open spec fn violations(&self, path: Seq<char>) -> Seq<(Seq<char>, Seq<char>)> {
        opt_min_len_vio(child(path, "id"@), self.id) + option_vio(child(path, "end"@), self.end)
            + option_vio(child(path, "batch_size"@), self.batch_size) + seq_vio(
            child(path, "actions"@),
            self.actions@,
        ) + option_vio(child(path, "timeouts"@), self.timeouts) + option_vio(
            child(path, "state_data_filter"@),
            self.state_data_filter,
        ) + opt_seq_vio(child(path, "on_errors"@), self.on_errors) + option_vio(
            child(path, "transition"@),
            self.transition,
        ) + opt_min_len_vio(child(path, "compensated_by"@), self.compensated_by)
            + compensation_vio(
            child(path, "used_for_compensation"@),
            self.used_for_compensation,
            self.transition is Some,
            self.end is Some,
        ) + option_vio(child(path, "metadata"@), self.metadata)
    }

    fn validate_into(&self, path: &str, report: &mut Report) {
        // The report grows by each field's violations in order; `seen`
        // tracks what has been appended so far.
        check_opt_min_len(report, child_path(path, "id"), &self.id);
        let ghost mut seen = opt_min_len_vio(child(path@, "id"@), self.id);
        check_option(report, child_path(path, "end"), &self.end);
        proof {
            vstd::seq_lib::lemma_concat_associative(
                old(report)@,
                seen,
                option_vio(child(path@, "end"@), self.end),
            );
            seen = seen + option_vio(child(path@, "end"@), self.end);
        }
        check_option(report, child_path(path, "batch_size"), &self.batch_size);
        proof {
            vstd::seq_lib::lemma_concat_associative(
                old(report)@,
                seen,
                option_vio(child(path@, "batch_size"@), self.batch_size),
            );
            seen = seen + option_vio(child(path@, "batch_size"@), self.batch_size);
        }
        check_seq(report, child_path(path, "actions").as_str(), &self.actions);
        proof {
            vstd::seq_lib::lemma_concat_associative(
                old(report)@,
                seen,
                seq_vio(child(path@, "actions"@), self.actions@),
            );
            seen = seen + seq_vio(child(path@, "actions"@), self.actions@);
        }
        check_option(report, child_path(path, "timeouts"), &self.timeouts);
        proof {
            vstd::seq_lib::lemma_concat_associative(
                old(report)@,
                seen,
                option_vio(child(path@, "timeouts"@), self.timeouts),
            );
            seen = seen + option_vio(child(path@, "timeouts"@), self.timeouts);
        }
        check_option(report, child_path(path, "state_data_filter"), &self.state_data_filter);
        proof {
            vstd::seq_lib::lemma_concat_associative(
                old(report)@,
                seen,
                option_vio(child(path@, "state_data_filter"@), self.state_data_filter),
            );
            seen = seen + option_vio(child(path@, "state_data_filter"@), self.state_data_filter);
        }
        check_opt_seq(report, child_path(path, "on_errors"), &self.on_errors);
        proof {
            vstd::seq_lib::lemma_concat_associative(
                old(report)@,
                seen,
                opt_seq_vio(child(path@, "on_errors"@), self.on_errors),
            );
            seen = seen + opt_seq_vio(child(path@, "on_errors"@), self.on_errors);
        }
        check_option(report, child_path(path, "transition"), &self.transition);
        proof {
            vstd::seq_lib::lemma_concat_associative(
                old(report)@,
                seen,
                option_vio(child(path@, "transition"@), self.transition),
            );
            seen = seen + option_vio(child(path@, "transition"@), self.transition);
        }
        check_opt_min_len(report, child_path(path, "compensated_by"), &self.compensated_by);
        proof {
            vstd::seq_lib::lemma_concat_associative(
                old(report)@,
                seen,
                opt_min_len_vio(child(path@, "compensated_by"@), self.compensated_by),
            );
            seen = seen + opt_min_len_vio(child(path@, "compensated_by"@), self.compensated_by);
        }
        check_compensation(report, child_path(path, "used_for_compensation"), &self.transition, &self.end, self.used_for_compensation);
        proof {
            vstd::seq_lib::lemma_concat_associative(
                old(report)@,
                seen,
                compensation_vio(child(path@, "used_for_compensation"@), self.used_for_compensation, self.transition is Some, self.end is Some),
            );
            seen = seen + compensation_vio(child(path@, "used_for_compensation"@), self.used_for_compensation, self.transition is Some, self.end is Some);
        }
        check_option(report, child_path(path, "metadata"), &self.metadata);
        proof {
            vstd::seq_lib::lemma_concat_associative(
                old(report)@,
                seen,
                option_vio(child(path@, "metadata"@), self.metadata),
            );
            seen = seen + option_vio(child(path@, "metadata"@), self.metadata);
        }
    }
}

/// For-each-state-specific timeouts.
#[derive(Clone, Debug)]
pub struct ForEachStateTimeouts {
    /// State execution timeout.
    pub state_exec_timeout: Option<StateExecTimeout>,
    /// Action execution timeout.
    pub action_exec_timeout: Option<ActionExecTimeout>,
}

impl Validated for ForEachStateTimeouts {
    open spec fn violations(&self, path: Seq<char>) -> Seq<(Seq<char>, Seq<char>)> {
        option_vio(child(path, "state_exec_timeout"@), self.state_exec_timeout) + option_vio(
            child(path, "action_exec_timeout"@),
            self.action_exec_timeout,
        )
    }

    fn validate_into(&self, path: &str, report: &mut Report) {
        check_option(report, child_path(path, "state_exec_timeout"), &self.state_exec_timeout);
        check_option(report, child_path(path, "action_exec_timeout"), &self.action_exec_timeout);
        proof {
            assert(final(report)@ =~= old(report)@ + self.violations(path@));
        }
    }
}

/// Performs an action, then waits for the callback event that denotes
/// its completion.
#[derive(Clone, Debug)]
pub struct CallbackState {
    /// Unique state id.
    pub id: Option<String>,
    /// State name.
    pub name: String,
    /// The action to be executed.
    pub action: Action,
    /// References a unique callback event name in the defined workflow
    /// events.
    pub event_ref: String,
    /// State-specific timeouts.
    pub timeouts: Option<CallbackStateTimeouts>,
    /// Event data filter.
    pub event_data_filter: Option<EventDataFilter>,
    /// State data filter.
    pub state_data_filter: Option<StateDataFilter>,
    /// Error handling definitions.
    pub on_errors: Option<Vec<Error>>,
    /// Next transition of the workflow after the callback event is
    /// consumed.
    pub transition: Option<Transition>,
    /// State end definition.
    pub end: Option<End>,
    /// Name of the workflow state responsible for compensating this one.
    pub compensated_by: Option<String>,
    /// Whether this state is used to compensate another state.
    pub used_for_compensation: bool,
    /// State metadata.
    pub metadata: Option<Metadata>,
}

impl Validated for CallbackState {
    open spec fn violations(&self, path: Seq<char>) -> Seq<(Seq<char>, Seq<char>)> {
        opt_min_len_vio(child(path, "id"@), self.id) + self.action.violations(
            child(path, "action"@),
        ) + option_vio(child(path, "timeouts"@), self.timeouts) + option_vio(
            child(path, "event_data_filter"@),
            self.event_data_filter,
        ) + option_vio(child(path, "state_data_filter"@), self.state_data_filter) + opt_seq_vio(
            child(path, "on_errors"@),
            self.on_errors,
        ) + option_vio(child(path, "transition"@), self.transition) + option_vio(
            child(path, "end"@),
            self.end,
        ) + opt_min_len_vio(child(path, "compensated_by"@), self.compensated_by)
            + compensation_vio(
            child(path, "used_for_compensation"@),
            self.used_for_compensation,
            self.transition is Some,
            self.end is Some,
        ) + option_vio(child(path, "metadata"@), self.metadata)
    }

    fn validate_into(&self, path: &str, report: &mut Report) {
        // The report grows by each field's violations in order; `seen`
        // tracks what has been appended so far.
        check_opt_min_len(report, child_path(path, "id"), &self.id);
        let ghost mut seen = opt_min_len_vio(child(path@, "id"@), self.id);
        self.action.validate_into(child_path(path, "action").as_str(), report);
        proof {
            vstd::seq_lib::lemma_concat_associative(
                old(report)@,
                seen,
                self.action.violations(child(path@, "action"@)),
            );
            seen = seen + self.action.violations(child(path@, "action"@));
        }
        check_option(report, child_path(path, "timeouts"), &self.timeouts);
        proof {
            vstd::seq_lib::lemma_concat_associative(
                old(report)@,
                seen,
                option_vio(child(path@, "timeouts"@), self.timeouts),
            );
            seen = seen + option_vio(child(path@, "timeouts"@), self.timeouts);
        }
        check_option(report, child_path(path, "event_data_filter"), &self.event_data_filter);
        proof {
            vstd::seq_lib::lemma_concat_associative(
                old(report)@,
                seen,
                option_vio(child(path@, "event_data_filter"@), self.event_data_filter),
            );
            seen = seen + option_vio(child(path@, "event_data_filter"@), self.event_data_filter);
        }
        check_option(report, child_path(path, "state_data_filter"), &self.state_data_filter);
        proof {
            vstd::seq_lib::lemma_concat_associative(
                old(report)@,
                seen,
                option_vio(child(path@, "state_data_filter"@), self.state_data_filter),
            );
            seen = seen + option_vio(child(path@, "state_data_filter"@), self.state_data_filter);
        }
        check_opt_seq(report, child_path(path, "on_errors"), &self.on_errors);
        proof {
            vstd::seq_lib::lemma_concat_associative(
                old(report)@,
                seen,
                opt_seq_vio(child(path@, "on_errors"@), self.on_errors),
            );
            seen = seen + opt_seq_vio(child(path@, "on_errors"@), self.on_errors);
        }
        check_option(report, child_path(path, "transition"), &self.transition);
        proof {
            vstd::seq_lib::lemma_concat_associative(
                old(report)@,
                seen,
                option_vio(child(path@, "transition"@), self.transition),
            );
            seen = seen + option_vio(child(path@, "transition"@), self.transition);
        }
        check_option(report, child_path(path, "end"), &self.end);
        proof {
            vstd::seq_lib::lemma_concat_associative(
                old(report)@,
                seen,
                option_vio(child(path@, "end"@), self.end),
            );
            seen = seen + option_vio(child(path@, "end"@), self.end);
        }
        check_opt_min_len(report, child_path(path, "compensated_by"), &self.compensated_by);
        proof {
            vstd::seq_lib::lemma_concat_associative(
                old(report)@,
                seen,
                opt_min_len_vio(child(path@, "compensated_by"@), self.compensated_by),
            );
            seen = seen + opt_min_len_vio(child(path@, "compensated_by"@), self.compensated_by);
        }
        check_compensation(report, child_path(path, "used_for_compensation"), &self.transition, &self.end, self.used_for_compensation);
        proof {
            vstd::seq_lib::lemma_concat_associative(
                old(report)@,
                seen,
                compensation_vio(child(path@, "used_for_compensation"@), self.used_for_compensation, self.transition is Some, self.end is Some),
            );
            seen = seen + compensation_vio(child(path@, "used_for_compensation"@), self.used_for_compensation, self.transition is Some, self.end is Some);
        }
        check_option(report, child_path(path, "metadata"), &self.metadata);
        proof {
            vstd::seq_lib::lemma_concat_associative(
                old(report)@,
                seen,
                option_vio(child(path@, "metadata"@), self.metadata),
            );
            seen = seen + option_vio(child(path@, "metadata"@), self.metadata);
        }
    }
}

/// Callback-state-specific timeouts.
#[derive(Clone, Debug)]
pub struct CallbackStateTimeouts {
    /// State execution timeout.
    pub state_exec_timeout: Option<StateExecTimeout>,
    /// Action execution timeout.
    pub action_exec_timeout: Option<ActionExecTimeout>,
    /// Event timeout.
    pub event_timeout: Option<EventTimeout>,
}

impl Validated for CallbackStateTimeouts {
    open spec fn violations(&self, path: Seq<char>) -> Seq<(Seq<char>, Seq<char>)> {
        option_vio(child(path, "state_exec_timeout"@), self.state_exec_timeout) + option_vio(
            child(path, "action_exec_timeout"@),
            self.action_exec_timeout,
        ) + option_vio(child(path, "event_timeout"@), self.event_timeout)
    }

    fn validate_into(&self, path: &str, report: &mut Report) {
        check_option(report, child_path(path, "state_exec_timeout"), &self.state_exec_timeout);
        check_option(report, child_path(path, "action_exec_timeout"), &self.action_exec_timeout);
        check_option(report, child_path(path, "event_timeout"), &self.event_timeout);
        proof {
            assert(final(report)@ =~= old(report)@ + self.violations(path@));
        }
    }
}

/// Workflow start definition.
#[derive(Clone, Debug)]
pub enum StartDef {
    /// Name of the starting workflow state.
    ByName(String),
    /// Full start definition.
    Complex {
        /// Name of the starting workflow state.
        state_name: String,
        /// When workflow instances should be started automatically.
        schedule: Schedule,
    },
}

impl StartDef {
    /// The start state's name.
    pub open spec fn spec_state_name(&self) -> Seq<char> {
        match *self {
            StartDef::ByName(name) => name@,
            StartDef::Complex { state_name, schedule } => state_name@,
        }
    }

    /// Returns the start state's name.
    pub fn state_name(&self) -> (r: &str)
        ensures
            r@ == self.spec_state_name(),
    {
        match self {
            StartDef::ByName(name) => name.as_str(),
            StartDef::Complex { state_name, schedule } => state_name.as_str(),
        }
    }

    /// Returns the schedule to use to start the workflow, when the
    /// workflow has one.
    pub fn schedule(&self) -> (r: Option<&Schedule>)
        ensures
            match r {
                Some(s) => self matches StartDef::Complex { state_name, schedule } && *s
                    == schedule,
                None => self is ByName,
            },
    {
        match self {
            StartDef::ByName(_) => None,
            StartDef::Complex { state_name, schedule } => Some(schedule),
        }
    }
}

impl Validated for StartDef {
    open spec fn violations(&self, path: Seq<char>) -> Seq<(Seq<char>, Seq<char>)> {
        match *self {
            StartDef::ByName(name) => min_len_vio(path, name@),
            StartDef::Complex { state_name, schedule } => min_len_vio(
                child(path, "state_name"@),
                state_name@,
            ) + schedule.violations(child(path, "schedule"@)),
        }
    }

    fn validate_into(&self, path: &str, report: &mut Report) {
        match self {
            StartDef::ByName(name) => {
                check_min_len(report, path.to_owned(), name.as_str());
            },
            StartDef::Complex { state_name, schedule } => {
                check_min_len(report, child_path(path, "state_name"), state_name.as_str());
                schedule.validate_into(child_path(path, "schedule").as_str(), report);
                proof {
                    assert(final(report)@ =~= old(report)@ + self.violations(path@));
                }
            },
        }
    }
}

/// Schedule definition.
#[derive(Clone, Debug)]
pub enum Schedule {
    /// Repeating time interval (ISO 8601 format) at which workflow
    /// instances are created.
    TimeInterval(String),
    /// Full start schedule definition.
    Complex {
        /// Repeating time interval (ISO 8601 format).
        interval: Option<String>,
        /// Cron definition.
        cron: Option<CronDef>,
        /// Timezone name used to evaluate the interval and the cron
        /// expression.
        timezone: Option<String>,
    },
}

impl Schedule {
    /// The schedule's interval, when it has one.
    pub open spec fn spec_interval(&self) -> Option<Seq<char>> {
        match *self {
            Schedule::TimeInterval(interval) => Some(interval@),
            Schedule::Complex { interval, cron, timezone } => match interval {
                Some(s) => Some(s@),
                None => None,
            },
        }
    }

    /// Returns the schedule's interval: the contained interval value of
    /// a plain time interval, or the interval field of a full schedule.
    pub fn interval(&self) -> (r: Option<&String>)
        ensures
            match r {
                Some(s) => self.spec_interval() == Some(s@),
                None => self.spec_interval() is None,
            },
    {
        match self {
            Schedule::TimeInterval(interval) => Some(interval),
            Schedule::Complex { interval, cron, timezone } => interval.as_ref(),
        }
    }
}

impl Validated for Schedule {
    open spec fn violations(&self, path: Seq<char>) -> Seq<(Seq<char>, Seq<char>)> {
        match *self {
            Schedule::TimeInterval(interval) => min_len_vio(path, interval@),
            Schedule::Complex { interval, cron, timezone } => opt_min_len_vio(
                child(path, "interval"@),
                interval,
            ) + option_vio(child(path, "cron"@), cron) + one_of_two_vio(
                child(path, "cron"@),
                "cron"@,
                "interval"@,
                cron is Some,
                interval is Some,
            ),
        }
    }

    fn validate_into(&self, path: &str, report: &mut Report) {
        match self {
            Schedule::TimeInterval(interval) => {
                check_min_len(report, path.to_owned(), interval.as_str());
            },
            Schedule::Complex { interval, cron, timezone } => {
                check_opt_min_len(report, child_path(path, "interval"), interval);
                check_option(report, child_path(path, "cron"), cron);
                check_one_of_two(
                    report,
                    child_path(path, "cron"),
                    "cron",
                    "interval",
                    cron,
                    interval,
                );
                proof {
                    assert(final(report)@ =~= old(report)@ + self.violations(path@));
                }
            },
        }
    }
}

/// State end definition.
#[derive(Clone, Debug)]
pub enum End {
    /// Simple end definition; only valid as the literal value `true`.
    Simple(bool),
    /// Full end definition.
    Complex {
        /// If `true`, completes all execution flows in the workflow
        /// instance.
        terminate: bool,
        /// Events that should be produced.
        produce_events: Option<Vec<ProduceEventDef>>,
        /// If `true`, triggers workflow compensation.
        compensate: bool,
        /// "Continue as" configuration.
        continue_as: Option<ContinueAsDef>,
    },
}

impl Validated for End {
    open spec fn violations(&self, path: Seq<char>) -> Seq<(Seq<char>, Seq<char>)> {
        match *self {
            End::Simple(b) => must_be_true_vio(path, b),
            End::Complex { terminate, produce_events, compensate, continue_as } => opt_seq_vio(
                child(path, "produce_events"@),
                produce_events,
            ) + option_vio(child(path, "continue_as"@), continue_as),
        }
    }

    fn validate_into(&self, path: &str, report: &mut Report) {
        match self {
            End::Simple(b) => {
                check_must_be_true(report, path.to_owned(), b);
            },
            End::Complex { terminate, produce_events, compensate, continue_as } => {
                check_opt_seq(report, child_path(path, "produce_events"), produce_events);
                check_option(report, child_path(path, "continue_as"), continue_as);
                proof {
                    assert(final(report)@ =~= old(report)@ + self.violations(path@));
                }
            },
        }
    }
}

/// Produces an event and sets its data.
#[derive(Clone, Debug)]
pub struct ProduceEventDef {
    /// References a name of a defined event.
    pub event_ref: String,
    /// The produced event's data.
    pub data: Option<Data>,
    /// Additional event extension context attributes.
    pub context_attributes: Option<ContextAttributes>,
}

impl Validated for ProduceEventDef {
    open spec fn violations(&self, path: Seq<char>) -> Seq<(Seq<char>, Seq<char>)> {
        option_vio(child(path, "data"@), self.data) + option_vio(
            child(path, "context_attributes"@),
            self.context_attributes,
        )
    }

    fn validate_into(&self, path: &str, report: &mut Report) {
        check_option(report, child_path(path, "data"), &self.data);
        check_option(report, child_path(path, "context_attributes"), &self.context_attributes);
        proof {
            assert(final(report)@ =~= old(report)@ + self.violations(path@));
        }
    }
}

/// State data filter.
#[derive(Clone, Debug)]
pub struct StateDataFilter {
    /// Workflow expression filtering the state data input.
    pub input: Option<String>,
    /// Workflow expression filtering the state data output.
    pub output: Option<String>,
}

impl Validated for StateDataFilter {
    open spec fn violations(&self, path: Seq<char>) -> Seq<(Seq<char>, Seq<char>)> {
        Seq::<(Seq<char>, Seq<char>)>::empty()
    }

    fn validate_into(&self, path: &str, report: &mut Report) {
        proof {
            assert(report@ =~= report@ + self.violations(path@));
        }
    }
}

/// Event data filter.
#[derive(Clone, Debug)]
pub struct EventDataFilter {
    /// If `false`, the event payload is not merged into state data.
    pub use_data: bool,
    /// Workflow expression filtering the received event payload.
    pub data: Option<String>,
    /// Workflow expression selecting the state data element the filtered
    /// event is merged into.
    pub to_state_data: Option<String>,
}

impl Validated for EventDataFilter {
    open spec fn violations(&self, path: Seq<char>) -> Seq<(Seq<char>, Seq<char>)> {
        Seq::<(Seq<char>, Seq<char>)>::empty()
    }

    fn validate_into(&self, path: &str, report: &mut Report) {
        proof {
            assert(report@ =~= report@ + self.violations(path@));
        }
    }
}

/// Action data filter.
#[derive(Clone, Debug)]
pub struct ActionDataFilter {
    /// Workflow expression selecting state data the action can use.
    pub from_state_data: Option<String>,
    /// If `false`, action data results are not merged into state data.
    pub use_results: bool,
    /// Workflow expression filtering the action's data results.
    pub results: Option<String>,
    /// Workflow expression selecting the state data element the results
    /// are merged into.
    pub to_state_data: Option<String>,
}

impl Validated for ActionDataFilter {
    open spec fn violations(&self, path: Seq<char>) -> Seq<(Seq<char>, Seq<char>)> {
        Seq::<(Seq<char>, Seq<char>)>::empty()
    }

    fn validate_into(&self, path: &str, report: &mut Report) {
        proof {
            assert(report@ =~= report@ + self.violations(path@));
        }
    }
}

} // verus!

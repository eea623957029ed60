//! Decoding of parsed JSON value trees into the document model.
//!
//! The wire formats are parsed by serde into an opaque value tree; the
//! functions here walk that tree and build the library's own document
//! types from plain values, applying the schema's defaults and
//! reporting a message for each malformed field.

use vstd::prelude::*;

use crate::definition::auth::{
    Auth,
    AuthDef,
    AuthDefProperties,
    BasicPropsDef,
    BasicPropsDefAuthInfo,
    BearerPropsDef,
    BearerPropsDefAuthInfo,
    GrantType,
    OAuth2PropsDef,
    OAuth2PropsDefAuthInfo,
    Scheme,
};
use crate::definition::common::{ExecutionMode, InvocationMode, Metadata, NonNegativeNumber};
use crate::definition::errors::{ErrorDef, Errors};
use crate::definition::events::{CorrelationDef, EventDef, EventKind, Events};
use crate::definition::functions::{Function, FunctionType, FunctionView, Functions, FunctionsDocument};
use crate::definition::retries::{Retries, RetryDef};
use crate::definition::secrets::Secrets;
use crate::definition::timeouts::{
    ActionExecTimeout,
    BranchExecTimeout,
    EventTimeout,
    StateExecTimeout,
    Timeouts,
    WorkflowExecTimeout,
};
use crate::definition::{
    Action,
    ActionDataFilter,
    Branch,
    BranchTimeouts,
    CallbackState,
    CallbackStateTimeouts,
    CompletionType,
    Constants,
    ContextAttributes,
    ContinueAsDef,
    CronDef,
    Data,
    DataBasedSwitchState,
    DataBasedSwitchStateTimeouts,
    DataCondition,
    DataInputSchema,
    DefaultConditionDef,
    End,
    EndDataCondition,
    EndEventCondition,
    Error,
    EventBasedSwitchState,
    EventBasedSwitchStateTimeouts,
    EventCondition,
    EventDataFilter,
    EventRef,
    EventState,
    EventStateTimeouts,
    ForEachState,
    ForEachStateTimeouts,
    FunctionArguments,
    FunctionRef,
    Identifier,
    InjectData,
    InjectState,
    InjectStateTimeouts,
    OnComplete,
    OnEvents,
    OperationState,
    OperationStateTimeouts,
    ParallelState,
    ParallelStateTimeouts,
    ProduceEventDef,
    Schedule,
    Sleep,
    SleepState,
    SleepStateTimeouts,
    StartDef,
    State,
    StateDataFilter,
    SubflowRef,
    SwitchState,
    Transition,
    TransitionDataCondition,
    TransitionEventCondition,
    WorkflowDefinition,
};
use crate::json::{
    json_model,
    string_map_of,
    JsonModel,
    value_as_array,
    value_as_bool,
    value_as_i64,
    value_as_str,
    value_get,
    value_is_number,
    value_keys,
    value_is_object,
    value_string_entries,
};
use crate::strings::str_eq;
use crate::uri::Uri;
use crate::validation::{
    child,
    lemma_seq_vio_empty,
    min_len_vio,
    opt_min_len_vio,
    opt_vec_min_len_vio,
    seq_min_len_vio,
    violation_free,
    Validated,
    ValidateDefinition,
};

verus! {

/// The message reported for a field of unexpected shape.
pub open spec fn type_err_msg(key: Seq<char>, expected: Seq<char>) -> Seq<char> {
    "field `"@ + key + "` must be "@ + expected
}

/// A decoding failure message for a field of unexpected shape.
fn type_msg(key: &str, expected: &str) -> (r: String)
    ensures
        r@ == type_err_msg(key@, expected@),
{
    "field `".to_owned().concat(key).concat("` must be ").concat(expected)
}

/// The message reported for an absent required field.
pub open spec fn missing_err_msg(key: Seq<char>) -> Seq<char> {
    "missing required field `"@ + key + "`"@
}

/// A decoding failure message for an absent required field.
fn missing_msg(key: &str) -> (r: String)
    ensures
        r@ == missing_err_msg(key@),
{
    "missing required field `".to_owned().concat(key).concat("`")
}

/// The message reported for a field outside a definition's schema.
pub open spec fn unknown_field_msg(what: Seq<char>) -> Seq<char> {
    "unknown field in "@ + what + " definition"@
}

/// The set of field names a slice of allowed names denotes.
pub open spec fn name_set(allowed: Seq<&str>) -> Set<Seq<char>> {
    allowed.map_values(|s: &str| s@).to_set()
}

/// Checks that the tree carries no field outside the allowed names,
/// mirroring the schema's rejection of unknown fields. A tree that is
/// no object passes here; its shape error surfaces from the readers.
fn check_known_keys(v: &serde_json::Value, allowed: &[&str], what: &str) -> (r: Result<(), String>)
    ensures
        match json_model(*v) {
            JsonModel::Obj(map) => {
                &&& (r is Ok <==> map.dom() <= name_set(allowed@))
                &&& (r matches Err(e) ==> e@ == unknown_field_msg(what@))
            },
            _ => r is Ok,
        },
{
    let keys = match value_keys(v) {
        Some(ks) => ks,
        None => {
            return Ok(());
        },
    };
    let n = keys.len();
    let an = allowed.len();
    let mut i: usize = 0;
    while i < n
        invariant
            n == keys@.len(),
            an == allowed@.len(),
            0 <= i <= n,
            json_model(*v) is Obj,
            forall|k: int| 0 <= k < i ==> name_set(allowed@).contains(#[trigger] keys@[k]@),
            forall|k: int|
                0 <= k < n ==> (json_model(*v))->Obj_0.contains_key(#[trigger] keys@[k]@),
            forall|k: Seq<char>|
                (json_model(*v))->Obj_0.contains_key(k) ==> exists|t: int|
                    0 <= t < keys@.len() && #[trigger] keys@[t]@ == k,
        decreases n - i,
    {
        let mut j: usize = 0;
        let mut found = false;
        while j < an
            invariant
                0 <= j <= an,
                an == allowed@.len(),
                i < n,
                n == keys@.len(),
                !found ==> forall|t: int|
                    0 <= t < j ==> (#[trigger] allowed@[t])@ != keys@[i as int]@,
                found ==> name_set(allowed@).contains(keys@[i as int]@),
            decreases an - j,
        {
            if str_eq(keys[i].as_str(), allowed[j]) {
                proof {
                    let s = allowed@.map_values(|a: &str| a@);
                    assert(s[j as int] == keys@[i as int]@);
                    assert(s.contains(keys@[i as int]@));
                }
                found = true;
                j = an;
            } else {
                j += 1;
            }
        }
        if !found {
            let m = "unknown field in ".to_owned().concat(what).concat(" definition");
            proof {
                let x = keys@[i as int]@;
                let map = (json_model(*v))->Obj_0;
                assert(map.contains_key(x));
                assert(!name_set(allowed@).contains(x)) by {
                    if name_set(allowed@).contains(x) {
                        let s = allowed@.map_values(|a: &str| a@);
                        assert(s.contains(x));
                        let t = choose|t: int| 0 <= t < s.len() && s[t] == x;
                        assert(allowed@[t]@ == x);
                    }
                }
                assert(map.dom().contains(x));
                assert(!(map.dom() <= name_set(allowed@)));
            }
            return Err(m);
        }
        i += 1;
    }
    proof {
        let map = (json_model(*v))->Obj_0;
        assert forall|k: Seq<char>| map.dom().contains(k) implies name_set(allowed@).contains(
            k,
        ) by {
            assert(map.contains_key(k));
            let t = choose|t: int| 0 <= t < keys@.len() && #[trigger] keys@[t]@ == k;
            assert(name_set(allowed@).contains(keys@[t]@));
        }
        assert(map.dom() <= name_set(allowed@));
    }
    Ok(())
}

/// What reading an optional string field of a tree yields: its text
/// when present as a string, nothing when absent (or when the tree is
/// no object), and a message when present with another shape.
pub open spec fn model_opt_string(m: JsonModel, key: Seq<char>) -> Result<
    Option<Seq<char>>,
    Seq<char>,
> {
    match m {
        JsonModel::Obj(map) => if map.contains_key(key) {
            match map[key] {
                JsonModel::Text(s) => Ok(Some(s)),
                _ => Err(type_err_msg(key, "a string"@)),
            }
        } else {
            Ok(None)
        },
        _ => Ok(None),
    }
}

/// Reads an optional string field.
fn opt_string(v: &serde_json::Value, key: &str) -> (r: Result<Option<String>, String>)
    ensures
        ({
            let mr = model_opt_string(json_model(*v), key@);
            match r {
                Ok(os) => mr matches Ok(ms) && (match os {
                    Some(s) => ms matches Some(t) && t == s@,
                    None => ms is None,
                }),
                Err(e) => mr matches Err(me) && me == e@,
            }
        }),
{
    match value_get(v, key) {
        Some(x) => match value_as_str(x) {
            Some(s) => Ok(Some(s.to_owned())),
            None => Err(type_msg(key, "a string")),
        },
        None => Ok(None),
    }
}

/// What reading a required string field of a tree yields: its text when
/// present as a string, a missing-field message when absent (or when
/// the tree is no object), and a shape message otherwise.
pub open spec fn model_req_string(m: JsonModel, key: Seq<char>) -> Result<Seq<char>, Seq<char>> {
    match m {
        JsonModel::Obj(map) => if map.contains_key(key) {
            match map[key] {
                JsonModel::Text(s) => Ok(s),
                _ => Err(type_err_msg(key, "a string"@)),
            }
        } else {
            Err(missing_err_msg(key))
        },
        _ => Err(missing_err_msg(key)),
    }
}

/// Reads a required string field.
fn req_string(v: &serde_json::Value, key: &str) -> (r: Result<String, String>)
    ensures
        ({
            let mr = model_req_string(json_model(*v), key@);
            match r {
                Ok(s) => mr matches Ok(ms) && ms == s@,
                Err(e) => mr matches Err(me) && me == e@,
            }
        }),
{
    match value_get(v, key) {
        Some(x) => match value_as_str(x) {
            Some(s) => Ok(s.to_owned()),
            None => Err(type_msg(key, "a string")),
        },
        None => Err(missing_msg(key)),
    }
}

/// What reading an optional boolean field of a tree yields: its value
/// when present as a boolean, the default when absent (or when the tree
/// is no object), and a message when present with another shape.
pub open spec fn model_bool_or(m: JsonModel, key: Seq<char>, default: bool) -> Result<
    bool,
    Seq<char>,
> {
    match m {
        JsonModel::Obj(map) => if map.contains_key(key) {
            match map[key] {
                JsonModel::Bool(b) => Ok(b),
                _ => Err(type_err_msg(key, "a boolean"@)),
            }
        } else {
            Ok(default)
        },
        _ => Ok(default),
    }
}

/// Reads an optional boolean field, falling back to a default.
fn bool_or(v: &serde_json::Value, key: &str, default: bool) -> (r: Result<bool, String>)
    ensures
        ({
            let mr = model_bool_or(json_model(*v), key@, default);
            match r {
                Ok(b) => mr == Ok::<bool, Seq<char>>(b),
                Err(e) => mr matches Err(me) && me == e@,
            }
        }),
{
    match value_get(v, key) {
        Some(x) => match value_as_bool(x) {
            Some(b) => Ok(b),
            None => Err(type_msg(key, "a boolean")),
        },
        None => Ok(default),
    }
}

/// What reading an optional array-of-strings field of a tree yields:
/// the texts in order when present as an array of strings, nothing when
/// absent (or when the tree is no object), and a message when present
/// with another shape.
pub open spec fn model_opt_string_list(m: JsonModel, key: Seq<char>) -> Result<
    Option<Seq<Seq<char>>>,
    Seq<char>,
> {
    match m {
        JsonModel::Obj(map) => if map.contains_key(key) {
            match map[key] {
                JsonModel::Arr(elems) => if forall|i: int|
                    0 <= i < elems.len() ==> (#[trigger] elems[i]) is Text {
                    Ok(Some(elems.map_values(|e: JsonModel| e->Text_0)))
                } else {
                    Err(type_err_msg(key, "an array of strings"@))
                },
                _ => Err(type_err_msg(key, "an array"@)),
            }
        } else {
            Ok(None)
        },
        _ => Ok(None),
    }
}

/// Reads an optional array-of-strings field.
fn opt_string_vec(v: &serde_json::Value, key: &str) -> (r: Result<Option<Vec<String>>, String>)
    ensures
        ({
            let mr = model_opt_string_list(json_model(*v), key@);
            match r {
                Ok(os) => mr matches Ok(ms) && (match os {
                    Some(ss) => ms matches Some(ts) && ts == ss@.map_values(|s: String| s@),
                    None => ms is None,
                }),
                Err(e) => mr matches Err(me) && me == e@,
            }
        }),
{
    match value_get(v, key) {
        Some(x) => match value_as_array(x) {
            Some(items) => {
                let ghost elems = (json_model(*x))->Arr_0;
                let mut out: Vec<String> = Vec::new();
                let n = items.len();
                let mut i: usize = 0;
                while i < n
                    invariant
                        n == items@.len(),
                        0 <= i <= n,
                        out@.len() == i,
                        json_model(*v) matches JsonModel::Obj(map) && map.contains_key(key@)
                            && map[key@] == JsonModel::Arr(elems),
                        elems.len() == n,
                        forall|j: int|
                            0 <= j < n ==> json_model(#[trigger] items@[j]) == elems[j],
                        forall|j: int|
                            0 <= j < i ==> (#[trigger] elems[j]) is Text && out@[j]@
                                == elems[j]->Text_0,
                    decreases n - i,
                {
                    match value_as_str(&items[i]) {
                        Some(s) => out.push(s.to_owned()),
                        None => {
                            proof {
                                assert(!(elems[i as int] is Text));
                            }
                            return Err(type_msg(key, "an array of strings"));
                        },
                    }
                    i += 1;
                }
                proof {
                    assert(elems.map_values(|e: JsonModel| e->Text_0) =~= out@.map_values(
                        |s: String| s@,
                    ));
                }
                Ok(Some(out))
            },
            None => Err(type_msg(key, "an array")),
        },
        None => Ok(None),
    }
}

/// Reads a required array-of-strings field.
fn req_string_vec(v: &serde_json::Value, key: &str) -> (r: Result<Vec<String>, String>) {
    match opt_string_vec(v, key)? {
        Some(items) => Ok(items),
        None => Err(missing_msg(key)),
    }
}

/// Decodes a string as one word of a closed word list, by equality.
fn decode_execution_mode(v: &serde_json::Value, key: &str, default: ExecutionMode) -> (r: Result<
    ExecutionMode,
    String,
>) {
    match value_get(v, key) {
        Some(x) => match value_as_str(x) {
            Some(s) => {
                if str_eq(s, "sequential") {
                    Ok(ExecutionMode::Sequential)
                } else if str_eq(s, "parallel") {
                    Ok(ExecutionMode::Parallel)
                } else {
                    Err(type_msg(key, "`sequential` or `parallel`"))
                }
            },
            None => Err(type_msg(key, "a string")),
        },
        None => Ok(default),
    }
}

/// Decodes an invocation mode field, defaulting to synchronous.
fn decode_invocation_mode(v: &serde_json::Value, key: &str) -> (r: Result<
    InvocationMode,
    String,
>) {
    match value_get(v, key) {
        Some(x) => match value_as_str(x) {
            Some(s) => {
                if str_eq(s, "sync") {
                    Ok(InvocationMode::Sync)
                } else if str_eq(s, "async") {
                    Ok(InvocationMode::Async)
                } else {
                    Err(type_msg(key, "`sync` or `async`"))
                }
            },
            None => Err(type_msg(key, "a string")),
        },
        None => Ok(crate::sync()),
    }
}

/// Decodes a numeric-or-numeric-string field.
fn decode_non_negative_number(x: &serde_json::Value, key: &str) -> (r: Result<
    NonNegativeNumber,
    String,
>) {
    if value_is_number(x) {
        match value_as_i64(x) {
            Some(n) => Ok(NonNegativeNumber::Number(n)),
            None => Err(type_msg(key, "an integer or a string")),
        }
    } else {
        match value_as_str(x) {
            Some(s) => Ok(NonNegativeNumber::Text(s.to_owned())),
            None => Err(type_msg(key, "an integer or a string")),
        }
    }
}

/// Reads an optional numeric-or-numeric-string field.
fn opt_non_negative_number(v: &serde_json::Value, key: &str) -> (r: Result<
    Option<NonNegativeNumber>,
    String,
>) {
    match value_get(v, key) {
        Some(x) => Ok(Some(decode_non_negative_number(x, key)?)),
        None => Ok(None),
    }
}

/// Decodes metadata: an object whose values are all strings.
fn decode_metadata(x: &serde_json::Value) -> (r: Result<Metadata, String>)
    ensures
        match r {
            Ok(md) => string_map_of(json_model(*x)) == Some(md.map_view()) && md.wf(),
            Err(e) => string_map_of(json_model(*x)) is None && e@ == type_err_msg(
                "metadata"@,
                "an object of strings"@,
            ),
        },
{
    match value_string_entries(x) {
        Some(meta) => Ok(Metadata { meta }),
        None => Err(type_msg("metadata", "an object of strings")),
    }
}

/// What reading the optional metadata field of a tree yields: the
/// property map when present as an object of strings, nothing when
/// absent, and a message otherwise.
pub open spec fn model_opt_metadata(m: JsonModel) -> Result<
    Option<Map<Seq<char>, Seq<char>>>,
    Seq<char>,
> {
    match m {
        JsonModel::Obj(map) => if map.contains_key("metadata"@) {
            match string_map_of(map["metadata"@]) {
                Some(sm) => Ok(Some(sm)),
                None => Err(type_err_msg("metadata"@, "an object of strings"@)),
            }
        } else {
            Ok(None)
        },
        _ => Ok(None),
    }
}

/// Reads an optional metadata field.
fn opt_metadata(v: &serde_json::Value) -> (r: Result<Option<Metadata>, String>)
    ensures
        ({
            let mr = model_opt_metadata(json_model(*v));
            match r {
                Ok(om) => mr matches Ok(mm) && (match om {
                    Some(md) => mm == Some(md.map_view()) && md.wf(),
                    None => mm is None,
                }),
                Err(e) => mr matches Err(me) && me == e@,
            }
        }),
{
    match value_get(v, "metadata") {
        Some(x) => match decode_metadata(x) {
            Ok(md) => Ok(Some(md)),
            Err(e) => Err(e),
        },
        None => Ok(None),
    }
}

/// Decodes a state data filter.
fn decode_state_data_filter(x: &serde_json::Value) -> (r: Result<StateDataFilter, String>) {
    check_known_keys(x, &["input", "output"], "state data filter")?;
    Ok(StateDataFilter { input: opt_string(x, "input")?, output: opt_string(x, "output")? })
}

/// Reads an optional state data filter field; an absent field reads as
/// nothing.
fn opt_state_data_filter(v: &serde_json::Value) -> (r: Result<Option<StateDataFilter>, String>)
    ensures
        (match json_model(*v) {
            JsonModel::Obj(map) => !map.contains_key("stateDataFilter"@) ==> r == Ok::<
                Option<StateDataFilter>,
                String,
            >(None),
            _ => r == Ok::<Option<StateDataFilter>, String>(None),
        }),
{
    match value_get(v, "stateDataFilter") {
        Some(x) => Ok(Some(decode_state_data_filter(x)?)),
        None => Ok(None),
    }
}

/// Decodes an event data filter.
fn decode_event_data_filter(x: &serde_json::Value) -> (r: Result<EventDataFilter, String>) {
    check_known_keys(x, &["useData", "data", "toStateData"], "event data filter")?;
    Ok(
        EventDataFilter {
            use_data: bool_or(x, "useData", crate::true_value())?,
            data: opt_string(x, "data")?,
            to_state_data: opt_string(x, "toStateData")?,
        },
    )
}

/// Reads an optional event data filter field.
fn opt_event_data_filter(v: &serde_json::Value) -> (r: Result<Option<EventDataFilter>, String>) {
    match value_get(v, "eventDataFilter") {
        Some(x) => Ok(Some(decode_event_data_filter(x)?)),
        None => Ok(None),
    }
}

/// Decodes an action data filter.
fn decode_action_data_filter(x: &serde_json::Value) -> (r: Result<ActionDataFilter, String>) {
    check_known_keys(x, &["fromStateData", "useResults", "results", "toStateData"], "action data filter")?;
    Ok(
        ActionDataFilter {
            from_state_data: opt_string(x, "fromStateData")?,
            use_results: bool_or(x, "useResults", crate::true_value())?,
            results: opt_string(x, "results")?,
            to_state_data: opt_string(x, "toStateData")?,
        },
    )
}

/// Decodes event data: a string expression or a custom object.
fn decode_data(x: &serde_json::Value) -> (r: Result<Data, String>) {
    match value_as_str(x) {
        Some(s) => Ok(Data::Expression(s.to_owned())),
        None => {
            if value_is_object(x) {
                Ok(Data::Object { fields: x.clone() })
            } else {
                Err(type_msg("data", "a string or an object"))
            }
        },
    }
}

/// Decodes event context attributes: an object of strings.
fn decode_context_attributes(x: &serde_json::Value) -> (r: Result<ContextAttributes, String>) {
    match value_string_entries(x) {
        Some(attributes) => Ok(ContextAttributes { attributes }),
        None => Err(type_msg("contextAttributes", "an object of strings")),
    }
}

/// Decodes a transition: a state name or a full definition.
fn decode_transition(x: &serde_json::Value) -> (r: Result<Transition, String>) {
    match value_as_str(x) {
        Some(s) => Ok(Transition::ByName(s.to_owned())),
        None => {
            if value_is_object(x) {
                check_known_keys(x, &["nextState", "produceEvents", "compensate"], "transition")?;
                let produce_events = match value_get(x, "produceEvents") {
                    Some(pe) => Some(decode_produce_events(pe)?),
                    None => None,
                };
                Ok(
                    Transition::Complex {
                        next_state: req_string(x, "nextState")?,
                        produce_events,
                        compensate: bool_or(x, "compensate", crate::false_value())?,
                    },
                )
            } else {
                Err(type_msg("transition", "a string or an object"))
            }
        },
    }
}

/// Reads an optional transition field; an absent field reads as
/// nothing.
fn opt_transition(v: &serde_json::Value) -> (r: Result<Option<Transition>, String>)
    ensures
        (match json_model(*v) {
            JsonModel::Obj(map) => !map.contains_key("transition"@) ==> r == Ok::<
                Option<Transition>,
                String,
            >(None),
            _ => r == Ok::<Option<Transition>, String>(None),
        }),
{
    match value_get(v, "transition") {
        Some(x) => Ok(Some(decode_transition(x)?)),
        None => Ok(None),
    }
}

/// Decodes an array of produced-event definitions.
fn decode_produce_events(x: &serde_json::Value) -> (r: Result<Vec<ProduceEventDef>, String>) {
    match value_as_array(x) {
        Some(items) => {
            let mut out: Vec<ProduceEventDef> = Vec::new();
            let n = items.len();
            let mut i: usize = 0;
            while i < n
                invariant
                    n == items@.len(),
                    0 <= i <= n,
                decreases n - i,
            {
                out.push(decode_produce_event(&items[i])?);
                i += 1;
            }
            Ok(out)
        },
        None => Err(type_msg("produceEvents", "an array")),
    }
}

/// Decodes one produced-event definition.
fn decode_produce_event(x: &serde_json::Value) -> (r: Result<ProduceEventDef, String>) {
    check_known_keys(x, &["eventRef", "data", "contextAttributes"], "produced event")?;
    let data = match value_get(x, "data") {
        Some(d) => Some(decode_data(d)?),
        None => None,
    };
    let context_attributes = match value_get(x, "contextAttributes") {
        Some(c) => Some(decode_context_attributes(c)?),
        None => None,
    };
    Ok(ProduceEventDef { event_ref: req_string(x, "eventRef")?, data, context_attributes })
}

/// Decodes a workflow-execution timeout.
fn decode_workflow_exec_timeout(x: &serde_json::Value) -> (r: Result<
    WorkflowExecTimeout,
    String,
>) {
    match value_as_str(x) {
        Some(s) => Ok(WorkflowExecTimeout::Simple(s.to_owned())),
        None => {
            if value_is_object(x) {
                check_known_keys(x, &["duration", "interrupt", "runBefore"], "workflow execution timeout")?;
                Ok(
                    WorkflowExecTimeout::Complex {
                        duration: req_string(x, "duration")?,
                        interrupt: bool_or(x, "interrupt", crate::true_value())?,
                        run_before: opt_string(x, "runBefore")?,
                    },
                )
            } else {
                Err(type_msg("workflowExecTimeout", "a string or an object"))
            }
        },
    }
}

/// Decodes a state-execution timeout.
fn decode_state_exec_timeout(x: &serde_json::Value) -> (r: Result<StateExecTimeout, String>) {
    match value_as_str(x) {
        Some(s) => Ok(StateExecTimeout::Simple(s.to_owned())),
        None => {
            if value_is_object(x) {
                check_known_keys(x, &["single", "total"], "state execution timeout")?;
                Ok(
                    StateExecTimeout::Complex {
                        single: opt_string(x, "single")?,
                        total: req_string(x, "total")?,
                    },
                )
            } else {
                Err(type_msg("stateExecTimeout", "a string or an object"))
            }
        },
    }
}

/// Reads an optional state-execution-timeout field.
fn opt_state_exec_timeout(v: &serde_json::Value) -> (r: Result<Option<StateExecTimeout>, String>) {
    match value_get(v, "stateExecTimeout") {
        Some(x) => Ok(Some(decode_state_exec_timeout(x)?)),
        None => Ok(None),
    }
}

/// Reads an optional action-execution-timeout field.
fn opt_action_exec_timeout(v: &serde_json::Value) -> (r: Result<
    Option<ActionExecTimeout>,
    String,
>) {
    match value_get(v, "actionExecTimeout") {
        Some(x) => match value_as_str(x) {
            Some(s) => Ok(Some(ActionExecTimeout(s.to_owned()))),
            None => Err(type_msg("actionExecTimeout", "a string")),
        },
        None => Ok(None),
    }
}

/// Reads an optional branch-execution-timeout field.
fn opt_branch_exec_timeout(v: &serde_json::Value) -> (r: Result<
    Option<BranchExecTimeout>,
    String,
>) {
    match value_get(v, "branchExecTimeout") {
        Some(x) => match value_as_str(x) {
            Some(s) => Ok(Some(BranchExecTimeout(s.to_owned()))),
            None => Err(type_msg("branchExecTimeout", "a string")),
        },
        None => Ok(None),
    }
}

/// Reads an optional event-timeout field.
fn opt_event_timeout(v: &serde_json::Value) -> (r: Result<Option<EventTimeout>, String>) {
    match value_get(v, "eventTimeout") {
        Some(x) => match value_as_str(x) {
            Some(s) => Ok(Some(EventTimeout(s.to_owned()))),
            None => Err(type_msg("eventTimeout", "a string")),
        },
        None => Ok(None),
    }
}

/// Decodes the workflow-level timeouts definition.
fn decode_timeouts(x: &serde_json::Value) -> (r: Result<Timeouts, String>) {
    match value_as_str(x) {
        Some(s) => Ok(Timeouts::Uri(s.to_owned())),
        None => {
            if value_is_object(x) {
                check_known_keys(x, &["workflowExecTimeout", "stateExecTimeout", "actionExecTimeout", "branchExecTimeout", "eventTimeout"], "timeouts")?;
                let workflow_exec_timeout = match value_get(x, "workflowExecTimeout") {
                    Some(w) => Some(decode_workflow_exec_timeout(w)?),
                    None => None,
                };
                Ok(
                    Timeouts::Complex {
                        workflow_exec_timeout,
                        state_exec_timeout: opt_state_exec_timeout(x)?,
                        action_exec_timeout: opt_action_exec_timeout(x)?,
                        branch_exec_timeout: opt_branch_exec_timeout(x)?,
                        event_timeout: opt_event_timeout(x)?,
                    },
                )
            } else {
                Err(type_msg("timeouts", "a string or an object"))
            }
        },
    }
}

/// Decodes an end definition: a boolean or a full definition. A boolean
/// tree decodes to exactly the simple end it holds.
fn decode_end(x: &serde_json::Value) -> (r: Result<End, String>)
    ensures
        json_model(*x) matches JsonModel::Bool(b) ==> r == Ok::<End, String>(End::Simple(b)),
{
    match value_as_bool(x) {
        Some(b) => Ok(End::Simple(b)),
        None => {
            if value_is_object(x) {
                check_known_keys(x, &["terminate", "produceEvents", "compensate", "continueAs"], "end")?;
                let produce_events = match value_get(x, "produceEvents") {
                    Some(pe) => Some(decode_produce_events(pe)?),
                    None => None,
                };
                let continue_as = match value_get(x, "continueAs") {
                    Some(c) => Some(decode_continue_as(c)?),
                    None => None,
                };
                Ok(
                    End::Complex {
                        terminate: bool_or(x, "terminate", crate::false_value())?,
                        produce_events,
                        compensate: bool_or(x, "compensate", crate::false_value())?,
                        continue_as,
                    },
                )
            } else {
                Err(type_msg("end", "a boolean or an object"))
            }
        },
    }
}

/// Reads an optional end field; an absent field reads as nothing, and a
/// boolean field as exactly the simple end it holds.
fn opt_end(v: &serde_json::Value) -> (r: Result<Option<End>, String>)
    ensures
        (match json_model(*v) {
            JsonModel::Obj(map) => {
                &&& (!map.contains_key("end"@) ==> r == Ok::<Option<End>, String>(None))
                &&& (map.contains_key("end"@) ==> (map["end"@] matches JsonModel::Bool(b) ==> r
                    == Ok::<Option<End>, String>(Some(End::Simple(b)))))
            },
            _ => r == Ok::<Option<End>, String>(None),
        }),
{
    match value_get(v, "end") {
        Some(x) => Ok(Some(decode_end(x)?)),
        None => Ok(None),
    }
}

/// Decodes a "continue as" definition.
fn decode_continue_as(x: &serde_json::Value) -> (r: Result<ContinueAsDef, String>) {
    match value_as_str(x) {
        Some(s) => Ok(ContinueAsDef::Simple(s.to_owned())),
        None => {
            if value_is_object(x) {
                let data = match value_get(x, "data") {
                    Some(d) => Some(decode_data(d)?),
                    None => None,
                };
                let workflow_exec_timeout = match value_get(x, "workflowExecTimeout") {
                    Some(w) => Some(decode_workflow_exec_timeout(w)?),
                    None => None,
                };
                Ok(
                    ContinueAsDef::WithData {
                        workflow_id: req_string(x, "workflowId")?,
                        version: opt_string(x, "version")?,
                        data,
                        workflow_exec_timeout,
                    },
                )
            } else {
                Err(type_msg("continueAs", "a string or an object"))
            }
        },
    }
}

/// Decodes the workflow error definitions.
fn decode_errors(x: &serde_json::Value) -> (r: Result<Errors, String>) {
    match value_as_str(x) {
        Some(s) => Ok(Errors::Uri(s.to_owned())),
        None => match value_as_array(x) {
            Some(items) => {
                let mut out: Vec<ErrorDef> = Vec::new();
                let n = items.len();
                let mut i: usize = 0;
                while i < n
                    invariant
                        n == items@.len(),
                        0 <= i <= n,
                    decreases n - i,
                {
                    out.push(decode_error_def(&items[i])?);
                    i += 1;
                }
                Ok(Errors::Inlined(out))
            },
            None => Err(type_msg("errors", "a string or an array")),
        },
    }
}

/// Decodes one checked-error definition.
fn decode_error_def(x: &serde_json::Value) -> (r: Result<ErrorDef, String>) {
    check_known_keys(x, &["name", "code", "description"], "error")?;
    Ok(
        ErrorDef {
            name: req_string(x, "name")?,
            code: opt_string(x, "code")?,
            description: opt_string(x, "description")?,
        },
    )
}

/// Decodes the workflow event definitions.
fn decode_events(x: &serde_json::Value) -> (r: Result<Events, String>) {
    match value_as_str(x) {
        Some(s) => Ok(Events::Uri(s.to_owned())),
        None => match value_as_array(x) {
            Some(items) => {
                let mut out: Vec<EventDef> = Vec::new();
                let n = items.len();
                let mut i: usize = 0;
                while i < n
                    invariant
                        n == items@.len(),
                        0 <= i <= n,
                    decreases n - i,
                {
                    out.push(decode_event_def(&items[i])?);
                    i += 1;
                }
                Ok(Events::Inline(out))
            },
            None => Err(type_msg("events", "a string or an array")),
        },
    }
}

/// Decodes one event definition.
fn decode_event_def(x: &serde_json::Value) -> (r: Result<EventDef, String>) {
    check_known_keys(x, &["name", "source", "type", "kind", "correlation", "dataOnly", "metadata"], "event")?;
    let kind = match value_get(x, "kind") {
        Some(k) => match value_as_str(k) {
            Some(s) => {
                if str_eq(s, "consumed") {
                    EventKind::Consumed
                } else if str_eq(s, "produced") {
                    EventKind::Produced
                } else {
                    return Err(type_msg("kind", "`consumed` or `produced`"));
                }
            },
            None => {
                return Err(type_msg("kind", "a string"));
            },
        },
        None => crate::consumed(),
    };
    let correlation = match value_get(x, "correlation") {
        Some(c) => match value_as_array(c) {
            Some(items) => {
                let mut out: Vec<CorrelationDef> = Vec::new();
                let n = items.len();
                let mut i: usize = 0;
                while i < n
                    invariant
                        n == items@.len(),
                        0 <= i <= n,
                    decreases n - i,
                {
                    out.push(decode_correlation(&items[i])?);
                    i += 1;
                }
                Some(out)
            },
            None => {
                return Err(type_msg("correlation", "an array"));
            },
        },
        None => None,
    };
    Ok(
        EventDef {
            name: req_string(x, "name")?,
            source: opt_string(x, "source")?,
            event_type: req_string(x, "type")?,
            kind,
            correlation,
            data_only: bool_or(x, "dataOnly", crate::true_value())?,
            metadata: opt_metadata(x)?,
        },
    )
}

/// Decodes one event correlation definition.
fn decode_correlation(x: &serde_json::Value) -> (r: Result<CorrelationDef, String>) {
    check_known_keys(x, &["contextAttributeName", "contextAttributeValue"], "correlation")?;
    Ok(
        CorrelationDef {
            context_attribute_name: req_string(x, "contextAttributeName")?,
            context_attribute_value: opt_string(x, "contextAttributeValue")?,
        },
    )
}

/// Decodes the workflow function definitions.
fn decode_functions(x: &serde_json::Value) -> (r: Result<Functions, String>)
    ensures
        match r {
            Ok(f) => decoded_functions_facts(f, json_model(*x)),
            Err(e) => match json_model(*x) {
                JsonModel::Text(s) => crate::uri::uri_parts(s) is None && e@ == type_err_msg(
                    "functions"@,
                    "a valid URI or an array"@,
                ),
                JsonModel::Arr(ms) => model_function_list(ms) matches Err(me) && me == e@,
                _ => e@ == type_err_msg("functions"@, "a string or an array"@),
            },
        },
{
    match value_as_str(x) {
        Some(s) => match Uri::parse(s) {
            Ok(u) => Ok(Functions::Uri(u)),
            Err(_) => Err(type_msg("functions", "a valid URI or an array")),
        },
        None => match value_as_array(x) {
            Some(items) => {
                proof {
                    if let JsonModel::Arr(ms) = json_model(*x) {
                        assert(models_of(items@) =~= ms);
                    }
                }
                Ok(Functions::Inline(decode_function_list(items)?))
            },
            None => Err(type_msg("functions", "a string or an array")),
        },
    }
}

/// The models of a sequence of JSON value trees.
pub open spec fn models_of(vs: Seq<serde_json::Value>) -> Seq<JsonModel> {
    vs.map_values(|v: serde_json::Value| json_model(v))
}

/// What decoding a sequence of function-definition trees yields: the
/// decoded definitions in order, or the first failing tree's message.
pub open spec fn model_function_list(ms: Seq<JsonModel>) -> Result<Seq<FunctionView>, Seq<char>>
    decreases ms.len(),
{
    if ms.len() == 0 {
        Ok(Seq::<FunctionView>::empty())
    } else {
        match model_function(ms[0]) {
            Err(e) => Err(e),
            Ok(f) => match model_function_list(ms.skip(1)) {
                Err(e) => Err(e),
                Ok(rest) => Ok(seq![f] + rest),
            },
        }
    }
}

/// Whether a decoded function section carries exactly what the given
/// tree determines: a string tree gives the URI it parses to, an array
/// tree gives the inline definitions its elements decode to.
pub open spec fn decoded_functions_facts(f: Functions, m: JsonModel) -> bool {
    match m {
        JsonModel::Text(s) => f matches Functions::Uri(u) && crate::uri::uri_parts(s) == Some(
            (u.scheme@, u.path@, u.raw@),
        ),
        JsonModel::Arr(ms) => f matches Functions::Inline(fs) && model_function_list(ms) == Ok::<
            Seq<FunctionView>,
            Seq<char>,
        >(fs@.map_values(|g: Function| g@)),
        _ => false,
    }
}

/// A sequence of trees that all decode yields the decoded list.
proof fn lemma_function_list_ok(ms: Seq<JsonModel>, views: Seq<FunctionView>)
    requires
        ms.len() == views.len(),
        forall|k: int|
            0 <= k < ms.len() ==> model_function(#[trigger] ms[k]) == Ok::<
                FunctionView,
                Seq<char>,
            >(views[k]),
    ensures
        model_function_list(ms) == Ok::<Seq<FunctionView>, Seq<char>>(views),
    decreases ms.len(),
{
    if ms.len() == 0 {
        assert(views =~= Seq::<FunctionView>::empty());
    } else {
        assert(model_function(ms[0]) == Ok::<FunctionView, Seq<char>>(views[0]));
        assert forall|k: int| 0 <= k < ms.skip(1).len() implies model_function(
            #[trigger] ms.skip(1)[k],
        ) == Ok::<FunctionView, Seq<char>>(views.skip(1)[k]) by {
            assert(ms.skip(1)[k] == ms[k + 1]);
            assert(views.skip(1)[k] == views[k + 1]);
        }
        lemma_function_list_ok(ms.skip(1), views.skip(1));
        assert(seq![views[0]] + views.skip(1) =~= views);
    }
}

/// The first tree that fails to decode gives the list's message.
proof fn lemma_function_list_err(ms: Seq<JsonModel>, i: int, e: Seq<char>)
    requires
        0 <= i < ms.len(),
        forall|k: int| 0 <= k < i ==> model_function(#[trigger] ms[k]) is Ok,
        model_function(ms[i]) == Err::<FunctionView, Seq<char>>(e),
    ensures
        model_function_list(ms) == Err::<Seq<FunctionView>, Seq<char>>(e),
    decreases i,
{
    if i > 0 {
        assert(model_function(ms[0]) is Ok);
        assert forall|k: int| 0 <= k < i - 1 implies model_function(
            #[trigger] ms.skip(1)[k],
        ) is Ok by {
            assert(ms.skip(1)[k] == ms[k + 1]);
        }
        assert(ms.skip(1)[i - 1] == ms[i]);
        lemma_function_list_err(ms.skip(1), i - 1, e);
    }
}

/// Decodes an array of function definitions.
fn decode_function_list(items: &Vec<serde_json::Value>) -> (r: Result<Vec<Function>, String>)
    ensures
        match r {
            Ok(fs) => model_function_list(models_of(items@)) == Ok::<Seq<FunctionView>, Seq<char>>(
                fs@.map_values(|f: Function| f@),
            ),
            Err(e) => model_function_list(models_of(items@)) == Err::<
                Seq<FunctionView>,
                Seq<char>,
            >(e@),
        },
{
    let mut out: Vec<Function> = Vec::new();
    let n = items.len();
    let mut i: usize = 0;
    while i < n
        invariant
            n == items@.len(),
            0 <= i <= n,
            out@.len() == i,
            forall|k: int|
                0 <= k < i ==> model_function(json_model(#[trigger] items@[k])) == Ok::<
                    FunctionView,
                    Seq<char>,
                >(out@[k]@),
        decreases n - i,
    {
        match decode_function(&items[i]) {
            Ok(f) => {
                out.push(f);
            },
            Err(e) => {
                proof {
                    assert forall|k: int| 0 <= k < i implies model_function(
                        #[trigger] models_of(items@)[k],
                    ) is Ok by {
                        assert(models_of(items@)[k] == json_model(items@[k]));
                    }
                    assert(models_of(items@)[i as int] == json_model(items@[i as int]));
                    lemma_function_list_err(models_of(items@), i as int, e@);
                }
                return Err(e);
            },
        }
        i += 1;
    }
    proof {
        let views = out@.map_values(|f: Function| f@);
        assert forall|k: int| 0 <= k < models_of(items@).len() implies model_function(
            #[trigger] models_of(items@)[k],
        ) == Ok::<FunctionView, Seq<char>>(views[k]) by {
            assert(models_of(items@)[k] == json_model(items@[k]));
            assert(views[k] == out@[k]@);
        }
        lemma_function_list_ok(models_of(items@), views);
    }
    Ok(out)
}

/// What reading the function-type field of a tree yields: the matching
/// type for one of the known words, the REST default when absent, and a
/// message otherwise.
pub open spec fn model_function_type(m: JsonModel) -> Result<FunctionType, Seq<char>> {
    match m {
        JsonModel::Obj(map) => if map.contains_key("type"@) {
            match map["type"@] {
                JsonModel::Text(s) => if s == "rest"@ {
                    Ok(FunctionType::Rest)
                } else if s == "asyncapi"@ {
                    Ok(FunctionType::AsyncApi)
                } else if s == "rpc"@ {
                    Ok(FunctionType::GRpc)
                } else if s == "graphql"@ {
                    Ok(FunctionType::GraphQL)
                } else if s == "odata"@ {
                    Ok(FunctionType::OData)
                } else if s == "expression"@ {
                    Ok(FunctionType::Expression)
                } else if s == "custom"@ {
                    Ok(FunctionType::Custom)
                } else {
                    Err(type_err_msg("type"@, "a known function type"@))
                },
                _ => Err(type_err_msg("type"@, "a string"@)),
            }
        } else {
            Ok(FunctionType::Rest)
        },
        _ => Ok(FunctionType::Rest),
    }
}

/// The field names a function definition may carry.
pub open spec fn function_keys() -> Set<Seq<char>> {
    name_set(seq!["name", "operation", "type", "authRef", "metadata"])
}

/// What decoding a function definition from a tree yields: a field
/// outside the schema is rejected; otherwise its fields are read in
/// order (type, name, operation, auth reference, metadata), with the
/// first failing field's message.
pub open spec fn model_function(m: JsonModel) -> Result<FunctionView, Seq<char>> {
    if m matches JsonModel::Obj(map) && !(map.dom() <= function_keys()) {
        Err(unknown_field_msg("function"@))
    } else {
        model_function_fields(m)
    }
}

/// The field-by-field reading of a function definition.
pub open spec fn model_function_fields(m: JsonModel) -> Result<FunctionView, Seq<char>> {
    match model_function_type(m) {
        Err(e) => Err(e),
        Ok(function_type) => match model_req_string(m, "name"@) {
            Err(e) => Err(e),
            Ok(name) => match model_req_string(m, "operation"@) {
                Err(e) => Err(e),
                Ok(operation) => match model_opt_string(m, "authRef"@) {
                    Err(e) => Err(e),
                    Ok(auth_ref) => match model_opt_metadata(m) {
                        Err(e) => Err(e),
                        Ok(metadata) => Ok(
                            FunctionView { name, operation, function_type, auth_ref, metadata },
                        ),
                    },
                },
            },
        },
    }
}

/// Decodes one function definition.
fn decode_function(x: &serde_json::Value) -> (r: Result<Function, String>)
    ensures
        match r {
            Ok(f) => model_function(json_model(*x)) == Ok::<FunctionView, Seq<char>>(f@),
            Err(e) => model_function(json_model(*x)) == Err::<FunctionView, Seq<char>>(e@),
        },
{
    let allowed: [&str; 5] = ["name", "operation", "type", "authRef", "metadata"];
    proof {
        assert(allowed@.map_values(|a: &str| a@) =~= seq![
            "name", "operation", "type", "authRef", "metadata",
        ].map_values(|a: &str| a@));
        assert(name_set(allowed@) == function_keys());
    }
    match check_known_keys(x, &allowed, "function") {
        Ok(_) => {},
        Err(e) => {
            return Err(e);
        },
    }
    let function_type = match value_get(x, "type") {
        Some(t) => match value_as_str(t) {
            Some(s) => {
                if str_eq(s, "rest") {
                    FunctionType::Rest
                } else if str_eq(s, "asyncapi") {
                    FunctionType::AsyncApi
                } else if str_eq(s, "rpc") {
                    FunctionType::GRpc
                } else if str_eq(s, "graphql") {
                    FunctionType::GraphQL
                } else if str_eq(s, "odata") {
                    FunctionType::OData
                } else if str_eq(s, "expression") {
                    FunctionType::Expression
                } else if str_eq(s, "custom") {
                    FunctionType::Custom
                } else {
                    return Err(type_msg("type", "a known function type"));
                }
            },
            None => {
                return Err(type_msg("type", "a string"));
            },
        },
        None => crate::rest(),
    };
    proof {
        assert(model_function_type(json_model(*x)) == Ok::<FunctionType, Seq<char>>(
            function_type,
        ));
    }
    let name = match req_string(x, "name") {
        Ok(s) => s,
        Err(e) => {
            return Err(e);
        },
    };
    let operation = match req_string(x, "operation") {
        Ok(s) => s,
        Err(e) => {
            return Err(e);
        },
    };
    let auth_ref = match opt_string(x, "authRef") {
        Ok(o) => o,
        Err(e) => {
            return Err(e);
        },
    };
    let metadata = match opt_metadata(x) {
        Ok(o) => o,
        Err(e) => {
            return Err(e);
        },
    };
    let f = Function { name, operation, function_type, auth_ref, metadata };
    proof {
        assert(model_function(json_model(*x)) == Ok::<FunctionView, Seq<char>>(f@));
    }
    Ok(f)
}

/// Decodes the workflow secrets definitions.
fn decode_secrets(x: &serde_json::Value) -> (r: Result<Secrets, String>) {
    match value_as_str(x) {
        Some(s) => match Uri::parse(s) {
            Ok(u) => Ok(Secrets::Uri(u)),
            Err(_) => Err(type_msg("secrets", "a valid URI or an array")),
        },
        None => match value_as_array(x) {
            Some(items) => {
                let mut out: Vec<String> = Vec::new();
                let n = items.len();
                let mut i: usize = 0;
                while i < n
                    invariant
                        n == items@.len(),
                        0 <= i <= n,
                    decreases n - i,
                {
                    match value_as_str(&items[i]) {
                        Some(s) => out.push(s.to_owned()),
                        None => {
                            return Err(type_msg("secrets", "an array of strings"));
                        },
                    }
                    i += 1;
                }
                Ok(Secrets::Inline(out))
            },
            None => Err(type_msg("secrets", "a string or an array")),
        },
    }
}

/// Decodes the workflow auth definitions.
fn decode_auth(x: &serde_json::Value) -> (r: Result<Auth, String>) {
    match value_as_str(x) {
        Some(s) => Ok(Auth::Uri(s.to_owned())),
        None => match value_as_array(x) {
            Some(items) => {
                let mut out: Vec<AuthDef> = Vec::new();
                let n = items.len();
                let mut i: usize = 0;
                while i < n
                    invariant
                        n == items@.len(),
                        0 <= i <= n,
                    decreases n - i,
                {
                    out.push(decode_auth_def(&items[i])?);
                    i += 1;
                }
                Ok(Auth::Definitions(out))
            },
            None => Err(type_msg("auth", "a string or an array")),
        },
    }
}

/// Decodes one auth definition.
fn decode_auth_def(x: &serde_json::Value) -> (r: Result<AuthDef, String>) {
    let scheme = match value_get(x, "scheme") {
        Some(s) => match value_as_str(s) {
            Some(w) => {
                if str_eq(w, "basic") {
                    Scheme::Basic
                } else if str_eq(w, "bearer") {
                    Scheme::Bearer
                } else if str_eq(w, "oauth2") {
                    Scheme::OAuth2
                } else {
                    return Err(type_msg("scheme", "`basic`, `bearer` or `oauth2`"));
                }
            },
            None => {
                return Err(type_msg("scheme", "a string"));
            },
        },
        None => crate::basic(),
    };
    let properties = match value_get(x, "properties") {
        Some(p) => decode_auth_properties(p)?,
        None => {
            return Err(missing_msg("properties"));
        },
    };
    Ok(AuthDef { name: req_string(x, "name")?, scheme, properties })
}

/// Decodes auth definition properties, discriminating the auth family
/// by the fields that are present.
fn decode_auth_properties(x: &serde_json::Value) -> (r: Result<AuthDefProperties, String>) {
    match value_as_str(x) {
        Some(s) => Ok(AuthDefProperties::Expression(s.to_owned())),
        None => {
            if value_is_object(x) {
                if value_get(x, "username").is_some() && value_get(x, "password").is_some()
                    && value_get(x, "grantType").is_none() {
                    Ok(
                        AuthDefProperties::BasicAuth(
                            BasicPropsDef::AuthInfo(
                                Box::new(
                                    BasicPropsDefAuthInfo {
                                        username: req_string(x, "username")?,
                                        password: req_string(x, "password")?,
                                        metadata: opt_metadata(x)?,
                                    },
                                ),
                            ),
                        ),
                    )
                } else if value_get(x, "token").is_some() {
                    Ok(
                        AuthDefProperties::BearerAuth(
                            BearerPropsDef::AuthInfo(
                                Box::new(
                                    BearerPropsDefAuthInfo {
                                        token: req_string(x, "token")?,
                                        metadata: opt_metadata(x)?,
                                    },
                                ),
                            ),
                        ),
                    )
                } else {
                    Ok(
                        AuthDefProperties::OAuth2Auth(
                            OAuth2PropsDef::AuthInfo(Box::new(decode_oauth2_info(x)?)),
                        ),
                    )
                }
            } else {
                Err(type_msg("properties", "a string or an object"))
            }
        },
    }
}

/// Decodes OAuth2 auth information.
fn decode_oauth2_info(x: &serde_json::Value) -> (r: Result<OAuth2PropsDefAuthInfo, String>) {
    let grant_type = match value_get(x, "grantType") {
        Some(g) => match value_as_str(g) {
            Some(w) => {
                if str_eq(w, "password") {
                    GrantType::Password
                } else if str_eq(w, "clientCredentials") {
                    GrantType::ClientCredentials
                } else if str_eq(w, "tokenExchange") {
                    GrantType::TokenExchange
                } else {
                    return Err(type_msg("grantType", "a known grant type"));
                }
            },
            None => {
                return Err(type_msg("grantType", "a string"));
            },
        },
        None => {
            return Err(missing_msg("grantType"));
        },
    };
    Ok(
        OAuth2PropsDefAuthInfo {
            authority: opt_string(x, "authority")?,
            grant_type,
            client_id: req_string(x, "clientId")?,
            client_secret: opt_string(x, "clientSecret")?,
            scopes: opt_string_vec(x, "scopes")?,
            username: opt_string(x, "username")?,
            password: opt_string(x, "password")?,
            audiences: opt_string_vec(x, "audiences")?,
            subject_token: opt_string(x, "subjectToken")?,
            requested_subject: opt_string(x, "requestedSubject")?,
            requested_issuer: opt_string(x, "requestedIssuer")?,
        },
    )
}

/// Decodes the workflow retry definitions.
fn decode_retries(x: &serde_json::Value) -> (r: Result<Retries, String>) {
    match value_as_str(x) {
        Some(s) => Ok(Retries::Uri(s.to_owned())),
        None => match value_as_array(x) {
            Some(items) => {
                let mut out: Vec<RetryDef> = Vec::new();
                let n = items.len();
                let mut i: usize = 0;
                while i < n
                    invariant
                        n == items@.len(),
                        0 <= i <= n,
                    decreases n - i,
                {
                    out.push(decode_retry_def(&items[i])?);
                    i += 1;
                }
                Ok(Retries::Inline(out))
            },
            None => Err(type_msg("retries", "a string or an array")),
        },
    }
}

/// Decodes one retry strategy definition.
fn decode_retry_def(x: &serde_json::Value) -> (r: Result<RetryDef, String>) {
    check_known_keys(x, &["name", "delay", "maxDelay", "increment", "multiplier", "maxAttempts", "jitter"], "retry")?;
    let max_attempts = match value_get(x, "maxAttempts") {
        Some(n) => decode_non_negative_number(n, "maxAttempts")?,
        None => {
            return Err(missing_msg("maxAttempts"));
        },
    };
    Ok(
        RetryDef {
            name: req_string(x, "name")?,
            delay: opt_string(x, "delay")?,
            max_delay: opt_string(x, "maxDelay")?,
            increment: opt_string(x, "increment")?,
            max_attempts,
        },
    )
}

/// Decodes a sleep time definition.
fn decode_sleep(x: &serde_json::Value) -> (r: Result<Sleep, String>) {
    Ok(Sleep { before: opt_string(x, "before")?, after: opt_string(x, "after")? })
}

/// Decodes a cron definition.
fn decode_cron(x: &serde_json::Value) -> (r: Result<CronDef, String>) {
    match value_as_str(x) {
        Some(s) => Ok(CronDef::Expr(s.to_owned())),
        None => {
            if value_is_object(x) {
                check_known_keys(x, &["expression", "validUntil"], "cron")?;
                Ok(
                    CronDef::Repeat {
                        expression: req_string(x, "expression")?,
                        valid_until: opt_string(x, "validUntil")?,
                    },
                )
            } else {
                Err(type_msg("cron", "a string or an object"))
            }
        },
    }
}

/// Decodes a schedule definition.
fn decode_schedule(x: &serde_json::Value) -> (r: Result<Schedule, String>) {
    match value_as_str(x) {
        Some(s) => Ok(Schedule::TimeInterval(s.to_owned())),
        None => {
            if value_is_object(x) {
                check_known_keys(x, &["interval", "cron", "timezone"], "schedule")?;
                let cron = match value_get(x, "cron") {
                    Some(c) => Some(decode_cron(c)?),
                    None => None,
                };
                Ok(
                    Schedule::Complex {
                        interval: opt_string(x, "interval")?,
                        cron,
                        timezone: opt_string(x, "timezone")?,
                    },
                )
            } else {
                Err(type_msg("schedule", "a string or an object"))
            }
        },
    }
}

/// Decodes a workflow start definition.
fn decode_start(x: &serde_json::Value) -> (r: Result<StartDef, String>) {
    match value_as_str(x) {
        Some(s) => Ok(StartDef::ByName(s.to_owned())),
        None => {
            if value_is_object(x) {
                check_known_keys(x, &["stateName", "schedule"], "start")?;
                let schedule = match value_get(x, "schedule") {
                    Some(s) => decode_schedule(s)?,
                    None => {
                        return Err(missing_msg("schedule"));
                    },
                };
                Ok(StartDef::Complex { state_name: req_string(x, "stateName")?, schedule })
            } else {
                Err(type_msg("start", "a string or an object"))
            }
        },
    }
}

/// Decodes a data-input-schema definition.
fn decode_data_input_schema(x: &serde_json::Value) -> (r: Result<DataInputSchema, String>) {
    match value_as_str(x) {
        Some(s) => Ok(DataInputSchema::UriOnly(s.to_owned())),
        None => {
            if value_is_object(x) {
                check_known_keys(x, &["schema", "failOnValidationErrors"], "data input schema")?;
                Ok(
                    DataInputSchema::Full {
                        schema: req_string(x, "schema")?,
                        fail_on_validation_errors: bool_or(x, "failOnValidationErrors", crate::true_value())?,
                    },
                )
            } else {
                Err(type_msg("dataInputSchema", "a string or an object"))
            }
        },
    }
}

/// Decodes the workflow constants.
fn decode_constants(x: &serde_json::Value) -> (r: Result<Constants, String>) {
    match value_as_str(x) {
        Some(s) => match Uri::parse(s) {
            Ok(u) => Ok(Constants::One(u)),
            Err(_) => Err(type_msg("constants", "a valid URI or an object")),
        },
        None => {
            if value_is_object(x) {
                Ok(Constants::Multiple { constants: x.clone() })
            } else {
                Err(type_msg("constants", "a string or an object"))
            }
        },
    }
}

/// Decodes a function reference.
fn decode_function_ref(x: &serde_json::Value) -> (r: Result<FunctionRef, String>) {
    match value_as_str(x) {
        Some(s) => Ok(FunctionRef::ByName(s.to_owned())),
        None => {
            if value_is_object(x) {
                check_known_keys(x, &["refName", "arguments", "selectionSet", "invoke"], "function reference")?;
                let arguments = match value_get(x, "arguments") {
                    Some(a) => {
                        if value_is_object(a) {
                            Some(FunctionArguments { arguments: a.clone() })
                        } else {
                            return Err(type_msg("arguments", "an object"));
                        }
                    },
                    None => None,
                };
                Ok(
                    FunctionRef::Complex {
                        ref_name: req_string(x, "refName")?,
                        arguments,
                        selection_set: opt_string(x, "selectionSet")?,
                        invoke: decode_invocation_mode(x, "invoke")?,
                    },
                )
            } else {
                Err(type_msg("functionRef", "a string or an object"))
            }
        },
    }
}

/// Decodes an event reference.
fn decode_event_ref(x: &serde_json::Value) -> (r: Result<EventRef, String>) {
    check_known_keys(x, &["triggerEventRef", "resultEventRef", "resultEventTimeout", "data", "contextAttributes", "invoke"], "event reference")?;
    let data = match value_get(x, "data") {
        Some(d) => Some(decode_data(d)?),
        None => None,
    };
    let context_attributes = match value_get(x, "contextAttributes") {
        Some(c) => Some(decode_context_attributes(c)?),
        None => None,
    };
    Ok(
        EventRef {
            trigger_event_ref: req_string(x, "triggerEventRef")?,
            result_event_ref: req_string(x, "resultEventRef")?,
            result_event_timeout: opt_string(x, "resultEventTimeout")?,
            data,
            context_attributes,
            invoke: decode_invocation_mode(x, "invoke")?,
        },
    )
}

/// Decodes a sub-workflow reference.
fn decode_subflow_ref(x: &serde_json::Value) -> (r: Result<SubflowRef, String>) {
    match value_as_str(x) {
        Some(s) => Ok(SubflowRef::ById(s.to_owned())),
        None => {
            if value_is_object(x) {
                let on_parent_complete = match value_get(x, "onParentComplete") {
                    Some(o) => match value_as_str(o) {
                        Some(w) => {
                            if str_eq(w, "continue") {
                                OnComplete::Continue
                            } else if str_eq(w, "terminate") {
                                OnComplete::Terminate
                            } else {
                                return Err(
                                    type_msg("onParentComplete", "`continue` or `terminate`"),
                                );
                            }
                        },
                        None => {
                            return Err(type_msg("onParentComplete", "a string"));
                        },
                    },
                    None => crate::terminate(),
                };
                Ok(
                    SubflowRef::Complex {
                        workflow_id: req_string(x, "workflowId")?,
                        version: opt_string(x, "version")?,
                        on_parent_complete,
                        invoke: decode_invocation_mode(x, "invoke")?,
                    },
                )
            } else {
                Err(type_msg("subFlowRef", "a string or an object"))
            }
        },
    }
}

/// Decodes one workflow action.
fn decode_action(x: &serde_json::Value) -> (r: Result<Action, String>) {
    check_known_keys(x, &["id", "name", "functionRef", "eventRef", "subFlowRef", "sleep", "retryRef", "nonRetryableErrors", "retryableErrors", "actionDataFilter", "condition"], "action")?;
    let function_ref = match value_get(x, "functionRef") {
        Some(f) => Some(decode_function_ref(f)?),
        None => None,
    };
    let event_ref = match value_get(x, "eventRef") {
        Some(e) => Some(decode_event_ref(e)?),
        None => None,
    };
    let sub_flow_ref = match value_get(x, "subFlowRef") {
        Some(s) => Some(decode_subflow_ref(s)?),
        None => None,
    };
    let sleep = match value_get(x, "sleep") {
        Some(s) => Some(decode_sleep(s)?),
        None => None,
    };
    let action_data_filter = match value_get(x, "actionDataFilter") {
        Some(a) => Some(decode_action_data_filter(a)?),
        None => None,
    };
    Ok(
        Action {
            id: opt_string(x, "id")?,
            name: opt_string(x, "name")?,
            function_ref,
            event_ref,
            sub_flow_ref,
            sleep,
            retry_ref: opt_string(x, "retryRef")?,
            non_retryable_errors: opt_string_vec(x, "nonRetryableErrors")?,
            retryable_errors: opt_string_vec(x, "retryableErrors")?,
            action_data_filter,
            condition: opt_string(x, "condition")?,
        },
    )
}

/// Decodes an array of actions.
fn decode_actions(x: &serde_json::Value, key: &str) -> (r: Result<Vec<Action>, String>) {
    match value_as_array(x) {
        Some(items) => {
            let mut out: Vec<Action> = Vec::new();
            let n = items.len();
            let mut i: usize = 0;
            while i < n
                invariant
                    n == items@.len(),
                    0 <= i <= n,
                decreases n - i,
            {
                out.push(decode_action(&items[i])?);
                i += 1;
            }
            Ok(out)
        },
        None => Err(type_msg(key, "an array")),
    }
}

/// Decodes an array of error-handling definitions; an absent field
/// reads as nothing.
fn opt_on_errors(v: &serde_json::Value) -> (r: Result<Option<Vec<Error>>, String>)
    ensures
        (match json_model(*v) {
            JsonModel::Obj(map) => !map.contains_key("onErrors"@) ==> r == Ok::<
                Option<Vec<Error>>,
                String,
            >(None),
            _ => r == Ok::<Option<Vec<Error>>, String>(None),
        }),
{
    match value_get(v, "onErrors") {
        Some(x) => match value_as_array(x) {
            Some(items) => {
                let mut out: Vec<Error> = Vec::new();
                let n = items.len();
                let mut i: usize = 0;
                while i < n
                    invariant
                        n == items@.len(),
                        0 <= i <= n,
                        json_model(*v) is Obj,
                        (json_model(*v))->Obj_0.contains_key("onErrors"@),
                    decreases n - i,
                {
                    out.push(decode_error(&items[i])?);
                    i += 1;
                }
                Ok(Some(out))
            },
            None => Err(type_msg("onErrors", "an array")),
        },
        None => Ok(None),
    }
}

/// Decodes one error-handling definition.
fn decode_error(x: &serde_json::Value) -> (r: Result<Error, String>) {
    check_known_keys(x, &["errorRef", "errorRefs", "transition", "end"], "error handling")?;
    Ok(
        Error {
            error_ref: opt_string(x, "errorRef")?,
            error_refs: opt_string_vec(x, "errorRefs")?,
            transition: opt_transition(x)?,
            end: opt_end(x)?,
        },
    )
}

/// Decodes one on-events definition.
fn decode_on_events(x: &serde_json::Value) -> (r: Result<OnEvents, String>) {
    check_known_keys(x, &["eventRefs", "actionMode", "actions", "eventDataFilter"], "on-events")?;
    let actions = match value_get(x, "actions") {
        Some(a) => Some(decode_actions(a, "actions")?),
        None => None,
    };
    Ok(
        OnEvents {
            event_refs: req_string_vec(x, "eventRefs")?,
            action_mode: decode_execution_mode(x, "actionMode", crate::sequential())?,
            actions,
            event_data_filter: opt_event_data_filter(x)?,
        },
    )
}

/// Decodes one branch of a parallel state.
fn decode_branch(x: &serde_json::Value) -> (r: Result<Branch, String>) {
    check_known_keys(x, &["name", "timeouts", "actions"], "branch")?;
    let timeouts = match value_get(x, "timeouts") {
        Some(t) => Some(
            BranchTimeouts {
                action_exec_timeout: opt_action_exec_timeout(t)?,
                branch_exec_timeout: opt_branch_exec_timeout(t)?,
            },
        ),
        None => None,
    };
    let actions = match value_get(x, "actions") {
        Some(a) => decode_actions(a, "actions")?,
        None => {
            return Err(missing_msg("actions"));
        },
    };
    Ok(Branch { name: req_string(x, "name")?, timeouts, actions })
}

/// Decodes a default condition of a switch state.
fn decode_default_condition(x: &serde_json::Value) -> (r: Result<DefaultConditionDef, String>) {
    check_known_keys(x, &["transition", "end"], "default condition")?;
    Ok(DefaultConditionDef { transition: opt_transition(x)?, end: opt_end(x)? })
}

/// Decodes one event condition of an event-based switch state.
fn decode_event_condition(x: &serde_json::Value) -> (r: Result<EventCondition, String>) {
    if value_get(x, "end").is_some() {
        check_known_keys(x, &["name", "eventRef", "end", "eventDataFilter", "metadata"], "event condition")?;
        let end = match value_get(x, "end") {
            Some(e) => decode_end(e)?,
            None => {
                return Err(missing_msg("end"));
            },
        };
        Ok(
            EventCondition::End(
                EndEventCondition {
                    name: opt_string(x, "name")?,
                    event_ref: req_string(x, "eventRef")?,
                    end,
                    event_data_filter: opt_event_data_filter(x)?,
                    metadata: opt_metadata(x)?,
                },
            ),
        )
    } else {
        check_known_keys(x, &["name", "eventRef", "transition", "eventDataFilter", "metadata"], "event condition")?;
        let transition = match value_get(x, "transition") {
            Some(t) => decode_transition(t)?,
            None => {
                return Err(missing_msg("transition"));
            },
        };
        Ok(
            EventCondition::Transition(
                TransitionEventCondition {
                    name: opt_string(x, "name")?,
                    event_ref: req_string(x, "eventRef")?,
                    transition,
                    event_data_filter: opt_event_data_filter(x)?,
                    metadata: opt_metadata(x)?,
                },
            ),
        )
    }
}

/// Decodes one data condition of a data-based switch state.
fn decode_data_condition(x: &serde_json::Value) -> (r: Result<DataCondition, String>) {
    if value_get(x, "end").is_some() {
        check_known_keys(x, &["name", "condition", "end", "metadata"], "data condition")?;
        let end = match value_get(x, "end") {
            Some(e) => decode_end(e)?,
            None => {
                return Err(missing_msg("end"));
            },
        };
        Ok(
            DataCondition::End(
                EndDataCondition {
                    name: opt_string(x, "name")?,
                    condition: req_string(x, "condition")?,
                    end,
                    metadata: opt_metadata(x)?,
                },
            ),
        )
    } else {
        check_known_keys(x, &["name", "condition", "transition", "metadata"], "data condition")?;
        let transition = match value_get(x, "transition") {
            Some(t) => decode_transition(t)?,
            None => {
                return Err(missing_msg("transition"));
            },
        };
        Ok(
            DataCondition::Transition(
                TransitionDataCondition {
                    name: opt_string(x, "name")?,
                    condition: req_string(x, "condition")?,
                    transition,
                    metadata: opt_metadata(x)?,
                },
            ),
        )
    }
}

/// Decodes one workflow state, dispatching on its `type` tag.
/// A self-contained sleep-state tree: an object holding the state
/// identity, a duration and a terminating end — `type` is the string
/// `sleep`, `name` and `duration` are strings, `end` is the literal
/// `true` — and nothing else. Such a tree always decodes, to a state
/// that raises no violation.
pub open spec fn plain_sleep_state_tree(m: JsonModel) -> bool {
    m matches JsonModel::Obj(map) && {
        &&& map.dom().subset_of(
            Set::<Seq<char>>::empty().insert("type"@).insert("name"@).insert("duration"@).insert(
                "end"@,
            ),
        )
        &&& map.contains_key("type"@) && map["type"@] == JsonModel::Text("sleep"@)
        &&& map.contains_key("name"@) && map["name"@] is Text
        &&& map.contains_key("duration"@) && map["duration"@] is Text
        &&& map.contains_key("end"@) && map["end"@] == JsonModel::Bool(true)
    }
}

/// What a self-contained sleep-state tree decodes to, beyond its name
/// and duration: a terminating end and every other field absent or at
/// its default.
pub open spec fn plain_decoded_sleep_state(st: SleepState) -> bool {
    &&& st.id is None
    &&& st.end == Some(End::Simple(true))
    &&& st.state_data_filter is None
    &&& st.timeouts is None
    &&& st.on_errors is None
    &&& st.transition is None
    &&& st.compensated_by is None
    &&& !st.used_for_compensation
    &&& st.metadata is None
}

/// A sleep state decoded from a self-contained tree raises no violation
/// wherever it stands.
pub proof fn lemma_plain_sleep_state_violation_free(st: SleepState)
    requires
        plain_decoded_sleep_state(st),
    ensures
        violation_free(State::Sleep(st)),
{
    assert forall|p: Seq<char>| (#[trigger] State::Sleep(st).violations(p)).len() == 0 by {
        assert(End::Simple(true).violations(child(p, "end"@)) =~= Seq::<
            (Seq<char>, Seq<char>),
        >::empty());
        assert(st.violations(p).len() == 0);
    }
}

/// The `type` tag under which each state variant is decoded.
pub open spec fn state_kind_tag(s: State) -> Seq<char> {
    match s {
        State::Sleep(_) => "sleep"@,
        State::Event(_) => "event"@,
        State::Operation(_) => "operation"@,
        State::Parallel(_) => "parallel"@,
        State::Switch(_) => "switch"@,
        State::Inject(_) => "inject"@,
        State::ForEach(_) => "foreach"@,
        State::Callback(_) => "callback"@,
    }
}

/// Whether a decoded state carries exactly the identity the given tree
/// determines: its variant matches the tree's `type` tag and its name is
/// the tree's `name` field.
pub open spec fn decoded_state_facts(s: State, m: JsonModel) -> bool {
    &&& model_req_string(m, "type"@) == Ok::<Seq<char>, Seq<char>>(state_kind_tag(s))
    &&& model_req_string(m, "name"@) == Ok::<Seq<char>, Seq<char>>(s.spec_name())
}

/// Decodes one state, dispatching on its `type` tag.
///
/// A decoded state's variant and name are exactly what the tree's `type`
/// and `name` fields determine, and a self-contained sleep-state tree
/// always decodes, to a sleep state with no violation-raising field.
fn decode_state(x: &serde_json::Value) -> (r: Result<State, String>)
    ensures
        r matches Ok(s) ==> decoded_state_facts(s, json_model(*x)),
        plain_sleep_state_tree(json_model(*x)) ==> (r matches Ok(s) && (
        s matches State::Sleep(st) && plain_decoded_sleep_state(st))),
{
    let tag = req_string(x, "type")?;
    let t = tag.as_str();
    if str_eq(t, "sleep") {
        Ok(State::Sleep(decode_sleep_state(x)?))
    } else if str_eq(t, "event") {
        Ok(State::Event(decode_event_state(x)?))
    } else if str_eq(t, "operation") {
        Ok(State::Operation(decode_operation_state(x)?))
    } else if str_eq(t, "parallel") {
        Ok(State::Parallel(decode_parallel_state(x)?))
    } else if str_eq(t, "switch") {
        Ok(State::Switch(decode_switch_state(x)?))
    } else if str_eq(t, "inject") {
        Ok(State::Inject(decode_inject_state(x)?))
    } else if str_eq(t, "foreach") {
        Ok(State::ForEach(decode_foreach_state(x)?))
    } else if str_eq(t, "callback") {
        Ok(State::Callback(decode_callback_state(x)?))
    } else {
        Err(type_msg("type", "a known state type"))
    }
}

/// Decodes a sleep state; a decoded state's name is the tree's `name`
/// field, and a self-contained tree always decodes, with every field
/// beyond its own absent or at its default.
fn decode_sleep_state(x: &serde_json::Value) -> (r: Result<SleepState, String>)
    ensures
        r matches Ok(st) ==> model_req_string(json_model(*x), "name"@) == Ok::<
            Seq<char>,
            Seq<char>,
        >(st.name@),
        plain_sleep_state_tree(json_model(*x)) ==> (r matches Ok(st)
            && plain_decoded_sleep_state(st)),
{
    let allowed: &[&str] = &["type", "id", "name", "end", "stateDataFilter", "duration", "timeouts", "onErrors", "transition", "compensatedBy", "usedForCompensation", "metadata"];
    proof {
        reveal_strlit("type");
        reveal_strlit("id");
        reveal_strlit("name");
        reveal_strlit("end");
        reveal_strlit("stateDataFilter");
        reveal_strlit("duration");
        reveal_strlit("timeouts");
        reveal_strlit("onErrors");
        reveal_strlit("transition");
        reveal_strlit("compensatedBy");
        reveal_strlit("usedForCompensation");
        reveal_strlit("metadata");
        if plain_sleep_state_tree(json_model(*x)) {
            let map = (json_model(*x))->Obj_0;
            let own = Set::<Seq<char>>::empty().insert("type"@).insert("name"@).insert(
                "duration"@,
            ).insert("end"@);
            let s = allowed@.map_values(|a: &str| a@);
            assert(s[0] == "type"@);
            assert(s[2] == "name"@);
            assert(s[3] == "end"@);
            assert(s[5] == "duration"@);
            assert forall|k: Seq<char>| map.dom().contains(k) implies name_set(
                allowed@,
            ).contains(k) by {
                assert(own.contains(k));
                assert(s.contains("type"@));
                assert(s.contains("name"@));
                assert(s.contains("end"@));
                assert(s.contains("duration"@));
            }
            assert(map.dom() <= name_set(allowed@));
            assert(!map.contains_key("id"@)) by {
                if map.contains_key("id"@) {
                    assert(own.contains("id"@));
                }
            }
            assert(!map.contains_key("stateDataFilter"@)) by {
                if map.contains_key("stateDataFilter"@) {
                    assert(own.contains("stateDataFilter"@));
                }
            }
            assert(!map.contains_key("timeouts"@)) by {
                if map.contains_key("timeouts"@) {
                    assert(own.contains("timeouts"@));
                    assert("timeouts"@[0] != "duration"@[0]);
                }
            }
            assert(!map.contains_key("onErrors"@)) by {
                if map.contains_key("onErrors"@) {
                    assert(own.contains("onErrors"@));
                    assert("onErrors"@[0] != "duration"@[0]);
                }
            }
            assert(!map.contains_key("transition"@)) by {
                if map.contains_key("transition"@) {
                    assert(own.contains("transition"@));
                }
            }
            assert(!map.contains_key("compensatedBy"@)) by {
                if map.contains_key("compensatedBy"@) {
                    assert(own.contains("compensatedBy"@));
                }
            }
            assert(!map.contains_key("usedForCompensation"@)) by {
                if map.contains_key("usedForCompensation"@) {
                    assert(own.contains("usedForCompensation"@));
                }
            }
            assert(!map.contains_key("metadata"@)) by {
                if map.contains_key("metadata"@) {
                    assert(own.contains("metadata"@));
                }
            }
        }
    }
    check_known_keys(x, allowed, "sleep state")?;
    let timeouts = match value_get(x, "timeouts") {
        Some(t) => Some(SleepStateTimeouts { state_exec_timeout: opt_state_exec_timeout(t)? }),
        None => None,
    };
    Ok(
        SleepState {
            id: opt_string(x, "id")?,
            name: req_string(x, "name")?,
            end: opt_end(x)?,
            state_data_filter: opt_state_data_filter(x)?,
            duration: req_string(x, "duration")?,
            timeouts,
            on_errors: opt_on_errors(x)?,
            transition: opt_transition(x)?,
            compensated_by: opt_string(x, "compensatedBy")?,
            used_for_compensation: bool_or(x, "usedForCompensation", crate::false_value())?,
            metadata: opt_metadata(x)?,
        },
    )
}

/// Decodes an event state; a decoded state's name is the tree's `name`
/// field.
fn decode_event_state(x: &serde_json::Value) -> (r: Result<EventState, String>)
    ensures
        r matches Ok(st) ==> model_req_string(json_model(*x), "name"@) == Ok::<
            Seq<char>,
            Seq<char>,
        >(st.name@),
{
    check_known_keys(x, &["type", "id", "name", "exclusive", "onEvents", "timeouts", "stateDataFilter", "onErrors", "transition", "end", "compensatedBy", "metadata"], "event state")?;
    let on_events = match value_get(x, "onEvents") {
        Some(o) => match value_as_array(o) {
            Some(items) => {
                let mut out: Vec<OnEvents> = Vec::new();
                let n = items.len();
                let mut i: usize = 0;
                while i < n
                    invariant
                        n == items@.len(),
                        0 <= i <= n,
                    decreases n - i,
                {
                    out.push(decode_on_events(&items[i])?);
                    i += 1;
                }
                out
            },
            None => {
                return Err(type_msg("onEvents", "an array"));
            },
        },
        None => {
            return Err(missing_msg("onEvents"));
        },
    };
    let timeouts = match value_get(x, "timeouts") {
        Some(t) => Some(
            EventStateTimeouts {
                state_exec_timeout: opt_state_exec_timeout(t)?,
                action_exec_timeout: opt_action_exec_timeout(t)?,
                event_timeout: opt_event_timeout(t)?,
            },
        ),
        None => None,
    };
    Ok(
        EventState {
            id: opt_string(x, "id")?,
            name: req_string(x, "name")?,
            exclusive: bool_or(x, "exclusive", crate::true_value())?,
            on_events,
            timeouts,
            state_data_filter: opt_state_data_filter(x)?,
            on_errors: opt_on_errors(x)?,
            transition: opt_transition(x)?,
            end: opt_end(x)?,
            compensated_by: opt_string(x, "compensatedBy")?,
            metadata: opt_metadata(x)?,
        },
    )
}

/// Decodes an operation state; a decoded state's name is the tree's
/// `name` field.
fn decode_operation_state(x: &serde_json::Value) -> (r: Result<OperationState, String>)
    ensures
        r matches Ok(st) ==> model_req_string(json_model(*x), "name"@) == Ok::<
            Seq<char>,
            Seq<char>,
        >(st.name@),
{
    check_known_keys(x, &["type", "id", "name", "end", "stateDataFilter", "actionMode", "actions", "timeouts", "onErrors", "transition", "compensatedBy", "usedForCompensation", "metadata"], "operation state")?;
    let actions = match value_get(x, "actions") {
        Some(a) => decode_actions(a, "actions")?,
        None => {
            return Err(missing_msg("actions"));
        },
    };
    let timeouts = match value_get(x, "timeouts") {
        Some(t) => Some(
            OperationStateTimeouts {
                state_exec_timeout: opt_state_exec_timeout(t)?,
                action_exec_timeout: opt_action_exec_timeout(t)?,
            },
        ),
        None => None,
    };
    Ok(
        OperationState {
            id: opt_string(x, "id")?,
            name: req_string(x, "name")?,
            end: opt_end(x)?,
            state_data_filter: opt_state_data_filter(x)?,
            action_mode: decode_execution_mode(x, "actionMode", crate::sequential())?,
            actions,
            timeouts,
            on_errors: opt_on_errors(x)?,
            transition: opt_transition(x)?,
            compensated_by: opt_string(x, "compensatedBy")?,
            used_for_compensation: bool_or(x, "usedForCompensation", crate::false_value())?,
            metadata: opt_metadata(x)?,
        },
    )
}

/// Decodes a parallel state; a decoded state's name is the tree's `name`
/// field.
fn decode_parallel_state(x: &serde_json::Value) -> (r: Result<ParallelState, String>)
    ensures
        r matches Ok(st) ==> model_req_string(json_model(*x), "name"@) == Ok::<
            Seq<char>,
            Seq<char>,
        >(st.name@),
{
    check_known_keys(x, &["type", "id", "name", "end", "stateDataFilter", "timeouts", "branches", "completionType", "numCompleted", "onErrors", "transition", "compensatedBy", "usedForCompensation", "metadata"], "parallel state")?;
    let branches = match value_get(x, "branches") {
        Some(b) => match value_as_array(b) {
            Some(items) => {
                let mut out: Vec<Branch> = Vec::new();
                let n = items.len();
                let mut i: usize = 0;
                while i < n
                    invariant
                        n == items@.len(),
                        0 <= i <= n,
                    decreases n - i,
                {
                    out.push(decode_branch(&items[i])?);
                    i += 1;
                }
                out
            },
            None => {
                return Err(type_msg("branches", "an array"));
            },
        },
        None => {
            return Err(missing_msg("branches"));
        },
    };
    let completion_type = match value_get(x, "completionType") {
        Some(c) => match value_as_str(c) {
            Some(w) => {
                if str_eq(w, "allOf") {
                    CompletionType::AllOf
                } else if str_eq(w, "atLeast") {
                    CompletionType::AtLeast
                } else {
                    return Err(type_msg("completionType", "`allOf` or `atLeast`"));
                }
            },
            None => {
                return Err(type_msg("completionType", "a string"));
            },
        },
        None => crate::all_of(),
    };
    let timeouts = match value_get(x, "timeouts") {
        Some(t) => Some(
            ParallelStateTimeouts {
                state_exec_timeout: opt_state_exec_timeout(t)?,
                branch_exec_timeout: opt_branch_exec_timeout(t)?,
            },
        ),
        None => None,
    };
    Ok(
        ParallelState {
            id: opt_string(x, "id")?,
            name: req_string(x, "name")?,
            end: opt_end(x)?,
            state_data_filter: opt_state_data_filter(x)?,
            timeouts,
            branches,
            completion_type,
            num_completed: opt_non_negative_number(x, "numCompleted")?,
            on_errors: opt_on_errors(x)?,
            transition: opt_transition(x)?,
            compensated_by: opt_string(x, "compensatedBy")?,
            used_for_compensation: bool_or(x, "usedForCompensation", crate::false_value())?,
            metadata: opt_metadata(x)?,
        },
    )
}

/// Decodes a switch state, discriminating on which condition list is
/// present; a decoded state's name is the tree's `name` field.
fn decode_switch_state(x: &serde_json::Value) -> (r: Result<SwitchState, String>)
    ensures
        r matches Ok(sw) ==> model_req_string(json_model(*x), "name"@) == Ok::<
            Seq<char>,
            Seq<char>,
        >(
            (match sw {
                SwitchState::EventBased(st) => st.name@,
                SwitchState::DataBased(st) => st.name@,
            }),
        ),
{
    if value_get(x, "eventConditions").is_some() {
        Ok(SwitchState::EventBased(decode_event_based_switch_state(x)?))
    } else {
        Ok(SwitchState::DataBased(decode_data_based_switch_state(x)?))
    }
}

/// Decodes an event-based switch state.
fn decode_event_based_switch_state(x: &serde_json::Value) -> (r: Result<
    EventBasedSwitchState,
    String,
>)
    ensures
        r matches Ok(st) ==> model_req_string(json_model(*x), "name"@) == Ok::<
            Seq<char>,
            Seq<char>,
        >(st.name@),
{
    check_known_keys(x, &["type", "id", "name", "stateDataFilter", "timeouts", "eventConditions", "onErrors", "defaultCondition", "compensatedBy", "usedForCompensation", "metadata"], "switch state")?;
    let event_conditions = match value_get(x, "eventConditions") {
        Some(e) => match value_as_array(e) {
            Some(items) => {
                let mut out: Vec<EventCondition> = Vec::new();
                let n = items.len();
                let mut i: usize = 0;
                while i < n
                    invariant
                        n == items@.len(),
                        0 <= i <= n,
                    decreases n - i,
                {
                    out.push(decode_event_condition(&items[i])?);
                    i += 1;
                }
                out
            },
            None => {
                return Err(type_msg("eventConditions", "an array"));
            },
        },
        None => {
            return Err(missing_msg("eventConditions"));
        },
    };
    let default_condition = match value_get(x, "defaultCondition") {
        Some(d) => decode_default_condition(d)?,
        None => {
            return Err(missing_msg("defaultCondition"));
        },
    };
    let timeouts = match value_get(x, "timeouts") {
        Some(t) => Some(
            EventBasedSwitchStateTimeouts {
                state_exec_timeout: opt_state_exec_timeout(t)?,
                event_timeout: opt_event_timeout(t)?,
            },
        ),
        None => None,
    };
    Ok(
        EventBasedSwitchState {
            id: opt_string(x, "id")?,
            name: req_string(x, "name")?,
            state_data_filter: opt_state_data_filter(x)?,
            timeouts,
            event_conditions,
            on_errors: opt_on_errors(x)?,
            default_condition,
            compensated_by: opt_string(x, "compensatedBy")?,
            used_for_compensation: bool_or(x, "usedForCompensation", crate::false_value())?,
            metadata: opt_metadata(x)?,
        },
    )
}

/// Decodes a data-based switch state.
fn decode_data_based_switch_state(x: &serde_json::Value) -> (r: Result<
    DataBasedSwitchState,
    String,
>)
    ensures
        r matches Ok(st) ==> model_req_string(json_model(*x), "name"@) == Ok::<
            Seq<char>,
            Seq<char>,
        >(st.name@),
{
    check_known_keys(x, &["type", "id", "name", "stateDataFilter", "timeouts", "dataConditions", "onErrors", "defaultCondition", "compensatedBy", "usedForCompensation", "metadata"], "switch state")?;
    let data_conditions = match value_get(x, "dataConditions") {
        Some(d) => match value_as_array(d) {
            Some(items) => {
                let mut out: Vec<DataCondition> = Vec::new();
                let n = items.len();
                let mut i: usize = 0;
                while i < n
                    invariant
                        n == items@.len(),
                        0 <= i <= n,
                    decreases n - i,
                {
                    out.push(decode_data_condition(&items[i])?);
                    i += 1;
                }
                out
            },
            None => {
                return Err(type_msg("dataConditions", "an array"));
            },
        },
        None => {
            return Err(missing_msg("dataConditions"));
        },
    };
    let default_condition = match value_get(x, "defaultCondition") {
        Some(d) => decode_default_condition(d)?,
        None => {
            return Err(missing_msg("defaultCondition"));
        },
    };
    let timeouts = match value_get(x, "timeouts") {
        Some(t) => Some(
            DataBasedSwitchStateTimeouts { state_exec_timeout: opt_state_exec_timeout(t)? },
        ),
        None => None,
    };
    Ok(
        DataBasedSwitchState {
            id: opt_string(x, "id")?,
            name: req_string(x, "name")?,
            state_data_filter: opt_state_data_filter(x)?,
            timeouts,
            data_conditions,
            on_errors: opt_on_errors(x)?,
            default_condition,
            compensated_by: opt_string(x, "compensatedBy")?,
            used_for_compensation: bool_or(x, "usedForCompensation", crate::false_value())?,
            metadata: opt_metadata(x)?,
        },
    )
}

/// Decodes an inject state; a decoded state's name is the tree's `name`
/// field.
fn decode_inject_state(x: &serde_json::Value) -> (r: Result<InjectState, String>)
    ensures
        r matches Ok(st) ==> model_req_string(json_model(*x), "name"@) == Ok::<
            Seq<char>,
            Seq<char>,
        >(st.name@),
{
    check_known_keys(x, &["type", "id", "name", "end", "data", "timeouts", "stateDataFilter", "transition", "compensatedBy", "usedForCompensation", "metadata"], "inject state")?;
    let data = match value_get(x, "data") {
        Some(d) => {
            if value_is_object(d) {
                InjectData { meta: d.clone() }
            } else {
                return Err(type_msg("data", "an object"));
            }
        },
        None => {
            return Err(missing_msg("data"));
        },
    };
    let timeouts = match value_get(x, "timeouts") {
        Some(t) => Some(InjectStateTimeouts { state_exec_timeout: opt_state_exec_timeout(t)? }),
        None => None,
    };
    Ok(
        InjectState {
            id: opt_string(x, "id")?,
            name: req_string(x, "name")?,
            end: opt_end(x)?,
            data,
            timeouts,
            state_data_filter: opt_state_data_filter(x)?,
            transition: opt_transition(x)?,
            compensated_by: opt_string(x, "compensatedBy")?,
            used_for_compensation: bool_or(x, "usedForCompensation", crate::false_value())?,
            metadata: opt_metadata(x)?,
        },
    )
}

/// Decodes a for-each state; a decoded state's name is the tree's `name`
/// field.
fn decode_foreach_state(x: &serde_json::Value) -> (r: Result<ForEachState, String>)
    ensures
        r matches Ok(st) ==> model_req_string(json_model(*x), "name"@) == Ok::<
            Seq<char>,
            Seq<char>,
        >(st.name@),
{
    check_known_keys(x, &["type", "id", "name", "end", "inputCollection", "outputCollection", "iterationParam", "batchSize", "actions", "timeouts", "stateDataFilter", "onErrors", "transition", "compensatedBy", "usedForCompensation", "mode", "metadata"], "for-each state")?;
    let actions = match value_get(x, "actions") {
        Some(a) => decode_actions(a, "actions")?,
        None => {
            return Err(missing_msg("actions"));
        },
    };
    let timeouts = match value_get(x, "timeouts") {
        Some(t) => Some(
            ForEachStateTimeouts {
                state_exec_timeout: opt_state_exec_timeout(t)?,
                action_exec_timeout: opt_action_exec_timeout(t)?,
            },
        ),
        None => None,
    };
    Ok(
        ForEachState {
            id: opt_string(x, "id")?,
            name: req_string(x, "name")?,
            end: opt_end(x)?,
            input_collection: req_string(x, "inputCollection")?,
            output_collection: opt_string(x, "outputCollection")?,
            iteration_param: opt_string(x, "iterationParam")?,
            batch_size: opt_non_negative_number(x, "batchSize")?,
            actions,
            timeouts,
            state_data_filter: opt_state_data_filter(x)?,
            on_errors: opt_on_errors(x)?,
            transition: opt_transition(x)?,
            compensated_by: opt_string(x, "compensatedBy")?,
            used_for_compensation: bool_or(x, "usedForCompensation", crate::false_value())?,
            mode: decode_execution_mode(x, "mode", crate::parallel())?,
            metadata: opt_metadata(x)?,
        },
    )
}

/// Decodes a callback state; a decoded state's name is the tree's `name`
/// field.
fn decode_callback_state(x: &serde_json::Value) -> (r: Result<CallbackState, String>)
    ensures
        r matches Ok(st) ==> model_req_string(json_model(*x), "name"@) == Ok::<
            Seq<char>,
            Seq<char>,
        >(st.name@),
{
    check_known_keys(x, &["type", "id", "name", "action", "eventRef", "timeouts", "eventDataFilter", "stateDataFilter", "onErrors", "transition", "end", "compensatedBy", "usedForCompensation", "metadata"], "callback state")?;
    let action = match value_get(x, "action") {
        Some(a) => decode_action(a)?,
        None => {
            return Err(missing_msg("action"));
        },
    };
    let timeouts = match value_get(x, "timeouts") {
        Some(t) => Some(
            CallbackStateTimeouts {
                state_exec_timeout: opt_state_exec_timeout(t)?,
                action_exec_timeout: opt_action_exec_timeout(t)?,
                event_timeout: opt_event_timeout(t)?,
            },
        ),
        None => None,
    };
    Ok(
        CallbackState {
            id: opt_string(x, "id")?,
            name: req_string(x, "name")?,
            action,
            event_ref: req_string(x, "eventRef")?,
            timeouts,
            event_data_filter: opt_event_data_filter(x)?,
            state_data_filter: opt_state_data_filter(x)?,
            on_errors: opt_on_errors(x)?,
            transition: opt_transition(x)?,
            end: opt_end(x)?,
            compensated_by: opt_string(x, "compensatedBy")?,
            used_for_compensation: bool_or(x, "usedForCompensation", crate::false_value())?,
            metadata: opt_metadata(x)?,
        },
    )
}

/// The text of an optional string field, at the specification level.
pub open spec fn opt_text(o: Option<String>) -> Option<Seq<char>> {
    match o {
        Some(s) => Some(s@),
        None => None,
    }
}

impl WorkflowDefinition {
    /// Whether this document carries exactly the root fields the given
    /// tree determines: the identifier pair, the description and
    /// version, the schema version, the expression language (with its
    /// `jq` default) and the boolean flags (with their `false`
    /// defaults).
    pub open spec fn decoded_root_facts(&self, m: JsonModel) -> bool {
        &&& m is Obj
        &&& model_opt_string(m, "id"@) == Ok::<Option<Seq<char>>, Seq<char>>(
            opt_text(self.identifier.id),
        )
        &&& model_opt_string(m, "key"@) == Ok::<Option<Seq<char>>, Seq<char>>(
            opt_text(self.identifier.key),
        )
        &&& model_opt_string(m, "description"@) == Ok::<Option<Seq<char>>, Seq<char>>(
            opt_text(self.description),
        )
        &&& model_opt_string(m, "version"@) == Ok::<Option<Seq<char>>, Seq<char>>(
            opt_text(self.version),
        )
        &&& model_req_string(m, "specVersion"@) == Ok::<Seq<char>, Seq<char>>(self.spec_version@)
        &&& (match model_opt_string(m, "expressionLang"@) {
            Ok(Some(s)) => self.expression_lang@ == s,
            Ok(None) => self.expression_lang@ == "jq"@,
            Err(_) => false,
        })
        &&& model_bool_or(m, "keepActive"@, false) == Ok::<bool, Seq<char>>(self.keep_active)
        &&& model_bool_or(m, "autoRetries"@, false) == Ok::<bool, Seq<char>>(self.auto_retries)
        &&& (match model_opt_string_list(m, "annotations"@) {
            Ok(Some(ts)) => self.annotations matches Some(ss) && ss@.map_values(|s: String| s@)
                == ts,
            Ok(None) => self.annotations is None,
            Err(_) => false,
        })
        &&& (match model_opt_metadata(m) {
            Ok(Some(sm)) => self.metadata matches Some(md) && md.map_view() == sm,
            Ok(None) => self.metadata is None,
            Err(_) => false,
        })
    }

    /// Whether this document records the optional root sections exactly
    /// as the given tree determines them: each section is present if and
    /// only if its key stands in the tree, and the function section
    /// carries exactly what its tree determines.
    pub open spec fn decoded_sections_facts(&self, m: JsonModel) -> bool {
        m matches JsonModel::Obj(map) && {
            &&& (self.data_input_schema is Some <==> map.contains_key("dataInputSchema"@))
            &&& (self.secrets is Some <==> map.contains_key("secrets"@))
            &&& (self.constants is Some <==> map.contains_key("constants"@))
            &&& (self.start is Some <==> map.contains_key("start"@))
            &&& (self.timeouts is Some <==> map.contains_key("timeouts"@))
            &&& (self.errors is Some <==> map.contains_key("errors"@))
            &&& (self.events is Some <==> map.contains_key("events"@))
            &&& (self.retries is Some <==> map.contains_key("retries"@))
            &&& (self.auth is Some <==> map.contains_key("auth"@))
            &&& (match self.functions {
                Some(f) => map.contains_key("functions"@) && decoded_functions_facts(
                    f,
                    map["functions"@],
                ),
                None => !map.contains_key("functions"@),
            })
        }
    }

    /// Whether this document's state list is exactly what the given
    /// tree's `states` array determines: one state per element, each
    /// with the variant and name its element's `type` and `name` fields
    /// determine.
    pub open spec fn decoded_states_facts(&self, m: JsonModel) -> bool {
        m matches JsonModel::Obj(map) && map.contains_key("states"@) && (map["states"@] matches JsonModel::Arr(
            elems,
        ) && self.states@.len() == elems.len() && (forall|i: int|
            0 <= i < elems.len() ==> decoded_state_facts(#[trigger] self.states@[i], elems[i])))
    }

    /// Whether this document carries exactly the root fields, the
    /// optional root sections and the state identities the given tree
    /// determines.
    pub open spec fn decoded_facts(&self, m: JsonModel) -> bool {
        &&& self.decoded_root_facts(m)
        &&& self.decoded_sections_facts(m)
        &&& self.decoded_states_facts(m)
    }
}

/// A self-contained workflow tree, owed a successful decode and a clean
/// validation: an object holding only root scalar fields — an
/// identifier (a non-empty `id` or `key`, each non-empty when present),
/// an optional description, an optional non-empty version, a non-empty
/// `specVersion`, an optional non-empty `expressionLang` and the two
/// boolean flags — and a non-empty `states` array of self-contained
/// sleep states.
pub open spec fn plain_workflow_tree(m: JsonModel) -> bool {
    m matches JsonModel::Obj(map) && {
        &&& map.dom().subset_of(
            Set::<Seq<char>>::empty().insert("id"@).insert("key"@).insert("description"@).insert(
                "version"@,
            ).insert("specVersion"@).insert("expressionLang"@).insert("keepActive"@).insert(
                "autoRetries"@,
            ).insert("states"@),
        )
        &&& (map.contains_key("id"@) ==> (map["id"@] matches JsonModel::Text(s) && s.len() > 0))
        &&& (map.contains_key("key"@) ==> (map["key"@] matches JsonModel::Text(s) && s.len() > 0))
        &&& (map.contains_key("id"@) || map.contains_key("key"@))
        &&& (map.contains_key("description"@) ==> map["description"@] is Text)
        &&& (map.contains_key("version"@) ==> (map["version"@] matches JsonModel::Text(s)
            && s.len() > 0))
        &&& map.contains_key("specVersion"@)
        &&& (map["specVersion"@] matches JsonModel::Text(s) && s.len() > 0)
        &&& (map.contains_key("expressionLang"@) ==> (
        map["expressionLang"@] matches JsonModel::Text(s) && s.len() > 0))
        &&& (map.contains_key("keepActive"@) ==> map["keepActive"@] is Bool)
        &&& (map.contains_key("autoRetries"@) ==> map["autoRetries"@] is Bool)
        &&& map.contains_key("states"@)
        &&& (map["states"@] matches JsonModel::Arr(elems) && elems.len() > 0 && (forall|i: int|
            0 <= i < elems.len() ==> plain_sleep_state_tree(#[trigger] elems[i])))
    }
}

/// Decodes a whole workflow definition document.
///
/// A successful decode preserves what the tree determines of the root
/// fields — the identifier pair, the description and version, the
/// schema version, the expression language (with its `jq` default), the
/// boolean flags (with their `false` defaults), the annotations and the
/// metadata — of the optional root sections, each present exactly when
/// its key stands in the tree and the function section with its exact
/// content, and of the state list: one state per `states` element, each
/// with the variant and name its element names. A tree that is no
/// object never decodes; the nested definitions are built by the
/// readers above.
pub fn decode_workflow(v: &serde_json::Value) -> (r: Result<WorkflowDefinition, String>)
    ensures
        r matches Ok(doc) ==> doc.decoded_facts(json_model(*v)),
        !(json_model(*v) is Obj) ==> (r matches Err(e) && e@
            == "a workflow definition must be an object"@),
        plain_workflow_tree(json_model(*v)) ==> (r matches Ok(doc) && doc.doc_violations().len()
            == 0),
{
    if !value_is_object(v) {
        return Err("a workflow definition must be an object".to_owned());
    }
    proof {
        reveal_strlit("id");
        reveal_strlit("key");
        reveal_strlit("description");
        reveal_strlit("version");
        reveal_strlit("specVersion");
        reveal_strlit("expressionLang");
        reveal_strlit("keepActive");
        reveal_strlit("autoRetries");
        reveal_strlit("states");
        reveal_strlit("annotations");
        reveal_strlit("metadata");
        reveal_strlit("dataInputSchema");
        reveal_strlit("secrets");
        reveal_strlit("constants");
        reveal_strlit("start");
        reveal_strlit("timeouts");
        reveal_strlit("errors");
        reveal_strlit("events");
        reveal_strlit("functions");
        reveal_strlit("retries");
        reveal_strlit("auth");
        reveal_strlit("jq");
        if plain_workflow_tree(json_model(*v)) {
            let map = (json_model(*v))->Obj_0;
            let own = Set::<Seq<char>>::empty().insert("id"@).insert("key"@).insert(
                "description"@,
            ).insert("version"@).insert("specVersion"@).insert("expressionLang"@).insert(
                "keepActive"@,
            ).insert("autoRetries"@).insert("states"@);
            assert(map.dom().subset_of(own));
            assert("id"@.len() == 2);
            assert("key"@.len() == 3);
            assert("description"@.len() == 11);
            assert("version"@.len() == 7);
            assert("specVersion"@.len() == 11);
            assert("expressionLang"@.len() == 14);
            assert("keepActive"@.len() == 10);
            assert("autoRetries"@.len() == 11);
            assert("states"@.len() == 6);
            assert("dataInputSchema"@.len() == 15);
            assert("secrets"@.len() == 7);
            assert("constants"@.len() == 9);
            assert("start"@.len() == 5);
            assert("timeouts"@.len() == 8);
            assert("errors"@.len() == 6);
            assert("events"@.len() == 6);
            assert("functions"@.len() == 9);
            assert("retries"@.len() == 7);
            assert("auth"@.len() == 4);
            assert("annotations"@.len() == 11);
            assert("metadata"@.len() == 8);
            assert("secrets"@ != "version"@) by {
                assert("secrets"@[0] != "version"@[0]);
            }
            assert("retries"@ != "version"@) by {
                assert("retries"@[0] != "version"@[0]);
            }
            assert("errors"@ != "states"@) by {
                assert("errors"@[0] != "states"@[0]);
            }
            assert("events"@ != "states"@) by {
                assert("events"@[0] != "states"@[0]);
            }
            assert("annotations"@ != "description"@) by {
                assert("annotations"@[0] != "description"@[0]);
            }
            assert("annotations"@ != "specVersion"@) by {
                assert("annotations"@[0] != "specVersion"@[0]);
            }
            assert("annotations"@ != "autoRetries"@) by {
                assert("annotations"@[1] != "autoRetries"@[1]);
            }
            assert(!map.contains_key("dataInputSchema"@)) by {
                if map.contains_key("dataInputSchema"@) {
                    assert(own.contains("dataInputSchema"@));
                }
            }
            assert(!map.contains_key("secrets"@)) by {
                if map.contains_key("secrets"@) {
                    assert(own.contains("secrets"@));
                }
            }
            assert(!map.contains_key("constants"@)) by {
                if map.contains_key("constants"@) {
                    assert(own.contains("constants"@));
                }
            }
            assert(!map.contains_key("start"@)) by {
                if map.contains_key("start"@) {
                    assert(own.contains("start"@));
                }
            }
            assert(!map.contains_key("timeouts"@)) by {
                if map.contains_key("timeouts"@) {
                    assert(own.contains("timeouts"@));
                }
            }
            assert(!map.contains_key("errors"@)) by {
                if map.contains_key("errors"@) {
                    assert(own.contains("errors"@));
                }
            }
            assert(!map.contains_key("events"@)) by {
                if map.contains_key("events"@) {
                    assert(own.contains("events"@));
                }
            }
            assert(!map.contains_key("functions"@)) by {
                if map.contains_key("functions"@) {
                    assert(own.contains("functions"@));
                }
            }
            assert(!map.contains_key("retries"@)) by {
                if map.contains_key("retries"@) {
                    assert(own.contains("retries"@));
                }
            }
            assert(!map.contains_key("auth"@)) by {
                if map.contains_key("auth"@) {
                    assert(own.contains("auth"@));
                }
            }
            assert(!map.contains_key("annotations"@)) by {
                if map.contains_key("annotations"@) {
                    assert(own.contains("annotations"@));
                }
            }
            assert(!map.contains_key("metadata"@)) by {
                if map.contains_key("metadata"@) {
                    assert(own.contains("metadata"@));
                }
            }
        }
    }
    let identifier = Identifier { id: opt_string(v, "id")?, key: opt_string(v, "key")? };
    let data_input_schema = match value_get(v, "dataInputSchema") {
        Some(d) => Some(decode_data_input_schema(d)?),
        None => None,
    };
    let secrets = match value_get(v, "secrets") {
        Some(s) => Some(decode_secrets(s)?),
        None => None,
    };
    let constants = match value_get(v, "constants") {
        Some(c) => Some(decode_constants(c)?),
        None => None,
    };
    let start = match value_get(v, "start") {
        Some(s) => Some(decode_start(s)?),
        None => None,
    };
    let expression_lang = match opt_string(v, "expressionLang")? {
        Some(s) => s,
        None => crate::jq(),
    };
    let timeouts = match value_get(v, "timeouts") {
        Some(t) => Some(decode_timeouts(t)?),
        None => None,
    };
    let errors = match value_get(v, "errors") {
        Some(e) => Some(decode_errors(e)?),
        None => None,
    };
    let events = match value_get(v, "events") {
        Some(e) => Some(decode_events(e)?),
        None => None,
    };
    let functions = match value_get(v, "functions") {
        Some(f) => Some(decode_functions(f)?),
        None => None,
    };
    let retries = match value_get(v, "retries") {
        Some(x) => Some(decode_retries(x)?),
        None => None,
    };
    let auth = match value_get(v, "auth") {
        Some(a) => Some(decode_auth(a)?),
        None => None,
    };
    let states = match value_get(v, "states") {
        Some(s) => match value_as_array(s) {
            Some(items) => {
                let ghost elems = (json_model(*s))->Arr_0;
                let mut out: Vec<State> = Vec::new();
                let n = items.len();
                let mut i: usize = 0;
                while i < n
                    invariant
                        json_model(*v) is Obj,
                        (json_model(*v))->Obj_0.contains_key("states"@),
                        (json_model(*v))->Obj_0["states"@] == JsonModel::Arr(elems),
                        n == items@.len(),
                        elems.len() == n,
                        0 <= i <= n,
                        out@.len() == i,
                        forall|j: int|
                            0 <= j < n ==> json_model(#[trigger] items@[j]) == elems[j],
                        forall|j: int|
                            0 <= j < i ==> decoded_state_facts(
                                #[trigger] out@[j],
                                json_model(items@[j]),
                            ),
                        plain_workflow_tree(json_model(*v)) ==> (forall|j: int|
                            0 <= j < i ==> violation_free(#[trigger] out@[j])),
                    decreases n - i,
                {
                    let st = decode_state(&items[i])?;
                    proof {
                        if plain_workflow_tree(json_model(*v)) {
                            assert(plain_sleep_state_tree(json_model(items@[i as int])));
                            if let State::Sleep(sl) = &st {
                                lemma_plain_sleep_state_violation_free(*sl);
                            }
                            assert(violation_free(st));
                        }
                    }
                    out.push(st);
                    i += 1;
                }
                out
            },
            None => {
                return Err(type_msg("states", "an array"));
            },
        },
        None => {
            return Err(missing_msg("states"));
        },
    };
    let doc = WorkflowDefinition {
        identifier,
        description: opt_string(v, "description")?,
        version: opt_string(v, "version")?,
        annotations: opt_string_vec(v, "annotations")?,
        data_input_schema,
        secrets,
        constants,
        start,
        spec_version: req_string(v, "specVersion")?,
        expression_lang,
        timeouts,
        errors,
        keep_active: bool_or(v, "keepActive", crate::false_value())?,
        metadata: opt_metadata(v)?,
        events,
        functions,
        auto_retries: bool_or(v, "autoRetries", crate::false_value())?,
        retries,
        auth,
        states,
    };
    proof {
        if plain_workflow_tree(json_model(*v)) {
            let p = Seq::<char>::empty();
            assert(doc.identifier.violations(child(p, "identifier"@)).len() == 0);
            assert(opt_min_len_vio(child(p, "version"@), doc.version).len() == 0);
            assert(opt_vec_min_len_vio(child(p, "annotations"@), doc.annotations).len() == 0);
            assert(min_len_vio(child(p, "spec_version"@), doc.spec_version@).len() == 0);
            assert(min_len_vio(child(p, "expression_lang"@), doc.expression_lang@).len() == 0);
            assert(seq_min_len_vio(child(p, "states"@), doc.states@.len()).len() == 0);
            lemma_seq_vio_empty(child(p, "states"@), doc.states@);
            assert(doc.doc_violations().len() == 0);
        }
    }
    Ok(doc)
}

/// What decoding a functions resource document from a tree yields: the
/// function definitions under its `functions` array, or a message for a
/// missing or misshapen field.
pub open spec fn model_functions_document(m: JsonModel) -> Result<Seq<FunctionView>, Seq<char>> {
    match m {
        JsonModel::Obj(map) => if map.contains_key("functions"@) {
            match map["functions"@] {
                JsonModel::Arr(s) => model_function_list(s),
                _ => Err(type_err_msg("functions"@, "an array"@)),
            }
        } else {
            Err(missing_err_msg("functions"@))
        },
        _ => Err(missing_err_msg("functions"@)),
    }
}

/// Decodes a functions resource document: an object holding a list of
/// function definitions.
///
/// The result is exactly what the parsed tree's content determines: the
/// decoded document on success, the first failure's message otherwise.
pub fn decode_functions_document(v: &serde_json::Value) -> (r: Result<FunctionsDocument, String>)
    ensures
        match r {
            Ok(doc) => model_functions_document(json_model(*v)) == Ok::<
                Seq<FunctionView>,
                Seq<char>,
            >(doc@),
            Err(e) => model_functions_document(json_model(*v)) == Err::<
                Seq<FunctionView>,
                Seq<char>,
            >(e@),
        },
{
    let functions = match value_get(v, "functions") {
        Some(f) => match value_as_array(f) {
            Some(items) => {
                proof {
                    if let JsonModel::Arr(ms) = json_model(*f) {
                        assert(models_of(items@) =~= ms);
                    }
                }
                match decode_function_list(items) {
                    Ok(fs) => fs,
                    Err(e) => {
                        return Err(e);
                    },
                }
            },
            None => {
                return Err(type_msg("functions", "an array"));
            },
        },
        None => {
            return Err(missing_msg("functions"));
        },
    };
    let doc = FunctionsDocument { functions };
    proof {
        assert(model_functions_document(json_model(*v)) == Ok::<Seq<FunctionView>, Seq<char>>(
            doc@,
        ));
    }
    Ok(doc)
}

} // verus!

//! Per-request orchestration decisions: the strictly linear flow from
//! container validation through deployment, spec lookup and marshalling to
//! invocation, and the response each outcome maps to.
//!
//! The engine's deploy and invoke operations are external collaborators;
//! every function here takes their outcomes as plain values and decides the
//! next step, so the decisions themselves are verified for every outcome
//! the engine can produce.

use vstd::prelude::*;

use crate::catalogue::{catalogue_names, Catalogue};
use crate::marshal::{params_view, MarshalError};
use crate::snapshot::{create_snapshot, is_fresh_snapshot, Snapshot};
use crate::types::{spec_tag_name, tag_name, TypeTag};
use crate::wasm::{is_wasm_module, validate_wasm};

verus! {

/// The terminal failure stages of a request, one per class of the error
/// taxonomy.
#[derive(Clone, Copy, PartialEq, Eq, Structural, Debug)]
pub enum FailStage {
    /// Unreadable body, invalid container header, or missing `fn`.
    Input,
    /// The engine rejected the bytecode.
    Deploy,
    /// The contract's metadata could not be read back.
    Spec,
    /// The requested function is not in the catalogue.
    Lookup,
    /// A declared parameter is unsupplied or its value does not parse.
    Marshal,
    /// The engine failed during execution.
    Invoke,
}

/// The HTTP status class of each failure stage: caller faults are 400,
/// engine-side faults after a well-formed submission are 500.
pub open spec fn spec_status_for(s: FailStage) -> u16 {
    match s {
        FailStage::Input => 400,
        FailStage::Deploy => 500,
        FailStage::Spec => 500,
        FailStage::Lookup => 400,
        FailStage::Marshal => 400,
        FailStage::Invoke => 400,
    }
}

pub fn status_for(s: FailStage) -> (r: u16)
    ensures
        r == spec_status_for(s),
{
    match s {
        FailStage::Input => 400,
        FailStage::Deploy => 500,
        FailStage::Spec => 500,
        FailStage::Lookup => 400,
        FailStage::Marshal => 400,
        FailStage::Invoke => 400,
    }
}

/// What the response-builder collaborator serializes: a status code, a
/// message, and an optional detail string.
pub struct ApiResponse {
    pub status: u16,
    pub message: String,
    pub detail: Option<String>,
}

pub open spec fn msg_body_error() -> Seq<char> {
    "Error reading submitted data in body"@
}

pub open spec fn msg_bad_wasm() -> Seq<char> {
    "Submitted data does not contain valid WASM code"@
}

pub open spec fn msg_deploy_error() -> Seq<char> {
    "Error deploying contract"@
}

pub open spec fn msg_missing_fn() -> Seq<char> {
    "Missing `fn` to execute"@
}

pub open spec fn msg_invoke_error() -> Seq<char> {
    "Failed to execute contract"@
}

pub open spec fn msg_success() -> Seq<char> {
    "Success"@
}

pub open spec fn msg_spec_error() -> Seq<char> {
    "Error reading contract spec"@
}

pub open spec fn msg_unknown_fn() -> Seq<char> {
    "Function not found in contract"@
}

pub open spec fn msg_missing_params() -> Seq<char> {
    "Missing parameters"@
}

pub open spec fn msg_invalid_value() -> Seq<char> {
    "Invalid parameter value"@
}

/// Decisions before deployment in the fixed-zero-argument flow: an
/// unreadable body and an invalid container are each rejected with a 400
/// input error, and deployment is never reached for them; otherwise the
/// fresh snapshot to deploy into is handed back.
pub fn zero_arg_begin(body_read: &Option<Vec<u8>>) -> (r: Result<Snapshot, ApiResponse>)
    ensures
        match r {
            Ok(snap) => (body_read matches Some(d) && is_wasm_module(d@)) && is_fresh_snapshot(
                snap,
            ),
            Err(resp) => {
                &&& !(body_read matches Some(d) && is_wasm_module(d@))
                &&& resp.status == spec_status_for(FailStage::Input)
                &&& (body_read is None ==> resp.message@ == msg_body_error())
                &&& (body_read is Some ==> resp.message@ == msg_bad_wasm())
                &&& resp.detail is None
            },
        },
{
    match body_read {
        None => Err(
            ApiResponse {
                status: 400,
                message: String::from_str("Error reading submitted data in body"),
                detail: None,
            },
        ),
        Some(data) => {
            if validate_wasm(data) {
                Ok(create_snapshot())
            } else {
                Err(
                    ApiResponse {
                        status: 400,
                        message: String::from_str("Submitted data does not contain valid WASM code"),
                        detail: None,
                    },
                )
            }
        },
    }
}

/// Decisions after deployment in the fixed-zero-argument flow: a deploy
/// failure is terminal with a 500; then the `fn` query parameter must be
/// present, else a 400.
pub fn zero_arg_after_deploy(deploy_ok: bool, fn_name: &Option<String>) -> (r: Result<
    (),
    ApiResponse,
>)
    ensures
        match r {
            Ok(u) => deploy_ok && fn_name is Some,
            Err(resp) => {
                &&& !(deploy_ok && fn_name is Some)
                &&& (!deploy_ok ==> resp.status == spec_status_for(FailStage::Deploy)
                    && resp.message@ == msg_deploy_error())
                &&& (deploy_ok ==> resp.status == spec_status_for(FailStage::Input)
                    && resp.message@ == msg_missing_fn())
                &&& resp.detail is None
            },
        },
{
    if !deploy_ok {
        Err(
            ApiResponse {
                status: 500,
                message: String::from_str("Error deploying contract"),
                detail: None,
            },
        )
    } else if fn_name.is_none() {
        Err(
            ApiResponse {
                status: 400,
                message: String::from_str("Missing `fn` to execute"),
                detail: None,
            },
        )
    } else {
        Ok(())
    }
}

/// Terminal decision of the fixed-zero-argument flow: forward the engine's
/// diagnostic with a 400 on an invocation failure, else report success with
/// the primary return value.
pub fn zero_arg_finish(invoke_result: Result<String, String>) -> (r: ApiResponse)
    ensures
        match invoke_result {
            Ok(v) => r.status == 200 && r.message@ == msg_success() && r.detail == Some(v),
            Err(e) => r.status == spec_status_for(FailStage::Invoke) && r.message@
                == msg_invoke_error() && r.detail == Some(e),
        },
{
    match invoke_result {
        Ok(v) => ApiResponse { status: 200, message: String::from_str("Success"), detail: Some(v) },
        Err(e) => ApiResponse {
            status: 400,
            message: String::from_str("Failed to execute contract"),
            detail: Some(e),
        },
    }
}

/// Decisions before deployment in the typed-invoke flow: the container
/// check comes first, then `fn` must be present; only then is the fresh
/// snapshot handed back for deployment.
pub fn typed_begin(body_read: &Option<Vec<u8>>, fn_name: &Option<String>) -> (r: Result<
    Snapshot,
    ApiResponse,
>)
    ensures
        match r {
            Ok(snap) => {
                &&& (body_read matches Some(d) && is_wasm_module(d@))
                &&& fn_name is Some
                &&& is_fresh_snapshot(snap)
            },
            Err(resp) => {
                &&& !((body_read matches Some(d) && is_wasm_module(d@)) && fn_name is Some)
                &&& resp.status == spec_status_for(FailStage::Input)
                &&& (body_read is None ==> resp.message@ == msg_body_error())
                &&& ((body_read matches Some(d) && !is_wasm_module(d@)) ==> resp.message@
                    == msg_bad_wasm())
                &&& ((body_read matches Some(d) && is_wasm_module(d@)) && fn_name is None
                    ==> resp.message@ == msg_missing_fn())
                &&& resp.detail is None
            },
        },
{
    match body_read {
        None => Err(
            ApiResponse {
                status: 400,
                message: String::from_str("Error reading submitted data in body"),
                detail: None,
            },
        ),
        Some(data) => {
            if !validate_wasm(data) {
                Err(
                    ApiResponse {
                        status: 400,
                        message: String::from_str("Submitted data does not contain valid WASM code"),
                        detail: None,
                    },
                )
            } else if fn_name.is_none() {
                Err(
                    ApiResponse {
                        status: 400,
                        message: String::from_str("Missing `fn` to execute"),
                        detail: None,
                    },
                )
            } else {
                Ok(create_snapshot())
            }
        },
    }
}

/// The terminal 500 when the engine rejects the bytecode, forwarding
/// whatever diagnostic it produced.
pub fn deploy_failed_response(diag: Option<String>) -> (r: ApiResponse)
    ensures
        r.status == spec_status_for(FailStage::Deploy),
        r.message@ == msg_deploy_error(),
        r.detail == diag,
{
    ApiResponse {
        status: 500,
        message: String::from_str("Error deploying contract"),
        detail: diag,
    }
}

/// The terminal 500 when the contract's metadata cannot be read back after
/// a successful deploy.
pub fn spec_failed_response(diag: Option<String>) -> (r: ApiResponse)
    ensures
        r.status == spec_status_for(FailStage::Spec),
        r.message@ == msg_spec_error(),
        r.detail == diag,
{
    ApiResponse {
        status: 500,
        message: String::from_str("Error reading contract spec"),
        detail: diag,
    }
}

/// The comma-joined concatenation of a list of strings.
pub open spec fn join_comma(items: Seq<Seq<char>>) -> Seq<char>
    decreases items.len(),
{
    if items.len() == 0 {
        Seq::empty()
    } else if items.len() == 1 {
        items[0]
    } else {
        join_comma(items.drop_last()) + ", "@ + items.last()
    }
}

/// Join the given strings with a comma separator, in order.
pub fn join_names(names: &Vec<String>) -> (r: String)
    ensures
        r@ == join_comma(names@.map_values(|s: String| s@)),
{
    let ghost views = names@.map_values(|s: String| s@);
    let n = names.len();
    let mut out = String::new();
    let mut i: usize = 0;
    while i < n
        invariant
            0 <= i <= n,
            n == names@.len(),
            views == names@.map_values(|s: String| s@),
            views.len() == n,
            out@ == join_comma(views.take(i as int)),
        decreases n - i,
    {
        if i > 0 {
            out.append(", ");
        }
        out.append(names[i].as_str());
        proof {
            assert(views.take(i as int + 1).drop_last() =~= views.take(i as int));
            assert(views.take(i as int + 1).last() == views[i as int]);
            if i == 0 {
                assert(join_comma(views.take(1)) == views.take(1)[0]);
                assert(out@ == views[0]);
            } else {
                assert(join_comma(views.take(i as int + 1)) == join_comma(views.take(i as int))
                    + ", "@ + views[i as int]);
            }
        }
        i = i + 1;
    }
    proof {
        assert(views.take(n as int) =~= views);
    }
    out
}

/// The 400 a lookup miss maps to: the full valid-name listing, in
/// deterministic catalogue order, so the caller can self-correct.
pub fn lookup_failed_response(cat: &Catalogue) -> (r: ApiResponse)
    ensures
        r.status == spec_status_for(FailStage::Lookup),
        r.message@ == msg_unknown_fn(),
        (r.detail matches Some(d) && d@ == join_comma(catalogue_names(cat.funcs@))),
{
    let names = crate::catalogue::function_names(cat);
    proof {
        assert(names@.map_values(|s: String| s@) =~= catalogue_names(cat.funcs@));
    }
    let joined = join_names(&names);
    ApiResponse {
        status: 400,
        message: String::from_str("Function not found in contract"),
        detail: Some(joined),
    }
}

/// One missing parameter as the user sees it: its name, a colon, and its
/// declared type.
pub open spec fn describe_entry(e: (Seq<char>, TypeTag)) -> Seq<char> {
    e.0 + ": "@ + spec_tag_name(e.1)
}

/// The user-facing enumeration of every missing parameter at once.
pub open spec fn describe_missing(list: Seq<(Seq<char>, TypeTag)>) -> Seq<char> {
    join_comma(list.map_values(|e: (Seq<char>, TypeTag)| describe_entry(e)))
}

/// One rejected value as the user sees it: the parameter, the expected
/// type, and the raw text that did not parse.
pub open spec fn describe_invalid(name: Seq<char>, expected: TypeTag, raw: Seq<char>) -> Seq<char> {
    name + ": expected "@ + spec_tag_name(expected) + ", got "@ + raw
}

/// The 400 a marshalling failure maps to: every missing parameter with its
/// declared type at once, or the first value that did not parse with the
/// type it was expected to parse under.
pub fn marshal_failed_response(e: &MarshalError) -> (r: ApiResponse)
    ensures
        r.status == spec_status_for(FailStage::Marshal),
        match *e {
            MarshalError::MissingParameters(list) => r.message@ == msg_missing_params() && (r.detail
                matches Some(d) && d@ == describe_missing(params_view(list@))),
            MarshalError::InvalidValue { name, expected, raw } => r.message@ == msg_invalid_value()
                && (r.detail matches Some(d) && d@ == describe_invalid(name@, expected, raw@)),
        },
{
    match e {
        MarshalError::MissingParameters(list) => {
            let mut items: Vec<String> = Vec::new();
            let n = list.len();
            let mut i: usize = 0;
            let ghost entries = params_view(list@);
            while i < n
                invariant
                    0 <= i <= n,
                    n == list@.len(),
                    entries == params_view(list@),
                    entries.len() == n,
                    items@.len() == i,
                    forall|k: int|
                        0 <= k < i ==> (#[trigger] items@[k])@ == describe_entry(entries[k]),
                decreases n - i,
            {
                let mut item = String::new();
                item.append(list[i].name.as_str());
                item.append(": ");
                item.append(tag_name(list[i].ty));
                proof {
                    assert(item@ =~= describe_entry(entries[i as int]));
                }
                items.push(item);
                i = i + 1;
            }
            let joined = join_names(&items);
            proof {
                assert(items@.map_values(|s: String| s@) =~= entries.map_values(
                    |e2: (Seq<char>, TypeTag)| describe_entry(e2),
                ));
            }
            ApiResponse {
                status: 400,
                message: String::from_str("Missing parameters"),
                detail: Some(joined),
            }
        },
        MarshalError::InvalidValue { name, expected, raw } => {
            let mut d = String::new();
            d.append(name.as_str());
            d.append(": expected ");
            d.append(tag_name(*expected));
            d.append(", got ");
            d.append(raw.as_str());
            proof {
                assert(d@ =~= describe_invalid(name@, *expected, raw@));
            }
            ApiResponse {
                status: 400,
                message: String::from_str("Invalid parameter value"),
                detail: Some(d),
            }
        },
    }
}

/// The 400 an invocation failure maps to, forwarding the engine's
/// diagnostic text verbatim.
pub fn invoke_failed_response(diag: String) -> (r: ApiResponse)
    ensures
        r.status == spec_status_for(FailStage::Invoke),
        r.message@ == msg_invoke_error(),
        r.detail == Some(diag),
{
    ApiResponse {
        status: 400,
        message: String::from_str("Failed to execute contract"),
        detail: Some(diag),
    }
}

/// What a successful invocation yields: the function's return value, the
/// resource-cost budget in display form, and the ordered emitted events.
pub struct InvocationOutcome {
    pub value: String,
    pub budget: String,
    pub events: Vec<String>,
}

/// A successful typed-invoke response: the return value, the cost budget
/// and the event list, the latter two always present even when empty.
pub struct TypedResponse {
    pub status: u16,
    pub message: String,
    pub value: String,
    pub budget: String,
    pub events: Vec<String>,
}

/// Build the one successful typed-invoke response: a 200 that carries the
/// outcome's value, budget and events unchanged, so budget and events are
/// present in every successful response.
pub fn typed_success_response(outcome: InvocationOutcome) -> (r: TypedResponse)
    ensures
        r.status == 200,
        r.message@ == msg_success(),
        r.value == outcome.value,
        r.budget == outcome.budget,
        r.events == outcome.events,
{
    TypedResponse {
        status: 200,
        message: String::from_str("Success"),
        value: outcome.value,
        budget: outcome.budget,
        events: outcome.events,
    }
}

} // verus!

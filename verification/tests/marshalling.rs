use soroflare::catalogue::{build_catalogue, lookup, Catalogue, SpecEntry};
use soroflare::flow::{
    lookup_failed_response, marshal_failed_response, typed_begin, typed_success_response,
    InvocationOutcome,
};
use soroflare::marshal::{marshal, FunctionSig, MarshalError, Param, QueryParams};
use soroflare::types::{format_value, marshal_value, tag_name, TypeTag, TypedValue};

fn add_sig() -> FunctionSig {
    FunctionSig {
        name: "add".to_string(),
        inputs: vec![
            Param { name: "a".to_string(), ty: TypeTag::I32 },
            Param { name: "b".to_string(), ty: TypeTag::I32 },
        ],
        output: TypeTag::I32,
    }
}

fn add_catalogue() -> Catalogue {
    Catalogue { funcs: vec![add_sig()] }
}

fn params(pairs: &[(&str, &str)]) -> QueryParams {
    QueryParams {
        pairs: pairs.iter().map(|(k, v)| (k.to_string(), v.to_string())).collect(),
    }
}

#[test]
fn typed_invoke_marshals_in_declared_order() {
    let sig = add_sig();
    let q = params(&[("fn", "add"), ("a", "2"), ("b", "3")]);
    let vals = marshal(&sig, &q).unwrap();
    assert_eq!(vals, vec![TypedValue::I32(2), TypedValue::I32(3)]);
}

#[test]
fn typed_invoke_success_reports_result_value() {
    let cat = add_catalogue();
    let found = lookup(&cat, &"add".to_string());
    assert!(found.is_some());
    let sig = found.unwrap();
    let q = params(&[("fn", "add"), ("a", "2"), ("b", "3")]);
    let vals = marshal(sig, &q).unwrap();
    assert_eq!(vals.len(), 2);
    // the engine, invoked positionally with 2 and 3, reports 5
    let resp = typed_success_response(InvocationOutcome {
        value: "5".to_string(),
        budget: "cpu: 0; mem: 0".to_string(),
        events: Vec::new(),
    });
    assert_eq!(resp.status, 200);
    assert_eq!(resp.message, "Success");
    assert_eq!(resp.value, "5");
}

#[test]
fn missing_parameter_is_reported_with_declared_type() {
    let sig = add_sig();
    let q = params(&[("fn", "add"), ("a", "2")]);
    match marshal(&sig, &q) {
        Err(MarshalError::MissingParameters(list)) => {
            assert_eq!(list.len(), 1);
            assert_eq!(list[0].name, "b");
            assert_eq!(list[0].ty, TypeTag::I32);
        },
        _ => panic!("expected a missing-parameter failure"),
    }
}

#[test]
fn all_missing_parameters_are_collected_at_once() {
    let sig = add_sig();
    let q = params(&[("fn", "add")]);
    match marshal(&sig, &q) {
        Err(MarshalError::MissingParameters(list)) => {
            assert_eq!(list.len(), 2);
            assert_eq!(list[0].name, "a");
            assert_eq!(list[1].name, "b");
        },
        _ => panic!("expected a missing-parameter failure"),
    }
}

#[test]
fn missing_parameter_response_enumerates_gaps() {
    let sig = add_sig();
    let q = params(&[("fn", "add")]);
    let e = marshal(&sig, &q).unwrap_err();
    let resp = marshal_failed_response(&e);
    assert_eq!(resp.status, 400);
    assert_eq!(resp.message, "Missing parameters");
    assert_eq!(resp.detail.as_deref(), Some("a: I32, b: I32"));
}

#[test]
fn invalid_value_reports_name_expected_type_and_raw_text() {
    let sig = add_sig();
    let q = params(&[("fn", "add"), ("a", "foo"), ("b", "3")]);
    match marshal(&sig, &q) {
        Err(MarshalError::InvalidValue { name, expected, raw }) => {
            assert_eq!(name, "a");
            assert_eq!(expected, TypeTag::I32);
            assert_eq!(raw, "foo");
        },
        _ => panic!("expected an invalid-value failure"),
    }
    let e = marshal(&sig, &q).unwrap_err();
    let resp = marshal_failed_response(&e);
    assert_eq!(resp.status, 400);
    assert_eq!(resp.message, "Invalid parameter value");
    assert_eq!(resp.detail.as_deref(), Some("a: expected I32, got foo"));
}

#[test]
fn lookup_miss_lists_every_valid_name() {
    let cat = add_catalogue();
    assert!(lookup(&cat, &"subtract".to_string()).is_none());
    let resp = lookup_failed_response(&cat);
    assert_eq!(resp.status, 400);
    assert_eq!(resp.message, "Function not found in contract");
    assert_eq!(resp.detail.as_deref(), Some("add"));
}

#[test]
fn lookup_is_case_sensitive_exact_match() {
    let cat = add_catalogue();
    assert!(lookup(&cat, &"Add".to_string()).is_none());
    assert!(lookup(&cat, &"ad".to_string()).is_none());
    assert!(lookup(&cat, &"add".to_string()).is_some());
}

#[test]
fn catalogue_building_never_aborts_on_a_bad_name() {
    let entries = vec![
        SpecEntry {
            decoded_name: Ok("add".to_string()),
            inputs: Vec::new(),
            output: TypeTag::U32,
        },
        SpecEntry {
            decoded_name: Err("bad\u{fffd}name".to_string()),
            inputs: Vec::new(),
            output: TypeTag::Bool,
        },
    ];
    let cat = build_catalogue(entries);
    assert_eq!(cat.funcs.len(), 2);
    assert_eq!(cat.funcs[0].name, "add");
    assert_eq!(cat.funcs[1].name, "bad\u{fffd}name");
}

#[test]
fn first_query_pair_wins_for_duplicate_keys() {
    let sig = FunctionSig {
        name: "f".to_string(),
        inputs: vec![Param { name: "a".to_string(), ty: TypeTag::U32 }],
        output: TypeTag::U32,
    };
    let q = params(&[("a", "1"), ("a", "2")]);
    let vals = marshal(&sig, &q).unwrap();
    assert_eq!(vals, vec![TypedValue::U32(1)]);
}

#[test]
fn marshalling_succeeds_with_no_declared_parameters() {
    let sig = FunctionSig { name: "f".to_string(), inputs: Vec::new(), output: TypeTag::U32 };
    let q = params(&[]);
    let vals = marshal(&sig, &q).unwrap();
    assert!(vals.is_empty());
}

#[test]
fn typed_begin_checks_container_before_fn() {
    let r = typed_begin(&Some(vec![1, 2, 3]), &None);
    let resp = r.err().unwrap();
    assert_eq!(resp.status, 400);
    assert_eq!(resp.message, "Submitted data does not contain valid WASM code");

    let r = typed_begin(&Some(vec![0x00, 0x61, 0x73, 0x6d, 0x01]), &None);
    let resp = r.err().unwrap();
    assert_eq!(resp.status, 400);
    assert_eq!(resp.message, "Missing `fn` to execute");

    let r = typed_begin(&Some(vec![0x00, 0x61, 0x73, 0x6d, 0x01]), &Some("add".to_string()));
    assert!(r.is_ok());
}

#[test]
fn budget_and_events_are_always_present_in_success() {
    let resp = typed_success_response(InvocationOutcome {
        value: "true".to_string(),
        budget: String::new(),
        events: Vec::new(),
    });
    assert_eq!(resp.status, 200);
    // both fields exist even when empty: nothing is omitted
    assert_eq!(resp.budget, "");
    assert_eq!(resp.events.len(), 0);
}

#[test]
fn every_tag_has_a_display_name() {
    assert_eq!(tag_name(TypeTag::U32), "U32");
    assert_eq!(tag_name(TypeTag::I128), "I128");
    assert_eq!(tag_name(TypeTag::Bool), "Bool");
    assert_eq!(tag_name(TypeTag::Text), "String");
    assert_eq!(tag_name(TypeTag::Address), "Address");
}

#[test]
fn bool_marshalling_accepts_only_the_two_literals() {
    assert_eq!(
        marshal_value(TypeTag::Bool, &"true".to_string()),
        Some(TypedValue::Bool(true))
    );
    assert_eq!(
        marshal_value(TypeTag::Bool, &"false".to_string()),
        Some(TypedValue::Bool(false))
    );
    assert_eq!(marshal_value(TypeTag::Bool, &"True".to_string()), None);
    assert_eq!(marshal_value(TypeTag::Bool, &"1".to_string()), None);
}

#[test]
fn text_tags_pass_the_raw_string_through() {
    let raw = "hello world".to_string();
    assert_eq!(
        marshal_value(TypeTag::Symbol, &raw),
        Some(TypedValue::Symbol("hello world".to_string()))
    );
    let v = marshal_value(TypeTag::Address, &raw).unwrap();
    assert_eq!(format_value(&v), "hello world");
}

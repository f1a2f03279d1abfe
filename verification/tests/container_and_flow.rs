use sha2::Digest;
use soroflare::flow::{
    deploy_failed_response, invoke_failed_response, join_names, spec_failed_response, status_for,
    zero_arg_after_deploy, zero_arg_begin, zero_arg_finish, FailStage,
};
use soroflare::snapshot::{
    create_snapshot, empty_ledger_snapshot, fixed_contract_id, sandbox_network_id,
};
use soroflare::wasm::validate_wasm;

const MAGIC_MODULE: [u8; 5] = [0x00, 0x61, 0x73, 0x6d, 0x01];

#[test]
fn short_bodies_are_never_valid_containers() {
    assert!(!validate_wasm(&vec![]));
    assert!(!validate_wasm(&vec![0x00]));
    assert!(!validate_wasm(&vec![0x00, 0x61, 0x73]));
    // exactly the magic, but only four bytes: still too short
    assert!(!validate_wasm(&vec![0x00, 0x61, 0x73, 0x6d]));
}

#[test]
fn mismatched_magic_is_never_a_valid_container() {
    assert!(!validate_wasm(&vec![0x01, 0x61, 0x73, 0x6d, 0x01]));
    assert!(!validate_wasm(&vec![0x00, 0x61, 0x73, 0x6e, 0x01]));
    assert!(!validate_wasm(&"hello".as_bytes().to_vec()));
}

#[test]
fn five_bytes_with_the_magic_prefix_pass() {
    assert!(validate_wasm(&MAGIC_MODULE.to_vec()));
}

#[test]
fn invalid_container_is_rejected_before_deployment() {
    let r = zero_arg_begin(&Some(vec![1, 2, 3]));
    let resp = r.err().unwrap();
    assert_eq!(resp.status, 400);
    assert_eq!(resp.message, "Submitted data does not contain valid WASM code");
}

#[test]
fn unreadable_body_is_rejected_before_deployment() {
    let r = zero_arg_begin(&None);
    let resp = r.err().unwrap();
    assert_eq!(resp.status, 400);
    assert_eq!(resp.message, "Error reading submitted data in body");
}

#[test]
fn valid_container_reaches_deployment_with_a_fresh_snapshot() {
    let r = zero_arg_begin(&Some(MAGIC_MODULE.to_vec()));
    let snap = r.ok().unwrap();
    assert_eq!(snap.min_persistent_entry_ttl, u32::MAX);
    assert_eq!(snap.min_temp_entry_ttl, u32::MAX);
    assert_eq!(snap.network_id.len(), 32);
}

#[test]
fn two_fresh_snapshots_are_independent_and_identical() {
    let a = create_snapshot();
    let b = create_snapshot();
    assert_eq!(a.network_id, b.network_id);
    assert_eq!(a.min_persistent_entry_ttl, b.min_persistent_entry_ttl);
    assert_eq!(a.min_temp_entry_ttl, b.min_temp_entry_ttl);
    // the identifier each request deploys to is the same fixed value
    assert_eq!(fixed_contract_id(), fixed_contract_id());
    assert_eq!(fixed_contract_id(), vec![0u8; 32]);
}

#[test]
fn engine_facing_snapshots_start_identical_per_request() {
    let a = empty_ledger_snapshot();
    let b = empty_ledger_snapshot();
    assert_eq!(a.network_id, b.network_id);
    assert_eq!(a.min_persistent_entry_ttl, u32::MAX);
    assert_eq!(b.min_temp_entry_ttl, u32::MAX);
    assert!(a.ledger_entries.is_empty());
    assert_eq!(a.sequence_number, 0);
}

#[test]
fn network_id_is_the_digest_of_the_sandbox_passphrase() {
    let expected =
        sha2::Sha256::digest("Local Sandbox Stellar Network ; September 2022".as_bytes()).to_vec();
    let got = sandbox_network_id();
    assert_eq!(got, expected);
    assert_eq!(got.len(), 32);
    // a passthrough would have handed the passphrase bytes back
    assert_ne!(got, "Local Sandbox Stellar Network ; September 2022".as_bytes().to_vec());
}

#[test]
fn deploy_failure_is_a_server_side_500() {
    let r = zero_arg_after_deploy(false, &Some("add".to_string()));
    let resp = r.err().unwrap();
    assert_eq!(resp.status, 500);
    assert_eq!(resp.message, "Error deploying contract");
}

#[test]
fn missing_fn_after_deploy_is_a_400() {
    let r = zero_arg_after_deploy(true, &None);
    let resp = r.err().unwrap();
    assert_eq!(resp.status, 400);
    assert_eq!(resp.message, "Missing `fn` to execute");
    assert!(zero_arg_after_deploy(true, &Some("add".to_string())).is_ok());
}

#[test]
fn invoke_outcomes_map_to_success_or_forwarded_diagnostic() {
    let ok = zero_arg_finish(Ok("7".to_string()));
    assert_eq!(ok.status, 200);
    assert_eq!(ok.message, "Success");
    assert_eq!(ok.detail.as_deref(), Some("7"));

    let err = zero_arg_finish(Err("trap: unreachable".to_string()));
    assert_eq!(err.status, 400);
    assert_eq!(err.message, "Failed to execute contract");
    assert_eq!(err.detail.as_deref(), Some("trap: unreachable"));
}

#[test]
fn every_failure_stage_has_its_status_class() {
    assert_eq!(status_for(FailStage::Input), 400);
    assert_eq!(status_for(FailStage::Deploy), 500);
    assert_eq!(status_for(FailStage::Spec), 500);
    assert_eq!(status_for(FailStage::Lookup), 400);
    assert_eq!(status_for(FailStage::Marshal), 400);
    assert_eq!(status_for(FailStage::Invoke), 400);
}

#[test]
fn engine_diagnostics_are_forwarded_verbatim() {
    let r = deploy_failed_response(Some("unsupported section".to_string()));
    assert_eq!(r.status, 500);
    assert_eq!(r.detail.as_deref(), Some("unsupported section"));

    let r = spec_failed_response(None);
    assert_eq!(r.status, 500);
    assert_eq!(r.message, "Error reading contract spec");

    let r = invoke_failed_response("host error".to_string());
    assert_eq!(r.status, 400);
    assert_eq!(r.detail.as_deref(), Some("host error"));
}

#[test]
fn joining_names_uses_comma_separators() {
    assert_eq!(join_names(&vec![]), "");
    assert_eq!(join_names(&vec!["add".to_string()]), "add");
    assert_eq!(
        join_names(&vec!["add".to_string(), "sub".to_string(), "mul2".to_string()]),
        "add, sub, mul2"
    );
}

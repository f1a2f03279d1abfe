//! The throwaway execution-state snapshot built per request, and the fixed
//! synthetic contract identifier every request deploys to.
//!
//! A snapshot carries the sandbox network identity and entry-expiration
//! floors set to the maximum representable value, so nothing in it is ever
//! treated as expired during the single deploy-and-invoke cycle; it is
//! discarded when the request ends.

use vstd::prelude::*;

use sha2::Digest;
use soroban_ledger_snapshot::LedgerSnapshot;
use vstd::string::StringSliceAdditionalSpecFns;

verus! {

/// The SHA-256 digest of a byte string.
pub uninterp spec fn sha256_of(data: Seq<u8>) -> Seq<u8>;

/// Relies on sha2::Sha256 through the Digest trait: the result is the
/// 32-byte SHA-256 digest of the input bytes, a function of the input alone.
#[verifier::external_body]
fn sha256(data: &Vec<u8>) -> (r: Vec<u8>)
    ensures
        r@ == sha256_of(data@),
        r@.len() == 32,
{
    sha2::Sha256::digest(data.as_slice()).to_vec()
}

/// The passphrase of the local sandbox network, whose digest is the
/// snapshot's network identity.
pub open spec fn sandbox_passphrase_bytes() -> Seq<u8> {
    "Local Sandbox Stellar Network ; September 2022".spec_bytes()
}

/// The fixed sandbox network identity: the SHA-256 digest of the sandbox
/// network passphrase.
pub fn sandbox_network_id() -> (r: Vec<u8>)
    ensures
        r@ == sha256_of(sandbox_passphrase_bytes()),
        r@.len() == 32,
{
    let p: &str = "Local Sandbox Stellar Network ; September 2022";
    let bytes = p.as_bytes_vec();
    sha256(&bytes)
}

/// The in-memory execution snapshot of one request: network identity plus
/// the two entry-expiration floors. Ledger entries written by deployment
/// live in the engine-facing snapshot, not in this model.
pub struct Snapshot {
    pub network_id: Vec<u8>,
    pub min_persistent_entry_ttl: u32,
    pub min_temp_entry_ttl: u32,
}

/// A snapshot as the factory hands it out: sandbox network identity, and
/// both expiration floors at the maximum representable value.
pub open spec fn is_fresh_snapshot(s: Snapshot) -> bool {
    &&& s.network_id@ == sha256_of(sandbox_passphrase_bytes())
    &&& s.network_id@.len() == 32
    &&& s.min_persistent_entry_ttl == u32::MAX
    &&& s.min_temp_entry_ttl == u32::MAX
}

/// Snapshot Factory: build the fresh, empty execution snapshot of one
/// request. Always succeeds; pure construction.
pub fn create_snapshot() -> (r: Snapshot)
    ensures
        is_fresh_snapshot(r),
{
    Snapshot {
        network_id: sandbox_network_id(),
        min_persistent_entry_ttl: u32::MAX,
        min_temp_entry_ttl: u32::MAX,
    }
}

/// The fixed synthetic contract identifier: 32 zero bytes. Every request
/// deploys to, and invokes at, this same identifier; snapshots are
/// discarded per request, so no collision across requests is possible.
pub open spec fn fixed_contract_id_seq() -> Seq<u8> {
    Seq::new(32, |i: int| 0u8)
}

pub fn fixed_contract_id() -> (r: Vec<u8>)
    ensures
        r@ == fixed_contract_id_seq(),
{
    let mut v: Vec<u8> = Vec::new();
    let mut i: usize = 0;
    while i < 32
        invariant
            0 <= i <= 32,
            v@.len() == i,
            forall|k: int| 0 <= k < i ==> v@[k] == 0u8,
        decreases 32 - i,
    {
        v.push(0u8);
        i = i + 1;
    }
    proof {
        assert(v@ =~= fixed_contract_id_seq());
    }
    v
}

/// Two snapshots fresh from the factory are indistinguishable: each request
/// starts from the same empty state, with the same contract identifier, so
/// no state or identifier reuse can leak from one request into the next.
pub proof fn lemma_fresh_snapshots_agree(a: Snapshot, b: Snapshot)
    requires
        is_fresh_snapshot(a),
        is_fresh_snapshot(b),
    ensures
        a.network_id@ == b.network_id@,
        a.min_persistent_entry_ttl == b.min_persistent_entry_ttl,
        a.min_temp_entry_ttl == b.min_temp_entry_ttl,
{
}

#[verifier::external_type_specification]
#[verifier::external_body]
pub struct ExLedgerSnapshot(LedgerSnapshot);

/// Relies on soroban_ledger_snapshot::LedgerSnapshot: plain struct
/// construction; every field not handed in takes the crate's own Default
/// value.
#[verifier::external_body]
fn build_ledger_snapshot(network_id: &Vec<u8>, min_persistent: u32, min_temp: u32) -> (r:
    LedgerSnapshot)
    requires
        network_id@.len() == 32,
{
    let mut id = [0u8; 32];
    id.copy_from_slice(network_id.as_slice());
    LedgerSnapshot {
        network_id: id,
        min_persistent_entry_ttl: min_persistent,
        min_temp_entry_ttl: min_temp,
        ..Default::default()
    }
}

/// The engine-facing ledger snapshot of one request: the fixed sandbox
/// network identity and never-expiring entry floors, everything else at its
/// default.
pub fn empty_ledger_snapshot() -> LedgerSnapshot {
    let s = create_snapshot();
    build_ledger_snapshot(&s.network_id, s.min_persistent_entry_ttl, s.min_temp_entry_ttl)
}

} // verus!

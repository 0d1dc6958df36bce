//! Attestor registry: an administrator-governed set of attestors, a ledger of
//! attestations with replay protection, and a per-attestor endpoint directory,
//! all kept in a two-tier durable key/value store.

mod contract;
mod errors;
mod events;
mod laws;
mod storage;
mod types;

pub use contract::{
    configure_outcome, has_prefix, initialize_outcome, is_valid_endpoint_url, register_outcome,
    remove_outcome, revoke_outcome, submit_outcome, update_outcome, AnchorKitContract,
    ContractView, MAX_URL_LEN,
};
pub use errors::Error;
pub use events::{
    AttestationRecorded, AttestationRecordedData, AttestorAdded, AttestorRemoved,
    EndpointConfigured, EndpointRemoved, Event,
};
pub use laws::{
    accepted_id, accepts_hash, acceptances_of, apply, issued_ids, lemma_admin_only_operations,
    lemma_apply_keeps_well_formed, lemma_endpoint_configured_once, lemma_failure_changes_nothing,
    lemma_fresh_is_well_formed, lemma_ids_are_zero_one_two, lemma_ids_consecutive_from,
    lemma_missing_endpoint_not_found, lemma_payload_hash_accepted_at_most_once,
    lemma_recorded_attestation_is_permanent, lemma_run_keeps_well_formed,
    lemma_submission_needs_active_attestor, lemma_unregistered_is_not_attestor, run, succeeds,
    well_formed, Op,
};
pub use storage::{
    Durability, Slot, Storage, StorageKey, StorageView, StoredValue, DAY_IN_LEDGERS,
    INSTANCE_LIFETIME, PERSISTENT_LIFETIME,
};
pub use types::{bytes32_eq, Address, Attestation, Endpoint, PayloadHash};

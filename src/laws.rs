use vstd::prelude::*;

use crate::contract::{
    configure_outcome, initialize_outcome, is_valid_endpoint_url, register_outcome,
    remove_outcome, revoke_outcome, submit_outcome, update_outcome, ContractView,
};
use crate::types::{Address, PayloadHash};
use crate::Error;

verus! {

/// One state-changing call on the registry, with the identity that invoked it.
pub enum Op {
    Initialize { caller: Address, admin: Address },
    RegisterAttestor { caller: Address, attestor: Address },
    RevokeAttestor { caller: Address, attestor: Address },
    SubmitAttestation {
        caller: Address,
        issuer: Address,
        subject: Address,
        timestamp: u64,
        payload_hash: PayloadHash,
        signature: Vec<u8>,
    },
    ConfigureEndpoint { caller: Address, attestor: Address, url: String },
    UpdateEndpoint { caller: Address, attestor: Address, url: String, is_active: bool },
    RemoveEndpoint { caller: Address, attestor: Address },
}

/// The state after `op` runs in state `s`.
pub open spec fn apply(s: ContractView, op: Op) -> ContractView {
    match op {
        Op::Initialize { caller, admin } => initialize_outcome(s, caller, admin).0,
        Op::RegisterAttestor { caller, attestor } => register_outcome(s, caller, attestor).0,
        Op::RevokeAttestor { caller, attestor } => revoke_outcome(s, caller, attestor).0,
        Op::SubmitAttestation { caller, issuer, subject, timestamp, payload_hash, signature } =>
            submit_outcome(s, caller, issuer, subject, timestamp, payload_hash, signature).0,
        Op::ConfigureEndpoint { caller, attestor, url } => configure_outcome(
            s,
            caller,
            attestor,
            url,
        ).0,
        Op::UpdateEndpoint { caller, attestor, url, is_active } => update_outcome(
            s,
            caller,
            attestor,
            url,
            is_active,
        ).0,
        Op::RemoveEndpoint { caller, attestor } => remove_outcome(s, caller, attestor).0,
    }
}

/// Whether `op` succeeds in state `s`.
pub open spec fn succeeds(s: ContractView, op: Op) -> bool {
    match op {
        Op::Initialize { caller, admin } => initialize_outcome(s, caller, admin).1 is Ok,
        Op::RegisterAttestor { caller, attestor } => register_outcome(s, caller, attestor).1 is Ok,
        Op::RevokeAttestor { caller, attestor } => revoke_outcome(s, caller, attestor).1 is Ok,
        Op::SubmitAttestation { caller, issuer, subject, timestamp, payload_hash, signature } =>
            submit_outcome(s, caller, issuer, subject, timestamp, payload_hash, signature).1 is Ok,
        Op::ConfigureEndpoint { caller, attestor, url } => configure_outcome(
            s,
            caller,
            attestor,
            url,
        ).1 is Ok,
        Op::UpdateEndpoint { caller, attestor, url, is_active } => update_outcome(
            s,
            caller,
            attestor,
            url,
            is_active,
        ).1 is Ok,
        Op::RemoveEndpoint { caller, attestor } => remove_outcome(s, caller, attestor).1 is Ok,
    }
}

/// The id that `op` returns in state `s`, if it is an accepted submission.
pub open spec fn accepted_id(s: ContractView, op: Op) -> Option<u64> {
    match op {
        Op::SubmitAttestation { caller, issuer, subject, timestamp, payload_hash, signature } =>
            match submit_outcome(s, caller, issuer, subject, timestamp, payload_hash, signature).1 {
            Ok(id) => Some(id),
            Err(_) => None,
        },
        _ => None,
    }
}

/// `op` is an accepted submission of payload hash `h` in state `s`.
pub open spec fn accepts_hash(s: ContractView, op: Op, h: PayloadHash) -> bool {
    &&& accepted_id(s, op) is Some
    &&& (op matches Op::SubmitAttestation { payload_hash, .. } && payload_hash == h)
}

/// The state after running `ops` in order from `s`.
pub open spec fn run(s: ContractView, ops: Seq<Op>) -> ContractView
    decreases ops.len(),
{
    if ops.len() == 0 {
        s
    } else {
        apply(run(s, ops.drop_last()), ops.last())
    }
}

/// The ids returned by the accepted submissions among `ops`, in order.
pub open spec fn issued_ids(s: ContractView, ops: Seq<Op>) -> Seq<u64>
    decreases ops.len(),
{
    if ops.len() == 0 {
        Seq::empty()
    } else {
        let before = issued_ids(s, ops.drop_last());
        match accepted_id(run(s, ops.drop_last()), ops.last()) {
            Some(id) => before.push(id),
            None => before,
        }
    }
}

/// How many of `ops` are accepted submissions of payload hash `h`.
pub open spec fn acceptances_of(s: ContractView, ops: Seq<Op>, h: PayloadHash) -> nat
    decreases ops.len(),
{
    if ops.len() == 0 {
        0
    } else {
        acceptances_of(s, ops.drop_last(), h) + if accepts_hash(
            run(s, ops.drop_last()),
            ops.last(),
            h,
        ) {
            1nat
        } else {
            0nat
        }
    }
}

/// A call that fails leaves the registry exactly as it was.
pub proof fn lemma_failure_changes_nothing(s: ContractView, op: Op)
    ensures
        !succeeds(s, op) ==> apply(s, op) == s,
{
}

/// Once a payload hash is marked used, no call unmarks it.
proof fn lemma_used_hash_stays_used(s: ContractView, op: Op, h: PayloadHash)
    requires
        s.storage.is_hash_used(h),
    ensures
        apply(s, op).storage.is_hash_used(h),
        !accepts_hash(s, op, h),
{
}

/// An accepted submission marks its payload hash used.
proof fn lemma_acceptance_marks_hash(s: ContractView, op: Op, h: PayloadHash)
    requires
        accepts_hash(s, op, h),
    ensures
        apply(s, op).storage.is_hash_used(h),
{
}

/// Replay protection: over any sequence of calls, a payload hash is accepted
/// at most once, whoever the issuer and subject, and never if it was already
/// used when the sequence began.
pub proof fn lemma_payload_hash_accepted_at_most_once(
    s: ContractView,
    ops: Seq<Op>,
    h: PayloadHash,
)
    ensures
        acceptances_of(s, ops, h) <= 1,
        s.storage.is_hash_used(h) ==> acceptances_of(s, ops, h) == 0,
        (s.storage.is_hash_used(h) || acceptances_of(s, ops, h) == 1) ==> run(
            s,
            ops,
        ).storage.is_hash_used(h),
    decreases ops.len(),
{
    if ops.len() > 0 {
        let prefix = ops.drop_last();
        lemma_payload_hash_accepted_at_most_once(s, prefix, h);
        let t = run(s, prefix);
        if t.storage.is_hash_used(h) {
            lemma_used_hash_stays_used(t, ops.last(), h);
        } else if accepts_hash(t, ops.last(), h) {
            lemma_acceptance_marks_hash(t, ops.last(), h);
        }
    }
}

/// How `op` moves the id counter: up by one on an accepted submission, which
/// returns the old value, and not at all otherwise.
proof fn lemma_counter_step(s: ContractView, op: Op)
    requires
        s.storage.next_id() < u64::MAX,
    ensures
        match accepted_id(s, op) {
            Some(id) => id == s.storage.next_id() && apply(s, op).storage.next_id() == id + 1,
            None => apply(s, op).storage.next_id() == s.storage.next_id(),
        },
{
}

/// The accepted submissions among `ops` receive consecutive ids starting at
/// the counter's value in `s`.
pub proof fn lemma_ids_consecutive_from(s: ContractView, ops: Seq<Op>)
    requires
        s.storage.next_id() + ops.len() < u64::MAX,
    ensures
        issued_ids(s, ops).len() <= ops.len(),
        run(s, ops).storage.next_id() == s.storage.next_id() + issued_ids(s, ops).len(),
        forall|i: int|
            0 <= i < issued_ids(s, ops).len() ==> #[trigger] issued_ids(s, ops)[i]
                == s.storage.next_id() + i,
    decreases ops.len(),
{
    if ops.len() > 0 {
        let prefix = ops.drop_last();
        lemma_ids_consecutive_from(s, prefix);
        lemma_counter_step(run(s, prefix), ops.last());
    }
}

/// Monotonic ids: from a fresh registry, the accepted submissions of any
/// sequence of calls return 0, 1, 2, ... in order, with no gap or repeat.
pub proof fn lemma_ids_are_zero_one_two(ops: Seq<Op>)
    requires
        ops.len() < u64::MAX,
    ensures
        issued_ids(ContractView::fresh(), ops) == Seq::new(
            issued_ids(ContractView::fresh(), ops).len(),
            |i: int| i as u64,
        ),
{
    let s = ContractView::fresh();
    lemma_ids_consecutive_from(s, ops);
    assert(issued_ids(s, ops) =~= Seq::new(issued_ids(s, ops).len(), |i: int| i as u64));
}

/// Authorization: registering or revoking an attestor and removing an
/// endpoint fail, and change nothing, for any caller other than the
/// administrator.
pub proof fn lemma_admin_only_operations(s: ContractView, caller: Address, attestor: Address)
    requires
        s.storage.admin() != Some(caller),
    ensures
        register_outcome(s, caller, attestor).1 is Err,
        register_outcome(s, caller, attestor).0 == s,
        revoke_outcome(s, caller, attestor).1 is Err,
        revoke_outcome(s, caller, attestor).0 == s,
        remove_outcome(s, caller, attestor).1 is Err,
        remove_outcome(s, caller, attestor).0 == s,
{
}

/// Authorization: a submission with a valid timestamp fails with
/// `UnauthorizedAttestor`, and changes nothing, unless the issuer is an
/// active attestor.
pub proof fn lemma_submission_needs_active_attestor(
    s: ContractView,
    caller: Address,
    issuer: Address,
    subject: Address,
    timestamp: u64,
    payload_hash: PayloadHash,
    signature: Vec<u8>,
)
    requires
        !s.storage.is_attestor(issuer),
        timestamp != 0,
    ensures
        submit_outcome(s, caller, issuer, subject, timestamp, payload_hash, signature) == (
            s,
            Err::<u64, Error>(Error::UnauthorizedAttestor),
        ),
{
}

/// An address for which no registration was ever attempted is not an
/// attestor, whatever other calls were made.
pub proof fn lemma_unregistered_is_not_attestor(s: ContractView, ops: Seq<Op>, a: Address)
    requires
        !s.storage.is_attestor(a),
        forall|i: int|
            0 <= i < ops.len() ==> !(#[trigger] ops[i] matches Op::RegisterAttestor {
                attestor,
                ..
            } && attestor == a),
    ensures
        !run(s, ops).storage.is_attestor(a),
    decreases ops.len(),
{
    if ops.len() > 0 {
        let prefix = ops.drop_last();
        assert forall|i: int|
            0 <= i < prefix.len() implies !(#[trigger] prefix[i] matches Op::RegisterAttestor {
                attestor,
                ..
            } && attestor == a) by {
            assert(prefix[i] == ops[i]);
        }
        lemma_unregistered_is_not_attestor(s, prefix, a);
        assert(ops[ops.len() - 1] == ops.last());
    }
}

/// Endpoint exclusivity: once an endpoint is configured for an attestor, a
/// second configuration for it, by an authorized caller with a well-formed
/// url, fails with `EndpointAlreadyExists`.
pub proof fn lemma_endpoint_configured_once(
    s: ContractView,
    first_caller: Address,
    second_caller: Address,
    attestor: Address,
    first_url: String,
    second_url: String,
)
    requires
        configure_outcome(s, first_caller, attestor, first_url).1 is Ok,
        s.may_manage_endpoint(second_caller, attestor),
        is_valid_endpoint_url(second_url@),
    ensures
        configure_outcome(
            configure_outcome(s, first_caller, attestor, first_url).0,
            second_caller,
            attestor,
            second_url,
        ).1 == Err::<(), Error>(Error::EndpointAlreadyExists),
{
}

/// Endpoint exclusivity: for an attestor with no endpoint, reading it fails
/// with `EndpointNotFound`, and so do an update and a removal that pass the
/// initialization, authorization and url checks before that one.
pub proof fn lemma_missing_endpoint_not_found(
    s: ContractView,
    caller: Address,
    attestor: Address,
    url: String,
    is_active: bool,
)
    requires
        !s.storage.has_endpoint(attestor),
    ensures
        s.storage.endpoint(attestor) is None,
        s.storage.admin() == Some(caller) ==> remove_outcome(s, caller, attestor).1 == Err::<
            (),
            Error,
        >(Error::EndpointNotFound),
        s.storage.admin() is Some && s.may_manage_endpoint(caller, attestor)
            && is_valid_endpoint_url(url@) ==> update_outcome(s, caller, attestor, url, is_active).1
            == Err::<(), Error>(Error::EndpointNotFound),
{
}

/// What holds of every registry state that calls can reach: each record sits
/// under its own key (an attestation under its id, an endpoint under its
/// attestor), every recorded id lies below the counter and its payload hash
/// is marked used, and every stored key holds a value of its kind.
pub open spec fn well_formed(s: ContractView) -> bool {
    &&& s.storage.has_admin() ==> s.storage.admin() is Some
    &&& forall|id: u64| #[trigger]
        s.storage.attestation(id) is Some ==> {
            &&& s.storage.attestation(id).unwrap().id == id
            &&& id < s.storage.next_id()
            &&& s.storage.is_hash_used(s.storage.attestation(id).unwrap().payload_hash)
        }
    &&& forall|a: Address| #[trigger]
        s.storage.has_endpoint(a) ==> {
            &&& s.storage.endpoint(a) is Some
            &&& s.storage.endpoint(a).unwrap().attestor == a
        }
}

/// A fresh registry is well formed.
pub proof fn lemma_fresh_is_well_formed()
    ensures
        well_formed(ContractView::fresh()),
{
}

/// Every call keeps a registry well formed.
pub proof fn lemma_apply_keeps_well_formed(s: ContractView, op: Op)
    requires
        well_formed(s),
        s.storage.next_id() < u64::MAX,
    ensures
        well_formed(apply(s, op)),
{
    let t = apply(s, op);
    assert forall|id: u64| #[trigger] t.storage.attestation(id) is Some implies {
        &&& t.storage.attestation(id).unwrap().id == id
        &&& id < t.storage.next_id()
        &&& t.storage.is_hash_used(t.storage.attestation(id).unwrap().payload_hash)
    } by {
        if s.storage.attestation(id) is Some {
            let h = s.storage.attestation(id).unwrap().payload_hash;
            lemma_used_hash_stays_used(s, op, h);
        }
    }
    assert forall|a: Address| #[trigger] t.storage.has_endpoint(a) implies {
        &&& t.storage.endpoint(a) is Some
        &&& t.storage.endpoint(a).unwrap().attestor == a
    } by {
        assert(s.storage.has_endpoint(a) ==> s.storage.endpoint(a) is Some);
        if let Op::RevokeAttestor { caller, attestor } = op {
            if revoke_outcome(s, caller, attestor).1 is Ok {
                assert(t.storage.has_endpoint(a) == s.storage.has_endpoint(a));
                assert(t.storage.endpoint(a) == s.storage.endpoint(a));
            }
        }
    }
    assert(t.storage.has_admin() ==> t.storage.admin() is Some);
}

/// Any sequence of calls keeps a registry well formed.
pub proof fn lemma_run_keeps_well_formed(s: ContractView, ops: Seq<Op>)
    requires
        well_formed(s),
        s.storage.next_id() + ops.len() < u64::MAX,
    ensures
        well_formed(run(s, ops)),
    decreases ops.len(),
{
    if ops.len() > 0 {
        let prefix = ops.drop_last();
        lemma_run_keeps_well_formed(s, prefix);
        lemma_ids_consecutive_from(s, prefix);
        lemma_apply_keeps_well_formed(run(s, prefix), ops.last());
    }
}

/// Ids are never reused: once recorded, an attestation stays exactly as it
/// was, whatever calls follow.
pub proof fn lemma_recorded_attestation_is_permanent(s: ContractView, ops: Seq<Op>, id: u64)
    requires
        well_formed(s),
        s.storage.next_id() + ops.len() < u64::MAX,
        s.storage.attestation(id) is Some,
    ensures
        run(s, ops).storage.attestation(id) == s.storage.attestation(id),
    decreases ops.len(),
{
    if ops.len() > 0 {
        let prefix = ops.drop_last();
        lemma_recorded_attestation_is_permanent(s, prefix, id);
        lemma_run_keeps_well_formed(s, prefix);
        lemma_ids_consecutive_from(s, prefix);
    }
}

} // verus!

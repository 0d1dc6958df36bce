use vstd::prelude::*;

use crate::events::{
    AttestationRecorded, AttestationRecordedData, AttestorAdded, AttestorRemoved,
    EndpointConfigured, EndpointRemoved, Event,
};
use crate::storage::{Durability, Storage, StorageKey, StorageView, StoredValue};
use crate::types::{Address, Attestation, Endpoint, PayloadHash};
use crate::Error;

verus! {

/// Longest endpoint url accepted, in characters.
pub const MAX_URL_LEN: usize = 256;

/// `p` is a prefix of `s`.
pub open spec fn has_prefix(s: Seq<char>, p: Seq<char>) -> bool {
    p.len() <= s.len() && s.subrange(0, p.len() as int) == p
}

/// A shallow well-formedness check, not a url parser: non-empty, at most
/// `MAX_URL_LEN` characters, an `http://` or `https://` scheme, and something
/// after the scheme.
pub open spec fn is_valid_endpoint_url(s: Seq<char>) -> bool {
    &&& 0 < s.len() <= MAX_URL_LEN
    &&& {
        ||| has_prefix(s, "https://"@) && s.len() > "https://"@.len()
        ||| has_prefix(s, "http://"@) && s.len() > "http://"@.len()
    }
}

/// Whether `s` starts with `p`.
fn starts_with(s: &str, p: &str) -> (r: bool)
    ensures
        r == has_prefix(s@, p@),
{
    let n = s.unicode_len();
    let m = p.unicode_len();
    if m > n {
        return false;
    }
    let mut i: usize = 0;
    while i < m
        invariant
            i <= m <= n,
            n == s@.len(),
            m == p@.len(),
            forall|j: int| 0 <= j < i ==> s@[j] == p@[j],
        decreases m - i,
    {
        if s.get_char(i) != p.get_char(i) {
            assert(s@.subrange(0, m as int)[i as int] != p@[i as int]);
            return false;
        }
        i += 1;
    }
    assert(s@.subrange(0, m as int) =~= p@);
    true
}

/// Everything the registry holds: its store and its event log.
pub struct ContractView {
    pub storage: StorageView,
    pub events: Seq<Event>,
}

impl ContractView {
    /// A registry that was never initialized.
    pub open spec fn fresh() -> ContractView {
        ContractView { storage: StorageView::empty(), events: Seq::empty() }
    }

    /// `caller` may act for the administrator or for `attestor`.
    pub open spec fn may_manage_endpoint(self, caller: Address, attestor: Address) -> bool {
        self.storage.admin() == Some(caller) || caller == attestor
    }
}

/// `initialize(admin)`, invoked by `caller`: the new state and the result.
pub open spec fn initialize_outcome(s: ContractView, caller: Address, admin: Address) -> (
    ContractView,
    Result<(), Error>,
) {
    if s.storage.has_admin() {
        (s, Err(Error::AlreadyInitialized))
    } else if caller != admin {
        (s, Err(Error::UnauthorizedAttestor))
    } else {
        (
            ContractView {
                storage: s.storage.write(
                    Durability::Instance,
                    StorageKey::Admin,
                    StoredValue::Address(admin),
                ),
                ..s
            },
            Ok(()),
        )
    }
}

/// `register_attestor(attestor)`, invoked by `caller`.
pub open spec fn register_outcome(s: ContractView, caller: Address, attestor: Address) -> (
    ContractView,
    Result<(), Error>,
) {
    match s.storage.admin() {
        None => (s, Err(Error::NotInitialized)),
        Some(admin) => if caller != admin {
            (s, Err(Error::UnauthorizedAttestor))
        } else if s.storage.is_attestor(attestor) {
            (s, Err(Error::AttestorAlreadyRegistered))
        } else {
            (
                ContractView {
                    storage: s.storage.write(
                        Durability::Persistent,
                        StorageKey::Attestor(attestor),
                        StoredValue::Flag(true),
                    ),
                    events: s.events.push(Event::AttestorAdded { attestor }),
                },
                Ok(()),
            )
        },
    }
}

/// `revoke_attestor(attestor)`, invoked by `caller`.
pub open spec fn revoke_outcome(s: ContractView, caller: Address, attestor: Address) -> (
    ContractView,
    Result<(), Error>,
) {
    match s.storage.admin() {
        None => (s, Err(Error::NotInitialized)),
        Some(admin) => if caller != admin {
            (s, Err(Error::UnauthorizedAttestor))
        } else if !s.storage.is_attestor(attestor) {
            (s, Err(Error::AttestorNotRegistered))
        } else {
            (
                ContractView {
                    storage: s.storage.write(
                        Durability::Persistent,
                        StorageKey::Attestor(attestor),
                        StoredValue::Flag(false),
                    ),
                    events: s.events.push(Event::AttestorRemoved { attestor }),
                },
                Ok(()),
            )
        },
    }
}

/// `submit_attestation(...)`, invoked by `caller`. The checks run in a fixed
/// order and the first that fails decides the error.
pub open spec fn submit_outcome(
    s: ContractView,
    caller: Address,
    issuer: Address,
    subject: Address,
    timestamp: u64,
    payload_hash: PayloadHash,
    signature: Vec<u8>,
) -> (ContractView, Result<u64, Error>) {
    if caller != issuer {
        (s, Err(Error::UnauthorizedAttestor))
    } else if timestamp == 0 {
        (s, Err(Error::InvalidTimestamp))
    } else if !s.storage.is_attestor(issuer) {
        (s, Err(Error::UnauthorizedAttestor))
    } else if s.storage.is_hash_used(payload_hash) {
        (s, Err(Error::ReplayAttack))
    } else {
        let id = s.storage.next_id();
        let record = Attestation { id, issuer, subject, timestamp, payload_hash, signature };
        (
            ContractView {
                storage: s.storage.write(
                    Durability::Instance,
                    StorageKey::Counter,
                    StoredValue::Counter((id + 1) as u64),
                ).write(
                    Durability::Persistent,
                    StorageKey::Attestation(id),
                    StoredValue::Attestation(record),
                ).write(
                    Durability::Persistent,
                    StorageKey::UsedHash(payload_hash),
                    StoredValue::Flag(true),
                ),
                events: s.events.push(
                    Event::AttestationRecorded {
                        id,
                        subject,
                        data: AttestationRecordedData { timestamp, payload_hash },
                    },
                ),
            },
            Ok(id),
        )
    }
}

/// `configure_endpoint(attestor, url)`, invoked by `caller`.
pub open spec fn configure_outcome(
    s: ContractView,
    caller: Address,
    attestor: Address,
    url: String,
) -> (ContractView, Result<(), Error>) {
    if s.storage.admin() is None {
        (s, Err(Error::NotInitialized))
    } else if !s.may_manage_endpoint(caller, attestor) {
        (s, Err(Error::UnauthorizedAttestor))
    } else if !is_valid_endpoint_url(url@) {
        (s, Err(Error::InvalidEndpointFormat))
    } else if !s.storage.is_attestor(attestor) {
        (s, Err(Error::AttestorNotRegistered))
    } else if s.storage.has_endpoint(attestor) {
        (s, Err(Error::EndpointAlreadyExists))
    } else {
        (
            ContractView {
                storage: s.storage.write(
                    Durability::Persistent,
                    StorageKey::Endpoint(attestor),
                    StoredValue::Endpoint(Endpoint { url, attestor, is_active: true }),
                ),
                events: s.events.push(Event::EndpointConfigured { attestor, url }),
            },
            Ok(()),
        )
    }
}

/// `update_endpoint(attestor, url, is_active)`, invoked by `caller`.
pub open spec fn update_outcome(
    s: ContractView,
    caller: Address,
    attestor: Address,
    url: String,
    is_active: bool,
) -> (ContractView, Result<(), Error>) {
    if s.storage.admin() is None {
        (s, Err(Error::NotInitialized))
    } else if !s.may_manage_endpoint(caller, attestor) {
        (s, Err(Error::UnauthorizedAttestor))
    } else if !is_valid_endpoint_url(url@) {
        (s, Err(Error::InvalidEndpointFormat))
    } else if !s.storage.has_endpoint(attestor) {
        (s, Err(Error::EndpointNotFound))
    } else {
        (
            ContractView {
                storage: s.storage.write(
                    Durability::Persistent,
                    StorageKey::Endpoint(attestor),
                    StoredValue::Endpoint(Endpoint { url, attestor, is_active }),
                ),
                events: s.events.push(Event::EndpointConfigured { attestor, url }),
            },
            Ok(()),
        )
    }
}

/// `remove_endpoint(attestor)`, invoked by `caller`.
pub open spec fn remove_outcome(s: ContractView, caller: Address, attestor: Address) -> (
    ContractView,
    Result<(), Error>,
) {
    match s.storage.admin() {
        None => (s, Err(Error::NotInitialized)),
        Some(admin) => if caller != admin {
            (s, Err(Error::UnauthorizedAttestor))
        } else if !s.storage.has_endpoint(attestor) {
            (s, Err(Error::EndpointNotFound))
        } else {
            (
                ContractView {
                    storage: s.storage.erase(Durability::Persistent, StorageKey::Endpoint(attestor)),
                    events: s.events.push(Event::EndpointRemoved { attestor }),
                },
                Ok(()),
            )
        },
    }
}

/// The registry. Every operation takes the identity that the host has
/// authenticated for the call (`caller`) and either applies all of its
/// effects or, on error, none. A caller without the role an operation needs
/// gets `UnauthorizedAttestor`, the registry's authorization error.
pub struct AnchorKitContract {
    storage: Storage,
    events: Vec<Event>,
}

impl View for AnchorKitContract {
    type V = ContractView;

    closed spec fn view(&self) -> ContractView {
        ContractView { storage: self.storage@, events: self.events@ }
    }
}

impl AnchorKitContract {
    /// A registry with no administrator, no records and no events.
    pub fn new() -> (r: AnchorKitContract)
        ensures
            r@ == ContractView::fresh(),
    {
        AnchorKitContract { storage: Storage::new(), events: Vec::new() }
    }

    /// The store, for inspection.
    pub fn storage(&self) -> (r: &Storage)
        ensures
            r@ == self@.storage,
    {
        &self.storage
    }

    /// The events published so far, oldest first.
    pub fn events(&self) -> (r: &Vec<Event>)
        ensures
            r@ == self@.events,
    {
        &self.events
    }

    /// Sets the administrator, once.
    pub fn initialize(&mut self, caller: &Address, admin: Address) -> (r: Result<(), Error>)
        ensures
            (final(self)@, r) == initialize_outcome(old(self)@, *caller, admin),
    {
        if self.storage.has_admin() {
            return Err(Error::AlreadyInitialized);
        }
        if *caller != admin {
            return Err(Error::UnauthorizedAttestor);
        }
        self.storage.set_admin(&admin);
        Ok(())
    }

    /// Makes `attestor` an active attestor. Administrator only.
    pub fn register_attestor(&mut self, caller: &Address, attestor: Address) -> (r: Result<
        (),
        Error,
    >)
        ensures
            (final(self)@, r) == register_outcome(old(self)@, *caller, attestor),
    {
        let admin = self.storage.get_admin()?;
        if *caller != admin {
            return Err(Error::UnauthorizedAttestor);
        }
        if self.storage.is_attestor(&attestor) {
            return Err(Error::AttestorAlreadyRegistered);
        }
        self.storage.set_attestor(&attestor, true);
        AttestorAdded::publish(&mut self.events, &attestor);
        Ok(())
    }

    /// Deactivates `attestor`. Administrator only.
    pub fn revoke_attestor(&mut self, caller: &Address, attestor: Address) -> (r: Result<
        (),
        Error,
    >)
        ensures
            (final(self)@, r) == revoke_outcome(old(self)@, *caller, attestor),
    {
        let admin = self.storage.get_admin()?;
        if *caller != admin {
            return Err(Error::UnauthorizedAttestor);
        }
        if !self.storage.is_attestor(&attestor) {
            return Err(Error::AttestorNotRegistered);
        }
        self.storage.set_attestor(&attestor, false);
        AttestorRemoved::publish(&mut self.events, &attestor);
        Ok(())
    }

    /// Records an attestation by `issuer` about `subject` and returns its id.
    /// A payload hash is accepted at most once.
    pub fn submit_attestation(
        &mut self,
        caller: &Address,
        issuer: Address,
        subject: Address,
        timestamp: u64,
        payload_hash: PayloadHash,
        signature: Vec<u8>,
    ) -> (r: Result<u64, Error>)
        requires
            old(self)@.storage.next_id() < u64::MAX,
        ensures
            (final(self)@, r) == submit_outcome(
                old(self)@,
                *caller,
                issuer,
                subject,
                timestamp,
                payload_hash,
                signature,
            ),
    {
        if *caller != issuer {
            return Err(Error::UnauthorizedAttestor);
        }
        if timestamp == 0 {
            return Err(Error::InvalidTimestamp);
        }
        if !self.storage.is_attestor(&issuer) {
            return Err(Error::UnauthorizedAttestor);
        }
        if self.storage.is_hash_used(&payload_hash) {
            return Err(Error::ReplayAttack);
        }
        Self::verify_signature(&issuer, &subject, timestamp, &payload_hash, &signature)?;
        let id = self.storage.get_and_increment_counter();
        let attestation = Attestation { id, issuer, subject, timestamp, payload_hash, signature };
        self.storage.set_attestation(id, attestation);
        self.storage.mark_hash_used(&payload_hash);
        AttestationRecorded::publish(&mut self.events, id, &subject, timestamp, payload_hash);
        Ok(id)
    }

    /// The attestation with id `id`.
    pub fn get_attestation(&self, id: u64) -> (r: Result<&Attestation, Error>)
        ensures
            match r {
                Ok(a) => self@.storage.attestation(id) == Some(*a),
                Err(e) => self@.storage.attestation(id) is None && e == Error::AttestationNotFound,
            },
    {
        self.storage.get_attestation(id)
    }

    /// The administrator.
    pub fn get_admin(&self) -> (r: Result<Address, Error>)
        ensures
            r == (match self@.storage.admin() {
                Some(a) => Ok(a),
                None => Err(Error::NotInitialized),
            }),
    {
        self.storage.get_admin()
    }

    /// The id the next accepted attestation receives. Submissions need it
    /// below `u64::MAX`.
    pub fn next_id(&self) -> (r: u64)
        ensures
            r == self@.storage.next_id(),
    {
        self.storage.next_id()
    }

    /// Whether `attestor` is an active attestor; `false` for any address
    /// never registered.
    pub fn is_attestor(&self, attestor: &Address) -> (r: bool)
        ensures
            r == self@.storage.is_attestor(*attestor),
    {
        self.storage.is_attestor(attestor)
    }

    /// Creates the endpoint of a registered attestor, active. The
    /// administrator or the attestor itself may call it.
    pub fn configure_endpoint(&mut self, caller: &Address, attestor: Address, url: String) -> (r:
        Result<(), Error>)
        ensures
            (final(self)@, r) == configure_outcome(old(self)@, *caller, attestor, url),
    {
        let admin = self.storage.get_admin()?;
        if *caller != admin && *caller != attestor {
            return Err(Error::UnauthorizedAttestor);
        }
        Self::validate_endpoint_url(url.as_str())?;
        if !self.storage.is_attestor(&attestor) {
            return Err(Error::AttestorNotRegistered);
        }
        if self.storage.has_endpoint(&attestor) {
            return Err(Error::EndpointAlreadyExists);
        }
        let event = EndpointConfigured { attestor, url: url.clone() };
        self.storage.set_endpoint(Endpoint { url, attestor, is_active: true });
        event.publish(&mut self.events);
        Ok(())
    }

    /// Replaces an existing endpoint's url and active flag. The
    /// administrator or the attestor itself may call it.
    pub fn update_endpoint(
        &mut self,
        caller: &Address,
        attestor: Address,
        url: String,
        is_active: bool,
    ) -> (r: Result<(), Error>)
        ensures
            (final(self)@, r) == update_outcome(old(self)@, *caller, attestor, url, is_active),
    {
        let admin = self.storage.get_admin()?;
        if *caller != admin && *caller != attestor {
            return Err(Error::UnauthorizedAttestor);
        }
        Self::validate_endpoint_url(url.as_str())?;
        if !self.storage.has_endpoint(&attestor) {
            return Err(Error::EndpointNotFound);
        }
        let event = EndpointConfigured { attestor, url: url.clone() };
        self.storage.set_endpoint(Endpoint { url, attestor, is_active });
        event.publish(&mut self.events);
        Ok(())
    }

    /// Deletes an attestor's endpoint. Administrator only.
    pub fn remove_endpoint(&mut self, caller: &Address, attestor: Address) -> (r: Result<
        (),
        Error,
    >)
        ensures
            (final(self)@, r) == remove_outcome(old(self)@, *caller, attestor),
    {
        let admin = self.storage.get_admin()?;
        if *caller != admin {
            return Err(Error::UnauthorizedAttestor);
        }
        if !self.storage.has_endpoint(&attestor) {
            return Err(Error::EndpointNotFound);
        }
        self.storage.remove_endpoint(&attestor);
        EndpointRemoved { attestor }.publish(&mut self.events);
        Ok(())
    }

    /// The endpoint of `attestor`.
    pub fn get_endpoint(&self, attestor: &Address) -> (r: Result<&Endpoint, Error>)
        ensures
            match r {
                Ok(e) => self@.storage.endpoint(*attestor) == Some(*e),
                Err(e) => self@.storage.endpoint(*attestor) is None && e == Error::EndpointNotFound,
            },
    {
        self.storage.get_endpoint(attestor)
    }

    /// Checks the shape of an endpoint url (see [`is_valid_endpoint_url`]).
    pub fn validate_endpoint_url(url: &str) -> (r: Result<(), Error>)
        ensures
            is_valid_endpoint_url(url@) ==> r == Ok::<(), Error>(()),
            !is_valid_endpoint_url(url@) ==> r == Err::<(), Error>(Error::InvalidEndpointFormat),
    {
        let n = url.unicode_len();
        if n == 0 {
            return Err(Error::InvalidEndpointFormat);
        }
        if n > MAX_URL_LEN {
            return Err(Error::InvalidEndpointFormat);
        }
        let https = starts_with(url, "https://");
        let http = starts_with(url, "http://");
        if !https && !http {
            return Err(Error::InvalidEndpointFormat);
        }
        proof {
            reveal_strlit("https://");
            reveal_strlit("http://");
            if https {
                assert(url@.subrange(0, 8)[4] == "https://"@[4]);
                assert(!has_prefix(url@, "http://"@)) by {
                    assert(url@.subrange(0, 7)[4] == 's');
                }
            }
        }
        let scheme_len: usize = if https { 8 } else { 7 };
        if n <= scheme_len {
            return Err(Error::InvalidEndpointFormat);
        }
        Ok(())
    }

    /// The hook where the signature over the attestation would be checked.
    /// No cryptographic check is made: every signature is accepted.
    fn verify_signature(
        _issuer: &Address,
        _subject: &Address,
        _timestamp: u64,
        _payload_hash: &PayloadHash,
        _signature: &Vec<u8>,
    ) -> (r: Result<(), Error>)
        ensures
            r is Ok,
    {
        Ok(())
    }
}

} // verus!

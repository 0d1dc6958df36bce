use vstd::prelude::*;

use crate::types::{Address, PayloadHash};

verus! {

/// What an attestation event carries besides its topics.
#[derive(Clone, Copy, Debug, PartialEq, Eq)]
pub struct AttestationRecordedData {
    pub timestamp: u64,
    pub payload_hash: PayloadHash,
}

/// An entry of the append-only event log. Payloads are kept minimal: issuers
/// and signatures are never published.
#[derive(Debug, PartialEq, Eq)]
pub enum Event {
    /// Topics ("attestor", "added", attestor); no data.
    AttestorAdded { attestor: Address },
    /// Topics ("attestor", "removed", attestor); no data.
    AttestorRemoved { attestor: Address },
    /// Topics ("attest", "recorded", id, subject); data: timestamp and hash.
    AttestationRecorded { id: u64, subject: Address, data: AttestationRecordedData },
    /// Topics ("endpoint", "config"); data: attestor and url.
    EndpointConfigured { attestor: Address, url: String },
    /// Topics ("endpoint", "removed"); data: attestor.
    EndpointRemoved { attestor: Address },
}

impl Event {
    pub open spec fn spec_topic_len(&self) -> usize {
        match self {
            Event::AttestorAdded { .. } => 3,
            Event::AttestorRemoved { .. } => 3,
            Event::AttestationRecorded { .. } => 4,
            Event::EndpointConfigured { .. } => 2,
            Event::EndpointRemoved { .. } => 2,
        }
    }

    /// The number of topics the event is published under.
    pub fn topic_len(&self) -> (r: usize)
        ensures
            r == self.spec_topic_len(),
    {
        match self {
            Event::AttestorAdded { .. } => 3,
            Event::AttestorRemoved { .. } => 3,
            Event::AttestationRecorded { .. } => 4,
            Event::EndpointConfigured { .. } => 2,
            Event::EndpointRemoved { .. } => 2,
        }
    }

    /// The two symbols that open the event's topics.
    pub fn topic_names(&self) -> (r: (&'static str, &'static str))
        ensures
            r.0@ == (match self {
                Event::AttestorAdded { .. } | Event::AttestorRemoved { .. } => "attestor"@,
                Event::AttestationRecorded { .. } => "attest"@,
                _ => "endpoint"@,
            }),
            r.1@ == (match self {
                Event::AttestorAdded { .. } => "added"@,
                Event::AttestorRemoved { .. } => "removed"@,
                Event::AttestationRecorded { .. } => "recorded"@,
                Event::EndpointConfigured { .. } => "config"@,
                Event::EndpointRemoved { .. } => "removed"@,
            }),
    {
        match self {
            Event::AttestorAdded { .. } => ("attestor", "added"),
            Event::AttestorRemoved { .. } => ("attestor", "removed"),
            Event::AttestationRecorded { .. } => ("attest", "recorded"),
            Event::EndpointConfigured { .. } => ("endpoint", "config"),
            Event::EndpointRemoved { .. } => ("endpoint", "removed"),
        }
    }
}

/// Publishes the registration of an attestor.
pub struct AttestorAdded;

impl AttestorAdded {
    pub fn publish(log: &mut Vec<Event>, attestor: &Address)
        ensures
            final(log)@ == old(log)@.push(Event::AttestorAdded { attestor: *attestor }),
    {
        log.push(Event::AttestorAdded { attestor: *attestor });
    }
}

/// Publishes the revocation of an attestor.
pub struct AttestorRemoved;

impl AttestorRemoved {
    pub fn publish(log: &mut Vec<Event>, attestor: &Address)
        ensures
            final(log)@ == old(log)@.push(Event::AttestorRemoved { attestor: *attestor }),
    {
        log.push(Event::AttestorRemoved { attestor: *attestor });
    }
}

/// Publishes a recorded attestation.
pub struct AttestationRecorded;

impl AttestationRecorded {
    pub fn publish(
        log: &mut Vec<Event>,
        id: u64,
        subject: &Address,
        timestamp: u64,
        payload_hash: PayloadHash,
    )
        ensures
            final(log)@ == old(log)@.push(
                Event::AttestationRecorded {
                    id,
                    subject: *subject,
                    data: AttestationRecordedData { timestamp, payload_hash },
                },
            ),
    {
        log.push(
            Event::AttestationRecorded {
                id,
                subject: *subject,
                data: AttestationRecordedData { timestamp, payload_hash },
            },
        );
    }
}

/// An endpoint was configured or updated.
#[derive(Debug, PartialEq, Eq)]
pub struct EndpointConfigured {
    pub attestor: Address,
    pub url: String,
}

impl EndpointConfigured {
    pub fn publish(&self, log: &mut Vec<Event>)
        ensures
            final(log)@ == old(log)@.push(
                Event::EndpointConfigured { attestor: self.attestor, url: self.url },
            ),
    {
        log.push(Event::EndpointConfigured { attestor: self.attestor, url: self.url.clone() });
    }
}

/// An endpoint was removed.
#[derive(Clone, Copy, Debug, PartialEq, Eq)]
pub struct EndpointRemoved {
    pub attestor: Address,
}

impl EndpointRemoved {
    pub fn publish(&self, log: &mut Vec<Event>)
        ensures
            final(log)@ == old(log)@.push(Event::EndpointRemoved { attestor: self.attestor }),
    {
        log.push(Event::EndpointRemoved { attestor: self.attestor });
    }
}

} // verus!

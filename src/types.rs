use vstd::prelude::*;

verus! {

broadcast use vstd::array::group_array_axioms;

/// Compares two 32-byte values byte by byte.
pub fn bytes32_eq(a: &[u8; 32], b: &[u8; 32]) -> (r: bool)
    ensures
        r == (*a == *b),
{
    let mut i: usize = 0;
    while i < 32
        invariant
            0 <= i <= 32,
            forall|j: int| 0 <= j < i ==> a@[j] == b@[j],
        decreases 32 - i,
    {
        if a[i] != b[i] {
            return false;
        }
        i += 1;
    }
    assert(*a =~= *b);
    true
}

/// A ledger identity (an account or a contract), held as its 32-byte key.
#[derive(Clone, Copy, Debug)]
pub struct Address {
    pub bytes: [u8; 32],
}

impl PartialEq for Address {
    fn eq(&self, o: &Address) -> (r: bool) {
        bytes32_eq(&self.bytes, &o.bytes)
    }
}

impl vstd::std_specs::cmp::PartialEqSpecImpl for Address {
    open spec fn obeys_eq_spec() -> bool {
        true
    }

    open spec fn eq_spec(&self, o: &Address) -> bool {
        self.bytes == o.bytes
    }
}

impl Eq for Address {
}

/// A 32-byte digest of an attested payload.
#[derive(Clone, Copy, Debug)]
pub struct PayloadHash {
    pub bytes: [u8; 32],
}

impl PartialEq for PayloadHash {
    fn eq(&self, o: &PayloadHash) -> (r: bool) {
        bytes32_eq(&self.bytes, &o.bytes)
    }
}

impl vstd::std_specs::cmp::PartialEqSpecImpl for PayloadHash {
    open spec fn obeys_eq_spec() -> bool {
        true
    }

    open spec fn eq_spec(&self, o: &PayloadHash) -> bool {
        self.bytes == o.bytes
    }
}

impl Eq for PayloadHash {
}

/// A recorded attestation: an issuer's signed statement about a subject.
#[derive(Debug, PartialEq, Eq)]
pub struct Attestation {
    pub id: u64,
    pub issuer: Address,
    pub subject: Address,
    pub timestamp: u64,
    pub payload_hash: PayloadHash,
    pub signature: Vec<u8>,
}

/// The callback endpoint of one attestor.
#[derive(Debug, PartialEq, Eq)]
pub struct Endpoint {
    pub url: String,
    pub attestor: Address,
    pub is_active: bool,
}

} // verus!

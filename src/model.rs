use vstd::prelude::*;

verus! {

/// Number of bytes in an address identifier.
pub const ADDRESS_LEN: usize = 20;

/// The kind of chain entity an address refers to.
#[derive(Clone, Copy, Debug, PartialEq, Eq, Structural)]
pub enum AddressType {
    Account,
    SystemContract,
    PublicContract,
    ZkContract,
}

/// An address: its kind and a 20-byte identifier.
#[derive(Clone, Copy, Debug)]
pub struct Address {
    pub address_type: AddressType,
    pub identifier: [u8; 20],
}

impl Address {
    /// Two addresses are the same when kind and every identifier byte agree.
    pub open spec fn same(self, other: Address) -> bool {
        self.address_type == other.address_type && self.identifier@ == other.identifier@
    }

    /// The null sentinel: every identifier byte is zero.
    pub open spec fn is_blank_spec(self) -> bool {
        forall|i: int| 0 <= i < ADDRESS_LEN ==> #[trigger] self.identifier@[i] == 0u8
    }

    /// The unconfigured address that collaborator addresses start as.
    pub fn blank() -> (r: Address)
        ensures
            r.is_blank_spec(),
            r.address_type == AddressType::Account,
    {
        Address { address_type: AddressType::Account, identifier: [0u8; 20] }
    }

    pub fn same_as(&self, other: &Address) -> (r: bool)
        ensures
            r == self.same(*other),
    {
        if self.address_type != other.address_type {
            return false;
        }
        let mut i: usize = 0;
        while i < ADDRESS_LEN
            invariant
                0 <= i <= ADDRESS_LEN,
                self.identifier@.len() == ADDRESS_LEN,
                other.identifier@.len() == ADDRESS_LEN,
                forall|j: int| 0 <= j < i ==> self.identifier@[j] == other.identifier@[j],
            decreases ADDRESS_LEN - i,
        {
            if self.identifier[i] != other.identifier[i] {
                return false;
            }
            i = i + 1;
        }
        assert(self.identifier@ =~= other.identifier@);
        true
    }

    pub fn is_blank(&self) -> (r: bool)
        ensures
            r == self.is_blank_spec(),
    {
        let mut i: usize = 0;
        while i < ADDRESS_LEN
            invariant
                0 <= i <= ADDRESS_LEN,
                self.identifier@.len() == ADDRESS_LEN,
                forall|j: int| 0 <= j < i ==> self.identifier@[j] == 0u8,
            decreases ADDRESS_LEN - i,
        {
            if self.identifier[i] != 0u8 {
                return false;
            }
            i = i + 1;
        }
        true
    }
}

/// What an action knows of its invocation: who sent it.
#[derive(Clone, Copy, Debug)]
pub struct ContractContext {
    pub sender: Address,
}

/// What a continuation learns of the outbound call it follows.
#[derive(Clone, Copy, Debug)]
pub struct CallbackContext {
    pub success: bool,
}

/// One verified claim about an applicant.
#[derive(Clone, Debug)]
pub struct SubjectInfo {
    pub property_name: String,
    pub property_value: String,
}

impl SubjectInfo {
    pub fn new(property_name: String, property_value: String) -> (r: SubjectInfo)
        ensures
            r.property_name == property_name,
            r.property_value == property_value,
    {
        SubjectInfo { property_name, property_value }
    }

    /// A field-by-field copy.
    pub fn duplicate(&self) -> (r: SubjectInfo)
        ensures
            r == *self,
    {
        SubjectInfo { property_name: self.property_name.clone(), property_value: self.property_value.clone() }
    }
}

/// A copy of a claim list, element by element.
pub fn duplicate_infos(v: &Vec<SubjectInfo>) -> (r: Vec<SubjectInfo>)
    ensures
        r@ == v@,
{
    let mut r: Vec<SubjectInfo> = Vec::new();
    let mut i: usize = 0;
    while i < v.len()
        invariant
            0 <= i <= v@.len(),
            r@ == v@.subrange(0, i as int),
        decreases v@.len() - i,
    {
        r.push(v[i].duplicate());
        i = i + 1;
        assert(r@ =~= v@.subrange(0, i as int));
    }
    assert(v@.subrange(0, v@.len() as int) =~= v@);
    r
}

/// An applicant's record: the applicant DID, the claims, and the disposition.
#[derive(Clone, Debug)]
pub struct Kyc {
    pub applicant_did: String,
    pub applicant_info: Vec<SubjectInfo>,
    pub approved: bool,
    pub pending: bool,
}

/// The record as first staged: awaiting a decision, not approved.
pub open spec fn staged_record(applicant_did: String, applicant_info: Vec<SubjectInfo>) -> Kyc {
    Kyc { applicant_did, applicant_info, approved: false, pending: true }
}

/// The record after a controller decision.
pub open spec fn decided_record(k: Kyc, decision: bool) -> Kyc {
    Kyc { approved: decision, pending: false, ..k }
}

/// Why an operation was refused. Any error discards every effect of the operation.
#[derive(Clone, Copy, Debug, PartialEq, Eq, Structural)]
pub enum KycError {
    Unauthorized,
    NotConfigured,
    RecordNotFound,
    NotApproved,
    VerificationFailed,
    IssuanceFailed,
}

/// The whole state: the controller, the two collaborator addresses, and the
/// store of records. The record with identifier `i` sits at position `i` of
/// `kycs`; `next_id` is the identifier the next committed record receives.
#[derive(Debug)]
pub struct ContractState {
    pub owner: Address,
    pub registry_address: Address,
    pub storage_address: Address,
    pub kycs: Vec<Kyc>,
    pub next_id: u128,
}

impl ContractState {
    /// Identifiers are exactly `0..next_id`, one per committed record.
    pub open spec fn wf(self) -> bool {
        self.next_id == self.kycs@.len()
    }

    pub open spec fn has_record(self, id: u128) -> bool {
        id < self.kycs@.len()
    }

    pub open spec fn record(self, id: u128) -> Kyc {
        self.kycs@[id as int]
    }

    /// Number of committed records.
    pub fn size(&self) -> (r: usize)
        ensures
            r == self.kycs@.len(),
    {
        self.kycs.len()
    }

    /// The record under `id`, if one was committed.
    pub fn get(&self, id: u128) -> (r: Option<&Kyc>)
        ensures
            self.has_record(id) ==> r == Some(&self.record(id)),
            !self.has_record(id) ==> r is None,
    {
        if id < self.kycs.len() as u128 {
            Some(&self.kycs[id as usize])
        } else {
            None
        }
    }
}

} // verus!

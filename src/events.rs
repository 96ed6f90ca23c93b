use vstd::prelude::*;

use crate::model::{Address, Kyc, SubjectInfo};

verus! {

/// Selector of the registry's "verify authority" operation.
pub const REGISTRY_VERIFY_SHORTNAME: u32 = 0x05;

/// Selector of the storage service's "issue credential" operation.
pub const STORAGE_UPLOAD_VC_SHORTNAME: u32 = 0x02;

/// Selector of the continuation that commits a verified record.
pub const SHORTNAME_UPLOAD_KYC_CALLBACK: u32 = 0x12;

/// Selector of the continuation that confirms an issuance.
pub const SHORTNAME_CREATE_VC_CALLBACK: u32 = 0x14;

/// The arguments of an outbound call, by operation.
#[derive(Clone, Debug)]
pub enum CallArguments {
    /// Asks the registry whether `requester` may submit records for `applicant_did`.
    VerifyAuthority { applicant_did: String, requester: Address },
    /// Asks the storage service to persist a credential.
    IssueCredential {
        issuer_did: String,
        vc_id: u128,
        subject_did: String,
        subject_info: Vec<SubjectInfo>,
        valid_since: String,
        valid_until: String,
        description: String,
        is_revoked: bool,
    },
}

/// The continuation attached to an outbound call, with the data it carries
/// across the suspension.
#[derive(Clone, Debug)]
pub enum Continuation {
    /// Commits `new_kyc` when the registry call succeeded.
    CommitIfVerified { new_kyc: Kyc },
    /// Confirms that the storage call succeeded.
    ConfirmIssuance,
}

impl Continuation {
    /// The selector under which the environment invokes this continuation.
    pub fn shortname(&self) -> (r: u32)
        ensures
            self is CommitIfVerified ==> r == SHORTNAME_UPLOAD_KYC_CALLBACK,
            self is ConfirmIssuance ==> r == SHORTNAME_CREATE_VC_CALLBACK,
    {
        match self {
            Continuation::CommitIfVerified { .. } => SHORTNAME_UPLOAD_KYC_CALLBACK,
            Continuation::ConfirmIssuance => SHORTNAME_CREATE_VC_CALLBACK,
        }
    }
}

/// One outbound call and the single continuation that runs on its outcome.
#[derive(Clone, Debug)]
pub struct EventGroup {
    pub target: Address,
    pub shortname: u32,
    pub arguments: CallArguments,
    pub continuation: Continuation,
}

/// The call that asks the registry to verify a staged record.
pub open spec fn verify_event(registry: Address, requester: Address, new_kyc: Kyc) -> EventGroup {
    EventGroup {
        target: registry,
        shortname: REGISTRY_VERIFY_SHORTNAME,
        arguments: CallArguments::VerifyAuthority { applicant_did: new_kyc.applicant_did, requester },
        continuation: Continuation::CommitIfVerified { new_kyc },
    }
}

/// `e` is the call that asks the storage service to issue a credential for
/// record `vc_id`, carrying the record's applicant and claims.
pub open spec fn is_issue_event(
    e: EventGroup,
    storage: Address,
    issuer_did: String,
    vc_id: u128,
    record: Kyc,
    valid_since: String,
    valid_until: String,
    description: String,
) -> bool {
    &&& e.target == storage
    &&& e.shortname == STORAGE_UPLOAD_VC_SHORTNAME
    &&& e.continuation == Continuation::ConfirmIssuance
    &&& match e.arguments {
        CallArguments::IssueCredential {
            issuer_did: i,
            vc_id: n,
            subject_did: d,
            subject_info: info,
            valid_since: since,
            valid_until: until,
            description: text,
            is_revoked,
        } => {
            &&& i == issuer_did
            &&& n == vc_id
            &&& d == record.applicant_did
            &&& info@ == record.applicant_info@
            &&& since == valid_since
            &&& until == valid_until
            &&& text == description
            &&& !is_revoked
        },
        _ => false,
    }
}

} // verus!

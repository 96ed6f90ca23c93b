//! A KYC workflow: applicant records are staged, checked by an outside
//! registry, approved or denied by the controller, and issued as verifiable
//! credentials through an outside storage service.

mod contract;
mod events;
mod model;

pub use contract::{
    approve_kyc, commit_store, configure_registry_address, create_vc, create_vc_callback,
    decide_store, initialize, is_controller, lemma_last_decision_wins, lemma_stage_then_commit,
    require_controller, run_continuation, same_config, unchanged, upload_kyc, upload_kyc_callback,
};
pub use events::{
    is_issue_event, verify_event, CallArguments, Continuation, EventGroup, REGISTRY_VERIFY_SHORTNAME,
    SHORTNAME_CREATE_VC_CALLBACK, SHORTNAME_UPLOAD_KYC_CALLBACK, STORAGE_UPLOAD_VC_SHORTNAME,
};
pub use model::{
    decided_record, duplicate_infos, staged_record, Address, AddressType, CallbackContext,
    ContractContext, ContractState, Kyc, KycError, SubjectInfo, ADDRESS_LEN,
};

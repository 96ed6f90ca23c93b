use vstd::prelude::*;

use crate::events::{
    is_issue_event, verify_event, CallArguments, Continuation, EventGroup, REGISTRY_VERIFY_SHORTNAME,
    STORAGE_UPLOAD_VC_SHORTNAME,
};
use crate::model::{
    decided_record, duplicate_infos, staged_record, Address, CallbackContext, ContractContext,
    ContractState, Kyc, KycError, SubjectInfo,
};

verus! {

/// The store after committing `k` under the next identifier.
pub open spec fn commit_store(s: Seq<Kyc>, k: Kyc) -> Seq<Kyc> {
    s.push(k)
}

/// The store after the controller's decision on record `id`.
pub open spec fn decide_store(s: Seq<Kyc>, id: int, decision: bool) -> Seq<Kyc> {
    s.update(id, decided_record(s[id], decision))
}

/// `a` and `b` agree on everything but the store.
pub open spec fn same_config(a: ContractState, b: ContractState) -> bool {
    &&& a.owner == b.owner
    &&& a.registry_address == b.registry_address
    &&& a.storage_address == b.storage_address
}

/// `a` and `b` agree on everything.
pub open spec fn unchanged(a: ContractState, b: ContractState) -> bool {
    same_config(a, b) && a.kycs@ == b.kycs@ && a.next_id == b.next_id
}

pub open spec fn is_controller(context: ContractContext, state: ContractState) -> bool {
    context.sender.same(state.owner)
}

/// Fails with `Unauthorized` unless the sender is the controller.
pub fn require_controller(context: &ContractContext, state: &ContractState) -> (r: Result<(), KycError>)
    ensures
        is_controller(*context, *state) <==> r is Ok,
        !is_controller(*context, *state) ==> r == Err::<(), KycError>(KycError::Unauthorized),
{
    if context.sender.same_as(&state.owner) {
        Ok(())
    } else {
        Err(KycError::Unauthorized)
    }
}

/// A fresh state: the sender becomes the controller, both collaborator
/// addresses are unconfigured, and the store is empty.
pub fn initialize(ctx: &ContractContext) -> (r: ContractState)
    ensures
        r.wf(),
        r.owner == ctx.sender,
        r.registry_address.is_blank_spec(),
        r.storage_address.is_blank_spec(),
        r.kycs@.len() == 0,
{
    ContractState {
        owner: ctx.sender,
        registry_address: Address::blank(),
        storage_address: Address::blank(),
        kycs: Vec::new(),
        next_id: 0,
    }
}

/// Sets both collaborator addresses; only the controller may.
pub fn configure_registry_address(
    context: &ContractContext,
    state: &mut ContractState,
    target_registry_address: Address,
    target_storage_address: Address,
) -> (r: Result<(), KycError>)
    ensures
        !is_controller(*context, *old(state)) ==> r == Err::<(), KycError>(KycError::Unauthorized)
            && unchanged(*final(state), *old(state)),
        is_controller(*context, *old(state)) ==> r is Ok
            && final(state).owner == old(state).owner
            && final(state).registry_address == target_registry_address
            && final(state).storage_address == target_storage_address
            && final(state).kycs@ == old(state).kycs@
            && final(state).next_id == old(state).next_id,
{
    match require_controller(context, state) {
        Err(e) => Err(e),
        Ok(()) => {
            state.registry_address = target_registry_address;
            state.storage_address = target_storage_address;
            Ok(())
        },
    }
}

/// Stages a record for `applicant_did`: nothing is stored yet. The result is
/// the call to the registry, carrying the record to commit once verified.
pub fn upload_kyc(
    context: &ContractContext,
    state: &ContractState,
    applicant_did: String,
    applicant_info: Vec<SubjectInfo>,
) -> (r: Result<Vec<EventGroup>, KycError>)
    ensures
        state.registry_address.is_blank_spec() ==> r == Err::<Vec<EventGroup>, KycError>(
            KycError::NotConfigured,
        ),
        !state.registry_address.is_blank_spec() ==> (r matches Ok(evs) && evs@ == seq![
            verify_event(
                state.registry_address,
                context.sender,
                staged_record(applicant_did, applicant_info),
            ),
        ]),
{
    if state.registry_address.is_blank() {
        return Err(KycError::NotConfigured);
    }
    let copied_did = applicant_did.clone();
    let new_kyc = Kyc { applicant_did, applicant_info, approved: false, pending: true };
    let event = EventGroup {
        target: state.registry_address,
        shortname: REGISTRY_VERIFY_SHORTNAME,
        arguments: CallArguments::VerifyAuthority { applicant_did: copied_did, requester: context.sender },
        continuation: Continuation::CommitIfVerified { new_kyc },
    };
    let mut evs: Vec<EventGroup> = Vec::new();
    evs.push(event);
    Ok(evs)
}

/// Continuation of `upload_kyc`: commits `new_kyc` under the next identifier
/// when the registry verified the requester, and stores nothing otherwise.
pub fn upload_kyc_callback(
    context: &ContractContext,
    callback_context: &CallbackContext,
    state: &mut ContractState,
    new_kyc: Kyc,
) -> (r: Result<Vec<EventGroup>, KycError>)
    requires
        old(state).wf(),
    ensures
        final(state).wf(),
        !callback_context.success ==> r == Err::<Vec<EventGroup>, KycError>(
            KycError::VerificationFailed,
        ) && unchanged(*final(state), *old(state)),
        callback_context.success ==> (r matches Ok(evs) && evs@.len() == 0)
            && same_config(*final(state), *old(state))
            && final(state).kycs@ == commit_store(old(state).kycs@, new_kyc)
            && final(state).record(old(state).next_id) == new_kyc
            && final(state).next_id == old(state).next_id + 1,
{
    if !callback_context.success {
        return Err(KycError::VerificationFailed);
    }
    let committed: usize = state.kycs.len();
    assert(state.next_id == committed);
    state.kycs.push(new_kyc);
    state.next_id = state.next_id + 1;
    Ok(Vec::new())
}

/// Records the controller's decision on record `kyc_idx`: it is no longer
/// pending, and approved exactly when `decision` holds.
pub fn approve_kyc(
    context: &ContractContext,
    state: &mut ContractState,
    kyc_idx: u128,
    decision: bool,
) -> (r: Result<(), KycError>)
    requires
        old(state).wf(),
    ensures
        final(state).wf(),
        !is_controller(*context, *old(state)) ==> r == Err::<(), KycError>(KycError::Unauthorized)
            && unchanged(*final(state), *old(state)),
        is_controller(*context, *old(state)) && !old(state).has_record(kyc_idx) ==> r == Err::<
            (),
            KycError,
        >(KycError::RecordNotFound) && unchanged(*final(state), *old(state)),
        is_controller(*context, *old(state)) && old(state).has_record(kyc_idx) ==> r is Ok
            && same_config(*final(state), *old(state))
            && final(state).next_id == old(state).next_id
            && final(state).kycs@ == decide_store(old(state).kycs@, kyc_idx as int, decision),
{
    if let Err(e) = require_controller(context, state) {
        return Err(e);
    }
    if kyc_idx >= state.kycs.len() as u128 {
        return Err(KycError::RecordNotFound);
    }
    let i = kyc_idx as usize;
    let ghost before = state.kycs@;
    let k = state.kycs.remove(i);
    let decided = Kyc {
        applicant_did: k.applicant_did,
        applicant_info: k.applicant_info,
        approved: decision,
        pending: false,
    };
    state.kycs.insert(i, decided);
    assert(state.kycs@ =~= decide_store(before, i as int, decision));
    Ok(())
}

/// Asks the storage service to issue a credential for an approved record.
/// The store is not touched.
pub fn create_vc(
    context: &ContractContext,
    state: &ContractState,
    kyc_idx: u128,
    issuer_did: String,
    valid_since: String,
    valid_until: String,
    description: String,
) -> (r: Result<Vec<EventGroup>, KycError>)
    ensures
        !is_controller(*context, *state) ==> r == Err::<Vec<EventGroup>, KycError>(
            KycError::Unauthorized,
        ),
        is_controller(*context, *state) && state.storage_address.is_blank_spec() ==> r == Err::<
            Vec<EventGroup>,
            KycError,
        >(KycError::NotConfigured),
        is_controller(*context, *state) && !state.storage_address.is_blank_spec()
            && !state.has_record(kyc_idx) ==> r == Err::<Vec<EventGroup>, KycError>(
            KycError::RecordNotFound,
        ),
        is_controller(*context, *state) && !state.storage_address.is_blank_spec()
            && state.has_record(kyc_idx) && !state.record(kyc_idx).approved ==> r == Err::<
            Vec<EventGroup>,
            KycError,
        >(KycError::NotApproved),
        is_controller(*context, *state) && !state.storage_address.is_blank_spec()
            && state.has_record(kyc_idx) && state.record(kyc_idx).approved ==> (r matches Ok(evs)
            && evs@.len() == 1 && is_issue_event(
            evs@[0],
            state.storage_address,
            issuer_did,
            kyc_idx,
            state.record(kyc_idx),
            valid_since,
            valid_until,
            description,
        )),
{
    if let Err(e) = require_controller(context, state) {
        return Err(e);
    }
    if state.storage_address.is_blank() {
        return Err(KycError::NotConfigured);
    }
    let kyc = match state.get(kyc_idx) {
        None => return Err(KycError::RecordNotFound),
        Some(k) => k,
    };
    if !kyc.approved {
        return Err(KycError::NotApproved);
    }
    let event = EventGroup {
        target: state.storage_address,
        shortname: STORAGE_UPLOAD_VC_SHORTNAME,
        arguments: CallArguments::IssueCredential {
            issuer_did,
            vc_id: kyc_idx,
            subject_did: kyc.applicant_did.clone(),
            subject_info: duplicate_infos(&kyc.applicant_info),
            valid_since,
            valid_until,
            description,
            is_revoked: false,
        },
        continuation: Continuation::ConfirmIssuance,
    };
    let mut evs: Vec<EventGroup> = Vec::new();
    evs.push(event);
    Ok(evs)
}

/// Continuation of `create_vc`: succeeds exactly when the storage call did.
pub fn create_vc_callback(
    context: &ContractContext,
    callback_context: &CallbackContext,
    state: &ContractState,
) -> (r: Result<Vec<EventGroup>, KycError>)
    ensures
        callback_context.success ==> (r matches Ok(evs) && evs@.len() == 0),
        !callback_context.success ==> r == Err::<Vec<EventGroup>, KycError>(KycError::IssuanceFailed),
{
    if !callback_context.success {
        return Err(KycError::IssuanceFailed);
    }
    Ok(Vec::new())
}

/// Resumes a suspended operation: runs the continuation attached to an
/// outbound call with that call's outcome and the payload it carried.
pub fn run_continuation(
    context: &ContractContext,
    callback_context: &CallbackContext,
    state: &mut ContractState,
    continuation: Continuation,
) -> (r: Result<Vec<EventGroup>, KycError>)
    requires
        old(state).wf(),
    ensures
        final(state).wf(),
        !callback_context.success ==> unchanged(*final(state), *old(state)) && r == Err::<
            Vec<EventGroup>,
            KycError,
        >(
            if continuation is CommitIfVerified {
                KycError::VerificationFailed
            } else {
                KycError::IssuanceFailed
            },
        ),
        callback_context.success ==> (r matches Ok(evs) && evs@.len() == 0) && same_config(
            *final(state),
            *old(state),
        ),
        callback_context.success && continuation is ConfirmIssuance ==> unchanged(
            *final(state),
            *old(state),
        ),
        callback_context.success && continuation is CommitIfVerified ==> final(state).kycs@
            == commit_store(old(state).kycs@, continuation->new_kyc) && final(state).next_id
            == old(state).next_id + 1,
{
    match continuation {
        Continuation::CommitIfVerified { new_kyc } => upload_kyc_callback(
            context,
            callback_context,
            state,
            new_kyc,
        ),
        Continuation::ConfirmIssuance => create_vc_callback(context, callback_context, state),
    }
}

/// Staging a record and then committing the payload that the registry call
/// carries adds exactly one record: it sits under the identifier equal to the
/// store's previous size, awaits a decision, is not approved, and holds the
/// applicant and claims given; every earlier record is kept.
pub proof fn lemma_stage_then_commit(
    s: Seq<Kyc>,
    registry: Address,
    requester: Address,
    applicant_did: String,
    applicant_info: Vec<SubjectInfo>,
)
    ensures
        verify_event(registry, requester, staged_record(applicant_did, applicant_info)).continuation
            matches Continuation::CommitIfVerified { new_kyc } && ({
            let t = commit_store(s, new_kyc);
            &&& t.len() == s.len() + 1
            &&& t[s.len() as int].pending
            &&& !t[s.len() as int].approved
            &&& t[s.len() as int].applicant_did == applicant_did
            &&& t[s.len() as int].applicant_info == applicant_info
            &&& forall|i: int| 0 <= i < s.len() ==> #[trigger] t[i] == s[i]
        }),
{
}

/// Of two decisions on one record the last one wins: the record ends neither
/// pending nor approved unless the last decision approved it, and repeating a
/// decision changes nothing.
pub proof fn lemma_last_decision_wins(s: Seq<Kyc>, id: int, first: bool, second: bool)
    requires
        0 <= id < s.len(),
    ensures
        decide_store(decide_store(s, id, first), id, second) == decide_store(s, id, second),
        !decide_store(s, id, second)[id].pending,
        decide_store(s, id, second)[id].approved == second,
        decide_store(decide_store(s, id, second), id, second) == decide_store(s, id, second),
{
    assert(decide_store(decide_store(s, id, first), id, second) =~= decide_store(s, id, second));
    assert(decide_store(decide_store(s, id, second), id, second) =~= decide_store(s, id, second));
}

} // verus!

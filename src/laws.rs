//! Properties of the registry that hold across its operations.

use vstd::prelude::*;
use crate::model::{AffiliationType, ErrorCode, GuideAccount, VerificationStatus};
use crate::registry::RegistryView;

verus! {

/// No two records of a well-formed registry share a submitter and an index:
/// each record's index is its own position.
pub proof fn lemma_record_keys_unique(v: RegistryView)
    requires
        v.wf(),
    ensures
        forall|i: int, j: int|
            0 <= i < v.guides.len() && 0 <= j < v.guides.len() && i != j ==> !(
            #[trigger] v.guides[i].authority@ == #[trigger] v.guides[j].authority@
                && v.guides[i].index == v.guides[j].index),
{
    assert forall|i: int, j: int|
        0 <= i < v.guides.len() && 0 <= j < v.guides.len() && i != j implies !(
        #[trigger] v.guides[i].authority@ == #[trigger] v.guides[j].authority@
            && v.guides[i].index == v.guides[j].index) by {
        assert(v.guides[i].index == i);
        assert(v.guides[j].index == j);
    }
}

/// Two submissions filed one after the other, each taking the counter's value
/// as its index, never receive the same submitter and index, and each takes
/// an index that no earlier record holds.
pub proof fn lemma_successive_submissions_distinct(
    v: RegistryView,
    key1: Seq<u8>,
    first: GuideAccount,
    key2: Seq<u8>,
    second: GuideAccount,
)
    requires
        v.wf(),
        v.admin is Some,
        v.admin.unwrap().guides_count < u64::MAX,
        first.index == v.admin.unwrap().guides_count,
        second.index == v.with_record(key1, first).admin.unwrap().guides_count,
    ensures
        !(first.authority@ == second.authority@ && first.index == second.index),
        forall|i: int| 0 <= i < v.guides.len() ==> #[trigger] v.guides[i].index != first.index,
        forall|i: int|
            0 <= i < v.with_record(key1, first).guides.len() ==> #[trigger] v.with_record(
                key1,
                first,
            ).guides[i].index != second.index,
{
    let v1 = v.with_record(key1, first);
    assert forall|i: int| 0 <= i < v1.guides.len() implies #[trigger] v1.guides[i].index
        != second.index by {
        if i < v.guides.len() {
            assert(v1.guides[i] == v.guides[i]);
            assert(v.guides[i].index == i);
        } else {
            assert(v1.guides[i] == first);
        }
    }
}

/// Once a record has been approved or rejected, no later approval or
/// rejection of it succeeds; when the administrator tries, it fails with
/// `InvalidGuideStatus`.
pub proof fn lemma_decided_record_is_final(
    v: RegistryView,
    signer: Seq<u8>,
    submitter: Seq<u8>,
    index: u64,
    status: VerificationStatus,
    approved_at: Option<i64>,
    next_signer: Seq<u8>,
)
    requires
        v.wf(),
        v.update_error(signer, submitter, index) is None,
        status != VerificationStatus::Pending,
    ensures
        v.with_status(index, status, approved_at).update_error(next_signer, submitter, index)
            is Some,
        next_signer == v.admin.unwrap().authority@ ==> v.with_status(
            index,
            status,
            approved_at,
        ).update_error(next_signer, submitter, index) == Some(ErrorCode::InvalidGuideStatus),
{
    let w = v.with_status(index, status, approved_at);
    assert(w.guides[index as int].status == status);
    assert(w.guides[index as int].authority == v.guides[index as int].authority);
}

/// Approval or rejection by anyone but the administrator fails with
/// `Unauthorized`, whichever record it names and whoever filed it.
pub proof fn lemma_only_admin_decides(
    v: RegistryView,
    signer: Seq<u8>,
    submitter: Seq<u8>,
    index: u64,
)
    requires
        v.admin is Some,
        v.admin.unwrap().authority@ != signer,
    ensures
        v.update_error(signer, submitter, index) == Some(ErrorCode::Unauthorized),
{
}

/// An agency submission without an agency name fails with
/// `MissingAgencyInformation`; one that gives both the agency name and the
/// offer letter passes that check.
pub proof fn lemma_agency_details_required(
    v: RegistryView,
    agency_name: Option<String>,
    offer_letter_uri: Option<String>,
)
    requires
        v.admin is Some,
    ensures
        agency_name is None ==> v.submission_error(
            AffiliationType::Agency,
            agency_name,
            offer_letter_uri,
        ) == Some(ErrorCode::MissingAgencyInformation),
        agency_name is Some && offer_letter_uri is Some ==> v.submission_error(
            AffiliationType::Agency,
            agency_name,
            offer_letter_uri,
        ) != Some(ErrorCode::MissingAgencyInformation),
        agency_name is Some && offer_letter_uri is Some && v.admin.unwrap().guides_count
            < u64::MAX ==> v.submission_error(
            AffiliationType::Agency,
            agency_name,
            offer_letter_uri,
        ) is None,
{
}

} // verus!

//! The registry and its four operations: initialize, submit, approve, reject.

use vstd::prelude::*;
use crate::address::{guide_address, guide_seeds, program_address_of, Identity};
use crate::model::{
    AdminAccount, AffiliationType, ApproveVerification, ErrorCode, GuideAccount, Initialize,
    SubmitVerification, VerificationStatus, VerificationStatusUpdatedEvent,
    VerificationSubmittedEvent,
};

verus! {

/// The records of one deployment: the admin singleton, once created, and the
/// guide records in the order they were filed, each with its address.
pub struct Registry {
    pub program_id: Identity,
    pub admin_account: Option<AdminAccount>,
    pub guides: Vec<GuideAccount>,
    pub keys: Vec<Identity>,
}

/// The contents of a registry.
pub struct RegistryView {
    pub program_id: Seq<u8>,
    pub admin: Option<AdminAccount>,
    pub guides: Seq<GuideAccount>,
    pub keys: Seq<Seq<u8>>,
}

impl View for Registry {
    type V = RegistryView;

    open spec fn view(&self) -> RegistryView {
        RegistryView {
            program_id: self.program_id@,
            admin: self.admin_account,
            guides: self.guides@,
            keys: self.keys@.map_values(|k: Identity| k@),
        }
    }
}

/// A filing is consistent: agency filings name the agency and the offer
/// letter, and an approval time is set exactly on approved records.
pub open spec fn record_wf(g: GuideAccount) -> bool {
    &&& (g.affiliation_type == AffiliationType::Agency ==> g.agency_name is Some
        && g.offer_letter_uri is Some)
    &&& (g.approved_at is Some <==> g.status == VerificationStatus::Approved)
}

impl RegistryView {
    /// Every record sits at the position of its index, and there are as many
    /// records as the counter says.
    pub open spec fn wf(self) -> bool {
        &&& self.keys.len() == self.guides.len()
        &&& match self.admin {
            None => self.guides.len() == 0,
            Some(a) => self.guides.len() == a.guides_count,
        }
        &&& forall|i: int|
            0 <= i < self.guides.len() ==> (#[trigger] self.guides[i]).index == i && record_wf(
                self.guides[i],
            )
    }

    /// Whether a record filed by `submitter` under `index` is stored.
    pub open spec fn holds(self, submitter: Seq<u8>, index: u64) -> bool {
        index < self.guides.len() && self.guides[index as int].authority@ == submitter
    }

    /// The error a submission meets before its address is derived, if any.
    pub open spec fn submission_error(
        self,
        affiliation_type: AffiliationType,
        agency_name: Option<String>,
        offer_letter_uri: Option<String>,
    ) -> Option<ErrorCode> {
        match self.admin {
            None => Some(ErrorCode::NotInitialized),
            Some(a) => if affiliation_type == AffiliationType::Agency && (agency_name is None
                || offer_letter_uri is None) {
                Some(ErrorCode::MissingAgencyInformation)
            } else if a.guides_count == u64::MAX {
                Some(ErrorCode::CounterOverflow)
            } else {
                None
            },
        }
    }

    /// The registry after `record` is filed at address `key`.
    pub open spec fn with_record(self, key: Seq<u8>, record: GuideAccount) -> RegistryView {
        RegistryView {
            program_id: self.program_id,
            admin: match self.admin {
                Some(a) => Some(
                    AdminAccount { authority: a.authority, guides_count: (a.guides_count + 1) as u64 },
                ),
                None => None,
            },
            guides: self.guides.push(record),
            keys: self.keys.push(key),
        }
    }

    /// The error an approval or rejection by `signer` of the record filed by
    /// `submitter` under `index` meets, if any.
    pub open spec fn update_error(self, signer: Seq<u8>, submitter: Seq<u8>, index: u64) -> Option<
        ErrorCode,
    > {
        match self.admin {
            None => Some(ErrorCode::NotInitialized),
            Some(a) => if a.authority@ != signer {
                Some(ErrorCode::Unauthorized)
            } else if !self.holds(submitter, index) {
                Some(ErrorCode::GuideNotFound)
            } else if self.guides[index as int].status != VerificationStatus::Pending {
                Some(ErrorCode::InvalidGuideStatus)
            } else {
                None
            },
        }
    }

    /// The registry after the record at `index` takes `status` and `approved_at`.
    pub open spec fn with_status(
        self,
        index: u64,
        status: VerificationStatus,
        approved_at: Option<i64>,
    ) -> RegistryView {
        RegistryView {
            guides: self.guides.update(
                index as int,
                GuideAccount { status: status, approved_at: approved_at, ..self.guides[index as int] },
            ),
            ..self
        }
    }
}

/// A freshly filed record, copied from the submission.
pub open spec fn pending_record(
    submitter: Identity,
    ic_number: String,
    name: String,
    email: String,
    phone: String,
    wallet_address: String,
    license_uri: String,
    photo_id_uri: String,
    attachment_uri: Option<String>,
    affiliation_type: AffiliationType,
    agency_name: Option<String>,
    offer_letter_uri: Option<String>,
    index: u64,
    bump: u8,
) -> GuideAccount {
    GuideAccount {
        authority: submitter,
        ic_number,
        name,
        email,
        phone,
        wallet_address,
        license_uri,
        photo_id_uri,
        attachment_uri,
        affiliation_type,
        agency_name,
        offer_letter_uri,
        status: VerificationStatus::Pending,
        approved_at: None,
        index,
        bump,
    }
}

impl Registry {
    /// An empty registry of the program `program_id`, not yet initialized.
    pub fn new(program_id: Identity) -> (r: Registry)
        ensures
            r@.wf(),
            r@.program_id == program_id@,
            r@.admin is None,
            r@.guides.len() == 0,
    {
        let r = Registry { program_id, admin_account: None, guides: Vec::new(), keys: Vec::new() };
        assert(r@.keys =~= Seq::empty());
        r
    }

    /// Whether the registry is well formed, for callers that cannot prove it.
    pub fn is_well_formed(&self) -> (r: bool)
        ensures
            r == self@.wf(),
    {
        let n = self.guides.len();
        if self.keys.len() != n {
            return false;
        }
        match &self.admin_account {
            None => {
                if n != 0 {
                    return false;
                }
            },
            Some(a) => {
                if a.guides_count as u128 != n as u128 {
                    return false;
                }
            },
        }
        let mut i: usize = 0;
        while i < n
            invariant
                i <= n,
                n == self.guides@.len(),
                forall|j: int|
                    0 <= j < i ==> (#[trigger] self.guides@[j]).index == j && record_wf(
                        self.guides@[j],
                    ),
            decreases n - i,
        {
            let g = &self.guides[i];
            if g.index as u128 != i as u128 {
                return false;
            }
            if g.affiliation_type == AffiliationType::Agency && (g.agency_name.is_none()
                || g.offer_letter_uri.is_none()) {
                return false;
            }
            if g.approved_at.is_some() != (g.status == VerificationStatus::Approved) {
                return false;
            }
            i = i + 1;
        }
        true
    }

    /// The record filed by `submitter` under `index`, if there is one.
    pub fn guide(&self, submitter: &Identity, index: u64) -> (r: Option<&GuideAccount>)
        ensures
            match r {
                Some(g) => self@.holds(submitter@, index) && *g == self@.guides[index as int],
                None => !self@.holds(submitter@, index),
            },
    {
        if index as u128 >= self.guides.len() as u128 {
            return None;
        }
        let g = &self.guides[index as usize];
        if g.authority.same_as(submitter) {
            Some(g)
        } else {
            None
        }
    }
}

/// Creates the admin singleton with `ctx.authority` as administrator and a
/// zero counter; fails if the registry already holds it.
pub fn initialize(registry: &mut Registry, ctx: &Initialize) -> (r: Result<(), ErrorCode>)
    requires
        old(registry)@.wf(),
    ensures
        final(registry)@.wf(),
        old(registry)@.admin is Some ==> r == Err::<(), ErrorCode>(ErrorCode::AlreadyInitialized)
            && final(registry)@ == old(registry)@,
        old(registry)@.admin is None ==> r is Ok && final(registry)@ == (RegistryView {
            admin: Some(AdminAccount { authority: ctx.authority, guides_count: 0 }),
            ..old(registry)@
        }),
{
    if registry.admin_account.is_some() {
        return Err(ErrorCode::AlreadyInitialized);
    }
    registry.admin_account = Some(AdminAccount { authority: ctx.authority, guides_count: 0 });
    Ok(())
}

/// Files a record for `ctx.authority` at the address `derived` found for it:
/// the record takes the counter's value as its index, starts pending, and the
/// counter grows by one.
pub fn submit_at(
    registry: &mut Registry,
    ctx: &SubmitVerification,
    derived: Option<(Identity, u8)>,
    ic_number: String,
    name: String,
    email: String,
    phone: String,
    wallet_address: String,
    license_uri: String,
    photo_id_uri: String,
    attachment_uri: Option<String>,
    affiliation_type: AffiliationType,
    agency_name: Option<String>,
    offer_letter_uri: Option<String>,
) -> (r: Result<VerificationSubmittedEvent, ErrorCode>)
    requires
        old(registry)@.wf(),
    ensures
        final(registry)@.wf(),
        match old(registry)@.submission_error(affiliation_type, agency_name, offer_letter_uri) {
            Some(e) => r == Err::<VerificationSubmittedEvent, ErrorCode>(e) && final(registry)@
                == old(registry)@,
            None => match derived {
                None => r == Err::<VerificationSubmittedEvent, ErrorCode>(
                    ErrorCode::AddressUnavailable,
                ) && final(registry)@ == old(registry)@,
                Some((key, bump)) => {
                    let index = old(registry)@.admin.unwrap().guides_count;
                    &&& final(registry)@ == old(registry)@.with_record(
                        key@,
                        pending_record(
                            ctx.authority,
                            ic_number,
                            name,
                            email,
                            phone,
                            wallet_address,
                            license_uri,
                            photo_id_uri,
                            attachment_uri,
                            affiliation_type,
                            agency_name,
                            offer_letter_uri,
                            index,
                            bump,
                        ),
                    )
                    &&& r matches Ok(ev) && ev.guide@ == key@ && ev.submitter@ == ctx.authority@
                        && ev.name@ == name@ && ev.status == VerificationStatus::Pending
                },
            },
        },
{
    let count = match &registry.admin_account {
        None => {
            return Err(ErrorCode::NotInitialized);
        },
        Some(a) => a.guides_count,
    };
    if affiliation_type == AffiliationType::Agency && (agency_name.is_none()
        || offer_letter_uri.is_none()) {
        return Err(ErrorCode::MissingAgencyInformation);
    }
    let next = match count.checked_add(1) {
        None => {
            return Err(ErrorCode::CounterOverflow);
        },
        Some(n) => n,
    };
    let (key, bump) = match derived {
        None => {
            return Err(ErrorCode::AddressUnavailable);
        },
        Some(d) => d,
    };
    let event_name = name.clone();
    let record = GuideAccount {
        authority: ctx.authority,
        ic_number,
        name,
        email,
        phone,
        wallet_address,
        license_uri,
        photo_id_uri,
        attachment_uri,
        affiliation_type,
        agency_name,
        offer_letter_uri,
        status: VerificationStatus::Pending,
        approved_at: None,
        index: count,
        bump,
    };
    let ghost old_view = registry@;
    let authority = registry.admin_account.unwrap().authority;
    registry.guides.push(record);
    registry.keys.push(key);
    registry.admin_account = Some(AdminAccount { authority, guides_count: next });
    assert(registry@.keys =~= old_view.keys.push(key@));
    assert(registry@.guides =~= old_view.guides.push(record));
    Ok(
        VerificationSubmittedEvent {
            guide: key,
            submitter: ctx.authority,
            name: event_name,
            status: VerificationStatus::Pending,
        },
    )
}

/// Files a record for `ctx.authority` at the address derived from the
/// submitter and the counter; see `submit_at` for what follows.
pub fn submit_verification(
    registry: &mut Registry,
    ctx: &SubmitVerification,
    ic_number: String,
    name: String,
    email: String,
    phone: String,
    wallet_address: String,
    license_uri: String,
    photo_id_uri: String,
    attachment_uri: Option<String>,
    affiliation_type: AffiliationType,
    agency_name: Option<String>,
    offer_letter_uri: Option<String>,
) -> (r: Result<VerificationSubmittedEvent, ErrorCode>)
    requires
        old(registry)@.wf(),
    ensures
        final(registry)@.wf(),
        match old(registry)@.submission_error(affiliation_type, agency_name, offer_letter_uri) {
            Some(e) => r == Err::<VerificationSubmittedEvent, ErrorCode>(e) && final(registry)@
                == old(registry)@,
            None => {
                let index = old(registry)@.admin.unwrap().guides_count;
                match program_address_of(
                    guide_seeds(ctx.authority@, index),
                    old(registry)@.program_id,
                ) {
                    None => r == Err::<VerificationSubmittedEvent, ErrorCode>(
                        ErrorCode::AddressUnavailable,
                    ) && final(registry)@ == old(registry)@,
                    Some((key, bump)) => {
                        &&& final(registry)@.guides == old(registry)@.guides.push(
                            pending_record(
                                ctx.authority,
                                ic_number,
                                name,
                                email,
                                phone,
                                wallet_address,
                                license_uri,
                                photo_id_uri,
                                attachment_uri,
                                affiliation_type,
                                agency_name,
                                offer_letter_uri,
                                index,
                                bump,
                            ),
                        )
                        &&& final(registry)@.keys == old(registry)@.keys.push(key)
                        &&& final(registry)@.admin == Some(
                            AdminAccount {
                                authority: old(registry)@.admin.unwrap().authority,
                                guides_count: (index + 1) as u64,
                            },
                        )
                        &&& final(registry)@.program_id == old(registry)@.program_id
                        &&& r matches Ok(ev) && ev.guide@ == key && ev.submitter@
                            == ctx.authority@ && ev.name@ == name@ && ev.status
                            == VerificationStatus::Pending
                    },
                }
            },
        },
{
    let derived = match &registry.admin_account {
        None => None,
        Some(a) => if a.guides_count < u64::MAX {
            guide_address(&registry.program_id, &ctx.authority, a.guides_count)
        } else {
            None
        },
    };
    submit_at(
        registry,
        ctx,
        derived,
        ic_number,
        name,
        email,
        phone,
        wallet_address,
        license_uri,
        photo_id_uri,
        attachment_uri,
        affiliation_type,
        agency_name,
        offer_letter_uri,
    )
}

/// Moves the pending record filed by `guide_authority` under `guide_index` to
/// `status`, on behalf of the administrator `ctx.authority`.
fn set_final_status(
    registry: &mut Registry,
    ctx: &ApproveVerification,
    guide_authority: &Identity,
    guide_index: u64,
    status: VerificationStatus,
    approved_at: Option<i64>,
) -> (r: Result<VerificationStatusUpdatedEvent, ErrorCode>)
    requires
        old(registry)@.wf(),
        status != VerificationStatus::Pending,
        approved_at is Some <==> status == VerificationStatus::Approved,
    ensures
        final(registry)@.wf(),
        match old(registry)@.update_error(ctx.authority@, guide_authority@, guide_index) {
            Some(e) => r == Err::<VerificationStatusUpdatedEvent, ErrorCode>(e) && final(registry)@ == old(registry)@,
            None => {
                &&& final(registry)@ == old(registry)@.with_status(
                guide_index,
                status,
                approved_at,
            )
                &&& r matches Ok(ev) && ev.guide@ == old(registry)@.keys[guide_index as int]
                && ev.authority@ == guide_authority@ && ev.status == status
            },
        },
{
    let admin = match &registry.admin_account {
        None => {
            return Err(ErrorCode::NotInitialized);
        },
        Some(a) => *a,
    };
    if !admin.authority.same_as(&ctx.authority) {
        return Err(ErrorCode::Unauthorized);
    }
    let n = registry.guides.len();
    if guide_index as u128 >= n as u128 {
        return Err(ErrorCode::GuideNotFound);
    }
    let i = guide_index as usize;
    if !registry.guides[i].authority.same_as(guide_authority) {
        return Err(ErrorCode::GuideNotFound);
    }
    if registry.guides[i].status != VerificationStatus::Pending {
        return Err(ErrorCode::InvalidGuideStatus);
    }
    let ghost old_view = registry@;
    registry.guides[i].status = status;
    registry.guides[i].approved_at = approved_at;
    assert(registry@.guides =~= old_view.with_status(guide_index, status, approved_at).guides);
    let key = registry.keys[i];
    Ok(VerificationStatusUpdatedEvent { guide: key, authority: *guide_authority, status })
}

/// Approves the pending record filed by `guide_authority` under `guide_index`,
/// stamping it with the time `now`; only the administrator may do so.
pub fn approve_verification(
    registry: &mut Registry,
    ctx: &ApproveVerification,
    guide_authority: Identity,
    guide_index: u64,
    now: i64,
) -> (r: Result<VerificationStatusUpdatedEvent, ErrorCode>)
    requires
        old(registry)@.wf(),
    ensures
        final(registry)@.wf(),
        match old(registry)@.update_error(ctx.authority@, guide_authority@, guide_index) {
            Some(e) => r == Err::<VerificationStatusUpdatedEvent, ErrorCode>(e) && final(registry)@ == old(registry)@,
            None => {
                &&& final(registry)@ == old(registry)@.with_status(
                guide_index,
                VerificationStatus::Approved,
                Some(now),
            )
                &&& r matches Ok(ev) && ev.guide@ == old(registry)@.keys[guide_index as int]
                && ev.authority@ == guide_authority@ && ev.status == VerificationStatus::Approved
            },
        },
{
    set_final_status(
        registry,
        ctx,
        &guide_authority,
        guide_index,
        VerificationStatus::Approved,
        Some(now),
    )
}

/// Rejects the pending record filed by `guide_authority` under `guide_index`;
/// only the administrator may do so.
pub fn reject_verification(
    registry: &mut Registry,
    ctx: &ApproveVerification,
    guide_authority: Identity,
    guide_index: u64,
) -> (r: Result<VerificationStatusUpdatedEvent, ErrorCode>)
    requires
        old(registry)@.wf(),
    ensures
        final(registry)@.wf(),
        match old(registry)@.update_error(ctx.authority@, guide_authority@, guide_index) {
            Some(e) => r == Err::<VerificationStatusUpdatedEvent, ErrorCode>(e) && final(registry)@ == old(registry)@,
            None => {
                &&& final(registry)@ == old(registry)@.with_status(
                guide_index,
                VerificationStatus::Rejected,
                None,
            )
                &&& r matches Ok(ev) && ev.guide@ == old(registry)@.keys[guide_index as int]
                && ev.authority@ == guide_authority@ && ev.status == VerificationStatus::Rejected
            },
        },
{
    set_final_status(
        registry,
        ctx,
        &guide_authority,
        guide_index,
        VerificationStatus::Rejected,
        None,
    )
}

} // verus!

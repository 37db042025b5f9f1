use chaperone_me::address::{guide_address, guide_seed_bytes, u64_le_bytes, Identity};
use chaperone_me::model::{
    AffiliationType, ApproveVerification, ErrorCode, Initialize, SubmitVerification,
    VerificationStatus,
};
use chaperone_me::registry::{
    approve_verification, initialize, reject_verification, submit_at, submit_verification,
    Registry,
};

fn id(b: u8) -> Identity {
    Identity::new([b; 32])
}

fn program() -> Identity {
    let mut bytes = [0u8; 32];
    for (i, b) in bytes.iter_mut().enumerate() {
        *b = (i as u8).wrapping_mul(7).wrapping_add(3);
    }
    Identity::new(bytes)
}

fn submit(
    reg: &mut Registry,
    who: Identity,
    affiliation: AffiliationType,
    agency_name: Option<&str>,
    offer_letter: Option<&str>,
) -> Result<chaperone_me::model::VerificationSubmittedEvent, ErrorCode> {
    submit_verification(
        reg,
        &SubmitVerification { authority: who },
        "900101-14-5678".to_string(),
        "Aina Guide".to_string(),
        "aina@example.com".to_string(),
        "+60123456789".to_string(),
        "9xQeWvG816bUx9EPjHmaT23yvVM2ZWbrrpZb9PusVFin".to_string(),
        "ipfs://license".to_string(),
        "ipfs://photo".to_string(),
        None,
        affiliation,
        agency_name.map(|s| s.to_string()),
        offer_letter.map(|s| s.to_string()),
    )
}

fn ready(admin: Identity) -> Registry {
    let mut reg = Registry::new(program());
    initialize(&mut reg, &Initialize { authority: admin }).unwrap();
    reg
}

#[test]
fn scenario_submit_approve_reapprove_unauthorized() {
    let a = id(1);
    let b = id(2);
    let c = id(3);
    let mut reg = ready(a);

    let ev = submit(&mut reg, b, AffiliationType::Freelance, None, None).unwrap();
    assert_eq!(ev.status, VerificationStatus::Pending);
    assert_eq!(ev.submitter.bytes, b.bytes);
    assert_eq!(ev.name, "Aina Guide");
    let g = reg.guide(&b, 0).unwrap();
    assert_eq!(g.index, 0);
    assert_eq!(g.status, VerificationStatus::Pending);
    assert_eq!(g.approved_at, None);

    let up = approve_verification(&mut reg, &ApproveVerification { authority: a }, b, 0, 1_700_000_000)
        .unwrap();
    assert_eq!(up.status, VerificationStatus::Approved);
    assert_eq!(up.guide.bytes, ev.guide.bytes);
    let g = reg.guide(&b, 0).unwrap();
    assert_eq!(g.status, VerificationStatus::Approved);
    assert_eq!(g.approved_at, Some(1_700_000_000));

    let again = approve_verification(&mut reg, &ApproveVerification { authority: a }, b, 0, 1_700_000_500);
    assert_eq!(again.unwrap_err(), ErrorCode::InvalidGuideStatus);
    assert_eq!(reg.guide(&b, 0).unwrap().approved_at, Some(1_700_000_000));

    submit(&mut reg, b, AffiliationType::Freelance, None, None).unwrap();
    let by_c = approve_verification(&mut reg, &ApproveVerification { authority: c }, b, 1, 1_700_001_000);
    assert_eq!(by_c.unwrap_err(), ErrorCode::Unauthorized);
    assert_eq!(reg.guide(&b, 1).unwrap().status, VerificationStatus::Pending);
}

#[test]
fn initialize_sets_admin_and_zero_counter() {
    let reg = ready(id(9));
    let admin = reg.admin_account.unwrap();
    assert_eq!(admin.authority.bytes, [9u8; 32]);
    assert_eq!(admin.guides_count, 0);
}

#[test]
fn initialize_twice_fails() {
    let mut reg = ready(id(1));
    let r = initialize(&mut reg, &Initialize { authority: id(2) });
    assert_eq!(r, Err(ErrorCode::AlreadyInitialized));
    assert_eq!(reg.admin_account.unwrap().authority.bytes, [1u8; 32]);
}

#[test]
fn submit_before_initialize_fails() {
    let mut reg = Registry::new(program());
    let r = submit(&mut reg, id(2), AffiliationType::Freelance, None, None);
    assert_eq!(r.unwrap_err(), ErrorCode::NotInitialized);
    assert!(reg.guides.is_empty());
}

#[test]
fn index_follows_counter() {
    let mut reg = ready(id(1));
    submit(&mut reg, id(2), AffiliationType::Freelance, None, None).unwrap();
    submit(&mut reg, id(3), AffiliationType::Freelance, None, None).unwrap();
    submit(&mut reg, id(2), AffiliationType::Freelance, None, None).unwrap();
    assert_eq!(reg.admin_account.unwrap().guides_count, 3);
    assert_eq!(reg.guide(&id(2), 0).unwrap().index, 0);
    assert_eq!(reg.guide(&id(3), 1).unwrap().index, 1);
    assert_eq!(reg.guide(&id(2), 2).unwrap().index, 2);
    assert!(reg.guide(&id(3), 0).is_none());
    assert!(reg.guide(&id(2), 3).is_none());
}

#[test]
fn submissions_get_distinct_addresses() {
    let mut reg = ready(id(1));
    let e1 = submit(&mut reg, id(2), AffiliationType::Freelance, None, None).unwrap();
    let e2 = submit(&mut reg, id(2), AffiliationType::Freelance, None, None).unwrap();
    let e3 = submit(&mut reg, id(4), AffiliationType::Freelance, None, None).unwrap();
    assert_ne!(e1.guide.bytes, e2.guide.bytes);
    assert_ne!(e2.guide.bytes, e3.guide.bytes);
    assert_ne!(e1.guide.bytes, e3.guide.bytes);
}

#[test]
fn agency_without_name_fails() {
    let mut reg = ready(id(1));
    let r = submit(&mut reg, id(2), AffiliationType::Agency, None, Some("ipfs://offer"));
    assert_eq!(r.unwrap_err(), ErrorCode::MissingAgencyInformation);
    assert_eq!(reg.admin_account.unwrap().guides_count, 0);
}

#[test]
fn agency_without_offer_letter_fails() {
    let mut reg = ready(id(1));
    let r = submit(&mut reg, id(2), AffiliationType::Agency, Some("Trails Sdn Bhd"), None);
    assert_eq!(r.unwrap_err(), ErrorCode::MissingAgencyInformation);
}

#[test]
fn agency_with_both_details_succeeds() {
    let mut reg = ready(id(1));
    submit(&mut reg, id(2), AffiliationType::Agency, Some("Trails Sdn Bhd"), Some("ipfs://offer"))
        .unwrap();
    let g = reg.guide(&id(2), 0).unwrap();
    assert_eq!(g.affiliation_type, AffiliationType::Agency);
    assert_eq!(g.agency_name.as_deref(), Some("Trails Sdn Bhd"));
    assert_eq!(g.offer_letter_uri.as_deref(), Some("ipfs://offer"));
}

#[test]
fn freelance_keeps_optional_fields_verbatim() {
    let mut reg = ready(id(1));
    submit(&mut reg, id(2), AffiliationType::Freelance, Some("Solo"), None).unwrap();
    let g = reg.guide(&id(2), 0).unwrap();
    assert_eq!(g.agency_name.as_deref(), Some("Solo"));
    assert_eq!(g.offer_letter_uri, None);
    assert_eq!(g.email, "aina@example.com");
    assert_eq!(g.license_uri, "ipfs://license");
}

#[test]
fn reject_sets_rejected_without_time() {
    let mut reg = ready(id(1));
    submit(&mut reg, id(2), AffiliationType::Freelance, None, None).unwrap();
    let up = reject_verification(&mut reg, &ApproveVerification { authority: id(1) }, id(2), 0).unwrap();
    assert_eq!(up.status, VerificationStatus::Rejected);
    assert_eq!(up.authority.bytes, [2u8; 32]);
    let g = reg.guide(&id(2), 0).unwrap();
    assert_eq!(g.status, VerificationStatus::Rejected);
    assert_eq!(g.approved_at, None);
}

#[test]
fn rejected_record_cannot_be_approved_or_rejected() {
    let mut reg = ready(id(1));
    submit(&mut reg, id(2), AffiliationType::Freelance, None, None).unwrap();
    let admin = ApproveVerification { authority: id(1) };
    reject_verification(&mut reg, &admin, id(2), 0).unwrap();
    assert_eq!(approve_verification(&mut reg, &admin, id(2), 0, 5).unwrap_err(), ErrorCode::InvalidGuideStatus);
    assert_eq!(reject_verification(&mut reg, &admin, id(2), 0).unwrap_err(), ErrorCode::InvalidGuideStatus);
    assert_eq!(reg.guide(&id(2), 0).unwrap().status, VerificationStatus::Rejected);
}

#[test]
fn approved_record_cannot_be_rejected() {
    let mut reg = ready(id(1));
    submit(&mut reg, id(2), AffiliationType::Freelance, None, None).unwrap();
    let admin = ApproveVerification { authority: id(1) };
    approve_verification(&mut reg, &admin, id(2), 0, 42).unwrap();
    assert_eq!(reject_verification(&mut reg, &admin, id(2), 0).unwrap_err(), ErrorCode::InvalidGuideStatus);
}

#[test]
fn non_admin_cannot_reject_even_own_record() {
    let mut reg = ready(id(1));
    submit(&mut reg, id(2), AffiliationType::Freelance, None, None).unwrap();
    let r = reject_verification(&mut reg, &ApproveVerification { authority: id(2) }, id(2), 0);
    assert_eq!(r.unwrap_err(), ErrorCode::Unauthorized);
}

#[test]
fn missing_record_is_not_found() {
    let mut reg = ready(id(1));
    submit(&mut reg, id(2), AffiliationType::Freelance, None, None).unwrap();
    let admin = ApproveVerification { authority: id(1) };
    assert_eq!(approve_verification(&mut reg, &admin, id(3), 0, 1).unwrap_err(), ErrorCode::GuideNotFound);
    assert_eq!(reject_verification(&mut reg, &admin, id(2), 7).unwrap_err(), ErrorCode::GuideNotFound);
}

#[test]
fn approve_before_initialize_fails() {
    let mut reg = Registry::new(program());
    let r = approve_verification(&mut reg, &ApproveVerification { authority: id(1) }, id(2), 0, 1);
    assert_eq!(r.unwrap_err(), ErrorCode::NotInitialized);
}

#[test]
fn submit_without_address_fails() {
    let mut reg = ready(id(1));
    let r = submit_at(
        &mut reg,
        &SubmitVerification { authority: id(2) },
        None,
        "ic".to_string(),
        "n".to_string(),
        "e".to_string(),
        "p".to_string(),
        "w".to_string(),
        "l".to_string(),
        "ph".to_string(),
        None,
        AffiliationType::Freelance,
        None,
        None,
    );
    assert_eq!(r.unwrap_err(), ErrorCode::AddressUnavailable);
    assert_eq!(reg.admin_account.unwrap().guides_count, 0);
}

#[test]
fn submit_at_given_address_records_bump() {
    let mut reg = ready(id(1));
    let ev = submit_at(
        &mut reg,
        &SubmitVerification { authority: id(2) },
        Some((id(8), 251)),
        "ic".to_string(),
        "n".to_string(),
        "e".to_string(),
        "p".to_string(),
        "w".to_string(),
        "l".to_string(),
        "ph".to_string(),
        Some("ipfs://extra".to_string()),
        AffiliationType::Freelance,
        None,
        None,
    )
    .unwrap();
    assert_eq!(ev.guide.bytes, [8u8; 32]);
    assert_eq!(ev.name, "n");
    let g = reg.guide(&id(2), 0).unwrap();
    assert_eq!(g.bump, 251);
    assert_eq!(g.attachment_uri.as_deref(), Some("ipfs://extra"));
    assert_eq!(reg.keys[0].bytes, [8u8; 32]);
}

#[test]
fn counter_at_maximum_overflows() {
    let mut reg = Registry::new(program());
    initialize(&mut reg, &Initialize { authority: id(1) }).unwrap();
    reg.admin_account.as_mut().unwrap().guides_count = u64::MAX;
    let r = submit(&mut reg, id(2), AffiliationType::Freelance, None, None);
    assert_eq!(r.unwrap_err(), ErrorCode::CounterOverflow);
    assert_eq!(reg.admin_account.unwrap().guides_count, u64::MAX);
}

#[test]
fn le_bytes_of_counter() {
    assert_eq!(u64_le_bytes(0x0102_0304_0506_0708), vec![8, 7, 6, 5, 4, 3, 2, 1]);
    assert_eq!(u64_le_bytes(0), vec![0; 8]);
    assert_eq!(u64_le_bytes(u64::MAX), vec![255; 8]);
}

#[test]
fn guide_seeds_layout() {
    let seeds = guide_seed_bytes(&id(5), 258);
    assert_eq!(seeds.len(), 3);
    assert_eq!(seeds[0], b"guide".to_vec());
    assert_eq!(seeds[1], vec![5u8; 32]);
    assert_eq!(seeds[2], vec![2, 1, 0, 0, 0, 0, 0, 0]);
}

#[test]
fn guide_address_matches_program_derived_address() {
    let p = program();
    let submitter = id(2);
    let (addr, bump) = guide_address(&p, &submitter, 3).unwrap();
    let program_key = anchor_lang::prelude::Pubkey::new_from_array(p.bytes);
    let (expected, expected_bump) = anchor_lang::prelude::Pubkey::find_program_address(
        &[b"guide", &[2u8; 32], &3u64.to_le_bytes()],
        &program_key,
    );
    assert_eq!(addr.bytes, expected.to_bytes());
    assert_eq!(bump, expected_bump);
    assert_ne!(addr.bytes, p.bytes);
    let (again, _) = guide_address(&p, &submitter, 3).unwrap();
    assert_eq!(again.bytes, addr.bytes);
}

#[test]
fn same_as_compares_all_bytes() {
    let mut bytes = [1u8; 32];
    assert!(id(1).same_as(&Identity::new(bytes)));
    bytes[31] = 2;
    assert!(!id(1).same_as(&Identity::new(bytes)));
}

#[test]
fn error_messages() {
    assert_eq!(ErrorCode::Unauthorized.message(), "You are not authorized to perform this action");
    assert_eq!(ErrorCode::InvalidGuideStatus.message(), "Invalid guide status for this operation");
    assert_eq!(ErrorCode::MissingAgencyInformation.message(), "Missing required agency information");
}

#[test]
fn well_formed_registry_is_recognised() {
    let mut reg = ready(id(1));
    submit(&mut reg, id(2), AffiliationType::Freelance, None, None).unwrap();
    approve_verification(&mut reg, &ApproveVerification { authority: id(1) }, id(2), 0, 9).unwrap();
    assert!(reg.is_well_formed());
    reg.guides[0].approved_at = None;
    assert!(!reg.is_well_formed());
}

#[test]
fn counter_out_of_step_is_not_well_formed() {
    let mut reg = ready(id(1));
    submit(&mut reg, id(2), AffiliationType::Freelance, None, None).unwrap();
    assert!(reg.is_well_formed());
    reg.admin_account.as_mut().unwrap().guides_count = 5;
    assert!(!reg.is_well_formed());
}

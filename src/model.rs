//! Records, statuses, events and errors of the verification registry.

use vstd::prelude::*;
use crate::address::Identity;

verus! {

/// Where a guide record stands in review.
#[derive(Clone, Copy, Debug, PartialEq, Eq, Structural)]
pub enum VerificationStatus {
    Pending,
    Approved,
    Rejected,
}

/// Whether a guide works alone or for an agency.
#[derive(Clone, Copy, Debug, PartialEq, Eq, Structural)]
pub enum AffiliationType {
    Freelance,
    Agency,
}

/// The registry's singleton: its administrator and the number of records filed.
#[derive(Clone, Copy, Debug)]
pub struct AdminAccount {
    pub authority: Identity,
    pub guides_count: u64,
}

/// One verification filing.
#[derive(Debug)]
pub struct GuideAccount {
    pub authority: Identity,
    pub ic_number: String,
    pub name: String,
    pub email: String,
    pub phone: String,
    pub wallet_address: String,
    pub license_uri: String,
    pub photo_id_uri: String,
    pub attachment_uri: Option<String>,
    pub affiliation_type: AffiliationType,
    pub agency_name: Option<String>,
    pub offer_letter_uri: Option<String>,
    pub status: VerificationStatus,
    pub approved_at: Option<i64>,
    pub index: u64,
    pub bump: u8,
}

/// Emitted when a record is filed.
#[derive(Debug)]
pub struct VerificationSubmittedEvent {
    pub guide: Identity,
    pub submitter: Identity,
    pub name: String,
    pub status: VerificationStatus,
}

/// Emitted when a record is approved or rejected.
#[derive(Clone, Copy, Debug)]
pub struct VerificationStatusUpdatedEvent {
    pub guide: Identity,
    pub authority: Identity,
    pub status: VerificationStatus,
}

/// Why an operation failed; a failed operation changes nothing.
#[derive(Clone, Copy, Debug, PartialEq, Eq, Structural)]
pub enum ErrorCode {
    /// The caller is not the registry's administrator.
    Unauthorized,
    /// The record is no longer pending.
    InvalidGuideStatus,
    /// An agency filing lacks the agency name or the offer letter.
    MissingAgencyInformation,
    /// The registry has been initialized already.
    AlreadyInitialized,
    /// The record counter is at its largest value.
    CounterOverflow,
    /// The registry has not been initialized.
    NotInitialized,
    /// No record is stored under the given submitter and index.
    GuideNotFound,
    /// No address can be derived for the new record.
    AddressUnavailable,
}

impl ErrorCode {
    /// The message shown for the error.
    pub fn message(&self) -> (r: &'static str) {
        match self {
            ErrorCode::Unauthorized => "You are not authorized to perform this action",
            ErrorCode::InvalidGuideStatus => "Invalid guide status for this operation",
            ErrorCode::MissingAgencyInformation => "Missing required agency information",
            ErrorCode::AlreadyInitialized => "The registry is already initialized",
            ErrorCode::CounterOverflow => "The guide counter would overflow",
            ErrorCode::NotInitialized => "The registry is not initialized",
            ErrorCode::GuideNotFound => "No guide record at this address",
            ErrorCode::AddressUnavailable => "No address can be derived for the guide record",
        }
    }
}

/// The signer of `initialize`, who becomes the administrator.
#[derive(Clone, Copy, Debug)]
pub struct Initialize {
    pub authority: Identity,
}

/// The signer of `submit_verification`, who files the record.
#[derive(Clone, Copy, Debug)]
pub struct SubmitVerification {
    pub authority: Identity,
}

/// The signer of `approve_verification` or `reject_verification`.
#[derive(Clone, Copy, Debug)]
pub struct ApproveVerification {
    pub authority: Identity,
}

} // verus!

use vstd::prelude::*;

verus! {

/// Every way an instruction of the registries can be refused.
#[derive(Debug, Clone, Copy, PartialEq, Eq, Structural)]
pub enum ApexError {
    InvalidDomain,
    InvalidDomainHash,
    InvalidNextAgentId,
    InvalidNextCampaignId,
    InvalidNextAdId,
    Unauthorized,
    InvalidAgentAuthority,
    CampaignAlreadyExpired,
    InvalidTimeRange,
    InvalidBudgetAmount,
    InvalidCpaAmount,
    CampaignNotActive,
    CampaignStillActive,
    InsufficientBudget,
    ActionAlreadyProcessed,
    InvalidStartTime,
    MetadataTooLarge,
    SpecTooLarge,
    ValidationRequestNotFound,
    ValidationRequestExpired,
    ValidationAlreadyResponded,
    InvalidValidationResponse,
    InvalidRegistrationFee,
    Overflow,
}

} // verus!

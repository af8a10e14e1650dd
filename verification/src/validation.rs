use vstd::prelude::*;

use crate::constants::VALIDATION_EXPIRATION_SLOTS;
use crate::errors::ApexError;
use crate::keys::{bytes32_eq, is_zero32, is_zero_bytes, zero_bytes32, zero_key, Pubkey};
use crate::state::{AgentInfo, ValidationRequestAccount};

verus! {

/// What `validation_request` reads and writes: the request account for the
/// data hash (all zero when it was never filled) and its bump.
#[derive(Debug, Clone, PartialEq, Eq)]
pub struct ValidationRequest {
    pub validation_request: ValidationRequestAccount,
    pub validation_request_bump: u8,
}

/// A request is live at `slot` when it was filled and has not expired yet.
pub open spec fn request_is_live(request: ValidationRequestAccount, slot: u64) -> bool {
    !is_zero_bytes(request.data_hash@) && slot <= request.expiry_slot
}

/// A fresh request made at `slot`: unanswered, expiring
/// `VALIDATION_EXPIRATION_SLOTS` slots later, with the default responder.
pub open spec fn fresh_request(
    request: ValidationRequestAccount,
    validator_agent_id: u64,
    server_agent_id: u64,
    data_hash: [u8; 32],
    slot: u64,
    bump: u8,
) -> bool {
    &&& request == (ValidationRequestAccount {
        validator_agent_id: validator_agent_id,
        server_agent_id: server_agent_id,
        data_hash: data_hash,
        requested_slot: slot,
        expiry_slot: (slot + VALIDATION_EXPIRATION_SLOTS) as u64,
        responded: false,
        response: 0,
        responder: request.responder,
        bump: bump,
    })
    &&& request.responder@ == zero_bytes32()
}

/// Asks, at `slot`, for a validator agent to score a server agent's work
/// identified by `data_hash`. A request that is still live is left as it
/// is; otherwise the account is (re)filled with a fresh request, unless the
/// expiry slot would overflow.
pub fn validation_request(
    ctx: &mut ValidationRequest,
    validator_agent_id: u64,
    server_agent_id: u64,
    data_hash: [u8; 32],
    slot: u64,
) -> (r: Result<(), ApexError>)
    ensures
        request_is_live(old(ctx).validation_request, slot) ==> r == Ok::<(), ApexError>(()) && *final(ctx)
            == *old(ctx),
        !request_is_live(old(ctx).validation_request, slot) && slot + VALIDATION_EXPIRATION_SLOTS
            > u64::MAX ==> r == Err::<(), ApexError>(ApexError::Overflow) && *final(ctx) == *old(ctx),
        !request_is_live(old(ctx).validation_request, slot) && slot + VALIDATION_EXPIRATION_SLOTS
            <= u64::MAX ==> {
            &&& r == Ok::<(), ApexError>(())
            &&& final(ctx).validation_request_bump == old(ctx).validation_request_bump
            &&& fresh_request(
                final(ctx).validation_request,
                validator_agent_id,
                server_agent_id,
                data_hash,
                slot,
                old(ctx).validation_request_bump,
            )
        },
{
    if !is_zero32(&ctx.validation_request.data_hash) && slot <= ctx.validation_request.expiry_slot {
        return Ok(());
    }
    let expiry = match slot.checked_add(VALIDATION_EXPIRATION_SLOTS) {
        Some(v) => v,
        None => return Err(ApexError::Overflow),
    };
    ctx.validation_request.validator_agent_id = validator_agent_id;
    ctx.validation_request.server_agent_id = server_agent_id;
    ctx.validation_request.data_hash = data_hash;
    ctx.validation_request.requested_slot = slot;
    ctx.validation_request.expiry_slot = expiry;
    ctx.validation_request.responded = false;
    ctx.validation_request.response = 0;
    ctx.validation_request.responder = zero_key();
    ctx.validation_request.bump = ctx.validation_request_bump;
    Ok(())
}

/// What `validation_response` reads and writes: the validator's authority
/// that signs, the request account and the validator agent it names.
#[derive(Debug, Clone, PartialEq, Eq)]
pub struct ValidationResponse {
    pub validator_authority: Pubkey,
    pub validation_request: ValidationRequestAccount,
    pub validator_agent: AgentInfo,
}

/// The first rule that a response breaks, if any, in the order in which
/// they are checked: a score is at most 100, the request must exist, be
/// unexpired and unanswered, and the signer must be the validator agent's
/// authority.
pub open spec fn validation_response_error(ctx: ValidationResponse, response: u8, slot: u64) -> Option<
    ApexError,
> {
    if response > 100 {
        Some(ApexError::InvalidValidationResponse)
    } else if is_zero_bytes(ctx.validation_request.data_hash@) {
        Some(ApexError::ValidationRequestNotFound)
    } else if slot > ctx.validation_request.expiry_slot {
        Some(ApexError::ValidationRequestExpired)
    } else if ctx.validation_request.responded {
        Some(ApexError::ValidationAlreadyResponded)
    } else if ctx.validator_agent.authority@ != ctx.validator_authority@ {
        Some(ApexError::Unauthorized)
    } else {
        None
    }
}

/// The accounts after a response: the request is answered with the score,
/// and the signer is recorded as the responder.
pub open spec fn answered(ctx: ValidationResponse, response: u8) -> ValidationResponse {
    ValidationResponse {
        validation_request: ValidationRequestAccount {
            responded: true,
            response: response,
            responder: ctx.validator_authority,
            ..ctx.validation_request
        },
        ..ctx
    }
}

/// Answers a validation request at `slot` with a score from 0 to 100; on
/// failure nothing changes.
pub fn validation_response(
    ctx: &mut ValidationResponse,
    _data_hash: [u8; 32],
    response: u8,
    slot: u64,
) -> (r: Result<(), ApexError>)
    ensures
        match validation_response_error(*old(ctx), response, slot) {
            Some(e) => r == Err::<(), ApexError>(e) && *final(ctx) == *old(ctx),
            None => r == Ok::<(), ApexError>(()) && *final(ctx) == answered(*old(ctx), response),
        },
{
    if !(response <= 100) {
        return Err(ApexError::InvalidValidationResponse);
    }
    if is_zero32(&ctx.validation_request.data_hash) {
        return Err(ApexError::ValidationRequestNotFound);
    }
    if !(slot <= ctx.validation_request.expiry_slot) {
        return Err(ApexError::ValidationRequestExpired);
    }
    if ctx.validation_request.responded {
        return Err(ApexError::ValidationAlreadyResponded);
    }
    if !bytes32_eq(&ctx.validator_agent.authority, &ctx.validator_authority) {
        return Err(ApexError::Unauthorized);
    }
    ctx.validation_request.responded = true;
    ctx.validation_request.response = response;
    ctx.validation_request.responder = ctx.validator_authority;
    Ok(())
}

/// A request is answered at most once: once a response has been accepted,
/// every later response to the same request is refused, and a well-scored
/// one made before expiry is refused as already answered.
pub proof fn request_answered_at_most_once(
    ctx: ValidationResponse,
    response: u8,
    slot: u64,
    later: ValidationResponse,
    later_response: u8,
    later_slot: u64,
)
    requires
        validation_response_error(ctx, response, slot) is None,
        later.validation_request == answered(ctx, response).validation_request,
    ensures
        validation_response_error(later, later_response, later_slot) is Some,
        later_response <= 100 && later_slot <= ctx.validation_request.expiry_slot
            ==> validation_response_error(later, later_response, later_slot) == Some(
            ApexError::ValidationAlreadyResponded,
        ),
{
}

/// An accepted score is at most 100, and the request records who gave it.
pub proof fn accepted_score_in_range(ctx: ValidationResponse, response: u8, slot: u64)
    requires
        validation_response_error(ctx, response, slot) is None,
    ensures
        answered(ctx, response).validation_request.response <= 100,
        answered(ctx, response).validation_request.responded,
        answered(ctx, response).validation_request.responder == ctx.validator_authority,
{
}

/// A fresh request for a non-zero data hash stays live, and so cannot be
/// replaced by another request, through the whole window of
/// `VALIDATION_EXPIRATION_SLOTS` slots after it was made.
pub proof fn fresh_request_stays_live(
    request: ValidationRequestAccount,
    validator_agent_id: u64,
    server_agent_id: u64,
    data_hash: [u8; 32],
    slot: u64,
    bump: u8,
    later_slot: u64,
)
    requires
        fresh_request(request, validator_agent_id, server_agent_id, data_hash, slot, bump),
        slot + VALIDATION_EXPIRATION_SLOTS <= u64::MAX,
        !is_zero_bytes(data_hash@),
        later_slot <= slot + VALIDATION_EXPIRATION_SLOTS,
    ensures
        request_is_live(request, later_slot),
{
}

} // verus!

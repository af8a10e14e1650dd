use apex_solana::errors::ApexError;
use apex_solana::state::{AgentInfo, ValidationRequestAccount};
use apex_solana::validation::{validation_request, validation_response, ValidationRequest, ValidationResponse};

fn key(b: u8) -> [u8; 32] {
    [b; 32]
}

fn empty_request() -> ValidationRequestAccount {
    ValidationRequestAccount {
        validator_agent_id: 0,
        server_agent_id: 0,
        data_hash: [0u8; 32],
        requested_slot: 0,
        expiry_slot: 0,
        responded: false,
        response: 0,
        responder: [0u8; 32],
        bump: 0,
    }
}

fn responder_ctx(request: ValidationRequestAccount, signer: [u8; 32]) -> ValidationResponse {
    ValidationResponse {
        validator_authority: signer,
        validation_request: request,
        validator_agent: AgentInfo { agent_id: 4, agent_domain: "validator.example".to_string(), authority: key(4), bump: 0 },
    }
}

#[test]
fn validation_request_fills_an_empty_account() {
    let mut ctx = ValidationRequest { validation_request: empty_request(), validation_request_bump: 200 };
    assert_eq!(validation_request(&mut ctx, 4, 5, key(6), 1_000), Ok(()));
    assert_eq!(
        ctx.validation_request,
        ValidationRequestAccount {
            validator_agent_id: 4,
            server_agent_id: 5,
            data_hash: key(6),
            requested_slot: 1_000,
            expiry_slot: 2_000,
            responded: false,
            response: 0,
            responder: [0u8; 32],
            bump: 200,
        }
    );
}

#[test]
fn validation_request_keeps_a_live_request_and_renews_an_expired_one() {
    let mut ctx = ValidationRequest { validation_request: empty_request(), validation_request_bump: 200 };
    validation_request(&mut ctx, 4, 5, key(6), 1_000).unwrap();
    let mut answer = responder_ctx(ctx.validation_request.clone(), key(4));
    validation_response(&mut answer, key(6), 90, 1_500).unwrap();
    ctx.validation_request = answer.validation_request.clone();
    let answered = ctx.clone();
    // still live at the expiry slot itself: nothing changes, the answer stays
    assert_eq!(validation_request(&mut ctx, 7, 8, key(6), 2_000), Ok(()));
    assert_eq!(ctx, answered);
    // one slot later the request is renewed
    assert_eq!(validation_request(&mut ctx, 7, 8, key(6), 2_001), Ok(()));
    assert_eq!(ctx.validation_request.validator_agent_id, 7);
    assert_eq!(ctx.validation_request.requested_slot, 2_001);
    assert_eq!(ctx.validation_request.expiry_slot, 3_001);
    assert!(!ctx.validation_request.responded);
    assert_eq!(ctx.validation_request.response, 0);
    assert_eq!(ctx.validation_request.responder, [0u8; 32]);
}

#[test]
fn validation_request_expiry_overflow() {
    let mut ctx = ValidationRequest { validation_request: empty_request(), validation_request_bump: 1 };
    let before = ctx.clone();
    assert_eq!(validation_request(&mut ctx, 4, 5, key(6), u64::MAX - 999), Err(ApexError::Overflow));
    assert_eq!(ctx, before);
    assert_eq!(validation_request(&mut ctx, 4, 5, key(6), u64::MAX - 1_000), Ok(()));
    assert_eq!(ctx.validation_request.expiry_slot, u64::MAX);
}

fn live_request() -> ValidationRequestAccount {
    ValidationRequestAccount {
        validator_agent_id: 4,
        server_agent_id: 5,
        data_hash: key(6),
        requested_slot: 10,
        expiry_slot: 1_010,
        responded: false,
        response: 0,
        responder: [0u8; 32],
        bump: 2,
    }
}

#[test]
fn validation_response_records_the_score_once() {
    let mut ctx = responder_ctx(live_request(), key(4));
    assert_eq!(validation_response(&mut ctx, key(6), 100, 1_010), Ok(()));
    assert!(ctx.validation_request.responded);
    assert_eq!(ctx.validation_request.response, 100);
    assert_eq!(ctx.validation_request.responder, key(4));
    let before = ctx.clone();
    assert_eq!(validation_response(&mut ctx, key(6), 0, 20), Err(ApexError::ValidationAlreadyResponded));
    assert_eq!(ctx, before);
}

#[test]
fn validation_response_errors() {
    let check = |ctx: ValidationResponse, response: u8, slot: u64, want: ApexError| {
        let mut c = ctx.clone();
        assert_eq!(validation_response(&mut c, key(6), response, slot), Err(want));
        assert_eq!(c, ctx);
    };
    check(responder_ctx(live_request(), key(4)), 101, 20, ApexError::InvalidValidationResponse);
    check(responder_ctx(empty_request(), key(4)), 50, 0, ApexError::ValidationRequestNotFound);
    check(responder_ctx(live_request(), key(4)), 50, 1_011, ApexError::ValidationRequestExpired);
    check(responder_ctx(live_request(), key(9)), 50, 20, ApexError::Unauthorized);
}

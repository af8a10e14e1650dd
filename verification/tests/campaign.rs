use apex_solana::campaign::{
    create_campaign, process_action, update_campaign, withdraw_remaining_budget, CreateCampaign, ProcessAction,
    UpdateCampaign, WithdrawRemainingBudget,
};
use apex_solana::errors::ApexError;
use apex_solana::state::{AgentInfo, CampaignAccount, GlobalState, ProcessedAction};

fn key(b: u8) -> [u8; 32] {
    [b; 32]
}

fn agent(id: u64, authority: [u8; 32]) -> AgentInfo {
    AgentInfo { agent_id: id, agent_domain: format!("agent{}.example", id), authority, bump: 0 }
}

fn campaign(budget: u64, spent: u64, cpa: u64, start: i64, expiry: i64) -> CampaignAccount {
    CampaignAccount {
        campaign_id: 1,
        advertiser_id: 2,
        authority: key(1),
        budget_amount: budget,
        spent_amount: spent,
        cpa_amount: cpa,
        budget_mint: key(7),
        start_time: start,
        expiry_time: expiry,
        spec: vec![1, 2, 3],
        vault_bump: 3,
        bump: 4,
    }
}

fn blank_campaign() -> CampaignAccount {
    CampaignAccount {
        campaign_id: 0,
        advertiser_id: 0,
        authority: [0u8; 32],
        budget_amount: 0,
        spent_amount: 0,
        cpa_amount: 0,
        budget_mint: [0u8; 32],
        start_time: 0,
        expiry_time: 0,
        spec: Vec::new(),
        vault_bump: 0,
        bump: 0,
    }
}

fn create_ctx(campaign_count: u64) -> CreateCampaign {
    CreateCampaign {
        advertiser: key(1),
        state: GlobalState {
            authority: key(9),
            registration_fee_lamports: 0,
            agent_count: 5,
            campaign_count,
            ad_count: 0,
            bump: 1,
        },
        advertiser_agent: agent(2, key(1)),
        budget_mint: key(7),
        campaign: blank_campaign(),
        campaign_bump: 40,
        campaign_vault_bump: 41,
    }
}

fn process_ctx(c: CampaignAccount) -> ProcessAction {
    ProcessAction {
        validator: key(5),
        campaign: c,
        publisher_agent: agent(3, key(4)),
        validator_agent: agent(6, key(5)),
        publisher_token_mint: key(7),
        publisher_token_owner: key(4),
        processed_action: ProcessedAction {
            campaign_id: 0,
            publisher_id: 0,
            validator_id: 0,
            action_hash: [0u8; 32],
            payment_amount: 0,
            processed_at: 0,
            bump: 0,
        },
        processed_action_bump: 99,
    }
}

#[test]
fn remaining_budget_and_overspent_campaigns() {
    assert_eq!(campaign(100, 30, 10, 0, 10).remaining_budget(), Ok(70));
    assert_eq!(campaign(100, 100, 10, 0, 10).remaining_budget(), Ok(0));
    assert_eq!(campaign(100, 101, 10, 0, 10).remaining_budget(), Err(ApexError::Overflow));
}

#[test]
fn is_active_window_and_budget() {
    let c = campaign(100, 30, 10, 5, 50);
    assert_eq!(c.is_active(4), Ok(false));
    assert_eq!(c.is_active(5), Ok(true));
    assert_eq!(c.is_active(49), Ok(true));
    assert_eq!(c.is_active(50), Ok(false));
    assert_eq!(campaign(100, 95, 10, 5, 50).is_active(10), Ok(false));
    assert_eq!(campaign(100, 90, 10, 5, 50).is_active(10), Ok(true));
    // an overspent campaign is an error inside the window only
    assert_eq!(campaign(100, 101, 10, 5, 50).is_active(10), Err(ApexError::Overflow));
    assert_eq!(campaign(100, 101, 10, 5, 50).is_active(60), Ok(false));
}

#[test]
fn create_campaign_funds_the_escrow() {
    let mut ctx = create_ctx(0);
    let r = create_campaign(&mut ctx, 1, 2, 1_000, 25, 10, 500, vec![9, 9], 100);
    assert_eq!(r, Ok(1_000));
    assert_eq!(
        ctx.campaign,
        CampaignAccount {
            campaign_id: 1,
            advertiser_id: 2,
            authority: key(1),
            budget_amount: 1_000,
            spent_amount: 0,
            cpa_amount: 25,
            budget_mint: key(7),
            start_time: 10,
            expiry_time: 500,
            spec: vec![9, 9],
            vault_bump: 41,
            bump: 40,
        }
    );
    assert_eq!(ctx.state.campaign_count, 1);
    assert_eq!(ctx.campaign.remaining_budget(), Ok(1_000));
}

#[test]
fn create_campaign_errors() {
    let base = create_ctx(0);
    let run = |budget: u64, cpa: u64, start: i64, expiry: i64, spec_len: usize, now: i64, id: u64, ctx: &CreateCampaign| {
        let mut c = ctx.clone();
        let r = create_campaign(&mut c, id, 2, budget, cpa, start, expiry, vec![0u8; spec_len], now);
        if r.is_err() {
            assert_eq!(&c, ctx);
        }
        r
    };
    assert_eq!(run(0, 1, 0, 10, 0, 0, 1, &base), Err(ApexError::InvalidBudgetAmount));
    assert_eq!(run(10, 0, 0, 10, 0, 0, 1, &base), Err(ApexError::InvalidCpaAmount));
    assert_eq!(run(10, 11, 0, 10, 0, 0, 1, &base), Err(ApexError::InvalidCpaAmount));
    assert_eq!(run(10, 10, 10, 10, 0, 0, 1, &base), Err(ApexError::InvalidTimeRange));
    assert_eq!(run(10, 10, 0, 10, 0, 10, 1, &base), Err(ApexError::CampaignAlreadyExpired));
    assert_eq!(run(10, 10, 0, 10, 2049, 0, 1, &base), Err(ApexError::SpecTooLarge));
    assert_eq!(run(10, 10, 0, 10, 2048, 0, 1, &base), Ok(10));
    let mut stranger = base.clone();
    stranger.advertiser = key(8);
    assert_eq!(run(10, 10, 0, 10, 0, 0, 1, &stranger), Err(ApexError::Unauthorized));
    assert_eq!(run(10, 10, 0, 10, 0, 0, 2, &base), Err(ApexError::InvalidNextCampaignId));
    let full = create_ctx(u64::MAX);
    assert_eq!(run(10, 10, 0, 10, 0, 0, 0, &full), Err(ApexError::Overflow));
}

#[test]
fn process_action_pays_one_cpa() {
    let mut ctx = process_ctx(campaign(100, 30, 10, 5, 50));
    let hash = [0xabu8; 32];
    assert_eq!(process_action(&mut ctx, 1, 3, 6, hash, 20), Ok(10));
    assert_eq!(ctx.campaign.spent_amount, 40);
    assert_eq!(
        ctx.processed_action,
        ProcessedAction {
            campaign_id: 1,
            publisher_id: 3,
            validator_id: 6,
            action_hash: hash,
            payment_amount: 10,
            processed_at: 20,
            bump: 99,
        }
    );
}

#[test]
fn process_action_errors() {
    let check = |ctx: ProcessAction, now: i64, want: ApexError| {
        let mut c = ctx.clone();
        assert_eq!(process_action(&mut c, 1, 3, 6, [1u8; 32], now), Err(want));
        assert_eq!(c, ctx);
    };
    let good = process_ctx(campaign(100, 30, 10, 5, 50));
    let mut wrong_validator = good.clone();
    wrong_validator.validator = key(8);
    check(wrong_validator, 20, ApexError::Unauthorized);
    let mut wrong_mint = good.clone();
    wrong_mint.publisher_token_mint = key(8);
    check(wrong_mint, 20, ApexError::Unauthorized);
    let mut wrong_owner = good.clone();
    wrong_owner.publisher_token_owner = key(8);
    check(wrong_owner, 20, ApexError::InvalidAgentAuthority);
    check(good.clone(), 4, ApexError::CampaignNotActive);
    check(good.clone(), 50, ApexError::CampaignNotActive);
    check(process_ctx(campaign(100, 95, 10, 5, 50)), 20, ApexError::CampaignNotActive);
    check(process_ctx(campaign(100, 101, 10, 5, 50)), 20, ApexError::Overflow);
}

#[test]
fn escrow_tracks_the_remaining_budget_to_the_end() {
    // deposit, pay until the budget no longer covers an action, then withdraw
    let mut create = create_ctx(0);
    let deposit = create_campaign(&mut create, 1, 2, 105, 25, 10, 500, vec![], 100).unwrap();
    let mut vault = deposit;
    let mut pay = process_ctx(create.campaign.clone());
    let mut paid = 0;
    while let Ok(amount) = process_action(&mut pay, 1, 3, 6, [2u8; 32], 200) {
        vault -= amount;
        paid += 1;
        assert_eq!(Ok(vault), pay.campaign.remaining_budget());
    }
    assert_eq!(paid, 4);
    assert_eq!(vault, 5);
    let mut w = WithdrawRemainingBudget { advertiser: key(1), campaign: pay.campaign.clone() };
    assert_eq!(withdraw_remaining_budget(&mut w, 1, 499), Err(ApexError::CampaignStillActive));
    assert_eq!(withdraw_remaining_budget(&mut w, 1, 500), Ok(vault));
    assert_eq!(w.campaign.remaining_budget(), Ok(0));
    assert_eq!(w.campaign.spent_amount, 105);
    // closed for good
    assert_eq!(withdraw_remaining_budget(&mut w, 1, 900), Err(ApexError::InsufficientBudget));
    assert_eq!(w.campaign.is_active(200), Ok(false));
    let mut after = process_ctx(w.campaign.clone());
    assert_eq!(process_action(&mut after, 1, 3, 6, [3u8; 32], 200), Err(ApexError::CampaignNotActive));
}

#[test]
fn withdraw_errors() {
    let mut w = WithdrawRemainingBudget { advertiser: key(8), campaign: campaign(100, 30, 10, 5, 50) };
    assert_eq!(withdraw_remaining_budget(&mut w, 1, 60), Err(ApexError::Unauthorized));
    let mut w = WithdrawRemainingBudget { advertiser: key(1), campaign: campaign(100, 101, 10, 5, 50) };
    assert_eq!(withdraw_remaining_budget(&mut w, 1, 60), Err(ApexError::Overflow));
    let mut w = WithdrawRemainingBudget { advertiser: key(1), campaign: campaign(100, 30, 10, 5, 50) };
    assert_eq!(withdraw_remaining_budget(&mut w, 1, 49), Err(ApexError::CampaignStillActive));
    assert_eq!(withdraw_remaining_budget(&mut w, 1, 50), Ok(70));
}

#[test]
fn update_campaign_changes_terms_only() {
    let mut ctx = UpdateCampaign { advertiser: key(1), campaign: campaign(100, 30, 10, 5, 50) };
    assert_eq!(update_campaign(&mut ctx, 1, 70, 6, 80, vec![4], 20), Ok(()));
    let mut want = campaign(100, 30, 70, 6, 80);
    want.spec = vec![4];
    assert_eq!(ctx.campaign, want);
}

#[test]
fn update_campaign_errors() {
    let check = |ctx: UpdateCampaign, cpa: u64, start: i64, expiry: i64, spec_len: usize, now: i64, want: ApexError| {
        let mut c = ctx.clone();
        assert_eq!(update_campaign(&mut c, 1, cpa, start, expiry, vec![0u8; spec_len], now), Err(want));
        assert_eq!(c, ctx);
    };
    let good = UpdateCampaign { advertiser: key(1), campaign: campaign(100, 30, 10, 5, 50) };
    check(good.clone(), 10, 5, 60, 2049, 20, ApexError::SpecTooLarge);
    check(good.clone(), 10, 60, 60, 0, 20, ApexError::InvalidTimeRange);
    check(good.clone(), 10, 5, 60, 0, 60, ApexError::CampaignAlreadyExpired);
    let mut stranger = good.clone();
    stranger.advertiser = key(2);
    check(stranger, 10, 5, 60, 0, 20, ApexError::Unauthorized);
    check(good.clone(), 0, 5, 60, 0, 20, ApexError::InvalidCpaAmount);
    check(good.clone(), 71, 5, 60, 0, 20, ApexError::InvalidCpaAmount);
    let overspent = UpdateCampaign { advertiser: key(1), campaign: campaign(100, 101, 10, 5, 50) };
    check(overspent, 10, 5, 60, 0, 20, ApexError::Overflow);
}

#[test]
fn refund_happens_once_even_after_other_calls() {
    let mut w = WithdrawRemainingBudget { advertiser: key(1), campaign: campaign(100, 30, 10, 5, 50) };
    assert_eq!(withdraw_remaining_budget(&mut w, 1, 60), Ok(70));
    // an update cannot bring the budget back: no cost per action fits in nothing
    let mut u = UpdateCampaign { advertiser: key(1), campaign: w.campaign.clone() };
    assert_eq!(update_campaign(&mut u, 1, 10, 70, 200, vec![], 65), Err(ApexError::InvalidCpaAmount));
    let mut p = process_ctx(u.campaign.clone());
    assert_eq!(process_action(&mut p, 1, 3, 6, [4u8; 32], 40), Err(ApexError::CampaignNotActive));
    let mut again = WithdrawRemainingBudget { advertiser: key(1), campaign: p.campaign.clone() };
    assert_eq!(withdraw_remaining_budget(&mut again, 1, 70), Err(ApexError::InsufficientBudget));
    let mut stranger = WithdrawRemainingBudget { advertiser: key(2), campaign: p.campaign.clone() };
    assert_eq!(withdraw_remaining_budget(&mut stranger, 1, 70), Err(ApexError::Unauthorized));
}

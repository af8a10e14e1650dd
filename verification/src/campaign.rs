use vstd::prelude::*;

use crate::constants::MAX_CAMPAIGN_SPEC_LEN;
use crate::errors::ApexError;
use crate::keys::{bytes32_eq, Pubkey};
use crate::state::{AgentInfo, CampaignAccount, GlobalState, ProcessedAction};

verus! {

/// What `create_campaign` reads and writes: the advertiser that signs, the
/// global counters, the advertiser's agent, the budget token's mint, the
/// new campaign account, and the bump seeds found for the campaign and its
/// vault.
#[derive(Debug, Clone, PartialEq, Eq)]
pub struct CreateCampaign {
    pub advertiser: Pubkey,
    pub state: GlobalState,
    pub advertiser_agent: AgentInfo,
    pub budget_mint: Pubkey,
    pub campaign: CampaignAccount,
    pub campaign_bump: u8,
    pub campaign_vault_bump: u8,
}

/// The first rule that a campaign creation breaks, if any, in the order
/// in which they are checked.
pub open spec fn create_campaign_error(
    ctx: CreateCampaign,
    next_campaign_id: u64,
    budget_amount: u64,
    cpa_amount: u64,
    start_time: i64,
    expiry_time: i64,
    spec_len: nat,
    now: i64,
) -> Option<ApexError> {
    if budget_amount == 0 {
        Some(ApexError::InvalidBudgetAmount)
    } else if cpa_amount == 0 || cpa_amount > budget_amount {
        Some(ApexError::InvalidCpaAmount)
    } else if start_time >= expiry_time {
        Some(ApexError::InvalidTimeRange)
    } else if expiry_time <= now {
        Some(ApexError::CampaignAlreadyExpired)
    } else if spec_len > MAX_CAMPAIGN_SPEC_LEN {
        Some(ApexError::SpecTooLarge)
    } else if ctx.advertiser_agent.authority@ != ctx.advertiser@ {
        Some(ApexError::Unauthorized)
    } else if ctx.state.campaign_count == u64::MAX {
        Some(ApexError::Overflow)
    } else if next_campaign_id != ctx.state.campaign_count + 1 {
        Some(ApexError::InvalidNextCampaignId)
    } else {
        None
    }
}

/// The accounts after a successful creation: the campaign holds the given
/// terms with nothing spent, belongs to the signer, and the campaign
/// counter has moved to the new id.
pub open spec fn created_campaign(
    ctx: CreateCampaign,
    next_campaign_id: u64,
    advertiser_id: u64,
    budget_amount: u64,
    cpa_amount: u64,
    start_time: i64,
    expiry_time: i64,
    spec: Vec<u8>,
) -> CreateCampaign {
    CreateCampaign {
        state: GlobalState { campaign_count: next_campaign_id, ..ctx.state },
        campaign: CampaignAccount {
            campaign_id: next_campaign_id,
            advertiser_id: advertiser_id,
            authority: ctx.advertiser,
            budget_amount: budget_amount,
            spent_amount: 0,
            cpa_amount: cpa_amount,
            budget_mint: ctx.budget_mint,
            start_time: start_time,
            expiry_time: expiry_time,
            spec: spec,
            vault_bump: ctx.campaign_vault_bump,
            bump: ctx.campaign_bump,
        },
        ..ctx
    }
}

/// Opens a campaign at time `now`. On success the returned amount, the
/// whole budget, is what the caller moves from the advertiser's token
/// account into the campaign vault; on failure nothing changes.
pub fn create_campaign(
    ctx: &mut CreateCampaign,
    next_campaign_id: u64,
    advertiser_id: u64,
    budget_amount: u64,
    cpa_amount: u64,
    start_time: i64,
    expiry_time: i64,
    spec: Vec<u8>,
    now: i64,
) -> (r: Result<u64, ApexError>)
    ensures
        match create_campaign_error(
            *old(ctx),
            next_campaign_id,
            budget_amount,
            cpa_amount,
            start_time,
            expiry_time,
            spec@.len(),
            now,
        ) {
            Some(e) => r == Err::<u64, ApexError>(e) && *final(ctx) == *old(ctx),
            None => r == Ok::<u64, ApexError>(budget_amount) && *final(ctx) == created_campaign(
                *old(ctx),
                next_campaign_id,
                advertiser_id,
                budget_amount,
                cpa_amount,
                start_time,
                expiry_time,
                spec,
            ),
        },
{
    if budget_amount == 0 {
        return Err(ApexError::InvalidBudgetAmount);
    }
    if !(cpa_amount > 0 && cpa_amount <= budget_amount) {
        return Err(ApexError::InvalidCpaAmount);
    }
    if !(start_time < expiry_time) {
        return Err(ApexError::InvalidTimeRange);
    }
    if !(expiry_time > now) {
        return Err(ApexError::CampaignAlreadyExpired);
    }
    if spec.len() > MAX_CAMPAIGN_SPEC_LEN {
        return Err(ApexError::SpecTooLarge);
    }
    if !bytes32_eq(&ctx.advertiser_agent.authority, &ctx.advertiser) {
        return Err(ApexError::Unauthorized);
    }
    let expected_id = match ctx.state.campaign_count.checked_add(1) {
        Some(v) => v,
        None => return Err(ApexError::Overflow),
    };
    if next_campaign_id != expected_id {
        return Err(ApexError::InvalidNextCampaignId);
    }
    ctx.campaign.campaign_id = next_campaign_id;
    ctx.campaign.advertiser_id = advertiser_id;
    ctx.campaign.authority = ctx.advertiser;
    ctx.campaign.budget_amount = budget_amount;
    ctx.campaign.spent_amount = 0;
    ctx.campaign.cpa_amount = cpa_amount;
    ctx.campaign.budget_mint = ctx.budget_mint;
    ctx.campaign.start_time = start_time;
    ctx.campaign.expiry_time = expiry_time;
    ctx.campaign.spec = spec;
    ctx.campaign.vault_bump = ctx.campaign_vault_bump;
    ctx.campaign.bump = ctx.campaign_bump;
    ctx.state.campaign_count = expected_id;
    Ok(budget_amount)
}

/// What `update_campaign` reads and writes: the advertiser that signs and
/// the campaign.
#[derive(Debug, Clone, PartialEq, Eq)]
pub struct UpdateCampaign {
    pub advertiser: Pubkey,
    pub campaign: CampaignAccount,
}

/// The first rule that a campaign update breaks, if any, in the order in
/// which they are checked. The new cost per action must be positive and
/// covered by what is left of the budget.
pub open spec fn update_campaign_error(
    ctx: UpdateCampaign,
    cpa_amount: u64,
    start_time: i64,
    expiry_time: i64,
    spec_len: nat,
    now: i64,
) -> Option<ApexError> {
    if spec_len > MAX_CAMPAIGN_SPEC_LEN {
        Some(ApexError::SpecTooLarge)
    } else if start_time >= expiry_time {
        Some(ApexError::InvalidTimeRange)
    } else if expiry_time <= now {
        Some(ApexError::CampaignAlreadyExpired)
    } else if ctx.campaign.authority@ != ctx.advertiser@ {
        Some(ApexError::Unauthorized)
    } else {
        match ctx.campaign.spec_remaining_budget() {
            Err(e) => Some(e),
            Ok(rem) => if cpa_amount == 0 || cpa_amount > rem {
                Some(ApexError::InvalidCpaAmount)
            } else {
                None
            },
        }
    }
}

/// The accounts after a successful update: new cost per action, window and
/// spec; budget, spending and ownership as they were.
pub open spec fn updated_campaign(
    ctx: UpdateCampaign,
    cpa_amount: u64,
    start_time: i64,
    expiry_time: i64,
    spec: Vec<u8>,
) -> UpdateCampaign {
    UpdateCampaign {
        campaign: CampaignAccount {
            cpa_amount: cpa_amount,
            start_time: start_time,
            expiry_time: expiry_time,
            spec: spec,
            ..ctx.campaign
        },
        ..ctx
    }
}

/// Changes the terms of a campaign at time `now`; on failure nothing
/// changes.
pub fn update_campaign(
    ctx: &mut UpdateCampaign,
    _campaign_id: u64,
    cpa_amount: u64,
    start_time: i64,
    expiry_time: i64,
    spec: Vec<u8>,
    now: i64,
) -> (r: Result<(), ApexError>)
    ensures
        match update_campaign_error(*old(ctx), cpa_amount, start_time, expiry_time, spec@.len(), now) {
            Some(e) => r == Err::<(), ApexError>(e) && *final(ctx) == *old(ctx),
            None => r == Ok::<(), ApexError>(()) && *final(ctx) == updated_campaign(
                *old(ctx),
                cpa_amount,
                start_time,
                expiry_time,
                spec,
            ),
        },
{
    if spec.len() > MAX_CAMPAIGN_SPEC_LEN {
        return Err(ApexError::SpecTooLarge);
    }
    if !(start_time < expiry_time) {
        return Err(ApexError::InvalidTimeRange);
    }
    if !(expiry_time > now) {
        return Err(ApexError::CampaignAlreadyExpired);
    }
    if !bytes32_eq(&ctx.campaign.authority, &ctx.advertiser) {
        return Err(ApexError::Unauthorized);
    }
    let remaining = ctx.campaign.remaining_budget()?;
    if !(cpa_amount > 0 && cpa_amount <= remaining) {
        return Err(ApexError::InvalidCpaAmount);
    }
    ctx.campaign.cpa_amount = cpa_amount;
    ctx.campaign.start_time = start_time;
    ctx.campaign.expiry_time = expiry_time;
    ctx.campaign.spec = spec;
    Ok(())
}

/// What `process_action` reads and writes: the validator that signs, the
/// campaign, the publisher's and the validator's agents, the mint and owner
/// of the publisher's token account, the new action record and its bump.
#[derive(Debug, Clone, PartialEq, Eq)]
pub struct ProcessAction {
    pub validator: Pubkey,
    pub campaign: CampaignAccount,
    pub publisher_agent: AgentInfo,
    pub validator_agent: AgentInfo,
    pub publisher_token_mint: Pubkey,
    pub publisher_token_owner: Pubkey,
    pub processed_action: ProcessedAction,
    pub processed_action_bump: u8,
}

/// The first rule that paying for an action breaks, if any, in the order
/// in which they are checked: the signer must be the validator agent's
/// authority, the publisher's token account must hold the campaign's token
/// and belong to the publisher, and the campaign must be active with budget
/// left for one more action.
pub open spec fn process_action_error(ctx: ProcessAction, now: i64) -> Option<ApexError> {
    if ctx.validator_agent.authority@ != ctx.validator@ {
        Some(ApexError::Unauthorized)
    } else if ctx.publisher_token_mint@ != ctx.campaign.budget_mint@ {
        Some(ApexError::Unauthorized)
    } else if ctx.publisher_token_owner@ != ctx.publisher_agent.authority@ {
        Some(ApexError::InvalidAgentAuthority)
    } else {
        match ctx.campaign.spec_is_active(now) {
            Err(e) => Some(e),
            Ok(active) => if !active {
                Some(ApexError::CampaignNotActive)
            } else {
                match ctx.campaign.spec_remaining_budget() {
                    Err(e) => Some(e),
                    Ok(rem) => if rem < ctx.campaign.cpa_amount {
                        Some(ApexError::InsufficientBudget)
                    } else if ctx.campaign.spent_amount + ctx.campaign.cpa_amount > u64::MAX {
                        Some(ApexError::Overflow)
                    } else {
                        None
                    },
                }
            },
        }
    }
}

/// The accounts after a paid action: one more cost per action is spent,
/// and the action record holds the payment and the time.
pub open spec fn processed(
    ctx: ProcessAction,
    campaign_id: u64,
    publisher_id: u64,
    validator_id: u64,
    action_hash: [u8; 32],
    now: i64,
) -> ProcessAction {
    ProcessAction {
        campaign: CampaignAccount {
            spent_amount: (ctx.campaign.spent_amount + ctx.campaign.cpa_amount) as u64,
            ..ctx.campaign
        },
        processed_action: ProcessedAction {
            campaign_id: campaign_id,
            publisher_id: publisher_id,
            validator_id: validator_id,
            action_hash: action_hash,
            payment_amount: ctx.campaign.cpa_amount,
            processed_at: now,
            bump: ctx.processed_action_bump,
        },
        ..ctx
    }
}

/// Pays for one validated action at time `now`. On success the returned
/// amount, the campaign's cost per action, is what the caller moves from
/// the campaign vault to the publisher's token account; on failure nothing
/// changes.
pub fn process_action(
    ctx: &mut ProcessAction,
    campaign_id: u64,
    publisher_id: u64,
    validator_id: u64,
    action_hash: [u8; 32],
    now: i64,
) -> (r: Result<u64, ApexError>)
    ensures
        match process_action_error(*old(ctx), now) {
            Some(e) => r == Err::<u64, ApexError>(e) && *final(ctx) == *old(ctx),
            None => r == Ok::<u64, ApexError>(old(ctx).campaign.cpa_amount) && *final(ctx) == processed(
                *old(ctx),
                campaign_id,
                publisher_id,
                validator_id,
                action_hash,
                now,
            ),
        },
{
    if !bytes32_eq(&ctx.validator_agent.authority, &ctx.validator) {
        return Err(ApexError::Unauthorized);
    }
    if !bytes32_eq(&ctx.publisher_token_mint, &ctx.campaign.budget_mint) {
        return Err(ApexError::Unauthorized);
    }
    if !bytes32_eq(&ctx.publisher_token_owner, &ctx.publisher_agent.authority) {
        return Err(ApexError::InvalidAgentAuthority);
    }
    if !ctx.campaign.is_active(now)? {
        return Err(ApexError::CampaignNotActive);
    }
    if !(ctx.campaign.remaining_budget()? >= ctx.campaign.cpa_amount) {
        return Err(ApexError::InsufficientBudget);
    }
    let cpa = ctx.campaign.cpa_amount;
    let spent = match ctx.campaign.spent_amount.checked_add(cpa) {
        Some(v) => v,
        None => return Err(ApexError::Overflow),
    };
    ctx.campaign.spent_amount = spent;
    ctx.processed_action.campaign_id = campaign_id;
    ctx.processed_action.publisher_id = publisher_id;
    ctx.processed_action.validator_id = validator_id;
    ctx.processed_action.action_hash = action_hash;
    ctx.processed_action.payment_amount = cpa;
    ctx.processed_action.processed_at = now;
    ctx.processed_action.bump = ctx.processed_action_bump;
    Ok(cpa)
}

/// What `withdraw_remaining_budget` reads and writes: the advertiser that
/// signs and the campaign.
#[derive(Debug, Clone, PartialEq, Eq)]
pub struct WithdrawRemainingBudget {
    pub advertiser: Pubkey,
    pub campaign: CampaignAccount,
}

/// The first rule that a withdrawal breaks, if any, in the order in which
/// they are checked: only the campaign's owner, only once the campaign has
/// expired, and only when something is left.
pub open spec fn withdraw_error(ctx: WithdrawRemainingBudget, now: i64) -> Option<ApexError> {
    if ctx.campaign.authority@ != ctx.advertiser@ {
        Some(ApexError::Unauthorized)
    } else if now < ctx.campaign.expiry_time {
        Some(ApexError::CampaignStillActive)
    } else {
        match ctx.campaign.spec_remaining_budget() {
            Err(e) => Some(e),
            Ok(rem) => if rem == 0 {
                Some(ApexError::InsufficientBudget)
            } else {
                None
            },
        }
    }
}

/// The accounts after a withdrawal: the whole budget counts as spent.
pub open spec fn withdrawn(ctx: WithdrawRemainingBudget) -> WithdrawRemainingBudget {
    WithdrawRemainingBudget {
        campaign: CampaignAccount { spent_amount: ctx.campaign.budget_amount, ..ctx.campaign },
        ..ctx
    }
}

/// Gives the rest of an expired campaign's budget back to its advertiser at
/// time `now`. On success the returned amount, all that was left, is what
/// the caller moves from the campaign vault to the advertiser's token
/// account, and the whole budget counts as spent; on failure nothing
/// changes.
pub fn withdraw_remaining_budget(
    ctx: &mut WithdrawRemainingBudget,
    _campaign_id: u64,
    now: i64,
) -> (r: Result<u64, ApexError>)
    ensures
        match withdraw_error(*old(ctx), now) {
            Some(e) => r == Err::<u64, ApexError>(e) && *final(ctx) == *old(ctx),
            None => r == Ok::<u64, ApexError>(
                (old(ctx).campaign.budget_amount - old(ctx).campaign.spent_amount) as u64,
            ) && *final(ctx) == withdrawn(*old(ctx)),
        },
{
    if !bytes32_eq(&ctx.campaign.authority, &ctx.advertiser) {
        return Err(ApexError::Unauthorized);
    }
    if !(now >= ctx.campaign.expiry_time) {
        return Err(ApexError::CampaignStillActive);
    }
    let remaining = ctx.campaign.remaining_budget()?;
    if !(remaining > 0) {
        return Err(ApexError::InsufficientBudget);
    }
    ctx.campaign.spent_amount = ctx.campaign.budget_amount;
    Ok(remaining)
}

/// The escrow of a campaign holds exactly what is left of its budget: the
/// campaign is well formed and the vault balance is `budget - spent`.
pub open spec fn escrow_matches(campaign: CampaignAccount, vault_balance: int) -> bool {
    &&& campaign.well_formed()
    &&& vault_balance == campaign.budget_amount - campaign.spent_amount
}

/// A new campaign's escrow holds what was deposited: the returned deposit
/// equals the remaining budget, and the campaign is well formed.
pub proof fn create_campaign_funds_escrow(
    ctx: CreateCampaign,
    next_campaign_id: u64,
    advertiser_id: u64,
    budget_amount: u64,
    cpa_amount: u64,
    start_time: i64,
    expiry_time: i64,
    spec: Vec<u8>,
    now: i64,
)
    requires
        create_campaign_error(
            ctx,
            next_campaign_id,
            budget_amount,
            cpa_amount,
            start_time,
            expiry_time,
            spec@.len(),
            now,
        ) is None,
    ensures
        escrow_matches(
            created_campaign(
                ctx,
                next_campaign_id,
                advertiser_id,
                budget_amount,
                cpa_amount,
                start_time,
                expiry_time,
                spec,
            ).campaign,
            budget_amount as int,
        ),
        created_campaign(
            ctx,
            next_campaign_id,
            advertiser_id,
            budget_amount,
            cpa_amount,
            start_time,
            expiry_time,
            spec,
        ).state.campaign_count == ctx.state.campaign_count + 1,
{
}

/// Paying for an action keeps the escrow equal to the remaining budget: the
/// payment never exceeds the vault balance, and the vault after the payment
/// still holds exactly what is left.
pub proof fn process_action_keeps_escrow(
    ctx: ProcessAction,
    campaign_id: u64,
    publisher_id: u64,
    validator_id: u64,
    action_hash: [u8; 32],
    now: i64,
    vault_balance: int,
)
    requires
        escrow_matches(ctx.campaign, vault_balance),
        process_action_error(ctx, now) is None,
    ensures
        0 < ctx.campaign.cpa_amount <= vault_balance,
        escrow_matches(
            processed(ctx, campaign_id, publisher_id, validator_id, action_hash, now).campaign,
            vault_balance - ctx.campaign.cpa_amount,
        ),
{
}

/// Changing a campaign's terms leaves budget and spending alone, so the
/// escrow still matches; a successful update also makes the campaign well
/// formed whatever its cost per action was before.
pub proof fn update_campaign_keeps_escrow(
    ctx: UpdateCampaign,
    cpa_amount: u64,
    start_time: i64,
    expiry_time: i64,
    spec: Vec<u8>,
    now: i64,
)
    requires
        update_campaign_error(ctx, cpa_amount, start_time, expiry_time, spec@.len(), now) is None,
    ensures
        updated_campaign(ctx, cpa_amount, start_time, expiry_time, spec).campaign.well_formed(),
        updated_campaign(ctx, cpa_amount, start_time, expiry_time, spec).campaign.budget_amount
            == ctx.campaign.budget_amount,
        updated_campaign(ctx, cpa_amount, start_time, expiry_time, spec).campaign.spent_amount
            == ctx.campaign.spent_amount,
        forall|vault_balance: int|
            escrow_matches(ctx.campaign, vault_balance) ==> escrow_matches(
                #[trigger] updated_campaign(ctx, cpa_amount, start_time, expiry_time, spec).campaign,
                vault_balance,
            ),
{
}

/// A withdrawal pays out exactly what the escrow holds and leaves it empty.
pub proof fn withdraw_empties_escrow(ctx: WithdrawRemainingBudget, now: i64, vault_balance: int)
    requires
        escrow_matches(ctx.campaign, vault_balance),
        withdraw_error(ctx, now) is None,
    ensures
        vault_balance == ctx.campaign.budget_amount - ctx.campaign.spent_amount,
        escrow_matches(
            CampaignAccount { spent_amount: ctx.campaign.budget_amount, ..ctx.campaign },
            0,
        ),
{
}

/// Once its remaining budget has been withdrawn, a well-formed campaign is
/// never active again, no action can be paid from it, and a second
/// withdrawal is refused.
pub proof fn withdrawn_campaign_is_closed(
    ctx: WithdrawRemainingBudget,
    now: i64,
    later: i64,
    payment: ProcessAction,
    again: WithdrawRemainingBudget,
)
    requires
        ctx.campaign.well_formed(),
        withdraw_error(ctx, now) is None,
        payment.campaign == (CampaignAccount { spent_amount: ctx.campaign.budget_amount, ..ctx.campaign }),
        again.campaign == (CampaignAccount { spent_amount: ctx.campaign.budget_amount, ..ctx.campaign }),
    ensures
        payment.campaign.spec_is_active(later) == Ok::<bool, ApexError>(false),
        process_action_error(payment, later) is Some,
        payment.validator_agent.authority@ == payment.validator@ && payment.publisher_token_mint@
            == payment.campaign.budget_mint@ && payment.publisher_token_owner@
            == payment.publisher_agent.authority@ ==> process_action_error(payment, later) == Some(
            ApexError::CampaignNotActive,
        ),
        withdraw_error(again, later) is Some,
        again.campaign.authority@ == again.advertiser@ && later >= again.campaign.expiry_time
            ==> withdraw_error(again, later) == Some(ApexError::InsufficientBudget),
{
}

/// Campaign ids are handed out one after another: after one successful
/// creation, the next one that succeeds gets the following id.
pub proof fn campaigns_get_consecutive_ids(
    first: CreateCampaign,
    first_id: u64,
    advertiser_id: u64,
    budget_amount: u64,
    cpa_amount: u64,
    start_time: i64,
    expiry_time: i64,
    spec: Vec<u8>,
    now: i64,
    second: CreateCampaign,
    second_id: u64,
    second_budget: u64,
    second_cpa: u64,
    second_start: i64,
    second_expiry: i64,
    second_spec_len: nat,
    later: i64,
)
    requires
        create_campaign_error(first, first_id, budget_amount, cpa_amount, start_time, expiry_time, spec@.len(), now)
            is None,
        second.state == created_campaign(
            first,
            first_id,
            advertiser_id,
            budget_amount,
            cpa_amount,
            start_time,
            expiry_time,
            spec,
        ).state,
        create_campaign_error(
            second,
            second_id,
            second_budget,
            second_cpa,
            second_start,
            second_expiry,
            second_spec_len,
            later,
        ) is None,
    ensures
        first_id == first.state.campaign_count + 1,
        second_id == first_id + 1,
{
}

} // verus!

//! What each instruction is for, stated over the accounts' fields and the
//! arguments: exactly when it succeeds, and what it leaves behind.
use vstd::prelude::*;

use crate::ads::{create_ad_error, created_ad, CreateAd};
use crate::campaign::{
    create_campaign_error, created_campaign, process_action_error, processed, update_campaign_error,
    updated_campaign, withdraw_error, withdrawn, CreateCampaign, ProcessAction, UpdateCampaign,
    WithdrawRemainingBudget,
};
use crate::constants::{
    MAX_AD_METADATA_LEN, MAX_AGENT_DOMAIN_LEN, MAX_CAMPAIGN_SPEC_LEN, VALIDATION_EXPIRATION_SLOTS,
};
use crate::errors::ApexError;
use crate::identity::{
    domain_bytes, new_agent_error, registered_agent, renamed_agent, update_agent_domain_error, NewAgent,
    UpdateAgentDomain,
};
use crate::state::{CampaignAccount, ValidationRequestAccount};
use crate::validation::{answered, fresh_request, request_is_live, validation_response_error, ValidationResponse};

verus! {

/// What is left of a campaign's budget is `budget - spent`; only a
/// campaign that spent more than its budget has no remaining budget.
pub proof fn remaining_budget_is_the_unspent_budget(c: CampaignAccount)
    ensures
        c.spent_amount <= c.budget_amount ==> c.spec_remaining_budget() == Ok::<u64, ApexError>(
            (c.budget_amount - c.spent_amount) as u64,
        ),
        c.spent_amount > c.budget_amount ==> c.spec_remaining_budget() == Err::<u64, ApexError>(
            ApexError::Overflow,
        ),
{
}

/// A campaign is active exactly inside `[start_time, expiry_time)` while
/// what is left of its budget (possibly all of it) still pays one action.
pub proof fn active_means_in_window_with_budget_for_one_action(c: CampaignAccount, now: i64)
    ensures
        c.spec_is_active(now) == Ok::<bool, ApexError>(true) <==> (c.start_time <= now && now
            < c.expiry_time && c.spent_amount <= c.budget_amount && c.budget_amount - c.spent_amount
            >= c.cpa_amount),
        (now < c.start_time || now >= c.expiry_time) ==> c.spec_is_active(now) == Ok::<bool, ApexError>(
            false,
        ),
{
}

/// A campaign opens exactly when the budget is positive, the cost per
/// action is positive and within the budget, the window is not empty and
/// ends after `now` (it may start later than `now`), the spec fits, the
/// signer holds the advertiser agent and the id is the next one. The new
/// campaign holds the given terms, nothing spent, and belongs to the signer.
pub proof fn campaign_opens_exactly_when(
    ctx: CreateCampaign,
    next_campaign_id: u64,
    advertiser_id: u64,
    budget_amount: u64,
    cpa_amount: u64,
    start_time: i64,
    expiry_time: i64,
    spec: Vec<u8>,
    now: i64,
)
    ensures
        create_campaign_error(
            ctx,
            next_campaign_id,
            budget_amount,
            cpa_amount,
            start_time,
            expiry_time,
            spec@.len(),
            now,
        ) is None <==> {
            &&& budget_amount > 0
            &&& 0 < cpa_amount <= budget_amount
            &&& start_time < expiry_time
            &&& now < expiry_time
            &&& spec@.len() <= MAX_CAMPAIGN_SPEC_LEN
            &&& ctx.advertiser_agent.authority@ == ctx.advertiser@
            &&& ctx.state.campaign_count < u64::MAX
            &&& next_campaign_id == ctx.state.campaign_count + 1
        },
        ({
            let c = created_campaign(
                ctx,
                next_campaign_id,
                advertiser_id,
                budget_amount,
                cpa_amount,
                start_time,
                expiry_time,
                spec,
            );
            &&& c.campaign.campaign_id == next_campaign_id
            &&& c.campaign.advertiser_id == advertiser_id
            &&& c.campaign.authority == ctx.advertiser
            &&& c.campaign.budget_amount == budget_amount
            &&& c.campaign.spent_amount == 0
            &&& c.campaign.cpa_amount == cpa_amount
            &&& c.campaign.budget_mint == ctx.budget_mint
            &&& c.campaign.start_time == start_time
            &&& c.campaign.expiry_time == expiry_time
            &&& c.campaign.spec == spec
            &&& c.state.campaign_count == next_campaign_id
            &&& c.state.agent_count == ctx.state.agent_count
            &&& c.state.ad_count == ctx.state.ad_count
        }),
{
}

/// An action is paid exactly when the validator, the publisher's token
/// account and its owner are the right ones and the campaign is active at
/// `now`: inside its window, with what is left of the budget covering the
/// cost per action (the last action, which spends the budget to the end,
/// included). The payment is one cost per action, added to what is spent.
pub proof fn action_is_paid_exactly_when(
    ctx: ProcessAction,
    campaign_id: u64,
    publisher_id: u64,
    validator_id: u64,
    action_hash: [u8; 32],
    now: i64,
)
    ensures
        process_action_error(ctx, now) is None <==> {
            &&& ctx.validator_agent.authority@ == ctx.validator@
            &&& ctx.publisher_token_mint@ == ctx.campaign.budget_mint@
            &&& ctx.publisher_token_owner@ == ctx.publisher_agent.authority@
            &&& ctx.campaign.start_time <= now < ctx.campaign.expiry_time
            &&& ctx.campaign.spent_amount <= ctx.campaign.budget_amount
            &&& ctx.campaign.budget_amount - ctx.campaign.spent_amount >= ctx.campaign.cpa_amount
        },
        ({
            let p = processed(ctx, campaign_id, publisher_id, validator_id, action_hash, now);
            process_action_error(ctx, now) is None ==> {
                &&& p.campaign.spent_amount == ctx.campaign.spent_amount + ctx.campaign.cpa_amount
                &&& p.campaign.budget_amount == ctx.campaign.budget_amount
                &&& p.campaign.cpa_amount == ctx.campaign.cpa_amount
                &&& p.campaign.authority == ctx.campaign.authority
                &&& p.campaign.start_time == ctx.campaign.start_time
                &&& p.campaign.expiry_time == ctx.campaign.expiry_time
                &&& p.processed_action.payment_amount == ctx.campaign.cpa_amount
                &&& p.processed_action.campaign_id == campaign_id
                &&& p.processed_action.publisher_id == publisher_id
                &&& p.processed_action.validator_id == validator_id
                &&& p.processed_action.action_hash == action_hash
                &&& p.processed_action.processed_at == now
            }
        }),
{
}

/// A campaign's terms change exactly when the spec fits, the new window is
/// not empty and ends after `now`, the signer owns the campaign, and the new
/// cost per action is positive and covered by what is left of the budget.
/// Budget, spending and owner stay as they were.
pub proof fn campaign_terms_change_exactly_when(
    ctx: UpdateCampaign,
    cpa_amount: u64,
    start_time: i64,
    expiry_time: i64,
    spec: Vec<u8>,
    now: i64,
)
    ensures
        update_campaign_error(ctx, cpa_amount, start_time, expiry_time, spec@.len(), now) is None <==> {
            &&& spec@.len() <= MAX_CAMPAIGN_SPEC_LEN
            &&& start_time < expiry_time
            &&& now < expiry_time
            &&& ctx.campaign.authority@ == ctx.advertiser@
            &&& ctx.campaign.spent_amount <= ctx.campaign.budget_amount
            &&& 0 < cpa_amount <= ctx.campaign.budget_amount - ctx.campaign.spent_amount
        },
        ({
            let u = updated_campaign(ctx, cpa_amount, start_time, expiry_time, spec).campaign;
            &&& u.cpa_amount == cpa_amount
            &&& u.start_time == start_time
            &&& u.expiry_time == expiry_time
            &&& u.spec == spec
            &&& u.budget_amount == ctx.campaign.budget_amount
            &&& u.spent_amount == ctx.campaign.spent_amount
            &&& u.authority == ctx.campaign.authority
            &&& u.budget_mint == ctx.campaign.budget_mint
        }),
{
}

/// The rest of a budget is refunded exactly when the signer owns the
/// campaign, the campaign has expired (`now >= expiry_time`, whenever it
/// was due to start) and something is left. Before expiry the owner gets
/// `CampaignStillActive`. After a refund the whole budget counts as spent.
pub proof fn refund_exactly_when(ctx: WithdrawRemainingBudget, now: i64)
    ensures
        withdraw_error(ctx, now) is None <==> {
            &&& ctx.campaign.authority@ == ctx.advertiser@
            &&& now >= ctx.campaign.expiry_time
            &&& ctx.campaign.spent_amount < ctx.campaign.budget_amount
        },
        withdraw_error(ctx, now) is None ==> now >= ctx.campaign.expiry_time,
        ctx.campaign.authority@ == ctx.advertiser@ && now < ctx.campaign.expiry_time
            ==> withdraw_error(ctx, now) == Some(ApexError::CampaignStillActive),
        withdrawn(ctx).campaign.spent_amount == ctx.campaign.budget_amount,
        withdrawn(ctx).campaign.budget_amount == ctx.campaign.budget_amount,
        withdrawn(ctx).campaign.expiry_time == ctx.campaign.expiry_time,
{
}

/// An ad is created exactly when the metadata fits, the ad does not start
/// after `now`, the campaign is active at `now`, the signer holds the
/// campaign's advertiser or the publisher, and the id is the next one. The
/// ad takes the campaign's advertiser.
pub proof fn ad_is_created_exactly_when(
    ctx: CreateAd,
    next_ad_id: u64,
    campaign_id: u64,
    publisher_id: u64,
    start_time: i64,
    metadata: Vec<u8>,
    now: i64,
)
    ensures
        create_ad_error(ctx, next_ad_id, start_time, metadata@.len(), now) is None <==> {
            &&& metadata@.len() <= MAX_AD_METADATA_LEN
            &&& start_time <= now
            &&& ctx.campaign.start_time <= now < ctx.campaign.expiry_time
            &&& ctx.campaign.spent_amount <= ctx.campaign.budget_amount
            &&& ctx.campaign.budget_amount - ctx.campaign.spent_amount >= ctx.campaign.cpa_amount
            &&& (ctx.caller@ == ctx.advertiser_agent.authority@ || ctx.caller@
                == ctx.publisher_agent.authority@)
            &&& ctx.state.ad_count < u64::MAX
            &&& next_ad_id == ctx.state.ad_count + 1
        },
        ({
            let a = created_ad(ctx, next_ad_id, campaign_id, publisher_id, start_time, metadata);
            &&& a.ad.ad_id == next_ad_id
            &&& a.ad.campaign_id == campaign_id
            &&& a.ad.advertiser_id == ctx.campaign.advertiser_id
            &&& a.ad.publisher_id == publisher_id
            &&& a.ad.start_time == start_time
            &&& a.ad.metadata == metadata
            &&& a.state.ad_count == next_ad_id
            &&& a.campaign == ctx.campaign
        }),
{
}

/// An agent registers exactly when its domain is not empty and fits in
/// `MAX_AGENT_DOMAIN_LEN` bytes, the given hash is the domain's, and the id
/// is the next one. The agent gets that id, the domain and the signer as
/// authority.
pub proof fn agent_registers_exactly_when(
    ctx: NewAgent,
    next_agent_id: u64,
    agent_domain: String,
    domain_hash: Seq<u8>,
    computed_hash: Seq<u8>,
)
    ensures
        new_agent_error(ctx, next_agent_id, agent_domain@, domain_hash, computed_hash) is None <==> {
            &&& agent_domain@.len() > 0
            &&& domain_bytes(agent_domain@).len() <= MAX_AGENT_DOMAIN_LEN
            &&& computed_hash == domain_hash
            &&& ctx.state.agent_count < u64::MAX
            &&& next_agent_id == ctx.state.agent_count + 1
        },
        ({
            let r = registered_agent(ctx, next_agent_id, agent_domain);
            &&& r.agent.agent_id == next_agent_id
            &&& r.agent.agent_domain == agent_domain
            &&& r.agent.authority == ctx.authority
            &&& r.domain_index.agent_id == next_agent_id
            &&& r.authority_index.agent_id == next_agent_id
            &&& r.state.agent_count == next_agent_id
            &&& r.state.campaign_count == ctx.state.campaign_count
            &&& r.state.ad_count == ctx.state.ad_count
        }),
{
}

/// A domain changes exactly when the new domain is not empty and fits, both
/// hashes are right and the signer holds the agent; the agent keeps its id
/// and authority.
pub proof fn domain_changes_exactly_when(
    ctx: UpdateAgentDomain,
    old_domain_hash: Seq<u8>,
    new_domain: String,
    new_domain_hash: Seq<u8>,
    current_hash: Seq<u8>,
    computed_new_hash: Seq<u8>,
)
    ensures
        update_agent_domain_error(
            ctx,
            old_domain_hash,
            new_domain@,
            new_domain_hash,
            current_hash,
            computed_new_hash,
        ) is None <==> {
            &&& new_domain@.len() > 0
            &&& domain_bytes(new_domain@).len() <= MAX_AGENT_DOMAIN_LEN
            &&& current_hash == old_domain_hash
            &&& computed_new_hash == new_domain_hash
            &&& ctx.agent.authority@ == ctx.authority@
        },
        renamed_agent(ctx, new_domain).agent.agent_domain == new_domain,
        renamed_agent(ctx, new_domain).agent.agent_id == ctx.agent.agent_id,
        renamed_agent(ctx, new_domain).agent.authority == ctx.agent.authority,
        renamed_agent(ctx, new_domain).new_domain_index.agent_id == ctx.agent.agent_id,
{
}

/// A request is live exactly while it was filled (its data hash has a
/// non-zero byte) and its expiry slot has not passed, whether or not it was
/// answered; so a request found at a slot after its expiry is replaced.
pub proof fn request_live_exactly_until_expiry(request: ValidationRequestAccount, slot: u64)
    ensures
        request_is_live(request, slot) <==> ((exists|j: int|
            0 <= j < 32 && #[trigger] request.data_hash@[j] != 0) && slot <= request.expiry_slot),
        slot > request.expiry_slot ==> !request_is_live(request, slot),
{
}

/// A fresh request made at `slot` names the given agents and hash, was
/// requested at `slot`, expires `VALIDATION_EXPIRATION_SLOTS` later, and is
/// unanswered with a zero score and the all-zero responder.
pub proof fn fresh_request_contents(
    request: ValidationRequestAccount,
    validator_agent_id: u64,
    server_agent_id: u64,
    data_hash: [u8; 32],
    slot: u64,
    bump: u8,
)
    requires
        fresh_request(request, validator_agent_id, server_agent_id, data_hash, slot, bump),
        slot + VALIDATION_EXPIRATION_SLOTS <= u64::MAX,
    ensures
        request.validator_agent_id == validator_agent_id,
        request.server_agent_id == server_agent_id,
        request.data_hash == data_hash,
        request.requested_slot == slot,
        request.expiry_slot == slot + VALIDATION_EXPIRATION_SLOTS,
        !request.responded,
        request.response == 0,
        forall|j: int| 0 <= j < 32 ==> #[trigger] request.responder@[j] == 0,
        request.bump == bump,
{
}

/// A score is recorded exactly when it is between 0 and 100 (both
/// included), the request was filled, has not expired and is unanswered,
/// and the signer holds the validator agent; the request then holds that
/// score and the signer as responder.
pub proof fn score_recorded_exactly_when(ctx: ValidationResponse, response: u8, slot: u64)
    ensures
        validation_response_error(ctx, response, slot) is None <==> {
            &&& response <= 100
            &&& exists|j: int| 0 <= j < 32 && #[trigger] ctx.validation_request.data_hash@[j] != 0
            &&& slot <= ctx.validation_request.expiry_slot
            &&& !ctx.validation_request.responded
            &&& ctx.validator_agent.authority@ == ctx.validator_authority@
        },
        answered(ctx, response).validation_request.responded,
        answered(ctx, response).validation_request.response == response,
        answered(ctx, response).validation_request.responder == ctx.validator_authority,
        answered(ctx, response).validation_request.data_hash == ctx.validation_request.data_hash,
        answered(ctx, response).validation_request.expiry_slot == ctx.validation_request.expiry_slot,
{
}

} // verus!

//! Laws over whole sequences of instructions: ids handed out from the
//! global counters, and the escrow of one campaign.
use vstd::prelude::*;

use crate::ads::{create_ad_error, created_ad, CreateAd};
use crate::campaign::{
    create_campaign_error, created_campaign, process_action_error, processed, update_campaign_error,
    updated_campaign, withdraw_error, withdrawn, CreateCampaign, ProcessAction, UpdateCampaign,
    WithdrawRemainingBudget,
};
use crate::errors::ApexError;
use crate::identity::{initialized_state, new_agent_error, registered_agent, InitializeState, NewAgent};
use crate::state::{CampaignAccount, GlobalState};

verus! {

/// A call of one of the instructions that read and write the global
/// account, with its accounts and arguments. `computed_hash` is the hash of
/// the domain that the registration compares with `domain_hash`. No other
/// instruction touches the global account.
pub enum GlobalCall {
    Register {
        ctx: NewAgent,
        next_agent_id: u64,
        agent_domain: String,
        domain_hash: [u8; 32],
        computed_hash: Ghost<Seq<u8>>,
    },
    OpenCampaign {
        ctx: CreateCampaign,
        next_campaign_id: u64,
        advertiser_id: u64,
        budget_amount: u64,
        cpa_amount: u64,
        start_time: i64,
        expiry_time: i64,
        spec: Vec<u8>,
        now: i64,
    },
    PlaceAd {
        ctx: CreateAd,
        next_ad_id: u64,
        campaign_id: u64,
        publisher_id: u64,
        start_time: i64,
        metadata: Vec<u8>,
        now: i64,
    },
}

/// The three counters from which ids are drawn.
pub enum Counter {
    Agents,
    Campaigns,
    Ads,
}

pub open spec fn count_of(state: GlobalState, counter: Counter) -> u64 {
    match counter {
        Counter::Agents => state.agent_count,
        Counter::Campaigns => state.campaign_count,
        Counter::Ads => state.ad_count,
    }
}

/// The global account that a call reads.
pub open spec fn global_read(call: GlobalCall) -> GlobalState {
    match call {
        GlobalCall::Register { ctx, .. } => ctx.state,
        GlobalCall::OpenCampaign { ctx, .. } => ctx.state,
        GlobalCall::PlaceAd { ctx, .. } => ctx.state,
    }
}

/// Whether the call succeeds, as its contract says.
pub open spec fn global_succeeds(call: GlobalCall) -> bool {
    match call {
        GlobalCall::Register { ctx, next_agent_id, agent_domain, domain_hash, computed_hash } =>
            new_agent_error(ctx, next_agent_id, agent_domain@, domain_hash@, computed_hash@) is None,
        GlobalCall::OpenCampaign {
            ctx,
            next_campaign_id,
            budget_amount,
            cpa_amount,
            start_time,
            expiry_time,
            spec,
            now,
            ..
        } => create_campaign_error(
            ctx,
            next_campaign_id,
            budget_amount,
            cpa_amount,
            start_time,
            expiry_time,
            spec@.len(),
            now,
        ) is None,
        GlobalCall::PlaceAd { ctx, next_ad_id, start_time, metadata, now, .. } => create_ad_error(
            ctx,
            next_ad_id,
            start_time,
            metadata@.len(),
            now,
        ) is None,
    }
}

/// The global account after the call: as the contract of the instruction
/// leaves it on success, unchanged on failure.
pub open spec fn global_written(call: GlobalCall) -> GlobalState {
    if !global_succeeds(call) {
        global_read(call)
    } else {
        match call {
            GlobalCall::Register { ctx, next_agent_id, agent_domain, .. } => registered_agent(
                ctx,
                next_agent_id,
                agent_domain,
            ).state,
            GlobalCall::OpenCampaign {
                ctx,
                next_campaign_id,
                advertiser_id,
                budget_amount,
                cpa_amount,
                start_time,
                expiry_time,
                spec,
                ..
            } => created_campaign(
                ctx,
                next_campaign_id,
                advertiser_id,
                budget_amount,
                cpa_amount,
                start_time,
                expiry_time,
                spec,
            ).state,
            GlobalCall::PlaceAd { ctx, next_ad_id, campaign_id, publisher_id, start_time, metadata, .. } =>
                created_ad(ctx, next_ad_id, campaign_id, publisher_id, start_time, metadata).state,
        }
    }
}

/// The id that a successful call hands out from the given counter, if any:
/// the new agent's, campaign's or ad's id.
pub open spec fn issued(call: GlobalCall, counter: Counter) -> Option<u64> {
    if !global_succeeds(call) {
        None
    } else {
        match (call, counter) {
            (GlobalCall::Register { next_agent_id, .. }, Counter::Agents) => Some(next_agent_id),
            (GlobalCall::OpenCampaign { next_campaign_id, .. }, Counter::Campaigns) => Some(
                next_campaign_id,
            ),
            (GlobalCall::PlaceAd { next_ad_id, .. }, Counter::Ads) => Some(next_ad_id),
            _ => None,
        }
    }
}

/// Each call reads the global account as the call before it left it; the
/// first reads `start`.
pub open spec fn global_chain(start: GlobalState, calls: Seq<GlobalCall>) -> bool {
    forall|i: int|
        0 <= i < calls.len() ==> #[trigger] global_read(calls[i]) == if i == 0 {
            start
        } else {
            global_written(calls[i - 1])
        }
}

/// The global account after all the calls.
pub open spec fn global_after(start: GlobalState, calls: Seq<GlobalCall>) -> GlobalState {
    if calls.len() == 0 {
        start
    } else {
        global_written(calls.last())
    }
}

/// The ids handed out from a counter, in the order of the calls.
pub open spec fn issued_ids(calls: Seq<GlobalCall>, counter: Counter) -> Seq<u64>
    decreases calls.len(),
{
    if calls.len() == 0 {
        Seq::empty()
    } else {
        let before = issued_ids(calls.drop_last(), counter);
        match issued(calls.last(), counter) {
            Some(id) => before.push(id),
            None => before,
        }
    }
}

proof fn ids_follow_the_counter(start: GlobalState, calls: Seq<GlobalCall>, counter: Counter)
    requires
        global_chain(start, calls),
    ensures
        count_of(global_after(start, calls), counter) == count_of(start, counter) + issued_ids(
            calls,
            counter,
        ).len(),
        forall|i: int|
            0 <= i < issued_ids(calls, counter).len() ==> #[trigger] issued_ids(calls, counter)[i]
                == count_of(start, counter) + i + 1,
    decreases calls.len(),
{
    if calls.len() > 0 {
        let prefix = calls.drop_last();
        assert(global_chain(start, prefix)) by {
            assert forall|i: int| 0 <= i < prefix.len() implies #[trigger] global_read(prefix[i])
                == if i == 0 {
                start
            } else {
                global_written(prefix[i - 1])
            } by {
                assert(prefix[i] == calls[i]);
                if i > 0 {
                    assert(prefix[i - 1] == calls[i - 1]);
                }
            }
        }
        ids_follow_the_counter(start, prefix, counter);
        assert(global_read(calls[calls.len() - 1]) == global_after(start, prefix));
    }
}

/// Ids are handed out without gaps or repeats: starting from the global
/// account as `initialize_state` leaves it, after any sequence of calls of
/// the instructions that touch it (failed ones included), the ids that the
/// successful registrations, campaign creations and ad creations got are
/// 1, 2, ..., k in the order of the calls, and the counter stands at k.
pub proof fn ids_are_handed_out_in_order(
    init: InitializeState,
    registration_fee_lamports: u64,
    calls: Seq<GlobalCall>,
    counter: Counter,
)
    requires
        global_chain(initialized_state(init, registration_fee_lamports), calls),
    ensures
        issued_ids(calls, counter) == Seq::new(
            issued_ids(calls, counter).len(),
            |i: int| (i + 1) as u64,
        ),
        count_of(global_after(initialized_state(init, registration_fee_lamports), calls), counter)
            == issued_ids(calls, counter).len(),
{
    let start = initialized_state(init, registration_fee_lamports);
    ids_follow_the_counter(start, calls, counter);
    assert(issued_ids(calls, counter) =~= Seq::new(
        issued_ids(calls, counter).len(),
        |i: int| (i + 1) as u64,
    ));
}

/// A call of one of the instructions that read a campaign account, with
/// its accounts and arguments. No other instruction touches it.
pub enum CampaignCall {
    Pay {
        ctx: ProcessAction,
        campaign_id: u64,
        publisher_id: u64,
        validator_id: u64,
        action_hash: [u8; 32],
        now: i64,
    },
    Update {
        ctx: UpdateCampaign,
        cpa_amount: u64,
        start_time: i64,
        expiry_time: i64,
        spec: Vec<u8>,
        now: i64,
    },
    Withdraw { ctx: WithdrawRemainingBudget, now: i64 },
    Advertise {
        ctx: CreateAd,
        next_ad_id: u64,
        campaign_id: u64,
        publisher_id: u64,
        start_time: i64,
        metadata: Vec<u8>,
        now: i64,
    },
}

/// The campaign that a call reads.
pub open spec fn campaign_read(call: CampaignCall) -> CampaignAccount {
    match call {
        CampaignCall::Pay { ctx, .. } => ctx.campaign,
        CampaignCall::Update { ctx, .. } => ctx.campaign,
        CampaignCall::Withdraw { ctx, .. } => ctx.campaign,
        CampaignCall::Advertise { ctx, .. } => ctx.campaign,
    }
}

/// The campaign after the call, and what the call moves out of the
/// campaign vault, as the instruction's contract says: a refused call
/// changes nothing and moves nothing; creating an ad only reads the
/// campaign.
pub open spec fn campaign_step(call: CampaignCall) -> (CampaignAccount, int) {
    match call {
        CampaignCall::Pay { ctx, campaign_id, publisher_id, validator_id, action_hash, now } =>
            if process_action_error(ctx, now) is None {
            (
                processed(ctx, campaign_id, publisher_id, validator_id, action_hash, now).campaign,
                ctx.campaign.cpa_amount as int,
            )
        } else {
            (ctx.campaign, 0)
        },
        CampaignCall::Update { ctx, cpa_amount, start_time, expiry_time, spec, now } =>
            if update_campaign_error(ctx, cpa_amount, start_time, expiry_time, spec@.len(), now) is None {
            (updated_campaign(ctx, cpa_amount, start_time, expiry_time, spec).campaign, 0)
        } else {
            (ctx.campaign, 0)
        },
        CampaignCall::Withdraw { ctx, now } => if withdraw_error(ctx, now) is None {
            (withdrawn(ctx).campaign, ctx.campaign.budget_amount - ctx.campaign.spent_amount)
        } else {
            (ctx.campaign, 0)
        },
        CampaignCall::Advertise { ctx, .. } => (ctx.campaign, 0),
    }
}

/// Each call reads the campaign as the call before it left it; the first
/// reads `start`.
pub open spec fn campaign_chain(start: CampaignAccount, calls: Seq<CampaignCall>) -> bool {
    forall|i: int|
        0 <= i < calls.len() ==> #[trigger] campaign_read(calls[i]) == if i == 0 {
            start
        } else {
            campaign_step(calls[i - 1]).0
        }
}

/// The campaign after all the calls.
pub open spec fn campaign_after(start: CampaignAccount, calls: Seq<CampaignCall>) -> CampaignAccount {
    if calls.len() == 0 {
        start
    } else {
        campaign_step(calls.last()).0
    }
}

/// Everything the calls moved out of the campaign vault.
pub open spec fn paid_out(calls: Seq<CampaignCall>) -> int
    decreases calls.len(),
{
    if calls.len() == 0 {
        0
    } else {
        paid_out(calls.drop_last()) + campaign_step(calls.last()).1
    }
}

proof fn campaign_chain_prefix(start: CampaignAccount, calls: Seq<CampaignCall>)
    requires
        campaign_chain(start, calls),
        calls.len() > 0,
    ensures
        campaign_chain(start, calls.drop_last()),
        campaign_read(calls.last()) == campaign_after(start, calls.drop_last()),
{
    let prefix = calls.drop_last();
    assert forall|i: int| 0 <= i < prefix.len() implies #[trigger] campaign_read(prefix[i]) == if i
        == 0 {
        start
    } else {
        campaign_step(prefix[i - 1]).0
    } by {
        assert(prefix[i] == calls[i]);
        if i > 0 {
            assert(prefix[i - 1] == calls[i - 1]);
        }
    }
    assert(campaign_read(calls[calls.len() - 1]) == campaign_after(start, prefix));
}

proof fn paid_out_tracks_spending(start: CampaignAccount, calls: Seq<CampaignCall>)
    requires
        start.spent_amount <= start.budget_amount,
        campaign_chain(start, calls),
    ensures
        campaign_after(start, calls).budget_amount == start.budget_amount,
        campaign_after(start, calls).spent_amount <= campaign_after(start, calls).budget_amount,
        paid_out(calls) == campaign_after(start, calls).spent_amount - start.spent_amount,
    decreases calls.len(),
{
    if calls.len() > 0 {
        campaign_chain_prefix(start, calls);
        paid_out_tracks_spending(start, calls.drop_last());
    }
}

/// The escrow over a campaign's whole life: after a successful creation,
/// which moves the whole budget into the vault, and any sequence of calls
/// of the instructions that read the campaign (payments, updates,
/// withdrawals, ad creations, refused ones included), the vault has paid
/// out exactly what the campaign counts as spent, and never more than the
/// budget that was deposited.
pub proof fn escrow_over_any_history(
    create: CreateCampaign,
    next_campaign_id: u64,
    advertiser_id: u64,
    budget_amount: u64,
    cpa_amount: u64,
    start_time: i64,
    expiry_time: i64,
    spec: Vec<u8>,
    now: i64,
    calls: Seq<CampaignCall>,
)
    requires
        create_campaign_error(
            create,
            next_campaign_id,
            budget_amount,
            cpa_amount,
            start_time,
            expiry_time,
            spec@.len(),
            now,
        ) is None,
        campaign_chain(
            created_campaign(
                create,
                next_campaign_id,
                advertiser_id,
                budget_amount,
                cpa_amount,
                start_time,
                expiry_time,
                spec,
            ).campaign,
            calls,
        ),
    ensures
        ({
            let opened = created_campaign(
                create,
                next_campaign_id,
                advertiser_id,
                budget_amount,
                cpa_amount,
                start_time,
                expiry_time,
                spec,
            ).campaign;
            &&& opened.budget_amount == budget_amount
            &&& opened.spent_amount == 0
            &&& campaign_after(opened, calls).budget_amount == budget_amount
            &&& paid_out(calls) == campaign_after(opened, calls).spent_amount
            &&& 0 <= paid_out(calls) <= budget_amount
        }),
{
    let opened = created_campaign(
        create,
        next_campaign_id,
        advertiser_id,
        budget_amount,
        cpa_amount,
        start_time,
        expiry_time,
        spec,
    ).campaign;
    paid_out_tracks_spending(opened, calls);
}

proof fn drained_campaign_stays_drained(start: CampaignAccount, calls: Seq<CampaignCall>)
    requires
        start.spent_amount == start.budget_amount,
        campaign_chain(start, calls),
    ensures
        campaign_after(start, calls).spent_amount == campaign_after(start, calls).budget_amount,
        paid_out(calls) == 0,
    decreases calls.len(),
{
    if calls.len() > 0 {
        campaign_chain_prefix(start, calls);
        drained_campaign_stays_drained(start, calls.drop_last());
    }
}

/// The remaining budget is refunded at most once: after a successful
/// withdrawal and any later calls of the instructions that read the
/// campaign, nothing more leaves the vault, and a further withdrawal is
/// refused: `Unauthorized` for any signer but the campaign's owner, and
/// `InsufficientBudget` for the owner once the campaign has expired.
pub proof fn refund_happens_at_most_once(
    first: WithdrawRemainingBudget,
    now: i64,
    calls: Seq<CampaignCall>,
    again: WithdrawRemainingBudget,
    later: i64,
)
    requires
        withdraw_error(first, now) is None,
        campaign_chain(withdrawn(first).campaign, calls),
        again.campaign == campaign_after(withdrawn(first).campaign, calls),
    ensures
        paid_out(calls) == 0,
        withdraw_error(again, later) is Some,
        again.campaign.authority@ != again.advertiser@ ==> withdraw_error(again, later) == Some(
            ApexError::Unauthorized,
        ),
        again.campaign.authority@ == again.advertiser@ && later >= again.campaign.expiry_time
            ==> withdraw_error(again, later) == Some(ApexError::InsufficientBudget),
{
    drained_campaign_stays_drained(withdrawn(first).campaign, calls);
}

} // verus!

use vstd::prelude::*;

use crate::constants::MAX_AD_METADATA_LEN;
use crate::errors::ApexError;
use crate::keys::{bytes32_eq, Pubkey};
use crate::state::{AdAccount, AgentInfo, CampaignAccount, GlobalState};

verus! {

/// What `create_ad` reads and writes: the signer, the global counters, the
/// campaign, the campaign's advertiser agent, the publisher agent, the new
/// ad account and its bump.
#[derive(Debug, Clone, PartialEq, Eq)]
pub struct CreateAd {
    pub caller: Pubkey,
    pub state: GlobalState,
    pub campaign: CampaignAccount,
    pub advertiser_agent: AgentInfo,
    pub publisher_agent: AgentInfo,
    pub ad: AdAccount,
    pub ad_bump: u8,
}

/// The first rule that creating an ad breaks, if any, in the order in
/// which they are checked: the metadata fits, the ad does not start in the
/// future, the campaign is active, the signer is the advertiser's or the
/// publisher's authority, and the id is the next one.
pub open spec fn create_ad_error(
    ctx: CreateAd,
    next_ad_id: u64,
    start_time: i64,
    metadata_len: nat,
    now: i64,
) -> Option<ApexError> {
    if metadata_len > MAX_AD_METADATA_LEN {
        Some(ApexError::MetadataTooLarge)
    } else if start_time > now {
        Some(ApexError::InvalidStartTime)
    } else {
        match ctx.campaign.spec_is_active(now) {
            Err(e) => Some(e),
            Ok(active) => if !active {
                Some(ApexError::CampaignNotActive)
            } else if ctx.caller@ != ctx.advertiser_agent.authority@ && ctx.caller@
                != ctx.publisher_agent.authority@ {
                Some(ApexError::Unauthorized)
            } else if ctx.state.ad_count == u64::MAX {
                Some(ApexError::Overflow)
            } else if next_ad_id != ctx.state.ad_count + 1 {
                Some(ApexError::InvalidNextAdId)
            } else {
                None
            },
        }
    }
}

/// The accounts after an ad is created: the ad carries the next id, the
/// campaign's advertiser and the given publisher, start and metadata; the
/// ad counter has moved to the new id.
pub open spec fn created_ad(
    ctx: CreateAd,
    next_ad_id: u64,
    campaign_id: u64,
    publisher_id: u64,
    start_time: i64,
    metadata: Vec<u8>,
) -> CreateAd {
    CreateAd {
        state: GlobalState { ad_count: next_ad_id, ..ctx.state },
        ad: AdAccount {
            ad_id: next_ad_id,
            campaign_id: campaign_id,
            advertiser_id: ctx.campaign.advertiser_id,
            publisher_id: publisher_id,
            start_time: start_time,
            metadata: metadata,
            bump: ctx.ad_bump,
        },
        ..ctx
    }
}

/// Creates an ad for an active campaign at time `now`; on failure nothing
/// changes.
pub fn create_ad(
    ctx: &mut CreateAd,
    next_ad_id: u64,
    campaign_id: u64,
    publisher_id: u64,
    start_time: i64,
    metadata: Vec<u8>,
    now: i64,
) -> (r: Result<(), ApexError>)
    ensures
        match create_ad_error(*old(ctx), next_ad_id, start_time, metadata@.len(), now) {
            Some(e) => r == Err::<(), ApexError>(e) && *final(ctx) == *old(ctx),
            None => r == Ok::<(), ApexError>(()) && *final(ctx) == created_ad(
                *old(ctx),
                next_ad_id,
                campaign_id,
                publisher_id,
                start_time,
                metadata,
            ),
        },
{
    if metadata.len() > MAX_AD_METADATA_LEN {
        return Err(ApexError::MetadataTooLarge);
    }
    if !(start_time <= now) {
        return Err(ApexError::InvalidStartTime);
    }
    if !ctx.campaign.is_active(now)? {
        return Err(ApexError::CampaignNotActive);
    }
    let by_advertiser = bytes32_eq(&ctx.caller, &ctx.advertiser_agent.authority);
    let by_publisher = bytes32_eq(&ctx.caller, &ctx.publisher_agent.authority);
    if !(by_advertiser || by_publisher) {
        return Err(ApexError::Unauthorized);
    }
    let expected_id = match ctx.state.ad_count.checked_add(1) {
        Some(v) => v,
        None => return Err(ApexError::Overflow),
    };
    if next_ad_id != expected_id {
        return Err(ApexError::InvalidNextAdId);
    }
    ctx.ad.ad_id = next_ad_id;
    ctx.ad.campaign_id = campaign_id;
    ctx.ad.advertiser_id = ctx.campaign.advertiser_id;
    ctx.ad.publisher_id = publisher_id;
    ctx.ad.start_time = start_time;
    ctx.ad.metadata = metadata;
    ctx.ad.bump = ctx.ad_bump;
    ctx.state.ad_count = expected_id;
    Ok(())
}

/// What `update_ad` reads and writes: the signer, the ad, and the agent of
/// the advertiser of the ad's campaign.
#[derive(Debug, Clone, PartialEq, Eq)]
pub struct UpdateAd {
    pub advertiser: Pubkey,
    pub ad: AdAccount,
    pub advertiser_agent: AgentInfo,
}

/// Replaces an ad's metadata. The metadata must fit (`MetadataTooLarge`)
/// and only the campaign advertiser's authority may do so
/// (`Unauthorized`); on failure nothing changes.
pub fn update_ad(ctx: &mut UpdateAd, _ad_id: u64, metadata: Vec<u8>) -> (r: Result<(), ApexError>)
    ensures
        metadata@.len() > MAX_AD_METADATA_LEN ==> r == Err::<(), ApexError>(ApexError::MetadataTooLarge)
            && *final(ctx) == *old(ctx),
        metadata@.len() <= MAX_AD_METADATA_LEN && old(ctx).advertiser_agent.authority@
            != old(ctx).advertiser@ ==> r == Err::<(), ApexError>(ApexError::Unauthorized) && *final(ctx)
            == *old(ctx),
        metadata@.len() <= MAX_AD_METADATA_LEN && old(ctx).advertiser_agent.authority@
            == old(ctx).advertiser@ ==> r == Ok::<(), ApexError>(()) && *final(ctx) == (UpdateAd {
            ad: AdAccount { metadata: metadata, ..old(ctx).ad },
            ..*old(ctx)
        }),
{
    if metadata.len() > MAX_AD_METADATA_LEN {
        return Err(ApexError::MetadataTooLarge);
    }
    if !bytes32_eq(&ctx.advertiser_agent.authority, &ctx.advertiser) {
        return Err(ApexError::Unauthorized);
    }
    ctx.ad.metadata = metadata;
    Ok(())
}

/// Ads can only be created for a campaign that is active at the time:
/// started, unexpired, and with budget left for one more action.
pub proof fn ads_need_an_active_campaign(ctx: CreateAd, next_ad_id: u64, start_time: i64, metadata_len: nat, now: i64)
    requires
        create_ad_error(ctx, next_ad_id, start_time, metadata_len, now) is None,
    ensures
        ctx.campaign.start_time <= now < ctx.campaign.expiry_time,
        ctx.campaign.spent_amount + ctx.campaign.cpa_amount <= ctx.campaign.budget_amount,
        start_time <= now,
        ctx.caller@ == ctx.advertiser_agent.authority@ || ctx.caller@ == ctx.publisher_agent.authority@,
{
}

/// Ad ids are handed out one after another: after one successful creation,
/// the next one that succeeds gets the following id.
pub proof fn ads_get_consecutive_ids(
    first: CreateAd,
    first_id: u64,
    campaign_id: u64,
    publisher_id: u64,
    start_time: i64,
    metadata: Vec<u8>,
    now: i64,
    second: CreateAd,
    second_id: u64,
    second_start: i64,
    second_metadata_len: nat,
    later: i64,
)
    requires
        create_ad_error(first, first_id, start_time, metadata@.len(), now) is None,
        second.state == created_ad(first, first_id, campaign_id, publisher_id, start_time, metadata).state,
        create_ad_error(second, second_id, second_start, second_metadata_len, later) is None,
    ensures
        first_id == first.state.ad_count + 1,
        second_id == first_id + 1,
{
}

} // verus!

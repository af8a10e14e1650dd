use apex_solana::ads::{create_ad, update_ad, CreateAd, UpdateAd};
use apex_solana::errors::ApexError;
use apex_solana::state::{AdAccount, AgentInfo, CampaignAccount, GlobalState};

fn key(b: u8) -> [u8; 32] {
    [b; 32]
}

fn agent(id: u64, authority: [u8; 32]) -> AgentInfo {
    AgentInfo { agent_id: id, agent_domain: format!("a{}.example", id), authority, bump: 0 }
}

fn blank_ad() -> AdAccount {
    AdAccount { ad_id: 0, campaign_id: 0, advertiser_id: 0, publisher_id: 0, start_time: 0, metadata: Vec::new(), bump: 0 }
}

fn ad_ctx(caller: [u8; 32], spent: u64, ad_count: u64) -> CreateAd {
    CreateAd {
        caller,
        state: GlobalState { authority: key(9), registration_fee_lamports: 0, agent_count: 9, campaign_count: 1, ad_count, bump: 0 },
        campaign: CampaignAccount {
            campaign_id: 1,
            advertiser_id: 2,
            authority: key(1),
            budget_amount: 100,
            spent_amount: spent,
            cpa_amount: 10,
            budget_mint: key(7),
            start_time: 10,
            expiry_time: 100,
            spec: Vec::new(),
            vault_bump: 0,
            bump: 0,
        },
        advertiser_agent: agent(2, key(1)),
        publisher_agent: agent(3, key(3)),
        ad: blank_ad(),
        ad_bump: 66,
    }
}

#[test]
fn create_ad_by_advertiser_or_publisher() {
    for caller in [key(1), key(3)] {
        let mut c = ad_ctx(caller, 0, 0);
        assert_eq!(create_ad(&mut c, 1, 1, 3, 15, vec![5, 6], 20), Ok(()));
        assert_eq!(
            c.ad,
            AdAccount { ad_id: 1, campaign_id: 1, advertiser_id: 2, publisher_id: 3, start_time: 15, metadata: vec![5, 6], bump: 66 }
        );
        assert_eq!(c.state.ad_count, 1);
    }
}

#[test]
fn create_ad_errors() {
    let check = |ctx: CreateAd, id: u64, start: i64, len: usize, now: i64, want: ApexError| {
        let mut c = ctx.clone();
        assert_eq!(create_ad(&mut c, id, 1, 3, start, vec![0u8; len], now), Err(want));
        assert_eq!(c, ctx);
    };
    check(ad_ctx(key(1), 0, 0), 1, 15, 2049, 20, ApexError::MetadataTooLarge);
    check(ad_ctx(key(1), 0, 0), 1, 21, 0, 20, ApexError::InvalidStartTime);
    check(ad_ctx(key(1), 0, 0), 1, 5, 0, 5, ApexError::CampaignNotActive);
    check(ad_ctx(key(1), 95, 0), 1, 15, 0, 20, ApexError::CampaignNotActive);
    check(ad_ctx(key(1), 101, 0), 1, 15, 0, 20, ApexError::Overflow);
    check(ad_ctx(key(8), 0, 0), 1, 15, 0, 20, ApexError::Unauthorized);
    check(ad_ctx(key(1), 0, 4), 4, 15, 0, 20, ApexError::InvalidNextAdId);
    check(ad_ctx(key(1), 0, u64::MAX), 0, 15, 0, 20, ApexError::Overflow);
}

#[test]
fn update_ad_replaces_metadata() {
    let mut c = UpdateAd { advertiser: key(1), ad: blank_ad(), advertiser_agent: agent(2, key(1)) };
    assert_eq!(update_ad(&mut c, 0, vec![1; 2048]), Ok(()));
    assert_eq!(c.ad.metadata, vec![1; 2048]);
    let before = c.clone();
    assert_eq!(update_ad(&mut c, 0, vec![1; 2049]), Err(ApexError::MetadataTooLarge));
    let mut stranger = UpdateAd { advertiser: key(3), ad: blank_ad(), advertiser_agent: agent(2, key(1)) };
    assert_eq!(update_ad(&mut stranger, 0, vec![2]), Err(ApexError::Unauthorized));
    assert_eq!(c, before);
}

use vstd::prelude::*;

use crate::errors::ApexError;
use crate::keys::Pubkey;

verus! {

/// The single global account: program authority, registration fee and the
/// counters from which agent, campaign and ad ids are drawn.
#[derive(Debug, Clone, PartialEq, Eq)]
pub struct GlobalState {
    pub authority: Pubkey,
    pub registration_fee_lamports: u64,
    pub agent_count: u64,
    pub campaign_count: u64,
    pub ad_count: u64,
    pub bump: u8,
}

/// A registered agent: its id, its domain and the key allowed to act for it.
#[derive(Debug, Clone, PartialEq, Eq)]
pub struct AgentInfo {
    pub agent_id: u64,
    pub agent_domain: String,
    pub authority: Pubkey,
    pub bump: u8,
}

/// Maps a domain hash to the agent that holds that domain.
#[derive(Debug, Clone, PartialEq, Eq)]
pub struct DomainIndex {
    pub agent_id: u64,
    pub bump: u8,
}

/// Maps an authority key to the agent it controls.
#[derive(Debug, Clone, PartialEq, Eq)]
pub struct AuthorityIndex {
    pub agent_id: u64,
    pub bump: u8,
}

/// A server agent's permission for a client agent to leave feedback.
#[derive(Debug, Clone, PartialEq, Eq)]
pub struct FeedbackAuthorization {
    pub client_agent_id: u64,
    pub server_agent_id: u64,
    pub feedback_auth_id: [u8; 32],
    pub authorized_at: i64,
    pub bump: u8,
}

/// A request, keyed by its data hash, for a validator agent to score a
/// server agent's work before `expiry_slot`.
#[derive(Debug, Clone, PartialEq, Eq)]
pub struct ValidationRequestAccount {
    pub validator_agent_id: u64,
    pub server_agent_id: u64,
    pub data_hash: [u8; 32],
    pub requested_slot: u64,
    pub expiry_slot: u64,
    pub responded: bool,
    pub response: u8,
    pub responder: Pubkey,
    pub bump: u8,
}

/// An advertising campaign whose budget sits in escrow; each processed
/// action pays `cpa_amount` out of it.
#[derive(Debug, Clone, PartialEq, Eq)]
pub struct CampaignAccount {
    pub campaign_id: u64,
    pub advertiser_id: u64,
    pub authority: Pubkey,
    pub budget_amount: u64,
    pub spent_amount: u64,
    pub cpa_amount: u64,
    pub budget_mint: Pubkey,
    pub start_time: i64,
    pub expiry_time: i64,
    pub spec: Vec<u8>,
    pub vault_bump: u8,
    pub bump: u8,
}

/// The record of one paid action of a campaign.
#[derive(Debug, Clone, PartialEq, Eq)]
pub struct ProcessedAction {
    pub campaign_id: u64,
    pub publisher_id: u64,
    pub validator_id: u64,
    pub action_hash: [u8; 32],
    pub payment_amount: u64,
    pub processed_at: i64,
    pub bump: u8,
}

/// An ad that a publisher runs for a campaign.
#[derive(Debug, Clone, PartialEq, Eq)]
pub struct AdAccount {
    pub ad_id: u64,
    pub campaign_id: u64,
    pub advertiser_id: u64,
    pub publisher_id: u64,
    pub start_time: i64,
    pub metadata: Vec<u8>,
    pub bump: u8,
}

impl CampaignAccount {
    /// What is left of the budget: `budget - spent`, or `Overflow` where more
    /// was spent than budgeted.
    pub open spec fn spec_remaining_budget(&self) -> Result<u64, ApexError> {
        if self.spent_amount <= self.budget_amount {
            Ok((self.budget_amount - self.spent_amount) as u64)
        } else {
            Err(ApexError::Overflow)
        }
    }

    /// A campaign is active at `now` when `start_time <= now < expiry_time`
    /// and what is left of the budget covers one more action. The budget is
    /// only looked at inside the time window.
    pub open spec fn spec_is_active(&self, now: i64) -> Result<bool, ApexError> {
        if self.start_time <= now && now < self.expiry_time {
            match self.spec_remaining_budget() {
                Ok(rem) => Ok(rem >= self.cpa_amount),
                Err(e) => Err(e),
            }
        } else {
            Ok(false)
        }
    }

    /// The invariant that the campaign operations keep: never more spent
    /// than budgeted, and every action costs something.
    pub open spec fn well_formed(&self) -> bool {
        &&& self.spent_amount <= self.budget_amount
        &&& self.cpa_amount > 0
    }

    pub fn remaining_budget(&self) -> (r: Result<u64, ApexError>)
        ensures
            r == self.spec_remaining_budget(),
    {
        match self.budget_amount.checked_sub(self.spent_amount) {
            Some(v) => Ok(v),
            None => Err(ApexError::Overflow),
        }
    }

    pub fn is_active(&self, now: i64) -> (r: Result<bool, ApexError>)
        ensures
            r == self.spec_is_active(now),
    {
        if now >= self.start_time && now < self.expiry_time {
            let rem = self.remaining_budget()?;
            Ok(rem >= self.cpa_amount)
        } else {
            Ok(false)
        }
    }
}

} // verus!

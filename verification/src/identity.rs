use vstd::prelude::*;
use vstd::utf8::encode_utf8;

use crate::constants::MAX_AGENT_DOMAIN_LEN;
use crate::digest::{sha256, solana_hash};
use crate::errors::ApexError;
use crate::keys::{bytes32_eq, Pubkey};
use crate::state::{AgentInfo, AuthorityIndex, DomainIndex, GlobalState};

verus! {

/// What `initialize_state` reads and writes: the signing authority, the new
/// global account and its bump.
#[derive(Debug, Clone, PartialEq, Eq)]
pub struct InitializeState {
    pub authority: Pubkey,
    pub state: GlobalState,
    pub state_bump: u8,
}

/// The global account as `initialize_state` leaves it: the signer is the
/// program authority, the fee is recorded and every counter is zero.
pub open spec fn initialized_state(ctx: InitializeState, registration_fee_lamports: u64) -> GlobalState {
    GlobalState {
        authority: ctx.authority,
        registration_fee_lamports: registration_fee_lamports,
        agent_count: 0,
        campaign_count: 0,
        ad_count: 0,
        bump: ctx.state_bump,
    }
}

/// Sets up the global account: the signer becomes the program authority,
/// the registration fee is recorded and every counter starts at zero.
pub fn initialize_state(ctx: &mut InitializeState, registration_fee_lamports: u64) -> (r: Result<(), ApexError>)
    ensures
        r == Ok::<(), ApexError>(()),
        *final(ctx) == (InitializeState {
            state: initialized_state(*old(ctx), registration_fee_lamports),
            ..*old(ctx)
        }),
{
    ctx.state.authority = ctx.authority;
    ctx.state.registration_fee_lamports = registration_fee_lamports;
    ctx.state.agent_count = 0;
    ctx.state.campaign_count = 0;
    ctx.state.ad_count = 0;
    ctx.state.bump = ctx.state_bump;
    Ok(())
}

/// The bytes of a domain as it is stored and hashed (its UTF-8 encoding).
pub open spec fn domain_bytes(domain: Seq<char>) -> Seq<u8> {
    encode_utf8(domain)
}

/// A domain can be registered when it is not empty and its UTF-8 encoding
/// fits in `MAX_AGENT_DOMAIN_LEN` bytes.
pub open spec fn valid_domain(domain: Seq<char>) -> bool {
    domain.len() > 0 && domain_bytes(domain).len() <= MAX_AGENT_DOMAIN_LEN
}

/// What `new_agent` reads and writes: the signing authority, the global
/// counters, the new agent account, its domain and authority index
/// entries, and the bumps found for those three accounts.
#[derive(Debug, Clone, PartialEq, Eq)]
pub struct NewAgent {
    pub authority: Pubkey,
    pub state: GlobalState,
    pub agent: AgentInfo,
    pub domain_index: DomainIndex,
    pub authority_index: AuthorityIndex,
    pub agent_bump: u8,
    pub domain_index_bump: u8,
    pub authority_index_bump: u8,
}

/// The first rule that an agent registration breaks, if any, in the order
/// in which they are checked; `computed_hash` is the hash of the domain's
/// bytes.
pub open spec fn new_agent_error(
    ctx: NewAgent,
    next_agent_id: u64,
    domain: Seq<char>,
    domain_hash: Seq<u8>,
    computed_hash: Seq<u8>,
) -> Option<ApexError> {
    if !valid_domain(domain) {
        Some(ApexError::InvalidDomain)
    } else if computed_hash != domain_hash {
        Some(ApexError::InvalidDomainHash)
    } else if ctx.state.agent_count == u64::MAX {
        Some(ApexError::Overflow)
    } else if next_agent_id != ctx.state.agent_count + 1 {
        Some(ApexError::InvalidNextAgentId)
    } else {
        None
    }
}

/// The accounts after a registration: the agent has the next id, the given
/// domain and the signer as authority; both index entries point at it; the
/// agent counter has moved to the new id.
pub open spec fn registered_agent(ctx: NewAgent, next_agent_id: u64, agent_domain: String) -> NewAgent {
    NewAgent {
        state: GlobalState { agent_count: next_agent_id, ..ctx.state },
        agent: AgentInfo {
            agent_id: next_agent_id,
            agent_domain: agent_domain,
            authority: ctx.authority,
            bump: ctx.agent_bump,
        },
        domain_index: DomainIndex { agent_id: next_agent_id, bump: ctx.domain_index_bump },
        authority_index: AuthorityIndex { agent_id: next_agent_id, bump: ctx.authority_index_bump },
        ..ctx
    }
}

/// Registers an agent, given the hash of its domain already computed. On
/// success the returned amount is the registration fee, which the caller
/// moves from the authority to the global account when it is positive; on
/// failure nothing changes.
pub fn new_agent_with_hash(
    ctx: &mut NewAgent,
    next_agent_id: u64,
    agent_domain: String,
    domain_hash: [u8; 32],
    computed_hash: [u8; 32],
) -> (r: Result<u64, ApexError>)
    ensures
        match new_agent_error(*old(ctx), next_agent_id, agent_domain@, domain_hash@, computed_hash@) {
            Some(e) => r == Err::<u64, ApexError>(e) && *final(ctx) == *old(ctx),
            None => r == Ok::<u64, ApexError>(old(ctx).state.registration_fee_lamports)
                && *final(ctx) == registered_agent(*old(ctx), next_agent_id, agent_domain),
        },
{
    if agent_domain.as_str().is_empty() {
        return Err(ApexError::InvalidDomain);
    }
    if agent_domain.as_str().as_bytes().len() > MAX_AGENT_DOMAIN_LEN {
        return Err(ApexError::InvalidDomain);
    }
    if !bytes32_eq(&computed_hash, &domain_hash) {
        return Err(ApexError::InvalidDomainHash);
    }
    let expected_id = match ctx.state.agent_count.checked_add(1) {
        Some(v) => v,
        None => return Err(ApexError::Overflow),
    };
    if next_agent_id != expected_id {
        return Err(ApexError::InvalidNextAgentId);
    }
    let fee = ctx.state.registration_fee_lamports;
    ctx.agent.agent_id = next_agent_id;
    ctx.agent.agent_domain = agent_domain;
    ctx.agent.authority = ctx.authority;
    ctx.agent.bump = ctx.agent_bump;
    ctx.domain_index.agent_id = next_agent_id;
    ctx.domain_index.bump = ctx.domain_index_bump;
    ctx.authority_index.agent_id = next_agent_id;
    ctx.authority_index.bump = ctx.authority_index_bump;
    ctx.state.agent_count = expected_id;
    Ok(fee)
}

/// Registers an agent under `agent_domain`, whose hash the caller claims is
/// `domain_hash`. On success the returned amount is the registration fee,
/// which the caller moves from the authority to the global account when it
/// is positive; on failure nothing changes.
pub fn new_agent(
    ctx: &mut NewAgent,
    next_agent_id: u64,
    agent_domain: String,
    domain_hash: [u8; 32],
) -> (r: Result<u64, ApexError>)
    ensures
        match new_agent_error(
            *old(ctx),
            next_agent_id,
            agent_domain@,
            domain_hash@,
            solana_hash(domain_bytes(agent_domain@)),
        ) {
            Some(e) => r == Err::<u64, ApexError>(e) && *final(ctx) == *old(ctx),
            None => r == Ok::<u64, ApexError>(old(ctx).state.registration_fee_lamports)
                && *final(ctx) == registered_agent(*old(ctx), next_agent_id, agent_domain),
        },
{
    let computed_hash = sha256(agent_domain.as_str().as_bytes());
    new_agent_with_hash(ctx, next_agent_id, agent_domain, domain_hash, computed_hash)
}

/// What `update_agent_domain` reads and writes: the signer, the agent, the
/// index entry for the new domain and its bump.
#[derive(Debug, Clone, PartialEq, Eq)]
pub struct UpdateAgentDomain {
    pub authority: Pubkey,
    pub agent: AgentInfo,
    pub new_domain_index: DomainIndex,
    pub new_domain_index_bump: u8,
}

/// The first rule that a domain change breaks, if any, in the order in
/// which they are checked; `current_hash` is the hash of the agent's
/// present domain and `computed_new_hash` that of the new one.
pub open spec fn update_agent_domain_error(
    ctx: UpdateAgentDomain,
    old_domain_hash: Seq<u8>,
    new_domain: Seq<char>,
    new_domain_hash: Seq<u8>,
    current_hash: Seq<u8>,
    computed_new_hash: Seq<u8>,
) -> Option<ApexError> {
    if !valid_domain(new_domain) {
        Some(ApexError::InvalidDomain)
    } else if current_hash != old_domain_hash {
        Some(ApexError::InvalidDomainHash)
    } else if computed_new_hash != new_domain_hash {
        Some(ApexError::InvalidDomainHash)
    } else if ctx.agent.authority@ != ctx.authority@ {
        Some(ApexError::Unauthorized)
    } else {
        None
    }
}

/// The accounts after a domain change: the agent holds the new domain and
/// the new index entry points at the agent.
pub open spec fn renamed_agent(ctx: UpdateAgentDomain, new_domain: String) -> UpdateAgentDomain {
    UpdateAgentDomain {
        agent: AgentInfo { agent_domain: new_domain, ..ctx.agent },
        new_domain_index: DomainIndex { agent_id: ctx.agent.agent_id, bump: ctx.new_domain_index_bump },
        ..ctx
    }
}

/// Changes an agent's domain, given the hashes of the present and of the
/// new domain already computed; on failure nothing changes.
pub fn update_agent_domain_with_hashes(
    ctx: &mut UpdateAgentDomain,
    old_domain_hash: [u8; 32],
    new_domain: String,
    new_domain_hash: [u8; 32],
    current_hash: [u8; 32],
    computed_new_hash: [u8; 32],
) -> (r: Result<(), ApexError>)
    ensures
        match update_agent_domain_error(
            *old(ctx),
            old_domain_hash@,
            new_domain@,
            new_domain_hash@,
            current_hash@,
            computed_new_hash@,
        ) {
            Some(e) => r == Err::<(), ApexError>(e) && *final(ctx) == *old(ctx),
            None => r == Ok::<(), ApexError>(()) && *final(ctx) == renamed_agent(*old(ctx), new_domain),
        },
{
    if new_domain.as_str().is_empty() {
        return Err(ApexError::InvalidDomain);
    }
    if new_domain.as_str().as_bytes().len() > MAX_AGENT_DOMAIN_LEN {
        return Err(ApexError::InvalidDomain);
    }
    if !bytes32_eq(&current_hash, &old_domain_hash) {
        return Err(ApexError::InvalidDomainHash);
    }
    if !bytes32_eq(&computed_new_hash, &new_domain_hash) {
        return Err(ApexError::InvalidDomainHash);
    }
    if !bytes32_eq(&ctx.agent.authority, &ctx.authority) {
        return Err(ApexError::Unauthorized);
    }
    ctx.agent.agent_domain = new_domain;
    ctx.new_domain_index.agent_id = ctx.agent.agent_id;
    ctx.new_domain_index.bump = ctx.new_domain_index_bump;
    Ok(())
}

/// Changes an agent's domain from the one whose hash is `old_domain_hash`
/// to `new_domain`, whose hash the caller claims is `new_domain_hash`; on
/// failure nothing changes.
pub fn update_agent_domain(
    ctx: &mut UpdateAgentDomain,
    _agent_id: u64,
    old_domain_hash: [u8; 32],
    new_domain: String,
    new_domain_hash: [u8; 32],
) -> (r: Result<(), ApexError>)
    ensures
        match update_agent_domain_error(
            *old(ctx),
            old_domain_hash@,
            new_domain@,
            new_domain_hash@,
            solana_hash(domain_bytes(old(ctx).agent.agent_domain@)),
            solana_hash(domain_bytes(new_domain@)),
        ) {
            Some(e) => r == Err::<(), ApexError>(e) && *final(ctx) == *old(ctx),
            None => r == Ok::<(), ApexError>(()) && *final(ctx) == renamed_agent(*old(ctx), new_domain),
        },
{
    let current_hash = sha256(ctx.agent.agent_domain.as_str().as_bytes());
    let computed_new_hash = sha256(new_domain.as_str().as_bytes());
    update_agent_domain_with_hashes(
        ctx,
        old_domain_hash,
        new_domain,
        new_domain_hash,
        current_hash,
        computed_new_hash,
    )
}

/// What `update_agent_authority` reads and writes: the present authority
/// that signs, the agent, the index entry for the new authority and its
/// bump.
#[derive(Debug, Clone, PartialEq, Eq)]
pub struct UpdateAgentAuthority {
    pub current_authority: Pubkey,
    pub agent: AgentInfo,
    pub new_authority_index: AuthorityIndex,
    pub new_authority_index_bump: u8,
}

/// The accounts after a hand-over: the agent answers to the new key and
/// the new index entry points at the agent.
pub open spec fn handed_over(ctx: UpdateAgentAuthority, new_authority: Pubkey) -> UpdateAgentAuthority {
    UpdateAgentAuthority {
        agent: AgentInfo { authority: new_authority, ..ctx.agent },
        new_authority_index: AuthorityIndex {
            agent_id: ctx.agent.agent_id,
            bump: ctx.new_authority_index_bump,
        },
        ..ctx
    }
}

/// Hands an agent over to `new_authority`. Only the agent's present
/// authority may do so (`Unauthorized` otherwise, and nothing changes).
pub fn update_agent_authority(
    ctx: &mut UpdateAgentAuthority,
    _agent_id: u64,
    new_authority: Pubkey,
) -> (r: Result<(), ApexError>)
    ensures
        old(ctx).agent.authority@ != old(ctx).current_authority@ ==> r == Err::<(), ApexError>(
            ApexError::Unauthorized,
        ) && *final(ctx) == *old(ctx),
        old(ctx).agent.authority@ == old(ctx).current_authority@ ==> r == Ok::<(), ApexError>(())
            && *final(ctx) == handed_over(*old(ctx), new_authority),
{
    if !bytes32_eq(&ctx.agent.authority, &ctx.current_authority) {
        return Err(ApexError::Unauthorized);
    }
    ctx.agent.authority = new_authority;
    ctx.new_authority_index.agent_id = ctx.agent.agent_id;
    ctx.new_authority_index.bump = ctx.new_authority_index_bump;
    Ok(())
}

/// Agent ids are handed out one after another: after one successful
/// registration, the next one that succeeds gets the following id.
pub proof fn registrations_get_consecutive_ids(
    first: NewAgent,
    first_id: u64,
    first_domain: String,
    first_hash: Seq<u8>,
    first_computed: Seq<u8>,
    second: NewAgent,
    second_id: u64,
    second_domain: Seq<char>,
    second_hash: Seq<u8>,
    second_computed: Seq<u8>,
)
    requires
        new_agent_error(first, first_id, first_domain@, first_hash, first_computed) is None,
        second.state == registered_agent(first, first_id, first_domain).state,
        new_agent_error(second, second_id, second_domain, second_hash, second_computed) is None,
    ensures
        first_id == first.state.agent_count + 1,
        second_id == first_id + 1,
{
}

/// Once an agent has been handed over to a different key, the key that
/// held it before can neither hand it over again nor change its domain.
pub proof fn handover_revokes_previous_key(
    ctx: UpdateAgentAuthority,
    new_authority: Pubkey,
    retry: UpdateAgentAuthority,
    rename: UpdateAgentDomain,
    old_domain_hash: Seq<u8>,
    new_domain: Seq<char>,
    new_domain_hash: Seq<u8>,
    current_hash: Seq<u8>,
    computed_new_hash: Seq<u8>,
)
    requires
        ctx.agent.authority@ == ctx.current_authority@,
        new_authority@ != ctx.current_authority@,
        retry.agent == handed_over(ctx, new_authority).agent,
        retry.current_authority == ctx.current_authority,
        rename.agent == handed_over(ctx, new_authority).agent,
        rename.authority == ctx.current_authority,
    ensures
        retry.agent.authority@ != retry.current_authority@,
        update_agent_domain_error(
            rename,
            old_domain_hash,
            new_domain,
            new_domain_hash,
            current_hash,
            computed_new_hash,
        ) is Some,
{
}

} // verus!

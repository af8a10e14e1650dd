use vstd::bytes::{spec_u64_to_le_bytes, u64_to_le_bytes};
use vstd::prelude::*;

use crate::constants::FEEDBACK_SEED;
use crate::digest::{sha256_parts, solana_hashv};
use crate::errors::ApexError;
use crate::keys::{bytes32_eq, Pubkey};
use crate::state::{AgentInfo, FeedbackAuthorization};

verus! {

/// What `accept_feedback` reads and writes: the server agent's authority
/// that signs, the server agent, the new authorization account with its
/// address and bump.
#[derive(Debug, Clone, PartialEq, Eq)]
pub struct AcceptFeedback {
    pub server_authority: Pubkey,
    pub server_agent: AgentInfo,
    pub feedback_authorization: FeedbackAuthorization,
    pub feedback_authorization_key: Pubkey,
    pub feedback_authorization_bump: u8,
}

/// The byte strings whose hash is the authorization id, in order: the
/// feedback seed, both agent ids, the slot and the time (little-endian,
/// the time as its two's complement bits), the server authority and the
/// authorization account's address.
pub open spec fn feedback_preimage(
    client_agent_id: u64,
    server_agent_id: u64,
    slot: u64,
    unix_timestamp: i64,
    server_authority: Pubkey,
    feedback_key: Pubkey,
) -> Seq<Seq<u8>> {
    seq![
        FEEDBACK_SEED@,
        spec_u64_to_le_bytes(client_agent_id),
        spec_u64_to_le_bytes(server_agent_id),
        spec_u64_to_le_bytes(slot),
        spec_u64_to_le_bytes(unix_timestamp as u64),
        server_authority@,
        feedback_key@,
    ]
}

/// The views of a list of byte vectors.
pub open spec fn views_of(parts: Seq<Vec<u8>>) -> Seq<Seq<u8>> {
    parts.map_values(|p: Vec<u8>| p@)
}

/// Copies a byte slice into a vector.
pub fn bytes_to_vec(s: &[u8]) -> (r: Vec<u8>)
    ensures
        r@ == s@,
{
    let mut r: Vec<u8> = Vec::new();
    let mut i: usize = 0;
    while i < s.len()
        invariant
            0 <= i <= s@.len(),
            r@ == s@.subrange(0, i as int),
        decreases s@.len() - i,
    {
        r.push(s[i]);
        i = i + 1;
    }
    assert(s@.subrange(0, s@.len() as int) =~= s@);
    r
}

/// Builds the byte strings that `feedback_preimage` describes.
pub fn feedback_preimage_parts(
    client_agent_id: u64,
    server_agent_id: u64,
    slot: u64,
    unix_timestamp: i64,
    server_authority: &Pubkey,
    feedback_key: &Pubkey,
) -> (r: Vec<Vec<u8>>)
    ensures
        views_of(r@) == feedback_preimage(
            client_agent_id,
            server_agent_id,
            slot,
            unix_timestamp,
            *server_authority,
            *feedback_key,
        ),
{
    let seed: [u8; 8] = FEEDBACK_SEED;
    let mut parts: Vec<Vec<u8>> = Vec::new();
    parts.push(bytes_to_vec(seed.as_slice()));
    parts.push(u64_to_le_bytes(client_agent_id));
    parts.push(u64_to_le_bytes(server_agent_id));
    parts.push(u64_to_le_bytes(slot));
    parts.push(u64_to_le_bytes(unix_timestamp as u64));
    parts.push(bytes_to_vec(server_authority.as_slice()));
    parts.push(bytes_to_vec(feedback_key.as_slice()));
    assert(views_of(parts@) =~= feedback_preimage(
        client_agent_id,
        server_agent_id,
        slot,
        unix_timestamp,
        *server_authority,
        *feedback_key,
    ));
    parts
}

/// The accounts after an authorization: the record names both agents and
/// holds the id and the time it was granted.
pub open spec fn authorized(
    ctx: AcceptFeedback,
    client_agent_id: u64,
    server_agent_id: u64,
    unix_timestamp: i64,
    feedback_auth_id: [u8; 32],
) -> AcceptFeedback {
    AcceptFeedback {
        feedback_authorization: FeedbackAuthorization {
            client_agent_id: client_agent_id,
            server_agent_id: server_agent_id,
            feedback_auth_id: feedback_auth_id,
            authorized_at: unix_timestamp,
            bump: ctx.feedback_authorization_bump,
        },
        ..ctx
    }
}

/// Records that the server agent lets the client agent leave feedback,
/// under an id already computed. Only the server agent's authority may do
/// so (`Unauthorized` otherwise, and nothing changes).
pub fn accept_feedback_with_id(
    ctx: &mut AcceptFeedback,
    client_agent_id: u64,
    server_agent_id: u64,
    unix_timestamp: i64,
    feedback_auth_id: [u8; 32],
) -> (r: Result<(), ApexError>)
    ensures
        old(ctx).server_agent.authority@ != old(ctx).server_authority@ ==> r == Err::<(), ApexError>(
            ApexError::Unauthorized,
        ) && *final(ctx) == *old(ctx),
        old(ctx).server_agent.authority@ == old(ctx).server_authority@ ==> r == Ok::<(), ApexError>(())
            && *final(ctx) == authorized(
            *old(ctx),
            client_agent_id,
            server_agent_id,
            unix_timestamp,
            feedback_auth_id,
        ),
{
    if !bytes32_eq(&ctx.server_agent.authority, &ctx.server_authority) {
        return Err(ApexError::Unauthorized);
    }
    ctx.feedback_authorization.client_agent_id = client_agent_id;
    ctx.feedback_authorization.server_agent_id = server_agent_id;
    ctx.feedback_authorization.feedback_auth_id = feedback_auth_id;
    ctx.feedback_authorization.authorized_at = unix_timestamp;
    ctx.feedback_authorization.bump = ctx.feedback_authorization_bump;
    Ok(())
}

/// Records, at the given slot and time, that the server agent lets the
/// client agent leave feedback. The authorization id is the hash of
/// `feedback_preimage`, so it changes with the slot and the time. Only the
/// server agent's authority may do so (`Unauthorized` otherwise, and
/// nothing changes).
pub fn accept_feedback(
    ctx: &mut AcceptFeedback,
    client_agent_id: u64,
    server_agent_id: u64,
    slot: u64,
    unix_timestamp: i64,
) -> (r: Result<(), ApexError>)
    ensures
        old(ctx).server_agent.authority@ != old(ctx).server_authority@ ==> r == Err::<(), ApexError>(
            ApexError::Unauthorized,
        ) && *final(ctx) == *old(ctx),
        old(ctx).server_agent.authority@ == old(ctx).server_authority@ ==> {
            &&& r == Ok::<(), ApexError>(())
            &&& final(ctx).feedback_authorization.feedback_auth_id@ == solana_hashv(
                feedback_preimage(
                    client_agent_id,
                    server_agent_id,
                    slot,
                    unix_timestamp,
                    old(ctx).server_authority,
                    old(ctx).feedback_authorization_key,
                ),
            )
            &&& *final(ctx) == authorized(
                *old(ctx),
                client_agent_id,
                server_agent_id,
                unix_timestamp,
                final(ctx).feedback_authorization.feedback_auth_id,
            )
        },
{
    let parts = feedback_preimage_parts(
        client_agent_id,
        server_agent_id,
        slot,
        unix_timestamp,
        &ctx.server_authority,
        &ctx.feedback_authorization_key,
    );
    let feedback_auth_id = sha256_parts(&parts);
    accept_feedback_with_id(ctx, client_agent_id, server_agent_id, unix_timestamp, feedback_auth_id)
}

} // verus!

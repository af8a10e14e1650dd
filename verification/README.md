# apex_solana

The APEX registries (agent identity, feedback authorization, validation
requests, campaign escrow and ads) as a Solana program, with the
instruction logic verified by Verus.

- `src/` is the verified library. Each instruction is a function over the
  data of the accounts it reads and writes (a plain struct named after the
  instruction), plus the clock value it needs. It returns the refusal, or
  the amount that the program then moves (registration fee, campaign
  deposit, payment for an action, withdrawn budget).
  - `state.rs`: account data, remaining budget and campaign activity.
  - `identity.rs`: global state, agent registration, domain and authority
    changes.
  - `reputation.rs`: feedback authorizations.
  - `validation.rs`: validation requests and responses.
  - `campaign.rs`: campaign creation, updates, paid actions, withdrawals,
    and the escrow laws.
  - `ads.rs`: ad creation and updates.
  - `history.rs`: laws over whole sequences of instructions (ids handed
    out in order, the escrow over a campaign's life, a single refund).
  - `digest.rs`: the SHA-256 calls into `anchor_lang` (trusted wrappers).
  - `keys.rs`: 32-byte keys and their comparison.
- `app/` is the Anchor program: account validation, clock reads, lamport
  and SPL token transfers, and the account types with Anchor's derives,
  converted to and from the library's types.
- `tests/` runs the library on concrete accounts.

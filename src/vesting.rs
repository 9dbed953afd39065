use vstd::prelude::*;

use crate::accounts::{
    AccountKey, ClaimAccount, TokenVault, TransferAuthority, TransferRequest, TreasurySeeds,
    MAX_VAULT_NAME_LEN,
};
use crate::error::PepeDropError;
use crate::schedule::{calculate_available_tokens, lemma_unlocked_at_most_total, VestingSchedule};

verus! {

/// Amount newly unlocked for `claim` at `now`: what is unlocked less what
/// was already withdrawn, or nothing.
pub open spec fn claimable(s: VestingSchedule, claim: ClaimAccount, now: i64) -> int {
    let unlocked = s.unlocked(claim.total_tokens, claim.created_at, now);
    if unlocked > claim.tokens_claimed {
        unlocked - claim.tokens_claimed
    } else {
        0
    }
}

/// Withdraws what has newly unlocked for `claim` at `now`.
///
/// On success both counters grow by that amount and the returned transfer
/// moves it from the vault's treasury to `destination`, signed for by the
/// seeds of that treasury alone. On any error nothing changes.
pub fn claim_tokens(
    schedule: &VestingSchedule,
    claim: &mut ClaimAccount,
    vault: &mut TokenVault,
    vault_key: AccountKey,
    destination: AccountKey,
    now: i64,
) -> (r: Result<TransferRequest, PepeDropError>)
    requires
        schedule.well_formed(),
        old(claim).well_formed(),
        old(claim).token_vault == vault_key,
    ensures
        ({
            let c = *old(claim);
            let overflow = schedule.overflows(c.total_tokens, c.created_at, now);
            let amount = claimable(*schedule, c, now);
            &&& overflow ==> r == Err::<TransferRequest, PepeDropError>(
                PepeDropError::ArithmeticError,
            )
            &&& !overflow && amount == 0 ==> r == Err::<TransferRequest, PepeDropError>(
                PepeDropError::InsufficientUnlockedTokens,
            )
            &&& !overflow && amount > 0 && old(vault).tokens_claimed + amount > u64::MAX ==> r
                == Err::<TransferRequest, PepeDropError>(PepeDropError::ArithmeticError)
            &&& r is Ok <==> !overflow && amount > 0 && old(vault).tokens_claimed + amount
                <= u64::MAX
            &&& r is Ok ==> {
                &&& r->Ok_0.from_treasury(*old(vault), vault_key, destination, amount as u64)
                &&& *final(claim) == c.with_claimed(amount as u64)
                &&& *final(vault) == old(vault).with_claimed(amount as u64)
                &&& final(claim).tokens_claimed == schedule.unlocked(
                    c.total_tokens,
                    c.created_at,
                    now,
                )
                &&& final(claim).well_formed()
            }
            &&& r is Err ==> *final(claim) == c && *final(vault) == *old(vault)
            &&& c.tokens_claimed <= final(claim).tokens_claimed <= final(claim).total_tokens
        }),
{
    let available = match calculate_available_tokens(
        schedule,
        claim.total_tokens,
        claim.created_at,
        now,
    ) {
        Ok(v) => v,
        Err(e) => return Err(e),
    };
    proof {
        lemma_unlocked_at_most_total(*schedule, claim.total_tokens, claim.created_at, now);
    }
    let claimable_now: u64 = available.saturating_sub(claim.tokens_claimed);
    if claimable_now == 0 {
        return Err(PepeDropError::InsufficientUnlockedTokens);
    }
    let vault_claimed = match vault.tokens_claimed.checked_add(claimable_now) {
        Some(v) => v,
        None => return Err(PepeDropError::ArithmeticError),
    };
    claim.tokens_claimed = claim.tokens_claimed + claimable_now;
    vault.tokens_claimed = vault_claimed;
    Ok(TransferRequest {
        from: vault.treasury,
        to: destination,
        amount: claimable_now,
        authority: TransferAuthority::Treasury(TreasurySeeds::for_vault(vault_key, vault.treasury_bump)),
    })
}

/// Allocates `amount` of `vault` to `beneficiary`, as of `now`.
///
/// Refused with `InsufficientTokens` when the allocations would exceed the
/// deposit, and with `ArithmeticError` when the holder count is full; a
/// refusal changes nothing.
pub fn create_claim_account(
    vault: &mut TokenVault,
    vault_key: AccountKey,
    beneficiary: AccountKey,
    amount: u64,
    now: i64,
    bump: u8,
) -> (r: Result<ClaimAccount, PepeDropError>)
    requires
        old(vault).well_formed(),
    ensures
        ({
            let v = *old(vault);
            let fits = v.tokens_released + amount <= v.total_tokens;
            &&& !fits ==> r == Err::<ClaimAccount, PepeDropError>(PepeDropError::InsufficientTokens)
            &&& fits && v.total_token_holders == u64::MAX ==> r == Err::<ClaimAccount, PepeDropError>(
                PepeDropError::ArithmeticError,
            )
            &&& r is Ok <==> fits && v.total_token_holders < u64::MAX
            &&& r is Ok ==> *final(vault) == v.with_allocation(amount)
            &&& r is Ok ==> r->Ok_0 == (ClaimAccount {
                beneficiary,
                token_vault: vault_key,
                mint: v.mint,
                total_tokens: amount,
                tokens_claimed: 0,
                created_at: now,
                bump,
            })
            &&& r is Err ==> *final(vault) == v
            &&& final(vault).well_formed()
        }),
{
    if amount > vault.total_tokens - vault.tokens_released {
        return Err(PepeDropError::InsufficientTokens);
    }
    if vault.total_token_holders == u64::MAX {
        return Err(PepeDropError::ArithmeticError);
    }
    vault.tokens_released = vault.tokens_released + amount;
    vault.total_token_holders = vault.total_token_holders + 1;
    Ok(
        ClaimAccount {
            beneficiary,
            token_vault: vault_key,
            mint: vault.mint,
            total_tokens: amount,
            tokens_claimed: 0,
            created_at: now,
            bump,
        },
    )
}

/// The treasury of `vault` sends `amount` straight to `destination`, with
/// no vesting; `treasury_balance` is what the treasury holds now.
///
/// Refused with `InsufficientTokens` when `amount` exceeds that balance, and
/// with `ArithmeticError` when the claimed counter would overflow; a refusal
/// changes nothing.
pub fn send_tokens_to_okx(
    vault: &mut TokenVault,
    vault_key: AccountKey,
    treasury_balance: u64,
    destination: AccountKey,
    amount: u64,
) -> (r: Result<TransferRequest, PepeDropError>)
    ensures
        ({
            let v = *old(vault);
            let covered = amount <= treasury_balance;
            &&& !covered ==> r == Err::<TransferRequest, PepeDropError>(
                PepeDropError::InsufficientTokens,
            )
            &&& covered && v.tokens_claimed + amount > u64::MAX ==> r == Err::<
                TransferRequest,
                PepeDropError,
            >(PepeDropError::ArithmeticError)
            &&& r is Ok <==> covered && v.tokens_claimed + amount <= u64::MAX
            &&& r is Ok ==> r->Ok_0.from_treasury(v, vault_key, destination, amount)
            &&& r is Ok ==> *final(vault) == v.with_claimed(amount)
            &&& r is Err ==> *final(vault) == v
        }),
{
    if amount > treasury_balance {
        return Err(PepeDropError::InsufficientTokens);
    }
    let claimed = match vault.tokens_claimed.checked_add(amount) {
        Some(v) => v,
        None => return Err(PepeDropError::ArithmeticError),
    };
    vault.tokens_claimed = claimed;
    Ok(TransferRequest {
        from: vault.treasury,
        to: destination,
        amount,
        authority: TransferAuthority::Treasury(TreasurySeeds::for_vault(vault_key, vault.treasury_bump)),
    })
}

/// A new vault over the asset `mint`, with every counter at zero, and the
/// transfer that funds its treasury with `total_tokens` from `source`,
/// signed by `owner`.
pub fn initialize_token_vault(
    vault_name: String,
    owner: AccountKey,
    mint: AccountKey,
    treasury: AccountKey,
    source: AccountKey,
    total_tokens: u64,
    bump: u8,
    treasury_bump: u8,
) -> (r: (TokenVault, TransferRequest))
    requires
        vault_name@.len() <= MAX_VAULT_NAME_LEN,
    ensures
        r.0.well_formed(),
        r.0.vault_name@ == vault_name@,
        r.0.owner == owner,
        r.0.mint == mint,
        r.0.total_tokens == total_tokens,
        r.0.treasury == treasury,
        r.0.tokens_released == 0,
        r.0.tokens_claimed == 0,
        r.0.total_token_holders == 0,
        r.0.bump == bump,
        r.0.treasury_bump == treasury_bump,
        r.1 == (TransferRequest {
            from: source,
            to: treasury,
            amount: total_tokens,
            authority: TransferAuthority::Owner(owner),
        }),
{
    let vault = TokenVault {
        owner,
        vault_name,
        mint,
        total_tokens,
        treasury,
        tokens_released: 0,
        tokens_claimed: 0,
        total_token_holders: 0,
        bump,
        treasury_bump,
    };
    let funding = TransferRequest {
        from: source,
        to: treasury,
        amount: total_tokens,
        authority: TransferAuthority::Owner(owner),
    };
    (vault, funding)
}

/// A new vault for direct sends; it is laid out and funded exactly as
/// [`initialize_token_vault`] does, and differs only in the address that
/// the hosting program derives for it.
pub fn initialize_token_vault_for_okx(
    vault_name: String,
    owner: AccountKey,
    mint: AccountKey,
    treasury: AccountKey,
    source: AccountKey,
    total_tokens: u64,
    bump: u8,
    treasury_bump: u8,
) -> (r: (TokenVault, TransferRequest))
    requires
        vault_name@.len() <= MAX_VAULT_NAME_LEN,
    ensures
        r.0.well_formed(),
        r.0.vault_name@ == vault_name@,
        r.0.owner == owner,
        r.0.mint == mint,
        r.0.total_tokens == total_tokens,
        r.0.treasury == treasury,
        r.0.tokens_released == 0,
        r.0.tokens_claimed == 0,
        r.0.total_token_holders == 0,
        r.0.bump == bump,
        r.0.treasury_bump == treasury_bump,
        r.1 == (TransferRequest {
            from: source,
            to: treasury,
            amount: total_tokens,
            authority: TransferAuthority::Owner(owner),
        }),
{
    initialize_token_vault(vault_name, owner, mint, treasury, source, total_tokens, bump, treasury_bump)
}

} // verus!

//! Laws that relate a vault to the claim accounts allocated from it.
use vstd::prelude::*;

use crate::accounts::{ClaimAccount, TokenVault};
use crate::schedule::VestingSchedule;
use crate::vesting::claimable;

verus! {

/// Sum of the allocations of `claims`.
pub open spec fn total_allocated(claims: Seq<ClaimAccount>) -> int
    decreases claims.len(),
{
    if claims.len() == 0 {
        0
    } else {
        total_allocated(claims.drop_last()) + claims.last().total_tokens
    }
}

/// Sum of what has been withdrawn through `claims`.
pub open spec fn total_withdrawn(claims: Seq<ClaimAccount>) -> int
    decreases claims.len(),
{
    if claims.len() == 0 {
        0
    } else {
        total_withdrawn(claims.drop_last()) + claims.last().tokens_claimed
    }
}

/// `claims` are exactly the claim accounts of the vested vault `vault`: its
/// counters are their sums, and each of them is well formed.
pub open spec fn ledger_consistent(vault: TokenVault, claims: Seq<ClaimAccount>) -> bool {
    &&& vault.well_formed()
    &&& vault.tokens_released == total_allocated(claims)
    &&& vault.tokens_claimed == total_withdrawn(claims)
    &&& forall|i: int| 0 <= i < claims.len() ==> #[trigger] claims[i].well_formed()
}

proof fn lemma_withdrawn_at_most_allocated(claims: Seq<ClaimAccount>)
    requires
        forall|i: int| 0 <= i < claims.len() ==> #[trigger] claims[i].well_formed(),
    ensures
        0 <= total_withdrawn(claims) <= total_allocated(claims),
    decreases claims.len(),
{
    if claims.len() > 0 {
        let rest = claims.drop_last();
        assert forall|i: int| 0 <= i < rest.len() implies #[trigger] rest[i].well_formed() by {
            assert(rest[i] == claims[i]);
        }
        lemma_withdrawn_at_most_allocated(rest);
        assert(claims.last().well_formed());
    }
}

proof fn lemma_sums_after_update(claims: Seq<ClaimAccount>, i: int, c: ClaimAccount)
    requires
        0 <= i < claims.len(),
    ensures
        total_allocated(claims.update(i, c)) == total_allocated(claims) - claims[i].total_tokens
            + c.total_tokens,
        total_withdrawn(claims.update(i, c)) == total_withdrawn(claims) - claims[i].tokens_claimed
            + c.tokens_claimed,
    decreases claims.len(),
{
    let updated = claims.update(i, c);
    if i == claims.len() - 1 {
        assert(updated.drop_last() =~= claims.drop_last());
    } else {
        lemma_sums_after_update(claims.drop_last(), i, c);
        assert(updated.drop_last() =~= claims.drop_last().update(i, c));
    }
}

/// In a consistent ledger nothing beyond the deposit is allocated and
/// nothing beyond the allocations is withdrawn.
pub proof fn lemma_ledger_bounds(vault: TokenVault, claims: Seq<ClaimAccount>)
    requires
        ledger_consistent(vault, claims),
    ensures
        vault.tokens_claimed <= vault.tokens_released <= vault.total_tokens,
        forall|i: int|
            0 <= i < claims.len() ==> #[trigger] claims[i].tokens_claimed
                <= claims[i].total_tokens,
{
    lemma_withdrawn_at_most_allocated(claims);
    assert forall|i: int| 0 <= i < claims.len() implies #[trigger] claims[i].tokens_claimed
        <= claims[i].total_tokens by {
        assert(claims[i].well_formed());
    }
}

/// A successful allocation, which adds a fresh claim account, keeps the
/// ledger consistent.
pub proof fn lemma_allocation_keeps_ledger(
    vault: TokenVault,
    claims: Seq<ClaimAccount>,
    amount: u64,
    fresh: ClaimAccount,
)
    requires
        ledger_consistent(vault, claims),
        vault.tokens_released + amount <= vault.total_tokens,
        vault.total_token_holders < u64::MAX,
        fresh.total_tokens == amount,
        fresh.tokens_claimed == 0,
    ensures
        ledger_consistent(vault.with_allocation(amount), claims.push(fresh)),
{
    let pushed = claims.push(fresh);
    assert(pushed.drop_last() =~= claims);
    assert forall|i: int| 0 <= i < pushed.len() implies #[trigger] pushed[i].well_formed() by {
        if i < claims.len() {
            assert(pushed[i] == claims[i]);
        }
    }
}

/// A successful claim of `amount` through the claim account at `index`
/// keeps the ledger consistent, and the vault's counter cannot overflow on
/// the way.
pub proof fn lemma_claim_keeps_ledger(
    vault: TokenVault,
    claims: Seq<ClaimAccount>,
    index: int,
    amount: u64,
)
    requires
        ledger_consistent(vault, claims),
        0 <= index < claims.len(),
        claims[index].tokens_claimed + amount <= claims[index].total_tokens,
    ensures
        vault.tokens_claimed + amount <= vault.tokens_released,
        ledger_consistent(
            vault.with_claimed(amount),
            claims.update(index, claims[index].with_claimed(amount)),
        ),
{
    let after = claims[index].with_claimed(amount);
    let updated = claims.update(index, after);
    lemma_sums_after_update(claims, index, after);
    assert forall|i: int| 0 <= i < updated.len() implies #[trigger] updated[i].well_formed() by {
        if i != index {
            assert(updated[i] == claims[i]);
        }
    }
    lemma_withdrawn_at_most_allocated(updated);
}

/// Once a claim at `first` has withdrawn everything unlocked then, a claim
/// at `second` finds nothing to withdraw unless more has unlocked since.
pub proof fn lemma_no_claim_without_new_unlock(
    s: VestingSchedule,
    claim: ClaimAccount,
    first: i64,
    second: i64,
)
    requires
        claim.tokens_claimed == s.unlocked(claim.total_tokens, claim.created_at, first),
        s.unlocked(claim.total_tokens, claim.created_at, second) == s.unlocked(
            claim.total_tokens,
            claim.created_at,
            first,
        ),
    ensures
        claimable(s, claim, second) == 0,
{
}

/// Where the treasury holds the deposit less what has left it, a transfer
/// of `amount` that the balance covers keeps that so.
pub proof fn lemma_transfer_keeps_treasury_balance(vault: TokenVault, balance: u64, amount: u64)
    requires
        balance == vault.total_tokens - vault.tokens_claimed,
        amount <= balance,
    ensures
        vault.tokens_claimed + amount <= u64::MAX,
        balance - amount == vault.with_claimed(amount).total_tokens - vault.with_claimed(
            amount,
        ).tokens_claimed,
{
}

} // verus!

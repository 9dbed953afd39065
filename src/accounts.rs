use vstd::prelude::*;

verus! {

/// The 32-byte address of an account on the hosting ledger.
pub type AccountKey = [u8; 32];

/// Longest vault name, in characters.
pub const MAX_VAULT_NAME_LEN: usize = 40;

/// A funding pool for one asset, owned by one controller.
#[derive(Clone, Debug, PartialEq, Eq)]
pub struct TokenVault {
    pub owner: AccountKey,
    pub vault_name: String,
    pub mint: AccountKey,
    /// Amount deposited into the treasury at creation; never changes.
    pub total_tokens: u64,
    pub treasury: AccountKey,
    /// Sum of the allocations of every claim account of this vault.
    pub tokens_released: u64,
    /// Sum moved out of the treasury, by claims and direct sends.
    pub tokens_claimed: u64,
    pub total_token_holders: u64,
    pub bump: u8,
    pub treasury_bump: u8,
}

impl TokenVault {
    /// Allocations never exceed the deposit, and the name fits its slot.
    pub open spec fn well_formed(self) -> bool {
        &&& self.tokens_released <= self.total_tokens
        &&& self.vault_name@.len() <= MAX_VAULT_NAME_LEN
    }

    /// This vault after a new allocation of `amount` to one more holder.
    pub open spec fn with_allocation(self, amount: u64) -> TokenVault {
        TokenVault {
            tokens_released: (self.tokens_released + amount) as u64,
            total_token_holders: (self.total_token_holders + 1) as u64,
            ..self
        }
    }

    /// This vault after `amount` more has left its treasury.
    pub open spec fn with_claimed(self, amount: u64) -> TokenVault {
        TokenVault { tokens_claimed: (self.tokens_claimed + amount) as u64, ..self }
    }
}

/// The vesting record of one beneficiary in one vault.
#[derive(Clone, Copy, Debug, PartialEq, Eq)]
pub struct ClaimAccount {
    pub beneficiary: AccountKey,
    pub token_vault: AccountKey,
    pub mint: AccountKey,
    /// The allocation; never changes.
    pub total_tokens: u64,
    /// Amount already withdrawn; only grows.
    pub tokens_claimed: u64,
    /// Unix time at which the allocation was made.
    pub created_at: i64,
    pub bump: u8,
}

impl ClaimAccount {
    /// Nothing beyond the allocation has been withdrawn.
    pub open spec fn well_formed(self) -> bool {
        self.tokens_claimed <= self.total_tokens
    }

    /// This record after `amount` more has been withdrawn.
    pub open spec fn with_claimed(self, amount: u64) -> ClaimAccount {
        ClaimAccount { tokens_claimed: (self.tokens_claimed + amount) as u64, ..self }
    }
}

/// The tag that, with a vault's address, derives its treasury: the ASCII
/// bytes of `treasury`.
pub open spec fn treasury_tag() -> Seq<u8> {
    seq![116u8, 114u8, 101u8, 97u8, 115u8, 117u8, 114u8, 121u8]
}

/// The seeds by which the program signs for the treasury of one vault.
#[derive(Clone, Debug, PartialEq, Eq)]
pub struct TreasurySeeds {
    pub tag: Vec<u8>,
    pub vault: AccountKey,
    pub bump: u8,
}

impl TreasurySeeds {
    /// The seeds of the treasury of the vault at `vault`.
    pub fn for_vault(vault: AccountKey, bump: u8) -> (r: TreasurySeeds)
        ensures
            r.is_treasury_of(vault, bump),
    {
        TreasurySeeds { tag: vec![116u8, 114u8, 101u8, 97u8, 115u8, 117u8, 114u8, 121u8], vault, bump }
    }

    pub open spec fn is_treasury_of(self, vault: AccountKey, bump: u8) -> bool {
        &&& self.tag@ == treasury_tag()
        &&& self.vault == vault
        &&& self.bump == bump
    }
}

/// Who signs a transfer.
#[derive(Clone, Debug, PartialEq, Eq)]
pub enum TransferAuthority {
    /// The owner of the source account, who signed the instruction.
    Owner(AccountKey),
    /// The program, for the treasury derived from these seeds.
    Treasury(TreasurySeeds),
}

/// A transfer that an operation asks the hosting program to perform.
#[derive(Clone, Debug, PartialEq, Eq)]
pub struct TransferRequest {
    pub from: AccountKey,
    pub to: AccountKey,
    pub amount: u64,
    pub authority: TransferAuthority,
}

impl TransferRequest {
    /// A transfer of `amount` out of the treasury of `vault` (at address
    /// `vault_key`) to `to`, signed for by that treasury's own seeds.
    pub open spec fn from_treasury(
        self,
        vault: TokenVault,
        vault_key: AccountKey,
        to: AccountKey,
        amount: u64,
    ) -> bool {
        &&& self.from == vault.treasury
        &&& self.to == to
        &&& self.amount == amount
        &&& match self.authority {
            TransferAuthority::Treasury(seeds) => seeds.is_treasury_of(vault_key, vault.treasury_bump),
            TransferAuthority::Owner(_) => false,
        }
    }
}

/// Notice that a beneficiary withdrew `amount`, leaving `remaining` in the
/// treasury.
#[derive(Clone, Copy, Debug, PartialEq, Eq)]
pub struct TokensClaimed {
    pub beneficiary: AccountKey,
    pub amount: u64,
    pub remaining: u64,
}

/// Notice that the owner sent `amount` directly to `destination`, leaving
/// `remaining` in the treasury.
#[derive(Clone, Copy, Debug, PartialEq, Eq)]
pub struct TokensSentToOkx {
    pub destination: AccountKey,
    pub amount: u64,
    pub remaining: u64,
}

} // verus!

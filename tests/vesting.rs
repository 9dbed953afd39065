use pepedrop::{
    calculate_available_tokens, claim_tokens, create_claim_account, initialize_token_vault,
    initialize_token_vault_for_okx, send_tokens_to_okx, AccountKey, ClaimAccount, PepeDropError,
    TokenVault, TransferAuthority, TransferRequest, TreasurySeeds, VestingSchedule,
};

const DAY: i64 = 86_400;
const T0: i64 = 1_700_000_000;

const OWNER: AccountKey = [1; 32];
const MINT: AccountKey = [2; 32];
const TREASURY: AccountKey = [3; 32];
const SOURCE: AccountKey = [4; 32];
const VAULT_KEY: AccountKey = [5; 32];
const ALICE: AccountKey = [6; 32];
const ALICE_ATA: AccountKey = [7; 32];
const BOB: AccountKey = [8; 32];
const DESTINATION: AccountKey = [9; 32];

fn new_vault(total: u64) -> TokenVault {
    initialize_token_vault("airdrop".to_string(), OWNER, MINT, TREASURY, SOURCE, total, 254, 253).0
}

fn treasury_transfer(to: AccountKey, amount: u64) -> TransferRequest {
    TransferRequest {
        from: TREASURY,
        to,
        amount,
        authority: TransferAuthority::Treasury(TreasurySeeds::for_vault(VAULT_KEY, 253)),
    }
}

#[test]
fn initialize_sets_counters_and_funds_treasury() {
    let (vault, funding) =
        initialize_token_vault("airdrop".to_string(), OWNER, MINT, TREASURY, SOURCE, 5_000, 254, 253);
    assert_eq!(vault.vault_name, "airdrop");
    assert_eq!(vault.owner, OWNER);
    assert_eq!(vault.mint, MINT);
    assert_eq!(vault.treasury, TREASURY);
    assert_eq!(vault.total_tokens, 5_000);
    assert_eq!(vault.tokens_released, 0);
    assert_eq!(vault.tokens_claimed, 0);
    assert_eq!(vault.total_token_holders, 0);
    assert_eq!(vault.bump, 254);
    assert_eq!(vault.treasury_bump, 253);
    assert_eq!(
        funding,
        TransferRequest { from: SOURCE, to: TREASURY, amount: 5_000, authority: TransferAuthority::Owner(OWNER) }
    );
}

#[test]
fn initialize_for_direct_sends_matches_plain_vault() {
    let plain = initialize_token_vault("okx".to_string(), OWNER, MINT, TREASURY, SOURCE, 77, 1, 2);
    let direct = initialize_token_vault_for_okx("okx".to_string(), OWNER, MINT, TREASURY, SOURCE, 77, 1, 2);
    assert_eq!(plain, direct);
}

#[test]
fn treasury_seeds_use_the_treasury_tag() {
    let seeds = TreasurySeeds::for_vault(VAULT_KEY, 9);
    assert_eq!(seeds.tag, b"treasury".to_vec());
    assert_eq!(seeds.vault, VAULT_KEY);
    assert_eq!(seeds.bump, 9);
}

#[test]
fn standard_schedule_values() {
    let s = VestingSchedule::standard();
    assert_eq!(s.initial_percent, 20);
    assert_eq!(s.period_percent, 10);
    assert_eq!(s.period_secs, 14 * 86_400);
    assert_eq!(s.max_periods, 8);
}

#[test]
fn unlocked_at_creation_is_initial_fraction() {
    let s = VestingSchedule::standard();
    assert_eq!(calculate_available_tokens(&s, 100_000, T0, T0), Ok(20_000));
}

#[test]
fn unlocked_grows_by_period() {
    let s = VestingSchedule::standard();
    assert_eq!(calculate_available_tokens(&s, 100_000, T0, T0 + 14 * DAY - 1), Ok(20_000));
    assert_eq!(calculate_available_tokens(&s, 100_000, T0, T0 + 14 * DAY), Ok(30_000));
    assert_eq!(calculate_available_tokens(&s, 100_000, T0, T0 + 28 * DAY), Ok(40_000));
    assert_eq!(calculate_available_tokens(&s, 100_000, T0, T0 + 112 * DAY), Ok(100_000));
    assert_eq!(calculate_available_tokens(&s, 100_000, T0, T0 + 200 * DAY), Ok(100_000));
}

#[test]
fn unlocked_is_non_decreasing_in_time() {
    let s = VestingSchedule::standard();
    let mut last = 0;
    let mut now = T0 - 3 * DAY;
    while now <= T0 + 130 * DAY {
        let v = calculate_available_tokens(&s, 123_450, T0, now).unwrap();
        assert!(v >= last);
        assert!(v <= 123_450);
        last = v;
        now += DAY / 2;
    }
    assert_eq!(last, 123_450);
}

#[test]
fn clock_before_creation_counts_as_no_time() {
    let s = VestingSchedule::standard();
    assert_eq!(calculate_available_tokens(&s, 100_000, T0, T0 - 30 * DAY), Ok(20_000));
    assert_eq!(calculate_available_tokens(&s, 100_000, i64::MAX, i64::MIN), Ok(20_000));
    assert_eq!(calculate_available_tokens(&s, 100_000, i64::MIN, i64::MAX), Ok(100_000));
}

#[test]
fn each_product_is_rounded_on_its_own() {
    let s = VestingSchedule::standard();
    // 9 * 20 / 100 = 1 and 9 * 10 / 100 = 0, where 9 * 30 / 100 would be 2.
    assert_eq!(calculate_available_tokens(&s, 9, T0, T0 + 14 * DAY), Ok(1));
    // 3 * 20 / 100 = 0 and 3 * 80 / 100 = 2: the rounding loses a token.
    assert_eq!(calculate_available_tokens(&s, 3, T0, T0 + 200 * DAY), Ok(2));
}

#[test]
fn other_schedule_is_honoured() {
    let s = VestingSchedule { initial_percent: 10, period_percent: 10, period_secs: 30 * 86_400, max_periods: 9 };
    assert_eq!(calculate_available_tokens(&s, 1_000, T0, T0), Ok(100));
    assert_eq!(calculate_available_tokens(&s, 1_000, T0, T0 + 60 * DAY), Ok(300));
    assert_eq!(calculate_available_tokens(&s, 1_000, T0, T0 + 270 * DAY), Ok(1_000));
}

#[test]
fn unlock_overflow_is_arithmetic_error() {
    let s = VestingSchedule::standard();
    assert_eq!(calculate_available_tokens(&s, u64::MAX, T0, T0), Err(PepeDropError::ArithmeticError));
    let limit = u64::MAX / 80;
    assert!(calculate_available_tokens(&s, limit, T0, T0 + 112 * DAY).is_ok());
    assert_eq!(
        calculate_available_tokens(&s, limit + 1, T0, T0 + 112 * DAY),
        Err(PepeDropError::ArithmeticError)
    );
    assert!(calculate_available_tokens(&s, limit + 1, T0, T0 + 14 * DAY).is_ok());
}

#[test]
fn create_records_allocation() {
    let mut vault = new_vault(1_000);
    let claim = create_claim_account(&mut vault, VAULT_KEY, ALICE, 400, T0, 7).unwrap();
    assert_eq!(
        claim,
        ClaimAccount {
            beneficiary: ALICE,
            token_vault: VAULT_KEY,
            mint: MINT,
            total_tokens: 400,
            tokens_claimed: 0,
            created_at: T0,
            bump: 7,
        }
    );
    assert_eq!(vault.tokens_released, 400);
    assert_eq!(vault.total_token_holders, 1);
    assert_eq!(vault.tokens_claimed, 0);
    let second = create_claim_account(&mut vault, VAULT_KEY, BOB, 600, T0, 8).unwrap();
    assert_eq!(second.total_tokens, 600);
    assert_eq!(vault.tokens_released, 1_000);
    assert_eq!(vault.total_token_holders, 2);
}

#[test]
fn create_beyond_pool_is_refused() {
    let mut vault = new_vault(1_000_000);
    vault.tokens_released = 900_000;
    let before = vault.clone();
    assert_eq!(
        create_claim_account(&mut vault, VAULT_KEY, ALICE, 200_000, T0, 7),
        Err(PepeDropError::InsufficientTokens)
    );
    assert_eq!(vault, before);
    assert!(create_claim_account(&mut vault, VAULT_KEY, ALICE, 100_000, T0, 7).is_ok());
    assert_eq!(vault.tokens_released, 1_000_000);
}

#[test]
fn create_with_full_holder_count_is_arithmetic_error() {
    let mut vault = new_vault(1_000);
    vault.total_token_holders = u64::MAX;
    let before = vault.clone();
    assert_eq!(
        create_claim_account(&mut vault, VAULT_KEY, ALICE, 1, T0, 7),
        Err(PepeDropError::ArithmeticError)
    );
    assert_eq!(vault, before);
}

#[test]
fn vesting_end_to_end() {
    let s = VestingSchedule::standard();
    let mut vault = new_vault(100_000);
    let mut claim = create_claim_account(&mut vault, VAULT_KEY, ALICE, 100_000, T0, 7).unwrap();

    let t = claim_tokens(&s, &mut claim, &mut vault, VAULT_KEY, ALICE_ATA, T0).unwrap();
    assert_eq!(t, treasury_transfer(ALICE_ATA, 20_000));
    assert_eq!(claim.tokens_claimed, 20_000);

    let t = claim_tokens(&s, &mut claim, &mut vault, VAULT_KEY, ALICE_ATA, T0 + 14 * DAY).unwrap();
    assert_eq!(t.amount, 10_000);
    assert_eq!(claim.tokens_claimed, 30_000);

    let t = claim_tokens(&s, &mut claim, &mut vault, VAULT_KEY, ALICE_ATA, T0 + 112 * DAY).unwrap();
    assert_eq!(t.amount, 70_000);
    assert_eq!(claim.tokens_claimed, 100_000);
    assert_eq!(vault.tokens_claimed, 100_000);

    assert_eq!(
        claim_tokens(&s, &mut claim, &mut vault, VAULT_KEY, ALICE_ATA, T0 + 200 * DAY),
        Err(PepeDropError::InsufficientUnlockedTokens)
    );
    assert_eq!(claim.tokens_claimed, 100_000);
    assert_eq!(vault.tokens_claimed, 100_000);
}

#[test]
fn second_claim_at_same_instant_changes_nothing() {
    let s = VestingSchedule::standard();
    let mut vault = new_vault(50_000);
    let mut claim = create_claim_account(&mut vault, VAULT_KEY, ALICE, 50_000, T0, 7).unwrap();
    let now = T0 + 20 * DAY;
    let t = claim_tokens(&s, &mut claim, &mut vault, VAULT_KEY, ALICE_ATA, now).unwrap();
    assert_eq!(t.amount, 15_000);
    let (claim_before, vault_before) = (claim, vault.clone());
    assert_eq!(
        claim_tokens(&s, &mut claim, &mut vault, VAULT_KEY, ALICE_ATA, now),
        Err(PepeDropError::InsufficientUnlockedTokens)
    );
    assert_eq!(
        claim_tokens(&s, &mut claim, &mut vault, VAULT_KEY, ALICE_ATA, now + DAY),
        Err(PepeDropError::InsufficientUnlockedTokens)
    );
    assert_eq!(claim, claim_before);
    assert_eq!(vault, vault_before);
}

#[test]
fn claimed_counters_stay_within_bounds() {
    let s = VestingSchedule::standard();
    let mut vault = new_vault(10_000);
    let mut a = create_claim_account(&mut vault, VAULT_KEY, ALICE, 6_000, T0, 1).unwrap();
    let mut b = create_claim_account(&mut vault, VAULT_KEY, BOB, 3_000, T0 + DAY, 2).unwrap();
    let mut last_a = 0;
    let mut now = T0;
    while now <= T0 + 150 * DAY {
        let _ = claim_tokens(&s, &mut a, &mut vault, VAULT_KEY, ALICE_ATA, now);
        let _ = claim_tokens(&s, &mut b, &mut vault, VAULT_KEY, DESTINATION, now);
        assert!(a.tokens_claimed >= last_a);
        assert!(a.tokens_claimed <= a.total_tokens);
        assert!(b.tokens_claimed <= b.total_tokens);
        assert!(vault.tokens_released <= vault.total_tokens);
        assert!(vault.tokens_claimed <= vault.tokens_released);
        assert_eq!(vault.tokens_claimed, a.tokens_claimed + b.tokens_claimed);
        last_a = a.tokens_claimed;
        now += 5 * DAY;
    }
    assert_eq!(vault.tokens_claimed, 9_000);
}

#[test]
fn claim_with_unlock_overflow_is_arithmetic_error() {
    let s = VestingSchedule::standard();
    let mut vault = new_vault(u64::MAX);
    let mut claim = create_claim_account(&mut vault, VAULT_KEY, ALICE, u64::MAX, T0, 7).unwrap();
    let before = (claim, vault.clone());
    assert_eq!(
        claim_tokens(&s, &mut claim, &mut vault, VAULT_KEY, ALICE_ATA, T0),
        Err(PepeDropError::ArithmeticError)
    );
    assert_eq!((claim, vault), before);
}

#[test]
fn claim_with_vault_counter_overflow_is_arithmetic_error() {
    let s = VestingSchedule::standard();
    let mut vault = new_vault(1_000);
    let mut claim = create_claim_account(&mut vault, VAULT_KEY, ALICE, 1_000, T0, 7).unwrap();
    vault.tokens_claimed = u64::MAX - 10;
    let before = (claim, vault.clone());
    assert_eq!(
        claim_tokens(&s, &mut claim, &mut vault, VAULT_KEY, ALICE_ATA, T0),
        Err(PepeDropError::ArithmeticError)
    );
    assert_eq!((claim, vault), before);
}

#[test]
fn send_moves_tokens_from_treasury() {
    let mut vault = new_vault(1_000);
    let t = send_tokens_to_okx(&mut vault, VAULT_KEY, 1_000, DESTINATION, 250).unwrap();
    assert_eq!(t, treasury_transfer(DESTINATION, 250));
    assert_eq!(vault.tokens_claimed, 250);
    assert_eq!(vault.tokens_released, 0);
    let t = send_tokens_to_okx(&mut vault, VAULT_KEY, 750, DESTINATION, 750).unwrap();
    assert_eq!(t.amount, 750);
    assert_eq!(vault.tokens_claimed, 1_000);
}

#[test]
fn send_beyond_balance_is_refused() {
    let mut vault = new_vault(1_000);
    vault.tokens_claimed = 400;
    let before = vault.clone();
    assert_eq!(
        send_tokens_to_okx(&mut vault, VAULT_KEY, 600, DESTINATION, 601),
        Err(PepeDropError::InsufficientTokens)
    );
    assert_eq!(vault, before);
}

#[test]
fn send_with_counter_overflow_is_arithmetic_error() {
    let mut vault = new_vault(1_000);
    vault.tokens_claimed = u64::MAX;
    let before = vault.clone();
    assert_eq!(
        send_tokens_to_okx(&mut vault, VAULT_KEY, 1_000, DESTINATION, 1),
        Err(PepeDropError::ArithmeticError)
    );
    assert_eq!(vault, before);
}

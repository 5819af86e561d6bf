use emojimarket_program::error::ErrorCode;
use emojimarket_program::instructions::bet::PlaceBet;
use emojimarket_program::instructions::claim::Claim;
use emojimarket_program::instructions::create_market::CreateMarket;
use emojimarket_program::instructions::end_market::EndMarket;
use emojimarket_program::instructions::initialize_config::InitializeConfig;
use emojimarket_program::math::{calculate_malus, calculate_quadratic_uplift, calculate_unit_price};
use emojimarket_program::pubkey::Pubkey;
use emojimarket_program::state::{BetAccount, Config, Market, MarketStatus};
use emojimarket_program::{bet, claim, create_market, end_market, initialize_config};

const START: i64 = 1_700_000_000;

fn key(b: u8) -> Pubkey {
    Pubkey::new_from_array([b; 32])
}

fn admin() -> Pubkey {
    key(1)
}

fn creator() -> Pubkey {
    key(2)
}

fn market_key() -> Pubkey {
    key(9)
}

fn scenario_config() -> Config {
    initialize_config(&InitializeConfig { bump: 254 }, admin(), 200, 300, 1000, 0, 0, 0, 60, 86400)
        .unwrap()
}

fn new_market(config: Config, end_ts: i64) -> Market {
    let ctx = CreateMarket { config, creator: creator(), now: START, bump: 253 };
    create_market(&ctx, 1, "Which emoji wins?".to_string(), None, end_ts).unwrap()
}

fn place(market: Market, bet_account: BetAccount, user: Pubkey, now: i64, emoji: u32, qty: u64) -> (Market, BetAccount, Result<u64, ErrorCode>) {
    let mut ctx = PlaceBet { market_key: market_key(), market, bet: bet_account, user, now, bet_bump: 250 };
    let r = bet(&mut ctx, 1, emoji, qty);
    (ctx.market, ctx.bet, r)
}

fn close(config: Config, market: Market, caller: Pubkey, now: i64) -> (Market, Result<(), ErrorCode>) {
    let mut ctx = EndMarket { config, market, caller, now };
    let r = end_market(&mut ctx, 1);
    (ctx.market, r)
}

fn take(market: Market, bet_account: BetAccount, user: Pubkey) -> (BetAccount, Result<u64, ErrorCode>) {
    let mut ctx = Claim { market, bet: bet_account, user };
    let r = claim(&mut ctx, 1);
    (ctx.bet, r)
}

#[test]
fn config_validation_errors() {
    let ctx = InitializeConfig { bump: 1 };
    assert_eq!(
        initialize_config(&ctx, admin(), 6000, 5000, 1000, 0, 0, 0, 60, 86400).unwrap_err(),
        ErrorCode::FeesTooHigh
    );
    assert_eq!(
        initialize_config(&ctx, admin(), 200, 300, 1000, 0, 0, 0, 60, 60).unwrap_err(),
        ErrorCode::InvalidDurationRange
    );
    assert_eq!(
        initialize_config(&ctx, admin(), 200, 300, 0, 0, 0, 0, 60, 86400).unwrap_err(),
        ErrorCode::InvalidBasePrice
    );
    let c = initialize_config(&ctx, admin(), 5000, 5000, 1, 7, 8, 9, 10, 11).unwrap();
    assert_eq!(c.platform_fee_bps, 5000);
    assert_eq!(c.creator_fee_bps, 5000);
    assert_eq!(c.malus_k_millis, 7);
    assert_eq!(c.quad_a_micros, 8);
    assert_eq!(c.quad_b_micros, 9);
    assert_eq!(c.admin_address, admin());
    assert_eq!(c.bump, 1);
}

#[test]
fn create_market_snapshots_config() {
    let config = scenario_config();
    let ctx = CreateMarket { config, creator: creator(), now: START, bump: 7 };
    let m = create_market(&ctx, 42, "t".to_string(), Some("ipfs://x".to_string()), START + 3600).unwrap();
    assert_eq!(m.creator, creator());
    assert_eq!(m.title, "t");
    assert_eq!(m.image_url, Some("ipfs://x".to_string()));
    assert_eq!(m.start_ts, START);
    assert_eq!(m.end_ts, START + 3600);
    assert_eq!(m.status, MarketStatus::Active);
    assert_eq!(m.total_pot, 0);
    assert_eq!(m.total_votes, 0);
    assert!(m.emoji_ids.is_empty() && m.emoji_votes.is_empty());
    assert_eq!(m.winner, None);
    assert_eq!(m.platform_fee_bps, 200);
    assert_eq!(m.creator_fee_bps, 300);
    assert_eq!(m.base_price_lamports, 1000);
    assert_eq!(m.min_duration_secs, 60);
    assert_eq!(m.max_duration_secs, 86400);
    assert_eq!(m.bump, 7);
}

#[test]
fn create_market_errors() {
    let config = scenario_config();
    let ctx = CreateMarket { config, creator: creator(), now: START, bump: 7 };
    let long_title = "a".repeat(101);
    assert_eq!(create_market(&ctx, 1, long_title, None, START + 3600).unwrap_err(), ErrorCode::TitleTooLong);
    assert!(create_market(&ctx, 1, "a".repeat(100), None, START + 3600).is_ok());
    // 51 two-byte characters: 102 bytes
    assert_eq!(create_market(&ctx, 1, "é".repeat(51), None, START + 3600).unwrap_err(), ErrorCode::TitleTooLong);
    assert_eq!(
        create_market(&ctx, 1, "t".to_string(), Some("u".repeat(201)), START + 3600).unwrap_err(),
        ErrorCode::ImageUrlTooLong
    );
    assert_eq!(create_market(&ctx, 1, "t".to_string(), None, START).unwrap_err(), ErrorCode::DurationTooShort);
    assert_eq!(create_market(&ctx, 1, "t".to_string(), None, START - 5).unwrap_err(), ErrorCode::DurationTooShort);
    assert_eq!(create_market(&ctx, 1, "t".to_string(), None, START + 59).unwrap_err(), ErrorCode::DurationTooShort);
    assert!(create_market(&ctx, 1, "t".to_string(), None, START + 60).is_ok());
    assert!(create_market(&ctx, 1, "t".to_string(), None, START + 86400).is_ok());
    assert_eq!(create_market(&ctx, 1, "t".to_string(), None, START + 86401).unwrap_err(), ErrorCode::DurationTooLong);
    let early = CreateMarket { config, creator: creator(), now: i64::MIN, bump: 7 };
    assert_eq!(create_market(&early, 1, "t".to_string(), None, 10).unwrap_err(), ErrorCode::ArithmeticUnderflow);
}

#[test]
fn single_bettor_full_lifecycle() {
    let config = scenario_config();
    let user = key(3);
    let market = new_market(config, START + 3600);
    assert_eq!(calculate_malus(0, 3600, 0), Ok(0));
    assert_eq!(calculate_quadratic_uplift(0, 0, 0), Ok(1_000_000_000));
    assert_eq!(calculate_unit_price(1000, 0, 1_000_000_000), Ok(1000));

    let (market, bet_account, cost) = place(market, BetAccount::default(), user, START, 5, 1);
    assert_eq!(cost, Ok(1000));
    assert_eq!(market.total_pot, 1000);
    assert_eq!(market.total_votes, 1);
    assert_eq!(bet_account.total_spent, 1000);
    assert_eq!(bet_account.market, market_key());
    assert_eq!(bet_account.user, user);
    assert_eq!(bet_account.bump, 250);
    assert!(!bet_account.claimed);

    let (market, r) = close(config, market, admin(), START + 3600);
    assert_eq!(r, Ok(()));
    assert_eq!(market.status, MarketStatus::Ended);
    assert_eq!(market.winner, Some(5));
    assert_eq!(market.platform_fee_taken, 20);
    assert_eq!(market.creator_fee_taken, 30);

    let (bet_account, share) = take(market.clone(), bet_account, user);
    assert_eq!(share, Ok(950));
    assert!(bet_account.claimed);

    let (bet_account, again) = take(market, bet_account, user);
    assert_eq!(again, Err(ErrorCode::AlreadyClaimed));
    assert!(bet_account.claimed);
}

#[test]
fn tie_goes_to_lower_outcome_code() {
    let config = scenario_config();
    let market = new_market(config, START + 3600);
    let (market, _, r) = place(market, BetAccount::default(), key(3), START + 10, 7, 2);
    assert!(r.is_ok());
    let (market, _, r) = place(market, BetAccount::default(), key(4), START + 20, 3, 2);
    assert!(r.is_ok());
    assert_eq!(market.emoji_ids, vec![7, 3]);
    let (market, r) = close(config, market, creator(), START + 3600);
    assert_eq!(r, Ok(()));
    assert_eq!(market.winner, Some(3));
}

#[test]
fn plurality_beats_lower_code() {
    let config = scenario_config();
    let market = new_market(config, START + 3600);
    let (market, _, _) = place(market, BetAccount::default(), key(3), START, 1, 2);
    let (market, _, _) = place(market, BetAccount::default(), key(4), START, 9, 3);
    let (market, _) = close(config, market, admin(), START + 4000);
    assert_eq!(market.winner, Some(9));
}

#[test]
fn bet_at_end_time_fails() {
    let config = scenario_config();
    let market = new_market(config, START + 3600);
    let (market, bet_account, r) = place(market, BetAccount::default(), key(3), START + 3600, 5, 1);
    assert_eq!(r, Err(ErrorCode::MarketEnded));
    assert_eq!(market.total_pot, 0);
    assert!(bet_account.market == Pubkey::default());
    let (_, _, r) = place(market, BetAccount::default(), key(3), START + 3599, 5, 1);
    assert_eq!(r, Ok(1000));
}

#[test]
fn bet_errors_leave_records_unchanged() {
    let config = scenario_config();
    let market = new_market(config, START + 3600);
    let (market, b, r) = place(market, BetAccount::default(), key(3), START, 5, 0);
    assert_eq!(r, Err(ErrorCode::InvalidVoteQuantity));
    assert_eq!(market.total_votes, 0);
    assert_eq!(b.total_spent, 0);
    let (ended, _) = close(config, market.clone(), admin(), START + 3600);
    let (_, _, r) = place(ended, BetAccount::default(), key(3), START, 5, 1);
    assert_eq!(r, Err(ErrorCode::MarketNotActive));
    let (_, _, r) = place(market.clone(), BetAccount::default(), key(3), START, 5, u64::MAX);
    assert_eq!(r, Err(ErrorCode::ArithmeticOverflow));
    let (_, _, r) = place(market, BetAccount::default(), key(3), START - 1, 5, 1);
    assert_eq!(r, Err(ErrorCode::ArithmeticOverflow));
}

#[test]
fn too_many_outcomes_is_rejected() {
    let config = scenario_config();
    let mut market = new_market(config, START + 3600);
    for code in 0..50u32 {
        let (m, _, r) = place(market, BetAccount::default(), key(3), START, code, 1);
        assert!(r.is_ok());
        market = m;
    }
    let (m, _, r) = place(market.clone(), BetAccount::default(), key(3), START, 50, 1);
    assert_eq!(r, Err(ErrorCode::TooManyOutcomes));
    assert_eq!(m.emoji_ids.len(), 50);
    let (_, _, r) = place(market, BetAccount::default(), key(3), START, 49, 1);
    assert!(r.is_ok());
}

#[test]
fn pot_equals_total_spent_over_bettors() {
    let config = initialize_config(&InitializeConfig { bump: 0 }, admin(), 200, 300, 1000, 1000, 10_000, 1_000, 60, 86400).unwrap();
    let market = new_market(config, START + 3600);
    let mut accounts: Vec<BetAccount> = vec![BetAccount::default(), BetAccount::default(), BetAccount::default()];
    let mut market = market;
    let plan = [(0usize, 1u32, 2u64, 0i64), (1, 2, 1, 30), (0, 1, 3, 60), (2, 2, 5, 90), (1, 1, 1, 120)];
    for (who, emoji, qty, at) in plan {
        let (m, b, r) = place(market, accounts[who].clone(), key(10 + who as u8), START + at, emoji, qty);
        assert!(r.is_ok());
        market = m;
        accounts[who] = b;
        let spent: u64 = accounts.iter().map(|a| a.total_spent).sum();
        assert_eq!(spent, market.total_pot);
    }
    let votes: u64 = market.emoji_votes.iter().sum();
    assert_eq!(votes, market.total_votes);
    assert_eq!(market.total_votes, 12);
    // later bets cost more
    assert!(accounts[1].total_spent > 1000);
}

#[test]
fn repeat_bets_accumulate_in_one_record() {
    let config = scenario_config();
    let market = new_market(config, START + 3600);
    let user = key(3);
    let (market, b, _) = place(market, BetAccount::default(), user, START, 5, 2);
    let (market, b, _) = place(market, b, user, START, 6, 1);
    let (market, b, _) = place(market, b, user, START, 5, 4);
    assert_eq!(b.emoji_ids, vec![5, 6]);
    assert_eq!(b.emoji_votes, vec![6, 1]);
    assert_eq!(b.total_spent, 7000);
    assert_eq!(market.emoji_votes, vec![6, 1]);
    assert_eq!(market.total_pot, 7000);
}

#[test]
fn end_market_errors() {
    let config = scenario_config();
    let market = new_market(config, START + 3600);
    let (same, r) = close(config, market.clone(), key(77), START + 3600);
    assert_eq!(r, Err(ErrorCode::Unauthorized));
    assert_eq!(same.status, MarketStatus::Active);
    let (_, r) = close(config, market.clone(), admin(), START + 3599);
    assert_eq!(r, Err(ErrorCode::MarketNotEnded));
    let (ended, r) = close(config, market, creator(), START + 3600);
    assert_eq!(r, Ok(()));
    assert_eq!(ended.winner, None);
    let (_, r) = close(config, ended, admin(), START + 3700);
    assert_eq!(r, Err(ErrorCode::MarketNotActive));
}

#[test]
fn claim_errors() {
    let config = scenario_config();
    let market = new_market(config, START + 3600);
    let winner = key(3);
    let loser = key(4);
    let (market, wb, _) = place(market, BetAccount::default(), winner, START, 5, 3);
    let (market, lb, _) = place(market, BetAccount::default(), loser, START, 6, 1);
    let (_, r) = take(market.clone(), wb.clone(), winner);
    assert_eq!(r, Err(ErrorCode::MarketNotEnded));
    let (ended, _) = close(config, market, admin(), START + 3600);
    let (lb2, r) = take(ended.clone(), lb, loser);
    assert_eq!(r, Err(ErrorCode::NoWinningVotes));
    assert!(!lb2.claimed);
    let (_, r) = take(ended.clone(), wb.clone(), winner);
    // pot 4000, fees 80 + 120, pool 3800, all winning votes held by one bettor
    assert_eq!(r, Ok(3800));

    let mut broken = ended.clone();
    broken.emoji_votes = vec![0, 1];
    let (_, r) = take(broken, wb.clone(), winner);
    assert_eq!(r, Err(ErrorCode::InvalidCalculation));

    let mut overdrawn = ended;
    overdrawn.platform_fee_taken = overdrawn.total_pot + 1;
    let (_, r) = take(overdrawn, wb, winner);
    assert_eq!(r, Err(ErrorCode::ArithmeticUnderflow));
}

#[test]
fn shares_split_by_winning_votes() {
    let config = scenario_config();
    let market = new_market(config, START + 3600);
    let (market, a, _) = place(market, BetAccount::default(), key(3), START, 5, 1);
    let (market, b, _) = place(market, BetAccount::default(), key(4), START, 5, 2);
    let (market, _) = close(config, market, admin(), START + 3600);
    // pot 3000, fees 60 + 90, pool 2850
    assert_eq!(take(market.clone(), a, key(3)).1, Ok(950));
    assert_eq!(take(market, b, key(4)).1, Ok(1900));
}

#[test]
fn pubkey_equality_and_default() {
    assert!(Pubkey::default().is_default());
    assert!(!key(1).is_default());
    assert!(key(1) == key(1));
    assert!(key(1) != key(2));
    assert_eq!(key(4).to_bytes(), [4u8; 32]);
    let mut bytes = [0u8; 32];
    bytes[31] = 1;
    assert!(!Pubkey::new_from_array(bytes).is_default());
}

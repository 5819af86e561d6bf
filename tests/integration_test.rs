use emojimarket_program::state::{BetAccount, Config, Market, MarketStatus};

#[test]
fn test_config_structure() {
    let expected_min_size = 8 + 32 + 2 + 2 + 8 + 4 + 8 + 8 + 4 + 4 + 1;
    assert_eq!(Config::LEN, expected_min_size);
    println!("✅ Config structure size validated: {} bytes", Config::LEN);
}

#[test]
fn test_market_structure() {
    let space = Market::space(50, 100);
    assert!(space > 0);
    println!("✅ Market structure space calculation works: {} bytes for title=50, url=100", space);
}

#[test]
fn test_bet_structure() {
    let space = BetAccount::space();
    assert!(space > 0);
    assert_eq!(space, BetAccount::BASE_LEN);
    println!("✅ BetAccount structure size validated: {} bytes", space);
}

#[test]
fn test_market_status_enum() {
    assert_eq!(MarketStatus::Active as u8, 0);
    assert_eq!(MarketStatus::Ended as u8, 1);
    println!("✅ MarketStatus enum values are correct");
}

#[test]
fn test_program_constants() {
    assert!(Config::LEN > 0, "Config length should be positive");
    assert!(BetAccount::BASE_LEN > 0, "BetAccount length should be positive");
    println!("✅ Program constants validated");
}

#[test]
fn test_all_structures_complete() {
    println!("\n📊 Structure Summary:");
    println!("  • Config: {} bytes", Config::LEN);
    println!("  • Market: dynamic size based on title/url");
    println!("  • BetAccount: {} bytes", BetAccount::BASE_LEN);
    println!("\n✅ All program structures are properly defined");
}

#[test]
fn market_space_counts_capped_lengths() {
    assert_eq!(Market::space(50, 100), 748 + 50 + 4 + 100);
    assert_eq!(Market::space(500, 0), 748 + 100);
    assert_eq!(Market::space(0, 1000), 748 + 4 + 200);
    assert_eq!(Market::BASE_LEN, 1052);
    assert_eq!(BetAccount::BASE_LEN, 690);
    assert_eq!(Config::LEN, 81);
}

use token_deployer::error::TokenDeployerError;
use token_deployer::state::{LiquidityPool, TokenInfo};

#[test]
fn error_codes_are_stable() {
    assert_eq!(TokenDeployerError::InvalidInstruction.code(), 0);
    assert_eq!(TokenDeployerError::Unauthorized.code(), 1);
    assert_eq!(TokenDeployerError::InvalidTokenParameters.code(), 2);
    assert_eq!(TokenDeployerError::InvalidMintAccount.code(), 3);
    assert_eq!(TokenDeployerError::TokenCreationFailed.code(), 4);
    assert_eq!(TokenDeployerError::LiquidityPoolCreationFailed.code(), 5);
}

#[test]
fn token_info_new_keeps_every_field() {
    let info = TokenInfo::new(
        b"Demo".to_vec(),
        b"DEMO".to_vec(),
        9,
        11,
        22,
        1_000_000_000,
        b"img".to_vec(),
        b"tw".to_vec(),
        b"tg".to_vec(),
        1_700_000_000,
    );
    assert_eq!(info.name, b"Demo".to_vec());
    assert_eq!(info.symbol, b"DEMO".to_vec());
    assert_eq!(info.decimals, 9);
    assert_eq!(info.mint, 11);
    assert_eq!(info.authority, 22);
    assert_eq!(info.initial_supply, 1_000_000_000);
    assert_eq!(info.image_url, b"img".to_vec());
    assert_eq!(info.twitter_url, b"tw".to_vec());
    assert_eq!(info.telegram_url, b"tg".to_vec());
    assert_eq!(info.timestamp, 1_700_000_000);
}

#[test]
fn liquidity_pool_new_keeps_every_field() {
    let pool = LiquidityPool::new(1, 2, 3, 4, 500, 600, 1_700_000_000);
    assert_eq!(pool.token_mint, 1);
    assert_eq!(pool.quote_mint, 2);
    assert_eq!(pool.pool_mint, 3);
    assert_eq!(pool.authority, 4);
    assert_eq!(pool.token_amount, 500);
    assert_eq!(pool.quote_amount, 600);
    assert_eq!(pool.timestamp, 1_700_000_000);
}

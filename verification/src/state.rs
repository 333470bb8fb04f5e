use vstd::prelude::*;

verus! {

/// A descriptive record of a deployed token: its identity, authority,
/// supply, and descriptive text. This is a persistence shape only — the
/// orchestration never writes it to durable storage.
#[derive(Clone, Debug, PartialEq, Eq)]
pub struct TokenInfo {
    pub name: Vec<u8>,
    pub symbol: Vec<u8>,
    pub decimals: u8,
    /// The mint's address.
    pub mint: u64,
    /// The authority's address.
    pub authority: u64,
    pub initial_supply: u64,
    pub image_url: Vec<u8>,
    pub twitter_url: Vec<u8>,
    pub telegram_url: Vec<u8>,
    pub timestamp: i64,
}

impl TokenInfo {
    /// Builds a token record from its parts, in declaration order.
    pub fn new(
        name: Vec<u8>,
        symbol: Vec<u8>,
        decimals: u8,
        mint: u64,
        authority: u64,
        initial_supply: u64,
        image_url: Vec<u8>,
        twitter_url: Vec<u8>,
        telegram_url: Vec<u8>,
        timestamp: i64,
    ) -> (r: TokenInfo)
        ensures
            r == (TokenInfo {
                name,
                symbol,
                decimals,
                mint,
                authority,
                initial_supply,
                image_url,
                twitter_url,
                telegram_url,
                timestamp,
            }),
    {
        TokenInfo {
            name,
            symbol,
            decimals,
            mint,
            authority,
            initial_supply,
            image_url,
            twitter_url,
            telegram_url,
            timestamp,
        }
    }
}

/// A descriptive record of a liquidity pool. As with `TokenInfo`, this
/// is a persistence shape that the current orchestration never writes.
#[derive(Clone, Copy, Debug, PartialEq, Eq, Structural)]
pub struct LiquidityPool {
    /// The token mint's address.
    pub token_mint: u64,
    /// The quote currency mint's address.
    pub quote_mint: u64,
    /// The pool mint's address.
    pub pool_mint: u64,
    /// The authority's address.
    pub authority: u64,
    pub token_amount: u64,
    pub quote_amount: u64,
    pub timestamp: i64,
}

impl LiquidityPool {
    /// Builds a pool record from its parts, in declaration order.
    pub fn new(
        token_mint: u64,
        quote_mint: u64,
        pool_mint: u64,
        authority: u64,
        token_amount: u64,
        quote_amount: u64,
        timestamp: i64,
    ) -> (r: LiquidityPool)
        ensures
            r == (LiquidityPool {
                token_mint,
                quote_mint,
                pool_mint,
                authority,
                token_amount,
                quote_amount,
                timestamp,
            }),
    {
        LiquidityPool {
            token_mint,
            quote_mint,
            pool_mint,
            authority,
            token_amount,
            quote_amount,
            timestamp,
        }
    }
}

} // verus!

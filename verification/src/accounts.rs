use vstd::prelude::*;
use crate::error::{ProcessError, TokenDeployerError};

verus! {

/// What the processor reads of one account handle supplied by the host
/// runtime: its address, as an opaque numeric identifier, and its
/// capabilities. The meaning of an account is purely positional.
#[derive(Clone, Copy, Debug, PartialEq, Eq, Structural)]
pub struct AccountHandle {
    /// The account's address.
    pub address: u64,
    /// Whether this account signed the transaction.
    pub is_signer: bool,
    /// Whether the host runtime lets the transaction mutate this account.
    pub is_writable: bool,
}

/// The six accounts that a `CreateToken` instruction requires, in their
/// positional order.
#[derive(Clone, Copy, Debug, PartialEq, Eq, Structural)]
pub struct CreateTokenAccounts {
    /// Pays for, and is the authority over, everything created.
    pub payer: AccountHandle,
    /// The mint account to be created.
    pub mint: AccountHandle,
    /// The holding account to be created, which receives the supply.
    pub holding: AccountHandle,
    /// The external token-issuance service.
    pub token_service: AccountHandle,
    /// The external account-allocation service.
    pub allocation_service: AccountHandle,
    /// The rent oracle.
    pub rent_oracle: AccountHandle,
}

/// The nine accounts that an `AddLiquidity` instruction requires, in
/// their positional order.
#[derive(Clone, Copy, Debug, PartialEq, Eq, Structural)]
pub struct AddLiquidityAccounts {
    /// Pays for the liquidity operation.
    pub payer: AccountHandle,
    /// The token's mint.
    pub mint: AccountHandle,
    /// The payer's holding account for the token.
    pub holding: AccountHandle,
    /// The payer's holding account for the quote currency.
    pub quote: AccountHandle,
    /// The pool's holding account to be created.
    pub pool: AccountHandle,
    /// The external token-issuance service.
    pub token_service: AccountHandle,
    /// The external market-making service.
    pub market_making_service: AccountHandle,
    /// The external account-allocation service.
    pub allocation_service: AccountHandle,
    /// The rent oracle.
    pub rent_oracle: AccountHandle,
}

/// Why a `CreateToken` account list is rejected, or nothing when it
/// passes. The payer is extracted and checked for the signer capability
/// before the remaining positions are required to exist.
pub open spec fn create_token_account_fault(accounts: Seq<AccountHandle>) -> Option<ProcessError> {
    if accounts.len() == 0 {
        Some(ProcessError::NotEnoughAccountKeys)
    } else if !accounts[0].is_signer {
        Some(ProcessError::Deployer(TokenDeployerError::Unauthorized))
    } else if accounts.len() < 6 {
        Some(ProcessError::NotEnoughAccountKeys)
    } else {
        None
    }
}

/// Why an `AddLiquidity` account list is rejected, or nothing when it
/// passes; as above, the signer check comes right after the payer.
pub open spec fn add_liquidity_account_fault(accounts: Seq<AccountHandle>) -> Option<ProcessError> {
    if accounts.len() == 0 {
        Some(ProcessError::NotEnoughAccountKeys)
    } else if !accounts[0].is_signer {
        Some(ProcessError::Deployer(TokenDeployerError::Unauthorized))
    } else if accounts.len() < 9 {
        Some(ProcessError::NotEnoughAccountKeys)
    } else {
        None
    }
}

/// Authorization precedes orchestration: whenever the payer account is
/// present but did not sign, either instruction's account validation
/// rejects the list as `Unauthorized` — so no session is started and no
/// external call is ever planned for it.
pub proof fn lemma_unauthorized_rejected(accounts: Seq<AccountHandle>)
    requires
        accounts.len() >= 1,
        !accounts[0].is_signer,
    ensures
        create_token_account_fault(accounts) == Some(
            ProcessError::Deployer(TokenDeployerError::Unauthorized),
        ),
        add_liquidity_account_fault(accounts) == Some(
            ProcessError::Deployer(TokenDeployerError::Unauthorized),
        ),
{
}

/// Extracts the `CreateToken` roles positionally. Fails with the
/// missing-account condition when the list is too short, and with
/// `Unauthorized` when the payer did not sign; authorization is checked
/// before any external call is planned.
pub fn extract_create_token_accounts(accounts: &Vec<AccountHandle>) -> (r: Result<
    CreateTokenAccounts,
    ProcessError,
>)
    ensures
        match r {
            Ok(roles) => {
                &&& create_token_account_fault(accounts@) is None
                &&& roles.payer == accounts@[0]
                &&& roles.mint == accounts@[1]
                &&& roles.holding == accounts@[2]
                &&& roles.token_service == accounts@[3]
                &&& roles.allocation_service == accounts@[4]
                &&& roles.rent_oracle == accounts@[5]
            },
            Err(e) => create_token_account_fault(accounts@) == Some(e),
        },
{
    if accounts.len() == 0 {
        return Err(ProcessError::NotEnoughAccountKeys);
    }
    let payer = accounts[0];
    if !payer.is_signer {
        return Err(ProcessError::Deployer(TokenDeployerError::Unauthorized));
    }
    if accounts.len() < 6 {
        return Err(ProcessError::NotEnoughAccountKeys);
    }
    Ok(
        CreateTokenAccounts {
            payer,
            mint: accounts[1],
            holding: accounts[2],
            token_service: accounts[3],
            allocation_service: accounts[4],
            rent_oracle: accounts[5],
        },
    )
}

/// Extracts the `AddLiquidity` roles positionally, with the same order
/// of checks as for `CreateToken`.
pub fn extract_add_liquidity_accounts(accounts: &Vec<AccountHandle>) -> (r: Result<
    AddLiquidityAccounts,
    ProcessError,
>)
    ensures
        match r {
            Ok(roles) => {
                &&& add_liquidity_account_fault(accounts@) is None
                &&& roles.payer == accounts@[0]
                &&& roles.mint == accounts@[1]
                &&& roles.holding == accounts@[2]
                &&& roles.quote == accounts@[3]
                &&& roles.pool == accounts@[4]
                &&& roles.token_service == accounts@[5]
                &&& roles.market_making_service == accounts@[6]
                &&& roles.allocation_service == accounts@[7]
                &&& roles.rent_oracle == accounts@[8]
            },
            Err(e) => add_liquidity_account_fault(accounts@) == Some(e),
        },
{
    if accounts.len() == 0 {
        return Err(ProcessError::NotEnoughAccountKeys);
    }
    let payer = accounts[0];
    if !payer.is_signer {
        return Err(ProcessError::Deployer(TokenDeployerError::Unauthorized));
    }
    if accounts.len() < 9 {
        return Err(ProcessError::NotEnoughAccountKeys);
    }
    Ok(
        AddLiquidityAccounts {
            payer,
            mint: accounts[1],
            holding: accounts[2],
            quote: accounts[3],
            pool: accounts[4],
            token_service: accounts[5],
            market_making_service: accounts[6],
            allocation_service: accounts[7],
            rent_oracle: accounts[8],
        },
    )
}

} // verus!

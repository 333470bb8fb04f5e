use token_deployer::accounts::AccountHandle;
use token_deployer::error::{ProcessError, TokenDeployerError};
use token_deployer::instruction::{TokenDeployerInstruction, TokenParams};
use token_deployer::processor::{
    CallOutcome, CreateTokenSession, ExternalCall, ProcessOutcome, process_add_liquidity,
    process_instruction,
};

fn handle(address: u64, is_signer: bool, is_writable: bool) -> AccountHandle {
    AccountHandle {
        address,
        is_signer,
        is_writable,
    }
}

/// The six `CreateToken` accounts in positional order, addresses 0..=5.
fn create_token_accounts(payer_signs: bool) -> Vec<AccountHandle> {
    vec![
        handle(0, payer_signs, true), // payer
        handle(1, false, true),       // mint
        handle(2, false, true),       // holding
        handle(3, false, false),      // token service
        handle(4, false, false),      // allocation service
        handle(5, false, false),      // rent oracle
    ]
}

/// The nine `AddLiquidity` accounts in positional order, addresses 0..=8.
fn add_liquidity_accounts(payer_signs: bool) -> Vec<AccountHandle> {
    vec![
        handle(0, payer_signs, true), // payer
        handle(1, false, false),      // mint
        handle(2, false, true),       // holding
        handle(3, false, true),       // quote
        handle(4, false, true),       // pool
        handle(5, false, false),      // token service
        handle(6, false, false),      // market-making service
        handle(7, false, false),      // allocation service
        handle(8, false, false),      // rent oracle
    ]
}

fn demo_params() -> TokenParams {
    TokenParams {
        name: b"Demo".to_vec(),
        symbol: b"DEMO".to_vec(),
        decimals: 9,
        initial_supply: 1_000_000_000,
        image_url: b"".to_vec(),
        twitter_url: b"".to_vec(),
        telegram_url: b"".to_vec(),
    }
}

#[test]
fn create_token_success_issues_exactly_seven_calls_in_order() {
    let accounts = create_token_accounts(true);
    let data = TokenDeployerInstruction::CreateToken(demo_params()).encode();
    let outcome = process_instruction(&accounts, data.as_slice()).unwrap();
    let mut session = match outcome {
        ProcessOutcome::CreateTokenStarted(s) => s,
        ProcessOutcome::LiquidityIntentRecorded { .. } => panic!("wrong dispatch"),
    };

    let mint_rent = 1_461_600u64;
    let holding_rent = 2_039_280u64;
    let expected = vec![
        ExternalCall::RentExemptionQuery { account_size: 82 },
        ExternalCall::CreateAccount {
            funder: 0,
            target: 1,
            lamports: mint_rent,
            size: 82,
            owner: 3,
        },
        ExternalCall::InitializeMint {
            mint: 1,
            authority: 0,
            decimals: 9,
        },
        ExternalCall::RentExemptionQuery { account_size: 165 },
        ExternalCall::CreateAccount {
            funder: 0,
            target: 2,
            lamports: holding_rent,
            size: 165,
            owner: 3,
        },
        ExternalCall::InitializeHolding {
            holding: 2,
            mint: 1,
            owner: 0,
        },
        ExternalCall::MintTo {
            mint: 1,
            destination: 2,
            authority: 0,
            amount: 1_000_000_000,
        },
    ];

    let mut issued: Vec<ExternalCall> = Vec::new();
    while let Some(call) = session.next_call() {
        issued.push(call);
        let reply = match call {
            ExternalCall::RentExemptionQuery { account_size: 82 } => {
                CallOutcome::RentValue(mint_rent)
            }
            ExternalCall::RentExemptionQuery { .. } => CallOutcome::RentValue(holding_rent),
            _ => CallOutcome::Succeeded,
        };
        session.advance(reply);
    }

    assert_eq!(issued.len(), 7);
    assert_eq!(issued, expected);
    assert!(session.is_complete());
    assert_eq!(session.result(), Ok(()));
    // the holding account ends with the full initial supply at 9 decimals
    assert_eq!(
        issued[6],
        ExternalCall::MintTo {
            mint: 1,
            destination: 2,
            authority: 0,
            amount: 1_000_000_000,
        }
    );
    assert_eq!(
        issued[2],
        ExternalCall::InitializeMint {
            mint: 1,
            authority: 0,
            decimals: 9,
        }
    );
}

#[test]
fn create_token_failure_at_each_step_halts_the_run() {
    for fail_at in 1..=7usize {
        let accounts = create_token_accounts(true);
        let mut session = CreateTokenSession::start(&accounts, demo_params()).unwrap();
        let mut issued = 0usize;
        while let Some(call) = session.next_call() {
            issued += 1;
            if issued == fail_at {
                session.advance(CallOutcome::Failed);
            } else {
                let reply = match call {
                    ExternalCall::RentExemptionQuery { .. } => CallOutcome::RentValue(1_000_000),
                    _ => CallOutcome::Succeeded,
                };
                session.advance(reply);
            }
        }
        // no call after the failing step was planned
        assert_eq!(issued, fail_at);
        assert!(session.next_call().is_none());
        assert!(!session.is_complete());
        assert_eq!(
            session.result(),
            Err(ProcessError::Deployer(TokenDeployerError::TokenCreationFailed))
        );
    }
}

#[test]
fn create_token_unauthorized_payer_rejected_before_any_call() {
    let accounts = create_token_accounts(false);
    let data = TokenDeployerInstruction::CreateToken(demo_params()).encode();
    let r = process_instruction(&accounts, data.as_slice());
    // no session exists, so zero external calls were planned or issued
    assert_eq!(
        r.unwrap_err(),
        ProcessError::Deployer(TokenDeployerError::Unauthorized)
    );
}

#[test]
fn create_token_with_three_accounts_rejected_before_any_call() {
    let accounts = vec![
        handle(0, true, true),
        handle(1, false, true),
        handle(2, false, true),
    ];
    let data = TokenDeployerInstruction::CreateToken(demo_params()).encode();
    let r = process_instruction(&accounts, data.as_slice());
    assert_eq!(r.unwrap_err(), ProcessError::NotEnoughAccountKeys);
}

#[test]
fn create_token_with_no_accounts_rejected() {
    let accounts: Vec<AccountHandle> = Vec::new();
    let data = TokenDeployerInstruction::CreateToken(demo_params()).encode();
    let r = process_instruction(&accounts, data.as_slice());
    assert_eq!(r.unwrap_err(), ProcessError::NotEnoughAccountKeys);
}

#[test]
fn add_liquidity_stub_reports_success_and_issues_no_call() {
    let accounts = add_liquidity_accounts(true);
    let data = TokenDeployerInstruction::AddLiquidity {
        token_amount: 500,
        quote_amount: 500,
    }
    .encode();
    let outcome = process_instruction(&accounts, data.as_slice()).unwrap();
    // success, and explicitly no external call: the stub starts no session
    match outcome {
        ProcessOutcome::LiquidityIntentRecorded {
            token_amount,
            quote_amount,
        } => {
            assert_eq!(token_amount, 500);
            assert_eq!(quote_amount, 500);
        }
        ProcessOutcome::CreateTokenStarted(_) => {
            panic!("the liquidity stub must plan no external call")
        }
    }
    assert_eq!(process_add_liquidity(&accounts, 500, 500), Ok(()));
}

#[test]
fn add_liquidity_unauthorized_payer_rejected() {
    let accounts = add_liquidity_accounts(false);
    let r = process_add_liquidity(&accounts, 1, 2);
    assert_eq!(
        r.unwrap_err(),
        ProcessError::Deployer(TokenDeployerError::Unauthorized)
    );
}

#[test]
fn add_liquidity_with_eight_accounts_rejected() {
    let mut accounts = add_liquidity_accounts(true);
    accounts.pop();
    let r = process_add_liquidity(&accounts, 1, 2);
    assert_eq!(r.unwrap_err(), ProcessError::NotEnoughAccountKeys);
}

#[test]
fn garbage_instruction_data_rejected() {
    let accounts = create_token_accounts(true);
    let r = process_instruction(&accounts, &[9, 9, 9]);
    assert_eq!(
        r.unwrap_err(),
        ProcessError::Deployer(TokenDeployerError::InvalidInstruction)
    );
}

use vstd::prelude::*;
use crate::accounts::{
    AccountHandle, CreateTokenAccounts, create_token_account_fault, add_liquidity_account_fault,
    extract_create_token_accounts, extract_add_liquidity_accounts,
};
use crate::error::{ProcessError, TokenDeployerError};
use crate::instruction::{InstructionView, TokenDeployerInstruction, TokenParams, spec_parse};

verus! {

/// Size in bytes of the token service's mint record.
pub const MINT_RECORD_LEN: u64 = 82;
/// Size in bytes of the token service's holding-account record.
pub const HOLDING_RECORD_LEN: u64 = 165;

/// Relies on `spl_token::state::Mint::LEN`: the token-issuance service
/// lays a mint record out in 82 bytes.
#[verifier::external_body]
fn mint_record_len() -> (r: u64)
    ensures
        r == MINT_RECORD_LEN,
{
    <spl_token::state::Mint as solana_program::program_pack::Pack>::LEN as u64
}

/// Relies on `spl_token::state::Account::LEN`: the token-issuance service
/// lays a holding-account record out in 165 bytes.
#[verifier::external_body]
fn holding_record_len() -> (r: u64)
    ensures
        r == HOLDING_RECORD_LEN,
{
    <spl_token::state::Account as solana_program::program_pack::Pack>::LEN as u64
}

/// One request into an external collaborator, exactly as the
/// orchestrator plans it. The driver that talks to the host runtime
/// performs the request and reports a `CallOutcome` back.
#[derive(Clone, Copy, Debug, PartialEq, Eq, Structural)]
pub enum ExternalCall {
    /// Ask the rent oracle for the minimum balance that exempts an
    /// account of `account_size` bytes from rent.
    RentExemptionQuery { account_size: u64 },
    /// Ask the allocation service to create the account at `target`,
    /// funded with `lamports` from `funder`, sized `size` bytes, and
    /// owned by the service at `owner`.
    CreateAccount { funder: u64, target: u64, lamports: u64, size: u64, owner: u64 },
    /// Ask the token service to initialize the mint at `mint` with
    /// `decimals` decimals, mint authority `authority`, and no freeze
    /// authority.
    InitializeMint { mint: u64, authority: u64, decimals: u8 },
    /// Ask the token service to bind the holding account at `holding` to
    /// `mint`, owned by `owner`.
    InitializeHolding { holding: u64, mint: u64, owner: u64 },
    /// Ask the token service to mint `amount` base units of `mint` into
    /// `destination`, authorized by `authority`.
    MintTo { mint: u64, destination: u64, authority: u64, amount: u64 },
}

/// What the driver reports after performing one planned call.
#[derive(Clone, Copy, Debug, PartialEq, Eq, Structural)]
pub enum CallOutcome {
    /// The rent oracle answered with a minimum balance.
    RentValue(u64),
    /// The call succeeded.
    Succeeded,
    /// The call failed; the whole instruction must abort.
    Failed,
}

/// One `CreateToken` orchestration run.
///
/// The run plans the seven-step creation sequence one call at a time:
/// `next_call` names the next request, the driver performs it inside the
/// host transaction, and `advance` records its outcome. A failure at any
/// step aborts every remaining step; the host runtime's transaction
/// boundary rolls back whatever the earlier steps changed, so no partial
/// token ever persists.
#[derive(Clone, Debug, PartialEq, Eq)]
pub struct CreateTokenSession {
    /// The six validated accounts, in their positional roles.
    pub accounts: CreateTokenAccounts,
    /// The instruction payload driving the run.
    pub params: TokenParams,
    /// The 1-based index of the next step; 8 once every step is done.
    pub step: u8,
    /// The rent-exemption balance for the mint, once step 1 answered.
    pub mint_rent: u64,
    /// The rent-exemption balance for the holding account, once step 4
    /// answered.
    pub holding_rent: u64,
    /// Whether some step failed; a failed run plans no further call.
    pub failed: bool,
}

impl CreateTokenSession {
    /// The session's step counter stays within the sequence.
    pub open spec fn wf(self) -> bool {
        1 <= self.step <= 8
    }

    /// The call that step `k` performs, in the strict order of the
    /// creation sequence: rent query for the mint, mint allocation, mint
    /// initialization, rent query for the holding account, holding
    /// allocation, holding initialization, minting of the supply.
    pub open spec fn spec_call_at(self, k: int) -> ExternalCall
        recommends
            1 <= k <= 7,
    {
        if k == 1 {
            ExternalCall::RentExemptionQuery { account_size: MINT_RECORD_LEN }
        } else if k == 2 {
            ExternalCall::CreateAccount {
                funder: self.accounts.payer.address,
                target: self.accounts.mint.address,
                lamports: self.mint_rent,
                size: MINT_RECORD_LEN,
                owner: self.accounts.token_service.address,
            }
        } else if k == 3 {
            ExternalCall::InitializeMint {
                mint: self.accounts.mint.address,
                authority: self.accounts.payer.address,
                decimals: self.params.decimals,
            }
        } else if k == 4 {
            ExternalCall::RentExemptionQuery { account_size: HOLDING_RECORD_LEN }
        } else if k == 5 {
            ExternalCall::CreateAccount {
                funder: self.accounts.payer.address,
                target: self.accounts.holding.address,
                lamports: self.holding_rent,
                size: HOLDING_RECORD_LEN,
                owner: self.accounts.token_service.address,
            }
        } else if k == 6 {
            ExternalCall::InitializeHolding {
                holding: self.accounts.holding.address,
                mint: self.accounts.mint.address,
                owner: self.accounts.payer.address,
            }
        } else {
            ExternalCall::MintTo {
                mint: self.accounts.mint.address,
                destination: self.accounts.holding.address,
                authority: self.accounts.payer.address,
                amount: self.params.initial_supply,
            }
        }
    }

    /// The next planned call: nothing once the run has failed or every
    /// step is done.
    pub open spec fn spec_next_call(self) -> Option<ExternalCall> {
        if self.failed || self.step > 7 {
            None
        } else {
            Some(self.spec_call_at(self.step as int))
        }
    }

    /// Begins a `CreateToken` run: validates the positional account list
    /// and the payer's signer capability. Both checks happen before any
    /// external call is planned; a list that fails them starts nothing.
    pub fn start(accounts: &Vec<AccountHandle>, params: TokenParams) -> (r: Result<
        CreateTokenSession,
        ProcessError,
    >)
        ensures
            match r {
                Ok(s) => {
                    &&& create_token_account_fault(accounts@) is None
                    &&& s.accounts.payer == accounts@[0]
                    &&& s.accounts.mint == accounts@[1]
                    &&& s.accounts.holding == accounts@[2]
                    &&& s.accounts.token_service == accounts@[3]
                    &&& s.accounts.allocation_service == accounts@[4]
                    &&& s.accounts.rent_oracle == accounts@[5]
                    &&& s.params == params
                    &&& s.step == 1
                    &&& !s.failed
                    &&& s.wf()
                },
                Err(e) => create_token_account_fault(accounts@) == Some(e),
            },
    {
        let roles = match extract_create_token_accounts(accounts) {
            Ok(roles) => roles,
            Err(e) => {
                return Err(e);
            },
        };
        Ok(
            CreateTokenSession {
                accounts: roles,
                params,
                step: 1,
                mint_rent: 0,
                holding_rent: 0,
                failed: false,
            },
        )
    }

    /// Names the next external call to perform, in the fixed order of
    /// the creation sequence; nothing once the run has failed or
    /// finished.
    pub fn next_call(&self) -> (r: Option<ExternalCall>)
        requires
            self.wf(),
        ensures
            r == self.spec_next_call(),
    {
        if self.failed || self.step > 7 {
            return None;
        }
        if self.step == 1 {
            Some(ExternalCall::RentExemptionQuery { account_size: mint_record_len() })
        } else if self.step == 2 {
            Some(
                ExternalCall::CreateAccount {
                    funder: self.accounts.payer.address,
                    target: self.accounts.mint.address,
                    lamports: self.mint_rent,
                    size: mint_record_len(),
                    owner: self.accounts.token_service.address,
                },
            )
        } else if self.step == 3 {
            Some(
                ExternalCall::InitializeMint {
                    mint: self.accounts.mint.address,
                    authority: self.accounts.payer.address,
                    decimals: self.params.decimals,
                },
            )
        } else if self.step == 4 {
            Some(ExternalCall::RentExemptionQuery { account_size: holding_record_len() })
        } else if self.step == 5 {
            Some(
                ExternalCall::CreateAccount {
                    funder: self.accounts.payer.address,
                    target: self.accounts.holding.address,
                    lamports: self.holding_rent,
                    size: holding_record_len(),
                    owner: self.accounts.token_service.address,
                },
            )
        } else if self.step == 6 {
            Some(
                ExternalCall::InitializeHolding {
                    holding: self.accounts.holding.address,
                    mint: self.accounts.mint.address,
                    owner: self.accounts.payer.address,
                },
            )
        } else {
            Some(
                ExternalCall::MintTo {
                    mint: self.accounts.mint.address,
                    destination: self.accounts.holding.address,
                    authority: self.accounts.payer.address,
                    amount: self.params.initial_supply,
                },
            )
        }
    }

    /// Records the outcome of the step that `next_call` named. A rent
    /// answer is remembered for the allocation that follows it; a
    /// success moves to the next step; a failure aborts the run for
    /// good — there is no retry, and no later step ever runs.
    pub fn advance(&mut self, outcome: CallOutcome)
        requires
            old(self).wf(),
            !old(self).failed,
            old(self).step <= 7,
            outcome is RentValue ==> (old(self).step == 1 || old(self).step == 4),
            outcome is Succeeded ==> !(old(self).step == 1 || old(self).step == 4),
        ensures
            final(self).wf(),
            final(self).accounts == old(self).accounts,
            final(self).params == old(self).params,
            match outcome {
                CallOutcome::Failed => {
                    &&& final(self).failed
                    &&& final(self).step == old(self).step
                    &&& final(self).mint_rent == old(self).mint_rent
                    &&& final(self).holding_rent == old(self).holding_rent
                },
                CallOutcome::RentValue(v) => {
                    &&& !final(self).failed
                    &&& final(self).step == old(self).step + 1
                    &&& final(self).mint_rent == (
                        if old(self).step == 1 {
                            v
                        } else {
                            old(self).mint_rent
                        }
                    )
                    &&& final(self).holding_rent == (
                        if old(self).step == 4 {
                            v
                        } else {
                            old(self).holding_rent
                        }
                    )
                },
                CallOutcome::Succeeded => {
                    &&& !final(self).failed
                    &&& final(self).step == old(self).step + 1
                    &&& final(self).mint_rent == old(self).mint_rent
                    &&& final(self).holding_rent == old(self).holding_rent
                },
            },
    {
        match outcome {
            CallOutcome::Failed => {
                self.failed = true;
            },
            CallOutcome::RentValue(v) => {
                if self.step == 1 {
                    self.mint_rent = v;
                } else {
                    self.holding_rent = v;
                }
                self.step = self.step + 1;
            },
            CallOutcome::Succeeded => {
                self.step = self.step + 1;
            },
        }
    }

    /// Whether every step of the creation sequence has completed.
    pub fn is_complete(&self) -> (r: bool)
        ensures
            r == (!self.failed && self.step > 7),
    {
        !self.failed && self.step > 7
    }

    /// The instruction's result once the run has stopped: success when
    /// all seven steps completed, `TokenCreationFailed` when any
    /// external call in the sequence failed.
    pub fn result(&self) -> (r: Result<(), ProcessError>)
        requires
            self.wf(),
            self.failed || self.step > 7,
        ensures
            self.failed ==> r == Err::<(), ProcessError>(
                ProcessError::Deployer(TokenDeployerError::TokenCreationFailed),
            ),
            !self.failed ==> r == Ok::<(), ProcessError>(()),
    {
        if self.failed {
            Err(ProcessError::Deployer(TokenDeployerError::TokenCreationFailed))
        } else {
            Ok(())
        }
    }
}

/// Atomicity of the creation sequence: once a step has failed, the run
/// plans no further external call — and since a failed run admits no
/// further `advance`, it plans none ever after.
pub proof fn lemma_failure_halts(s: CreateTokenSession)
    requires
        s.wf(),
        s.failed,
    ensures
        s.spec_next_call() is None,
{
}

/// The `AddLiquidity` pathway: a documented non-functional stub. It
/// validates the account list and the payer's signer capability, records
/// the requested amounts for observability, and reports success while
/// performing no external call and no mutation at all. This preserves
/// the stub's externally observable behavior: success with zero side
/// effects.
pub fn process_add_liquidity(
    accounts: &Vec<AccountHandle>,
    token_amount: u64,
    quote_amount: u64,
) -> (r: Result<(), ProcessError>)
    ensures
        match r {
            Ok(u) => add_liquidity_account_fault(accounts@) is None,
            Err(e) => add_liquidity_account_fault(accounts@) == Some(e),
        },
{
    match extract_add_liquidity_accounts(accounts) {
        Ok(_) => Ok(()),
        Err(e) => Err(e),
    }
}

/// The outcome of dispatching one instruction buffer.
#[derive(Clone, Debug, PartialEq, Eq)]
pub enum ProcessOutcome {
    /// A `CreateToken` instruction passed decoding and validation: the
    /// session plans the seven-step creation sequence for the driver.
    CreateTokenStarted(CreateTokenSession),
    /// An `AddLiquidity` instruction passed decoding and validation. The
    /// stub records the requested amounts and plans no external call.
    LiquidityIntentRecorded { token_amount: u64, quote_amount: u64 },
}

/// The processor's entry point: decodes the instruction buffer, then
/// validates and dispatches to the matching orchestrator. Decode
/// failures surface as `InvalidInstruction`; validation failures surface
/// before any external call is planned.
pub fn process_instruction(accounts: &Vec<AccountHandle>, instruction_data: &[u8]) -> (r: Result<
    ProcessOutcome,
    ProcessError,
>)
    ensures
        match spec_parse(instruction_data@) {
            None => r == Err::<ProcessOutcome, ProcessError>(
                ProcessError::Deployer(TokenDeployerError::InvalidInstruction),
            ),
            Some(InstructionView::CreateToken(p)) => match create_token_account_fault(accounts@) {
                Some(f) => r == Err::<ProcessOutcome, ProcessError>(f),
                None => {
                    &&& r matches Ok(ProcessOutcome::CreateTokenStarted(s))
                    &&& r matches Ok(ProcessOutcome::CreateTokenStarted(s)) ==> {
                        &&& s.wf()
                        &&& s.step == 1
                        &&& !s.failed
                        &&& s.params@ == p
                        &&& s.accounts.payer == accounts@[0]
                        &&& s.accounts.mint == accounts@[1]
                        &&& s.accounts.holding == accounts@[2]
                        &&& s.accounts.token_service == accounts@[3]
                        &&& s.accounts.allocation_service == accounts@[4]
                        &&& s.accounts.rent_oracle == accounts@[5]
                    }
                },
            },
            Some(InstructionView::AddLiquidity { token_amount, quote_amount }) => match
                add_liquidity_account_fault(accounts@) {
                Some(f) => r == Err::<ProcessOutcome, ProcessError>(f),
                None => r matches Ok(o) && o == (
                    ProcessOutcome::LiquidityIntentRecorded { token_amount, quote_amount }
                ),
            },
        },
{
    let instruction = match TokenDeployerInstruction::decode(instruction_data) {
        Ok(instruction) => instruction,
        Err(e) => {
            return Err(ProcessError::Deployer(e));
        },
    };
    match instruction {
        TokenDeployerInstruction::CreateToken(params) => {
            match CreateTokenSession::start(accounts, params) {
                Ok(s) => Ok(ProcessOutcome::CreateTokenStarted(s)),
                Err(e) => Err(e),
            }
        },
        TokenDeployerInstruction::AddLiquidity { token_amount, quote_amount } => {
            match process_add_liquidity(accounts, token_amount, quote_amount) {
                Ok(_) => Ok(ProcessOutcome::LiquidityIntentRecorded { token_amount, quote_amount }),
                Err(e) => Err(e),
            }
        },
    }
}

} // verus!


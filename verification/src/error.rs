use vstd::prelude::*;

verus! {

/// The closed set of domain error kinds, each mapped to a stable numeric
/// code that the host runtime surfaces to the transaction submitter.
#[derive(Clone, Copy, Debug, PartialEq, Eq, Structural)]
pub enum TokenDeployerError {
    /// The instruction buffer was truncated, malformed, or carried an
    /// unrecognized tag.
    InvalidInstruction,
    /// The payer account lacks the signer capability.
    Unauthorized,
    /// Token parameters fail domain constraints.
    InvalidTokenParameters,
    /// The mint account is inconsistent with expectations.
    InvalidMintAccount,
    /// An external call in the token creation sequence failed.
    TokenCreationFailed,
    /// Reserved for a future functional liquidity path.
    LiquidityPoolCreationFailed,
}

impl TokenDeployerError {
    /// The numeric code for this kind, as the host runtime sees it.
    pub open spec fn spec_code(self) -> u32 {
        match self {
            TokenDeployerError::InvalidInstruction => 0,
            TokenDeployerError::Unauthorized => 1,
            TokenDeployerError::InvalidTokenParameters => 2,
            TokenDeployerError::InvalidMintAccount => 3,
            TokenDeployerError::TokenCreationFailed => 4,
            TokenDeployerError::LiquidityPoolCreationFailed => 5,
        }
    }

    /// Returns the stable numeric code of this error kind.
    pub fn code(&self) -> (c: u32)
        ensures
            c == self.spec_code(),
    {
        match self {
            TokenDeployerError::InvalidInstruction => 0,
            TokenDeployerError::Unauthorized => 1,
            TokenDeployerError::InvalidTokenParameters => 2,
            TokenDeployerError::InvalidMintAccount => 3,
            TokenDeployerError::TokenCreationFailed => 4,
            TokenDeployerError::LiquidityPoolCreationFailed => 5,
        }
    }
}

/// A failure of instruction processing as reported to the host runtime:
/// either the host-defined condition that the account list is shorter than
/// the instruction's schema requires, or a domain error of this program.
#[derive(Clone, Copy, Debug, PartialEq, Eq, Structural)]
pub enum ProcessError {
    /// The positional account list ended before a required role.
    NotEnoughAccountKeys,
    /// A domain error, surfaced to the host by its numeric code.
    Deployer(TokenDeployerError),
}

} // verus!

//! The error taxonomy of the booth.
//!
//! Every error aborts the whole operation: no partial balance change is ever
//! observable.  The variants cover configuration (`ZeroRateConfig`),
//! authorization (`WrongExchangeBoothAdmin`), vault/asset binding
//! (`WrongDepositVault`, `NotSupportedToken`, `UnSupportedExchangeRoute`),
//! funds (`ExceedsCurrentBalance` on the caller side, `ExceedsCurrentFunds`
//! on the vault side) and rate arithmetic (`InSufficientOutputAmount`).

use vstd::prelude::*;

verus! {

#[derive(Clone, Copy, Debug, PartialEq, Eq, Structural)]
pub enum ProgramErrorCode {
    /// A booth may not be created with a zero exchange rate.
    ZeroRateConfig,
    /// The funding or sending account holds less than the requested amount.
    ExceedsCurrentBalance,
    /// The signer is not the admin recorded in the booth.
    WrongExchangeBoothAdmin,
    /// The vault presented is not the booth's vault for the chosen asset.
    WrongDepositVault,
    /// The asset is not one of the two assets the booth pairs.
    NotSupportedToken,
    /// The send/receive accounts do not form a supported swap route.
    UnSupportedExchangeRoute,
    /// The paying vault holds less than the computed output amount.
    ExceedsCurrentFunds,
    /// The output amount overflows the amount width.
    InSufficientOutputAmount,
}

impl ProgramErrorCode {
    /// The diagnostic text of each error.
    pub open spec fn spec_message(self) -> Seq<char> {
        match self {
            ProgramErrorCode::ZeroRateConfig => "Rate can not be zero!"@,
            ProgramErrorCode::ExceedsCurrentBalance => "Exceeds current balance!"@,
            ProgramErrorCode::WrongExchangeBoothAdmin => "You are not exchange booth admin!"@,
            ProgramErrorCode::WrongDepositVault => "You are depositing to the wrong vault!"@,
            ProgramErrorCode::NotSupportedToken => "This token not supported by exchange booth!"@,
            ProgramErrorCode::UnSupportedExchangeRoute => "This route not supported by smart contract!"@,
            ProgramErrorCode::ExceedsCurrentFunds => "Exceeds current funds of smart contract"@,
            ProgramErrorCode::InSufficientOutputAmount => "Output amount can not be caculated"@,
        }
    }

    pub fn message(&self) -> (m: &'static str)
        ensures
            m@ == self.spec_message(),
    {
        match self {
            ProgramErrorCode::ZeroRateConfig => "Rate can not be zero!",
            ProgramErrorCode::ExceedsCurrentBalance => "Exceeds current balance!",
            ProgramErrorCode::WrongExchangeBoothAdmin => "You are not exchange booth admin!",
            ProgramErrorCode::WrongDepositVault => "You are depositing to the wrong vault!",
            ProgramErrorCode::NotSupportedToken => "This token not supported by exchange booth!",
            ProgramErrorCode::UnSupportedExchangeRoute => "This route not supported by smart contract!",
            ProgramErrorCode::ExceedsCurrentFunds => "Exceeds current funds of smart contract",
            ProgramErrorCode::InSufficientOutputAmount => "Output amount can not be caculated",
        }
    }
}

} // verus!

//! The reasons for which an operation is refused.

use vstd::prelude::*;

verus! {

/// Why a check or a settlement step was refused. Every refusal is final for
/// the enclosing ledger transaction.
#[derive(Clone, Copy, Debug, PartialEq, Eq, Structural)]
pub enum ErrorCode {
    /// Two addresses that must agree differ.
    PublicKeyMismatch,
    /// The supplied bump is not the canonical one for the seeds.
    InvalidBump,
    /// The account's address is not the one derived from the seed path.
    DerivedKeyInvalid,
    /// The account is owned by another program than expected.
    IncorrectOwner,
    /// The account decodes, but was never initialized.
    UninitializedAccount,
    /// The account's contents or flags do not fit the requested operation.
    InvalidAccountState,
    /// The mint is not an accepted payment mint.
    InvalidTokenMint,
    /// The asset is not a programmable non-fungible.
    InvalidTokenStandard,
    /// The metadata account holds no data.
    MetadataDoesntExist,
    /// A fee or balance computation left the 64-bit range.
    NumericalOverflow,
    /// A native-currency payment was expected, but another mint was named.
    ExpectedSolAccount,
    /// The wallet paying in native currency did not sign.
    SOLWalletMustSign,
    /// Fewer remaining accounts were supplied than the instruction reads.
    MissingRemainingAccount,
    /// The account's bytes do not decode under the token-account schema.
    InvalidAccountData,
    /// The account's bytes do not decode as a token record.
    BorshIoError,
}

} // verus!

use vstd::prelude::*;

verus! {

/// Reason code returned by a failing operation.
///
/// Every operation evaluates its checks as a full precondition gate before any
/// write, and aborts with the first failing check's reason; the caller can
/// branch on the kind rather than on message text.
#[derive(Clone, Copy, Debug, PartialEq, Eq, Structural)]
pub enum Error {
    /// A required identity did not present a valid authentication proof.
    NotAuthorized,
    /// The oracle registry already holds the maximum number of oracles.
    RegistryFull,
    /// The oracle identity is already registered.
    AlreadyRegistered,
    /// The submitting identity is not a registered oracle.
    NotRegistered,
    /// The market has no resolution time on file.
    MarketNotRegistered,
    /// The attestation arrived strictly before the market's resolution time.
    TooEarly,
    /// The outcome value is not binary.
    InvalidOutcome,
    /// The oracle has already attested on this market.
    DuplicateVote,
    /// The caller is not an admin signer.
    NotAdmin,
    /// The identity is already an admin signer.
    AlreadyAdmin,
    /// The required-signature count is zero or exceeds the admin count.
    InvalidValue,
    /// The cooldown period is below the minimum.
    TooShort,
    /// Fewer approvers than the required signature count.
    InsufficientApprovers,
    /// An approver is not a current admin signer.
    InvalidApprover,
    /// An approver appears more than once.
    DuplicateApprover,
    /// The global override cooldown has not elapsed.
    CooldownActive,
}

} // verus!

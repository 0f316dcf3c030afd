//! Typed errors of the engine.
//!
//! Every rejected call aborts with no state change and reports exactly one of
//! these variants; [`ContractError::kind`] groups them into the coarse
//! taxonomy callers dispatch on.

use vstd::prelude::*;

verus! {

/// The reason a call was rejected.  Every entry point of the engine either
/// fully commits or returns one of these, with the store untouched.
#[derive(Debug, Clone, Copy, PartialEq, Eq, Structural)]
pub enum ContractError {
    // User management
    UsernameAlreadyTaken {},
    UserNotFound {},
    InvalidUsername {},
    WalletAlreadyRegistered {},
    UserNotRegistered {},
    // Friends
    CannotAddSelf {},
    FriendRequestAlreadyExists {},
    FriendRequestNotFound {},
    AlreadyFriends {},
    NotFriends {},
    // Payments
    PaymentNotFound {},
    PaymentNotAuthorized {},
    PaymentAlreadyCompleted {},
    PaymentAlreadyCancelled {},
    CannotPaySelf {},
    InsufficientFunds {},
    InvalidPaymentAmount {},
    ProofAlreadySubmitted {},
    NoProofRequired {},
    ProofRequired {},
    InvalidProofType {},
    InvalidFunds {},
    InvalidDescriptionLength {},
    OnlySenderCanCancel {},
    // Tasks
    TaskNotFound {},
    TaskNotAuthorized {},
    TaskAlreadyCompleted {},
    TaskAlreadyDisputed {},
    TaskExpired {},
    TaskNotInDispute {},
    TaskNotPendingRelease {},
    DisputeWindowElapsed {},
    InvalidDisputeReason {},
    InvalidProof {},
    ZkTlsVerificationFailed {},
    OnlyPayerCanApproveSoft {},
    OnlyPayerCanDispute {},
    OnlyOwnerCanResolveDispute {},
    CannotCreateTaskWithSelf {},
    InvalidTaskDeadline {},
}

/// The coarse classes of rejection: bad input, unknown record, wrong caller,
/// operation invalid for the record's current status, evidence rejected, or
/// escrow already settled.
#[derive(Debug, Clone, Copy, PartialEq, Eq, Structural)]
pub enum ErrorKind {
    Validation,
    NotFound,
    Authorization,
    StateConflict,
    Proof,
    AlreadySettled,
}

impl ContractError {
    /// The class an error belongs to.
    pub open spec fn classify(&self) -> ErrorKind {
        match self {
            ContractError::InvalidUsername {} => ErrorKind::Validation,
            ContractError::CannotAddSelf {} => ErrorKind::Validation,
            ContractError::CannotPaySelf {} => ErrorKind::Validation,
            ContractError::InvalidPaymentAmount {} => ErrorKind::Validation,
            ContractError::CannotCreateTaskWithSelf {} => ErrorKind::Validation,
            ContractError::InvalidTaskDeadline {} => ErrorKind::Validation,
            ContractError::InvalidFunds {} => ErrorKind::Validation,
            ContractError::InvalidDescriptionLength {} => ErrorKind::Validation,
            ContractError::InsufficientFunds {} => ErrorKind::Validation,
            ContractError::InvalidProofType {} => ErrorKind::Validation,
            ContractError::InvalidDisputeReason {} => ErrorKind::Validation,
            ContractError::UserNotFound {} => ErrorKind::NotFound,
            ContractError::FriendRequestNotFound {} => ErrorKind::NotFound,
            ContractError::PaymentNotFound {} => ErrorKind::NotFound,
            ContractError::TaskNotFound {} => ErrorKind::NotFound,
            ContractError::UserNotRegistered {} => ErrorKind::Authorization,
            ContractError::PaymentNotAuthorized {} => ErrorKind::Authorization,
            ContractError::TaskNotAuthorized {} => ErrorKind::Authorization,
            ContractError::OnlySenderCanCancel {} => ErrorKind::Authorization,
            ContractError::OnlyPayerCanApproveSoft {} => ErrorKind::Authorization,
            ContractError::OnlyPayerCanDispute {} => ErrorKind::Authorization,
            ContractError::OnlyOwnerCanResolveDispute {} => ErrorKind::Authorization,
            ContractError::UsernameAlreadyTaken {} => ErrorKind::StateConflict,
            ContractError::WalletAlreadyRegistered {} => ErrorKind::StateConflict,
            ContractError::FriendRequestAlreadyExists {} => ErrorKind::StateConflict,
            ContractError::AlreadyFriends {} => ErrorKind::StateConflict,
            ContractError::NotFriends {} => ErrorKind::StateConflict,
            ContractError::ProofAlreadySubmitted {} => ErrorKind::StateConflict,
            ContractError::NoProofRequired {} => ErrorKind::StateConflict,
            ContractError::ProofRequired {} => ErrorKind::StateConflict,
            ContractError::TaskAlreadyDisputed {} => ErrorKind::StateConflict,
            ContractError::TaskExpired {} => ErrorKind::StateConflict,
            ContractError::TaskNotInDispute {} => ErrorKind::StateConflict,
            ContractError::TaskNotPendingRelease {} => ErrorKind::StateConflict,
            ContractError::DisputeWindowElapsed {} => ErrorKind::StateConflict,
            ContractError::InvalidProof {} => ErrorKind::Proof,
            ContractError::ZkTlsVerificationFailed {} => ErrorKind::Proof,
            ContractError::PaymentAlreadyCompleted {} => ErrorKind::AlreadySettled,
            ContractError::PaymentAlreadyCancelled {} => ErrorKind::AlreadySettled,
            ContractError::TaskAlreadyCompleted {} => ErrorKind::AlreadySettled,
        }
    }

    /// The class an error belongs to, for programmatic handling.
    #[verifier::when_used_as_spec(classify)]
    pub fn kind(&self) -> (k: ErrorKind)
        ensures
            k == self.classify(),
    {
        match self {
            ContractError::InvalidUsername {} => ErrorKind::Validation,
            ContractError::CannotAddSelf {} => ErrorKind::Validation,
            ContractError::CannotPaySelf {} => ErrorKind::Validation,
            ContractError::InvalidPaymentAmount {} => ErrorKind::Validation,
            ContractError::CannotCreateTaskWithSelf {} => ErrorKind::Validation,
            ContractError::InvalidTaskDeadline {} => ErrorKind::Validation,
            ContractError::InvalidFunds {} => ErrorKind::Validation,
            ContractError::InvalidDescriptionLength {} => ErrorKind::Validation,
            ContractError::InsufficientFunds {} => ErrorKind::Validation,
            ContractError::InvalidProofType {} => ErrorKind::Validation,
            ContractError::InvalidDisputeReason {} => ErrorKind::Validation,
            ContractError::UserNotFound {} => ErrorKind::NotFound,
            ContractError::FriendRequestNotFound {} => ErrorKind::NotFound,
            ContractError::PaymentNotFound {} => ErrorKind::NotFound,
            ContractError::TaskNotFound {} => ErrorKind::NotFound,
            ContractError::UserNotRegistered {} => ErrorKind::Authorization,
            ContractError::PaymentNotAuthorized {} => ErrorKind::Authorization,
            ContractError::TaskNotAuthorized {} => ErrorKind::Authorization,
            ContractError::OnlySenderCanCancel {} => ErrorKind::Authorization,
            ContractError::OnlyPayerCanApproveSoft {} => ErrorKind::Authorization,
            ContractError::OnlyPayerCanDispute {} => ErrorKind::Authorization,
            ContractError::OnlyOwnerCanResolveDispute {} => ErrorKind::Authorization,
            ContractError::UsernameAlreadyTaken {} => ErrorKind::StateConflict,
            ContractError::WalletAlreadyRegistered {} => ErrorKind::StateConflict,
            ContractError::FriendRequestAlreadyExists {} => ErrorKind::StateConflict,
            ContractError::AlreadyFriends {} => ErrorKind::StateConflict,
            ContractError::NotFriends {} => ErrorKind::StateConflict,
            ContractError::ProofAlreadySubmitted {} => ErrorKind::StateConflict,
            ContractError::NoProofRequired {} => ErrorKind::StateConflict,
            ContractError::ProofRequired {} => ErrorKind::StateConflict,
            ContractError::TaskAlreadyDisputed {} => ErrorKind::StateConflict,
            ContractError::TaskExpired {} => ErrorKind::StateConflict,
            ContractError::TaskNotInDispute {} => ErrorKind::StateConflict,
            ContractError::TaskNotPendingRelease {} => ErrorKind::StateConflict,
            ContractError::DisputeWindowElapsed {} => ErrorKind::StateConflict,
            ContractError::InvalidProof {} => ErrorKind::Proof,
            ContractError::ZkTlsVerificationFailed {} => ErrorKind::Proof,
            ContractError::PaymentAlreadyCompleted {} => ErrorKind::AlreadySettled,
            ContractError::PaymentAlreadyCancelled {} => ErrorKind::AlreadySettled,
            ContractError::TaskAlreadyCompleted {} => ErrorKind::AlreadySettled,
        }
    }
}

} // verus!

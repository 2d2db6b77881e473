//! Addresses, amounts and the error taxonomy shared by every module.

use vstd::prelude::*;
use vstd::std_specs::cmp::PartialEqSpecImpl;
use vstd::std_specs::convert::FromSpecImpl;

verus! {

/// An amount of some asset, in that asset's smallest unit.
pub type Balance = u128;

/// A 32-byte address. It names a borrower, a caller or an asset alike.
#[derive(Clone, Copy, Debug)]
pub struct AccountId(pub [u8; 32]);

impl PartialEq for AccountId {
    fn eq(&self, other: &AccountId) -> (r: bool) {
        broadcast use vstd::array::group_array_axioms;

        let mut i: usize = 0;
        while i < 32
            invariant
                i <= 32,
                forall|k: int| 0 <= k < i ==> self.0[k] == other.0[k],
            decreases 32 - i,
        {
            if self.0[i] != other.0[i] {
                return false;
            }
            i = i + 1;
        }
        assert(self.0 =~= other.0);
        true
    }
}

impl Eq for AccountId {

}

impl PartialEqSpecImpl for AccountId {
    open spec fn obeys_eq_spec() -> bool {
        true
    }

    open spec fn eq_spec(&self, other: &AccountId) -> bool {
        *self == *other
    }
}

/// Why the asset service refused a transfer, a mint or an approval.
#[derive(Debug, PartialEq, Eq)]
pub enum PSP22Error {
    /// A reason the asset defines for itself.
    Custom(String),
    /// The sender holds less than the amount.
    InsufficientBalance,
    /// The spender was allowed less than the amount.
    InsufficientAllowance,
    /// The recipient is the zero address.
    ZeroRecipientAddress,
    /// The sender is the zero address.
    ZeroSenderAddress,
    /// The recipient refused the transfer.
    SafeTransferCheckFailed(String),
}

/// Why an owner-only operation was refused.
#[derive(Debug, PartialEq, Eq)]
pub enum OwnableError {
    /// The caller is not the owner.
    CallerIsNotOwner,
    /// The proposed owner is the zero address.
    NewOwnerIsZero,
}

/// What a borrower reports when its operation does not go through.
#[derive(Debug, PartialEq, Eq)]
pub enum FlashLoanReceiverError {
    /// A reason the borrower defines for itself.
    Custom(String),
    /// The borrower declined to carry out the operation.
    ExecuteOperationFailed,
}

/// Why a flash loan was aborted. Whatever the variant, nothing of the loan survives.
#[derive(Debug, PartialEq, Eq)]
pub enum FlashLoanError {
    /// A failure that a hook defines for itself.
    Custom(String),
    /// A disbursement or a collection was refused by the asset service.
    PSP22Error(PSP22Error),
    /// The borrower's operation failed.
    FlashLoanReceiverError(FlashLoanReceiverError),
    /// The request lists a different number of assets and amounts.
    Parameters,
    /// The caller may not start a loan.
    PermissionDenied,
}

impl From<PSP22Error> for FlashLoanError {
    fn from(error: PSP22Error) -> (wrapped: FlashLoanError) {
        FlashLoanError::PSP22Error(error)
    }
}

impl FromSpecImpl<PSP22Error> for FlashLoanError {
    open spec fn obeys_from_spec() -> bool {
        true
    }

    open spec fn from_spec(error: PSP22Error) -> FlashLoanError {
        FlashLoanError::PSP22Error(error)
    }
}

impl From<FlashLoanReceiverError> for FlashLoanError {
    fn from(error: FlashLoanReceiverError) -> (wrapped: FlashLoanError) {
        FlashLoanError::FlashLoanReceiverError(error)
    }
}

impl FromSpecImpl<FlashLoanReceiverError> for FlashLoanError {
    open spec fn obeys_from_spec() -> bool {
        true
    }

    open spec fn from_spec(error: FlashLoanReceiverError) -> FlashLoanError {
        FlashLoanError::FlashLoanReceiverError(error)
    }
}

impl FlashLoanError {
    /// Whether this is the hook-defined failure that carries exactly `message`.
    pub open spec fn is_custom(&self, message: Seq<char>) -> bool {
        match *self {
            FlashLoanError::Custom(text) => text@ == message,
            _ => false,
        }
    }
}

/// Why an administrative operation of the lending contract failed.
#[derive(Debug, PartialEq, Eq)]
pub enum FlashLoanContractError {
    /// A failure that the contract defines for itself.
    Custom(String),
    /// The asset service refused the transfer.
    PSP22Error(PSP22Error),
    /// The caller lacks the owner's rights.
    OwnableError(OwnableError),
}

impl From<PSP22Error> for FlashLoanContractError {
    fn from(error: PSP22Error) -> (wrapped: FlashLoanContractError) {
        FlashLoanContractError::PSP22Error(error)
    }
}

impl FromSpecImpl<PSP22Error> for FlashLoanContractError {
    open spec fn obeys_from_spec() -> bool {
        true
    }

    open spec fn from_spec(error: PSP22Error) -> FlashLoanContractError {
        FlashLoanContractError::PSP22Error(error)
    }
}

impl From<OwnableError> for FlashLoanContractError {
    fn from(error: OwnableError) -> (wrapped: FlashLoanContractError) {
        FlashLoanContractError::OwnableError(error)
    }
}

impl FromSpecImpl<OwnableError> for FlashLoanContractError {
    open spec fn obeys_from_spec() -> bool {
        true
    }

    open spec fn from_spec(error: OwnableError) -> FlashLoanContractError {
        FlashLoanContractError::OwnableError(error)
    }
}

} // verus!

//! The plainest lender: anyone may borrow, nothing is charged, nothing is booked.

use vstd::prelude::*;
use crate::flash_loan::{start_flash_loan, FlashLoan, FlashLoanInternal, FlashLoanRun};
use crate::types::{AccountId, Balance, FlashLoanError};

verus! {

/// A lender without state: it lends to every caller and owes itself no fee.
pub struct FlashLoanSimple {}

impl FlashLoanSimple {
    /// The lender.
    pub fn new() -> (lender: FlashLoanSimple) {
        FlashLoanSimple {  }
    }
}

/// A fee of zero for each asset.
pub open spec fn no_fees(assets: Seq<AccountId>) -> Seq<Balance> {
    Seq::new(assets.len(), |i: int| 0u128)
}

impl FlashLoanInternal for FlashLoanSimple {
    open spec fn permits(
        &self,
        caller: AccountId,
        receiver: AccountId,
        assets: Seq<AccountId>,
        amounts: Seq<Balance>,
        data: Seq<u8>,
    ) -> bool {
        true
    }

    open spec fn refusal(
        &self,
        caller: AccountId,
        receiver: AccountId,
        assets: Seq<AccountId>,
        amounts: Seq<Balance>,
        data: Seq<u8>,
        error: FlashLoanError,
    ) -> bool {
        false
    }

    open spec fn fees_owed(
        &self,
        receiver: AccountId,
        assets: Seq<AccountId>,
        amounts: Seq<Balance>,
        data: Seq<u8>,
    ) -> Option<Seq<Balance>> {
        Some(no_fees(assets))
    }

    open spec fn fees_failure(
        &self,
        receiver: AccountId,
        assets: Seq<AccountId>,
        amounts: Seq<Balance>,
        data: Seq<u8>,
        error: FlashLoanError,
    ) -> bool {
        false
    }

    open spec fn can_settle(
        &self,
        receiver: AccountId,
        assets: Seq<AccountId>,
        amounts: Seq<Balance>,
        fees: Seq<Balance>,
        data: Seq<u8>,
    ) -> bool {
        true
    }

    open spec fn settled(
        &self,
        receiver: AccountId,
        assets: Seq<AccountId>,
        amounts: Seq<Balance>,
        fees: Seq<Balance>,
        data: Seq<u8>,
        after: &Self,
    ) -> bool {
        *after == *self
    }

    open spec fn settle_failure(
        &self,
        receiver: AccountId,
        assets: Seq<AccountId>,
        amounts: Seq<Balance>,
        fees: Seq<Balance>,
        data: Seq<u8>,
        error: FlashLoanError,
    ) -> bool {
        false
    }

    /// Every caller may borrow.
    fn _before_flash_loan(
        &self,
        caller: &AccountId,
        receiver: &AccountId,
        assets: &Vec<AccountId>,
        amounts: &Vec<Balance>,
        data: &Vec<u8>,
    ) -> (result: Result<(), FlashLoanError>) {
        Ok(())
    }

    /// No asset owes a fee.
    fn _calculate_fees(
        &self,
        receiver: &AccountId,
        assets: &Vec<AccountId>,
        amounts: &Vec<Balance>,
        data: &Vec<u8>,
    ) -> (result: Result<Vec<Balance>, FlashLoanError>) {
        let mut fees: Vec<Balance> = Vec::new();
        let mut i: usize = 0;
        while i < assets.len()
            invariant
                i <= assets.len(),
                fees@ == no_fees(assets@).subrange(0, i as int),
            decreases assets.len() - i,
        {
            fees.push(0);
            i = i + 1;
        }
        Ok(fees)
    }

    /// There are no books to keep.
    fn _after_flash_loan(
        &mut self,
        receiver: &AccountId,
        assets: &Vec<AccountId>,
        amounts: &Vec<Balance>,
        fees: &Vec<Balance>,
        data: &Vec<u8>,
    ) -> (result: Result<(), FlashLoanError>) {
        Ok(())
    }
}

impl FlashLoan for FlashLoanSimple {
    /// Starts a flash loan without fees. Only a request with other than one amount per
    /// asset is refused.
    fn flash_loan(
        &self,
        caller: AccountId,
        receiver: AccountId,
        assets: Vec<AccountId>,
        amounts: Vec<Balance>,
        data: Vec<u8>,
    ) -> (result: Result<FlashLoanRun, FlashLoanError>)
        ensures
            match result {
                Ok(run) => assets.len() == amounts.len() && run.fees() == no_fees(assets@),
                Err(error) => assets.len() != amounts.len() && error == FlashLoanError::Parameters,
            },
    {
        start_flash_loan(self, caller, receiver, assets, amounts, data)
    }
}

} // verus!

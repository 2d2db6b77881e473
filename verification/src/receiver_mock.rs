//! A borrower for trying a lender out: it approves the repayment of what it was lent,
//! and can be told to misbehave.
//!
//! Per asset the borrower reads its own balance, has the fee minted to itself where it
//! is set to, and approves the lender for the repayment. The host makes these calls and
//! reports on each; what follows from a report is decided here.

use vstd::prelude::*;
use vstd::string::StringExecFns;
use crate::types::{AccountId, Balance, FlashLoanReceiverError, PSP22Error};

verus! {

/// Published when the borrower has approved every repayment.
#[derive(Debug, PartialEq, Eq)]
pub struct ExecutedWithSuccess {
    pub assets: Vec<AccountId>,
    pub amounts: Vec<u128>,
    pub fees: Vec<u128>,
}

/// Published when the borrower declines because it was set to.
#[derive(Debug, PartialEq, Eq)]
pub struct ExecutedWithFail {
    pub assets: Vec<AccountId>,
    pub amounts: Vec<u128>,
    pub fees: Vec<u128>,
}

/// How the borrower is set.
pub struct FlashLoanReceiverMock {
    fail_execute_operation: bool,
    simulate_balance_to_cover_fee: bool,
    custom_amount_to_approve: Option<Balance>,
}

/// The settings of the borrower as plain values.
pub ghost struct FlashLoanReceiverMockView {
    /// Whether every operation is declined.
    pub fail_execute_operation: bool,
    /// Whether the fee of each asset is minted to the borrower before it approves.
    pub simulate_balance_to_cover_fee: bool,
    /// The amount approved for every asset in place of its repayment, if one is set.
    pub custom_amount_to_approve: Option<Balance>,
}

/// An operation under way, as plain values: what was lent, how the borrower was set
/// when it began, and the place of the asset being dealt with.
pub ghost struct OperationView {
    pub assets: Seq<AccountId>,
    pub amounts: Seq<Balance>,
    pub fees: Seq<Balance>,
    pub simulate_balance_to_cover_fee: bool,
    pub custom_amount_to_approve: Option<Balance>,
    pub index: nat,
}

/// A step of an operation, as plain values.
pub ghost enum ReceiverStepView {
    /// The balance of the asset at `index` is to be read.
    ReadBalance(OperationView),
    /// The fee of the asset at `index` is to be minted.
    Mint(OperationView),
    /// The lender is to be approved for the asset at `index`.
    Approve(OperationView),
    /// The operation went through.
    Succeeded { assets: Seq<AccountId>, amounts: Seq<Balance>, fees: Seq<Balance> },
    /// The borrower declined because it was set to.
    Declined { assets: Seq<AccountId>, amounts: Seq<Balance>, fees: Seq<Balance> },
    /// The operation failed with this message.
    Failed(Seq<char>),
}

/// How an account reads in a message: the text that `ink_env::AccountId` of these bytes
/// gives when it is formatted for debugging with upper-case hexadecimal numbers.
pub uninterp spec fn account_debug(bytes: Seq<u8>) -> Seq<char>;

/// What the borrower says when it holds less of `asset` than it was lent.
pub open spec fn insufficient_balance_message(asset: AccountId) -> Seq<char> {
    "Insufficient balance for the contract for asset "@ + account_debug(asset.0@)
}

/// What the borrower says when the fee of `asset` cannot be minted.
pub open spec fn not_mintable_message(asset: AccountId) -> Seq<char> {
    "Asset "@ + account_debug(asset.0@) + " is not mintable"@
}

/// What the borrower says when the lender cannot be approved.
pub open spec fn cannot_approve_message() -> Seq<char> {
    "Can't approve"@
}

/// Whether an operation on these lists can be carried out: every asset has an amount
/// and a fee, and their sum can be held in a `Balance`.
pub open spec fn operable(assets: Seq<AccountId>, amounts: Seq<Balance>, fees: Seq<Balance>) -> bool {
    &&& assets.len() <= amounts.len()
    &&& assets.len() <= fees.len()
    &&& forall|i: int| 0 <= i < assets.len() ==> #[trigger] amounts[i] + fees[i] <= u128::MAX
}

/// The amount for which the lender is approved on the asset being dealt with: the
/// amount set for every asset, or else what was lent plus its fee.
pub open spec fn approval(operation: OperationView) -> Balance {
    match operation.custom_amount_to_approve {
        Some(amount) => amount,
        None => (operation.amounts[operation.index as int] + operation.fees[operation.index as int]) as Balance,
    }
}

/// How an operation begins: a borrower set to fail declines; one that was lent nothing
/// has nothing to approve; any other reads the balance of the first asset.
pub open spec fn first_step(
    mock: FlashLoanReceiverMockView,
    assets: Seq<AccountId>,
    amounts: Seq<Balance>,
    fees: Seq<Balance>,
) -> ReceiverStepView {
    if mock.fail_execute_operation {
        ReceiverStepView::Declined { assets, amounts, fees }
    } else if assets.len() == 0 {
        ReceiverStepView::Succeeded { assets, amounts, fees }
    } else {
        ReceiverStepView::ReadBalance(
            OperationView {
                assets,
                amounts,
                fees,
                simulate_balance_to_cover_fee: mock.simulate_balance_to_cover_fee,
                custom_amount_to_approve: mock.custom_amount_to_approve,
                index: 0,
            },
        )
    }
}

/// What follows the balance read: a borrower that holds less than it was lent fails;
/// else the fee is minted where the borrower is set to, and the lender approved.
pub open spec fn after_balance(operation: OperationView, balance: Balance) -> ReceiverStepView {
    if operation.amounts[operation.index as int] > balance {
        ReceiverStepView::Failed(
            insufficient_balance_message(operation.assets[operation.index as int]),
        )
    } else if operation.simulate_balance_to_cover_fee {
        ReceiverStepView::Mint(operation)
    } else {
        ReceiverStepView::Approve(operation)
    }
}

/// What follows the minting: the approval, unless the minting failed.
pub open spec fn after_mint(operation: OperationView, minted: bool) -> ReceiverStepView {
    if minted {
        ReceiverStepView::Approve(operation)
    } else {
        ReceiverStepView::Failed(not_mintable_message(operation.assets[operation.index as int]))
    }
}

/// What follows the approval: the next asset, or success after the last, unless the
/// approval failed.
pub open spec fn after_approve(operation: OperationView, approved: bool) -> ReceiverStepView {
    if !approved {
        ReceiverStepView::Failed(cannot_approve_message())
    } else if operation.index + 1 < operation.assets.len() {
        ReceiverStepView::ReadBalance(
            OperationView { index: operation.index + 1, ..operation },
        )
    } else {
        ReceiverStepView::Succeeded {
            assets: operation.assets,
            amounts: operation.amounts,
            fees: operation.fees,
        }
    }
}

struct Operation {
    assets: Vec<AccountId>,
    amounts: Vec<Balance>,
    fees: Vec<Balance>,
    simulate_balance_to_cover_fee: bool,
    custom_amount_to_approve: Option<Balance>,
    index: usize,
}

/// The balance of an asset is to be read: what the borrower itself holds of it.
pub struct BalanceRead {
    operation: Operation,
}

/// The fee of an asset is to be minted to the borrower.
pub struct MintCall {
    operation: Operation,
}

/// The lender is to be approved for an amount of an asset.
pub struct ApproveCall {
    operation: Operation,
}

/// How an operation ended.
#[derive(Debug, PartialEq, Eq)]
pub enum ReceiverOutcome {
    /// It went through. The event is to be published.
    Succeeded(ExecutedWithSuccess),
    /// The borrower declined because it was set to. The event is to be published.
    Declined(ExecutedWithFail),
    /// It failed with this message.
    Failed(String),
}

/// What the host is to do next for an operation.
pub enum ReceiverStep {
    /// Read the balance, then answer.
    ReadBalance(BalanceRead),
    /// Mint the fee, then answer.
    Mint(MintCall),
    /// Approve the lender, then answer.
    Approve(ApproveCall),
    /// Nothing: the operation has ended.
    Finished(ReceiverOutcome),
}

impl View for ReceiverStep {
    type V = ReceiverStepView;

    open spec fn view(&self) -> ReceiverStepView {
        match *self {
            ReceiverStep::ReadBalance(read) => ReceiverStepView::ReadBalance(read@),
            ReceiverStep::Mint(call) => ReceiverStepView::Mint(call@),
            ReceiverStep::Approve(call) => ReceiverStepView::Approve(call@),
            ReceiverStep::Finished(outcome) => outcome@,
        }
    }
}

impl View for ReceiverOutcome {
    type V = ReceiverStepView;

    open spec fn view(&self) -> ReceiverStepView {
        match *self {
            ReceiverOutcome::Succeeded(event) => ReceiverStepView::Succeeded {
                assets: event.assets@,
                amounts: event.amounts@,
                fees: event.fees@,
            },
            ReceiverOutcome::Declined(event) => ReceiverStepView::Declined {
                assets: event.assets@,
                amounts: event.amounts@,
                fees: event.fees@,
            },
            ReceiverOutcome::Failed(message) => ReceiverStepView::Failed(message@),
        }
    }
}

impl ReceiverOutcome {
    /// What the borrower returns to the lender: success, the refusal of a borrower set
    /// to fail, or the message of a failure.
    pub fn result(self) -> (result: Result<(), FlashLoanReceiverError>)
        ensures
            match self {
                ReceiverOutcome::Succeeded(_) => result == Ok::<(), FlashLoanReceiverError>(()),
                ReceiverOutcome::Declined(_) => result == Err::<(), FlashLoanReceiverError>(
                    FlashLoanReceiverError::ExecuteOperationFailed,
                ),
                ReceiverOutcome::Failed(message) => result == Err::<(), FlashLoanReceiverError>(
                    FlashLoanReceiverError::Custom(message),
                ),
            },
    {
        match self {
            ReceiverOutcome::Succeeded(_) => Ok(()),
            ReceiverOutcome::Declined(_) => Err(FlashLoanReceiverError::ExecuteOperationFailed),
            ReceiverOutcome::Failed(message) => Err(FlashLoanReceiverError::Custom(message)),
        }
    }
}

/// Formats the account with `{:X?}` through the `Debug` impl of `ink_env::AccountId`,
/// which is made from the 32 bytes with its `From` impl. Nothing is claimed of the text
/// but that it depends on those bytes alone.
#[verifier::external_body]
fn debug_text(account: &AccountId) -> (text: String)
    ensures
        text@ == account_debug(account.0@),
{
    format!("{:X?}", ink_env::AccountId::from(account.0))
}

/// The message of a borrower that holds less of an asset than it was lent, given how
/// the asset reads.
pub fn insufficient_balance(asset_text: &str) -> (message: String)
    ensures
        message@ == "Insufficient balance for the contract for asset "@ + asset_text@,
{
    String::from_str("Insufficient balance for the contract for asset ").concat(asset_text)
}

/// The message of a borrower the fee of whose asset cannot be minted, given how the
/// asset reads.
pub fn not_mintable(asset_text: &str) -> (message: String)
    ensures
        message@ == "Asset "@ + asset_text@ + " is not mintable"@,
{
    String::from_str("Asset ").concat(asset_text).concat(" is not mintable")
}

/// Tells whether an operation on these lists can be carried out.
pub fn is_operable(assets: &Vec<AccountId>, amounts: &Vec<u128>, fees: &Vec<u128>) -> (fit: bool)
    ensures
        fit == operable(assets@, amounts@, fees@),
{
    if assets.len() > amounts.len() || assets.len() > fees.len() {
        return false;
    }
    let mut i: usize = 0;
    while i < assets.len()
        invariant
            i <= assets.len(),
            assets.len() <= amounts.len(),
            assets.len() <= fees.len(),
            forall|k: int| 0 <= k < i ==> #[trigger] amounts@[k] + fees@[k] <= u128::MAX,
        decreases assets.len() - i,
    {
        if amounts[i].checked_add(fees[i]).is_none() {
            return false;
        }
        i = i + 1;
    }
    true
}

impl Operation {
    #[verifier::type_invariant]
    spec fn well_formed(&self) -> bool {
        &&& operable(self.assets@, self.amounts@, self.fees@)
        &&& self.index < self.assets@.len()
    }

    spec fn view(&self) -> OperationView {
        OperationView {
            assets: self.assets@,
            amounts: self.amounts@,
            fees: self.fees@,
            simulate_balance_to_cover_fee: self.simulate_balance_to_cover_fee,
            custom_amount_to_approve: self.custom_amount_to_approve,
            index: self.index as nat,
        }
    }

    fn asset(&self) -> (asset: AccountId)
        ensures
            self@.index < self@.assets.len(),
            asset == self@.assets[self@.index as int],
    {
        proof {
            use_type_invariant(self);
        }
        self.assets[self.index]
    }

    fn succeeded(self) -> (step: ReceiverStep)
        ensures
            step@ == (ReceiverStepView::Succeeded {
                assets: self@.assets,
                amounts: self@.amounts,
                fees: self@.fees,
            }),
    {
        ReceiverStep::Finished(
            ReceiverOutcome::Succeeded(
                ExecutedWithSuccess { assets: self.assets, amounts: self.amounts, fees: self.fees },
            ),
        )
    }
}

impl FlashLoanReceiverMock {
    /// The settings as plain values.
    pub closed spec fn view(&self) -> FlashLoanReceiverMockView {
        FlashLoanReceiverMockView {
            fail_execute_operation: self.fail_execute_operation,
            simulate_balance_to_cover_fee: self.simulate_balance_to_cover_fee,
            custom_amount_to_approve: self.custom_amount_to_approve,
        }
    }

    /// A borrower that carries its operations out, has each fee minted to itself, and
    /// approves the lender for exactly each repayment.
    pub fn new() -> (mock: FlashLoanReceiverMock)
        ensures
            mock@ == (FlashLoanReceiverMockView {
                fail_execute_operation: false,
                simulate_balance_to_cover_fee: true,
                custom_amount_to_approve: None,
            }),
    {
        FlashLoanReceiverMock {
            fail_execute_operation: false,
            simulate_balance_to_cover_fee: true,
            custom_amount_to_approve: None,
        }
    }

    /// Sets whether every operation is declined.
    pub fn set_fail_execute_operation(&mut self, should_fail_execute_operation: bool)
        ensures
            final(self)@ == (FlashLoanReceiverMockView {
                fail_execute_operation: should_fail_execute_operation,
                ..old(self)@
            }),
    {
        self.fail_execute_operation = should_fail_execute_operation;
    }

    /// Sets the amount that is approved for every asset in place of its repayment.
    pub fn set_custom_amount_to_approve(&mut self, custom_amount_to_approve: u128)
        ensures
            final(self)@ == (FlashLoanReceiverMockView {
                custom_amount_to_approve: Some(custom_amount_to_approve),
                ..old(self)@
            }),
    {
        self.custom_amount_to_approve = Some(custom_amount_to_approve);
    }

    /// Sets whether the fee of each asset is minted to the borrower before it approves.
    pub fn set_simulate_balance_to_cover_fee(&mut self, simulate_balance_to_cover_fee: bool)
        ensures
            final(self)@ == (FlashLoanReceiverMockView {
                simulate_balance_to_cover_fee,
                ..old(self)@
            }),
    {
        self.simulate_balance_to_cover_fee = simulate_balance_to_cover_fee;
    }

    /// Begins the borrower's operation on what it was lent. The settings are those of
    /// this moment; the bytes handed through are not looked at.
    pub fn execute_operation(
        &self,
        assets: Vec<AccountId>,
        amounts: Vec<u128>,
        fees: Vec<u128>,
        receiver_params: Vec<u8>,
    ) -> (step: ReceiverStep)
        requires
            !self@.fail_execute_operation ==> operable(assets@, amounts@, fees@),
        ensures
            step@ == first_step(self@, assets@, amounts@, fees@),
    {
        if self.fail_execute_operation {
            return ReceiverStep::Finished(
                ReceiverOutcome::Declined(ExecutedWithFail { assets, amounts, fees }),
            );
        }
        if assets.len() == 0 {
            return ReceiverStep::Finished(
                ReceiverOutcome::Succeeded(ExecutedWithSuccess { assets, amounts, fees }),
            );
        }
        ReceiverStep::ReadBalance(
            BalanceRead {
                operation: Operation {
                    assets,
                    amounts,
                    fees,
                    simulate_balance_to_cover_fee: self.simulate_balance_to_cover_fee,
                    custom_amount_to_approve: self.custom_amount_to_approve,
                    index: 0,
                },
            },
        )
    }
}

impl BalanceRead {
    /// The operation that this read belongs to.
    pub closed spec fn view(&self) -> OperationView {
        self.operation@
    }

    /// The asset whose balance is to be read.
    pub fn asset(&self) -> (asset: AccountId)
        ensures
            asset == self@.assets[self@.index as int],
    {
        self.operation.asset()
    }

    /// Takes the balance that was read and decides what follows.
    pub fn answer(self, balance: Balance) -> (step: ReceiverStep)
        ensures
            step@ == after_balance(self@, balance),
    {
        proof {
            use_type_invariant(&self.operation);
        }
        let operation = self.operation;
        if operation.amounts[operation.index] > balance {
            let text = debug_text(&operation.assets[operation.index]);
            ReceiverStep::Finished(ReceiverOutcome::Failed(insufficient_balance(text.as_str())))
        } else if operation.simulate_balance_to_cover_fee {
            ReceiverStep::Mint(MintCall { operation })
        } else {
            ReceiverStep::Approve(ApproveCall { operation })
        }
    }
}

impl MintCall {
    /// The operation that this call belongs to.
    pub closed spec fn view(&self) -> OperationView {
        self.operation@
    }

    /// The asset to mint.
    pub fn asset(&self) -> (asset: AccountId)
        ensures
            asset == self@.assets[self@.index as int],
    {
        self.operation.asset()
    }

    /// The amount to mint: the fee of the asset.
    pub fn amount(&self) -> (amount: Balance)
        ensures
            amount == self@.fees[self@.index as int],
    {
        proof {
            use_type_invariant(&self.operation);
        }
        self.operation.fees[self.operation.index]
    }

    /// Takes the report on the minting and decides what follows.
    pub fn answer(self, outcome: Result<(), PSP22Error>) -> (step: ReceiverStep)
        ensures
            step@ == after_mint(self@, outcome is Ok),
    {
        proof {
            use_type_invariant(&self.operation);
        }
        let operation = self.operation;
        match outcome {
            Ok(()) => ReceiverStep::Approve(ApproveCall { operation }),
            Err(_) => {
                let text = debug_text(&operation.assets[operation.index]);
                ReceiverStep::Finished(ReceiverOutcome::Failed(not_mintable(text.as_str())))
            },
        }
    }
}

impl ApproveCall {
    /// The operation that this call belongs to.
    pub closed spec fn view(&self) -> OperationView {
        self.operation@
    }

    /// The asset for which the lender is to be approved.
    pub fn asset(&self) -> (asset: AccountId)
        ensures
            asset == self@.assets[self@.index as int],
    {
        self.operation.asset()
    }

    /// The amount for which the lender is to be approved.
    pub fn amount(&self) -> (amount: Balance)
        ensures
            amount == approval(self@),
    {
        proof {
            use_type_invariant(&self.operation);
        }
        let operation = &self.operation;
        let repayment = operation.amounts[operation.index] + operation.fees[operation.index];
        match operation.custom_amount_to_approve {
            Some(amount) => amount,
            None => repayment,
        }
    }

    /// Takes the report on the approval and decides what follows.
    pub fn answer(self, outcome: Result<(), PSP22Error>) -> (step: ReceiverStep)
        ensures
            step@ == after_approve(self@, outcome is Ok),
    {
        proof {
            use_type_invariant(&self.operation);
        }
        let operation = self.operation;
        match outcome {
            Err(_) => ReceiverStep::Finished(
                ReceiverOutcome::Failed(String::from_str("Can't approve")),
            ),
            Ok(()) => {
                let count = operation.assets.len();
                if operation.index + 1 < count {
                    let Operation {
                        assets,
                        amounts,
                        fees,
                        simulate_balance_to_cover_fee,
                        custom_amount_to_approve,
                        index,
                    } = operation;
                    ReceiverStep::ReadBalance(
                        BalanceRead {
                            operation: Operation {
                                assets,
                                amounts,
                                fees,
                                simulate_balance_to_cover_fee,
                                custom_amount_to_approve,
                                index: index + 1,
                            },
                        },
                    )
                } else {
                    operation.succeeded()
                }
            },
        }
    }
}

} // verus!

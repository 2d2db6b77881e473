//! The loan protocol: what a lender decides between the outside calls of one flash loan.
//!
//! A loan is a fixed sequence of outside calls: one transfer to the borrower per asset,
//! the borrower's own operation, and one transfer back per asset. The host makes each
//! call and reports how it went; everything else is decided here. The first failure
//! ends the loan, and the lender's books change only once every call has succeeded.

use vstd::prelude::*;
use crate::events::{flash_loan_events, loan_events, FlashLoanEvent};
use crate::types::{AccountId, Balance, FlashLoanError};

verus! {

/// The message of the error that ends a loan whose repayment of some asset, amount plus
/// fee, exceeds a `Balance`.
pub open spec fn repayment_overflow_message() -> Seq<char> {
    "RepaymentOverflow"@
}

/// The steps of a loan that an integrating contract decides for itself.
pub trait FlashLoanInternal: Sized {
    /// Whether `caller` may start this loan.
    spec fn permits(
        &self,
        caller: AccountId,
        receiver: AccountId,
        assets: Seq<AccountId>,
        amounts: Seq<Balance>,
        data: Seq<u8>,
    ) -> bool;

    /// Whether `error` is what a caller who may not start this loan is told.
    spec fn refusal(
        &self,
        caller: AccountId,
        receiver: AccountId,
        assets: Seq<AccountId>,
        amounts: Seq<Balance>,
        data: Seq<u8>,
        error: FlashLoanError,
    ) -> bool;

    /// The fee owed on each asset, or `None` where no fees can be given.
    spec fn fees_owed(
        &self,
        receiver: AccountId,
        assets: Seq<AccountId>,
        amounts: Seq<Balance>,
        data: Seq<u8>,
    ) -> Option<Seq<Balance>>;

    /// Whether `error` is what is reported where no fees can be given.
    spec fn fees_failure(
        &self,
        receiver: AccountId,
        assets: Seq<AccountId>,
        amounts: Seq<Balance>,
        data: Seq<u8>,
        error: FlashLoanError,
    ) -> bool;

    /// Whether the books can take the fees of this loan.
    spec fn can_settle(
        &self,
        receiver: AccountId,
        assets: Seq<AccountId>,
        amounts: Seq<Balance>,
        fees: Seq<Balance>,
        data: Seq<u8>,
    ) -> bool;

    /// Whether `after` is this state with the fees of this loan booked.
    spec fn settled(
        &self,
        receiver: AccountId,
        assets: Seq<AccountId>,
        amounts: Seq<Balance>,
        fees: Seq<Balance>,
        data: Seq<u8>,
        after: &Self,
    ) -> bool;

    /// Whether `error` is what is reported where the books cannot take the fees.
    spec fn settle_failure(
        &self,
        receiver: AccountId,
        assets: Seq<AccountId>,
        amounts: Seq<Balance>,
        fees: Seq<Balance>,
        data: Seq<u8>,
        error: FlashLoanError,
    ) -> bool;

    /// Runs before anything is lent: decides whether `caller` may start the loan.
    fn _before_flash_loan(
        &self,
        caller: &AccountId,
        receiver: &AccountId,
        assets: &Vec<AccountId>,
        amounts: &Vec<Balance>,
        data: &Vec<u8>,
    ) -> (result: Result<(), FlashLoanError>)
        ensures
            result is Ok <==> self.permits(*caller, *receiver, assets@, amounts@, data@),
            result matches Err(error) ==> self.refusal(
                *caller,
                *receiver,
                assets@,
                amounts@,
                data@,
                error,
            ),
    ;

    /// Gives the fee owed on each asset of the loan.
    fn _calculate_fees(
        &self,
        receiver: &AccountId,
        assets: &Vec<AccountId>,
        amounts: &Vec<Balance>,
        data: &Vec<u8>,
    ) -> (result: Result<Vec<Balance>, FlashLoanError>)
        requires
            assets.len() == amounts.len(),
        ensures
            match result {
                Ok(fees) => fees.len() == assets.len() && self.fees_owed(
                    *receiver,
                    assets@,
                    amounts@,
                    data@,
                ) == Some(fees@),
                Err(error) => self.fees_owed(*receiver, assets@, amounts@, data@) is None
                    && self.fees_failure(*receiver, assets@, amounts@, data@, error),
            },
    ;

    /// Runs once everything lent has come back with its fee: books the fees. Where it
    /// fails, it leaves the state as it found it.
    fn _after_flash_loan(
        &mut self,
        receiver: &AccountId,
        assets: &Vec<AccountId>,
        amounts: &Vec<Balance>,
        fees: &Vec<Balance>,
        data: &Vec<u8>,
    ) -> (result: Result<(), FlashLoanError>)
        requires
            assets.len() == amounts.len(),
            assets.len() == fees.len(),
        ensures
            match result {
                Ok(()) => old(self).can_settle(*receiver, assets@, amounts@, fees@, data@) && old(
                    self,
                ).settled(*receiver, assets@, amounts@, fees@, data@, final(self)),
                Err(error) => !old(self).can_settle(*receiver, assets@, amounts@, fees@, data@)
                    && old(self).settle_failure(*receiver, assets@, amounts@, fees@, data@, error)
                    && *final(self) == *old(self),
            },
    ;
}

/// An outside call that the host makes on behalf of a loan. The callee of each may
/// enter the lender again before it returns.
#[derive(Debug, PartialEq, Eq)]
pub enum LoanCall {
    /// Move `amount` of `asset` out of the lender's custody to `to`.
    Transfer { asset: AccountId, to: AccountId, amount: Balance },
    /// Let the borrower carry out its operation.
    ExecuteOperation {
        receiver: AccountId,
        assets: Vec<AccountId>,
        amounts: Vec<Balance>,
        fees: Vec<Balance>,
        data: Vec<u8>,
    },
    /// Pull `amount` of `asset` from `from` into the lender's custody.
    TransferFrom { asset: AccountId, from: AccountId, amount: Balance },
}

/// A `LoanCall` with its lists as sequences.
pub ghost enum LoanCallView {
    Transfer { asset: AccountId, to: AccountId, amount: Balance },
    ExecuteOperation {
        receiver: AccountId,
        assets: Seq<AccountId>,
        amounts: Seq<Balance>,
        fees: Seq<Balance>,
        data: Seq<u8>,
    },
    TransferFrom { asset: AccountId, from: AccountId, amount: Balance },
}

impl View for LoanCall {
    type V = LoanCallView;

    open spec fn view(&self) -> LoanCallView {
        match *self {
            LoanCall::Transfer { asset, to, amount } => LoanCallView::Transfer {
                asset,
                to,
                amount,
            },
            LoanCall::ExecuteOperation {
                receiver,
                assets,
                amounts,
                fees,
                data,
            } => LoanCallView::ExecuteOperation {
                receiver,
                assets: assets@,
                amounts: amounts@,
                fees: fees@,
                data: data@,
            },
            LoanCall::TransferFrom { asset, from, amount } => LoanCallView::TransferFrom {
                asset,
                from,
                amount,
            },
        }
    }
}

impl LoanCall {
    /// Whether the callee may enter the lender again before it returns. Every call of a
    /// loan is made so: the lender holds no lock, and a nested loan is a loan of its own.
    pub fn allow_reentry(&self) -> (allowed: bool)
        ensures
            allowed,
    {
        true
    }
}

/// Whether what is owed back on every asset, amount plus fee, can be held in a `Balance`.
pub open spec fn repayments_fit(amounts: Seq<Balance>, fees: Seq<Balance>) -> bool {
    forall|i: int| 0 <= i < amounts.len() ==> #[trigger] amounts[i] + fees[i] <= u128::MAX
}

/// The transfers that hand the loan out: one per asset, in the order of the request.
pub open spec fn disbursements(
    receiver: AccountId,
    assets: Seq<AccountId>,
    amounts: Seq<Balance>,
) -> Seq<LoanCallView> {
    Seq::new(
        assets.len(),
        |i: int| LoanCallView::Transfer { asset: assets[i], to: receiver, amount: amounts[i] },
    )
}

/// The transfers that bring the loan back with its fees: one per asset, in the order of
/// the request.
pub open spec fn collections(
    receiver: AccountId,
    assets: Seq<AccountId>,
    amounts: Seq<Balance>,
    fees: Seq<Balance>,
) -> Seq<LoanCallView> {
    Seq::new(
        assets.len(),
        |i: int|
            LoanCallView::TransferFrom {
                asset: assets[i],
                from: receiver,
                amount: (amounts[i] + fees[i]) as Balance,
            },
    )
}

/// Every outside call of a loan that goes through, in the order in which it is made.
pub open spec fn loan_script(
    receiver: AccountId,
    assets: Seq<AccountId>,
    amounts: Seq<Balance>,
    fees: Seq<Balance>,
    data: Seq<u8>,
) -> Seq<LoanCallView> {
    disbursements(receiver, assets, amounts).push(
        LoanCallView::ExecuteOperation { receiver, assets, amounts, fees, data },
    ) + collections(receiver, assets, amounts, fees)
}

enum Stage {
    Disbursing,
    Operating,
    Collecting,
}

/// A loan in flight: the request, its fees, and how many of its outside calls have
/// succeeded. One call is always pending.
pub struct FlashLoanRun {
    receiver: AccountId,
    assets: Vec<AccountId>,
    amounts: Vec<Balance>,
    fees: Vec<Balance>,
    data: Vec<u8>,
    stage: Stage,
    index: usize,
}

/// What a loan does once the host has reported on the pending call.
pub enum LoanStep {
    /// The loan goes on: the next call is pending.
    Pending(FlashLoanRun),
    /// Every call succeeded and the fees are booked. The events are to be published.
    Completed(Vec<FlashLoanEvent>),
    /// The loan is aborted. Whatever its calls did is to be undone.
    Reverted(FlashLoanError),
}

/// What holds once the last call of a loan has succeeded: either the books could take
/// the fees, the fees are booked and `step` carries the events of the loan; or they
/// could not, the books are as they were and `step` carries the error.
pub open spec fn loan_settled<T: FlashLoanInternal>(
    before: &T,
    after: &T,
    receiver: AccountId,
    assets: Seq<AccountId>,
    amounts: Seq<Balance>,
    fees: Seq<Balance>,
    data: Seq<u8>,
    step: LoanStep,
) -> bool {
    match step {
        LoanStep::Completed(events) => {
            &&& before.can_settle(receiver, assets, amounts, fees, data)
            &&& before.settled(receiver, assets, amounts, fees, data, after)
            &&& events@ == loan_events(receiver, assets, amounts, fees)
        },
        LoanStep::Reverted(error) => {
            &&& !before.can_settle(receiver, assets, amounts, fees, data)
            &&& before.settle_failure(receiver, assets, amounts, fees, data, error)
            &&& *after == *before
        },
        LoanStep::Pending(_) => false,
    }
}

/// What holds of the answer to a request for a loan. The checks are made in this order,
/// and the first that fails gives the error: as many amounts as assets; a caller who may
/// borrow; fees that can be given; repayments that fit. Where all pass, the loan is in
/// flight with none of its calls made.
pub open spec fn loan_started<T: FlashLoanInternal>(
    hooks: &T,
    caller: AccountId,
    receiver: AccountId,
    assets: Seq<AccountId>,
    amounts: Seq<Balance>,
    data: Seq<u8>,
    result: Result<FlashLoanRun, FlashLoanError>,
) -> bool {
    match result {
        Ok(run) => {
            &&& assets.len() == amounts.len()
            &&& hooks.permits(caller, receiver, assets, amounts, data)
            &&& hooks.fees_owed(receiver, assets, amounts, data) == Some(run.fees())
            &&& repayments_fit(amounts, run.fees())
            &&& run.well_formed()
            &&& run.receiver() == receiver
            &&& run.assets() == assets
            &&& run.amounts() == amounts
            &&& run.data() == data
            &&& run.position() == 0
        },
        Err(error) => if assets.len() != amounts.len() {
            error == FlashLoanError::Parameters
        } else if !hooks.permits(caller, receiver, assets, amounts, data) {
            hooks.refusal(caller, receiver, assets, amounts, data, error)
        } else {
            match hooks.fees_owed(receiver, assets, amounts, data) {
                None => hooks.fees_failure(receiver, assets, amounts, data, error),
                Some(fees) => !repayments_fit(amounts, fees) && error.is_custom(
                    repayment_overflow_message(),
                ),
            }
        },
    }
}

/// The entry point of a lender.
pub trait FlashLoan: FlashLoanInternal {
    /// Starts a flash loan of `amounts` of `assets` to `receiver` on behalf of `caller`.
    /// The lender's state is only read.
    fn flash_loan(
        &self,
        caller: AccountId,
        receiver: AccountId,
        assets: Vec<AccountId>,
        amounts: Vec<Balance>,
        data: Vec<u8>,
    ) -> (result: Result<FlashLoanRun, FlashLoanError>)
        ensures
            loan_started(self, caller, receiver, assets@, amounts@, data@, result),
    ;
}

/// The calls as the script lists them.
pub open spec fn call_views(calls: Seq<LoanCall>) -> Seq<LoanCallView> {
    calls.map_values(|call: LoanCall| call@)
}

fn copy_of<T: Copy>(items: &Vec<T>) -> (copy: Vec<T>)
    ensures
        copy@ == items@,
{
    let mut copy: Vec<T> = Vec::new();
    let mut i: usize = 0;
    while i < items.len()
        invariant
            i <= items.len(),
            copy@ == items@.subrange(0, i as int),
        decreases items.len() - i,
    {
        copy.push(items[i]);
        i = i + 1;
    }
    copy
}

/// The transfer that hands the asset at `place` out to the borrower.
fn _send_flash_loan(
    receiver: &AccountId,
    assets: &Vec<AccountId>,
    amounts: &Vec<Balance>,
    place: usize,
) -> (call: LoanCall)
    requires
        assets.len() == amounts.len(),
        place < assets.len(),
    ensures
        call@ == disbursements(*receiver, assets@, amounts@)[place as int],
{
    LoanCall::Transfer { asset: assets[place], to: *receiver, amount: amounts[place] }
}

/// The transfer that brings the asset at `place` back from the borrower, with its fee.
fn _get_back_flash_loan(
    receiver: &AccountId,
    assets: &Vec<AccountId>,
    amounts: &Vec<Balance>,
    fees: &Vec<Balance>,
    place: usize,
) -> (call: LoanCall)
    requires
        assets.len() == amounts.len(),
        assets.len() == fees.len(),
        place < assets.len(),
        repayments_fit(amounts@, fees@),
    ensures
        call@ == collections(*receiver, assets@, amounts@, fees@)[place as int],
{
    LoanCall::TransferFrom {
        asset: assets[place],
        from: *receiver,
        amount: amounts[place] + fees[place],
    }
}

fn check_repayments(amounts: &Vec<Balance>, fees: &Vec<Balance>) -> (fit: bool)
    requires
        amounts.len() == fees.len(),
    ensures
        fit == repayments_fit(amounts@, fees@),
{
    let mut i: usize = 0;
    while i < amounts.len()
        invariant
            i <= amounts.len(),
            amounts.len() == fees.len(),
            forall|k: int| 0 <= k < i ==> #[trigger] amounts@[k] + fees@[k] <= u128::MAX,
        decreases amounts.len() - i,
    {
        if amounts[i].checked_add(fees[i]).is_none() {
            return false;
        }
        i = i + 1;
    }
    true
}

impl FlashLoanRun {
    /// What holds of every loan in flight: as many amounts and fees as assets, repayments
    /// that fit, and a call of the script pending.
    #[verifier::type_invariant]
    pub closed spec fn well_formed(&self) -> bool {
        &&& self.assets@.len() == self.amounts@.len()
        &&& self.assets@.len() == self.fees@.len()
        &&& repayments_fit(self.amounts@, self.fees@)
        &&& match self.stage {
            Stage::Disbursing => self.index < self.assets@.len(),
            Stage::Operating => self.index == 0,
            Stage::Collecting => self.index < self.assets@.len(),
        }
    }

    /// The borrower.
    pub closed spec fn receiver(&self) -> AccountId {
        self.receiver
    }

    /// The assets lent.
    pub closed spec fn assets(&self) -> Seq<AccountId> {
        self.assets@
    }

    /// The amount lent of each asset.
    pub closed spec fn amounts(&self) -> Seq<Balance> {
        self.amounts@
    }

    /// The fee owed on each asset.
    pub closed spec fn fees(&self) -> Seq<Balance> {
        self.fees@
    }

    /// The bytes handed through to the borrower.
    pub closed spec fn data(&self) -> Seq<u8> {
        self.data@
    }

    /// How many outside calls of this loan have succeeded.
    pub closed spec fn position(&self) -> nat {
        match self.stage {
            Stage::Disbursing => self.index as nat,
            Stage::Operating => self.assets@.len(),
            Stage::Collecting => self.assets@.len() + 1 + self.index as nat,
        }
    }

    /// Every outside call of this loan, in order.
    pub open spec fn script(&self) -> Seq<LoanCallView> {
        loan_script(self.receiver(), self.assets(), self.amounts(), self.fees(), self.data())
    }

    /// Whether `other` is the same loan, at whatever position.
    pub open spec fn same_loan(&self, other: &FlashLoanRun) -> bool {
        &&& self.receiver() == other.receiver()
        &&& self.assets() == other.assets()
        &&& self.amounts() == other.amounts()
        &&& self.fees() == other.fees()
        &&& self.data() == other.data()
    }

    /// A loan in flight is a request of as many amounts as assets whose repayments fit,
    /// with a call of its script pending.
    pub proof fn lemma_in_flight(&self)
        requires
            self.well_formed(),
        ensures
            self.assets().len() == self.amounts().len(),
            self.assets().len() == self.fees().len(),
            repayments_fit(self.amounts(), self.fees()),
            self.script().len() == 2 * self.assets().len() + 1,
            self.position() < self.script().len(),
    {
    }

    /// The call that the host is to make now.
    pub fn pending(&self) -> (call: LoanCall)
        ensures
            self.well_formed(),
            self.position() < self.script().len(),
            call@ == self.script()[self.position() as int],
    {
        proof {
            use_type_invariant(self);
        }
        match self.stage {
            Stage::Disbursing => _send_flash_loan(
                &self.receiver,
                &self.assets,
                &self.amounts,
                self.index,
            ),
            Stage::Operating => LoanCall::ExecuteOperation {
                receiver: self.receiver,
                assets: copy_of(&self.assets),
                amounts: copy_of(&self.amounts),
                fees: copy_of(&self.fees),
                data: copy_of(&self.data),
            },
            Stage::Collecting => _get_back_flash_loan(
                &self.receiver,
                &self.assets,
                &self.amounts,
                &self.fees,
                self.index,
            ),
        }
    }

    /// Takes the host's report on the pending call and decides how the loan goes on.
    ///
    /// A failure ends the loan with that very error and leaves `hooks` as it was. A
    /// success makes the next call pending; after the last call the fees are booked
    /// through `hooks` and the loan completes, unless the books cannot take them.
    pub fn resume<T: FlashLoanInternal>(
        self,
        hooks: &mut T,
        outcome: Result<(), FlashLoanError>,
    ) -> (step: LoanStep)
        ensures
            match outcome {
                Err(error) => step == LoanStep::Reverted(error) && *final(hooks) == *old(hooks),
                Ok(()) => if self.position() + 1 < self.script().len() {
                    &&& step matches LoanStep::Pending(next)
                    &&& next.well_formed()
                    &&& next.same_loan(&self)
                    &&& next.position() == self.position() + 1
                    &&& *final(hooks) == *old(hooks)
                } else {
                    loan_settled(
                        old(hooks),
                        final(hooks),
                        self.receiver(),
                        self.assets(),
                        self.amounts(),
                        self.fees(),
                        self.data(),
                        step,
                    )
                },
            },
    {
        proof {
            use_type_invariant(&self);
        }
        if let Err(error) = outcome {
            return LoanStep::Reverted(error);
        }
        let FlashLoanRun { receiver, assets, amounts, fees, data, stage, index } = self;
        let count = assets.len();
        match stage {
            Stage::Disbursing => {
                if index + 1 < count {
                    LoanStep::Pending(
                        FlashLoanRun {
                            receiver,
                            assets,
                            amounts,
                            fees,
                            data,
                            stage: Stage::Disbursing,
                            index: index + 1,
                        },
                    )
                } else {
                    LoanStep::Pending(
                        FlashLoanRun {
                            receiver,
                            assets,
                            amounts,
                            fees,
                            data,
                            stage: Stage::Operating,
                            index: 0,
                        },
                    )
                }
            },
            Stage::Operating => {
                if count > 0 {
                    LoanStep::Pending(
                        FlashLoanRun {
                            receiver,
                            assets,
                            amounts,
                            fees,
                            data,
                            stage: Stage::Collecting,
                            index: 0,
                        },
                    )
                } else {
                    settle(hooks, receiver, assets, amounts, fees, data)
                }
            },
            Stage::Collecting => {
                if index + 1 < count {
                    LoanStep::Pending(
                        FlashLoanRun {
                            receiver,
                            assets,
                            amounts,
                            fees,
                            data,
                            stage: Stage::Collecting,
                            index: index + 1,
                        },
                    )
                } else {
                    settle(hooks, receiver, assets, amounts, fees, data)
                }
            },
        }
    }

    /// Plays the loan to its end against a host whose calls all succeed, but for the one
    /// named by `failure`: the call made after that many others, which fails with the
    /// error given. Gives how the loan ended and every call that the host made for it.
    ///
    /// Where a call fails, the calls made are those of the script up to the failing one,
    /// the loan is reverted with that very error and `hooks` is as it was. Where none
    /// does, the calls made are the rest of the script to its end, and the loan has
    /// settled.
    pub fn replay<T: FlashLoanInternal>(
        self,
        hooks: &mut T,
        failure: Option<(usize, FlashLoanError)>,
    ) -> (end: (LoanStep, Vec<LoanCall>))
        ensures
            match failure {
                Some((after, error)) if self.position() + after < self.script().len() => {
                    &&& call_views(end.1@) == self.script().subrange(
                        self.position() as int,
                        self.position() + after + 1,
                    )
                    &&& end.0 == LoanStep::Reverted(error)
                    &&& *final(hooks) == *old(hooks)
                },
                _ => {
                    &&& call_views(end.1@) == self.script().skip(self.position() as int)
                    &&& loan_settled(
                        old(hooks),
                        final(hooks),
                        self.receiver(),
                        self.assets(),
                        self.amounts(),
                        self.fees(),
                        self.data(),
                        end.0,
                    )
                },
            },
    {
        let ghost script = self.script();
        let ghost start = self.position();
        let mut run = self;
        let mut calls: Vec<LoanCall> = Vec::new();
        proof {
            use_type_invariant(&run);
        }
        loop
            invariant
                run.well_formed(),
                failure matches Some(named) ==> named.0 >= calls@.len(),
                run.same_loan(&self),
                script == self.script(),
                start == self.position(),
                run.position() == start + calls@.len(),
                run.position() < script.len(),
                call_views(calls@) == script.subrange(start as int, (start + calls@.len()) as int),
                *hooks == *old(hooks),
            decreases script.len() - run.position(),
        {
            let call = run.pending();
            let made = calls.len();
            calls.push(call);
            let fails = match &failure {
                Some(named) => named.0 == made,
                None => false,
            };
            if fails {
                let named = failure.unwrap();
                return (run.resume(hooks, Err(named.1)), calls);
            }
            match run.resume(hooks, Ok(())) {
                LoanStep::Pending(next) => {
                    run = next;
                },
                LoanStep::Completed(events) => {
                    return (LoanStep::Completed(events), calls);
                },
                LoanStep::Reverted(error) => {
                    return (LoanStep::Reverted(error), calls);
                },
            }
        }
    }
}

fn settle<T: FlashLoanInternal>(
    hooks: &mut T,
    receiver: AccountId,
    assets: Vec<AccountId>,
    amounts: Vec<Balance>,
    fees: Vec<Balance>,
    data: Vec<u8>,
) -> (step: LoanStep)
    requires
        assets.len() == amounts.len(),
        assets.len() == fees.len(),
    ensures
        loan_settled(old(hooks), final(hooks), receiver, assets@, amounts@, fees@, data@, step),
{
    match hooks._after_flash_loan(&receiver, &assets, &amounts, &fees, &data) {
        Ok(()) => LoanStep::Completed(flash_loan_events(&receiver, &assets, &amounts, &fees)),
        Err(error) => LoanStep::Reverted(error),
    }
}

/// Starts a flash loan of `amounts` of `assets` to `receiver` on behalf of `caller`:
/// checks the request, asks `hooks` whether the caller may borrow and what the loan
/// costs, and makes sure that every repayment can be held in a `Balance`.
///
/// Nothing has been lent when this returns, and `hooks` is only read. On `Ok` the first
/// outside call of the loan is pending; on `Err` there is no loan, and no call is ever
/// to be made for it.
pub fn start_flash_loan<T: FlashLoanInternal>(
    hooks: &T,
    caller: AccountId,
    receiver: AccountId,
    assets: Vec<AccountId>,
    amounts: Vec<Balance>,
    data: Vec<u8>,
) -> (result: Result<FlashLoanRun, FlashLoanError>)
    ensures
        loan_started(hooks, caller, receiver, assets@, amounts@, data@, result),
{
    if assets.len() != amounts.len() {
        return Err(FlashLoanError::Parameters);
    }
    if let Err(error) = hooks._before_flash_loan(&caller, &receiver, &assets, &amounts, &data) {
        return Err(error);
    }
    let fees = match hooks._calculate_fees(&receiver, &assets, &amounts, &data) {
        Ok(fees) => fees,
        Err(error) => {
            return Err(error);
        },
    };
    if !check_repayments(&amounts, &fees) {
        return Err(FlashLoanError::Custom("RepaymentOverflow".to_owned()));
    }
    let stage = if assets.len() > 0 {
        Stage::Disbursing
    } else {
        Stage::Operating
    };
    Ok(FlashLoanRun { receiver, assets, amounts, fees, data, stage, index: 0 })
}

} // verus!

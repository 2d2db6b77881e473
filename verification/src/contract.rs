//! The lending contract: who may borrow, what it costs, and what has been earned.

use vstd::prelude::*;
use crate::fees::{compute_fee, fee_fits, fee_of, lemma_fee_within_amount};
use crate::flash_loan::{
    repayment_overflow_message,
    repayments_fit,
    start_flash_loan,
    FlashLoan,
    FlashLoanInternal,
    FlashLoanRun,
};
use crate::accounting::{
    accrual_fits,
    accrued,
    accrued_upto,
    lemma_total_absent,
    lemma_total_grows,
    total_for,
    total_upto,
};
use crate::registry::{amount_at, AccountMap, AccountSet};
use crate::types::{
    AccountId,
    Balance,
    FlashLoanContractError,
    FlashLoanError,
    OwnableError,
    PSP22Error,
};

verus! {

/// The message of the error that ends a loan one of whose fees exceeds a `Balance`.
pub open spec fn fee_overflow_message() -> Seq<char> {
    "FeeOverflow"@
}

/// The message of the error that ends a loan whose fees would carry the earnings of
/// some asset beyond a `Balance`.
pub open spec fn accrual_overflow_message() -> Seq<char> {
    "AccrualOverflow"@
}

/// The map that a list of entries gives, read as a fee schedule or as earnings: of two
/// entries for one asset the later one holds.
pub open spec fn schedule_of(rates: Seq<(AccountId, u128)>) -> Map<AccountId, Balance>
    decreases rates.len(),
{
    if rates.len() == 0 {
        Map::empty()
    } else {
        schedule_of(rates.drop_last()).insert(rates.last().0, rates.last().1)
    }
}

/// The state of a lending contract as plain mathematics.
pub ghost struct FlashLoanContractView {
    /// Who may withdraw.
    pub owner: AccountId,
    /// The fee rate of each asset, in parts per million.
    pub fees_e6: Map<AccountId, Balance>,
    /// Who may start a loan.
    pub allowed: Set<AccountId>,
    /// Which borrowers pay no fee.
    pub free: Set<AccountId>,
    /// What each asset has earned in fees so far.
    pub earned: Map<AccountId, Balance>,
}

/// The fee owed on each asset of a loan: nothing for an exempt borrower; else the
/// asset's rate applied to the amount. `None` where one of the fees exceeds a `Balance`.
pub open spec fn owed_fees(
    contract: FlashLoanContractView,
    receiver: AccountId,
    assets: Seq<AccountId>,
    amounts: Seq<Balance>,
) -> Option<Seq<Balance>> {
    if contract.free.contains(receiver) {
        Some(Seq::new(assets.len(), |i: int| 0u128))
    } else if forall|i: int|
        0 <= i < assets.len() ==> fee_fits(
            #[trigger] amounts[i] as nat,
            amount_at(contract.fees_e6, assets[i]) as nat,
        ) {
        Some(
            Seq::new(
                assets.len(),
                |i: int|
                    fee_of(amounts[i] as nat, amount_at(contract.fees_e6, assets[i]) as nat) as Balance,
            ),
        )
    } else {
        None
    }
}

/// With every rate at most the whole amount, the fees of a request of as many amounts
/// as assets can always be given.
pub proof fn lemma_fees_owed_within_amounts(
    contract: FlashLoanContractView,
    receiver: AccountId,
    assets: Seq<AccountId>,
    amounts: Seq<Balance>,
)
    requires
        assets.len() == amounts.len(),
        forall|i: int|
            0 <= i < assets.len() ==> amount_at(contract.fees_e6, #[trigger] assets[i])
                <= 1_000_000,
    ensures
        owed_fees(contract, receiver, assets, amounts) is Some,
{
    if !contract.free.contains(receiver) {
        assert forall|i: int| 0 <= i < assets.len() implies fee_fits(
            #[trigger] amounts[i] as nat,
            amount_at(contract.fees_e6, assets[i]) as nat,
        ) by {
            let rate = amount_at(contract.fees_e6, assets[i]);
            lemma_fee_within_amount(amounts[i] as nat, rate as nat);
        }
    }
}

/// A lending contract: an owner, a fee schedule, the callers allowed to start a loan,
/// the borrowers exempt from fees, and the fees earned per asset.
pub struct FlashLoanContract {
    owner: AccountId,
    fees_e6: AccountMap,
    allowed: AccountSet,
    free: AccountSet,
    earned: AccountMap,
}

/// What the owner asked to withdraw, before the holder's balance is known.
pub struct Withdrawal {
    token: AccountId,
    holder: AccountId,
    to: AccountId,
    amount: Option<Balance>,
}

/// A transfer out of custody that the host is to make for the owner.
#[derive(Clone, Copy, Debug, PartialEq, Eq)]
pub struct TransferOrder {
    /// The asset to move.
    pub token: AccountId,
    /// Who receives it.
    pub to: AccountId,
    /// How much of it.
    pub amount: Balance,
}

impl View for FlashLoanContract {
    type V = FlashLoanContractView;

    closed spec fn view(&self) -> FlashLoanContractView {
        FlashLoanContractView {
            owner: self.owner,
            fees_e6: self.fees_e6@,
            allowed: self.allowed@,
            free: self.free@,
            earned: self.earned@,
        }
    }
}

impl FlashLoanContract {
    /// A contract owned by `owner`, with the given rates, allowed callers and exempt
    /// borrowers, that has earned nothing yet.
    pub fn new(
        owner: AccountId,
        fees_e6: Vec<(AccountId, u128)>,
        allowed: Vec<AccountId>,
        free: Vec<AccountId>,
    ) -> (contract: FlashLoanContract)
        ensures
            contract@ == (FlashLoanContractView {
                owner,
                fees_e6: schedule_of(fees_e6@),
                allowed: allowed@.to_set(),
                free: free@.to_set(),
                earned: Map::empty(),
            }),
    {
        FlashLoanContract::restore(owner, fees_e6, allowed, free, Vec::new())
    }

    /// A contract in the state that the lists give: as `new`, with the earnings listed
    /// in `earned`. Of two earnings for one asset the later one holds.
    pub fn restore(
        owner: AccountId,
        fees_e6: Vec<(AccountId, u128)>,
        allowed: Vec<AccountId>,
        free: Vec<AccountId>,
        earned: Vec<(AccountId, Balance)>,
    ) -> (contract: FlashLoanContract)
        ensures
            contract@ == (FlashLoanContractView {
                owner,
                fees_e6: schedule_of(fees_e6@),
                allowed: allowed@.to_set(),
                free: free@.to_set(),
                earned: schedule_of(earned@),
            }),
    {
        FlashLoanContract {
            owner,
            fees_e6: map_from(&fees_e6),
            allowed: set_from(&allowed),
            free: set_from(&free),
            earned: map_from(&earned),
        }
    }

    /// A separate contract in the same state: what a host keeps to put the contract
    /// back where an operation that enclosed a settled loan is undone.
    pub fn snapshot(&self) -> (copy: FlashLoanContract)
        ensures
            copy@ == self@,
    {
        FlashLoanContract {
            owner: self.owner,
            fees_e6: self.fees_e6.duplicate(),
            allowed: self.allowed.duplicate(),
            free: self.free.duplicate(),
            earned: self.earned.duplicate(),
        }
    }

    /// The owner.
    pub fn owner(&self) -> (owner: AccountId)
        ensures
            owner == self@.owner,
    {
        self.owner
    }

    /// The fee rate of `asset` in parts per million, zero where none was set.
    pub fn fee_rate(&self, asset: &AccountId) -> (rate: u128)
        ensures
            rate == amount_at(self@.fees_e6, *asset),
    {
        self.fees_e6.get_or_default(asset)
    }

    /// Whether `caller` may start a loan.
    pub fn is_allowed(&self, caller: &AccountId) -> (allowed: bool)
        ensures
            allowed == self@.allowed.contains(*caller),
    {
        self.allowed.contains(caller)
    }

    /// Whether `receiver` borrows without a fee.
    pub fn is_free(&self, receiver: &AccountId) -> (free: bool)
        ensures
            free == self@.free.contains(*receiver),
    {
        self.free.contains(receiver)
    }

    /// What `asset` has earned in fees so far.
    pub fn earned(&self, asset: &AccountId) -> (earned: Balance)
        ensures
            earned == amount_at(self@.earned, *asset),
    {
        self.earned.get_or_default(asset)
    }

    /// Starts a withdrawal of `token` to `to` on behalf of `caller`: of `amount`, or of
    /// all that `caller` holds where no amount is given. Only the owner may withdraw.
    pub fn withdraw(
        &self,
        caller: AccountId,
        token: AccountId,
        to: AccountId,
        amount: Option<Balance>,
    ) -> (result: Result<Withdrawal, FlashLoanContractError>)
        ensures
            match result {
                Ok(withdrawal) => {
                    &&& caller == self@.owner
                    &&& withdrawal.token() == token
                    &&& withdrawal.holder() == caller
                    &&& withdrawal.to() == to
                    &&& withdrawal.amount() == amount
                },
                Err(error) => caller != self@.owner && error
                    == FlashLoanContractError::OwnableError(OwnableError::CallerIsNotOwner),
            },
    {
        if caller == self.owner {
            Ok(Withdrawal { token, holder: caller, to, amount })
        } else {
            Err(FlashLoanContractError::OwnableError(OwnableError::CallerIsNotOwner))
        }
    }
}

fn map_from(entries: &Vec<(AccountId, Balance)>) -> (map: AccountMap)
    ensures
        map@ == schedule_of(entries@),
{
    let mut map = AccountMap::new();
    let mut i: usize = 0;
    while i < entries.len()
        invariant
            i <= entries.len(),
            map@ == schedule_of(entries@.subrange(0, i as int)),
        decreases entries.len() - i,
    {
        let entry = entries[i];
        assert(entries@.subrange(0, i + 1).drop_last() == entries@.subrange(0, i as int));
        map.insert(entry.0, entry.1);
        i = i + 1;
    }
    assert(entries@.subrange(0, entries.len() as int) == entries@);
    map
}

fn set_from(accounts: &Vec<AccountId>) -> (set: AccountSet)
    ensures
        set@ == accounts@.to_set(),
{
    let mut set = AccountSet::new();
    let mut i: usize = 0;
    while i < accounts.len()
        invariant
            i <= accounts.len(),
            set@ == accounts@.subrange(0, i as int).to_set(),
        decreases accounts.len() - i,
    {
        let account = accounts[i];
        assert(accounts@.subrange(0, i + 1) == accounts@.subrange(0, i as int).push(account));
        assert(accounts@.subrange(0, i as int).push(account).to_set() =~= accounts@.subrange(
            0,
            i as int,
        ).to_set().insert(account)) by {
            let before = accounts@.subrange(0, i as int);
            let after = before.push(account);
            assert forall|a: AccountId| after.contains(a) == (a == account || before.contains(
                a,
            )) by {
                if a == account {
                    assert(after[before.len() as int] == a);
                }
            }
        }
        set.insert(account);
        i = i + 1;
    }
    assert(accounts@.subrange(0, accounts.len() as int) == accounts@);
    set
}

impl Withdrawal {
    /// The asset to withdraw.
    pub closed spec fn token(&self) -> AccountId {
        self.token
    }

    /// Whose balance stands in where no amount was given: the caller's.
    pub closed spec fn holder(&self) -> AccountId {
        self.holder
    }

    /// Who receives the asset.
    pub closed spec fn to(&self) -> AccountId {
        self.to
    }

    /// The amount asked for, if one was given.
    pub closed spec fn amount(&self) -> Option<Balance> {
        self.amount
    }

    /// The balance that the host is to read before the transfer: of which asset, and
    /// whose.
    pub fn balance_query(&self) -> (query: (AccountId, AccountId))
        ensures
            query == (self.token(), self.holder()),
    {
        (self.token, self.holder)
    }

    /// The transfer to make, given the balance that was read: of the amount asked for,
    /// or of that balance where none was.
    pub fn transfer(self, balance: Balance) -> (order: TransferOrder)
        ensures
            order == (TransferOrder {
                token: self.token(),
                to: self.to(),
                amount: match self.amount() {
                    Some(amount) => amount,
                    None => balance,
                },
            }),
    {
        let amount = match self.amount {
            Some(amount) => amount,
            None => balance,
        };
        TransferOrder { token: self.token, to: self.to, amount }
    }

    /// What the owner is told, given how the transfer went.
    pub fn conclude(outcome: Result<(), PSP22Error>) -> (result: Result<
        (),
        FlashLoanContractError,
    >)
        ensures
            result == match outcome {
                Ok(()) => Ok::<(), FlashLoanContractError>(()),
                Err(error) => Err(FlashLoanContractError::PSP22Error(error)),
            },
    {
        match outcome {
            Ok(()) => Ok(()),
            Err(error) => Err(FlashLoanContractError::from(error)),
        }
    }
}

impl FlashLoanInternal for FlashLoanContract {
    open spec fn permits(
        &self,
        caller: AccountId,
        receiver: AccountId,
        assets: Seq<AccountId>,
        amounts: Seq<Balance>,
        data: Seq<u8>,
    ) -> bool {
        self@.allowed.contains(caller)
    }

    open spec fn refusal(
        &self,
        caller: AccountId,
        receiver: AccountId,
        assets: Seq<AccountId>,
        amounts: Seq<Balance>,
        data: Seq<u8>,
        error: FlashLoanError,
    ) -> bool {
        error == FlashLoanError::PermissionDenied
    }

    open spec fn fees_owed(
        &self,
        receiver: AccountId,
        assets: Seq<AccountId>,
        amounts: Seq<Balance>,
        data: Seq<u8>,
    ) -> Option<Seq<Balance>> {
        owed_fees(self@, receiver, assets, amounts)
    }

    open spec fn fees_failure(
        &self,
        receiver: AccountId,
        assets: Seq<AccountId>,
        amounts: Seq<Balance>,
        data: Seq<u8>,
        error: FlashLoanError,
    ) -> bool {
        error.is_custom(fee_overflow_message())
    }

    open spec fn can_settle(
        &self,
        receiver: AccountId,
        assets: Seq<AccountId>,
        amounts: Seq<Balance>,
        fees: Seq<Balance>,
        data: Seq<u8>,
    ) -> bool {
        accrual_fits(self@.earned, assets, fees)
    }

    open spec fn settled(
        &self,
        receiver: AccountId,
        assets: Seq<AccountId>,
        amounts: Seq<Balance>,
        fees: Seq<Balance>,
        data: Seq<u8>,
        after: &Self,
    ) -> bool {
        after@ == (FlashLoanContractView { earned: accrued(self@.earned, assets, fees), ..self@ })
    }

    open spec fn settle_failure(
        &self,
        receiver: AccountId,
        assets: Seq<AccountId>,
        amounts: Seq<Balance>,
        fees: Seq<Balance>,
        data: Seq<u8>,
        error: FlashLoanError,
    ) -> bool {
        error.is_custom(accrual_overflow_message())
    }

    /// Only a caller on the allow list may start a loan.
    fn _before_flash_loan(
        &self,
        caller: &AccountId,
        receiver: &AccountId,
        assets: &Vec<AccountId>,
        amounts: &Vec<Balance>,
        data: &Vec<u8>,
    ) -> (result: Result<(), FlashLoanError>) {
        if self.allowed.contains(caller) {
            Ok(())
        } else {
            Err(FlashLoanError::PermissionDenied)
        }
    }

    /// An exempt borrower owes nothing; any other owes each asset's rate on its amount.
    fn _calculate_fees(
        &self,
        receiver: &AccountId,
        assets: &Vec<AccountId>,
        amounts: &Vec<Balance>,
        data: &Vec<u8>,
    ) -> (result: Result<Vec<Balance>, FlashLoanError>) {
        let exempt = self.free.contains(receiver);
        let mut fees: Vec<Balance> = Vec::new();
        let mut i: usize = 0;
        while i < assets.len()
            invariant
                i <= assets.len(),
                assets.len() == amounts.len(),
                exempt == self@.free.contains(*receiver),
                fees@.len() == i,
                exempt ==> forall|k: int| 0 <= k < i ==> fees@[k] == 0,
                !exempt ==> forall|k: int|
                    0 <= k < i ==> fee_fits(
                        #[trigger] amounts@[k] as nat,
                        amount_at(self@.fees_e6, assets@[k]) as nat,
                    ) && fees@[k] == fee_of(
                        amounts@[k] as nat,
                        amount_at(self@.fees_e6, assets@[k]) as nat,
                    ),
            decreases assets.len() - i,
        {
            if exempt {
                fees.push(0);
            } else {
                let rate = self.fees_e6.get_or_default(&assets[i]);
                match compute_fee(amounts[i], rate) {
                    Some(fee) => {
                        fees.push(fee);
                    },
                    None => {
                        return Err(FlashLoanError::Custom("FeeOverflow".to_owned()));
                    },
                }
            }
            i = i + 1;
        }
        Ok(fees)
    }

    /// Adds the fee of each asset to what that asset has earned.
    fn _after_flash_loan(
        &mut self,
        receiver: &AccountId,
        assets: &Vec<AccountId>,
        amounts: &Vec<Balance>,
        fees: &Vec<Balance>,
        data: &Vec<u8>,
    ) -> (result: Result<(), FlashLoanError>) {
        let ghost before = self.earned@;
        let mut earned = self.earned.duplicate();
        let mut i: usize = 0;
        while i < assets.len()
            invariant
                i <= assets.len(),
                assets.len() == fees.len(),
                before == self.earned@,
                *self == *old(self),
                earned@ == accrued_upto(before, assets@, fees@, i as nat),
                forall|asset: AccountId|
                    amount_at(before, asset) + #[trigger] total_upto(
                        assets@,
                        fees@,
                        asset,
                        i as nat,
                    ) <= u128::MAX,
            decreases assets.len() - i,
        {
            let asset = assets[i];
            let so_far = earned.get_or_default(&asset);
            proof {
                if !earned@.dom().contains(asset) {
                    lemma_total_absent(assets@, fees@, asset, i as nat);
                }
            }
            match so_far.checked_add(fees[i]) {
                Some(total) => {
                    earned.insert(asset, total);
                    proof {
                        assert forall|a: AccountId|
                            amount_at(before, a) + #[trigger] total_upto(
                                assets@,
                                fees@,
                                a,
                                (i + 1) as nat,
                            ) <= u128::MAX by {
                            assert(amount_at(before, a) + total_upto(
                                assets@,
                                fees@,
                                a,
                                i as nat,
                            ) <= u128::MAX);
                        }
                    }
                },
                None => {
                    proof {
                        lemma_total_grows(
                            assets@,
                            fees@,
                            asset,
                            (i + 1) as nat,
                            assets@.len(),
                        );
                        assert(amount_at(before, asset) + total_for(assets@, fees@, asset)
                            > u128::MAX);
                    }
                    return Err(FlashLoanError::Custom("AccrualOverflow".to_owned()));
                },
            }
            i = i + 1;
        }
        self.earned = earned;
        Ok(())
    }
}

impl FlashLoan for FlashLoanContract {
    /// Starts a flash loan. A request with other than one amount per asset is refused
    /// as such before anything else is looked at; then a caller who is not on the allow
    /// list is turned away. The fees are those of the schedule, or nothing for an
    /// exempt borrower.
    fn flash_loan(
        &self,
        caller: AccountId,
        receiver: AccountId,
        assets: Vec<AccountId>,
        amounts: Vec<Balance>,
        data: Vec<u8>,
    ) -> (result: Result<FlashLoanRun, FlashLoanError>)
        ensures
            match result {
                Ok(run) => {
                    &&& assets.len() == amounts.len()
                    &&& self@.allowed.contains(caller)
                    &&& owed_fees(self@, receiver, assets@, amounts@) == Some(run.fees())
                    &&& repayments_fit(amounts@, run.fees())
                },
                Err(error) => if assets.len() != amounts.len() {
                    error == FlashLoanError::Parameters
                } else if !self@.allowed.contains(caller) {
                    error == FlashLoanError::PermissionDenied
                } else {
                    match owed_fees(self@, receiver, assets@, amounts@) {
                        None => error.is_custom(fee_overflow_message()),
                        Some(fees) => !repayments_fit(amounts@, fees) && error.is_custom(
                            repayment_overflow_message(),
                        ),
                    }
                },
            },
    {
        start_flash_loan(self, caller, receiver, assets, amounts, data)
    }
}

} // verus!

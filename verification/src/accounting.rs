//! What a loan does to the books and to the custody of each asset, added up.

use vstd::prelude::*;
use crate::flash_loan::{collections, disbursements, loan_script, repayments_fit, LoanCallView};
use crate::registry::amount_at;
use crate::types::{AccountId, Balance};

verus! {

/// The values at those of the first `count` places of a request that hold `asset`,
/// added up.
pub open spec fn total_upto(
    assets: Seq<AccountId>,
    values: Seq<Balance>,
    asset: AccountId,
    count: nat,
) -> nat
    decreases count,
{
    if count == 0 {
        0
    } else {
        let i = (count - 1) as int;
        total_upto(assets, values, asset, (count - 1) as nat) + if assets[i] == asset {
            values[i] as nat
        } else {
            0
        }
    }
}

/// The values at every place that `asset` has in a request, added up: with the fees of
/// a loan, all that the loan owes in fees on that asset.
pub open spec fn total_for(assets: Seq<AccountId>, values: Seq<Balance>, asset: AccountId) -> nat {
    total_upto(assets, values, asset, assets.len())
}

/// Whether the earnings of every asset, with the fees of this loan added, can be held
/// in a `Balance`.
pub open spec fn accrual_fits(
    earned: Map<AccountId, Balance>,
    assets: Seq<AccountId>,
    fees: Seq<Balance>,
) -> bool {
    forall|asset: AccountId|
        amount_at(earned, asset) + #[trigger] total_for(assets, fees, asset) <= u128::MAX
}

/// The earnings once the fees of the first `count` assets are booked.
pub open spec fn accrued_upto(
    earned: Map<AccountId, Balance>,
    assets: Seq<AccountId>,
    fees: Seq<Balance>,
    count: nat,
) -> Map<AccountId, Balance> {
    Map::new(
        |asset: AccountId|
            earned.dom().contains(asset) || exists|i: int|
                0 <= i < count && #[trigger] assets[i] == asset,
        |asset: AccountId|
            (amount_at(earned, asset) + total_upto(assets, fees, asset, count)) as Balance,
    )
}

/// The earnings once the fees of a loan are booked: every asset of the loan has an
/// entry, and each entry has grown by all that the loan owes on that asset.
pub open spec fn accrued(
    earned: Map<AccountId, Balance>,
    assets: Seq<AccountId>,
    fees: Seq<Balance>,
) -> Map<AccountId, Balance> {
    accrued_upto(earned, assets, fees, assets.len())
}

/// What one outside call moves into the lender's custody of `asset`: a transfer to the
/// borrower takes its amount out, a transfer back brings its amount in. The borrower is
/// taken to be another account than the lender.
pub open spec fn custody_effect(call: LoanCallView, asset: AccountId) -> int {
    match call {
        LoanCallView::Transfer { asset: moved, to, amount } => if moved == asset {
            -(amount as int)
        } else {
            0
        },
        LoanCallView::ExecuteOperation { .. } => 0,
        LoanCallView::TransferFrom { asset: moved, from, amount } => if moved == asset {
            amount as int
        } else {
            0
        },
    }
}

/// What a sequence of outside calls, each of which succeeded, moves into the lender's
/// custody of `asset` in all.
pub open spec fn custody_change(calls: Seq<LoanCallView>, asset: AccountId) -> int
    decreases calls.len(),
{
    if calls.len() == 0 {
        0
    } else {
        custody_change(calls.drop_last(), asset) + custody_effect(calls.last(), asset)
    }
}

/// Over more places the total never shrinks.
pub proof fn lemma_total_grows(
    assets: Seq<AccountId>,
    values: Seq<Balance>,
    asset: AccountId,
    fewer: nat,
    more: nat,
)
    requires
        fewer <= more,
    ensures
        total_upto(assets, values, asset, fewer) <= total_upto(assets, values, asset, more),
    decreases more,
{
    if fewer < more {
        lemma_total_grows(assets, values, asset, fewer, (more - 1) as nat);
    }
}

/// An asset that holds none of the places has a total of zero.
pub proof fn lemma_total_absent(
    assets: Seq<AccountId>,
    values: Seq<Balance>,
    asset: AccountId,
    count: nat,
)
    requires
        forall|j: int| 0 <= j < count ==> #[trigger] assets[j] != asset,
    ensures
        total_upto(assets, values, asset, count) == 0,
    decreases count,
{
    if count > 0 {
        lemma_total_absent(assets, values, asset, (count - 1) as nat);
    }
}

proof fn lemma_total_single_upto(
    assets: Seq<AccountId>,
    values: Seq<Balance>,
    place: int,
    count: nat,
)
    requires
        0 <= place < assets.len(),
        count <= assets.len(),
        forall|j: int| 0 <= j < assets.len() && j != place ==> #[trigger] assets[j] != assets[place],
    ensures
        total_upto(assets, values, assets[place], count) == if place < count {
            values[place] as nat
        } else {
            0
        },
    decreases count,
{
    if count > 0 {
        lemma_total_single_upto(assets, values, place, (count - 1) as nat);
    }
}

/// An asset that holds one place of the request alone has the value at that place for
/// its total.
pub proof fn lemma_total_single(assets: Seq<AccountId>, values: Seq<Balance>, place: int)
    requires
        0 <= place < assets.len(),
        forall|j: int| 0 <= j < assets.len() && j != place ==> #[trigger] assets[j] != assets[place],
    ensures
        total_for(assets, values, assets[place]) == values[place],
{
    lemma_total_single_upto(assets, values, place, assets.len());
}

/// Booking the fees of a loan adds to the earnings of every asset exactly what the loan
/// owes in fees on that asset, and nothing to any other.
pub proof fn lemma_accrued_adds_fees(
    earned: Map<AccountId, Balance>,
    assets: Seq<AccountId>,
    fees: Seq<Balance>,
    asset: AccountId,
)
    requires
        accrual_fits(earned, assets, fees),
    ensures
        amount_at(accrued(earned, assets, fees), asset) == amount_at(earned, asset) + total_for(
            assets,
            fees,
            asset,
        ),
{
    if !accrued(earned, assets, fees).dom().contains(asset) {
        lemma_total_absent(assets, fees, asset, assets.len());
    }
}

/// Booking the fees of a loan never takes from what an asset has earned.
pub proof fn lemma_earnings_never_shrink(
    earned: Map<AccountId, Balance>,
    assets: Seq<AccountId>,
    fees: Seq<Balance>,
    asset: AccountId,
)
    requires
        accrual_fits(earned, assets, fees),
    ensures
        amount_at(accrued(earned, assets, fees), asset) >= amount_at(earned, asset),
{
    lemma_accrued_adds_fees(earned, assets, fees, asset);
}

/// Booking the fees of a loan whose assets are all different adds to the earnings of
/// each of them exactly its fee.
pub proof fn lemma_accrued_adds_each_fee(
    earned: Map<AccountId, Balance>,
    assets: Seq<AccountId>,
    fees: Seq<Balance>,
    place: int,
)
    requires
        0 <= place < assets.len(),
        forall|i: int, j: int|
            0 <= i < assets.len() && 0 <= j < assets.len() && i != j ==> assets[i] != assets[j],
        accrual_fits(earned, assets, fees),
    ensures
        amount_at(accrued(earned, assets, fees), assets[place]) == amount_at(
            earned,
            assets[place],
        ) + fees[place],
{
    lemma_accrued_adds_fees(earned, assets, fees, assets[place]);
    lemma_total_single(assets, fees, place);
}

proof fn lemma_custody_change_concat(
    first: Seq<LoanCallView>,
    second: Seq<LoanCallView>,
    asset: AccountId,
)
    ensures
        custody_change(first + second, asset) == custody_change(first, asset) + custody_change(
            second,
            asset,
        ),
    decreases second.len(),
{
    if second.len() > 0 {
        assert((first + second).drop_last() =~= first + second.drop_last());
        lemma_custody_change_concat(first, second.drop_last(), asset);
    }
}

proof fn lemma_custody_change_disbursed(
    receiver: AccountId,
    assets: Seq<AccountId>,
    amounts: Seq<Balance>,
    asset: AccountId,
    count: nat,
)
    requires
        count <= assets.len(),
    ensures
        custody_change(disbursements(receiver, assets, amounts).take(count as int), asset)
            == -total_upto(assets, amounts, asset, count),
    decreases count,
{
    let calls = disbursements(receiver, assets, amounts).take(count as int);
    if count > 0 {
        assert(calls.drop_last() =~= disbursements(receiver, assets, amounts).take(count - 1));
        lemma_custody_change_disbursed(receiver, assets, amounts, asset, (count - 1) as nat);
    }
}

proof fn lemma_custody_change_collected(
    receiver: AccountId,
    assets: Seq<AccountId>,
    amounts: Seq<Balance>,
    fees: Seq<Balance>,
    asset: AccountId,
    count: nat,
)
    requires
        count <= assets.len(),
        assets.len() == amounts.len(),
        repayments_fit(amounts, fees),
    ensures
        custody_change(collections(receiver, assets, amounts, fees).take(count as int), asset)
            == total_upto(assets, amounts, asset, count) + total_upto(assets, fees, asset, count),
    decreases count,
{
    let calls = collections(receiver, assets, amounts, fees).take(count as int);
    if count > 0 {
        assert(calls.drop_last() =~= collections(receiver, assets, amounts, fees).take(
            count - 1,
        ));
        lemma_custody_change_collected(
            receiver,
            assets,
            amounts,
            fees,
            asset,
            (count - 1) as nat,
        );
    }
}

/// A loan that goes through leaves in the lender's custody of every asset exactly what
/// it owes in fees on that asset: what was lent has come back, and the fee with it.
pub proof fn lemma_custody_keeps_fees(
    receiver: AccountId,
    assets: Seq<AccountId>,
    amounts: Seq<Balance>,
    fees: Seq<Balance>,
    data: Seq<u8>,
    asset: AccountId,
)
    requires
        assets.len() == amounts.len(),
        assets.len() == fees.len(),
        repayments_fit(amounts, fees),
    ensures
        custody_change(loan_script(receiver, assets, amounts, fees, data), asset) == total_for(
            assets,
            fees,
            asset,
        ),
{
    let lent = disbursements(receiver, assets, amounts);
    let operation = LoanCallView::ExecuteOperation { receiver, assets, amounts, fees, data };
    let repaid = collections(receiver, assets, amounts, fees);
    lemma_custody_change_disbursed(receiver, assets, amounts, asset, assets.len());
    assert(lent.take(assets.len() as int) =~= lent);
    lemma_custody_change_collected(receiver, assets, amounts, fees, asset, assets.len());
    assert(repaid.take(assets.len() as int) =~= repaid);
    assert(lent.push(operation).drop_last() =~= lent);
    lemma_custody_change_concat(lent.push(operation), repaid, asset);
}

} // verus!

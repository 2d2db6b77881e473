use flash_loan::contract::{FlashLoanContract, TransferOrder, Withdrawal};
use flash_loan::flash_loan::FlashLoanInternal;
use flash_loan::types::{
    AccountId, FlashLoanContractError, FlashLoanError, FlashLoanReceiverError, OwnableError,
    PSP22Error,
};

fn account(byte: u8) -> AccountId {
    AccountId([byte; 32])
}

const OWNER: u8 = 1;
const CALLER: u8 = 2;
const BORROWER: u8 = 3;
const EXEMPT: u8 = 4;
const ASSET_A: u8 = 10;
const ASSET_B: u8 = 11;

fn contract() -> FlashLoanContract {
    FlashLoanContract::new(
        account(OWNER),
        vec![(account(ASSET_A), 1000), (account(ASSET_B), 30_000)],
        vec![account(CALLER)],
        vec![account(EXEMPT)],
    )
}

#[test]
fn new_contract_has_its_owner_rates_and_lists_and_no_earnings() {
    let contract = contract();
    assert_eq!(contract.owner(), account(OWNER));
    assert_eq!(contract.fee_rate(&account(ASSET_A)), 1000);
    assert_eq!(contract.fee_rate(&account(ASSET_B)), 30_000);
    assert_eq!(contract.fee_rate(&account(99)), 0);
    assert!(contract.is_allowed(&account(CALLER)));
    assert!(!contract.is_allowed(&account(OWNER)));
    assert!(!contract.is_allowed(&account(EXEMPT)));
    assert!(contract.is_free(&account(EXEMPT)));
    assert!(!contract.is_free(&account(CALLER)));
    assert_eq!(contract.earned(&account(ASSET_A)), 0);
}

#[test]
fn of_two_rates_for_one_asset_the_later_holds() {
    let contract = FlashLoanContract::new(
        account(OWNER),
        vec![
            (account(ASSET_A), 1),
            (account(ASSET_B), 2),
            (account(ASSET_A), 3),
        ],
        vec![],
        vec![],
    );
    assert_eq!(contract.fee_rate(&account(ASSET_A)), 3);
    assert_eq!(contract.fee_rate(&account(ASSET_B)), 2);
}

#[test]
fn before_hook_lets_allowed_callers_through_only() {
    let contract = contract();
    let assets = vec![account(ASSET_A)];
    let amounts = vec![5];
    assert_eq!(
        contract._before_flash_loan(&account(CALLER), &account(BORROWER), &assets, &amounts, &vec![]),
        Ok(())
    );
    assert_eq!(
        contract._before_flash_loan(&account(BORROWER), &account(BORROWER), &assets, &amounts, &vec![]),
        Err(FlashLoanError::PermissionDenied)
    );
}

#[test]
fn contract_without_allow_list_denies_everyone() {
    let contract = FlashLoanContract::new(account(OWNER), vec![], vec![], vec![]);
    assert_eq!(
        contract._before_flash_loan(&account(OWNER), &account(BORROWER), &vec![], &vec![], &vec![]),
        Err(FlashLoanError::PermissionDenied)
    );
}

#[test]
fn fees_are_rate_times_amount_over_a_million() {
    let contract = contract();
    let assets = vec![account(ASSET_A), account(ASSET_B), account(99)];
    let amounts = vec![100_000, 1_000_000, 5_000_000];
    assert_eq!(
        contract._calculate_fees(&account(BORROWER), &assets, &amounts, &vec![]),
        Ok(vec![100, 30_000, 0])
    );
}

#[test]
fn fees_are_rounded_down() {
    let contract = contract();
    let assets = vec![account(ASSET_A), account(ASSET_A), account(ASSET_B)];
    let amounts = vec![999, 1_999, 33];
    assert_eq!(
        contract._calculate_fees(&account(BORROWER), &assets, &amounts, &vec![]),
        Ok(vec![0, 1, 0])
    );
}

#[test]
fn exempt_borrower_owes_nothing_at_any_rate() {
    let contract = contract();
    let assets = vec![account(ASSET_A), account(ASSET_B)];
    let amounts = vec![100_000, u128::MAX];
    assert_eq!(
        contract._calculate_fees(&account(EXEMPT), &assets, &amounts, &vec![]),
        Ok(vec![0, 0])
    );
}

#[test]
fn fees_of_no_assets_are_none() {
    let contract = contract();
    assert_eq!(
        contract._calculate_fees(&account(BORROWER), &vec![], &vec![], &vec![]),
        Ok(vec![])
    );
}

#[test]
fn fee_beyond_a_balance_is_an_error() {
    let contract = FlashLoanContract::new(
        account(OWNER),
        vec![(account(ASSET_A), 2_000_000)],
        vec![],
        vec![],
    );
    let assets = vec![account(ASSET_A)];
    assert_eq!(
        contract._calculate_fees(&account(BORROWER), &assets, &vec![u128::MAX], &vec![]),
        Err(FlashLoanError::Custom(String::from("FeeOverflow")))
    );
    assert_eq!(
        contract._calculate_fees(&account(BORROWER), &assets, &vec![u128::MAX / 2], &vec![]),
        Ok(vec![u128::MAX - 1])
    );
}

#[test]
fn after_hook_adds_each_fee_to_the_earnings_of_its_asset() {
    let mut contract = contract();
    let assets = vec![account(ASSET_A), account(ASSET_B)];
    let amounts = vec![100_000, 1_000_000];
    let fees = vec![100, 30_000];
    assert_eq!(
        contract._after_flash_loan(&account(BORROWER), &assets, &amounts, &fees, &vec![]),
        Ok(())
    );
    assert_eq!(contract.earned(&account(ASSET_A)), 100);
    assert_eq!(contract.earned(&account(ASSET_B)), 30_000);
    assert_eq!(contract.earned(&account(99)), 0);
    assert_eq!(
        contract._after_flash_loan(&account(BORROWER), &assets, &amounts, &fees, &vec![]),
        Ok(())
    );
    assert_eq!(contract.earned(&account(ASSET_A)), 200);
    assert_eq!(contract.earned(&account(ASSET_B)), 60_000);
}

#[test]
fn after_hook_adds_up_the_fees_of_an_asset_lent_twice() {
    let mut contract = contract();
    let assets = vec![account(ASSET_A), account(ASSET_B), account(ASSET_A)];
    let amounts = vec![1, 2, 3];
    let fees = vec![1, 5, 2];
    assert_eq!(
        contract._after_flash_loan(&account(BORROWER), &assets, &amounts, &fees, &vec![]),
        Ok(())
    );
    assert_eq!(contract.earned(&account(ASSET_A)), 3);
    assert_eq!(contract.earned(&account(ASSET_B)), 5);
}

#[test]
fn after_hook_that_would_overflow_books_nothing() {
    let mut contract = contract();
    let assets = vec![account(ASSET_B), account(ASSET_A)];
    let amounts = vec![0, 0];
    assert_eq!(
        contract._after_flash_loan(&account(BORROWER), &assets, &amounts, &vec![7, u128::MAX], &vec![]),
        Ok(())
    );
    assert_eq!(
        contract._after_flash_loan(&account(BORROWER), &assets, &amounts, &vec![5, 1], &vec![]),
        Err(FlashLoanError::Custom(String::from("AccrualOverflow")))
    );
    assert_eq!(contract.earned(&account(ASSET_B)), 7);
    assert_eq!(contract.earned(&account(ASSET_A)), u128::MAX);
}

#[test]
fn after_hook_leaves_rates_and_lists_alone() {
    let mut contract = contract();
    contract
        ._after_flash_loan(&account(BORROWER), &vec![account(ASSET_A)], &vec![1], &vec![1], &vec![])
        .unwrap();
    assert_eq!(contract.owner(), account(OWNER));
    assert_eq!(contract.fee_rate(&account(ASSET_A)), 1000);
    assert!(contract.is_allowed(&account(CALLER)));
    assert!(contract.is_free(&account(EXEMPT)));
}

#[test]
fn snapshot_is_a_separate_contract_in_the_same_state() {
    let mut contract = contract();
    let snapshot = contract.snapshot();
    contract
        ._after_flash_loan(&account(BORROWER), &vec![account(ASSET_A)], &vec![1], &vec![9], &vec![])
        .unwrap();
    assert_eq!(contract.earned(&account(ASSET_A)), 9);
    assert_eq!(snapshot.earned(&account(ASSET_A)), 0);
    assert_eq!(snapshot.owner(), account(OWNER));
    assert_eq!(snapshot.fee_rate(&account(ASSET_B)), 30_000);
    assert!(snapshot.is_allowed(&account(CALLER)));
    assert!(snapshot.is_free(&account(EXEMPT)));
}

fn withdrawal(amount: Option<u128>) -> Withdrawal {
    match contract().withdraw(account(OWNER), account(ASSET_A), account(BORROWER), amount) {
        Ok(withdrawal) => withdrawal,
        Err(_) => panic!("the owner may withdraw"),
    }
}

#[test]
fn only_the_owner_may_withdraw() {
    let result = contract().withdraw(account(CALLER), account(ASSET_A), account(CALLER), Some(1));
    assert!(matches!(
        result,
        Err(FlashLoanContractError::OwnableError(
            OwnableError::CallerIsNotOwner
        ))
    ));
}

#[test]
fn withdrawal_reads_the_balance_of_the_caller() {
    assert_eq!(
        withdrawal(None).balance_query(),
        (account(ASSET_A), account(OWNER))
    );
}

#[test]
fn withdrawal_of_an_amount_transfers_that_amount() {
    assert_eq!(
        withdrawal(Some(40)).transfer(1_000),
        TransferOrder {
            token: account(ASSET_A),
            to: account(BORROWER),
            amount: 40,
        }
    );
}

#[test]
fn withdrawal_without_an_amount_transfers_the_balance() {
    assert_eq!(
        withdrawal(None).transfer(1_000),
        TransferOrder {
            token: account(ASSET_A),
            to: account(BORROWER),
            amount: 1_000,
        }
    );
}

#[test]
fn withdrawal_reports_how_the_transfer_went() {
    assert_eq!(Withdrawal::conclude(Ok(())), Ok(()));
    assert_eq!(
        Withdrawal::conclude(Err(PSP22Error::InsufficientBalance)),
        Err(FlashLoanContractError::PSP22Error(
            PSP22Error::InsufficientBalance
        ))
    );
}

#[test]
fn errors_wrap_the_errors_they_come_from() {
    assert_eq!(
        FlashLoanError::from(PSP22Error::InsufficientAllowance),
        FlashLoanError::PSP22Error(PSP22Error::InsufficientAllowance)
    );
    assert_eq!(
        FlashLoanError::from(FlashLoanReceiverError::ExecuteOperationFailed),
        FlashLoanError::FlashLoanReceiverError(FlashLoanReceiverError::ExecuteOperationFailed)
    );
    assert_eq!(
        FlashLoanError::from(FlashLoanReceiverError::Custom(String::from("no"))),
        FlashLoanError::FlashLoanReceiverError(FlashLoanReceiverError::Custom(String::from("no")))
    );
    assert_eq!(
        FlashLoanContractError::from(PSP22Error::Custom(String::from("x"))),
        FlashLoanContractError::PSP22Error(PSP22Error::Custom(String::from("x")))
    );
    assert_eq!(
        FlashLoanContractError::from(OwnableError::NewOwnerIsZero),
        FlashLoanContractError::OwnableError(OwnableError::NewOwnerIsZero)
    );
}

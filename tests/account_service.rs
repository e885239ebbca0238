use ledger_core::account::{Account, AccountType};
use ledger_core::account_service::{AccountService, CreateError, FindByIdOrFailError, UpdateError};
use ledger_core::amount::{Amount, MAX_AMOUNT};
use ledger_core::currency::Currency;
use ledger_core::entity::EntityId;
use ledger_core::in_memory::InMemoryAccountRepository;
use ledger_core::repositories::AccountRepository;
use rand::distr::Alphanumeric;
use rand::Rng;

fn get_random_string(len: usize) -> String {
    rand::rng()
        .sample_iter(&Alphanumeric)
        .take(len)
        .map(char::from)
        .collect()
}

fn get_random_account() -> Account {
    Account::new(
        None,
        get_random_string(10),
        get_random_string(200),
        get_random_string(30),
        AccountType::Savings,
        Some(Currency::RWF),
    )
}

fn assert_accounts_equal(left: &Account, right: &Account, include_id: bool) {
    if include_id {
        assert_eq!(left.id(), right.id());
    }
    assert_eq!(left.name(), right.name());
    assert_eq!(left.description(), right.description());
    assert_eq!(left.platform(), right.platform());
    assert_eq!(left.balance(), right.balance());
    assert_eq!(left.account_type(), right.account_type());
    assert_eq!(left.currency(), right.currency());
}

fn units(n: i64) -> Amount {
    Amount::new(n * 100).unwrap()
}

#[test]
fn test_find_all_accounts_empty_list() {
    let account_repository = InMemoryAccountRepository::new();
    let account_service = AccountService;
    let accounts = account_service.find_all(&account_repository);
    assert_eq!(accounts.len(), 0);
}

#[test]
fn test_find_all_accounts_non_empty_list() {
    let mut account_repository = InMemoryAccountRepository::new();
    let given_accounts = (get_random_account(), get_random_account());
    account_repository.create(given_accounts.0.clone()).unwrap();
    account_repository.create(given_accounts.1.clone()).unwrap();

    let account_service = AccountService;
    let accounts = account_service.find_all(&account_repository);

    assert_eq!(accounts.len(), 2);
    assert_accounts_equal(&given_accounts.0, accounts.get(0).unwrap(), false);
    assert_accounts_equal(&given_accounts.1, accounts.get(1).unwrap(), false);
}

#[test]
fn test_account_service_test_find_by_id_returns_a_value() {
    let mut account_repository = InMemoryAccountRepository::new();
    let given_account = get_random_account();
    let account_id = account_repository.create(given_account.clone()).unwrap();

    let account_service = AccountService;
    let account = account_service.find_by_id(&account_repository, account_id.clone());
    assert_accounts_equal(&given_account, &account.unwrap(), false);

    let account = account_service.find_by_id_or_fail(&account_repository, &account_id);
    assert_accounts_equal(&given_account, &account.unwrap(), false);
}

#[test]
fn test_find_by_id_returns_none() {
    let account_repository = InMemoryAccountRepository::new();
    let given_account_id: EntityId = "1".into();
    let account_service = AccountService;
    let account = account_service.find_by_id(&account_repository, given_account_id);
    assert!(account.is_none());
}

#[test]
fn test_save_success() {
    let mut account_repository = InMemoryAccountRepository::new();
    let given_account = get_random_account();
    let account_service = AccountService;
    let account_id = account_service.create(&mut account_repository, given_account.clone());

    assert_accounts_equal(
        &given_account,
        &account_repository.find_by_id(account_id.unwrap()).unwrap(),
        false,
    );
}

#[test]
fn test_save_id_provided() {
    let mut account_repository = InMemoryAccountRepository::new();
    let mut given_account = get_random_account();
    given_account.set_id(Some("1".into()));
    let account_service = AccountService;
    let create_response = account_service.create(&mut account_repository, given_account.clone());

    assert!(create_response.is_err());
    assert_eq!(create_response.err().unwrap(), CreateError::EntityIdProvided);
    assert_eq!(account_repository.find_all().len(), 0);
}

#[test]
fn test_find_by_id_returns_an_error() {
    let account_repository = InMemoryAccountRepository::new();
    let given_account_id: EntityId = "1".into();
    let account_service = AccountService;
    let account = account_service.find_by_id_or_fail(&account_repository, &given_account_id);

    assert!(account.is_err());
    assert!(matches!(account.err().unwrap(), FindByIdOrFailError::NotFound(_)));
}

#[test]
fn test_withdraw_success() {
    let mut account_repository = InMemoryAccountRepository::new();
    let mut account = get_random_account();
    let given_balance: Amount = units(100);
    account.set_balance(given_balance.clone());
    let account_id = account_repository.create(account.clone()).unwrap();
    let amount_to_withdraw: Amount = units(50);

    let account_service = AccountService;
    let withdraw_response =
        account_service.withdraw(&mut account_repository, &account_id, &amount_to_withdraw);

    assert!(withdraw_response.is_ok());
    let expected = given_balance.checked_sub(&amount_to_withdraw).unwrap();
    assert_eq!(*withdraw_response.unwrap().balance(), expected);

    let account = account_repository.find_by_id(account_id).unwrap();
    assert_eq!(*account.balance(), expected);
    assert_eq!(account.balance().value(), 5000);
}

#[test]
fn test_withdraw_entity_id_not_found() {
    let mut account_repository = InMemoryAccountRepository::new();
    let account_service = AccountService;
    let given_amount_to_withdraw: Amount = units(50);
    let given_account_id: EntityId = "1".into();
    let withdraw_response = account_service.withdraw(
        &mut account_repository,
        &given_account_id,
        &given_amount_to_withdraw,
    );

    assert!(withdraw_response.is_err());
    assert_eq!(withdraw_response.err().unwrap(), UpdateError::EntityIdNotFound)
}

#[test]
fn test_withdraw_insufficient_funds() {
    let mut account_repository = InMemoryAccountRepository::new();
    let mut account = get_random_account();
    let given_balance: Amount = units(0);
    account.set_balance(given_balance.clone());
    let account_id = account_repository.create(account.clone()).unwrap();
    let amount_to_withdraw: Amount = units(50);

    let account_service = AccountService;
    let withdraw_response =
        account_service.withdraw(&mut account_repository, &account_id, &amount_to_withdraw);

    assert!(withdraw_response.is_err());
    assert_eq!(withdraw_response.err().unwrap(), UpdateError::InsufficientFunds);
    let stored = account_repository.find_by_id(account_id).unwrap();
    assert_eq!(stored.balance().value(), 0);
}

#[test]
fn test_deposit_success() {
    let mut account_repository = InMemoryAccountRepository::new();
    let mut account = get_random_account();
    let given_balance: Amount = units(100);
    account.set_balance(given_balance.clone());
    let account_id = account_repository.create(account.clone()).unwrap();
    let amount_to_deposit: Amount = units(50);

    let account_service = AccountService;
    let deposit_response =
        account_service.deposit(&mut account_repository, &account_id, &amount_to_deposit);

    assert!(deposit_response.is_ok());
    let actual_account = deposit_response.unwrap();
    let expected_new_balance = given_balance.checked_add(&amount_to_deposit).unwrap();
    assert_eq!(actual_account.balance(), &expected_new_balance);
    assert_eq!(expected_new_balance.value(), 15000);

    let account = account_repository.find_by_id(account_id).unwrap();
    assert_eq!(*account.balance(), expected_new_balance);
}

#[test]
fn test_deposit_entity_id_not_found() {
    let mut account_repository = InMemoryAccountRepository::new();
    let given_account_id: EntityId = "1".into();
    let amount_to_deposit: Amount = units(50);

    let account_service = AccountService::new();
    let deposit_response =
        account_service.deposit(&mut account_repository, &given_account_id, &amount_to_deposit);

    assert!(deposit_response.is_err());
    assert_eq!(deposit_response.err().unwrap(), UpdateError::EntityIdNotFound)
}

#[test]
fn deposit_past_the_largest_amount_is_refused() {
    let mut account_repository = InMemoryAccountRepository::new();
    let mut account = get_random_account();
    account.set_balance(Amount::new(MAX_AMOUNT - 50).unwrap());
    let account_id = account_repository.create(account).unwrap();

    let account_service = AccountService::new();
    let response =
        account_service.deposit(&mut account_repository, &account_id, &Amount::new(51).unwrap());
    assert_eq!(response.err().unwrap(), UpdateError::MaxBalanceExceeded);
    let stored = account_repository.find_by_id(account_id.clone()).unwrap();
    assert_eq!(stored.balance().value(), MAX_AMOUNT - 50);

    let response =
        account_service.deposit(&mut account_repository, &account_id, &Amount::new(50).unwrap());
    assert_eq!(response.unwrap().balance().value(), MAX_AMOUNT);
}

#[test]
fn deposit_then_withdraw_restores_the_account() {
    let mut account_repository = InMemoryAccountRepository::new();
    let mut account = get_random_account();
    account.set_balance(units(250));
    let account_id = account_repository.create(account).unwrap();
    let before = account_repository.find_by_id(account_id.clone()).unwrap();

    let account_service = AccountService::new();
    let amount = Amount::new(12_345).unwrap();
    let deposited = account_service
        .deposit(&mut account_repository, &account_id, &amount)
        .unwrap();
    assert_eq!(deposited.balance().value(), 25_000 + 12_345);
    account_service
        .withdraw(&mut account_repository, &account_id, &amount)
        .unwrap();

    let after = account_repository.find_by_id(account_id).unwrap();
    assert_eq!(after, before);
}

#[test]
fn overdraw_by_one_hundredth_is_refused() {
    let mut account_repository = InMemoryAccountRepository::new();
    let mut account = get_random_account();
    account.set_balance(units(30));
    let account_id = account_repository.create(account).unwrap();

    let account_service = AccountService::new();
    let response =
        account_service.withdraw(&mut account_repository, &account_id, &Amount::new(3001).unwrap());
    assert_eq!(response.err().unwrap(), UpdateError::InsufficientFunds);
    let response =
        account_service.withdraw(&mut account_repository, &account_id, &Amount::new(3000).unwrap());
    assert_eq!(response.unwrap().balance().value(), 0);
}

#[test]
fn create_with_identity_is_refused_whatever_the_fields() {
    let mut account_repository = InMemoryAccountRepository::new();
    let account_service = AccountService::new();
    let mut account = Account::new(
        Some("anything".into()),
        String::new(),
        String::new(),
        String::new(),
        AccountType::Credit,
        Some(Currency::USD),
    );
    account.set_balance(units(5));
    assert_eq!(
        account_service.create(&mut account_repository, account).err().unwrap(),
        CreateError::EntityIdProvided
    );
    assert_eq!(account_repository.find_all().len(), 0);
}

#[test]
fn find_by_id_or_fail_names_the_missing_identity() {
    let account_repository = InMemoryAccountRepository::new();
    let account_service = AccountService::new();
    let missing: EntityId = "42".into();
    let result = account_service.find_by_id_or_fail(&account_repository, &missing);
    assert_eq!(result.err().unwrap(), FindByIdOrFailError::NotFound("42".into()));
}

use vstd::prelude::*;
use crate::account::Account;
use crate::amount::{lemma_view_injective, Amount, MAX_AMOUNT};
use crate::entity::EntityId;
use crate::repositories::{listing, AccountRepository, FindByIdAndUpdateError};

verus! {

/// A lookup found no account under the identity it was given.
#[derive(Debug, Clone, PartialEq, Eq)]
pub enum FindByIdOrFailError {
    NotFound(EntityId),
}

/// Why an account could not be created.
#[derive(Debug, Clone, Copy, PartialEq, Eq, Structural)]
pub enum CreateError {
    /// The identity is the repository's to assign.
    EntityIdProvided,
    /// The repository could not store the account.
    FailedToCreateAccount,
}

/// Why a balance could not be changed.
#[derive(Debug, Clone, Copy, PartialEq, Eq, Structural)]
pub enum UpdateError {
    EntityIdNotFound,
    InsufficientFunds,
    /// The balance would pass the largest amount.
    MaxBalanceExceeded,
}

/// Why withdrawing `amount` from the account stored under `id` fails, if it does.
pub open spec fn withdraw_error(store: Map<Seq<char>, Account>, id: Seq<char>, amount: int) -> Option<
    UpdateError,
> {
    if !store.contains_key(id) {
        Some(UpdateError::EntityIdNotFound)
    } else if store[id].balance@ < amount {
        Some(UpdateError::InsufficientFunds)
    } else {
        None
    }
}

/// Why depositing `amount` into the account stored under `id` fails, if it does.
pub open spec fn deposit_error(store: Map<Seq<char>, Account>, id: Seq<char>, amount: int) -> Option<
    UpdateError,
> {
    if !store.contains_key(id) {
        Some(UpdateError::EntityIdNotFound)
    } else if store[id].balance@ + amount > MAX_AMOUNT {
        Some(UpdateError::MaxBalanceExceeded)
    } else {
        None
    }
}

/// The only writer of account balances.
pub struct AccountService;

impl AccountService {
    pub fn new() -> (r: Self) {
        AccountService
    }

    /// All stored accounts.
    pub fn find_all<R: AccountRepository>(&self, repository: &R) -> (r: Vec<Account>)
        ensures
            r@ == listing(repository.ids(), repository.stored()),
    {
        repository.find_all()
    }

    /// Stores a new account and returns the identity the repository gave it,
    /// which the stored account carries. An account that already carries an
    /// identity is refused.
    pub fn create<R: AccountRepository>(&self, repository: &mut R, account: Account) -> (r: Result<
        EntityId,
        CreateError,
    >)
        ensures
            account.id is Some ==> r == Err::<EntityId, CreateError>(CreateError::EntityIdProvided),
            account.id is None ==> r != Err::<EntityId, CreateError>(CreateError::EntityIdProvided),
            match r {
                Ok(id) => {
                    &&& !old(repository).stored().contains_key(id@)
                    &&& final(repository).stored() == old(repository).stored().insert(
                        id@,
                        Account { id: Some(id), ..account },
                    )
                    &&& final(repository).ids() == old(repository).ids().push(id@)
                },
                Err(_) => {
                    &&& final(repository).stored() == old(repository).stored()
                    &&& final(repository).ids() == old(repository).ids()
                },
            },
    {
        if account.id.is_some() {
            return Err(CreateError::EntityIdProvided);
        }
        match repository.create(account) {
            Ok(id) => Ok(id),
            Err(_) => Err(CreateError::FailedToCreateAccount),
        }
    }

    /// The account stored under `id`, if any.
    pub fn find_by_id<R: AccountRepository>(&self, repository: &R, id: EntityId) -> (r: Option<
        Account,
    >)
        ensures
            r == (if repository.stored().contains_key(id@) {
                Some(repository.stored()[id@])
            } else {
                None
            }),
    {
        repository.find_by_id(id)
    }

    /// The account stored under `id`, or `NotFound` with that identity.
    pub fn find_by_id_or_fail<R: AccountRepository>(&self, repository: &R, id: &EntityId) -> (r:
        Result<Account, FindByIdOrFailError>)
        ensures
            repository.stored().contains_key(id@) ==> r == Ok::<Account, FindByIdOrFailError>(
                repository.stored()[id@],
            ),
            !repository.stored().contains_key(id@) ==> r == Err::<Account, FindByIdOrFailError>(
                FindByIdOrFailError::NotFound(*id),
            ),
    {
        match repository.find_by_id(id.clone()) {
            Some(account) => Ok(account),
            None => Err(FindByIdOrFailError::NotFound(id.clone())),
        }
    }

    /// Loads the account to change, mapping a miss to `EntityIdNotFound`.
    fn find_account_to_update<R: AccountRepository>(&self, repository: &R, account_id: &EntityId) -> (r:
        Result<Account, UpdateError>)
        ensures
            repository.stored().contains_key(account_id@) ==> r == Ok::<Account, UpdateError>(
                repository.stored()[account_id@],
            ),
            !repository.stored().contains_key(account_id@) ==> r == Err::<Account, UpdateError>(
                UpdateError::EntityIdNotFound,
            ),
    {
        match self.find_by_id_or_fail(repository, account_id) {
            Ok(account) => Ok(account),
            Err(FindByIdOrFailError::NotFound(_)) => Err(UpdateError::EntityIdNotFound),
        }
    }

    /// Writes the changed account back, mapping a vanished account to `EntityIdNotFound`.
    fn update_account<R: AccountRepository>(
        &self,
        repository: &mut R,
        account_id: &EntityId,
        account: Account,
    ) -> (r: Result<EntityId, UpdateError>)
        ensures
            match r {
                Ok(updated) => {
                    &&& old(repository).stored().contains_key(account_id@)
                    &&& updated@ == account_id@
                    &&& final(repository).stored() == old(repository).stored().insert(
                        account_id@,
                        account,
                    )
                    &&& final(repository).ids() == old(repository).ids()
                },
                Err(e) => {
                    &&& e == UpdateError::EntityIdNotFound
                    &&& !old(repository).stored().contains_key(account_id@)
                    &&& final(repository).stored() == old(repository).stored()
                    &&& final(repository).ids() == old(repository).ids()
                },
            },
    {
        match repository.find_by_id_and_update(account_id.clone(), account) {
            Ok(entity_id) => Ok(entity_id),
            Err(FindByIdAndUpdateError::NotFound) => Err(UpdateError::EntityIdNotFound),
        }
    }

    /// Takes `withdrawn_amount` from the account stored under `account_id`,
    /// stores the result and returns it. Fails, changing nothing, where the
    /// account is missing or its balance is smaller than the amount.
    pub fn withdraw<R: AccountRepository>(
        &self,
        repository: &mut R,
        account_id: &EntityId,
        withdrawn_amount: &Amount,
    ) -> (r: Result<Account, UpdateError>)
        ensures
            old(repository).stored().contains_key(account_id@) && withdrawn_amount@ > old(
                repository,
            ).stored()[account_id@].balance@ ==> r == Err::<Account, UpdateError>(
                UpdateError::InsufficientFunds,
            ),
            match r {
                Ok(account) => {
                    &&& withdraw_error(old(repository).stored(), account_id@, withdrawn_amount@) is None
                    &&& old(repository).stored()[account_id@].rebalanced(
                        account,
                        old(repository).stored()[account_id@].balance@ - withdrawn_amount@,
                    )
                    &&& final(repository).stored() == old(repository).stored().insert(
                        account_id@,
                        account,
                    )
                    &&& final(repository).ids() == old(repository).ids()
                },
                Err(e) => {
                    &&& withdraw_error(old(repository).stored(), account_id@, withdrawn_amount@)
                        == Some(e)
                    &&& final(repository).stored() == old(repository).stored()
                    &&& final(repository).ids() == old(repository).ids()
                },
            },
    {
        let mut account = self.find_account_to_update(repository, account_id)?;
        match account.withdraw(withdrawn_amount) {
            Ok(()) => {},
            Err(_) => {
                return Err(UpdateError::InsufficientFunds);
            },
        }
        let updated = account.clone();
        self.update_account(repository, account_id, account)?;
        Ok(updated)
    }

    /// Adds `deposited_amount` to the account stored under `account_id`,
    /// stores the result and returns it. Fails, changing nothing, where the
    /// account is missing or the balance would pass the largest amount.
    pub fn deposit<R: AccountRepository>(
        &self,
        repository: &mut R,
        account_id: &EntityId,
        deposited_amount: &Amount,
    ) -> (r: Result<Account, UpdateError>)
        ensures
            match r {
                Ok(account) => {
                    &&& deposit_error(old(repository).stored(), account_id@, deposited_amount@) is None
                    &&& old(repository).stored()[account_id@].rebalanced(
                        account,
                        old(repository).stored()[account_id@].balance@ + deposited_amount@,
                    )
                    &&& final(repository).stored() == old(repository).stored().insert(
                        account_id@,
                        account,
                    )
                    &&& final(repository).ids() == old(repository).ids()
                },
                Err(e) => {
                    &&& deposit_error(old(repository).stored(), account_id@, deposited_amount@)
                        == Some(e)
                    &&& final(repository).stored() == old(repository).stored()
                    &&& final(repository).ids() == old(repository).ids()
                },
            },
    {
        let mut account = self.find_account_to_update(repository, account_id)?;
        match account.deposit(deposited_amount) {
            Ok(()) => {},
            Err(_) => {
                return Err(UpdateError::MaxBalanceExceeded);
            },
        }
        let updated = account.clone();
        self.update_account(repository, account_id, account)?;
        Ok(updated)
    }
}

/// Depositing an amount into a stored account and then withdrawing the same
/// amount succeeds and leaves the stored accounts exactly as they were.
pub proof fn lemma_deposit_then_withdraw_restores(
    store: Map<Seq<char>, Account>,
    id: Seq<char>,
    amount: Amount,
    deposited: Account,
    withdrawn: Account,
)
    requires
        store[id].balance.in_bounds(),
        deposit_error(store, id, amount@) is None,
        store[id].rebalanced(deposited, store[id].balance@ + amount@),
        deposited.rebalanced(withdrawn, deposited.balance@ - amount@),
    ensures
        withdraw_error(store.insert(id, deposited), id, amount@) is None,
        store.insert(id, deposited).insert(id, withdrawn) == store,
{
    lemma_view_injective(withdrawn.balance, store[id].balance);
    assert(withdrawn == store[id]);
    assert(store.insert(id, deposited).insert(id, withdrawn) =~= store);
}

/// Withdrawing more than the balance of a stored account fails with
/// `InsufficientFunds`, whatever the amount.
pub proof fn lemma_overdraw_is_refused(store: Map<Seq<char>, Account>, id: Seq<char>, amount: int)
    requires
        store.contains_key(id),
        amount > store[id].balance@,
    ensures
        withdraw_error(store, id, amount) == Some(UpdateError::InsufficientFunds),
{
}

} // verus!

use vstd::prelude::*;
use crate::account::Account;
use crate::account_service::{deposit_error, withdraw_error, AccountService, UpdateError};
use crate::entity::{EntityId, EntityRef};
use crate::repositories::{listing, AccountRepository, TransactionRepository};
use crate::transaction::{AccountRef, Transaction, TransactionType};

verus! {

/// A lookup found no transaction under the identity it was given.
#[derive(Debug, Clone, PartialEq, Eq)]
pub enum GetOneError {
    NotFound(EntityId),
}

/// Why a transaction could not be created.
#[derive(Debug, Clone, PartialEq, Eq)]
pub enum CreateError {
    /// The identity is the repository's to assign.
    EntityIdProvided,
    /// The opening balance is derived from the account, never supplied.
    OpeningBalanceProvided,
    /// The closing balance is derived from the account, never supplied.
    ClosingBalanceProvided,
    /// The account could not be resolved or its balance could not be changed.
    /// `account_id` is the identity that was tried, if the reference held one;
    /// `reason` is the account-level failure, if there was one.
    InvalidAccountRef { account_id: Option<EntityId>, reason: Option<UpdateError> },
}

/// The identity of the account that a reference names, if it names one.
pub open spec fn referenced_account_id(account: AccountRef) -> Option<EntityId> {
    match account {
        EntityRef::Id(id) => Some(id),
        EntityRef::Value(a) => a.id,
    }
}

/// Why posting `amount` of the given type against the account stored under
/// `id` fails, if it does.
pub open spec fn posting_error(
    store: Map<Seq<char>, Account>,
    id: Seq<char>,
    transaction_type: TransactionType,
    amount: int,
) -> Option<UpdateError> {
    match transaction_type {
        TransactionType::Expense => withdraw_error(store, id, amount),
        TransactionType::Income => deposit_error(store, id, amount),
    }
}

/// The balance after posting `amount` of the given type against `balance`.
pub open spec fn posted_balance(transaction_type: TransactionType, balance: int, amount: int) -> int {
    match transaction_type {
        TransactionType::Expense => balance - amount,
        TransactionType::Income => balance + amount,
    }
}

/// Why creating `transaction` against the accounts in `store` fails, if it does.
pub open spec fn create_error(store: Map<Seq<char>, Account>, transaction: Transaction) -> Option<
    CreateError,
> {
    if transaction.id is Some {
        Some(CreateError::EntityIdProvided)
    } else if transaction.opening_balance is Some {
        Some(CreateError::OpeningBalanceProvided)
    } else if transaction.closing_balance is Some {
        Some(CreateError::ClosingBalanceProvided)
    } else {
        match referenced_account_id(transaction.account) {
            None => Some(CreateError::InvalidAccountRef { account_id: None, reason: None }),
            Some(id) => if !store.contains_key(id@) {
                Some(
                    CreateError::InvalidAccountRef {
                        account_id: Some(id),
                        reason: Some(UpdateError::EntityIdNotFound),
                    },
                )
            } else {
                match posting_error(
                    store,
                    id@,
                    transaction.transaction_type,
                    transaction.amount@,
                ) {
                    Some(e) => Some(
                        CreateError::InvalidAccountRef { account_id: Some(id), reason: Some(e) },
                    ),
                    None => None,
                }
            },
        }
    }
}

/// The transaction as it is stored: its identity, the account after the
/// posting embedded, and both balances derived from the account.
pub open spec fn recorded(
    transaction: Transaction,
    id: EntityId,
    before: Account,
    after: Account,
) -> Transaction {
    Transaction {
        id: Some(id),
        account: EntityRef::Value(after),
        opening_balance: Some(before.balance),
        closing_balance: Some(after.balance),
        ..transaction
    }
}

/// A transaction that arrives with an identity, an opening balance or a closing
/// balance is refused with the matching error, whatever the accounts hold; and
/// a refused creation leaves both stores unchanged (see `create`).
pub proof fn lemma_supplied_fields_are_refused(
    store: Map<Seq<char>, Account>,
    transaction: Transaction,
)
    ensures
        transaction.id is Some ==> create_error(store, transaction) == Some(
            CreateError::EntityIdProvided,
        ),
        transaction.id is None && transaction.opening_balance is Some ==> create_error(
            store,
            transaction,
        ) == Some(CreateError::OpeningBalanceProvided),
        transaction.id is None && transaction.opening_balance is None
            && transaction.closing_balance is Some ==> create_error(store, transaction) == Some(
            CreateError::ClosingBalanceProvided,
        ),
{
}

/// After an income of `a` is posted against an account of balance `b`, the
/// stored transaction opens at `b` and closes at `b + a`, and the stored account
/// holds `b + a`.
pub proof fn lemma_income_posting(
    transaction: Transaction,
    tid: EntityId,
    before: Account,
    after: Account,
)
    requires
        transaction.transaction_type == TransactionType::Income,
        before.rebalanced(
            after,
            posted_balance(transaction.transaction_type, before.balance@, transaction.amount@),
        ),
    ensures
        recorded(transaction, tid, before, after).opening_balance == Some(before.balance),
        recorded(transaction, tid, before, after).closing_balance->Some_0@ == before.balance@
            + transaction.amount@,
        after.balance@ == before.balance@ + transaction.amount@,
{
}

/// An expense of `a` against a stored account of balance `b` is posted only
/// where `a <= b`; the stored transaction then opens at `b` and closes at
/// `b - a`, and the stored account holds `b - a`. Where `a > b` the creation
/// fails with `InvalidAccountRef`, and by `create` nothing is stored.
pub proof fn lemma_expense_posting(
    store: Map<Seq<char>, Account>,
    transaction: Transaction,
    tid: EntityId,
    after: Account,
)
    requires
        transaction.transaction_type == TransactionType::Expense,
        transaction.id is None,
        transaction.opening_balance is None,
        transaction.closing_balance is None,
        referenced_account_id(transaction.account) is Some,
        store.contains_key(referenced_account_id(transaction.account)->Some_0@),
    ensures
        ({
            let id = referenced_account_id(transaction.account)->Some_0;
            let before = store[id@];
            &&& transaction.amount@ > before.balance@ ==> create_error(store, transaction) == Some(
                CreateError::InvalidAccountRef {
                    account_id: Some(id),
                    reason: Some(UpdateError::InsufficientFunds),
                },
            )
            &&& transaction.amount@ <= before.balance@ ==> create_error(store, transaction) is None
            &&& before.rebalanced(
                after,
                posted_balance(transaction.transaction_type, before.balance@, transaction.amount@),
            ) ==> {
                &&& recorded(transaction, tid, before, after).opening_balance == Some(
                    before.balance,
                )
                &&& recorded(transaction, tid, before, after).closing_balance->Some_0@
                    == before.balance@ - transaction.amount@
                &&& after.balance@ == before.balance@ - transaction.amount@
            }
        }),
{
}

/// Orchestrates the creation of transactions across the account and
/// transaction stores.
pub struct TransactionService {
    account_service: AccountService,
}

impl TransactionService {
    pub fn new(account_service: AccountService) -> (r: Self) {
        TransactionService { account_service }
    }

    /// All stored transactions.
    pub fn find_all<'a, T: TransactionRepository>(&self, repository: &'a T) -> (r: &'a Vec<
        Transaction,
    >)
        ensures
            r@ == listing(repository.ids(), repository.stored()),
    {
        repository.find_all()
    }

    /// Creates a transaction: checks that no derived field was supplied,
    /// resolves its account, posts the amount to the account's balance (a
    /// withdrawal for an expense, a deposit for an income), records the
    /// balances before and after, and stores the transaction with the updated
    /// account embedded. On failure neither store changes.
    pub fn create<T: TransactionRepository, A: AccountRepository>(
        &self,
        repository: &mut T,
        accounts: &mut A,
        transaction: Transaction,
    ) -> (r: Result<EntityId, CreateError>)
        ensures
            match r {
                Ok(tid) => {
                    let id = referenced_account_id(transaction.account)->Some_0;
                    let before = old(accounts).stored()[id@];
                    let after = final(accounts).stored()[id@];
                    &&& create_error(old(accounts).stored(), transaction) is None
                    &&& before.rebalanced(
                        after,
                        posted_balance(
                            transaction.transaction_type,
                            before.balance@,
                            transaction.amount@,
                        ),
                    )
                    &&& final(accounts).stored() == old(accounts).stored().insert(id@, after)
                    &&& final(accounts).ids() == old(accounts).ids()
                    &&& !old(repository).stored().contains_key(tid@)
                    &&& final(repository).stored() == old(repository).stored().insert(
                        tid@,
                        recorded(transaction, tid, before, after),
                    )
                    &&& final(repository).ids() == old(repository).ids().push(tid@)
                },
                Err(e) => {
                    &&& create_error(old(accounts).stored(), transaction) == Some(e)
                    &&& final(accounts).stored() == old(accounts).stored()
                    &&& final(accounts).ids() == old(accounts).ids()
                    &&& final(repository).stored() == old(repository).stored()
                    &&& final(repository).ids() == old(repository).ids()
                },
            },
    {
        if transaction.id.is_some() {
            return Err(CreateError::EntityIdProvided);
        }
        if transaction.opening_balance.is_some() {
            return Err(CreateError::OpeningBalanceProvided);
        }
        if transaction.closing_balance.is_some() {
            return Err(CreateError::ClosingBalanceProvided);
        }
        let account_id: EntityId = match &transaction.account {
            EntityRef::Value(account) => match &account.id {
                Some(id) => id.clone(),
                None => {
                    return Err(CreateError::InvalidAccountRef { account_id: None, reason: None });
                },
            },
            EntityRef::Id(id) => id.clone(),
        };
        let account = match self.account_service.find_by_id_or_fail(accounts, &account_id) {
            Ok(account) => account,
            Err(_) => {
                return Err(
                    CreateError::InvalidAccountRef {
                        account_id: Some(account_id),
                        reason: Some(UpdateError::EntityIdNotFound),
                    },
                );
            },
        };
        let opening_balance = account.balance;
        let update = match transaction.transaction_type {
            TransactionType::Expense => self.account_service.withdraw(
                accounts,
                &account_id,
                &transaction.amount,
            ),
            TransactionType::Income => self.account_service.deposit(
                accounts,
                &account_id,
                &transaction.amount,
            ),
        };
        let new_account = match update {
            Ok(account) => account,
            Err(e) => {
                return Err(
                    CreateError::InvalidAccountRef { account_id: Some(account_id), reason: Some(e) },
                );
            },
        };
        let mut savable = transaction;
        savable.opening_balance = Some(opening_balance);
        savable.closing_balance = Some(new_account.balance);
        savable.account = EntityRef::Value(new_account);
        Ok(repository.create(savable))
    }

    /// The transaction stored under `id`, if any.
    pub fn find_by_id<'a, T: TransactionRepository>(&self, repository: &'a T, id: EntityId) -> (r:
        Option<&'a Transaction>)
        ensures
            r is Some <==> repository.stored().contains_key(id@),
            r matches Some(t) ==> *t == repository.stored()[id@],
    {
        repository.find_by_id(id)
    }

    /// The transaction stored under `id`, or `NotFound` with that identity.
    pub fn find_by_id_or_fail<'a, T: TransactionRepository>(
        &self,
        repository: &'a T,
        id: EntityId,
    ) -> (r: Result<&'a Transaction, GetOneError>)
        ensures
            r is Ok <==> repository.stored().contains_key(id@),
            r matches Ok(t) ==> *t == repository.stored()[id@],
            r matches Err(e) ==> e == GetOneError::NotFound(id),
    {
        match repository.find_by_id(id.clone()) {
            Some(transaction) => Ok(transaction),
            None => Err(GetOneError::NotFound(id)),
        }
    }
}

} // verus!

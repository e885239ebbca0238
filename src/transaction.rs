use vstd::prelude::*;
use crate::account::Account;
use crate::amount::Amount;
use crate::currency::Currency;
use crate::entity::{EntityId, EntityRef};

verus! {

/// A transaction's link to its account.
pub type AccountRef = EntityRef<Account>;

#[derive(Debug, Clone, Copy, PartialEq, Eq, Structural)]
pub enum TransactionType {
    Expense,
    Income,
}

#[derive(Debug, Clone, Copy, PartialEq, Eq, Structural)]
pub enum TransactionStatus {
    Pending,
    Confirmed,
    Failed,
    RolledBack,
}

/// A posting of an amount against an account.
#[derive(Debug, Clone, PartialEq)]
pub struct Transaction {
    /// Assigned by the repository when the transaction is stored.
    pub id: Option<EntityId>,
    pub account: AccountRef,
    pub transaction_type: TransactionType,
    /// The magnitude posted against the account.
    pub amount: Amount,
    /// Recorded only; it is not taken from the balance.
    pub fee: Amount,
    /// The account's balance before the posting; derived, never supplied.
    pub opening_balance: Option<Amount>,
    /// The account's balance after the posting; derived, never supplied.
    pub closing_balance: Option<Amount>,
    pub currency: Currency,
    pub description: Option<String>,
    /// When it took place, in seconds since the Unix epoch (UTC).
    pub date: i64,
    pub reference_number: Option<String>,
    pub message: Option<String>,
    pub status: TransactionStatus,
}

impl Transaction {
    pub fn new(
        id: Option<EntityId>,
        account: AccountRef,
        transaction_type: TransactionType,
        amount: Amount,
        fee: Amount,
        opening_balance: Option<Amount>,
        closing_balance: Option<Amount>,
        currency: Currency,
        status: TransactionStatus,
        date: i64,
        description: Option<String>,
        reference_number: Option<String>,
        message: Option<String>,
    ) -> (r: Self)
        ensures
            r == (Transaction {
                id,
                account,
                transaction_type,
                amount,
                fee,
                opening_balance,
                closing_balance,
                currency,
                description,
                date,
                reference_number,
                message,
                status,
            }),
    {
        Transaction {
            id,
            account,
            transaction_type,
            amount,
            fee,
            opening_balance,
            closing_balance,
            currency,
            description,
            date,
            reference_number,
            message,
            status,
        }
    }

    pub fn id(&self) -> (r: &Option<EntityId>)
        ensures
            *r == self.id,
    {
        &self.id
    }

    pub fn account(&self) -> (r: &AccountRef)
        ensures
            *r == self.account,
    {
        &self.account
    }

    pub fn transaction_type(&self) -> (r: &TransactionType)
        ensures
            *r == self.transaction_type,
    {
        &self.transaction_type
    }

    pub fn amount(&self) -> (r: &Amount)
        ensures
            *r == self.amount,
    {
        &self.amount
    }

    pub fn fee(&self) -> (r: &Amount)
        ensures
            *r == self.fee,
    {
        &self.fee
    }

    pub fn opening_balance(&self) -> (r: &Option<Amount>)
        ensures
            *r == self.opening_balance,
    {
        &self.opening_balance
    }

    pub fn closing_balance(&self) -> (r: &Option<Amount>)
        ensures
            *r == self.closing_balance,
    {
        &self.closing_balance
    }

    pub fn currency(&self) -> (r: &Currency)
        ensures
            *r == self.currency,
    {
        &self.currency
    }

    pub fn description(&self) -> (r: &Option<String>)
        ensures
            *r == self.description,
    {
        &self.description
    }

    pub fn date(&self) -> (r: i64)
        ensures
            r == self.date,
    {
        self.date
    }

    pub fn reference_number(&self) -> (r: &Option<String>)
        ensures
            *r == self.reference_number,
    {
        &self.reference_number
    }

    pub fn message(&self) -> (r: &Option<String>)
        ensures
            *r == self.message,
    {
        &self.message
    }

    pub fn status(&self) -> (r: &TransactionStatus)
        ensures
            *r == self.status,
    {
        &self.status
    }

    pub fn set_id(&mut self, id: Option<EntityId>)
        ensures
            *final(self) == (Transaction { id, ..*old(self) }),
    {
        self.id = id;
    }

    pub fn set_account(&mut self, account: AccountRef)
        ensures
            *final(self) == (Transaction { account, ..*old(self) }),
    {
        self.account = account;
    }

    pub fn set_transaction_type(&mut self, transaction_type: TransactionType)
        ensures
            *final(self) == (Transaction { transaction_type, ..*old(self) }),
    {
        self.transaction_type = transaction_type;
    }

    pub fn set_amount(&mut self, amount: Amount)
        ensures
            *final(self) == (Transaction { amount, ..*old(self) }),
    {
        self.amount = amount;
    }

    pub fn set_fee(&mut self, fee: Amount)
        ensures
            *final(self) == (Transaction { fee, ..*old(self) }),
    {
        self.fee = fee;
    }

    pub fn set_opening_balance(&mut self, opening_balance: Option<Amount>)
        ensures
            *final(self) == (Transaction { opening_balance, ..*old(self) }),
    {
        self.opening_balance = opening_balance;
    }

    pub fn set_closing_balance(&mut self, closing_balance: Option<Amount>)
        ensures
            *final(self) == (Transaction { closing_balance, ..*old(self) }),
    {
        self.closing_balance = closing_balance;
    }

    pub fn set_currency(&mut self, currency: Currency)
        ensures
            *final(self) == (Transaction { currency, ..*old(self) }),
    {
        self.currency = currency;
    }

    pub fn set_description(&mut self, description: Option<String>)
        ensures
            *final(self) == (Transaction { description, ..*old(self) }),
    {
        self.description = description;
    }

    pub fn set_date(&mut self, date: i64)
        ensures
            *final(self) == (Transaction { date, ..*old(self) }),
    {
        self.date = date;
    }

    pub fn set_reference_number(&mut self, reference_number: Option<String>)
        ensures
            *final(self) == (Transaction { reference_number, ..*old(self) }),
    {
        self.reference_number = reference_number;
    }

    pub fn set_message(&mut self, message: Option<String>)
        ensures
            *final(self) == (Transaction { message, ..*old(self) }),
    {
        self.message = message;
    }

    pub fn set_status(&mut self, status: TransactionStatus)
        ensures
            *final(self) == (Transaction { status, ..*old(self) }),
    {
        self.status = status;
    }
}

} // verus!

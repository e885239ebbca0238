use vstd::prelude::*;
use crate::amount::{Amount, AmountError, amount_result, MAX_AMOUNT};
use crate::currency::{Currency, DEFAULT_CURRENCY};
use crate::entity::EntityId;

verus! {

/// Why a text could not be read as an account type.
#[derive(Debug, Clone, Copy, PartialEq, Eq, Structural)]
pub enum ConversionError {
    InvalidCurrency,
}

/// The kinds of account.
#[derive(Debug, Clone, Copy, PartialEq, Eq, Structural)]
pub enum AccountType {
    Checking,
    Savings,
    Credit,
}

/// The name that an account type is written as.
pub open spec fn account_type_name(t: AccountType) -> Seq<char> {
    match t {
        AccountType::Checking => "checking"@,
        AccountType::Savings => "savings"@,
        AccountType::Credit => "credit"@,
    }
}

/// The account type that a name stands for, if any.
pub open spec fn account_type_of_name(s: Seq<char>) -> Result<AccountType, ConversionError> {
    if s == "checking"@ {
        Ok(AccountType::Checking)
    } else if s == "savings"@ {
        Ok(AccountType::Savings)
    } else if s == "credit"@ {
        Ok(AccountType::Credit)
    } else {
        Err(ConversionError::InvalidCurrency)
    }
}

impl AccountType {
    pub fn to_string(&self) -> (r: String)
        ensures
            r@ == account_type_name(*self),
    {
        match self {
            AccountType::Savings => "savings".to_owned(),
            AccountType::Credit => "credit".to_owned(),
            AccountType::Checking => "checking".to_owned(),
        }
    }
}

/// Reads an account type from its name.
pub fn convert_string_to_account_type(value: &str) -> (r: Result<AccountType, ConversionError>)
    ensures
        r == account_type_of_name(value@),
{
    let name = value.to_owned();
    if name == "checking".to_owned() {
        Ok(AccountType::Checking)
    } else if name == "savings".to_owned() {
        Ok(AccountType::Savings)
    } else if name == "credit".to_owned() {
        Ok(AccountType::Credit)
    } else {
        Err(ConversionError::InvalidCurrency)
    }
}

impl<'a> TryFrom<&'a str> for AccountType {
    type Error = ConversionError;

    fn try_from(value: &'a str) -> (r: Result<Self, ConversionError>)
        ensures
            r == account_type_of_name(value@),
    {
        convert_string_to_account_type(value)
    }
}

impl TryFrom<String> for AccountType {
    type Error = ConversionError;

    fn try_from(value: String) -> (r: Result<Self, ConversionError>)
        ensures
            r == account_type_of_name(value@),
    {
        convert_string_to_account_type(value.as_str())
    }
}

impl<'a> vstd::std_specs::convert::TryFromSpecImpl<&'a str> for AccountType {
    open spec fn obeys_try_from_spec() -> bool {
        true
    }

    open spec fn try_from_spec(v: &'a str) -> Result<AccountType, ConversionError> {
        account_type_of_name(v@)
    }
}

impl vstd::std_specs::convert::TryFromSpecImpl<String> for AccountType {
    open spec fn obeys_try_from_spec() -> bool {
        true
    }

    open spec fn try_from_spec(v: String) -> Result<AccountType, ConversionError> {
        account_type_of_name(v@)
    }
}

/// A balance-bearing account.
#[derive(Debug, PartialEq)]
pub struct Account {
    /// Assigned by the repository when the account is first stored.
    pub id: Option<EntityId>,
    /// A label chosen by the owner.
    pub name: String,
    /// Free text.
    pub description: String,
    /// Where the account is held (a bank, a mobile wallet, cash).
    pub platform: String,
    /// Never negative, never above the largest amount.
    pub balance: Amount,
    pub account_type: AccountType,
    pub currency: Currency,
}

impl Clone for Account {
    fn clone(&self) -> (r: Self)
        ensures
            r == *self,
    {
        Account {
            id: match &self.id {
                Some(id) => Some(id.clone()),
                None => None,
            },
            name: self.name.clone(),
            description: self.description.clone(),
            platform: self.platform.clone(),
            balance: self.balance,
            account_type: self.account_type,
            currency: self.currency,
        }
    }
}

impl Account {
    /// `other` is this account with its balance replaced by one of `balance` hundredths.
    pub open spec fn rebalanced(&self, other: Account, balance: int) -> bool {
        &&& other.id == self.id
        &&& other.name == self.name
        &&& other.description == self.description
        &&& other.platform == self.platform
        &&& other.account_type == self.account_type
        &&& other.currency == self.currency
        &&& other.balance@ == balance
    }

    /// A new account: no identity yet and a balance of zero.
    pub fn new(
        id: Option<EntityId>,
        name: String,
        description: String,
        platform: String,
        account_type: AccountType,
        currency: Option<Currency>,
    ) -> (r: Self)
        ensures
            r.id == id,
            r.name == name,
            r.description == description,
            r.platform == platform,
            r.account_type == account_type,
            r.currency == (match currency {
                Some(c) => c,
                None => DEFAULT_CURRENCY,
            }),
            r.balance@ == 0,
    {
        Account {
            id,
            name,
            description,
            platform,
            account_type,
            currency: match currency {
                Some(c) => c,
                None => DEFAULT_CURRENCY,
            },
            balance: Amount::zero(),
        }
    }

    pub fn id(&self) -> (r: Option<&EntityId>)
        ensures
            r == (match self.id {
                Some(id) => Some(&id),
                None => None,
            }),
    {
        self.id.as_ref()
    }

    pub fn name(&self) -> (r: &String)
        ensures
            *r == self.name,
    {
        &self.name
    }

    pub fn description(&self) -> (r: &String)
        ensures
            *r == self.description,
    {
        &self.description
    }

    pub fn balance(&self) -> (r: &Amount)
        ensures
            *r == self.balance,
    {
        &self.balance
    }

    pub fn platform(&self) -> (r: &str)
        ensures
            r@ == self.platform@,
    {
        self.platform.as_str()
    }

    pub fn account_type(&self) -> (r: &AccountType)
        ensures
            *r == self.account_type,
    {
        &self.account_type
    }

    pub fn currency(&self) -> (r: &Currency)
        ensures
            *r == self.currency,
    {
        &self.currency
    }

    pub fn set_id(&mut self, id: Option<EntityId>)
        ensures
            *final(self) == (Account { id, ..*old(self) }),
    {
        self.id = id;
    }

    pub fn set_name(&mut self, name: String)
        ensures
            *final(self) == (Account { name, ..*old(self) }),
    {
        self.name = name;
    }

    pub fn set_description(&mut self, description: String)
        ensures
            *final(self) == (Account { description, ..*old(self) }),
    {
        self.description = description;
    }

    pub fn set_balance(&mut self, balance: Amount)
        ensures
            *final(self) == (Account { balance, ..*old(self) }),
    {
        self.balance = balance;
    }

    pub fn set_platform(&mut self, platform: String)
        ensures
            *final(self) == (Account { platform, ..*old(self) }),
    {
        self.platform = platform;
    }

    pub fn set_account_type(&mut self, account_type: AccountType)
        ensures
            *final(self) == (Account { account_type, ..*old(self) }),
    {
        self.account_type = account_type;
    }

    pub fn set_currency(&mut self, currency: Currency)
        ensures
            *final(self) == (Account { currency, ..*old(self) }),
    {
        self.currency = currency;
    }

    /// Adds `amount` to the balance; fails, leaving the account as it was,
    /// where the sum would pass the largest amount.
    pub fn deposit(&mut self, amount: &Amount) -> (r: Result<(), AmountError>)
        ensures
            r is Ok <==> old(self).balance@ + amount@ <= MAX_AMOUNT,
            r matches Ok(_) ==> old(self).rebalanced(*final(self), old(self).balance@ + amount@),
            r matches Err(e) ==> *final(self) == *old(self)
                && amount_result(old(self).balance@ + amount@) == Err::<int, AmountError>(e),
    {
        match self.balance.checked_add(amount) {
            Ok(b) => {
                self.balance = b;
                Ok(())
            },
            Err(e) => Err(e),
        }
    }

    /// Takes `amount` from the balance; fails, leaving the account as it was,
    /// where the balance is smaller than `amount`.
    pub fn withdraw(&mut self, amount: &Amount) -> (r: Result<(), AmountError>)
        ensures
            r is Ok <==> amount@ <= old(self).balance@,
            r matches Ok(_) ==> old(self).rebalanced(*final(self), old(self).balance@ - amount@),
            r matches Err(e) ==> *final(self) == *old(self)
                && amount_result(old(self).balance@ - amount@) == Err::<int, AmountError>(e),
    {
        match self.balance.checked_sub(amount) {
            Ok(b) => {
                self.balance = b;
                Ok(())
            },
            Err(e) => Err(e),
        }
    }
}

} // verus!

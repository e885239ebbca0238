use vstd::prelude::*;
use crate::account::Account;
use crate::entity::EntityId;
use crate::transaction::Transaction;

verus! {

/// An update named an account that is not stored.
#[derive(Debug, Clone, Copy, PartialEq, Eq, Structural)]
pub enum FindByIdAndUpdateError {
    NotFound,
}

/// The storage could not take a new account.
#[derive(Debug, Clone, Copy, PartialEq, Eq, Structural)]
pub enum CreateError {
    FailedToCreateAccount,
}

/// The records of a store, in the order their identities were issued.
pub open spec fn listing<T>(ids: Seq<Seq<char>>, stored: Map<Seq<char>, T>) -> Seq<T> {
    ids.map_values(|k: Seq<char>| stored[k])
}

/// Where accounts are kept. A store is modelled by the identities it issued, in
/// order, and the account held under each.
pub trait AccountRepository {
    spec fn ids(&self) -> Seq<Seq<char>>;

    spec fn stored(&self) -> Map<Seq<char>, Account>;

    /// All accounts.
    fn find_all(&self) -> (r: Vec<Account>)
        ensures
            r@ == listing(self.ids(), self.stored()),
    ;

    /// The account stored under `id`, if any.
    fn find_by_id(&self, id: EntityId) -> (r: Option<Account>)
        ensures
            r == (if self.stored().contains_key(id@) {
                Some(self.stored()[id@])
            } else {
                None
            }),
    ;

    /// Stores a new account under a fresh identity, which it also records in
    /// the stored account, and returns that identity.
    fn create(&mut self, account: Account) -> (r: Result<EntityId, CreateError>)
        ensures
            match r {
                Ok(id) => {
                    &&& !old(self).stored().contains_key(id@)
                    &&& final(self).stored() == old(self).stored().insert(
                        id@,
                        Account { id: Some(id), ..account },
                    )
                    &&& final(self).ids() == old(self).ids().push(id@)
                },
                Err(_) => {
                    &&& final(self).stored() == old(self).stored()
                    &&& final(self).ids() == old(self).ids()
                },
            },
    ;

    /// Replaces the account stored under `id`; fails where there is none.
    fn find_by_id_and_update(&mut self, id: EntityId, account: Account) -> (r: Result<
        EntityId,
        FindByIdAndUpdateError,
    >)
        ensures
            match r {
                Ok(updated) => {
                    &&& old(self).stored().contains_key(id@)
                    &&& updated@ == id@
                    &&& final(self).stored() == old(self).stored().insert(id@, account)
                    &&& final(self).ids() == old(self).ids()
                },
                Err(_) => {
                    &&& !old(self).stored().contains_key(id@)
                    &&& final(self).stored() == old(self).stored()
                    &&& final(self).ids() == old(self).ids()
                },
            },
    ;
}

/// Where transactions are kept, modelled as accounts are.
pub trait TransactionRepository {
    spec fn ids(&self) -> Seq<Seq<char>>;

    spec fn stored(&self) -> Map<Seq<char>, Transaction>;

    /// All transactions.
    fn find_all(&self) -> (r: &Vec<Transaction>)
        ensures
            r@ == listing(self.ids(), self.stored()),
    ;

    /// Stores a transaction under a fresh identity, which it also records in
    /// the stored transaction, and returns that identity.
    fn create(&mut self, transaction: Transaction) -> (r: EntityId)
        ensures
            !old(self).stored().contains_key(r@),
            final(self).stored() == old(self).stored().insert(
                r@,
                Transaction { id: Some(r), ..transaction },
            ),
            final(self).ids() == old(self).ids().push(r@),
    ;

    /// The transaction stored under `id`, if any.
    fn find_by_id(&self, id: EntityId) -> (r: Option<&Transaction>)
        ensures
            r is Some <==> self.stored().contains_key(id@),
            r matches Some(t) ==> *t == self.stored()[id@],
    ;
}

} // verus!

use vstd::prelude::*;
use crate::account::Account;
use crate::decimal::{decimal, lemma_decimal_injective, u64_to_decimal};
use crate::entity::EntityId;
use crate::repositories::{
    listing, AccountRepository, CreateError, FindByIdAndUpdateError, TransactionRepository,
};
use crate::transaction::Transaction;

verus! {

/// The identities of the first `n` positions: their decimal numerals.
pub open spec fn position_ids(n: nat) -> Seq<Seq<char>> {
    Seq::new(n, |i: int| decimal(i as nat))
}

/// The position whose numeral is `k`.
pub open spec fn position_of(k: Seq<char>) -> nat {
    choose|i: nat| #[trigger] decimal(i) == k
}

/// The records of `s`, each under the numeral of its position.
pub open spec fn keyed<T>(s: Seq<T>) -> Map<Seq<char>, T> {
    Map::new(
        |k: Seq<char>| exists|i: nat| i < s.len() && #[trigger] decimal(i) == k,
        |k: Seq<char>| s[position_of(k) as int],
    )
}

proof fn lemma_position_of(i: int)
    requires
        0 <= i,
    ensures
        position_of(decimal(i as nat)) == i,
{
    let k = decimal(i as nat);
    assert(decimal(i as nat) == k);
    let j = position_of(k);
    lemma_decimal_injective(j, i as nat);
}

proof fn lemma_keyed_at<T>(s: Seq<T>, i: int)
    requires
        0 <= i < s.len(),
    ensures
        keyed(s).contains_key(decimal(i as nat)),
        keyed(s)[decimal(i as nat)] == s[i],
{
    lemma_position_of(i);
}

proof fn lemma_keyed_push<T>(s: Seq<T>, x: T)
    ensures
        !keyed(s).contains_key(decimal(s.len())),
        keyed(s.push(x)) == keyed(s).insert(decimal(s.len()), x),
{
    if keyed(s).contains_key(decimal(s.len())) {
        let i = choose|i: nat| i < s.len() && #[trigger] decimal(i) == decimal(s.len());
        lemma_decimal_injective(i, s.len());
    }
    let t = s.push(x);
    let m = keyed(s).insert(decimal(s.len()), x);
    assert forall|k: Seq<char>| #[trigger] keyed(t).contains_key(k) <==> m.contains_key(k) by {
        if keyed(t).contains_key(k) {
            let i = choose|i: nat| i < t.len() && #[trigger] decimal(i) == k;
            if i < s.len() {
                assert(i < s.len() && decimal(i) == k);
            }
        }
        if keyed(s).contains_key(k) {
            let i = choose|i: nat| i < s.len() && #[trigger] decimal(i) == k;
            assert(i < t.len() && decimal(i) == k);
        }
        if k == decimal(s.len()) {
            assert(s.len() < t.len() && decimal(s.len()) == k);
        }
    }
    assert forall|k: Seq<char>| #[trigger] keyed(t).contains_key(k) implies keyed(t)[k] == m[k] by {
        let i = choose|i: nat| i < t.len() && #[trigger] decimal(i) == k;
        lemma_position_of(i as int);
    }
    assert(keyed(t) =~= m);
}

proof fn lemma_keyed_update<T>(s: Seq<T>, i: int, x: T)
    requires
        0 <= i < s.len(),
    ensures
        keyed(s.update(i, x)) == keyed(s).insert(decimal(i as nat), x),
{
    let t = s.update(i, x);
    let m = keyed(s).insert(decimal(i as nat), x);
    lemma_keyed_at(s, i);
    assert forall|k: Seq<char>| #[trigger] keyed(t).contains_key(k) <==> m.contains_key(k) by {
        if keyed(t).contains_key(k) {
            let j = choose|j: nat| j < t.len() && #[trigger] decimal(j) == k;
            assert(j < s.len() && decimal(j) == k);
        }
        if keyed(s).contains_key(k) {
            let j = choose|j: nat| j < s.len() && #[trigger] decimal(j) == k;
            assert(j < t.len() && decimal(j) == k);
        }
    }
    assert forall|k: Seq<char>| #[trigger] keyed(t).contains_key(k) implies keyed(t)[k] == m[k] by {
        let j = choose|j: nat| j < t.len() && #[trigger] decimal(j) == k;
        lemma_position_of(j as int);
        if j != i {
            lemma_keyed_at(s, j as int);
            if k == decimal(i as nat) {
                lemma_decimal_injective(j, i as nat);
            }
        }
    }
    assert(keyed(t) =~= m);
}

proof fn lemma_keyed_absent<T>(s: Seq<T>, k: Seq<char>)
    requires
        forall|i: nat| i < s.len() ==> #[trigger] decimal(i) != k,
    ensures
        !keyed(s).contains_key(k),
{
    if keyed(s).contains_key(k) {
        let i = choose|i: nat| i < s.len() && #[trigger] decimal(i) == k;
    }
}

proof fn lemma_keyed_listing<T>(s: Seq<T>)
    ensures
        listing(position_ids(s.len()), keyed(s)) == s,
{
    let l = listing(position_ids(s.len()), keyed(s));
    assert forall|i: int| 0 <= i < s.len() implies l[i] == s[i] by {
        lemma_keyed_at(s, i);
    }
    assert(l =~= s);
}

/// The position below `len` whose numeral is `id`, if any.
fn position(len: usize, id: &EntityId) -> (r: Option<usize>)
    ensures
        match r {
            Some(i) => i < len && decimal(i as nat) == id@,
            None => forall|j: nat| j < len ==> #[trigger] decimal(j) != id@,
        },
{
    let mut i: usize = 0;
    while i < len
        invariant
            i <= len,
            forall|j: nat| j < i ==> #[trigger] decimal(j) != id@,
        decreases len - i,
    {
        let key = u64_to_decimal(i as u64);
        if key == id.0 {
            return Some(i);
        }
        i = i + 1;
    }
    None
}

/// Accounts held in memory; an account's identity is the decimal numeral of
/// its position.
pub struct InMemoryAccountRepository {
    accounts: Vec<Account>,
}

impl InMemoryAccountRepository {
    pub fn new() -> (r: Self)
        ensures
            r.ids() == Seq::<Seq<char>>::empty(),
            r.stored() == Map::<Seq<char>, Account>::empty(),
    {
        let r = InMemoryAccountRepository { accounts: Vec::new() };
        assert(r.stored() =~= Map::<Seq<char>, Account>::empty());
        assert(r.ids() =~= Seq::<Seq<char>>::empty());
        r
    }
}

impl AccountRepository for InMemoryAccountRepository {
    closed spec fn ids(&self) -> Seq<Seq<char>> {
        position_ids(self.accounts@.len())
    }

    closed spec fn stored(&self) -> Map<Seq<char>, Account> {
        keyed(self.accounts@)
    }

    fn find_all(&self) -> (r: Vec<Account>) {
        let mut all: Vec<Account> = Vec::new();
        let mut i: usize = 0;
        while i < self.accounts.len()
            invariant
                i <= self.accounts@.len(),
                all@ == self.accounts@.subrange(0, i as int),
            decreases self.accounts@.len() - i,
        {
            all.push(self.accounts[i].clone());
            i = i + 1;
            assert(all@ =~= self.accounts@.subrange(0, i as int));
        }
        proof {
            assert(all@ =~= self.accounts@);
            lemma_keyed_listing(self.accounts@);
        }
        all
    }

    fn find_by_id(&self, id: EntityId) -> (r: Option<Account>) {
        match position(self.accounts.len(), &id) {
            Some(i) => {
                proof {
                    lemma_keyed_at(self.accounts@, i as int);
                }
                Some(self.accounts[i].clone())
            },
            None => {
                proof {
                    lemma_keyed_absent(self.accounts@, id@);
                }
                None
            },
        }
    }

    fn create(&mut self, account: Account) -> (r: Result<EntityId, CreateError>) {
        let id = EntityId(u64_to_decimal(self.accounts.len() as u64));
        let mut account = account;
        account.id = Some(id.clone());
        proof {
            lemma_keyed_push(self.accounts@, account);
        }
        self.accounts.push(account);
        proof {
            assert(self.ids() =~= old(self).ids().push(id@));
        }
        Ok(id)
    }

    fn find_by_id_and_update(&mut self, id: EntityId, account: Account) -> (r: Result<
        EntityId,
        FindByIdAndUpdateError,
    >) {
        match position(self.accounts.len(), &id) {
            Some(i) => {
                proof {
                    lemma_keyed_at(self.accounts@, i as int);
                    lemma_keyed_update(self.accounts@, i as int, account);
                }
                self.accounts.set(i, account);
                proof {
                    assert(self.ids() =~= old(self).ids());
                }
                Ok(id)
            },
            None => {
                proof {
                    lemma_keyed_absent(self.accounts@, id@);
                }
                Err(FindByIdAndUpdateError::NotFound)
            },
        }
    }
}

/// Transactions held in memory; a transaction's identity is the decimal
/// numeral of its position.
pub struct InMemoryTransactionRepository {
    transactions: Vec<Transaction>,
}

impl InMemoryTransactionRepository {
    pub fn new() -> (r: Self)
        ensures
            r.ids() == Seq::<Seq<char>>::empty(),
            r.stored() == Map::<Seq<char>, Transaction>::empty(),
    {
        let r = InMemoryTransactionRepository { transactions: Vec::new() };
        assert(r.stored() =~= Map::<Seq<char>, Transaction>::empty());
        assert(r.ids() =~= Seq::<Seq<char>>::empty());
        r
    }
}

impl TransactionRepository for InMemoryTransactionRepository {
    closed spec fn ids(&self) -> Seq<Seq<char>> {
        position_ids(self.transactions@.len())
    }

    closed spec fn stored(&self) -> Map<Seq<char>, Transaction> {
        keyed(self.transactions@)
    }

    fn find_all(&self) -> (r: &Vec<Transaction>) {
        proof {
            lemma_keyed_listing(self.transactions@);
        }
        &self.transactions
    }

    fn create(&mut self, transaction: Transaction) -> (r: EntityId) {
        let id = EntityId(u64_to_decimal(self.transactions.len() as u64));
        let mut transaction = transaction;
        transaction.id = Some(id.clone());
        proof {
            lemma_keyed_push(self.transactions@, transaction);
        }
        self.transactions.push(transaction);
        proof {
            assert(self.ids() =~= old(self).ids().push(id@));
        }
        id
    }

    fn find_by_id(&self, id: EntityId) -> (r: Option<&Transaction>) {
        match position(self.transactions.len(), &id) {
            Some(i) => {
                proof {
                    lemma_keyed_at(self.transactions@, i as int);
                }
                Some(&self.transactions[i])
            },
            None => {
                proof {
                    lemma_keyed_absent(self.transactions@, id@);
                }
                None
            },
        }
    }
}

} // verus!

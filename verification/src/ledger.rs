//! The token ledger.
//!
//! Balances are kept per account; each account is owned by exactly one
//! authority identity and holds one asset. The ledger offers the three
//! boundary operations the escrow protocol consumes — `transfer`,
//! `set_authority` and `close_account` — plus `open_account` for
//! provisioning. Each operation either applies in full or rejects with a
//! named reason and changes nothing.
//!
//! The ledger is modelled as a finite map from account key to account state;
//! the executable representation is a vector of accounts with pairwise
//! distinct keys.

use vstd::prelude::*;

use crate::errors::EscrowError;
use crate::keys::{key_eq, Key};

verus! {

/// One ledger account: its key, the asset (mint) it holds, the identity that
/// may authorize debits from it, and its balance.
#[derive(Clone, Copy)]
pub struct TokenAccount {
    pub key: Key,
    pub asset: Key,
    pub authority: Key,
    pub amount: u64,
}

/// The mathematical state of one account: everything but its key.
#[verifier::ext_equal]
pub struct AccountState {
    pub asset: Seq<u8>,
    pub authority: Seq<u8>,
    pub amount: u64,
}

impl TokenAccount {
    /// The account's state, keyless.
    pub open spec fn state(self) -> AccountState {
        AccountState { asset: self.asset@, authority: self.authority@, amount: self.amount }
    }
}

/// Pairwise distinct account keys.
pub open spec fn keys_unique(s: Seq<TokenAccount>) -> bool {
    forall|i: int, j: int| 0 <= i < j < s.len() ==> s[i].key@ != s[j].key@
}

/// The map an account vector denotes.
pub open spec fn accounts_map(s: Seq<TokenAccount>) -> Map<Seq<u8>, AccountState>
    decreases s.len(),
{
    if s.len() == 0 {
        Map::empty()
    } else {
        accounts_map(s.drop_last()).insert(s.last().key@, s.last().state())
    }
}

/// When a transfer of `amount` from `from` to `to`, authorized by
/// `authority`, succeeds, and the reason it is rejected otherwise.
pub open spec fn transfer_result(
    m: Map<Seq<u8>, AccountState>,
    from: Seq<u8>,
    to: Seq<u8>,
    amount: u64,
    authority: Seq<u8>,
) -> Result<(), EscrowError> {
    if !m.contains_key(from) || !m.contains_key(to) {
        Err(EscrowError::UnknownAccount)
    } else if m[from].authority != authority {
        Err(EscrowError::AuthorityMismatch)
    } else if m[from].amount < amount {
        Err(EscrowError::InsufficientBalance)
    } else if m[from].asset != m[to].asset {
        Err(EscrowError::AssetMismatch)
    } else if from != to && m[to].amount + amount > u64::MAX {
        Err(EscrowError::BalanceOverflow)
    } else {
        Ok(())
    }
}

/// The ledger after a transfer: the debited and credited accounts are
/// updated on success; nothing changes on rejection or on a self-transfer.
pub open spec fn transfer_state(
    m: Map<Seq<u8>, AccountState>,
    from: Seq<u8>,
    to: Seq<u8>,
    amount: u64,
    authority: Seq<u8>,
) -> Map<Seq<u8>, AccountState> {
    if transfer_result(m, from, to, amount, authority) is Ok && from != to {
        m.insert(
            from,
            AccountState {
                asset: m[from].asset,
                authority: m[from].authority,
                amount: (m[from].amount - amount) as u64,
            },
        ).insert(
            to,
            AccountState {
                asset: m[to].asset,
                authority: m[to].authority,
                amount: (m[to].amount + amount) as u64,
            },
        )
    } else {
        m
    }
}

/// When reassigning an account's authority succeeds.
pub open spec fn set_authority_result(
    m: Map<Seq<u8>, AccountState>,
    account: Seq<u8>,
    current_authority: Seq<u8>,
    new_authority: Seq<u8>,
) -> Result<(), EscrowError> {
    if !m.contains_key(account) {
        Err(EscrowError::UnknownAccount)
    } else if m[account].authority != current_authority {
        Err(EscrowError::AuthorityMismatch)
    } else {
        Ok(())
    }
}

/// The ledger after an authority reassignment.
pub open spec fn set_authority_state(
    m: Map<Seq<u8>, AccountState>,
    account: Seq<u8>,
    current_authority: Seq<u8>,
    new_authority: Seq<u8>,
) -> Map<Seq<u8>, AccountState> {
    if set_authority_result(m, account, current_authority, new_authority) is Ok {
        m.insert(
            account,
            AccountState {
                asset: m[account].asset,
                authority: new_authority,
                amount: m[account].amount,
            },
        )
    } else {
        m
    }
}

/// When closing an account succeeds: it must exist, be controlled by the
/// authorizing identity, and hold nothing.
pub open spec fn close_result(
    m: Map<Seq<u8>, AccountState>,
    account: Seq<u8>,
    authority: Seq<u8>,
) -> Result<(), EscrowError> {
    if !m.contains_key(account) {
        Err(EscrowError::UnknownAccount)
    } else if m[account].authority != authority {
        Err(EscrowError::AuthorityMismatch)
    } else if m[account].amount != 0 {
        Err(EscrowError::NotEmpty)
    } else {
        Ok(())
    }
}

/// The ledger after closing an account.
pub open spec fn close_state(
    m: Map<Seq<u8>, AccountState>,
    account: Seq<u8>,
    authority: Seq<u8>,
) -> Map<Seq<u8>, AccountState> {
    if close_result(m, account, authority) is Ok {
        m.remove(account)
    } else {
        m
    }
}

/// When provisioning a fresh account succeeds.
pub open spec fn open_result(
    m: Map<Seq<u8>, AccountState>,
    key: Seq<u8>,
) -> Result<(), EscrowError> {
    if m.contains_key(key) {
        Err(EscrowError::AccountExists)
    } else {
        Ok(())
    }
}

/// The ledger after provisioning a fresh account.
pub open spec fn open_state(
    m: Map<Seq<u8>, AccountState>,
    key: Seq<u8>,
    asset: Seq<u8>,
    authority: Seq<u8>,
    amount: u64,
) -> Map<Seq<u8>, AccountState> {
    if open_result(m, key) is Ok {
        m.insert(key, AccountState { asset, authority, amount })
    } else {
        m
    }
}

/// The balance of `k`, counting a missing account as empty.
pub open spec fn amount_of(m: Map<Seq<u8>, AccountState>, k: Seq<u8>) -> int {
    if m.contains_key(k) {
        m[k].amount as int
    } else {
        0
    }
}

/// The balance-tracking collaborator.
pub struct Ledger {
    accounts: Vec<TokenAccount>,
}

impl View for Ledger {
    type V = Map<Seq<u8>, AccountState>;

    closed spec fn view(&self) -> Map<Seq<u8>, AccountState> {
        accounts_map(self.accounts@)
    }
}

proof fn lemma_contains(s: Seq<TokenAccount>, k: Seq<u8>)
    ensures
        accounts_map(s).contains_key(k) <==> exists|i: int| 0 <= i < s.len() && s[i].key@ == k,
    decreases s.len(),
{
    if s.len() > 0 {
        lemma_contains(s.drop_last(), k);
        if s.last().key@ == k {
            assert(s[s.len() - 1].key@ == k);
        } else {
            if accounts_map(s).contains_key(k) {
                let i = choose|i: int| 0 <= i < s.drop_last().len() && s.drop_last()[i].key@ == k;
                assert(s[i].key@ == k);
            }
            if exists|i: int| 0 <= i < s.len() && s[i].key@ == k {
                let i = choose|i: int| 0 <= i < s.len() && s[i].key@ == k;
                assert(i < s.len() - 1);
                assert(s.drop_last()[i].key@ == k);
            }
        }
    }
}

proof fn lemma_unique_prefix(s: Seq<TokenAccount>)
    requires
        keys_unique(s),
        s.len() > 0,
    ensures
        keys_unique(s.drop_last()),
{
    assert forall|i: int, j: int|
        0 <= i < j < s.drop_last().len() implies s.drop_last()[i].key@
        != s.drop_last()[j].key@ by {
        assert(s[i].key@ != s[j].key@);
    }
}

proof fn lemma_lookup(s: Seq<TokenAccount>, i: int)
    requires
        keys_unique(s),
        0 <= i < s.len(),
    ensures
        accounts_map(s).contains_key(s[i].key@),
        accounts_map(s)[s[i].key@] == s[i].state(),
    decreases s.len(),
{
    if i < s.len() - 1 {
        lemma_unique_prefix(s);
        lemma_lookup(s.drop_last(), i);
        assert(s.drop_last()[i] == s[i]);
        assert(s.last().key@ != s[i].key@);
    }
}

proof fn lemma_update(s: Seq<TokenAccount>, i: int, a: TokenAccount)
    requires
        keys_unique(s),
        0 <= i < s.len(),
        a.key@ == s[i].key@,
    ensures
        keys_unique(s.update(i, a)),
        accounts_map(s.update(i, a)) == accounts_map(s).insert(a.key@, a.state()),
    decreases s.len(),
{
    let t = s.update(i, a);
    assert forall|p: int, q: int| 0 <= p < q < t.len() implies t[p].key@ != t[q].key@ by {
        assert(s[p].key@ != s[q].key@);
    }
    if i == s.len() - 1 {
        assert(t.drop_last() =~= s.drop_last());
        assert(t.last() == a);
        assert(accounts_map(t) =~= accounts_map(s).insert(a.key@, a.state()));
    } else {
        lemma_unique_prefix(s);
        assert(t.drop_last() =~= s.drop_last().update(i, a));
        assert(s.drop_last()[i] == s[i]);
        lemma_update(s.drop_last(), i, a);
        assert(t.last() == s.last());
        assert(s.last().key@ != a.key@);
        assert(accounts_map(t) =~= accounts_map(s).insert(a.key@, a.state()));
    }
}

proof fn lemma_push(s: Seq<TokenAccount>, a: TokenAccount)
    requires
        keys_unique(s),
        forall|i: int| 0 <= i < s.len() ==> s[i].key@ != a.key@,
    ensures
        keys_unique(s.push(a)),
        accounts_map(s.push(a)) == accounts_map(s).insert(a.key@, a.state()),
{
    let t = s.push(a);
    assert forall|p: int, q: int| 0 <= p < q < t.len() implies t[p].key@ != t[q].key@ by {
        if q < s.len() {
            assert(s[p].key@ != s[q].key@);
        } else {
            assert(s[p].key@ != a.key@);
        }
    }
    assert(t.drop_last() =~= s);
    assert(t.last() == a);
}

proof fn lemma_remove(s: Seq<TokenAccount>, i: int)
    requires
        keys_unique(s),
        0 <= i < s.len(),
    ensures
        keys_unique(s.remove(i)),
        accounts_map(s.remove(i)) == accounts_map(s).remove(s[i].key@),
    decreases s.len(),
{
    let t = s.remove(i);
    assert forall|p: int, q: int| 0 <= p < q < t.len() implies t[p].key@ != t[q].key@ by {
        let p0 = if p < i { p } else { p + 1 };
        let q0 = if q < i { q } else { q + 1 };
        assert(t[p] == s[p0]);
        assert(t[q] == s[q0]);
        assert(s[p0].key@ != s[q0].key@);
    }
    lemma_unique_prefix(s);
    if i == s.len() - 1 {
        assert(t =~= s.drop_last());
        lemma_contains(s.drop_last(), s[i].key@);
        assert(forall|j: int|
            0 <= j < s.drop_last().len() ==> s.drop_last()[j].key@ != s[i].key@);
        assert(!accounts_map(s.drop_last()).contains_key(s[i].key@));
        assert(accounts_map(t) =~= accounts_map(s).remove(s[i].key@));
    } else {
        assert(t.drop_last() =~= s.drop_last().remove(i));
        assert(s.drop_last()[i] == s[i]);
        lemma_remove(s.drop_last(), i);
        assert(t.last() == s.last());
        assert(s.last().key@ != s[i].key@);
        assert(accounts_map(t) =~= accounts_map(s).remove(s[i].key@));
    }
}

impl Ledger {
    /// Pairwise distinct account keys.
    pub closed spec fn wf(self) -> bool {
        keys_unique(self.accounts@)
    }

    /// An empty ledger.
    pub fn new() -> (l: Ledger)
        ensures
            l.wf(),
            l@ == Map::<Seq<u8>, AccountState>::empty(),
    {
        Ledger { accounts: Vec::new() }
    }

    /// An identical copy, used to stage an operation's ledger calls so that
    /// they commit all together or not at all.
    pub(crate) fn duplicate(&self) -> (r: Ledger)
        ensures
            r@ == self@,
            r.wf() <==> self.wf(),
    {
        let mut accounts: Vec<TokenAccount> = Vec::new();
        let mut i: usize = 0;
        let n = self.accounts.len();
        while i < n
            invariant
                i <= n,
                n == self.accounts@.len(),
                accounts@ == self.accounts@.take(i as int),
            decreases n - i,
        {
            accounts.push(self.accounts[i]);
            assert(accounts@ =~= self.accounts@.take(i + 1));
            i += 1;
        }
        assert(accounts@ =~= self.accounts@);
        Ledger { accounts }
    }

    fn find_index(&self, k: &Key) -> (r: Option<usize>)
        ensures
            match r {
                Some(i) => i < self.accounts@.len() && self.accounts@[i as int].key@ == k@,
                None => forall|j: int| 0 <= j < self.accounts@.len() ==> self.accounts@[j].key@ != k@,
            },
    {
        let mut i: usize = 0;
        let n = self.accounts.len();
        while i < n
            invariant
                i <= n,
                n == self.accounts@.len(),
                forall|j: int| 0 <= j < i ==> self.accounts@[j].key@ != k@,
            decreases n - i,
        {
            if key_eq(&self.accounts[i].key, k) {
                return Some(i);
            }
            i += 1;
        }
        None
    }

    /// Whether an account with this key exists.
    pub fn has_account(&self, key: &Key) -> (r: bool)
        requires
            self.wf(),
        ensures
            r == self@.contains_key(key@),
    {
        proof {
            lemma_contains(self.accounts@, key@);
        }
        match self.find_index(key) {
            Some(_) => true,
            None => false,
        }
    }

    /// The full account under this key, if any.
    pub fn get_account(&self, key: &Key) -> (r: Option<TokenAccount>)
        requires
            self.wf(),
        ensures
            match r {
                Some(a) => self@.contains_key(key@) && a.key@ == key@ && a.state() == self@[key@],
                None => !self@.contains_key(key@),
            },
    {
        proof {
            lemma_contains(self.accounts@, key@);
        }
        match self.find_index(key) {
            Some(i) => {
                proof {
                    lemma_lookup(self.accounts@, i as int);
                }
                Some(self.accounts[i])
            },
            None => None,
        }
    }

    /// The balance under this key, if the account exists.
    pub fn balance_of(&self, key: &Key) -> (r: Option<u64>)
        requires
            self.wf(),
        ensures
            match r {
                Some(b) => self@.contains_key(key@) && b == self@[key@].amount,
                None => !self@.contains_key(key@),
            },
    {
        match self.get_account(key) {
            Some(a) => Some(a.amount),
            None => None,
        }
    }

    /// The authority under this key, if the account exists.
    pub fn authority_of(&self, key: &Key) -> (r: Option<Key>)
        requires
            self.wf(),
        ensures
            match r {
                Some(a) => self@.contains_key(key@) && a@ == self@[key@].authority,
                None => !self@.contains_key(key@),
            },
    {
        match self.get_account(key) {
            Some(a) => Some(a.authority),
            None => None,
        }
    }

    /// Provision a fresh account.
    pub fn open_account(&mut self, key: &Key, asset: &Key, authority: &Key, amount: u64) -> (r:
        Result<(), EscrowError>)
        requires
            old(self).wf(),
        ensures
            final(self).wf(),
            r == open_result(old(self)@, key@),
            final(self)@ == open_state(old(self)@, key@, asset@, authority@, amount),
    {
        proof {
            lemma_contains(self.accounts@, key@);
        }
        match self.find_index(key) {
            Some(_) => Err(EscrowError::AccountExists),
            None => {
                let a = TokenAccount { key: *key, asset: *asset, authority: *authority, amount };
                proof {
                    lemma_push(self.accounts@, a);
                }
                self.accounts.push(a);
                Ok(())
            },
        }
    }

    /// Move `amount` from `from` to `to`, if `authority` controls `from`,
    /// the balance suffices, the assets agree, and the credit fits.
    pub fn transfer(&mut self, from: &Key, to: &Key, amount: u64, authority: &Key) -> (r: Result<
        (),
        EscrowError,
    >)
        requires
            old(self).wf(),
        ensures
            final(self).wf(),
            r == transfer_result(old(self)@, from@, to@, amount, authority@),
            final(self)@ == transfer_state(old(self)@, from@, to@, amount, authority@),
    {
        proof {
            lemma_contains(self.accounts@, from@);
            lemma_contains(self.accounts@, to@);
        }
        let fi = match self.find_index(from) {
            Some(i) => i,
            None => {
                return Err(EscrowError::UnknownAccount);
            },
        };
        let ti = match self.find_index(to) {
            Some(i) => i,
            None => {
                return Err(EscrowError::UnknownAccount);
            },
        };
        proof {
            lemma_lookup(self.accounts@, fi as int);
            lemma_lookup(self.accounts@, ti as int);
        }
        let facc = self.accounts[fi];
        let tacc = self.accounts[ti];
        if !key_eq(&facc.authority, authority) {
            return Err(EscrowError::AuthorityMismatch);
        }
        if facc.amount < amount {
            return Err(EscrowError::InsufficientBalance);
        }
        if !key_eq(&facc.asset, &tacc.asset) {
            return Err(EscrowError::AssetMismatch);
        }
        if fi == ti {
            proof {
                assert(from@ == to@);
            }
            return Ok(());
        }
        proof {
            assert(from@ != to@);
        }
        if u64::MAX - tacc.amount < amount {
            return Err(EscrowError::BalanceOverflow);
        }
        let new_from = TokenAccount {
            key: facc.key,
            asset: facc.asset,
            authority: facc.authority,
            amount: facc.amount - amount,
        };
        proof {
            lemma_update(self.accounts@, fi as int, new_from);
        }
        self.accounts[fi] = new_from;
        let new_to = TokenAccount {
            key: tacc.key,
            asset: tacc.asset,
            authority: tacc.authority,
            amount: tacc.amount + amount,
        };
        proof {
            lemma_update(self.accounts@, ti as int, new_to);
        }
        self.accounts[ti] = new_to;
        Ok(())
    }

    /// Reassign the account's transfer authority, if `current_authority`
    /// controls it now.
    pub fn set_authority(&mut self, account: &Key, current_authority: &Key, new_authority: &Key)
        -> (r: Result<(), EscrowError>)
        requires
            old(self).wf(),
        ensures
            final(self).wf(),
            r == set_authority_result(old(self)@, account@, current_authority@, new_authority@),
            final(self)@ == set_authority_state(
                old(self)@,
                account@,
                current_authority@,
                new_authority@,
            ),
    {
        proof {
            lemma_contains(self.accounts@, account@);
        }
        let i = match self.find_index(account) {
            Some(i) => i,
            None => {
                return Err(EscrowError::UnknownAccount);
            },
        };
        proof {
            lemma_lookup(self.accounts@, i as int);
        }
        let acc = self.accounts[i];
        if !key_eq(&acc.authority, current_authority) {
            return Err(EscrowError::AuthorityMismatch);
        }
        let updated = TokenAccount {
            key: acc.key,
            asset: acc.asset,
            authority: *new_authority,
            amount: acc.amount,
        };
        proof {
            lemma_update(self.accounts@, i as int, updated);
        }
        self.accounts[i] = updated;
        Ok(())
    }

    /// Remove an empty account that `authority` controls.
    pub fn close_account(&mut self, account: &Key, authority: &Key) -> (r: Result<
        (),
        EscrowError,
    >)
        requires
            old(self).wf(),
        ensures
            final(self).wf(),
            r == close_result(old(self)@, account@, authority@),
            final(self)@ == close_state(old(self)@, account@, authority@),
    {
        proof {
            lemma_contains(self.accounts@, account@);
        }
        let i = match self.find_index(account) {
            Some(i) => i,
            None => {
                return Err(EscrowError::UnknownAccount);
            },
        };
        proof {
            lemma_lookup(self.accounts@, i as int);
        }
        let acc = self.accounts[i];
        if !key_eq(&acc.authority, authority) {
            return Err(EscrowError::AuthorityMismatch);
        }
        if acc.amount != 0 {
            return Err(EscrowError::NotEmpty);
        }
        proof {
            lemma_remove(self.accounts@, i as int);
        }
        self.accounts.remove(i);
        Ok(())
    }
}

} // verus!

//! The ledger's state: accounts, the append-only transaction log, webhook
//! endpoints, and the outbox. One value of [`Ledger`] stands for everything a
//! business's movements read and write, and [`Ledger::create_transaction`]
//! executes a movement against it as one atomic step: either every check
//! passes and balances, log, and outbox all advance, or nothing changes.
//!
//! Records are identified by their position: the `id` of each account,
//! transaction, endpoint, and event equals its index in its table. That is
//! the store's well-formedness invariant, alongside nonnegative balances and
//! outbox records that point at existing endpoints.

use vstd::prelude::*;

use crate::account::Account;
use crate::ledger::{
    TransactionError, spec_dest_leg, spec_source_leg, spec_valid_request, spec_validation_message,
    settle_credit, settle_debit, settle_transfer, order_ids, validate_request,
};
use crate::outbox::spec_fanout;
use crate::text::trimmed;
use crate::transaction::{CreateTransactionRequest, Transaction};
use crate::webhook::{WebhookEndpoint, WebhookEvent};

verus! {

/// The whole state the engine reads and writes.
pub struct Ledger {
    pub accounts: Vec<Account>,
    pub transactions: Vec<Transaction>,
    pub endpoints: Vec<WebhookEndpoint>,
    pub events: Vec<WebhookEvent>,
}

/// `accounts` with the balance of the account at index `id` replaced.
pub open spec fn spec_set_balance(accounts: Seq<Account>, id: u128, nb: i64) -> Seq<Account> {
    accounts.update(id as int, Account { balance: nb, ..accounts[id as int] })
}

impl Ledger {
    /// The store's invariant: every record's `id` is its index, balances are
    /// never negative, outbox records point at existing endpoints, and no
    /// attempt count is negative.
    pub open spec fn wf(self) -> bool {
        &&& forall|i: int|
            0 <= i < self.accounts@.len() ==> (#[trigger] self.accounts@[i]).id == i as u128
        &&& forall|i: int|
            0 <= i < self.accounts@.len() ==> (#[trigger] self.accounts@[i]).balance >= 0
        &&& forall|i: int|
            0 <= i < self.transactions@.len() ==> (#[trigger] self.transactions@[i]).id
                == i as u128
        &&& forall|i: int|
            0 <= i < self.endpoints@.len() ==> (#[trigger] self.endpoints@[i]).id == i as u128
        &&& forall|i: int|
            0 <= i < self.events@.len() ==> (#[trigger] self.events@[i]).id == i as u128
        &&& forall|i: int|
            0 <= i < self.events@.len() ==> (#[trigger] self.events@[i]).endpoint_id
                < self.endpoints@.len() as u128
        &&& forall|i: int|
            0 <= i < self.events@.len() ==> (#[trigger] self.events@[i]).attempts >= 0
    }

    /// An empty store.
    pub fn new() -> (r: Ledger)
        ensures
            r.wf(),
            r.accounts@.len() == 0,
            r.transactions@.len() == 0,
            r.endpoints@.len() == 0,
            r.events@.len() == 0,
    {
        Ledger { accounts: Vec::new(), transactions: Vec::new(), endpoints: Vec::new(), events: Vec::new() }
    }

    /// Whether the account `id` exists and belongs to `business_id`.
    pub open spec fn account_ok(self, business_id: u128, id: u128) -> bool {
        &&& (id as int) < self.accounts@.len()
        &&& self.accounts@[id as int].id == id
        &&& self.accounts@[id as int].business_id == business_id
    }

    /// The balance of the account `id`; meaningful only when the account exists.
    pub open spec fn account_balance(self, id: u128) -> i64 {
        self.accounts@[id as int].balance
    }

    /// The currency of the account `id`; meaningful only when the account exists.
    pub open spec fn account_currency(self, id: u128) -> Seq<char> {
        self.accounts@[id as int].currency@
    }

    /// What a point read of an account returns.
    pub open spec fn spec_get_account(self, business_id: u128, id: u128) -> Option<Account> {
        if self.account_ok(business_id, id) {
            Some(self.accounts@[id as int])
        } else {
            None
        }
    }

    /// Whether the transaction `id` exists and belongs to `business_id`.
    pub open spec fn transaction_ok(self, business_id: u128, id: u128) -> bool {
        &&& (id as int) < self.transactions@.len()
        &&& self.transactions@[id as int].id == id
        &&& self.transactions@[id as int].business_id == business_id
    }

    /// What a point read of a transaction returns.
    pub open spec fn spec_get_transaction(self, business_id: u128, id: u128) -> Option<
        Transaction,
    > {
        if self.transaction_ok(business_id, id) {
            Some(self.transactions@[id as int])
        } else {
            None
        }
    }

    /// Whether some account of `business_id` already carries `name`.
    pub open spec fn name_taken(self, business_id: u128, name: Seq<char>) -> bool {
        exists|j: int|
            0 <= j < self.accounts@.len() && (#[trigger] self.accounts@[j]).business_id
                == business_id && self.accounts@[j].name@ == name
    }

    /// Index of the account `id` if it exists under `business_id`.
    fn find_account(&self, business_id: u128, id: u128) -> (r: Option<usize>)
        ensures
            r matches Some(i) ==> self.account_ok(business_id, id) && i as int == id as int,
            r is None ==> !self.account_ok(business_id, id),
    {
        if id < self.accounts.len() as u128 {
            let i = id as usize;
            let a = &self.accounts[i];
            if a.id == id && a.business_id == business_id {
                return Some(i);
            }
        }
        None
    }

    /// Creates an account with a zero balance, or nothing when the business
    /// already has one of that name (the store's uniqueness rule).
    pub fn create_account(&mut self, business_id: u128, name: String, currency: String) -> (r:
        Option<Account>)
        requires
            old(self).wf(),
        ensures
            final(self).wf(),
            old(self).name_taken(business_id, name@) ==> (r is None && *final(self) == *old(self)),
            !old(self).name_taken(business_id, name@) ==> (r matches Some(a) && {
                &&& a.id == old(self).accounts@.len() as u128
                &&& a.business_id == business_id
                &&& a.name@ == name@
                &&& a.currency@ == currency@
                &&& a.balance == 0
                &&& final(self).accounts@ == old(self).accounts@.push(a)
                &&& final(self).transactions@ == old(self).transactions@
                &&& final(self).endpoints@ == old(self).endpoints@
                &&& final(self).events@ == old(self).events@
            }),
    {
        let n = self.accounts.len();
        let mut j: usize = 0;
        while j < n
            invariant
                0 <= j <= n,
                n == self.accounts@.len(),
                *self == *old(self),
                self.wf(),
                forall|k: int|
                    0 <= k < j ==> !((#[trigger] self.accounts@[k]).business_id == business_id
                        && self.accounts@[k].name@ == name@),
            decreases n - j,
        {
            let a = &self.accounts[j];
            if a.business_id == business_id && crate::text::str_eq(a.name.as_str(), name.as_str())
            {
                return None;
            }
            j = j + 1;
        }
        let account = Account {
            id: n as u128,
            business_id,
            name,
            currency,
            balance: 0,
        };
        let out = account.duplicate();
        self.accounts.push(account);
        Some(out)
    }

    /// A point read of an account, scoped to its business. Reads never change
    /// the store, so two reads without an intervening write agree.
    pub fn get_account(&self, business_id: u128, id: u128) -> (r: Option<Account>)
        ensures
            r == self.spec_get_account(business_id, id),
    {
        if id < self.accounts.len() as u128 {
            let i = id as usize;
            let a = &self.accounts[i];
            if a.id == id && a.business_id == business_id {
                return Some(a.duplicate());
            }
        }
        None
    }

    /// A point read of a transaction, scoped to its business.
    pub fn get_transaction(&self, business_id: u128, id: u128) -> (r: Option<Transaction>)
        ensures
            r == self.spec_get_transaction(business_id, id),
    {
        if id < self.transactions.len() as u128 {
            let i = id as usize;
            let t = &self.transactions[i];
            if t.id == id && t.business_id == business_id {
                return Some(*t);
            }
        }
        None
    }

    /// The record `create_transaction` appends when it succeeds.
    pub open spec fn spec_new_transaction(
        self,
        business_id: u128,
        req: CreateTransactionRequest,
        now: i64,
    ) -> Transaction {
        Transaction {
            id: self.transactions@.len() as u128,
            business_id,
            tx_type: req.tx_type,
            source_account_id: spec_source_leg(req),
            dest_account_id: spec_dest_leg(req),
            amount: req.amount,
            created_at: now,
        }
    }

    /// Executes a movement as one atomic step, outbox included.
    ///
    /// The request is validated first; the accounts it names are then read in
    /// the fixed identifier order used for locking; existence, currency, and
    /// balance checks use that state; and only when all pass do the balances
    /// move, the record land in the log, and the outbox gain one pending
    /// notification per active endpoint of the business, with `payload` —
    /// the movement's serialized notification — frozen into each. On any
    /// error the store is exactly as it was: no partial effect, and in
    /// particular no outbox record for a movement that did not happen.
    ///
    /// The resulting balance of a credited account is its prior balance plus
    /// the amount, of a debited one its prior balance minus the amount,
    /// exactly; a debit or transfer whose source cannot cover the amount
    /// fails with `InsufficientFunds`, and a transfer between accounts of
    /// different currencies fails with `BadRequest`, each leaving every
    /// balance unchanged.
    pub fn create_transaction(
        &mut self,
        business_id: u128,
        req: &CreateTransactionRequest,
        payload: &str,
        now: i64,
    ) -> (r: Result<Transaction, TransactionError>)
        requires
            old(self).wf(),
        ensures
            final(self).wf(),
            r is Err ==> *final(self) == *old(self),
            r is Ok ==> spec_valid_request(*req),
            !spec_valid_request(*req) ==> (r matches Err(e) && e matches
                TransactionError::BadRequest(m) && m@ == spec_validation_message(*req)),
            (spec_valid_request(*req) && req.tx_type is Credit) ==> {
                let d = req.dest_account_id->0;
                &&& (!old(self).account_ok(business_id, d) ==> r matches Err(
                    TransactionError::NotFound,
                ))
                &&& (old(self).account_ok(business_id, d) && old(self).account_balance(d)
                    + req.amount > i64::MAX ==> r matches Err(TransactionError::Internal))
                &&& (old(self).account_ok(business_id, d) && old(self).account_balance(d)
                    + req.amount <= i64::MAX ==> {
                    &&& r matches Ok(t) && t == old(self).spec_new_transaction(
                        business_id,
                        *req,
                        now,
                    )
                    &&& final(self).accounts@ == spec_set_balance(
                        old(self).accounts@,
                        d,
                        (old(self).account_balance(d) + req.amount) as i64,
                    )
                })
            },
            (spec_valid_request(*req) && req.tx_type is Debit) ==> {
                let s = req.source_account_id->0;
                &&& (!old(self).account_ok(business_id, s) ==> r matches Err(
                    TransactionError::NotFound,
                ))
                &&& (old(self).account_ok(business_id, s) && old(self).account_balance(s)
                    < req.amount ==> r matches Err(TransactionError::InsufficientFunds))
                &&& (old(self).account_ok(business_id, s) && old(self).account_balance(s)
                    >= req.amount ==> {
                    &&& r matches Ok(t) && t == old(self).spec_new_transaction(
                        business_id,
                        *req,
                        now,
                    )
                    &&& final(self).accounts@ == spec_set_balance(
                        old(self).accounts@,
                        s,
                        (old(self).account_balance(s) - req.amount) as i64,
                    )
                })
            },
            (spec_valid_request(*req) && req.tx_type is Transfer) ==> {
                let s = req.source_account_id->0;
                let d = req.dest_account_id->0;
                &&& ((!old(self).account_ok(business_id, s) || !old(self).account_ok(
                    business_id,
                    d,
                )) ==> r matches Err(TransactionError::NotFound))
                &&& ((old(self).account_ok(business_id, s) && old(self).account_ok(business_id, d))
                    ==> {
                    &&& (trimmed(old(self).account_currency(s)) != trimmed(
                        old(self).account_currency(d),
                    ) ==> (r matches Err(e) && e matches TransactionError::BadRequest(m) && m@
                        == "transfer requires source and destination accounts to have same currency"@))
                    &&& (trimmed(old(self).account_currency(s)) == trimmed(
                        old(self).account_currency(d),
                    ) ==> {
                        &&& (old(self).account_balance(s) < req.amount ==> r matches Err(
                            TransactionError::InsufficientFunds,
                        ))
                        &&& (old(self).account_balance(s) >= req.amount && old(
                            self,
                        ).account_balance(d) + req.amount > i64::MAX ==> r matches Err(
                            TransactionError::Internal,
                        ))
                        &&& (old(self).account_balance(s) >= req.amount && old(
                            self,
                        ).account_balance(d) + req.amount <= i64::MAX ==> {
                            &&& r matches Ok(t) && t == old(self).spec_new_transaction(
                                business_id,
                                *req,
                                now,
                            )
                            &&& final(self).accounts@ == spec_set_balance(
                                spec_set_balance(
                                    old(self).accounts@,
                                    s,
                                    (old(self).account_balance(s) - req.amount) as i64,
                                ),
                                d,
                                (old(self).account_balance(d) + req.amount) as i64,
                            )
                        })
                    })
                })
            },
            r is Ok ==> final(self).transactions@ == old(self).transactions@.push(
                old(self).spec_new_transaction(business_id, *req, now),
            ),
            r is Ok ==> final(self).endpoints@ == old(self).endpoints@,
            r is Ok ==> spec_fanout(
                old(self).events@,
                final(self).events@,
                old(self).endpoints@,
                business_id,
                old(self).transactions@.len() as u128,
                payload@,
                now,
            ),
    {
        let legs = match validate_request(req) {
            Ok(l) => l,
            Err(e) => {
                return Err(e);
            },
        };
        let amount = req.amount;
        match req.tx_type {
            crate::transaction::TransactionType::Credit => {
                let dest_id = legs.1.unwrap();
                let idx = match self.find_account(business_id, dest_id) {
                    Some(i) => i,
                    None => {
                        return Err(TransactionError::NotFound);
                    },
                };
                let nb = match settle_credit(self.accounts[idx].balance, amount) {
                    Ok(b) => b,
                    Err(e) => {
                        return Err(e);
                    },
                };
                let t = Transaction {
                    id: self.transactions.len() as u128,
                    business_id,
                    tx_type: req.tx_type,
                    source_account_id: None,
                    dest_account_id: Some(dest_id),
                    amount,
                    created_at: now,
                };
                let a = &mut self.accounts[idx];
                a.balance = nb;
                self.transactions.push(t);
                self.enqueue_webhook_events_for_transaction(business_id, t.id, payload, now);
                Ok(t)
            },
            crate::transaction::TransactionType::Debit => {
                let source_id = legs.0.unwrap();
                let idx = match self.find_account(business_id, source_id) {
                    Some(i) => i,
                    None => {
                        return Err(TransactionError::NotFound);
                    },
                };
                let nb = match settle_debit(self.accounts[idx].balance, amount) {
                    Ok(b) => b,
                    Err(e) => {
                        return Err(e);
                    },
                };
                let t = Transaction {
                    id: self.transactions.len() as u128,
                    business_id,
                    tx_type: req.tx_type,
                    source_account_id: Some(source_id),
                    dest_account_id: None,
                    amount,
                    created_at: now,
                };
                let a = &mut self.accounts[idx];
                a.balance = nb;
                self.transactions.push(t);
                self.enqueue_webhook_events_for_transaction(business_id, t.id, payload, now);
                Ok(t)
            },
            crate::transaction::TransactionType::Transfer => {
                let source_id = legs.0.unwrap();
                let dest_id = legs.1.unwrap();
                // Take the two rows in the fixed identifier order, never the
                // logical one: the deadlock-avoidance rule.
                let (first, second) = order_ids(source_id, dest_id);
                let first_idx = match self.find_account(business_id, first) {
                    Some(i) => i,
                    None => {
                        return Err(TransactionError::NotFound);
                    },
                };
                let second_idx = match self.find_account(business_id, second) {
                    Some(i) => i,
                    None => {
                        return Err(TransactionError::NotFound);
                    },
                };
                // Map the rows taken in lock order back to their logical roles.
                let (s_idx, d_idx) = if first == source_id {
                    (first_idx, second_idx)
                } else {
                    (second_idx, first_idx)
                };
                let balances = match settle_transfer(
                    self.accounts[s_idx].currency.as_str(),
                    self.accounts[s_idx].balance,
                    self.accounts[d_idx].currency.as_str(),
                    self.accounts[d_idx].balance,
                    amount,
                ) {
                    Ok(p) => p,
                    Err(e) => {
                        return Err(e);
                    },
                };
                let t = Transaction {
                    id: self.transactions.len() as u128,
                    business_id,
                    tx_type: req.tx_type,
                    source_account_id: Some(source_id),
                    dest_account_id: Some(dest_id),
                    amount,
                    created_at: now,
                };
                let a = &mut self.accounts[s_idx];
                a.balance = balances.0;
                let b = &mut self.accounts[d_idx];
                b.balance = balances.1;
                self.transactions.push(t);
                self.enqueue_webhook_events_for_transaction(business_id, t.id, payload, now);
                Ok(t)
            },
        }
    }

    /// The accounts of `business_id`, newest first.
    pub open spec fn spec_accounts_of(accounts: Seq<Account>, business_id: u128) -> Seq<Account>
        decreases accounts.len(),
    {
        if accounts.len() == 0 {
            Seq::empty()
        } else {
            let head: Seq<Account> = if accounts.last().business_id == business_id {
                seq![accounts.last()]
            } else {
                Seq::empty()
            };
            head + Self::spec_accounts_of(accounts.drop_last(), business_id)
        }
    }

    /// Every account of a business, newest first.
    pub fn list_accounts(&self, business_id: u128) -> (r: Vec<Account>)
        ensures
            r@ == Self::spec_accounts_of(self.accounts@, business_id),
    {
        let n = self.accounts.len();
        let mut out: Vec<Account> = Vec::new();
        let mut i: usize = n;
        proof {
            assert(self.accounts@.take(n as int) =~= self.accounts@);
            assert(Seq::<Account>::empty() + Self::spec_accounts_of(self.accounts@, business_id)
                =~= Self::spec_accounts_of(self.accounts@, business_id));
        }
        while i > 0
            invariant
                0 <= i <= n,
                n == self.accounts@.len(),
                Self::spec_accounts_of(self.accounts@, business_id) == out@
                    + Self::spec_accounts_of(self.accounts@.take(i as int), business_id),
            decreases i,
        {
            i = i - 1;
            let ghost pre = self.accounts@.take(i as int + 1);
            proof {
                assert(pre.last() == self.accounts@[i as int]);
                assert(pre.drop_last() =~= self.accounts@.take(i as int));
            }
            let a = &self.accounts[i];
            if a.business_id == business_id {
                let ghost out0 = out@;
                out.push(a.duplicate());
                proof {
                    let rest = Self::spec_accounts_of(
                        self.accounts@.take(i as int),
                        business_id,
                    );
                    assert(out0 + (seq![self.accounts@[i as int]] + rest) =~= out@ + rest);
                }
            }
        }
        proof {
            assert(Self::spec_accounts_of(self.accounts@.take(0), business_id)
                =~= Seq::<Account>::empty());
            assert(out@ + Seq::<Account>::empty() =~= out@);
        }
        out
    }

    /// The most recent transactions of `business_id`, newest first, at most
    /// `limit` of them.
    pub open spec fn spec_recent_transactions(
        transactions: Seq<Transaction>,
        business_id: u128,
        limit: int,
    ) -> Seq<Transaction>
        decreases transactions.len(),
    {
        if transactions.len() == 0 || limit <= 0 {
            Seq::empty()
        } else if transactions.last().business_id == business_id {
            seq![transactions.last()] + Self::spec_recent_transactions(
                transactions.drop_last(),
                business_id,
                limit - 1,
            )
        } else {
            Self::spec_recent_transactions(transactions.drop_last(), business_id, limit)
        }
    }

    /// The latest movements of a business, newest first, capped at the
    /// listing bound the store serves.
    pub fn list_transactions(&self, business_id: u128, limit: usize) -> (r: Vec<Transaction>)
        ensures
            r@ == Self::spec_recent_transactions(
                self.transactions@,
                business_id,
                limit as int,
            ),
    {
        let n = self.transactions.len();
        let mut out: Vec<Transaction> = Vec::new();
        let mut i: usize = n;
        let ghost full = Self::spec_recent_transactions(
            self.transactions@,
            business_id,
            limit as int,
        );
        proof {
            assert(self.transactions@.take(n as int) =~= self.transactions@);
            assert(Seq::<Transaction>::empty() + full =~= full);
        }
        while i > 0 && out.len() < limit
            invariant
                0 <= i <= n,
                n == self.transactions@.len(),
                out@.len() <= limit,
                full == Self::spec_recent_transactions(
                    self.transactions@,
                    business_id,
                    limit as int,
                ),
                full == out@ + Self::spec_recent_transactions(
                    self.transactions@.take(i as int),
                    business_id,
                    limit - out@.len(),
                ),
            decreases i,
        {
            i = i - 1;
            let ghost pre = self.transactions@.take(i as int + 1);
            proof {
                assert(pre.last() == self.transactions@[i as int]);
                assert(pre.drop_last() =~= self.transactions@.take(i as int));
            }
            let t = &self.transactions[i];
            if t.business_id == business_id {
                let ghost out0 = out@;
                out.push(*t);
                proof {
                    let rest = Self::spec_recent_transactions(
                        self.transactions@.take(i as int),
                        business_id,
                        limit - out@.len(),
                    );
                    assert(out0 + (seq![self.transactions@[i as int]] + rest) =~= out@ + rest);
                }
            }
        }
        proof {
            if out@.len() == limit {
                assert(Self::spec_recent_transactions(
                    self.transactions@.take(i as int),
                    business_id,
                    0,
                ) =~= Seq::<Transaction>::empty());
            } else {
                assert(self.transactions@.take(0) =~= Seq::<Transaction>::empty());
            }
            assert(out@ + Seq::<Transaction>::empty() =~= out@);
        }
        out
    }
}

/// Two opposite transfers between one pair of accounts, serialized by the
/// lock order in either sequence, end with the same balances: each account
/// at its start plus the net of the two amounts. With
/// [`lemma_lock_order_symmetric`](crate::ledger::lemma_lock_order_symmetric)
/// this is why concurrent opposite transfers both complete and agree on the
/// outcome. The two nested update chains are exactly what
/// `create_transaction` leaves behind for each order.
pub proof fn lemma_opposite_transfers_net(
    accounts: Seq<Account>,
    a: u128,
    b: u128,
    x: i64,
    y: i64,
)
    requires
        a != b,
        (a as int) < accounts.len(),
        (b as int) < accounts.len(),
        0 <= x,
        0 <= y,
        0 <= accounts[a as int].balance,
        0 <= accounts[b as int].balance,
        x <= accounts[a as int].balance,
        y <= accounts[b as int].balance,
        accounts[b as int].balance + x <= i64::MAX,
        accounts[a as int].balance + y <= i64::MAX,
    ensures
        ({
            let ba = accounts[a as int].balance as int;
            let bb = accounts[b as int].balance as int;
            let fwd = spec_set_balance(
                spec_set_balance(
                    spec_set_balance(spec_set_balance(accounts, a, (ba - x) as i64), b, (bb + x) as i64),
                    b,
                    (bb + x - y) as i64,
                ),
                a,
                (ba - x + y) as i64,
            );
            let rev = spec_set_balance(
                spec_set_balance(
                    spec_set_balance(spec_set_balance(accounts, b, (bb - y) as i64), a, (ba + y) as i64),
                    a,
                    (ba + y - x) as i64,
                ),
                b,
                (bb - y + x) as i64,
            );
            &&& fwd[a as int].balance == ba - x + y
            &&& fwd[b as int].balance == bb + x - y
            &&& fwd =~= rev
        }),
{
    let ba = accounts[a as int].balance as int;
    let bb = accounts[b as int].balance as int;
    let fwd = spec_set_balance(
        spec_set_balance(
            spec_set_balance(spec_set_balance(accounts, a, (ba - x) as i64), b, (bb + x) as i64),
            b,
            (bb + x - y) as i64,
        ),
        a,
        (ba - x + y) as i64,
    );
    let rev = spec_set_balance(
        spec_set_balance(
            spec_set_balance(spec_set_balance(accounts, b, (bb - y) as i64), a, (ba + y) as i64),
            a,
            (ba + y - x) as i64,
        ),
        b,
        (bb - y + x) as i64,
    );
    assert(fwd[a as int] == Account { balance: (ba - x + y) as i64, ..accounts[a as int] });
    assert(fwd[b as int] == Account { balance: (bb + x - y) as i64, ..accounts[b as int] });
    assert(rev[a as int] == Account { balance: (ba + y - x) as i64, ..accounts[a as int] });
    assert(rev[b as int] == Account { balance: (bb - y + x) as i64, ..accounts[b as int] });
    assert forall|i: int| 0 <= i < fwd.len() implies fwd[i] == rev[i] by {
        if i != a as int && i != b as int {
            assert(fwd[i] == accounts[i]);
            assert(rev[i] == accounts[i]);
        }
    }
    assert(fwd =~= rev);
}

/// Point reads are functions of the store alone: two account reads without
/// an intervening write return the same value.
pub proof fn lemma_account_read_deterministic(
    l: Ledger,
    business_id: u128,
    id: u128,
    r1: Option<Account>,
    r2: Option<Account>,
)
    requires
        r1 == l.spec_get_account(business_id, id),
        r2 == l.spec_get_account(business_id, id),
    ensures
        r1 == r2,
{
}

/// Point reads are functions of the store alone: two transaction reads
/// without an intervening write return the same value.
pub proof fn lemma_transaction_read_deterministic(
    l: Ledger,
    business_id: u128,
    id: u128,
    r1: Option<Transaction>,
    r2: Option<Transaction>,
)
    requires
        r1 == l.spec_get_transaction(business_id, id),
        r2 == l.spec_get_transaction(business_id, id),
    ensures
        r1 == r2,
{
}

} // verus!

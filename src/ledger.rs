use std::collections::HashMap;
use vstd::prelude::*;
use crate::client::{Client, ClientError, ClientView};
use crate::decimal::{decimal, push_decimal};
use vstd::string::StringExecFns;
use crate::transaction::{Transaction, TransactionType, TransactionView};

verus! {

broadcast use vstd::std_specs::hash::group_hash_axioms;

/// Why a transaction could not be applied.
#[derive(Debug, Clone, Copy, PartialEq, Eq, Structural)]
pub enum LedgerError {
    /// A withdrawal, resolve or chargeback named a client with no account.
    MissingClient(u16),
    /// A resolve or chargeback referred to a transaction that is not in the history.
    MissingTransaction(u32),
    /// A referenced transaction carries no amount.
    MissingTransactionAmount(u32),
    /// The account refused the movement of funds.
    Funds(ClientError),
}

impl LedgerError {
    /// A short human-readable description of the error, ending with the id that a
    /// lookup error carries.
    pub fn message(&self) -> (r: String)
        ensures
            r@ == match *self {
                LedgerError::MissingClient(id) => "Missing client for id "@ + decimal(id as nat),
                LedgerError::MissingTransaction(id) => "Missing transaction for id "@ + decimal(
                    id as nat,
                ),
                LedgerError::MissingTransactionAmount(id) => "Missing transaction amount for id "@
                    + decimal(id as nat),
                LedgerError::Funds(ClientError::InsufficientFunds) => "Insufficient funds"@,
                LedgerError::Funds(ClientError::IncorrectSign) => "Incorrect sign"@,
            },
    {
        match self {
            LedgerError::MissingClient(id) => {
                let mut s = String::from_str("Missing client for id ");
                push_decimal(&mut s, *id as u32);
                s
            },
            LedgerError::MissingTransaction(id) => {
                let mut s = String::from_str("Missing transaction for id ");
                push_decimal(&mut s, *id);
                s
            },
            LedgerError::MissingTransactionAmount(id) => {
                let mut s = String::from_str("Missing transaction amount for id ");
                push_decimal(&mut s, *id);
                s
            },
            LedgerError::Funds(e) => String::from_str(e.message()),
        }
    }
}

/// The abstract state of the ledger: the accounts by client and the referable
/// transactions by id.
pub struct LedgerView {
    pub clients: Map<u16, ClientView>,
    pub transactions: Map<u32, TransactionView>,
}

impl LedgerView {
    /// Each account is kept under its own client id, with no negative balance; only deposits and withdrawals are
    /// kept, each under its own id and with an amount whose negation is an `i64`.
    pub open spec fn wf(self) -> bool {
        &&& forall|k: u16| #[trigger]
            self.clients.contains_key(k) ==> {
                let c = self.clients[k];
                &&& c.id == k
                &&& c.available >= 0
                &&& c.held >= 0
            }
        &&& forall|k: u32| #[trigger]
            self.transactions.contains_key(k) ==> {
                let t = self.transactions[k];
                &&& t.is_referable()
                &&& t.tx == k
                &&& t.amount.is_some()
                &&& t.amount.unwrap() > i64::MIN
            }
    }

    pub open spec fn with_client(self, c: ClientView) -> LedgerView {
        LedgerView { clients: self.clients.insert(c.id, c), ..self }
    }

    pub open spec fn recording(self, tx: TransactionView) -> LedgerView {
        LedgerView { transactions: self.transactions.insert(tx.tx, tx), ..self }
    }

    /// The account of `id`, or a fresh one where there is none yet.
    pub open spec fn client_or_fresh(self, id: u16) -> ClientView {
        if self.clients.contains_key(id) {
            self.clients[id]
        } else {
            ClientView::fresh(id)
        }
    }

    /// The amount of the deposit recorded under `key`, if there is one and it carries one.
    pub open spec fn referenced_deposit(self, key: u32) -> Option<i64> {
        if self.transactions.contains_key(key) && self.transactions[key].tx_type
            == TransactionType::Deposit {
            self.transactions[key].amount
        } else {
            None
        }
    }

    /// Applying `tx` keeps every balance within `i64`.
    pub open spec fn fits(self, tx: TransactionView) -> bool {
        let owner = self.clients.contains_key(tx.client);
        let c = self.client_or_fresh(tx.client);
        match tx.tx_type {
            TransactionType::Deposit => tx.amount.is_some() ==> c.deposit_fits(
                tx.amount.unwrap() as int,
            ),
            TransactionType::Withdrawal => tx.amount.is_some() ==> {
                &&& tx.amount.unwrap() > i64::MIN
                &&& owner ==> c.deposit_fits(-tx.amount.unwrap())
            },
            TransactionType::Dispute => owner && self.referenced_deposit(tx.tx).is_some()
                ==> c.hold_fits(self.referenced_deposit(tx.tx).unwrap() as int),
            TransactionType::Resolve => owner && self.referenced_deposit(tx.tx).is_some()
                ==> c.hold_fits(-self.referenced_deposit(tx.tx).unwrap()),
            TransactionType::Chargeback => true,
        }
    }

    /// Hands an account operation's outcome on as the ledger's: the account is replaced
    /// on success, and the ledger is left as it was on failure.
    pub open spec fn settle(self, r: Result<ClientView, ClientError>) -> (
        LedgerView,
        Result<(), LedgerError>,
    ) {
        match r {
            Ok(c) => (self.with_client(c), Ok(())),
            Err(e) => (self, Err(LedgerError::Funds(e))),
        }
    }

    /// The state after applying `tx`, and whether it was applied.
    pub open spec fn step(self, tx: TransactionView) -> (LedgerView, Result<(), LedgerError>) {
        let id = tx.client;
        let c = self.client_or_fresh(id);
        let owner = self.clients.contains_key(id);
        let known = self.transactions.contains_key(tx.tx);
        let referenced = self.transactions[tx.tx];
        match tx.tx_type {
            TransactionType::Deposit => {
                let created = self.with_client(c);
                match c.deposited(tx.amount.unwrap() as int) {
                    Ok(d) => (created.with_client(d).recording(tx), Ok(())),
                    Err(e) => (created, Err(LedgerError::Funds(e))),
                }
            },
            TransactionType::Withdrawal => {
                if !owner {
                    (self, Err(LedgerError::MissingClient(id)))
                } else {
                    match c.deposited(-tx.amount.unwrap()) {
                        Ok(d) => (self.with_client(d).recording(tx), Ok(())),
                        Err(e) => (self, Err(LedgerError::Funds(e))),
                    }
                }
            },
            TransactionType::Dispute => {
                if !known || referenced.tx_type != TransactionType::Deposit {
                    (self, Ok(()))
                } else if referenced.amount.is_none() {
                    (self, Err(LedgerError::MissingTransactionAmount(tx.tx)))
                } else if !owner {
                    (self, Err(LedgerError::MissingClient(id)))
                } else {
                    self.settle(c.holding(referenced.amount.unwrap() as int))
                }
            },
            TransactionType::Resolve | TransactionType::Chargeback => {
                if !known {
                    (self, Err(LedgerError::MissingTransaction(tx.tx)))
                } else if referenced.amount.is_none() {
                    (self, Err(LedgerError::MissingTransactionAmount(tx.tx)))
                } else if referenced.tx_type != TransactionType::Deposit {
                    (self, Ok(()))
                } else if !owner {
                    (self, Err(LedgerError::MissingClient(id)))
                } else if tx.tx_type == TransactionType::Resolve {
                    self.settle(c.holding(-referenced.amount.unwrap()))
                } else {
                    self.settle(c.charged_back(referenced.amount.unwrap() as int))
                }
            },
        }
    }
}

/// The accounts by client and the deposits and withdrawals by transaction id.
pub struct Ledger {
    transaction_table: HashMap<u32, Transaction>,
    client_table: HashMap<u16, Client>,
}

impl View for Ledger {
    type V = LedgerView;

    closed spec fn view(&self) -> LedgerView {
        LedgerView {
            clients: self.client_table@.map_values(|c: Client| c@),
            transactions: self.transaction_table@.map_values(|t: Transaction| t@),
        }
    }
}

impl Ledger {
    /// An empty ledger.
    pub fn new() -> (r: Self)
        ensures
            r@.clients == Map::<u16, ClientView>::empty(),
            r@.transactions == Map::<u32, TransactionView>::empty(),
            r@.wf(),
    {
        let r = Ledger { transaction_table: HashMap::new(), client_table: HashMap::new() };
        assert(r@.clients =~= Map::<u16, ClientView>::empty());
        assert(r@.transactions =~= Map::<u32, TransactionView>::empty());
        r
    }

    /// Applies one transaction, in arrival order, to the accounts and the history.
    pub fn apply_transaction(&mut self, tx: &Transaction) -> (r: Result<(), LedgerError>)
        requires
            old(self)@.wf(),
            tx@.well_formed(),
            old(self)@.fits(tx@),
        ensures
            (final(self)@, r) == old(self)@.step(tx@),
            final(self)@.wf(),
    {
        let id = *tx.client();
        match *tx.tx_type() {
            TransactionType::Deposit => {
                let amount = tx.amount().unwrap();
                self.init_client(id);
                let mut c = match self.get_client(id) {
                    Ok(c) => c,
                    Err(e) => return Err(e),
                };
                match c.deposit(amount) {
                    Ok(()) => {},
                    Err(e) => return Err(LedgerError::Funds(e)),
                }
                self.put_client(c);
                self.record(*tx);
            },
            TransactionType::Withdrawal => {
                let amount = tx.amount().unwrap();
                let mut c = match self.get_client(id) {
                    Ok(c) => c,
                    Err(e) => return Err(e),
                };
                match c.deposit(-amount) {
                    Ok(()) => {},
                    Err(e) => return Err(LedgerError::Funds(e)),
                }
                self.put_client(c);
                self.record(*tx);
            },
            TransactionType::Dispute => {
                match self.transaction_table.get(tx.tx()) {
                    Some(referenced) => {
                        if *referenced.tx_type() == TransactionType::Deposit {
                            match referenced.amount() {
                                Some(a) => {
                                    let mut c = match self.get_client(id) {
                                        Ok(c) => c,
                                        Err(e) => return Err(e),
                                    };
                                    match c.hold(a) {
                                        Ok(()) => {},
                                        Err(e) => return Err(LedgerError::Funds(e)),
                                    }
                                    self.put_client(c);
                                },
                                None => {
                                    return Err(LedgerError::MissingTransactionAmount(*tx.tx()));
                                },
                            }
                        }
                    },
                    // a dispute of an unknown transaction is taken for the client's mistake
                    None => return Ok(()),
                }
            },
            TransactionType::Resolve => {
                let (amount, tx_type) = match self.get_tx_amount_type(*tx.tx()) {
                    Ok(p) => p,
                    Err(e) => return Err(e),
                };
                if tx_type == TransactionType::Deposit {
                    let mut c = match self.get_client(id) {
                        Ok(c) => c,
                        Err(e) => return Err(e),
                    };
                    match c.hold(-amount) {
                        Ok(()) => {},
                        Err(e) => return Err(LedgerError::Funds(e)),
                    }
                    self.put_client(c);
                }
            },
            TransactionType::Chargeback => {
                let (amount, tx_type) = match self.get_tx_amount_type(*tx.tx()) {
                    Ok(p) => p,
                    Err(e) => return Err(e),
                };
                if tx_type == TransactionType::Deposit {
                    let mut c = match self.get_client(id) {
                        Ok(c) => c,
                        Err(e) => return Err(e),
                    };
                    match c.chargeback(amount) {
                        Ok(()) => {},
                        Err(e) => return Err(LedgerError::Funds(e)),
                    }
                    self.put_client(c);
                }
            },
        }
        Ok(())
    }

    /// Whether `tx` carries the amount its kind needs and can be applied with every
    /// balance staying within `i64`.
    pub fn can_apply(&self, tx: &Transaction) -> (r: bool)
        ensures
            r == (tx@.well_formed() && self@.fits(tx@)),
    {
        let id = *tx.client();
        let owner = self.client_table.get(&id);
        match *tx.tx_type() {
            TransactionType::Deposit => match tx.amount() {
                Some(a) => {
                    let available: i64 = match owner {
                        Some(c) => c.available(),
                        None => 0,
                    };
                    available as i128 + a as i128 <= i64::MAX as i128
                },
                None => false,
            },
            TransactionType::Withdrawal => match tx.amount() {
                Some(a) => a > i64::MIN && match owner {
                    Some(c) => c.available() as i128 - a as i128 <= i64::MAX as i128,
                    None => true,
                },
                None => false,
            },
            TransactionType::Dispute | TransactionType::Resolve => {
                match (owner, self.referenced_deposit(*tx.tx())) {
                    (Some(c), Some(a)) => {
                        let moved: i128 = if *tx.tx_type() == TransactionType::Dispute {
                            a as i128
                        } else {
                            -(a as i128)
                        };
                        c.held() as i128 + moved <= i64::MAX as i128 && c.available() as i128
                            - moved <= i64::MAX as i128
                    },
                    _ => true,
                }
            },
            TransactionType::Chargeback => true,
        }
    }

    /// The amount of the deposit recorded under `key`, if there is one and it carries one.
    fn referenced_deposit(&self, key: u32) -> (r: Option<i64>)
        ensures
            r == self@.referenced_deposit(key),
    {
        match self.transaction_table.get(&key) {
            Some(t) => if *t.tx_type() == TransactionType::Deposit {
                t.amount()
            } else {
                None
            },
            None => None,
        }
    }

    /// The amount and kind of the transaction recorded under `id`.
    fn get_tx_amount_type(&self, id: u32) -> (r: Result<(i64, TransactionType), LedgerError>)
        ensures
            match r {
                Ok((a, k)) => {
                    &&& self@.transactions.contains_key(id)
                    &&& self@.transactions[id].amount == Some(a)
                    &&& self@.transactions[id].tx_type == k
                },
                Err(e) => if !self@.transactions.contains_key(id) {
                    e == LedgerError::MissingTransaction(id)
                } else {
                    self@.transactions[id].amount.is_none()
                        && e == LedgerError::MissingTransactionAmount(id)
                },
            },
    {
        let tx = match self.get_transaction(id) {
            Ok(t) => t,
            Err(e) => return Err(e),
        };
        match tx.amount() {
            Some(a) => Ok((a, *tx.tx_type())),
            None => Err(LedgerError::MissingTransactionAmount(id)),
        }
    }

    /// Creates a fresh account for `id` where there is none yet.
    fn init_client(&mut self, id: u16)
        requires
            old(self)@.wf(),
        ensures
            final(self)@ == old(self)@.with_client(old(self)@.client_or_fresh(id)),
            final(self)@.wf(),
    {
        if !self.client_table.contains_key(&id) {
            self.put_client(Client::from_id(id));
        } else {
            proof {
                assert(self@.clients.contains_key(id));
                assert(self@.with_client(self@.clients[id]).clients =~= self@.clients);
            }
        }
    }

    /// A copy of the account of `id`.
    fn get_client(&self, id: u16) -> (r: Result<Client, LedgerError>)
        ensures
            match r {
                Ok(c) => self@.clients.contains_key(id) && c@ == self@.clients[id],
                Err(e) => !self@.clients.contains_key(id) && e == LedgerError::MissingClient(id),
            },
    {
        match self.client_table.get(&id) {
            Some(c) => Ok(*c),
            None => Err(LedgerError::MissingClient(id)),
        }
    }

    /// The transaction recorded under `id`.
    fn get_transaction(&self, id: u32) -> (r: Result<&Transaction, LedgerError>)
        ensures
            match r {
                Ok(t) => self@.transactions.contains_key(id) && t@ == self@.transactions[id],
                Err(e) => !self@.transactions.contains_key(id) && e
                    == LedgerError::MissingTransaction(id),
            },
    {
        match self.transaction_table.get(&id) {
            Some(t) => Ok(t),
            None => Err(LedgerError::MissingTransaction(id)),
        }
    }

    /// Stores `c` as the account of its client.
    fn put_client(&mut self, c: Client)
        ensures
            final(self)@ == old(self)@.with_client(c@),
    {
        self.client_table.insert(*c.id(), c);
        proof {
            assert(self@.clients =~= old(self)@.with_client(c@).clients);
            assert(self@.transactions =~= old(self)@.transactions);
        }
    }

    /// Keeps `tx` in the history under its id.
    fn record(&mut self, tx: Transaction)
        ensures
            final(self)@ == old(self)@.recording(tx@),
    {
        self.transaction_table.insert(*tx.tx(), tx);
        proof {
            assert(self@.transactions =~= old(self)@.recording(tx@).transactions);
            assert(self@.clients =~= old(self)@.clients);
        }
    }

    /// The accounts by client id, for the final snapshot.
    pub fn finalize(&self) -> (r: HashMap<u16, Client>)
        ensures
            r@.map_values(|c: Client| c@) == self@.clients,
    {
        self.client_table.clone()
    }
}

impl Default for Ledger {
    fn default() -> (r: Self)
        ensures
            r@.clients == Map::<u16, ClientView>::empty(),
            r@.transactions == Map::<u32, TransactionView>::empty(),
            r@.wf(),
    {
        Ledger::new()
    }
}

} // verus!

verus! {

/// A deposit followed by a withdrawal of the same amount by the same client leaves the
/// client's available funds where they were before the deposit.
pub proof fn lemma_deposit_then_withdrawal(
    l: LedgerView,
    deposit: TransactionView,
    withdrawal: TransactionView,
)
    requires
        l.wf(),
        deposit.tx_type == TransactionType::Deposit,
        withdrawal.tx_type == TransactionType::Withdrawal,
        withdrawal.client == deposit.client,
        deposit.amount.is_some(),
        withdrawal.amount == deposit.amount,
        l.fits(deposit),
        l.step(deposit).1 is Ok,
    ensures
        l.step(deposit).0.step(withdrawal).1 is Ok,
        l.step(deposit).0.step(withdrawal).0.clients[deposit.client].available == l.client_or_fresh(
            deposit.client,
        ).available,
{
}

/// A dispute of a recorded deposit moves exactly that deposit's amount from the
/// disputing client's available funds to its held funds and leaves its total, the other
/// accounts and the history unchanged; it succeeds exactly when a non-negative amount is
/// covered by the available funds.
pub proof fn lemma_dispute_holds_deposit(l: LedgerView, dispute: TransactionView, amount: i64)
    requires
        l.wf(),
        dispute.tx_type == TransactionType::Dispute,
        l.referenced_deposit(dispute.tx) == Some(amount),
        l.clients.contains_key(dispute.client),
        l.fits(dispute),
    ensures
        ({
            let (after, r) = l.step(dispute);
            let before = l.clients[dispute.client];
            let now = after.clients[dispute.client];
            &&& amount >= 0 ==> (r is Ok <==> amount <= before.available)
            &&& r is Ok ==> {
                &&& now.available == before.available - amount
                &&& now.held == before.held + amount
                &&& now.total() == before.total()
                &&& now.locked == before.locked
                &&& now.id == before.id
                &&& after.transactions == l.transactions
                &&& after.clients == l.clients.insert(dispute.client, now)
            }
        }),
{
}

/// A resolve after a successful dispute of the same deposit gives the client back the
/// account it had before the dispute (the same balances, total and lock state) and
/// leaves the other accounts and the history as they were.
pub proof fn lemma_resolve_after_dispute(
    l: LedgerView,
    dispute: TransactionView,
    resolve: TransactionView,
)
    requires
        l.wf(),
        dispute.tx_type == TransactionType::Dispute,
        resolve.tx_type == TransactionType::Resolve,
        resolve.client == dispute.client,
        resolve.tx == dispute.tx,
        l.referenced_deposit(dispute.tx) is Some,
        l.fits(dispute),
        l.step(dispute).1 is Ok,
    ensures
        ({
            let (after, r) = l.step(dispute).0.step(resolve);
            &&& r is Ok
            &&& after.clients =~= l.clients
            &&& after.transactions == l.transactions
            &&& after.clients[resolve.client] == l.clients[resolve.client]
            &&& after.clients[resolve.client].total() == l.clients[resolve.client].total()
            &&& !l.clients[resolve.client].locked ==> !after.clients[resolve.client].locked
        }),
{
}

/// A chargeback after a successful dispute of a deposit of a non-negative amount removes
/// that amount from the held funds, not the available ones, lowers the total by it and
/// locks the account; the other accounts and the history are left as they were.
pub proof fn lemma_chargeback_after_dispute(
    l: LedgerView,
    dispute: TransactionView,
    chargeback: TransactionView,
    amount: i64,
)
    requires
        l.wf(),
        dispute.tx_type == TransactionType::Dispute,
        chargeback.tx_type == TransactionType::Chargeback,
        chargeback.client == dispute.client,
        chargeback.tx == dispute.tx,
        l.referenced_deposit(dispute.tx) == Some(amount),
        amount >= 0,
        l.fits(dispute),
        l.step(dispute).1 is Ok,
    ensures
        ({
            let (after, r) = l.step(dispute).0.step(chargeback);
            let before = l.clients[chargeback.client];
            let now = after.clients[chargeback.client];
            &&& r is Ok
            &&& now.held == before.held
            &&& now.available == before.available - amount
            &&& now.total() == before.total() - amount
            &&& now.locked
            &&& after.transactions == l.transactions
            &&& after.clients == l.clients.insert(chargeback.client, now)
        }),
{
}

/// A dispute of a transaction id that is not in the history changes nothing and succeeds.
pub proof fn lemma_dispute_of_unknown_is_noop(l: LedgerView, dispute: TransactionView)
    requires
        dispute.tx_type == TransactionType::Dispute,
        !l.transactions.contains_key(dispute.tx),
    ensures
        l.step(dispute) == (l, Ok::<(), LedgerError>(())),
{
}

/// A resolve or a chargeback of a transaction id that is not in the history fails with
/// `MissingTransaction` and changes nothing.
pub proof fn lemma_settlement_of_unknown_fails(l: LedgerView, tx: TransactionView)
    requires
        tx.tx_type == TransactionType::Resolve || tx.tx_type == TransactionType::Chargeback,
        !l.transactions.contains_key(tx.tx),
    ensures
        l.step(tx) == (l, Err::<(), LedgerError>(LedgerError::MissingTransaction(tx.tx))),
{
}

/// A withdrawal of more than the client's available funds fails with
/// `InsufficientFunds` and changes nothing.
pub proof fn lemma_overdraft_fails(l: LedgerView, withdrawal: TransactionView)
    requires
        l.wf(),
        withdrawal.tx_type == TransactionType::Withdrawal,
        withdrawal.amount.is_some(),
        l.clients.contains_key(withdrawal.client),
        withdrawal.amount.unwrap() > l.clients[withdrawal.client].available,
    ensures
        l.step(withdrawal) == (l, Err::<(), LedgerError>(
            LedgerError::Funds(ClientError::InsufficientFunds),
        )),
{
}

/// A dispute of a recorded withdrawal changes nothing and succeeds.
pub proof fn lemma_dispute_of_withdrawal_is_noop(l: LedgerView, dispute: TransactionView)
    requires
        dispute.tx_type == TransactionType::Dispute,
        l.transactions.contains_key(dispute.tx),
        l.transactions[dispute.tx].tx_type == TransactionType::Withdrawal,
    ensures
        l.step(dispute) == (l, Ok::<(), LedgerError>(())),
{
}

} // verus!

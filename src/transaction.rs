use vstd::prelude::*;

verus! {

/// The five kinds of inbound transaction.
#[derive(Debug, Clone, Copy, PartialEq, Eq, Structural)]
pub enum TransactionType {
    Deposit,
    Withdrawal,
    Dispute,
    Resolve,
    Chargeback,
}

/// One inbound transaction. Deposits and withdrawals carry an amount; disputes, resolves
/// and chargebacks refer to an earlier deposit or withdrawal by its `tx` and carry none.
/// Two transactions are equal when they have the same `tx`.
#[derive(Debug, Clone, Copy, Eq)]
pub struct Transaction {
    tx_type: TransactionType,
    client: u16,
    amount: Option<i64>,
    tx: u32,
}

/// The abstract content of a transaction.
pub struct TransactionView {
    pub tx_type: TransactionType,
    pub client: u16,
    pub tx: u32,
    pub amount: Option<i64>,
}

impl TransactionView {
    /// Whether the transaction is of a kind that later transactions can refer to.
    pub open spec fn is_referable(self) -> bool {
        self.tx_type == TransactionType::Deposit || self.tx_type == TransactionType::Withdrawal
    }

    /// Deposits and withdrawals carry an amount.
    pub open spec fn well_formed(self) -> bool {
        self.is_referable() ==> self.amount.is_some()
    }
}

impl View for Transaction {
    type V = TransactionView;

    closed spec fn view(&self) -> TransactionView {
        TransactionView {
            tx_type: self.tx_type,
            client: self.client,
            tx: self.tx,
            amount: self.amount,
        }
    }
}

impl PartialEq for Transaction {
    fn eq(&self, o: &Transaction) -> (r: bool) {
        self.tx == o.tx
    }
}

impl vstd::std_specs::cmp::PartialEqSpecImpl for Transaction {
    open spec fn obeys_eq_spec() -> bool {
        true
    }

    open spec fn eq_spec(&self, o: &Transaction) -> bool {
        self@.tx == o@.tx
    }
}

impl Transaction {
    pub fn from(tx_type: TransactionType, client: u16, tx: u32, amount: Option<i64>) -> (r: Self)
        ensures
            r@ == (TransactionView { tx_type, client, tx, amount }),
    {
        Transaction { tx_type, client, amount, tx }
    }

    pub fn amount(&self) -> (r: Option<i64>)
        ensures
            r == self@.amount,
    {
        self.amount
    }

    pub fn tx_type(&self) -> (r: &TransactionType)
        ensures
            *r == self@.tx_type,
    {
        &self.tx_type
    }

    pub fn client(&self) -> (r: &u16)
        ensures
            *r == self@.client,
    {
        &self.client
    }

    pub fn tx(&self) -> (r: &u32)
        ensures
            *r == self@.tx,
    {
        &self.tx
    }
}

} // verus!

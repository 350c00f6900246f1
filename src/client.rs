use vstd::prelude::*;

verus! {

/// Amounts are fixed-point numbers counted in ten-thousandths of a currency unit.
pub const SCALE: i64 = 10000;

/// Why a movement of funds was refused.
#[derive(Debug, Clone, Copy, PartialEq, Eq, Structural)]
pub enum ClientError {
    /// The movement would take more than the source balance holds.
    InsufficientFunds,
    /// A chargeback was asked for with a negative amount.
    IncorrectSign,
}

impl ClientError {
    /// A short human-readable description of the error.
    pub fn message(&self) -> (r: &'static str)
        ensures
            *self == ClientError::InsufficientFunds ==> r@ == "Insufficient funds"@,
            *self == ClientError::IncorrectSign ==> r@ == "Incorrect sign"@,
    {
        match self {
            ClientError::InsufficientFunds => "Insufficient funds",
            ClientError::IncorrectSign => "Incorrect sign",
        }
    }
}

/// The balance state of one client account.
#[derive(Debug, Clone, Copy, PartialEq, Eq, Structural)]
pub struct Client {
    id: u16,
    available: i64,
    held: i64,
    locked: bool,
}

/// The abstract state of an account: what the balance operations are specified over.
pub struct ClientView {
    pub id: u16,
    pub available: i64,
    pub held: i64,
    pub locked: bool,
}

impl ClientView {
    /// A fresh account: nothing available, nothing held, unlocked.
    pub open spec fn fresh(id: u16) -> ClientView {
        ClientView { id, available: 0, held: 0, locked: false }
    }

    /// The authoritative balance, derived from the two stored ones.
    pub open spec fn total(self) -> int {
        self.available + self.held
    }

    /// A deposit of `amount` keeps `available` within `i64`.
    pub open spec fn deposit_fits(self, amount: int) -> bool {
        self.available + amount <= i64::MAX
    }

    /// A hold of `amount` keeps both balances within `i64`.
    pub open spec fn hold_fits(self, amount: int) -> bool {
        self.held + amount <= i64::MAX && self.available - amount <= i64::MAX
    }

    /// The outcome of a deposit; a negative amount is a withdrawal of its magnitude.
    pub open spec fn deposited(self, amount: int) -> Result<ClientView, ClientError> {
        if amount < 0 && -amount > self.available {
            Err(ClientError::InsufficientFunds)
        } else {
            Ok(ClientView { available: (self.available + amount) as i64, ..self })
        }
    }

    /// The outcome of a hold; a negative amount releases its magnitude from `held`.
    pub open spec fn holding(self, amount: int) -> Result<ClientView, ClientError> {
        if amount < 0 && -amount > self.held {
            Err(ClientError::InsufficientFunds)
        } else if amount >= 0 && amount > self.available {
            Err(ClientError::InsufficientFunds)
        } else {
            Ok(
                ClientView {
                    available: (self.available - amount) as i64,
                    held: (self.held + amount) as i64,
                    ..self
                },
            )
        }
    }

    /// The outcome of a chargeback: held funds are removed and the account is locked.
    pub open spec fn charged_back(self, amount: int) -> Result<ClientView, ClientError> {
        if amount < 0 {
            Err(ClientError::IncorrectSign)
        } else if amount > self.held {
            Err(ClientError::InsufficientFunds)
        } else {
            Ok(ClientView { held: (self.held - amount) as i64, locked: true, ..self })
        }
    }
}

/// Relates a balance operation's result and the account after it to the specified outcome:
/// on failure the account is left as it was.
pub open spec fn outcome(
    before: ClientView,
    after: ClientView,
    r: Result<(), ClientError>,
    expected: Result<ClientView, ClientError>,
) -> bool {
    match expected {
        Ok(v) => r == Ok::<(), ClientError>(()) && after == v,
        Err(e) => r == Err::<(), ClientError>(e) && after == before,
    }
}

impl View for Client {
    type V = ClientView;

    closed spec fn view(&self) -> ClientView {
        ClientView {
            id: self.id,
            available: self.available,
            held: self.held,
            locked: self.locked,
        }
    }
}

impl Client {
    /// An account with the given balances and lock state.
    pub fn from(id: u16, available: i64, held: i64, locked: bool) -> (r: Self)
        ensures
            r@ == (ClientView { id, available, held, locked }),
    {
        Client { id, available, held, locked }
    }

    /// A fresh account for `id`.
    pub fn from_id(id: u16) -> (r: Self)
        ensures
            r@ == ClientView::fresh(id),
    {
        Client { id, available: 0, held: 0, locked: false }
    }

    /// Adds `amount` to the available funds; a negative amount withdraws its magnitude,
    /// which fails when it exceeds the available funds.
    pub fn deposit(&mut self, amount: i64) -> (r: Result<(), ClientError>)
        requires
            old(self)@.deposit_fits(amount as int),
        ensures
            outcome(old(self)@, final(self)@, r, old(self)@.deposited(amount as int)),
    {
        if amount < 0 && (self.available < 0 || self.available + amount < 0) {
            return Err(ClientError::InsufficientFunds);
        }
        self.available = self.available + amount;
        Ok(())
    }

    /// Moves `amount` from available to held; a negative amount moves its magnitude
    /// back from held to available. Fails when the source balance is too small.
    pub fn hold(&mut self, amount: i64) -> (r: Result<(), ClientError>)
        requires
            old(self)@.hold_fits(amount as int),
        ensures
            outcome(old(self)@, final(self)@, r, old(self)@.holding(amount as int)),
    {
        if amount < 0 {
            if self.held < 0 || self.held + amount < 0 {
                return Err(ClientError::InsufficientFunds);
            }
        } else if amount > self.available {
            return Err(ClientError::InsufficientFunds);
        }
        self.held = self.held + amount;
        self.available = self.available - amount;
        Ok(())
    }

    /// Removes `amount` from the held funds and locks the account.
    pub fn chargeback(&mut self, amount: i64) -> (r: Result<(), ClientError>)
        ensures
            outcome(old(self)@, final(self)@, r, old(self)@.charged_back(amount as int)),
    {
        if amount < 0 {
            return Err(ClientError::IncorrectSign);
        }
        if amount > self.held {
            return Err(ClientError::InsufficientFunds);
        }
        self.held = self.held - amount;
        self.locked = true;
        Ok(())
    }

    pub fn set_locked(&mut self, locked: bool)
        ensures
            final(self)@ == (ClientView { locked, ..old(self)@ }),
    {
        self.locked = locked;
    }

    pub fn locked(&self) -> (r: bool)
        ensures
            r == self@.locked,
    {
        self.locked
    }

    /// The authoritative balance: available plus held, computed exactly.
    pub fn total(&self) -> (r: i128)
        ensures
            r == self@.total(),
    {
        self.available as i128 + self.held as i128
    }

    pub fn available(&self) -> (r: i64)
        ensures
            r == self@.available,
    {
        self.available
    }

    pub fn held(&self) -> (r: i64)
        ensures
            r == self@.held,
    {
        self.held
    }

    pub fn id(&self) -> (r: &u16)
        ensures
            *r == self@.id,
    {
        &self.id
    }
}

} // verus!

verus! {

/// A deposit of a non-negative amount into an account with no negative available funds,
/// followed by a withdrawal of the same amount, succeeds and gives back the account as
/// it was.
pub proof fn lemma_deposit_then_withdrawal(c: ClientView, amount: i64)
    requires
        amount >= 0,
        c.available >= 0,
        c.deposit_fits(amount as int),
    ensures
        c.deposited(amount as int) is Ok,
        c.deposited(amount as int)->Ok_0.deposited(-amount) == Ok::<ClientView, ClientError>(c),
{
}

/// A deposit fails exactly when it is a withdrawal of more than the available funds, and
/// then with `InsufficientFunds`.
pub proof fn lemma_overdraft(c: ClientView, amount: int)
    ensures
        c.deposited(amount) is Err <==> (amount < 0 && -amount > c.available),
        c.deposited(amount) is Err ==> c.deposited(amount) == Err::<ClientView, ClientError>(
            ClientError::InsufficientFunds,
        ),
{
}

/// A hold of a non-negative amount covered by the available funds succeeds and moves
/// exactly that amount from available to held, keeping the total, the id and the lock.
pub proof fn lemma_hold_moves_funds(c: ClientView, amount: int)
    requires
        0 <= amount <= c.available,
        c.hold_fits(amount),
    ensures
        c.holding(amount) is Ok,
        ({
            let d = c.holding(amount)->Ok_0;
            &&& d.available == c.available - amount
            &&& d.held == c.held + amount
            &&& d.total() == c.total()
            &&& d.id == c.id
            &&& d.locked == c.locked
        }),
{
}

/// A release of a positive amount covered by the held funds succeeds and moves exactly that
/// amount from held back to available, keeping the total, the id and the lock.
pub proof fn lemma_release_moves_funds(c: ClientView, amount: int)
    requires
        0 < amount <= c.held,
        c.hold_fits(-amount),
    ensures
        c.holding(-amount) is Ok,
        ({
            let d = c.holding(-amount)->Ok_0;
            &&& d.available == c.available + amount
            &&& d.held == c.held - amount
            &&& d.total() == c.total()
            &&& d.id == c.id
            &&& d.locked == c.locked
        }),
{
}

/// A hold followed by a release of the same amount, on an account with no negative held
/// funds, succeeds and gives back the account as it was.
pub proof fn lemma_hold_then_release(c: ClientView, amount: i64)
    requires
        0 <= amount <= c.available,
        c.held >= 0,
        c.hold_fits(amount as int),
    ensures
        c.holding(amount as int) is Ok,
        c.holding(amount as int)->Ok_0.holding(-amount) == Ok::<ClientView, ClientError>(c),
{
}

/// A chargeback of a non-negative amount covered by the held funds succeeds, removes
/// that amount from held, leaves available alone, lowers the total by it and locks.
pub proof fn lemma_chargeback_removes_held(c: ClientView, amount: int)
    requires
        0 <= amount <= c.held,
    ensures
        c.charged_back(amount) is Ok,
        ({
            let d = c.charged_back(amount)->Ok_0;
            &&& d.held == c.held - amount
            &&& d.available == c.available
            &&& d.total() == c.total() - amount
            &&& d.id == c.id
            &&& d.locked
        }),
{
}

} // verus!

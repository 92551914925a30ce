//! The escrow ledger: accounts, the escrow records in custody, and the one
//! guarded transition through which every change to a record goes.

use vstd::prelude::*;
use crate::amount::Amount;
use crate::escrow::{
    due_action, next_state, scheduled_action, step, Address, Escrow, EscrowAction, EscrowMode,
    EscrowState, EscrowTerms, EscrowView, OrderId, TransitionError,
};
use crate::vault::{
    has_receipt, one_receipt_per_order, Digest, Receipt, ReceiptView, Vault, VaultError,
};

verus! {

/// An account: who holds it and how much is on it.
#[derive(Debug, Clone, PartialEq, Eq)]
pub struct Account {
    pub address: Address,
    pub balance: Amount,
}

/// The view of an [`Account`], with the balance as a number.
pub struct AccountView {
    pub address: Address,
    pub balance: nat,
}

impl View for Account {
    type V = AccountView;

    open spec fn view(&self) -> AccountView {
        AccountView { address: self.address, balance: self.balance@ }
    }
}

/// An escrow in custody: the escrow itself, its windows, and what the
/// ledger holds for either side.
#[derive(Debug, Clone, PartialEq, Eq)]
pub struct EscrowRecord {
    pub escrow: Escrow,
    pub terms: EscrowTerms,
    /// When both sides had committed, in seconds; zero before that.
    pub committed_at: u64,
    /// What the ledger holds of the buyer's funds.
    pub buyer_held: Amount,
    /// What the ledger holds of the seller's funds.
    pub seller_held: Amount,
}

/// The view of an [`EscrowRecord`], with amounts as numbers.
pub struct RecordView {
    pub escrow: EscrowView,
    pub terms: EscrowTerms,
    pub committed_at: u64,
    pub buyer_held: nat,
    pub seller_held: nat,
}

impl View for EscrowRecord {
    type V = RecordView;

    open spec fn view(&self) -> RecordView {
        RecordView {
            escrow: self.escrow@,
            terms: self.terms,
            committed_at: self.committed_at,
            buyer_held: self.buyer_held@,
            seller_held: self.seller_held@,
        }
    }
}

impl EscrowRecord {
    /// A copy of the record.
    pub fn copy(&self) -> (r: Self)
        ensures
            r@ == self@,
    {
        EscrowRecord {
            escrow: self.escrow.copy(),
            terms: self.terms,
            committed_at: self.committed_at,
            buyer_held: self.buyer_held.copy(),
            seller_held: self.seller_held.copy(),
        }
    }
}

/// Why the ledger turned a call down. A call that fails changes nothing.
#[derive(Debug, Clone, Copy, PartialEq, Eq, Structural)]
pub enum LedgerError {
    /// No account has this address.
    UnknownAccount(Address),
    /// An account with this address is open already.
    AccountExists(Address),
    /// No escrow has this identity.
    UnknownEscrow(OrderId),
    /// The action belongs to a party of the escrow, and the one who tries
    /// it is not that party.
    WrongActor(Address),
    /// The escrow's state does not admit the action.
    Transition(TransitionError),
    /// The account cannot cover the deposit.
    InsufficientFunds(Address),
}

/// What a transition led to: the new state and, where that is `Settled`,
/// the identifier of the escrow's receipt.
#[derive(Debug, Clone, Copy, PartialEq, Eq, Structural)]
pub struct Transition {
    pub state: EscrowState,
    pub receipt: Option<u64>,
}

/// The identity of the escrow created as number `index`.
pub open spec fn order_id_at(index: int) -> OrderId {
    OrderId { high: 0, low: index as u128 }
}

/// Whether some account in `accounts` has the address.
pub open spec fn has_account(accounts: Seq<AccountView>, address: Address) -> bool {
    exists|i: int| 0 <= i < accounts.len() && (#[trigger] accounts[i]).address == address
}

/// Whether no two accounts share an address.
pub open spec fn distinct_addresses(accounts: Seq<AccountView>) -> bool {
    forall|i: int, j: int|
        0 <= i < j < accounts.len() ==> (#[trigger] accounts[i]).address != (
        #[trigger] accounts[j]).address
}

/// The position of the account with the address.
pub open spec fn account_index(accounts: Seq<AccountView>, address: Address) -> int {
    choose|i: int| 0 <= i < accounts.len() && (#[trigger] accounts[i]).address == address
}

/// The balance of the account with the address.
pub open spec fn balance(accounts: Seq<AccountView>, address: Address) -> nat
    recommends
        has_account(accounts, address),
{
    accounts[account_index(accounts, address)].balance
}

/// The accounts after `amount` has been added to one of them.
pub open spec fn credited(accounts: Seq<AccountView>, address: Address, amount: nat) -> Seq<AccountView>
    recommends
        has_account(accounts, address),
{
    accounts.update(
        account_index(accounts, address),
        AccountView { address, balance: balance(accounts, address) + amount },
    )
}

/// The accounts after `amount` has been taken from one of them.
pub open spec fn debited(accounts: Seq<AccountView>, address: Address, amount: nat) -> Seq<AccountView>
    recommends
        has_account(accounts, address),
        balance(accounts, address) >= amount,
{
    accounts.update(
        account_index(accounts, address),
        AccountView { address, balance: (balance(accounts, address) - amount) as nat },
    )
}

/// All the money on the accounts.
pub open spec fn total_balance(accounts: Seq<AccountView>) -> nat
    decreases accounts.len(),
{
    if accounts.len() == 0 {
        0
    } else {
        total_balance(accounts.drop_last()) + accounts.last().balance as nat
    }
}

/// All the money held for escrows.
pub open spec fn total_held(records: Seq<RecordView>) -> nat
    decreases records.len(),
{
    if records.len() == 0 {
        0
    } else {
        total_held(records.drop_last()) + records.last().buyer_held as nat
            + records.last().seller_held as nat
    }
}

impl EscrowAction {
    /// Actions that pay the held funds out to the other side.
    pub open spec fn pays_out(self) -> bool {
        self == EscrowAction::Settle || self == EscrowAction::ResolveSettle
    }

    /// Actions that hand the held funds back to their depositors.
    pub open spec fn refunds(self) -> bool {
        self == EscrowAction::Cancel || self == EscrowAction::Expire || self
            == EscrowAction::ResolveCancel
    }
}

impl EscrowView {
    /// Whether `actor` is the party that an action belongs to: commitments
    /// and claims belong to one side, disputes and cancellations to either.
    pub open spec fn admits(self, actor: Address, action: EscrowAction) -> bool {
        match action {
            EscrowAction::BuyerCommit | EscrowAction::BuyerClaim => actor == self.buyer,
            EscrowAction::SellerCommit => actor == self.seller,
            EscrowAction::Dispute | EscrowAction::Cancel => actor == self.buyer || actor
                == self.seller,
            _ => true,
        }
    }
}

impl RecordView {
    /// What a record's state says about the funds held for it: a deposit is
    /// held from its side's commitment until payout or refund.
    pub open spec fn wf(self) -> bool {
        let state = self.escrow.state;
        &&& (self.buyer_held == 0 || self.buyer_held == self.escrow.buyer_amount)
        &&& (self.seller_held == 0 || self.seller_held == self.escrow.seller_amount)
        &&& (state == EscrowState::Created || state == EscrowState::SellerCommitted
            || state.is_terminal() ==> self.buyer_held == 0)
        &&& (state == EscrowState::Created || state == EscrowState::BuyerCommitted
            || state.is_terminal() ==> self.seller_held == 0)
        &&& (state == EscrowState::BuyerCommitted || state == EscrowState::BothCommitted || state
            == EscrowState::SellerClaimed || state == EscrowState::BuyerClaimed || state
            == EscrowState::BothClaimed ==> self.buyer_held == self.escrow.buyer_amount)
        &&& (state == EscrowState::SellerCommitted || state == EscrowState::BothCommitted || state
            == EscrowState::SellerClaimed || state == EscrowState::BuyerClaimed || state
            == EscrowState::BothClaimed ==> self.seller_held == self.escrow.seller_amount)
    }

    /// The record after an action that its state admits and that leads to
    /// `next`. Identity, parties, amounts and windows stay as they are.
    pub open spec fn after(self, action: EscrowAction, next: EscrowState, now: u64) -> RecordView {
        let released = action.pays_out() || action.refunds();
        RecordView {
            escrow: self.escrow.with_state(next),
            terms: self.terms,
            committed_at: if next == EscrowState::BothCommitted {
                now
            } else {
                self.committed_at
            },
            buyer_held: if action == EscrowAction::BuyerCommit {
                self.escrow.buyer_amount
            } else if released {
                0
            } else {
                self.buyer_held
            },
            seller_held: if action == EscrowAction::SellerCommit {
                self.escrow.seller_amount
            } else if released {
                0
            } else {
                self.seller_held
            },
        }
    }

    /// The receipt that the settlement of this record mints.
    pub open spec fn receipt(self, proof_hash: Digest, now: u64) -> ReceiptView {
        ReceiptView {
            order_id: self.escrow.order_id,
            buyer: self.escrow.buyer,
            seller: self.escrow.seller,
            amount: self.buyer_held,
            proof_hash,
            timestamp: now,
        }
    }
}

/// The accounts after the funds that an action moves have moved: a
/// commitment takes the deposit from its side's account, a payout adds the
/// buyer's deposit to the seller's account and the seller's to the buyer's,
/// a refund gives each deposit back. A deposit that the account cannot
/// cover fails.
pub open spec fn funds_moved(accounts: Seq<AccountView>, record: RecordView, action: EscrowAction)
    -> Result<Seq<AccountView>, LedgerError> {
    let escrow = record.escrow;
    if action == EscrowAction::BuyerCommit {
        if balance(accounts, escrow.buyer) < escrow.buyer_amount {
            Err(LedgerError::InsufficientFunds(escrow.buyer))
        } else {
            Ok(debited(accounts, escrow.buyer, escrow.buyer_amount))
        }
    } else if action == EscrowAction::SellerCommit {
        if balance(accounts, escrow.seller) < escrow.seller_amount {
            Err(LedgerError::InsufficientFunds(escrow.seller))
        } else {
            Ok(debited(accounts, escrow.seller, escrow.seller_amount))
        }
    } else if action.pays_out() {
        Ok(
            credited(
                credited(accounts, escrow.seller, record.buyer_held),
                escrow.buyer,
                record.seller_held,
            ),
        )
    } else if action.refunds() {
        Ok(
            credited(
                credited(accounts, escrow.buyer, record.buyer_held),
                escrow.seller,
                record.seller_held,
            ),
        )
    } else {
        Ok(accounts)
    }
}

/// The balances of the accounts, by address.
pub open spec fn balances_of(accounts: Seq<AccountView>) -> Map<Address, int> {
    Map::new(
        |address: Address| has_account(accounts, address),
        |address: Address| balance(accounts, address) as int,
    )
}

/// The balances after the funds that an action moves have moved, where
/// every deposit is covered: [`funds_moved`], told by address.
pub open spec fn balances_moved(
    balances: Map<Address, int>,
    record: RecordView,
    action: EscrowAction,
) -> Map<Address, int> {
    let escrow = record.escrow;
    if action == EscrowAction::BuyerCommit {
        balances.insert(escrow.buyer, balances[escrow.buyer] - escrow.buyer_amount)
    } else if action == EscrowAction::SellerCommit {
        balances.insert(escrow.seller, balances[escrow.seller] - escrow.seller_amount)
    } else if action.pays_out() {
        let paid = balances.insert(escrow.seller, balances[escrow.seller] + record.buyer_held);
        paid.insert(escrow.buyer, paid[escrow.buyer] + record.seller_held)
    } else if action.refunds() {
        let paid = balances.insert(escrow.buyer, balances[escrow.buyer] + record.buyer_held);
        paid.insert(escrow.seller, paid[escrow.seller] + record.seller_held)
    } else {
        balances
    }
}

/// The record of a fresh escrow: nothing committed, nothing held. With a
/// counter-escrow the seller deposits as much as the buyer and the escrow is
/// a swap; without one the seller deposits nothing and it is a purchase.
pub open spec fn new_record(
    id: OrderId,
    buyer: Address,
    seller: Address,
    amount: nat,
    terms: EscrowTerms,
    counter_escrow_needed: bool,
    now: u64,
) -> RecordView {
    RecordView {
        escrow: EscrowView {
            order_id: id,
            buyer,
            seller,
            buyer_amount: amount,
            seller_amount: if counter_escrow_needed {
                amount
            } else {
                0
            },
            mode: if counter_escrow_needed {
                EscrowMode::Swap
            } else {
                EscrowMode::Purchase
            },
            state: EscrowState::Created,
            created_at: now,
        },
        terms,
        committed_at: 0,
        buyer_held: 0,
        seller_held: 0,
    }
}

/// The position of the receipt that belongs to an escrow.
pub open spec fn receipt_index(receipts: Seq<ReceiptView>, order_id: OrderId) -> int {
    choose|k: int| 0 <= k < receipts.len() && (#[trigger] receipts[k]).order_id == order_id
}

/// The mathematical picture of a ledger.
pub struct LedgerView {
    pub accounts: Seq<AccountView>,
    pub escrows: Seq<RecordView>,
    pub receipts: Seq<ReceiptView>,
}

impl LedgerView {
    /// Whether an escrow with this identity exists.
    pub open spec fn has_escrow(self, id: OrderId) -> bool {
        id.high == 0 && id.low < self.escrows.len()
    }

    /// The record of an escrow.
    pub open spec fn record(self, id: OrderId) -> RecordView
        recommends
            self.has_escrow(id),
    {
        self.escrows[id.low as int]
    }

    /// All the money that the ledger knows of: on accounts and in custody.
    pub open spec fn supply(self) -> nat {
        total_balance(self.accounts) + total_held(self.escrows)
    }

    /// The balances of the accounts, by address.
    pub open spec fn balances(self) -> Map<Address, int> {
        balances_of(self.accounts)
    }

    /// What a step that succeeded means, spelled out: the balances have
    /// moved as [`balances_moved`] tells, the supply is what it was, a
    /// settled escrow's receipt is in the store under the identifier that
    /// the transition names, and a receipt that was minted is the last one.
    pub open spec fn led_to(
        self,
        id: OrderId,
        action: EscrowAction,
        proof_hash: Digest,
        now: u64,
        next: LedgerView,
        transition: Transition,
    ) -> bool {
        let record = self.record(id);
        &&& next.balances() == balances_moved(self.balances(), record, action)
        &&& next.supply() == self.supply()
        &&& next.record(id).escrow.state == transition.state
        &&& transition.state == EscrowState::Settled ==> (transition.receipt matches Some(found)
            && found < next.receipts.len() && next.receipts[found as int].order_id == id)
        &&& action.pays_out() && record.escrow.state != EscrowState::Settled ==> (
        transition.receipt matches Some(minted) && minted == self.receipts.len()
            && next.receipts.last() == record.receipt(proof_hash, now))
    }

    /// The ledger's invariant.
    ///
    /// Addresses are unique. An escrow's
    /// identity is its position, its held funds are what its state says,
    /// and its parties have accounts. Every receipt belongs to a settled
    /// escrow and names its parties, every settled escrow has a receipt,
    /// and no escrow has two.
    pub open spec fn wf(self) -> bool {
        &&& distinct_addresses(self.accounts)
        &&& forall|i: int|
            0 <= i < self.escrows.len() ==> {
                let record = #[trigger] self.escrows[i];
                &&& record.escrow.order_id == order_id_at(i)
                &&& record.wf()
                &&& has_account(self.accounts, record.escrow.buyer)
                &&& has_account(self.accounts, record.escrow.seller)
                &&& (record.escrow.state == EscrowState::Settled ==> has_receipt(
                    self.receipts,
                    record.escrow.order_id,
                ))
            }
        &&& one_receipt_per_order(self.receipts)
        &&& forall|k: int|
            0 <= k < self.receipts.len() ==> {
                let receipt = #[trigger] self.receipts[k];
                &&& self.has_escrow(receipt.order_id)
                &&& self.record(receipt.order_id).escrow.state == EscrowState::Settled
                &&& self.record(receipt.order_id).escrow.buyer == receipt.buyer
                &&& self.record(receipt.order_id).escrow.seller == receipt.seller
            }
    }

    /// The guarded transition, on the picture: what applying `action` to the
    /// escrow `id` at time `now` leads to.
    ///
    /// It fails, and nothing changes, where no such escrow exists, where the
    /// escrow's state does not admit the action, or where a deposit cannot
    /// be covered. Otherwise the funds move, the record takes its next
    /// state, and a payout that has not happened before mints the escrow's
    /// receipt. Settling a settled escrow moves nothing, mints nothing and
    /// reports the receipt that is there.
    pub open spec fn step(self, id: OrderId, action: EscrowAction, proof_hash: Digest, now: u64)
        -> Result<(LedgerView, Transition), LedgerError> {
        if !self.has_escrow(id) {
            Err(LedgerError::UnknownEscrow(id))
        } else {
            let record = self.record(id);
            match next_state(record.escrow.mode, record.escrow.state, action) {
                None => Err(
                    LedgerError::Transition(
                        TransitionError { from: record.escrow.state, action },
                    ),
                ),
                Some(next) => match funds_moved(self.accounts, record, action) {
                    Err(e) => Err(e),
                    Ok(accounts) => {
                        let mints = action.pays_out() && record.escrow.state
                            != EscrowState::Settled;
                        let receipts = if mints {
                            self.receipts.push(record.receipt(proof_hash, now))
                        } else {
                            self.receipts
                        };
                        Ok(
                            (
                                LedgerView {
                                    accounts,
                                    escrows: self.escrows.update(
                                        id.low as int,
                                        record.after(action, next, now),
                                    ),
                                    receipts,
                                },
                                Transition {
                                    state: next,
                                    receipt: if next == EscrowState::Settled {
                                        Some(receipt_index(receipts, id) as u64)
                                    } else {
                                        None
                                    },
                                },
                            ),
                        )
                    },
                },
            }
        }
    }

    /// The ledger after an account has been opened.
    ///
    /// It fails where the address has an account already.
    pub open spec fn opened(self, address: Address, amount: nat) -> Result<
        LedgerView,
        LedgerError,
    > {
        if has_account(self.accounts, address) {
            Err(LedgerError::AccountExists(address))
        } else {
            Ok(
                LedgerView {
                    accounts: self.accounts.push(AccountView { address, balance: amount }),
                    ..self
                },
            )
        }
    }

    /// The ledger after money has been paid into an account.
    ///
    /// It fails where the address has no account.
    pub open spec fn deposited(self, address: Address, amount: nat) -> Result<
        LedgerView,
        LedgerError,
    > {
        if !has_account(self.accounts, address) {
            Err(LedgerError::UnknownAccount(address))
        } else {
            Ok(LedgerView { accounts: credited(self.accounts, address, amount), ..self })
        }
    }

    /// The ledger after an escrow has been created, and the new escrow's
    /// identity. It fails where the buyer or the seller has no account.
    pub open spec fn created(
        self,
        buyer: Address,
        seller: Address,
        amount: nat,
        terms: EscrowTerms,
        counter_escrow_needed: bool,
        now: u64,
    ) -> Result<(LedgerView, OrderId), LedgerError> {
        if !has_account(self.accounts, buyer) {
            Err(LedgerError::UnknownAccount(buyer))
        } else if !has_account(self.accounts, seller) {
            Err(LedgerError::UnknownAccount(seller))
        } else {
            let id = order_id_at(self.escrows.len() as int);
            Ok(
                (
                    LedgerView {
                        escrows: self.escrows.push(
                            new_record(id, buyer, seller, amount, terms, counter_escrow_needed, now),
                        ),
                        ..self
                    },
                    id,
                ),
            )
        }
    }

    /// What an action leads to that a party takes on the escrow `id`: a
    /// failure, with nothing changed, where the escrow does not exist or the
    /// action is not the actor's to take, and the guarded transition
    /// otherwise.
    pub open spec fn act(self, id: OrderId, actor: Address, action: EscrowAction, now: u64)
        -> Result<(LedgerView, Transition), LedgerError> {
        if !self.has_escrow(id) {
            Err(LedgerError::UnknownEscrow(id))
        } else if !self.record(id).escrow.admits(actor, action) {
            Err(LedgerError::WrongActor(actor))
        } else {
            self.step(id, action, Digest { high: 0, low: 0 }, now)
        }
    }

    /// What the clock brings about for the escrow `id` at time `now`: the
    /// action that is due, applied through the guarded transition, or
    /// nothing where none is due.
    pub open spec fn tick(self, id: OrderId, now: u64) -> Result<
        (LedgerView, Option<Transition>),
        LedgerError,
    > {
        if !self.has_escrow(id) {
            Err(LedgerError::UnknownEscrow(id))
        } else {
            let record = self.record(id);
            match due_action(record.escrow, record.terms, record.committed_at, now) {
                None => Ok((self, None)),
                Some(action) => match self.step(id, action, Digest { high: 0, low: 0 }, now) {
                    Ok((next, transition)) => Ok((next, Some(transition))),
                    Err(e) => Err(e),
                },
            }
        }
    }

    /// The ledger after settlement of the escrow `id` has been attempted
    /// once for each of `attempts`, in their order. An attempt brings its
    /// digest and its time; one that fails leaves the ledger as it is.
    pub open spec fn settled_by(self, id: OrderId, attempts: Seq<(Digest, u64)>) -> LedgerView
        decreases attempts.len(),
    {
        if attempts.len() == 0 {
            self
        } else {
            let before = self.settled_by(id, attempts.drop_last());
            match before.step(id, EscrowAction::Settle, attempts.last().0, attempts.last().1) {
                Ok((next, _)) => next,
                Err(_) => before,
            }
        }
    }

    /// The ledger after the clock has acted, at time `now`, on each of the
    /// first `upto` escrows in turn.
    pub open spec fn swept(self, upto: nat, now: u64) -> LedgerView
        decreases upto,
    {
        if upto == 0 {
            self
        } else {
            let before = self.swept((upto - 1) as nat, now);
            match before.tick(order_id_at(upto - 1), now) {
                Ok((next, _)) => next,
                Err(_) => before,
            }
        }
    }
}


/// Whether a call did what the guarded transition makes of `action`: the
/// ledger after it and its result are those of [`LedgerView::step`], with
/// what that means spelled out by [`LedgerView::led_to`], and a call that
/// failed changed nothing.
pub open spec fn stepped(
    pre: LedgerView,
    post: LedgerView,
    id: OrderId,
    action: EscrowAction,
    proof_hash: Digest,
    now: u64,
    result: Result<Transition, LedgerError>,
) -> bool {
    match pre.step(id, action, proof_hash, now) {
        Ok((next, transition)) => post == next && result == Ok::<Transition, LedgerError>(
            transition,
        ) && pre.led_to(id, action, proof_hash, now, next, transition),
        Err(e) => post == pre && result == Err::<Transition, LedgerError>(e),
    }
}

/// Whether a call did what [`LedgerView::act`] makes of an action that a
/// party takes, with what success means spelled out by
/// [`LedgerView::led_to`]; a call that failed changed nothing.
pub open spec fn acted(
    pre: LedgerView,
    post: LedgerView,
    id: OrderId,
    actor: Address,
    action: EscrowAction,
    now: u64,
    result: Result<Transition, LedgerError>,
) -> bool {
    match pre.act(id, actor, action, now) {
        Ok((next, transition)) => post == next && result == Ok::<Transition, LedgerError>(
            transition,
        ) && pre.led_to(id, action, Digest { high: 0, low: 0 }, now, next, transition),
        Err(e) => post == pre && result == Err::<Transition, LedgerError>(e),
    }
}

/// Whether two sequences of accounts name the same addresses in the same
/// places.
pub open spec fn same_addresses(before: Seq<AccountView>, after: Seq<AccountView>) -> bool {
    &&& before.len() == after.len()
    &&& forall|i: int| 0 <= i < before.len() ==> (#[trigger] before[i]).address == after[i].address
}

proof fn lemma_same_addresses(before: Seq<AccountView>, after: Seq<AccountView>)
    requires
        same_addresses(before, after),
    ensures
        distinct_addresses(before) ==> distinct_addresses(after),
        forall|address: Address| has_account(before, address) ==> has_account(after, address),
{
    if distinct_addresses(before) {
        assert forall|i: int, j: int| 0 <= i < j < after.len() implies (#[trigger] after[i]).address
            != (#[trigger] after[j]).address by {
            assert(before[i].address != before[j].address);
        }
    }
    assert forall|address: Address| has_account(before, address) implies has_account(
        after,
        address,
    ) by {
        let i = account_index(before, address);
        assert(before[i].address == address);
        assert(after[i].address == address);
    }
}

proof fn lemma_account_index(accounts: Seq<AccountView>, i: int)
    requires
        distinct_addresses(accounts),
        0 <= i < accounts.len(),
    ensures
        account_index(accounts, accounts[i].address) == i,
{
    let j = account_index(accounts, accounts[i].address);
    if j < i {
        assert(accounts[j].address != accounts[i].address);
    } else if i < j {
        assert(accounts[i].address != accounts[j].address);
    }
}

proof fn lemma_total_balance_update(accounts: Seq<AccountView>, i: int, account: AccountView)
    requires
        0 <= i < accounts.len(),
    ensures
        total_balance(accounts.update(i, account)) == total_balance(accounts)
            - accounts[i].balance + account.balance,
        accounts[i].balance <= total_balance(accounts),
    decreases accounts.len(),
{
    let updated = accounts.update(i, account);
    if i == accounts.len() - 1 {
        assert(updated.drop_last() =~= accounts.drop_last());
    } else {
        lemma_total_balance_update(accounts.drop_last(), i, account);
        assert(updated.drop_last() =~= accounts.drop_last().update(i, account));
    }
}

proof fn lemma_total_held_update(records: Seq<RecordView>, i: int, record: RecordView)
    requires
        0 <= i < records.len(),
    ensures
        total_held(records.update(i, record)) == total_held(records) - records[i].buyer_held
            - records[i].seller_held + record.buyer_held + record.seller_held,
        records[i].buyer_held + records[i].seller_held <= total_held(records),
    decreases records.len(),
{
    let updated = records.update(i, record);
    if i == records.len() - 1 {
        assert(updated.drop_last() =~= records.drop_last());
    } else {
        lemma_total_held_update(records.drop_last(), i, record);
        assert(updated.drop_last() =~= records.drop_last().update(i, record));
    }
}

proof fn lemma_receipt_index(receipts: Seq<ReceiptView>, k: int)
    requires
        one_receipt_per_order(receipts),
        0 <= k < receipts.len(),
    ensures
        receipt_index(receipts, receipts[k].order_id) == k,
{
    let j = receipt_index(receipts, receipts[k].order_id);
    if j < k {
        assert(receipts[j].order_id != receipts[k].order_id);
    } else if k < j {
        assert(receipts[k].order_id != receipts[j].order_id);
    }
}

/// Crediting an account that exists changes that account's balance and
/// nothing else.
proof fn lemma_credited(accounts: Seq<AccountView>, address: Address, amount: nat)
    requires
        distinct_addresses(accounts),
        has_account(accounts, address),
    ensures
        same_addresses(accounts, credited(accounts, address, amount)),
        distinct_addresses(credited(accounts, address, amount)),
        total_balance(credited(accounts, address, amount)) == total_balance(accounts) + amount,
        balance(credited(accounts, address, amount), address) == balance(accounts, address)
            + amount,
        forall|other: Address|
            has_account(accounts, other) ==> has_account(
                credited(accounts, address, amount),
                other,
            ),
        forall|other: Address|
            other != address && has_account(accounts, other) ==> balance(
                credited(accounts, address, amount),
                other,
            ) == balance(accounts, other),
        amount == 0 ==> credited(accounts, address, amount) == accounts,
        balances_of(credited(accounts, address, amount)) == balances_of(accounts).insert(
            address,
            balances_of(accounts)[address] + amount,
        ),
{
    let i = account_index(accounts, address);
    let after = credited(accounts, address, amount);
    lemma_total_balance_update(accounts, i, after[i]);
    lemma_same_addresses(accounts, after);
    lemma_same_addresses(after, accounts);
    lemma_account_index(after, i);
    assert(balances_of(after) =~= balances_of(accounts).insert(
        address,
        balances_of(accounts)[address] + amount,
    )) by {
        assert forall|other: Address| has_account(accounts, other) implies #[trigger] balance(
            after,
            other,
        ) == (if other == address {
            balance(accounts, address) + amount
        } else {
            balance(accounts, other)
        }) by {
            let j = account_index(accounts, other);
            assert(after[j].address == other);
            lemma_account_index(after, j);
        }
    }
    assert forall|other: Address| other != address && has_account(accounts, other) implies balance(
        after,
        other,
    ) == balance(accounts, other) by {
        let j = account_index(accounts, other);
        assert(after[j].address == other);
        lemma_account_index(after, j);
    }
    if amount == 0 {
        assert(after =~= accounts);
    }
}

/// Debiting an account that covers the amount changes that account's
/// balance and nothing else.
proof fn lemma_debited(accounts: Seq<AccountView>, address: Address, amount: nat)
    requires
        distinct_addresses(accounts),
        has_account(accounts, address),
        balance(accounts, address) >= amount,
    ensures
        same_addresses(accounts, debited(accounts, address, amount)),
        distinct_addresses(debited(accounts, address, amount)),
        total_balance(debited(accounts, address, amount)) == total_balance(accounts) - amount,
        balance(debited(accounts, address, amount), address) == balance(accounts, address)
            - amount,
        forall|other: Address|
            has_account(accounts, other) ==> has_account(
                debited(accounts, address, amount),
                other,
            ),
        forall|other: Address|
            other != address && has_account(accounts, other) ==> balance(
                debited(accounts, address, amount),
                other,
            ) == balance(accounts, other),
        balances_of(debited(accounts, address, amount)) == balances_of(accounts).insert(
            address,
            balances_of(accounts)[address] - amount,
        ),
{
    let i = account_index(accounts, address);
    let after = debited(accounts, address, amount);
    lemma_total_balance_update(accounts, i, after[i]);
    lemma_same_addresses(accounts, after);
    lemma_same_addresses(after, accounts);
    lemma_account_index(after, i);
    assert(balances_of(after) =~= balances_of(accounts).insert(
        address,
        balances_of(accounts)[address] - amount,
    )) by {
        assert forall|other: Address| has_account(accounts, other) implies #[trigger] balance(
            after,
            other,
        ) == (if other == address {
            (balance(accounts, address) - amount) as nat
        } else {
            balance(accounts, other)
        }) by {
            let j = account_index(accounts, other);
            assert(after[j].address == other);
            lemma_account_index(after, j);
        }
    }
    assert forall|other: Address| other != address && has_account(accounts, other) implies balance(
        after,
        other,
    ) == balance(accounts, other) by {
        let j = account_index(accounts, other);
        assert(after[j].address == other);
        lemma_account_index(after, j);
    }
}

/// Every transition keeps the ledger's invariant and moves money without
/// making or losing any: the supply after it is the supply before it. It
/// leaves the accounts' addresses in place and changes nothing about an
/// escrow but its state: identity, parties, amounts, mode, creation time
/// and windows stay for good.
pub proof fn law_step_keeps_invariant(
    pre: LedgerView,
    id: OrderId,
    action: EscrowAction,
    proof_hash: Digest,
    now: u64,
)
    requires
        pre.wf(),
        pre.step(id, action, proof_hash, now) is Ok,
    ensures
        ({
            let post = pre.step(id, action, proof_hash, now)->Ok_0.0;
            &&& post.wf()
            &&& post.supply() == pre.supply()
            &&& post.balances() == balances_moved(pre.balances(), pre.record(id), action)
            &&& same_addresses(pre.accounts, post.accounts)
            &&& post.escrows.len() == pre.escrows.len()
            &&& forall|i: int|
                0 <= i < pre.escrows.len() ==> (#[trigger] post.escrows[i]).escrow
                    == pre.escrows[i].escrow.with_state(post.escrows[i].escrow.state)
                    && post.escrows[i].terms == pre.escrows[i].terms
            &&& forall|i: int|
                0 <= i < pre.escrows.len() && i != id.low ==> #[trigger] post.escrows[i]
                    == pre.escrows[i]
        }),
{
    let post = pre.step(id, action, proof_hash, now)->Ok_0.0;
    let idx = id.low as int;
    let record = pre.record(id);
    let escrow = record.escrow;
    let next = next_state(escrow.mode, escrow.state, action)->0;
    let updated = record.after(action, next, now);
    assert(pre.escrows[idx].wf());
    lemma_total_held_update(pre.escrows, idx, updated);
    if action == EscrowAction::BuyerCommit {
        lemma_debited(pre.accounts, escrow.buyer, escrow.buyer_amount);
    } else if action == EscrowAction::SellerCommit {
        lemma_debited(pre.accounts, escrow.seller, escrow.seller_amount);
    } else if action.pays_out() {
        lemma_credited(pre.accounts, escrow.seller, record.buyer_held);
        let first = credited(pre.accounts, escrow.seller, record.buyer_held);
        lemma_credited(first, escrow.buyer, record.seller_held);
        lemma_same_addresses(pre.accounts, first);
    } else if action.refunds() {
        lemma_credited(pre.accounts, escrow.buyer, record.buyer_held);
        let first = credited(pre.accounts, escrow.buyer, record.buyer_held);
        lemma_credited(first, escrow.seller, record.seller_held);
        lemma_same_addresses(pre.accounts, first);
    }
    lemma_same_addresses(pre.accounts, post.accounts);
    let mints = action.pays_out() && escrow.state != EscrowState::Settled;
    if mints {
        if has_receipt(pre.receipts, id) {
            let k = receipt_index(pre.receipts, id);
            assert(pre.record(pre.receipts[k].order_id).escrow.state == EscrowState::Settled);
        }
        assert forall|i: int, j: int| 0 <= i < j < post.receipts.len() implies (
        #[trigger] post.receipts[i]).order_id != (#[trigger] post.receipts[j]).order_id by {
            if j < pre.receipts.len() {
                assert(pre.receipts[i].order_id != pre.receipts[j].order_id);
            } else {
                assert(pre.receipts[i].order_id != id);
            }
        }
    }
    assert forall|i: int| 0 <= i < post.escrows.len() implies {
        let r = #[trigger] post.escrows[i];
        &&& r.escrow.order_id == order_id_at(i)
        &&& r.wf()
        &&& has_account(post.accounts, r.escrow.buyer)
        &&& has_account(post.accounts, r.escrow.seller)
        &&& (r.escrow.state == EscrowState::Settled ==> has_receipt(
            post.receipts,
            r.escrow.order_id,
        ))
    } by {
        let before = pre.escrows[i];
        assert(before.wf());
        if post.escrows[i].escrow.state == EscrowState::Settled {
            if i == idx && escrow.state != EscrowState::Settled {
                assert(post.receipts[pre.receipts.len() as int].order_id == id);
            } else {
                let k = receipt_index(pre.receipts, before.escrow.order_id);
                assert(post.receipts[k].order_id == before.escrow.order_id);
            }
        }
    }
    assert forall|k: int| 0 <= k < post.receipts.len() implies {
        let receipt = #[trigger] post.receipts[k];
        &&& post.has_escrow(receipt.order_id)
        &&& post.record(receipt.order_id).escrow.state == EscrowState::Settled
        &&& post.record(receipt.order_id).escrow.buyer == receipt.buyer
        &&& post.record(receipt.order_id).escrow.seller == receipt.seller
    } by {
        if k < pre.receipts.len() {
            let old_receipt = pre.receipts[k];
            assert(pre.record(old_receipt.order_id).escrow.state == EscrowState::Settled);
        }
    }
}

/// Settlement is idempotent. Once an escrow has been settled, settling it
/// again succeeds, reports the same state and the same receipt identifier,
/// and leaves the whole ledger as it is: no second payout, no second
/// receipt.
pub proof fn law_settlement_is_idempotent(
    pre: LedgerView,
    id: OrderId,
    proof_hash: Digest,
    now: u64,
    later_hash: Digest,
    later: u64,
)
    requires
        pre.wf(),
        pre.step(id, EscrowAction::Settle, proof_hash, now) is Ok,
    ensures
        ({
            let (settled, first) = pre.step(id, EscrowAction::Settle, proof_hash, now)->Ok_0;
            &&& first.state == EscrowState::Settled
            &&& first.receipt is Some
            &&& settled.step(id, EscrowAction::Settle, later_hash, later) == Ok::<
                (LedgerView, Transition),
                LedgerError,
            >((settled, first))
        }),
{
    law_step_keeps_invariant(pre, id, EscrowAction::Settle, proof_hash, now);
    let (settled, first) = pre.step(id, EscrowAction::Settle, proof_hash, now)->Ok_0;
    let record = settled.record(id);
    assert(settled.escrows[id.low as int].wf());
    lemma_credited(settled.accounts, record.escrow.seller, 0);
    lemma_credited(settled.accounts, record.escrow.buyer, 0);
    let again = settled.step(id, EscrowAction::Settle, later_hash, later)->Ok_0.0;
    assert(again.escrows =~= settled.escrows);
}

/// Of the settlement attempts that compete for one escrow, exactly one
/// mints: the attempt that finds the escrow unsettled adds one receipt, for
/// that escrow, and every attempt after it adds none. The store never holds
/// two receipts for one escrow.
pub proof fn law_one_receipt_per_escrow(
    pre: LedgerView,
    id: OrderId,
    proof_hash: Digest,
    now: u64,
    later_hash: Digest,
    later: u64,
)
    requires
        pre.wf(),
        pre.step(id, EscrowAction::Settle, proof_hash, now) is Ok,
        pre.record(id).escrow.state != EscrowState::Settled,
    ensures
        ({
            let settled = pre.step(id, EscrowAction::Settle, proof_hash, now)->Ok_0.0;
            &&& !has_receipt(pre.receipts, id)
            &&& settled.receipts == pre.receipts.push(pre.record(id).receipt(proof_hash, now))
            &&& one_receipt_per_order(settled.receipts)
            &&& settled.step(id, EscrowAction::Settle, later_hash, later) matches Ok(again)
                && again.0.receipts == settled.receipts
        }),
{
    law_step_keeps_invariant(pre, id, EscrowAction::Settle, proof_hash, now);
    law_settlement_is_idempotent(pre, id, proof_hash, now, later_hash, later);
    if has_receipt(pre.receipts, id) {
        let k = receipt_index(pre.receipts, id);
        assert(pre.record(pre.receipts[k].order_id).escrow.state == EscrowState::Settled);
    }
}

/// However many attempts at settlement compete for one escrow, and in
/// whatever order the guard lets them in, the outcome is that of the
/// attempt that came first: where that one succeeds, the ledger after all
/// of them is the ledger after the first, every later attempt succeeds
/// with the first one's state and receipt identifier, and the store has
/// gained one receipt if the escrow was not settled before and none if it
/// was.
pub proof fn law_competing_settlements(pre: LedgerView, id: OrderId, attempts: Seq<(Digest, u64)>)
    requires
        pre.wf(),
        attempts.len() >= 1,
        pre.step(id, EscrowAction::Settle, attempts[0].0, attempts[0].1) is Ok,
    ensures
        ({
            let (settled, first) = pre.step(
                id,
                EscrowAction::Settle,
                attempts[0].0,
                attempts[0].1,
            )->Ok_0;
            &&& pre.settled_by(id, attempts) == settled
            &&& first.state == EscrowState::Settled
            &&& first.receipt is Some
            &&& forall|i: int|
                1 <= i < attempts.len() ==> settled.step(
                    id,
                    EscrowAction::Settle,
                    (#[trigger] attempts[i]).0,
                    attempts[i].1,
                ) == Ok::<(LedgerView, Transition), LedgerError>((settled, first))
            &&& settled.receipts.len() == pre.receipts.len() + (if pre.record(id).escrow.state
                == EscrowState::Settled {
                0int
            } else {
                1int
            })
        }),
    decreases attempts.len(),
{
    let (settled, first) = pre.step(id, EscrowAction::Settle, attempts[0].0, attempts[0].1)->Ok_0;
    assert forall|i: int| 1 <= i < attempts.len() implies settled.step(
        id,
        EscrowAction::Settle,
        (#[trigger] attempts[i]).0,
        attempts[i].1,
    ) == Ok::<(LedgerView, Transition), LedgerError>((settled, first)) by {
        law_settlement_is_idempotent(
            pre,
            id,
            attempts[0].0,
            attempts[0].1,
            attempts[i].0,
            attempts[i].1,
        );
    }
    law_settlement_is_idempotent(pre, id, attempts[0].0, attempts[0].1, attempts[0].0, attempts[0].1);
    if attempts.len() == 1 {
        assert(attempts.drop_last().len() == 0);
        assert(pre.settled_by(id, attempts.drop_last()) == pre);
    } else {
        let earlier = attempts.drop_last();
        assert(earlier[0] == attempts[0]);
        law_competing_settlements(pre, id, earlier);
        assert(attempts.last() == attempts[attempts.len() - 1]);
    }
}

/// An escrow on which a commitment is still outstanding when its
/// commitment window has run out expires at the next tick, with whatever
/// was deposited handed back; from then on settlement fails with a
/// transition error.
pub proof fn law_uncommitted_escrow_expires(
    pre: LedgerView,
    id: OrderId,
    now: u64,
    proof_hash: Digest,
    later: u64,
)
    requires
        pre.wf(),
        pre.has_escrow(id),
        pre.record(id).escrow.state.is_before_both_committed(),
        now > pre.record(id).escrow.created_at + pre.record(id).terms.commitment_window,
    ensures
        pre.tick(id, now) matches Ok((expired, outcome)) && outcome == Some(
            Transition { state: EscrowState::Expired, receipt: None },
        ) && expired.record(id).escrow.state == EscrowState::Expired && expired.step(
            id,
            EscrowAction::Settle,
            proof_hash,
            later,
        ) == Err::<(LedgerView, Transition), LedgerError>(
            LedgerError::Transition(
                TransitionError { from: EscrowState::Expired, action: EscrowAction::Settle },
            ),
        ),
{
}

/// The clock does nothing, and does not fail, on an escrow that has
/// resolved or has nothing outstanding: settled, cancelled, expired,
/// disputed, or with both claims made.
pub proof fn law_tick_is_idle_on_resolved_escrows(pre: LedgerView, id: OrderId, now: u64)
    requires
        pre.has_escrow(id),
        pre.record(id).escrow.state.is_terminal() || pre.record(id).escrow.state
            == EscrowState::Disputed || pre.record(id).escrow.state == EscrowState::BothClaimed,
    ensures
        pre.tick(id, now) == Ok::<(LedgerView, Option<Transition>), LedgerError>((pre, None)),
{
}

/// Timed release and explicit confirmation are one transition: where
/// timed release is due, the tick does to the ledger what marking the
/// escrow delivered would do.
pub proof fn law_timed_release_is_confirmation(pre: LedgerView, id: OrderId, now: u64)
    requires
        pre.has_escrow(id),
        due_action(
            pre.record(id).escrow,
            pre.record(id).terms,
            pre.record(id).committed_at,
            now,
        ) == Some(EscrowAction::SellerClaim),
    ensures
        pre.tick(id, now) matches Ok((released, outcome)) && pre.step(
            id,
            EscrowAction::SellerClaim,
            Digest { high: 0, low: 0 },
            0,
        ) matches Ok((confirmed, transition)) && released == confirmed && outcome == Some(
            transition,
        ),
{
}

/// The clock never fails on an escrow that exists: whatever is due is
/// admitted by the state it is due in, and a release of held funds always
/// fits.
pub proof fn law_tick_succeeds(pre: LedgerView, id: OrderId, now: u64)
    requires
        pre.wf(),
        pre.has_escrow(id),
    ensures
        pre.tick(id, now) is Ok,
{
}

/// The views of a run of accounts.
pub open spec fn accounts_view(accounts: Seq<Account>) -> Seq<AccountView> {
    accounts.map_values(|a: Account| a@)
}

/// The views of a run of records.
pub open spec fn records_view(records: Seq<EscrowRecord>) -> Seq<RecordView> {
    records.map_values(|r: EscrowRecord| r@)
}

/// The position of the account with the address, if there is one.
fn find_account(accounts: &Vec<Account>, address: Address) -> (r: Option<usize>)
    ensures
        match r {
            Some(i) => i < accounts@.len() && accounts_view(accounts@)[i as int].address
                == address && has_account(accounts_view(accounts@), address),
            None => !has_account(accounts_view(accounts@), address),
        },
{
    let mut i: usize = 0;
    while i < accounts.len()
        invariant
            i <= accounts.len(),
            forall|j: int| 0 <= j < i ==> accounts_view(accounts@)[j].address != address,
        decreases accounts.len() - i,
    {
        if accounts[i].address == address {
            assert(accounts_view(accounts@)[i as int].address == address);
            return Some(i);
        }
        i += 1;
    }
    None
}

/// Adds `amount` to the account with the address.
fn credit(accounts: &mut Vec<Account>, address: Address, amount: &Amount)
    requires
        distinct_addresses(accounts_view(old(accounts)@)),
        has_account(accounts_view(old(accounts)@), address),
    ensures
        accounts_view(final(accounts)@) == credited(
            accounts_view(old(accounts)@),
            address,
            amount@,
        ),
{
    match find_account(accounts, address) {
        Some(i) => {
            let ghost before = accounts_view(accounts@);
            proof {
                lemma_account_index(before, i as int);
            }
            let balance = accounts[i].balance.plus(amount);
            accounts[i] = Account { address, balance };
            assert(accounts_view(accounts@) =~= credited(before, address, amount@));
        },
        None => {},
    }
}

/// Takes `amount` from the account with the address, if it covers it.
fn debit(accounts: &mut Vec<Account>, address: Address, amount: &Amount) -> (r: bool)
    requires
        distinct_addresses(accounts_view(old(accounts)@)),
        has_account(accounts_view(old(accounts)@), address),
    ensures
        r == (balance(accounts_view(old(accounts)@), address) >= amount@),
        accounts_view(final(accounts)@) == (if r {
            debited(accounts_view(old(accounts)@), address, amount@)
        } else {
            accounts_view(old(accounts)@)
        }),
{
    match find_account(accounts, address) {
        Some(i) => {
            let ghost before = accounts_view(accounts@);
            proof {
                lemma_account_index(before, i as int);
            }
            match accounts[i].balance.checked_minus(amount) {
                None => false,
                Some(balance) => {
                    accounts[i] = Account { address, balance };
                    assert(accounts_view(accounts@) =~= debited(before, address, amount@));
                    true
                },
            }
        },
        None => false,
    }
}

/// The ledger: accounts, escrow records and the vault of receipts. An
/// escrow's identity is its position among the records, so identities are
/// unique and never change.
#[derive(Debug, Clone)]
pub struct EscrowLedger {
    accounts: Vec<Account>,
    records: Vec<EscrowRecord>,
    vault: Vault,
}

impl View for EscrowLedger {
    type V = LedgerView;

    closed spec fn view(&self) -> LedgerView {
        LedgerView {
            accounts: accounts_view(self.accounts@),
            escrows: records_view(self.records@),
            receipts: self.vault@,
        }
    }
}

impl EscrowLedger {
    /// The ledger's invariant: that of its picture.
    pub open spec fn wf(&self) -> bool {
        self@.wf()
    }

    /// A ledger without accounts or escrows.
    pub fn new() -> (r: Self)
        ensures
            r.wf(),
            r@ == (LedgerView {
                accounts: Seq::<AccountView>::empty(),
                escrows: Seq::<RecordView>::empty(),
                receipts: Seq::<ReceiptView>::empty(),
            }),
            r@.balances() == Map::<Address, int>::empty(),
            r@.supply() == 0,
    {
        let r = EscrowLedger { accounts: Vec::new(), records: Vec::new(), vault: Vault::new() };
        assert(r@.accounts =~= Seq::<AccountView>::empty());
        assert(r@.escrows =~= Seq::<RecordView>::empty());
        assert(r@.balances() =~= Map::<Address, int>::empty());
        r
    }

    /// Opens an account with an opening balance, as [`LedgerView::opened`]
    /// describes.
    pub fn open_account(&mut self, address: Address, amount: Amount) -> (r: Result<
        (),
        LedgerError,
    >)
        requires
            old(self).wf(),
        ensures
            final(self).wf(),
            match old(self)@.opened(address, amount@) {
                Ok(next) => final(self)@ == next && r is Ok && next.balances() == old(
                    self,
                )@.balances().insert(address, amount@ as int) && next.supply() == old(
                    self,
                )@.supply() + amount@,
                Err(e) => final(self)@ == old(self)@ && r == Err::<(), LedgerError>(e),
            },
    {
        if find_account(&self.accounts, address).is_some() {
            return Err(LedgerError::AccountExists(address));
        }
        let ghost pre = self@;
        let ghost opened = AccountView { address, balance: amount@ };
        self.accounts.push(Account { address, balance: amount });
        proof {
            let post = self@;
            assert(post.accounts =~= pre.accounts.push(opened));
            assert(post.accounts.drop_last() =~= pre.accounts);
            assert forall|other: Address| has_account(pre.accounts, other) implies has_account(
                post.accounts,
                other,
            ) by {
                let i = account_index(pre.accounts, other);
                assert(post.accounts[i].address == other);
            }
            assert forall|i: int, j: int| 0 <= i < j < post.accounts.len() implies (
            #[trigger] post.accounts[i]).address != (#[trigger] post.accounts[j]).address by {
                if j < pre.accounts.len() {
                    assert(pre.accounts[i].address != pre.accounts[j].address);
                } else {
                    assert(pre.accounts[i].address != address);
                }
            }
            assert forall|i: int| 0 <= i < post.escrows.len() implies (
            #[trigger] post.escrows[i]).wf() by {
                assert(pre.escrows[i].wf());
            }
            lemma_account_index(post.accounts, pre.accounts.len() as int);
            assert forall|other: Address| has_account(pre.accounts, other) implies balance(
                post.accounts,
                other,
            ) == balance(pre.accounts, other) by {
                let i = account_index(pre.accounts, other);
                lemma_account_index(post.accounts, i);
            }
            assert(post.balances() =~= pre.balances().insert(address, amount@ as int));
        }
        Ok(())
    }

    /// Pays money into an account, as [`LedgerView::deposited`] describes,
    /// and returns the account's new balance.
    pub fn deposit(&mut self, address: Address, amount: &Amount) -> (r: Result<Amount, LedgerError>)
        requires
            old(self).wf(),
        ensures
            final(self).wf(),
            match old(self)@.deposited(address, amount@) {
                Ok(next) => final(self)@ == next && (r matches Ok(total) && total@ == balance(
                    old(self)@.accounts,
                    address,
                ) + amount@) && next.balances() == old(self)@.balances().insert(
                    address,
                    old(self)@.balances()[address] + amount@,
                ) && next.supply() == old(self)@.supply() + amount@,
                Err(e) => final(self)@ == old(self)@ && r == Err::<Amount, LedgerError>(e),
            },
    {
        let i = match find_account(&self.accounts, address) {
            Some(i) => i,
            None => {
                return Err(LedgerError::UnknownAccount(address));
            },
        };
        let ghost pre = self@;
        proof {
            lemma_credited(pre.accounts, address, amount@);
            lemma_account_index(pre.accounts, i as int);
        }
        credit(&mut self.accounts, address, amount);
        proof {
            let post = self@;
            assert forall|i: int| 0 <= i < post.escrows.len() implies (
            #[trigger] post.escrows[i]).wf() by {
                assert(pre.escrows[i].wf());
            }
        }
        Ok(self.accounts[i].balance.copy())
    }

    /// The balance of an account, if the address has one.
    pub fn balance_of(&self, address: Address) -> (r: Option<Amount>)
        requires
            self.wf(),
        ensures
            match r {
                Some(found) => has_account(self@.accounts, address) && found@ == balance(
                    self@.accounts,
                    address,
                ) && self@.balances().dom().contains(address) && self@.balances()[address]
                    == found@,
                None => !has_account(self@.accounts, address) && !self@.balances().dom().contains(
                    address,
                ),
            },
    {
        match find_account(&self.accounts, address) {
            Some(i) => {
                proof {
                    lemma_account_index(self@.accounts, i as int);
                }
                Some(self.accounts[i].balance.copy())
            },
            None => None,
        }
    }

    /// Creates an escrow between two account holders, as
    /// [`LedgerView::created`] describes, and returns its identity. The
    /// escrow starts in `Created`, with nothing held.
    pub fn create_escrow(
        &mut self,
        buyer: Address,
        seller: Address,
        amount: Amount,
        commitment_window: u64,
        claim_window: u64,
        timed_release_enabled: bool,
        timed_release_window: u64,
        counter_escrow_needed: bool,
        now: u64,
    ) -> (r: Result<OrderId, LedgerError>)
        requires
            old(self).wf(),
        ensures
            final(self).wf(),
            match old(self)@.created(
                buyer,
                seller,
                amount@,
                EscrowTerms {
                    commitment_window,
                    claim_window,
                    timed_release_enabled,
                    timed_release_window,
                },
                counter_escrow_needed,
                now,
            ) {
                Ok((next, id)) => final(self)@ == next && r == Ok::<OrderId, LedgerError>(id)
                    && next.supply() == old(self)@.supply(),
                Err(e) => final(self)@ == old(self)@ && r == Err::<OrderId, LedgerError>(e),
            },
    {
        if find_account(&self.accounts, buyer).is_none() {
            return Err(LedgerError::UnknownAccount(buyer));
        }
        if find_account(&self.accounts, seller).is_none() {
            return Err(LedgerError::UnknownAccount(seller));
        }
        let id = OrderId { high: 0, low: self.records.len() as u128 };
        let seller_amount = if counter_escrow_needed {
            amount.copy()
        } else {
            Amount::zero()
        };
        let record = EscrowRecord {
            escrow: Escrow {
                order_id: id,
                buyer,
                seller,
                buyer_amount: amount,
                seller_amount,
                mode: if counter_escrow_needed {
                    EscrowMode::Swap
                } else {
                    EscrowMode::Purchase
                },
                state: EscrowState::Created,
                created_at: now,
            },
            terms: EscrowTerms {
                commitment_window,
                claim_window,
                timed_release_enabled,
                timed_release_window,
            },
            committed_at: 0,
            buyer_held: Amount::zero(),
            seller_held: Amount::zero(),
        };
        let ghost pre = self@;
        let ghost created = record@;
        self.records.push(record);
        proof {
            let post = self@;
            assert(post.escrows =~= pre.escrows.push(created));
            assert(post.escrows.drop_last() =~= pre.escrows);
            assert forall|i: int| 0 <= i < post.escrows.len() implies {
                let r = #[trigger] post.escrows[i];
                &&& r.escrow.order_id == order_id_at(i)
                &&& r.wf()
                &&& has_account(post.accounts, r.escrow.buyer)
                &&& has_account(post.accounts, r.escrow.seller)
                &&& (r.escrow.state == EscrowState::Settled ==> has_receipt(
                    post.receipts,
                    r.escrow.order_id,
                ))
            } by {
                if i < pre.escrows.len() {
                    assert(pre.escrows[i].wf());
                }
            }
            assert forall|k: int| 0 <= k < post.receipts.len() implies {
                let receipt = #[trigger] post.receipts[k];
                &&& post.has_escrow(receipt.order_id)
                &&& post.record(receipt.order_id).escrow.state == EscrowState::Settled
                &&& post.record(receipt.order_id).escrow.buyer == receipt.buyer
                &&& post.record(receipt.order_id).escrow.seller == receipt.seller
            } by {
                let receipt = pre.receipts[k];
                assert(pre.record(receipt.order_id).escrow.state == EscrowState::Settled);
            }
        }
        Ok(id)
    }

    /// The position of an escrow's record, if the escrow exists.
    fn find_escrow(&self, id: OrderId) -> (r: Option<usize>)
        ensures
            match r {
                Some(i) => self@.has_escrow(id) && i == id.low,
                None => !self@.has_escrow(id),
            },
    {
        if id.high == 0 && id.low < self.records.len() as u128 {
            Some(id.low as usize)
        } else {
            None
        }
    }

    /// The record of an escrow. Fails where no such escrow exists.
    pub fn get_record(&self, id: OrderId) -> (r: Result<EscrowRecord, LedgerError>)
        ensures
            match r {
                Ok(record) => self@.has_escrow(id) && record@ == self@.record(id),
                Err(e) => !self@.has_escrow(id) && e == LedgerError::UnknownEscrow(id),
            },
    {
        match self.find_escrow(id) {
            Some(i) => Ok(self.records[i].copy()),
            None => Err(LedgerError::UnknownEscrow(id)),
        }
    }

    /// The state of an escrow. Fails where no such escrow exists.
    pub fn get_escrow_state(&self, id: OrderId) -> (r: Result<EscrowState, LedgerError>)
        ensures
            r == (if self@.has_escrow(id) {
                Ok::<EscrowState, LedgerError>(self@.record(id).escrow.state)
            } else {
                Err::<EscrowState, LedgerError>(LedgerError::UnknownEscrow(id))
            }),
    {
        match self.find_escrow(id) {
            Some(i) => Ok(self.records[i].escrow.state),
            None => Err(LedgerError::UnknownEscrow(id)),
        }
    }

    /// Looks a receipt up by its identifier. Fails with `NotFound` for an
    /// identifier that no settlement was given.
    pub fn get_receipt(&self, receipt_id: u64) -> (r: Result<Receipt, VaultError>)
        ensures
            match r {
                Ok(receipt) => receipt_id < self@.receipts.len() && receipt@
                    == self@.receipts[receipt_id as int],
                Err(e) => receipt_id >= self@.receipts.len() && e == VaultError::NotFound(
                    receipt_id,
                ),
            },
    {
        self.vault.get_receipt(receipt_id)
    }

    /// The vault that keeps this ledger's receipts.
    pub fn vault(&self) -> (r: &Vault)
        ensures
            r@ == self@.receipts,
    {
        &self.vault
    }

    /// The one guarded transition: applies `action` to the escrow `id` at
    /// time `now`, as [`LedgerView::step`] describes. Every operation that
    /// changes an escrow goes through here, so of two that compete for the
    /// same transition at most one finds the state that admits it.
    pub(crate) fn transition(
        &mut self,
        id: OrderId,
        action: EscrowAction,
        proof_hash: Digest,
        now: u64,
    ) -> (r: Result<Transition, LedgerError>)
        requires
            old(self).wf(),
        ensures
            final(self).wf(),
            stepped(old(self)@, final(self)@, id, action, proof_hash, now, r),
    {
        let idx = match self.find_escrow(id) {
            Some(i) => i,
            None => {
                return Err(LedgerError::UnknownEscrow(id));
            },
        };
        let record = self.records[idx].copy();
        let next = match step(record.escrow.mode, record.escrow.state, action) {
            Some(next) => next,
            None => {
                return Err(
                    LedgerError::Transition(
                        TransitionError { from: record.escrow.state, action },
                    ),
                );
            },
        };
        let ghost pre = self@;
        let ghost was = record@;
        let buyer = record.escrow.buyer;
        let seller = record.escrow.seller;
        let settled_before = record.escrow.state == EscrowState::Settled;
        proof {
            assert(pre.escrows[idx as int].wf());
        }
        let pays_out = action == EscrowAction::Settle || action == EscrowAction::ResolveSettle;
        let refunds = action == EscrowAction::Cancel || action == EscrowAction::Expire || action
            == EscrowAction::ResolveCancel;
        if action == EscrowAction::BuyerCommit {
            if !debit(&mut self.accounts, buyer, &record.escrow.buyer_amount) {
                return Err(LedgerError::InsufficientFunds(buyer));
            }
        } else if action == EscrowAction::SellerCommit {
            if !debit(&mut self.accounts, seller, &record.escrow.seller_amount) {
                return Err(LedgerError::InsufficientFunds(seller));
            }
        } else if pays_out {
            proof {
                lemma_credited(pre.accounts, seller, was.buyer_held);
            }
            credit(&mut self.accounts, seller, &record.buyer_held);
            credit(&mut self.accounts, buyer, &record.seller_held);
        } else if refunds {
            proof {
                lemma_credited(pre.accounts, buyer, was.buyer_held);
            }
            credit(&mut self.accounts, buyer, &record.buyer_held);
            credit(&mut self.accounts, seller, &record.seller_held);
        }
        let released = pays_out || refunds;
        let paid = record.buyer_held.copy();
        let buyer_held = if action == EscrowAction::BuyerCommit {
            record.escrow.buyer_amount.copy()
        } else if released {
            Amount::zero()
        } else {
            record.buyer_held
        };
        let seller_held = if action == EscrowAction::SellerCommit {
            record.escrow.seller_amount.copy()
        } else if released {
            Amount::zero()
        } else {
            record.seller_held
        };
        let updated = EscrowRecord {
            escrow: Escrow {
                order_id: record.escrow.order_id,
                buyer,
                seller,
                buyer_amount: record.escrow.buyer_amount,
                seller_amount: record.escrow.seller_amount,
                mode: record.escrow.mode,
                state: next,
                created_at: record.escrow.created_at,
            },
            terms: record.terms,
            committed_at: if next == EscrowState::BothCommitted {
                now
            } else {
                record.committed_at
            },
            buyer_held,
            seller_held,
        };
        assert(updated@ == was.after(action, next, now));
        self.records[idx] = updated;
        proof {
            assert(self@.escrows =~= pre.escrows.update(idx as int, was.after(action, next, now)));
            law_step_keeps_invariant(pre, id, action, proof_hash, now);
        }
        let receipt = if pays_out && !settled_before {
            let minted = self.vault.record(
                Receipt {
                    order_id: id,
                    buyer,
                    seller,
                    amount: paid,
                    proof_hash,
                    timestamp: now,
                },
            );
            proof {
                lemma_receipt_index(self.vault@, minted.0 as int);
            }
            Some(minted.0)
        } else if next == EscrowState::Settled {
            let found = self.vault.receipt_of(id);
            proof {
                lemma_receipt_index(self.vault@, found->0 as int);
            }
            found
        } else {
            None
        };
        Ok(Transition { state: next, receipt })
    }

    /// Applies an action that a party takes, as [`LedgerView::act`]
    /// describes.
    fn act(&mut self, id: OrderId, actor: Address, action: EscrowAction, now: u64) -> (r: Result<
        Transition,
        LedgerError,
    >)
        requires
            old(self).wf(),
        ensures
            final(self).wf(),
            acted(old(self)@, final(self)@, id, actor, action, now, r),
    {
        let (buyer, seller) = match self.find_escrow(id) {
            Some(i) => (self.records[i].escrow.buyer, self.records[i].escrow.seller),
            None => {
                return Err(LedgerError::UnknownEscrow(id));
            },
        };
        let admitted = match action {
            EscrowAction::BuyerCommit | EscrowAction::BuyerClaim => actor == buyer,
            EscrowAction::SellerCommit => actor == seller,
            EscrowAction::Dispute | EscrowAction::Cancel => actor == buyer || actor == seller,
            _ => true,
        };
        if !admitted {
            return Err(LedgerError::WrongActor(actor));
        }
        self.transition(id, action, Digest { high: 0, low: 0 }, now)
    }

    /// The seller accepts the order: the seller's commitment, which in a
    /// swap takes the seller's deposit into custody.
    pub fn seller_accept(&mut self, id: OrderId, actor: Address, now: u64) -> (r: Result<
        Transition,
        LedgerError,
    >)
        requires
            old(self).wf(),
        ensures
            final(self).wf(),
            acted(old(self)@, final(self)@, id, actor, EscrowAction::SellerCommit, now, r),
    {
        self.act(id, actor, EscrowAction::SellerCommit, now)
    }

    /// The buyer funds the escrow: the buyer's commitment, which takes the
    /// buyer's deposit into custody.
    pub fn buyer_fund(&mut self, id: OrderId, actor: Address, now: u64) -> (r: Result<
        Transition,
        LedgerError,
    >)
        requires
            old(self).wf(),
        ensures
            final(self).wf(),
            acted(old(self)@, final(self)@, id, actor, EscrowAction::BuyerCommit, now, r),
    {
        self.act(id, actor, EscrowAction::BuyerCommit, now)
    }

    /// Delivery is confirmed, which establishes the seller's claim.
    pub fn mark_delivered(&mut self, id: OrderId) -> (r: Result<Transition, LedgerError>)
        requires
            old(self).wf(),
        ensures
            final(self).wf(),
            stepped(
                old(self)@,
                final(self)@,
                id,
                EscrowAction::SellerClaim,
                Digest { high: 0, low: 0 },
                0,
                r,
            ),
    {
        self.transition(id, EscrowAction::SellerClaim, Digest { high: 0, low: 0 }, 0)
    }

    /// The buyer claims the seller's side of a swap.
    pub fn buyer_claim(&mut self, id: OrderId, actor: Address) -> (r: Result<
        Transition,
        LedgerError,
    >)
        requires
            old(self).wf(),
        ensures
            final(self).wf(),
            acted(old(self)@, final(self)@, id, actor, EscrowAction::BuyerClaim, 0, r),
    {
        self.act(id, actor, EscrowAction::BuyerClaim, 0)
    }

    /// Settles the escrow and returns the identifier of its receipt. The
    /// first settlement pays out and mints the receipt; a later one changes
    /// nothing and returns the same identifier.
    pub fn settle(&mut self, id: OrderId, proof_hash: Digest, now: u64) -> (r: Result<
        u64,
        LedgerError,
    >)
        requires
            old(self).wf(),
        ensures
            final(self).wf(),
            match old(self)@.step(id, EscrowAction::Settle, proof_hash, now) {
                Ok((next, transition)) => final(self)@ == next && transition.receipt is Some && r
                    == Ok::<u64, LedgerError>(transition.receipt->0) && old(self)@.led_to(
                    id,
                    EscrowAction::Settle,
                    proof_hash,
                    now,
                    next,
                    transition,
                ),
                Err(e) => final(self)@ == old(self)@ && r == Err::<u64, LedgerError>(e),
            },
    {
        match self.transition(id, EscrowAction::Settle, proof_hash, now) {
            Ok(transition) => Ok(transition.receipt.unwrap()),
            Err(e) => Err(e),
        }
    }

    /// A party raises a dispute. The held funds stay in custody.
    pub fn dispute(&mut self, id: OrderId, actor: Address) -> (r: Result<
        Transition,
        LedgerError,
    >)
        requires
            old(self).wf(),
        ensures
            final(self).wf(),
            acted(old(self)@, final(self)@, id, actor, EscrowAction::Dispute, 0, r),
    {
        self.act(id, actor, EscrowAction::Dispute, 0)
    }

    /// A party calls the order off before both sides have committed, and
    /// what was deposited is handed back.
    pub fn cancel(&mut self, id: OrderId, actor: Address) -> (r: Result<
        Transition,
        LedgerError,
    >)
        requires
            old(self).wf(),
        ensures
            final(self).wf(),
            acted(old(self)@, final(self)@, id, actor, EscrowAction::Cancel, 0, r),
    {
        self.act(id, actor, EscrowAction::Cancel, 0)
    }

    /// Applies the outcome of a dispute that was resolved elsewhere: either
    /// settlement, which pays out and mints the receipt, or cancellation,
    /// which hands back what was deposited.
    pub fn resolve_dispute(
        &mut self,
        id: OrderId,
        settle: bool,
        proof_hash: Digest,
        now: u64,
    ) -> (r: Result<Transition, LedgerError>)
        requires
            old(self).wf(),
        ensures
            final(self).wf(),
            stepped(
                old(self)@,
                final(self)@,
                id,
                if settle { EscrowAction::ResolveSettle } else { EscrowAction::ResolveCancel },
                proof_hash,
                now,
                r,
            ),
    {
        let action = if settle {
            EscrowAction::ResolveSettle
        } else {
            EscrowAction::ResolveCancel
        };
        self.transition(id, action, proof_hash, now)
    }

    /// Lets the clock act on an escrow, as [`LedgerView::tick`] describes:
    /// expiry or timed release where one is due at `now`, nothing otherwise.
    /// A tick on an escrow that has left the states in which anything can be
    /// due changes nothing and is no error.
    pub fn tick(&mut self, id: OrderId, now: u64) -> (r: Result<Option<Transition>, LedgerError>)
        requires
            old(self).wf(),
        ensures
            final(self).wf(),
            match old(self)@.tick(id, now) {
                Ok((next, outcome)) => final(self)@ == next && r == Ok::<
                    Option<Transition>,
                    LedgerError,
                >(outcome) && (outcome matches Some(transition) ==> old(self)@.led_to(
                    id,
                    due_action(
                        old(self)@.record(id).escrow,
                        old(self)@.record(id).terms,
                        old(self)@.record(id).committed_at,
                        now,
                    )->0,
                    Digest { high: 0, low: 0 },
                    now,
                    next,
                    transition,
                )),
                Err(e) => final(self)@ == old(self)@ && r == Err::<Option<Transition>, LedgerError>(
                    e,
                ),
            },
    {
        let idx = match self.find_escrow(id) {
            Some(i) => i,
            None => {
                return Err(LedgerError::UnknownEscrow(id));
            },
        };
        let due = scheduled_action(
            &self.records[idx].escrow,
            &self.records[idx].terms,
            self.records[idx].committed_at,
            now,
        );
        match due {
            None => Ok(None),
            Some(action) => match self.transition(id, action, Digest { high: 0, low: 0 }, now) {
                Ok(transition) => Ok(Some(transition)),
                Err(e) => Err(e),
            },
        }
    }

    /// Lets the clock act on every escrow, one after the other: the
    /// scheduled pass that expires what has run out of time and releases
    /// what is due for timed release.
    pub fn sweep(&mut self, now: u64)
        requires
            old(self).wf(),
        ensures
            final(self).wf(),
            final(self)@ == old(self)@.swept(old(self)@.escrows.len(), now),
            final(self)@.supply() == old(self)@.supply(),
    {
        let count = self.records.len();
        let mut i: usize = 0;
        while i < count
            invariant
                i <= count,
                count == self@.escrows.len(),
                count == old(self)@.escrows.len(),
                self.wf(),
                self@ == old(self)@.swept(i as nat, now),
                self@.supply() == old(self)@.supply(),
            decreases count - i,
        {
            let ghost before = self@;
            let _ = self.tick(OrderId { high: 0, low: i as u128 }, now);
            proof {
                let id = order_id_at(i as int);
                if due_action(
                    before.record(id).escrow,
                    before.record(id).terms,
                    before.record(id).committed_at,
                    now,
                ) is Some {
                    let action = due_action(
                        before.record(id).escrow,
                        before.record(id).terms,
                        before.record(id).committed_at,
                        now,
                    )->0;
                    if before.step(id, action, Digest { high: 0, low: 0 }, now) is Ok {
                        law_step_keeps_invariant(before, id, action, Digest { high: 0, low: 0 }, now);
                    }
                }
            }
            i += 1;
        }
    }
}

} // verus!

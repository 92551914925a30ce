//! The settlement ledger: one receipt per settled escrow, kept for good.

use vstd::prelude::*;
use crate::amount::Amount;
use crate::escrow::{Address, OrderId};

verus! {

/// An opaque 256-bit digest that binds a settlement to its proof.
#[derive(Debug, Clone, Copy, PartialEq, Eq, Structural)]
pub struct Digest {
    pub high: u128,
    pub low: u128,
}

/// The record of one completed settlement.
#[derive(Debug, Clone, PartialEq, Eq)]
pub struct Receipt {
    /// The escrow that was settled.
    pub order_id: OrderId,
    pub buyer: Address,
    pub seller: Address,
    /// What the seller was paid.
    pub amount: Amount,
    pub proof_hash: Digest,
    /// When the settlement took place, in seconds.
    pub timestamp: u64,
}

/// The view of a [`Receipt`]: the same fields, with the amount as a number.
pub struct ReceiptView {
    pub order_id: OrderId,
    pub buyer: Address,
    pub seller: Address,
    pub amount: nat,
    pub proof_hash: Digest,
    pub timestamp: u64,
}

impl View for Receipt {
    type V = ReceiptView;

    open spec fn view(&self) -> ReceiptView {
        ReceiptView {
            order_id: self.order_id,
            buyer: self.buyer,
            seller: self.seller,
            amount: self.amount@,
            proof_hash: self.proof_hash,
            timestamp: self.timestamp,
        }
    }
}

impl Receipt {
    /// A copy of the receipt.
    pub fn copy(&self) -> (r: Self)
        ensures
            r@ == self@,
    {
        Receipt {
            order_id: self.order_id,
            buyer: self.buyer,
            seller: self.seller,
            amount: self.amount.copy(),
            proof_hash: self.proof_hash,
            timestamp: self.timestamp,
        }
    }
}

/// A lookup that found nothing.
#[derive(Debug, Clone, Copy, PartialEq, Eq, Structural)]
pub enum VaultError {
    /// No receipt has this identifier.
    NotFound(u64),
}

/// Whether some receipt in `receipts` belongs to `order_id`.
pub open spec fn has_receipt(receipts: Seq<ReceiptView>, order_id: OrderId) -> bool {
    exists|i: int| 0 <= i < receipts.len() && (#[trigger] receipts[i]).order_id == order_id
}

/// Whether no two receipts in `receipts` belong to the same escrow.
pub open spec fn one_receipt_per_order(receipts: Seq<ReceiptView>) -> bool {
    forall|i: int, j: int|
        0 <= i < j < receipts.len() ==> (#[trigger] receipts[i]).order_id != (
        #[trigger] receipts[j]).order_id
}

/// The store of receipts. A receipt's identifier is its position in the
/// store, so identifiers are handed out in order and never reused.
#[derive(Debug, Clone)]
pub struct Vault {
    receipts: Vec<Receipt>,
}

impl View for Vault {
    type V = Seq<ReceiptView>;

    closed spec fn view(&self) -> Seq<ReceiptView> {
        self.receipts@.map_values(|r: Receipt| r@)
    }
}

impl Vault {
    /// The store's invariant: every escrow has at most one receipt.
    pub open spec fn wf(&self) -> bool {
        one_receipt_per_order(self@)
    }

    /// An empty store.
    pub fn new() -> (r: Self)
        ensures
            r@ == Seq::<ReceiptView>::empty(),
            r.wf(),
    {
        let r = Vault { receipts: Vec::new() };
        assert(r@ =~= Seq::<ReceiptView>::empty());
        r
    }

    /// How many receipts the store holds.
    pub fn len(&self) -> (r: usize)
        ensures
            r == self@.len(),
    {
        self.receipts.len()
    }

    /// Looks a receipt up by its identifier. Fails with `NotFound` for an
    /// identifier that no settlement was given.
    pub fn get_receipt(&self, id: u64) -> (r: Result<Receipt, VaultError>)
        ensures
            match r {
                Ok(receipt) => id < self@.len() && receipt@ == self@[id as int],
                Err(e) => id >= self@.len() && e == VaultError::NotFound(id),
            },
    {
        if id < self.receipts.len() as u64 {
            Ok(self.receipts[id as usize].copy())
        } else {
            Err(VaultError::NotFound(id))
        }
    }

    /// The identifier of the receipt that belongs to an escrow, if the
    /// escrow has one: the first in the store, which in a well-formed store
    /// is the only one.
    pub fn receipt_of(&self, order_id: OrderId) -> (r: Option<u64>)
        ensures
            match r {
                Some(id) => id < self@.len() && self@[id as int].order_id == order_id && forall|
                    j: int,
                | 0 <= j < id ==> self@[j].order_id != order_id,
                None => !has_receipt(self@, order_id),
            },
    {
        let mut i: usize = 0;
        while i < self.receipts.len()
            invariant
                i <= self.receipts.len(),
                forall|j: int| 0 <= j < i ==> self@[j].order_id != order_id,
            decreases self.receipts.len() - i,
        {
            if self.receipts[i].order_id == order_id {
                return Some(i as u64);
            }
            i += 1;
        }
        None
    }

    /// Records a settlement. The first settlement of an escrow mints its
    /// receipt, at the end of the store; a later one for the same escrow
    /// mints nothing and gets the identifier of the receipt that is there.
    /// The flag tells whether a receipt was minted.
    pub fn record(&mut self, receipt: Receipt) -> (r: (u64, bool))
        requires
            old(self).wf(),
        ensures
            final(self).wf(),
            r.0 < final(self)@.len(),
            final(self)@[r.0 as int].order_id == receipt.order_id,
            r.1 == !has_receipt(old(self)@, receipt.order_id),
            final(self)@ == (if r.1 {
                old(self)@.push(receipt@)
            } else {
                old(self)@
            }),
            r.1 ==> r.0 == old(self)@.len(),
    {
        match self.receipt_of(receipt.order_id) {
            Some(id) => (id, false),
            None => {
                let id = self.receipts.len() as u64;
                let ghost before = self@;
                self.receipts.push(receipt);
                assert(self@ =~= before.push(receipt@));
                (id, true)
            },
        }
    }
}

/// Recording settlements of one escrow again and again leaves exactly one
/// receipt for it: of two receipts for the same escrow in a store, one is
/// the other.
pub proof fn law_exactly_one_receipt(receipts: Seq<ReceiptView>, i: int, j: int)
    requires
        one_receipt_per_order(receipts),
        0 <= i < receipts.len(),
        0 <= j < receipts.len(),
        receipts[i].order_id == receipts[j].order_id,
    ensures
        i == j,
{
    if i < j {
        assert(receipts[i].order_id != receipts[j].order_id);
    } else if j < i {
        assert(receipts[j].order_id != receipts[i].order_id);
    }
}

} // verus!

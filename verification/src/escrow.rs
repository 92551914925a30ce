//! The escrow record and the state machine that governs its lifecycle.

use vstd::prelude::*;
use crate::amount::Amount;

verus! {

/// An account identifier: 160 opaque bits.
#[derive(Debug, Clone, Copy, PartialEq, Eq, Structural)]
pub struct Address {
    pub high: u32,
    pub low: u128,
}

/// The identity of an escrow: 256 opaque bits, assigned at creation.
#[derive(Debug, Clone, Copy, PartialEq, Eq, Structural)]
pub struct OrderId {
    pub high: u128,
    pub low: u128,
}

/// Whether value flows one way or both ways.
#[derive(Debug, Clone, Copy, PartialEq, Eq, Structural)]
pub enum EscrowMode {
    /// The buyer pays the seller; the seller deposits nothing.
    Purchase,
    /// Buyer and seller both deposit, and each claims the other's deposit.
    Swap,
}

/// Where an escrow stands in its lifecycle.
#[derive(Debug, Clone, Copy, PartialEq, Eq, Structural)]
pub enum EscrowState {
    /// Created; neither side has committed.
    Created,
    BuyerCommitted,
    SellerCommitted,
    BothCommitted,
    SellerClaimed,
    BuyerClaimed,
    BothClaimed,
    Disputed,
    Expired,
    Settled,
    Cancelled,
}

impl Default for EscrowMode {
    /// A purchase.
    fn default() -> (r: Self)
        ensures
            r == EscrowMode::Purchase,
    {
        EscrowMode::Purchase
    }
}

impl Default for EscrowState {
    /// The state of a fresh escrow.
    fn default() -> (r: Self)
        ensures
            r == EscrowState::Created,
    {
        EscrowState::Created
    }
}

/// What can happen to an escrow. Each commitment and claim belongs to one
/// party: the variant names it.
#[derive(Debug, Clone, Copy, PartialEq, Eq, Structural)]
pub enum EscrowAction {
    /// The buyer funds the escrow.
    BuyerCommit,
    /// The seller accepts the order.
    SellerCommit,
    /// The buyer claims the seller's side.
    BuyerClaim,
    /// The seller's claim on the buyer's funds is established: delivery is
    /// confirmed, by the buyer or by timed release.
    SellerClaim,
    /// Settlement pays out.
    Settle,
    /// A party raises a dispute.
    Dispute,
    /// A commitment or claim window ran out.
    Expire,
    /// The order is called off.
    Cancel,
    /// A dispute is resolved in favour of settlement.
    ResolveSettle,
    /// A dispute is resolved by calling the order off.
    ResolveCancel,
}

/// An action that the escrow's state does not admit.
#[derive(Debug, Clone, Copy, PartialEq, Eq, Structural)]
pub struct TransitionError {
    pub from: EscrowState,
    pub action: EscrowAction,
}

impl EscrowState {
    /// Terminal states: nothing leaves them.
    pub open spec fn is_terminal(self) -> bool {
        self == EscrowState::Settled || self == EscrowState::Cancelled || self
            == EscrowState::Expired
    }

    /// States in which neither side or only one side has committed.
    pub open spec fn is_before_both_committed(self) -> bool {
        self == EscrowState::Created || self == EscrowState::BuyerCommitted || self
            == EscrowState::SellerCommitted
    }

    /// Terminal states: nothing leaves them.
    #[verifier::when_used_as_spec(is_terminal)]
    pub fn terminal(self) -> (r: bool)
        ensures
            r == self.is_terminal(),
    {
        self == EscrowState::Settled || self == EscrowState::Cancelled || self
            == EscrowState::Expired
    }
}

/// The transition relation: the state that `action` leads to from `state`,
/// or `None` where the state does not admit the action.
///
/// In `Purchase` mode the buyer has nothing to wait for once the seller's
/// claim stands, so settlement is admitted from `SellerClaimed`; in every
/// other respect both modes share one table.
pub open spec fn next_state(mode: EscrowMode, state: EscrowState, action: EscrowAction) -> Option<
    EscrowState,
> {
    match action {
        EscrowAction::BuyerCommit => match state {
            EscrowState::Created => Some(EscrowState::BuyerCommitted),
            EscrowState::SellerCommitted => Some(EscrowState::BothCommitted),
            _ => None,
        },
        EscrowAction::SellerCommit => match state {
            EscrowState::Created => Some(EscrowState::SellerCommitted),
            EscrowState::BuyerCommitted => Some(EscrowState::BothCommitted),
            _ => None,
        },
        EscrowAction::BuyerClaim => match state {
            EscrowState::BothCommitted => Some(EscrowState::BuyerClaimed),
            EscrowState::SellerClaimed => Some(EscrowState::BothClaimed),
            _ => None,
        },
        EscrowAction::SellerClaim => match state {
            EscrowState::BothCommitted => Some(EscrowState::SellerClaimed),
            EscrowState::BuyerClaimed => Some(EscrowState::BothClaimed),
            _ => None,
        },
        EscrowAction::Settle => match state {
            EscrowState::BothClaimed => Some(EscrowState::Settled),
            EscrowState::SellerClaimed if mode == EscrowMode::Purchase => Some(
                EscrowState::Settled,
            ),
            EscrowState::Settled => Some(EscrowState::Settled),
            _ => None,
        },
        EscrowAction::Dispute => if state.is_terminal() {
            None
        } else {
            Some(EscrowState::Disputed)
        },
        EscrowAction::Expire => if state.is_terminal() || state == EscrowState::Disputed {
            None
        } else {
            Some(EscrowState::Expired)
        },
        EscrowAction::Cancel => if state.is_before_both_committed() {
            Some(EscrowState::Cancelled)
        } else {
            None
        },
        EscrowAction::ResolveSettle => if state == EscrowState::Disputed {
            Some(EscrowState::Settled)
        } else {
            None
        },
        EscrowAction::ResolveCancel => if state == EscrowState::Disputed {
            Some(EscrowState::Cancelled)
        } else {
            None
        },
    }
}

/// The state that `action` leads to from `state`, if the state admits it.
pub fn step(mode: EscrowMode, state: EscrowState, action: EscrowAction) -> (r: Option<EscrowState>)
    ensures
        r == next_state(mode, state, action),
{
    match action {
        EscrowAction::BuyerCommit => match state {
            EscrowState::Created => Some(EscrowState::BuyerCommitted),
            EscrowState::SellerCommitted => Some(EscrowState::BothCommitted),
            _ => None,
        },
        EscrowAction::SellerCommit => match state {
            EscrowState::Created => Some(EscrowState::SellerCommitted),
            EscrowState::BuyerCommitted => Some(EscrowState::BothCommitted),
            _ => None,
        },
        EscrowAction::BuyerClaim => match state {
            EscrowState::BothCommitted => Some(EscrowState::BuyerClaimed),
            EscrowState::SellerClaimed => Some(EscrowState::BothClaimed),
            _ => None,
        },
        EscrowAction::SellerClaim => match state {
            EscrowState::BothCommitted => Some(EscrowState::SellerClaimed),
            EscrowState::BuyerClaimed => Some(EscrowState::BothClaimed),
            _ => None,
        },
        EscrowAction::Settle => match state {
            EscrowState::BothClaimed | EscrowState::Settled => Some(EscrowState::Settled),
            EscrowState::SellerClaimed => if mode == EscrowMode::Purchase {
                Some(EscrowState::Settled)
            } else {
                None
            },
            _ => None,
        },
        EscrowAction::Dispute => if state.terminal() {
            None
        } else {
            Some(EscrowState::Disputed)
        },
        EscrowAction::Expire => if state.terminal() || state == EscrowState::Disputed {
            None
        } else {
            Some(EscrowState::Expired)
        },
        EscrowAction::Cancel => match state {
            EscrowState::Created | EscrowState::BuyerCommitted | EscrowState::SellerCommitted => {
                Some(EscrowState::Cancelled)
            },
            _ => None,
        },
        EscrowAction::ResolveSettle => if state == EscrowState::Disputed {
            Some(EscrowState::Settled)
        } else {
            None
        },
        EscrowAction::ResolveCancel => if state == EscrowState::Disputed {
            Some(EscrowState::Cancelled)
        } else {
            None
        },
    }
}

/// Both sides commit independently and in either order: `BothCommitted` is
/// entered only by the commitment of the side that was still missing, and
/// from the start both orders of the two commitments end there.
pub proof fn law_commitments_join(mode: EscrowMode, state: EscrowState, action: EscrowAction)
    ensures
        next_state(mode, state, action) == Some(EscrowState::BothCommitted) <==> (state
            == EscrowState::BuyerCommitted && action == EscrowAction::SellerCommit) || (state
            == EscrowState::SellerCommitted && action == EscrowAction::BuyerCommit),
        next_state(mode, EscrowState::Created, EscrowAction::BuyerCommit) matches Some(s)
            && next_state(mode, s, EscrowAction::SellerCommit) == Some(
            EscrowState::BothCommitted,
        ),
        next_state(mode, EscrowState::Created, EscrowAction::SellerCommit) matches Some(s)
            && next_state(mode, s, EscrowAction::BuyerCommit) == Some(EscrowState::BothCommitted),
{
}

/// A claim is admitted only once both sides have committed, and
/// `BothClaimed` is entered only by the claim of the side that was still
/// missing, whichever side claimed first.
pub proof fn law_claims_follow_commitments(
    mode: EscrowMode,
    state: EscrowState,
    action: EscrowAction,
)
    ensures
        (action == EscrowAction::BuyerClaim || action == EscrowAction::SellerClaim) && next_state(
            mode,
            state,
            action,
        ) is Some ==> state == EscrowState::BothCommitted || state == EscrowState::SellerClaimed
            || state == EscrowState::BuyerClaimed,
        next_state(mode, state, action) == Some(EscrowState::BothClaimed) <==> (state
            == EscrowState::SellerClaimed && action == EscrowAction::BuyerClaim) || (state
            == EscrowState::BuyerClaimed && action == EscrowAction::SellerClaim),
{
}

/// `Settled` is entered by settlement from `BothClaimed`, by settlement
/// from `SellerClaimed` in `Purchase` mode, or by the resolution of a
/// dispute; settling a settled escrow leaves it settled.
pub proof fn law_settled_origin(mode: EscrowMode, state: EscrowState, action: EscrowAction)
    ensures
        next_state(mode, state, action) == Some(EscrowState::Settled) <==> (action
            == EscrowAction::Settle && (state == EscrowState::BothClaimed || state
            == EscrowState::Settled || (state == EscrowState::SellerClaimed && mode
            == EscrowMode::Purchase))) || (action == EscrowAction::ResolveSettle && state
            == EscrowState::Disputed),
{
}

/// Nothing leaves a terminal state: the one action that a terminal state
/// admits is the repeated settlement of a settled escrow, which stays put.
pub proof fn law_terminal_states_are_final(
    mode: EscrowMode,
    state: EscrowState,
    action: EscrowAction,
)
    requires
        state.is_terminal(),
    ensures
        next_state(mode, state, action) is Some <==> state == EscrowState::Settled && action
            == EscrowAction::Settle,
        next_state(mode, state, action) matches Some(next) ==> next == state,
{
}

/// A dispute can be raised in every state that is not terminal, and a
/// disputed escrow leaves that state only by resolution, into `Settled` or
/// `Cancelled`.
pub proof fn law_disputes(mode: EscrowMode, state: EscrowState, action: EscrowAction)
    ensures
        next_state(mode, state, EscrowAction::Dispute) == (if state.is_terminal() {
            None
        } else {
            Some(EscrowState::Disputed)
        }),
        state == EscrowState::Disputed ==> next_state(mode, state, action) == (match action {
            EscrowAction::Dispute => Some(EscrowState::Disputed),
            EscrowAction::ResolveSettle => Some(EscrowState::Settled),
            EscrowAction::ResolveCancel => Some(EscrowState::Cancelled),
            _ => None,
        }),
{
}

/// `Cancelled` is entered by cancellation before both sides have committed,
/// or by the resolution of a dispute, and `Expired` only by expiry, from a
/// state that is neither terminal nor disputed.
pub proof fn law_cancellation_and_expiry(
    mode: EscrowMode,
    state: EscrowState,
    action: EscrowAction,
)
    ensures
        next_state(mode, state, action) == Some(EscrowState::Cancelled) <==> (action
            == EscrowAction::Cancel && state.is_before_both_committed()) || (action
            == EscrowAction::ResolveCancel && state == EscrowState::Disputed),
        next_state(mode, state, action) == Some(EscrowState::Expired) <==> action
            == EscrowAction::Expire && !state.is_terminal() && state != EscrowState::Disputed,
{
}

/// One escrow: who trades what, and where the trade stands.
#[derive(Debug, Clone, PartialEq, Eq)]
pub struct Escrow {
    pub order_id: OrderId,
    pub buyer: Address,
    pub seller: Address,
    /// What the buyer deposits.
    pub buyer_amount: Amount,
    /// What the seller deposits; zero in `Purchase` mode.
    pub seller_amount: Amount,
    pub mode: EscrowMode,
    pub state: EscrowState,
    /// When the escrow was created, in seconds.
    pub created_at: u64,
}

/// The view of an [`Escrow`]: the same fields, with amounts as numbers.
pub struct EscrowView {
    pub order_id: OrderId,
    pub buyer: Address,
    pub seller: Address,
    pub buyer_amount: nat,
    pub seller_amount: nat,
    pub mode: EscrowMode,
    pub state: EscrowState,
    pub created_at: u64,
}

impl View for Escrow {
    type V = EscrowView;

    open spec fn view(&self) -> EscrowView {
        EscrowView {
            order_id: self.order_id,
            buyer: self.buyer,
            seller: self.seller,
            buyer_amount: self.buyer_amount@,
            seller_amount: self.seller_amount@,
            mode: self.mode,
            state: self.state,
            created_at: self.created_at,
        }
    }
}

impl Default for Escrow {
    /// A fresh purchase of nothing between nobody and nobody.
    fn default() -> (r: Self)
        ensures
            r@ == (EscrowView {
                order_id: OrderId { high: 0, low: 0 },
                buyer: Address { high: 0, low: 0 },
                seller: Address { high: 0, low: 0 },
                buyer_amount: 0,
                seller_amount: 0,
                mode: EscrowMode::Purchase,
                state: EscrowState::Created,
                created_at: 0,
            }),
    {
        Escrow {
            order_id: OrderId { high: 0, low: 0 },
            buyer: Address { high: 0, low: 0 },
            seller: Address { high: 0, low: 0 },
            buyer_amount: Amount::zero(),
            seller_amount: Amount::zero(),
            mode: EscrowMode::Purchase,
            state: EscrowState::Created,
            created_at: 0,
        }
    }
}

impl EscrowView {
    /// The escrow with its state replaced.
    pub open spec fn with_state(self, state: EscrowState) -> EscrowView {
        EscrowView { state, ..self }
    }
}

impl Escrow {
    /// A copy of the escrow.
    pub fn copy(&self) -> (r: Self)
        ensures
            r@ == self@,
    {
        Escrow {
            order_id: self.order_id,
            buyer: self.buyer,
            seller: self.seller,
            buyer_amount: self.buyer_amount.copy(),
            seller_amount: self.seller_amount.copy(),
            mode: self.mode,
            state: self.state,
            created_at: self.created_at,
        }
    }

    /// Applies an action. Where the state admits it, the escrow moves to the
    /// next state and nothing else about it changes; otherwise the call
    /// fails with a transition error and the escrow stays as it was.
    pub fn apply(&mut self, action: EscrowAction) -> (r: Result<EscrowState, TransitionError>)
        ensures
            match next_state(old(self).mode, old(self).state, action) {
                Some(next) => r == Ok::<EscrowState, TransitionError>(next) && final(self)@ == old(
                    self,
                )@.with_state(next),
                None => r == Err::<EscrowState, TransitionError>(
                    TransitionError { from: old(self).state, action },
                ) && final(self)@ == old(self)@,
            },
    {
        match step(self.mode, self.state, action) {
            Some(next) => {
                self.state = next;
                Ok(next)
            },
            None => Err(TransitionError { from: self.state, action }),
        }
    }
}

/// The windows that an escrow was created with, in seconds.
#[derive(Debug, Clone, Copy, PartialEq, Eq, Structural)]
pub struct EscrowTerms {
    /// How long after creation both sides may still commit.
    pub commitment_window: u64,
    /// How long after both sides committed the claims may still be made.
    pub claim_window: u64,
    /// Whether delivery is confirmed by itself after a while.
    pub timed_release_enabled: bool,
    /// How long after both sides committed timed release confirms delivery.
    pub timed_release_window: u64,
}

/// Whether the seller's claim is still outstanding in `state`.
pub open spec fn seller_claim_pending(state: EscrowState) -> bool {
    state == EscrowState::BothCommitted || state == EscrowState::BuyerClaimed
}

/// Whether some claim is still outstanding in `state`.
pub open spec fn claim_pending(mode: EscrowMode, state: EscrowState) -> bool {
    seller_claim_pending(state) || (state == EscrowState::SellerClaimed && mode
        == EscrowMode::Swap)
}

/// What the clock alone brings about at time `now`, if anything.
///
/// While a commitment is outstanding, the escrow expires once the commitment
/// window, counted from creation, has run out. While the seller's claim is
/// outstanding and timed release is enabled, delivery is confirmed once the
/// release window, counted from the moment both sides had committed, has
/// been reached. Otherwise an outstanding claim lets the escrow expire once
/// the claim window, counted from that same moment, has run out. In every
/// other state the clock brings about nothing.
pub open spec fn due_action(
    escrow: EscrowView,
    terms: EscrowTerms,
    committed_at: u64,
    now: u64,
) -> Option<EscrowAction> {
    if escrow.state.is_before_both_committed() {
        if now > escrow.created_at + terms.commitment_window {
            Some(EscrowAction::Expire)
        } else {
            None
        }
    } else if seller_claim_pending(escrow.state) && terms.timed_release_enabled && now
        >= committed_at + terms.timed_release_window {
        Some(EscrowAction::SellerClaim)
    } else if claim_pending(escrow.mode, escrow.state) && now > committed_at
        + terms.claim_window {
        Some(EscrowAction::Expire)
    } else {
        None
    }
}

/// Whether `now` lies after `start + window`.
fn is_after(now: u64, start: u64, window: u64) -> (r: bool)
    ensures
        r == (now > start + window),
{
    match start.checked_add(window) {
        Some(deadline) => now > deadline,
        None => false,
    }
}

/// Whether `now` has reached `start + window`.
fn has_reached(now: u64, start: u64, window: u64) -> (r: bool)
    ensures
        r == (now >= start + window),
{
    match start.checked_add(window) {
        Some(deadline) => now >= deadline,
        None => false,
    }
}

/// What the clock alone brings about at time `now`, if anything.
pub fn scheduled_action(escrow: &Escrow, terms: &EscrowTerms, committed_at: u64, now: u64) -> (r:
    Option<EscrowAction>)
    ensures
        r == due_action(escrow@, *terms, committed_at, now),
{
    let state = escrow.state;
    let early = state == EscrowState::Created || state == EscrowState::BuyerCommitted || state
        == EscrowState::SellerCommitted;
    let seller_pending = state == EscrowState::BothCommitted || state
        == EscrowState::BuyerClaimed;
    let pending = seller_pending || (state == EscrowState::SellerClaimed && escrow.mode
        == EscrowMode::Swap);
    if early {
        if is_after(now, escrow.created_at, terms.commitment_window) {
            Some(EscrowAction::Expire)
        } else {
            None
        }
    } else if seller_pending && terms.timed_release_enabled && has_reached(
        now,
        committed_at,
        terms.timed_release_window,
    ) {
        Some(EscrowAction::SellerClaim)
    } else if pending && is_after(now, committed_at, terms.claim_window) {
        Some(EscrowAction::Expire)
    } else {
        None
    }
}

} // verus!

use tgp_escrow::amount::Amount;
use tgp_escrow::escrow::{
    scheduled_action, step, Address, Escrow, EscrowAction, EscrowMode, EscrowState, EscrowTerms,
    OrderId, TransitionError,
};

const STATES: [EscrowState; 11] = [
    EscrowState::Created,
    EscrowState::BuyerCommitted,
    EscrowState::SellerCommitted,
    EscrowState::BothCommitted,
    EscrowState::SellerClaimed,
    EscrowState::BuyerClaimed,
    EscrowState::BothClaimed,
    EscrowState::Disputed,
    EscrowState::Expired,
    EscrowState::Settled,
    EscrowState::Cancelled,
];

const ACTIONS: [EscrowAction; 10] = [
    EscrowAction::BuyerCommit,
    EscrowAction::SellerCommit,
    EscrowAction::BuyerClaim,
    EscrowAction::SellerClaim,
    EscrowAction::Settle,
    EscrowAction::Dispute,
    EscrowAction::Expire,
    EscrowAction::Cancel,
    EscrowAction::ResolveSettle,
    EscrowAction::ResolveCancel,
];

/// The transition table, written out once more by hand.
fn expected(mode: EscrowMode, state: EscrowState, action: EscrowAction) -> Option<EscrowState> {
    match (state, action) {
        (EscrowState::Created, EscrowAction::BuyerCommit) => Some(EscrowState::BuyerCommitted),
        (EscrowState::Created, EscrowAction::SellerCommit) => Some(EscrowState::SellerCommitted),
        (EscrowState::BuyerCommitted, EscrowAction::SellerCommit) => Some(EscrowState::BothCommitted),
        (EscrowState::SellerCommitted, EscrowAction::BuyerCommit) => Some(EscrowState::BothCommitted),
        (EscrowState::BothCommitted, EscrowAction::SellerClaim) => Some(EscrowState::SellerClaimed),
        (EscrowState::BothCommitted, EscrowAction::BuyerClaim) => Some(EscrowState::BuyerClaimed),
        (EscrowState::SellerClaimed, EscrowAction::BuyerClaim) => Some(EscrowState::BothClaimed),
        (EscrowState::BuyerClaimed, EscrowAction::SellerClaim) => Some(EscrowState::BothClaimed),
        (EscrowState::BothClaimed, EscrowAction::Settle) => Some(EscrowState::Settled),
        (EscrowState::SellerClaimed, EscrowAction::Settle) if mode == EscrowMode::Purchase => Some(EscrowState::Settled),
        (EscrowState::Settled, EscrowAction::Settle) => Some(EscrowState::Settled),
        (EscrowState::Created, EscrowAction::Cancel) | (EscrowState::BuyerCommitted, EscrowAction::Cancel) | (EscrowState::SellerCommitted, EscrowAction::Cancel) => {
            Some(EscrowState::Cancelled)
        }
        (EscrowState::Disputed, EscrowAction::ResolveSettle) => Some(EscrowState::Settled),
        (EscrowState::Disputed, EscrowAction::ResolveCancel) => Some(EscrowState::Cancelled),
        (EscrowState::Settled, EscrowAction::Dispute) | (EscrowState::Cancelled, EscrowAction::Dispute) | (EscrowState::Expired, EscrowAction::Dispute) => None,
        (_, EscrowAction::Dispute) => Some(EscrowState::Disputed),
        (EscrowState::Settled, EscrowAction::Expire)
        | (EscrowState::Cancelled, EscrowAction::Expire)
        | (EscrowState::Expired, EscrowAction::Expire)
        | (EscrowState::Disputed, EscrowAction::Expire) => None,
        (_, EscrowAction::Expire) => Some(EscrowState::Expired),
        _ => None,
    }
}

fn escrow_in(mode: EscrowMode, state: EscrowState) -> Escrow {
    Escrow {
        order_id: OrderId { high: 7, low: 9 },
        buyer: Address { high: 1, low: 2 },
        seller: Address { high: 3, low: 4 },
        buyer_amount: Amount::from_u128(500),
        seller_amount: Amount::from_u128(300),
        mode,
        state,
        created_at: 1_000,
    }
}

#[test]
fn step_follows_the_transition_table_for_every_state_and_action() {
    for mode in [EscrowMode::Purchase, EscrowMode::Swap] {
        for state in STATES {
            for action in ACTIONS {
                assert_eq!(
                    step(mode, state, action),
                    expected(mode, state, action),
                    "{:?} {:?} {:?}",
                    mode,
                    state,
                    action
                );
            }
        }
    }
}

#[test]
fn apply_moves_the_state_and_nothing_else() {
    for mode in [EscrowMode::Purchase, EscrowMode::Swap] {
        for state in STATES {
            for action in ACTIONS {
                let before = escrow_in(mode, state);
                let mut escrow = before.clone();
                match escrow.apply(action) {
                    Ok(next) => {
                        assert_eq!(Some(next), expected(mode, state, action));
                        assert_eq!(escrow, Escrow { state: next, ..before.clone() });
                    }
                    Err(e) => {
                        assert_eq!(expected(mode, state, action), None);
                        assert_eq!(e, TransitionError { from: state, action });
                        assert_eq!(escrow, before);
                    }
                }
            }
        }
    }
}

#[test]
fn terminal_states_are_settled_cancelled_expired() {
    for state in STATES {
        let terminal = matches!(
            state,
            EscrowState::Settled | EscrowState::Cancelled | EscrowState::Expired
        );
        assert_eq!(state.terminal(), terminal);
    }
}

#[test]
fn both_orders_of_commitment_reach_both_committed() {
    let mut a = escrow_in(EscrowMode::Swap, EscrowState::Created);
    assert_eq!(a.apply(EscrowAction::BuyerCommit), Ok(EscrowState::BuyerCommitted));
    assert_eq!(a.apply(EscrowAction::SellerCommit), Ok(EscrowState::BothCommitted));
    let mut b = escrow_in(EscrowMode::Swap, EscrowState::Created);
    assert_eq!(b.apply(EscrowAction::SellerCommit), Ok(EscrowState::SellerCommitted));
    assert_eq!(b.apply(EscrowAction::BuyerCommit), Ok(EscrowState::BothCommitted));
    assert_eq!(a, b);
}

#[test]
fn a_claim_before_both_commitments_is_refused() {
    for state in [EscrowState::Created, EscrowState::BuyerCommitted, EscrowState::SellerCommitted] {
        for action in [EscrowAction::BuyerClaim, EscrowAction::SellerClaim] {
            let mut escrow = escrow_in(EscrowMode::Swap, state);
            assert_eq!(escrow.apply(action), Err(TransitionError { from: state, action }));
            assert_eq!(escrow.state, state);
        }
    }
}

#[test]
fn purchase_settles_after_the_sellers_claim_and_swap_does_not() {
    let mut purchase = escrow_in(EscrowMode::Purchase, EscrowState::SellerClaimed);
    assert_eq!(purchase.apply(EscrowAction::Settle), Ok(EscrowState::Settled));
    let mut swap = escrow_in(EscrowMode::Swap, EscrowState::SellerClaimed);
    assert_eq!(
        swap.apply(EscrowAction::Settle),
        Err(TransitionError { from: EscrowState::SellerClaimed, action: EscrowAction::Settle })
    );
}

fn terms(release: bool) -> EscrowTerms {
    EscrowTerms {
        commitment_window: 1800,
        claim_window: 3600,
        timed_release_enabled: release,
        timed_release_window: 3600,
    }
}

#[test]
fn commitment_window_ends_strictly_after_its_last_second() {
    for state in [EscrowState::Created, EscrowState::BuyerCommitted, EscrowState::SellerCommitted] {
        let escrow = escrow_in(EscrowMode::Purchase, state);
        assert_eq!(scheduled_action(&escrow, &terms(true), 0, 2_800), None);
        assert_eq!(scheduled_action(&escrow, &terms(true), 0, 2_801), Some(EscrowAction::Expire));
    }
}

#[test]
fn timed_release_confirms_delivery_once_its_window_is_reached() {
    let escrow = escrow_in(EscrowMode::Purchase, EscrowState::BothCommitted);
    assert_eq!(scheduled_action(&escrow, &terms(true), 5_000, 8_599), None);
    assert_eq!(
        scheduled_action(&escrow, &terms(true), 5_000, 8_600),
        Some(EscrowAction::SellerClaim)
    );
    let escrow = escrow_in(EscrowMode::Swap, EscrowState::BuyerClaimed);
    assert_eq!(
        scheduled_action(&escrow, &terms(true), 5_000, 8_600),
        Some(EscrowAction::SellerClaim)
    );
}

#[test]
fn without_timed_release_an_outstanding_claim_expires() {
    let escrow = escrow_in(EscrowMode::Purchase, EscrowState::BothCommitted);
    assert_eq!(scheduled_action(&escrow, &terms(false), 5_000, 8_600), None);
    assert_eq!(scheduled_action(&escrow, &terms(false), 5_000, 8_601), Some(EscrowAction::Expire));
    let swap = escrow_in(EscrowMode::Swap, EscrowState::SellerClaimed);
    assert_eq!(scheduled_action(&swap, &terms(true), 5_000, 8_601), Some(EscrowAction::Expire));
    let purchase = escrow_in(EscrowMode::Purchase, EscrowState::SellerClaimed);
    assert_eq!(scheduled_action(&purchase, &terms(true), 5_000, 8_601), None);
}

#[test]
fn the_clock_does_nothing_once_an_escrow_has_resolved() {
    for state in [
        EscrowState::BothClaimed,
        EscrowState::Disputed,
        EscrowState::Expired,
        EscrowState::Settled,
        EscrowState::Cancelled,
    ] {
        for mode in [EscrowMode::Purchase, EscrowMode::Swap] {
            let escrow = escrow_in(mode, state);
            assert_eq!(scheduled_action(&escrow, &terms(true), 0, u64::MAX), None);
        }
    }
}

#[test]
fn windows_that_pass_the_end_of_time_never_run_out() {
    let mut escrow = escrow_in(EscrowMode::Purchase, EscrowState::Created);
    escrow.created_at = u64::MAX - 10;
    assert_eq!(scheduled_action(&escrow, &terms(true), 0, u64::MAX), None);
    let escrow = escrow_in(EscrowMode::Purchase, EscrowState::BothCommitted);
    assert_eq!(scheduled_action(&escrow, &terms(true), u64::MAX - 10, u64::MAX), None);
}

#[test]
fn a_default_escrow_is_a_fresh_purchase_of_nothing() {
    assert_eq!(EscrowState::default(), EscrowState::Created);
    assert_eq!(EscrowMode::default(), EscrowMode::Purchase);
    assert_eq!(
        Escrow::default(),
        Escrow {
            order_id: OrderId { high: 0, low: 0 },
            buyer: Address { high: 0, low: 0 },
            seller: Address { high: 0, low: 0 },
            buyer_amount: Amount::zero(),
            seller_amount: Amount::zero(),
            mode: EscrowMode::Purchase,
            state: EscrowState::Created,
            created_at: 0,
        }
    );
}

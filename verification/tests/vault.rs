use tgp_escrow::amount::Amount;
use tgp_escrow::escrow::{Address, OrderId};
use tgp_escrow::vault::{Digest, Receipt, Vault, VaultError};

fn receipt(order: u128, amount: u128) -> Receipt {
    Receipt {
        order_id: OrderId { high: 0, low: order },
        buyer: Address { high: 0, low: 1 },
        seller: Address { high: 0, low: 2 },
        amount: Amount::from_u128(amount),
        proof_hash: Digest { high: 5, low: 6 },
        timestamp: 77,
    }
}

#[test]
fn an_empty_vault_finds_nothing() {
    let vault = Vault::new();
    assert_eq!(vault.len(), 0);
    assert_eq!(vault.get_receipt(0), Err(VaultError::NotFound(0)));
    assert_eq!(vault.receipt_of(OrderId { high: 0, low: 0 }), None);
}

#[test]
fn the_first_settlement_mints_and_later_ones_do_not() {
    let mut vault = Vault::new();
    assert_eq!(vault.record(receipt(10, 100)), (0, true));
    assert_eq!(vault.record(receipt(11, 200)), (1, true));
    assert_eq!(vault.record(receipt(10, 999)), (0, false));
    assert_eq!(vault.record(receipt(11, 999)), (1, false));
    assert_eq!(vault.len(), 2);
    assert_eq!(vault.get_receipt(0), Ok(receipt(10, 100)));
    assert_eq!(vault.get_receipt(1), Ok(receipt(11, 200)));
    assert_eq!(vault.get_receipt(2), Err(VaultError::NotFound(2)));
    assert_eq!(vault.get_receipt(u64::MAX), Err(VaultError::NotFound(u64::MAX)));
}

#[test]
fn receipts_are_found_by_escrow_identity() {
    let mut vault = Vault::new();
    vault.record(receipt(10, 100));
    vault.record(receipt(11, 200));
    assert_eq!(vault.receipt_of(OrderId { high: 0, low: 11 }), Some(1));
    assert_eq!(vault.receipt_of(OrderId { high: 0, low: 10 }), Some(0));
    assert_eq!(vault.receipt_of(OrderId { high: 1, low: 10 }), None);
    assert_eq!(vault.receipt_of(OrderId { high: 0, low: 12 }), None);
}

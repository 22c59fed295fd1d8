//! Identity registry and revenue tracking.

use agent_memory::account::Address;
use agent_memory::identity::{ErrorCode, IdentityProvider, IdentityRegistry, VerifiedIdentity};
use agent_memory::revenue::RevenueTracker;

fn addr(id: u64) -> Address {
    Address { id }
}

fn nonzero_credential() -> [u8; 32] {
    let mut c = [0u8; 32];
    c[7] = 1;
    c
}

#[test]
fn said_credential_accepts_any_nonzero_bytes() {
    assert_eq!(VerifiedIdentity::verify_said_credential(&[0u8; 32]), Ok(false));
    assert_eq!(
        VerifiedIdentity::verify_said_credential(&nonzero_credential()),
        Ok(true)
    );
    let mut last_byte = [0u8; 32];
    last_byte[31] = 0xff;
    assert_eq!(VerifiedIdentity::verify_said_credential(&last_byte), Ok(true));
}

#[test]
fn identity_registration_verifies_per_provider() {
    let mut reg = IdentityRegistry::new();
    assert_eq!(
        reg.initialize_with_identity(addr(1), IdentityProvider::SAID, [0u8; 32], 0, 100),
        Err(ErrorCode::InvalidSAIDCredential)
    );
    assert_eq!(
        reg.initialize_with_identity(
            addr(1),
            IdentityProvider::Custom { provider: "acme".to_string() },
            [0u8; 32],
            0,
            100
        ),
        Err(ErrorCode::InvalidCredential)
    );
    // A plain key identity needs no credential at all.
    assert_eq!(
        reg.initialize_with_identity(addr(1), IdentityProvider::Pubkey, [0u8; 32], 0, 100),
        Ok(())
    );
    assert_eq!(
        reg.initialize_with_identity(
            addr(1),
            IdentityProvider::SAID,
            nonzero_credential(),
            0,
            100
        ),
        Err(ErrorCode::AlreadyExists)
    );
    assert_eq!(
        reg.initialize_with_identity(
            addr(2),
            IdentityProvider::SAID,
            nonzero_credential(),
            500,
            100
        ),
        Ok(())
    );
    assert_eq!(reg.identities.len(), 2);
    assert!(reg.identities[1].is_active);
    assert_eq!(reg.identities[1].verified_at, 100);
    assert_eq!(reg.identities[1].expires_at, 500);
}

#[test]
fn identity_validity_honours_activity_and_expiry() {
    let mut reg = IdentityRegistry::new();
    reg.initialize_with_identity(addr(1), IdentityProvider::Pubkey, [0u8; 32], 0, 100)
        .unwrap();
    reg.initialize_with_identity(
        addr(2),
        IdentityProvider::SAID,
        nonzero_credential(),
        500,
        100,
    )
    .unwrap();
    // Zero expiry never expires.
    assert!(reg.identities[0].is_valid(i64::MAX));
    // A non-zero expiry cuts off strictly after the deadline.
    assert!(reg.identities[1].is_valid(500));
    assert!(!reg.identities[1].is_valid(501));
    // Revocation invalidates immediately.
    reg.revoke(addr(1)).unwrap();
    assert!(!reg.identities[0].is_valid(0));
    assert_eq!(reg.revoke(addr(9)), Err(ErrorCode::NotFound));
}

#[test]
fn renew_extends_and_reactivates() {
    let mut reg = IdentityRegistry::new();
    reg.initialize_with_identity(
        addr(1),
        IdentityProvider::SAID,
        nonzero_credential(),
        500,
        100,
    )
    .unwrap();
    reg.revoke(addr(1)).unwrap();
    assert_eq!(
        reg.renew(addr(1), 900, [0u8; 32], 600),
        Err(ErrorCode::InvalidSAIDCredential)
    );
    let mut fresh = [0u8; 32];
    fresh[0] = 9;
    reg.renew(addr(1), 900, fresh, 600).unwrap();
    assert!(reg.identities[0].is_active);
    assert_eq!(reg.identities[0].expires_at, 900);
    assert_eq!(reg.identities[0].verified_at, 600);
    assert_eq!(reg.identities[0].credential, fresh);
    assert_eq!(reg.renew(addr(9), 900, fresh, 600), Err(ErrorCode::NotFound));
    // A non-SAID identity renews without credential verification.
    let mut reg2 = IdentityRegistry::new();
    reg2.initialize_with_identity(addr(3), IdentityProvider::Pubkey, [0u8; 32], 10, 5)
        .unwrap();
    reg2.renew(addr(3), 20, [0u8; 32], 15).unwrap();
    assert_eq!(reg2.identities[0].expires_at, 20);
}

#[test]
fn revenue_tracker_accumulates_and_averages() {
    let mut t = RevenueTracker::new(addr(1));
    t.record_transaction(1000, 100);
    assert_eq!(t.total_revenue, 1000);
    assert_eq!(t.transaction_count, 1);
    assert_eq!(t.avg_transaction, 1000);
    assert_eq!(t.first_transaction_at, 100);
    assert_eq!(t.last_transaction_at, 100);
    assert_eq!(t.mrr, 0);
    t.record_transaction(2000, 200);
    assert_eq!(t.total_revenue, 3000);
    assert_eq!(t.transaction_count, 2);
    assert_eq!(t.avg_transaction, 1500);
    assert_eq!(t.first_transaction_at, 100);
    assert_eq!(t.last_transaction_at, 200);
    // Still within the first thirty days: no monthly estimate yet.
    assert_eq!(t.mrr, 0);
}

#[test]
fn revenue_tracker_estimates_mrr_after_a_month() {
    let mut t = RevenueTracker::new(addr(1));
    // A zero timestamp is the "unset" sentinel, so history starts later.
    t.record_transaction(1000, 1000);
    // Forty days later: one whole month of activity.
    let forty_days: i64 = 1000 + 40 * 86400;
    t.record_transaction(2000, forty_days);
    assert_eq!(t.total_revenue, 3000);
    assert_eq!(t.mrr, 3000);
    // Seventy days in: two whole months.
    let seventy_days: i64 = 1000 + 70 * 86400;
    t.record_transaction(3000, seventy_days);
    assert_eq!(t.total_revenue, 6000);
    assert_eq!(t.mrr, 3000);
}

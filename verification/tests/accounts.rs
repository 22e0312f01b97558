//! Account authorities: sequence-number discipline and signing.

use forge::authority::{AccountAuthority, TransactionPayload};
use forge::chain::ChainIdentifier;
use forge::errors::AuthorityError;

#[test]
fn new_authority_starts_at_sequence_zero() {
    let authority = AccountAuthority::new(0x77, vec![1, 2, 3]);
    assert_eq!(authority.address(), 0x77);
    assert_eq!(authority.next_sequence_number(), 0);
}

#[test]
fn advance_sequence_number_strictly_increases() {
    let mut authority = AccountAuthority::new(0x77, vec![1, 2, 3]);
    assert!(authority.advance_sequence_number().is_ok());
    assert_eq!(authority.next_sequence_number(), 1);
    assert!(authority.advance_sequence_number().is_ok());
    assert_eq!(authority.next_sequence_number(), 2);
}

#[test]
fn advance_sequence_number_reports_exhaustion() {
    let mut authority = AccountAuthority::restore(0x77, vec![1, 2, 3], u64::MAX);
    assert_eq!(
        authority.advance_sequence_number(),
        Err(AuthorityError::SequenceExhausted)
    );
    assert_eq!(authority.next_sequence_number(), u64::MAX);
}

#[test]
fn restore_resumes_at_given_sequence_number() {
    let authority = AccountAuthority::restore(0x90, vec![9], 41);
    assert_eq!(authority.address(), 0x90);
    assert_eq!(authority.next_sequence_number(), 41);
}

#[test]
fn sign_binds_sender_sequence_chain_and_payload() {
    let mut authority = AccountAuthority::new(0x55, vec![7, 7]);
    assert!(authority.advance_sequence_number().is_ok());
    let chain = ChainIdentifier::test();
    let tx = authority.sign(chain, TransactionPayload::Transfer { to: 0x66, amount: 12 });
    assert_eq!(tx.sender(), 0x55);
    assert_eq!(tx.sequence_number(), 1);
    assert_eq!(tx.chain(), chain);
    assert_eq!(
        tx.payload(),
        TransactionPayload::Transfer { to: 0x66, amount: 12 }
    );
    // Signing is pure: the authority's cache did not move.
    assert_eq!(authority.next_sequence_number(), 1);
}

#[test]
fn chain_identifier_test_tag() {
    let chain = ChainIdentifier::test();
    assert_eq!(chain.id, forge::chain::TEST_CHAIN);
    assert_eq!(chain.id, 4);
}

use gridbot::api_jupiter::{build_swap_transaction, TxError};
use solana_sdk::message::{Message, VersionedMessage};
use solana_sdk::signature::{Keypair, Signature};
use solana_sdk::signer::Signer;
use solana_sdk::transaction::VersionedTransaction;

/// The bytes the swap service would send: an unsigned transaction whose one
/// required signer is `payer`.
fn unsigned_swap_bytes(payer: &Keypair) -> Vec<u8> {
    let message = Message::new(&[], Some(&payer.pubkey()));
    let tx = VersionedTransaction {
        signatures: vec![Signature::default()],
        message: VersionedMessage::Legacy(message),
    };
    bincode::serialize(&tx).unwrap()
}

#[test]
fn swap_transaction_gets_blockhash_and_signature() {
    let payer = Keypair::new_from_array([3u8; 32]);
    let bytes = unsigned_swap_bytes(&payer);
    let tx = build_swap_transaction(&bytes, [7u8; 32], &payer).unwrap();
    assert_eq!(*tx.message.recent_blockhash(), solana_sdk::hash::Hash::new_from_array([7u8; 32]));
    assert_eq!(tx.signatures.len(), 1);
    assert_ne!(tx.signatures[0], Signature::default());
    assert_eq!(tx.verify_with_results(), vec![true]);
    assert_eq!(tx.message.static_account_keys()[0], payer.pubkey());
}

#[test]
fn swap_transaction_keeps_the_message_apart_from_the_blockhash() {
    let payer = Keypair::new_from_array([5u8; 32]);
    let bytes = unsigned_swap_bytes(&payer);
    let tx = build_swap_transaction(&bytes, [9u8; 32], &payer).unwrap();
    let mut expected = Message::new(&[], Some(&payer.pubkey()));
    expected.recent_blockhash = solana_sdk::hash::Hash::new_from_array([9u8; 32]);
    assert_eq!(tx.message, VersionedMessage::Legacy(expected));
}

#[test]
fn swap_transaction_rejects_bytes_that_do_not_decode() {
    let payer = Keypair::new_from_array([3u8; 32]);
    assert_eq!(build_swap_transaction(&[], [7u8; 32], &payer).unwrap_err(), TxError::Malformed);
    assert_eq!(build_swap_transaction(&[1, 2, 3], [7u8; 32], &payer).unwrap_err(), TxError::Malformed);
}

#[test]
fn swap_transaction_rejects_a_keypair_that_is_not_the_signer() {
    let payer = Keypair::new_from_array([3u8; 32]);
    let other = Keypair::new_from_array([4u8; 32]);
    let bytes = unsigned_swap_bytes(&payer);
    assert_eq!(build_swap_transaction(&bytes, [7u8; 32], &other).unwrap_err(), TxError::Signing);
}

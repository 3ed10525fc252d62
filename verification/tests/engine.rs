use ledger_engine::errors::{CreateError, FrozenSide, LedgerError, TransferError};
use ledger_engine::history::ActionType;
use ledger_engine::ledger::{Ledger, TransferRequest};

fn keypair(seed: u8) -> (Vec<u8>, Vec<u8>) {
    let secp = secp256k1::Secp256k1::new();
    let sk = secp256k1::SecretKey::from_slice(&[seed; 32]).unwrap();
    let pk = secp256k1::PublicKey::from_secret_key(&secp, &sk);
    (pk.serialize().to_vec(), sk.secret_bytes().to_vec())
}

fn sign_transfer(sk: &[u8], from: &Vec<u8>, to: &Vec<u8>, amount: u64, nonce: u64) -> Vec<u8> {
    let msg = ledger_engine::message::transfer_message(from, to, amount, nonce);
    let digest = <sha2::Sha256 as sha2::Digest>::digest(&msg);
    let secp = secp256k1::Secp256k1::new();
    let sk = secp256k1::SecretKey::from_slice(sk).unwrap();
    let m = secp256k1::Message::from_digest_slice(&digest).unwrap();
    secp.sign_ecdsa(&m, &sk).serialize_compact().to_vec()
}

fn request(
    from: &Vec<u8>,
    to: &Vec<u8>,
    amount: u64,
    nonce: u64,
    signature: Vec<u8>,
) -> TransferRequest {
    TransferRequest {
        from_account: from.clone(),
        to_account: to.clone(),
        amount,
        nonce,
        signature,
    }
}

fn signed_request(
    sk: &[u8],
    from: &Vec<u8>,
    to: &Vec<u8>,
    amount: u64,
    nonce: u64,
) -> TransferRequest {
    let sig = sign_transfer(sk, from, to, amount, nonce);
    request(from, to, amount, nonce, sig)
}

fn balance_of(l: &Ledger, id: &Vec<u8>) -> u64 {
    l.get_account(id).unwrap().balance
}

#[test]
fn create_account_generates_keypair() {
    let mut l = Ledger::new();
    let (account, private_key) = l
        .create_account(String::from("alice"), 100)
        .unwrap();
    assert_eq!(account.id.len(), 33);
    assert_eq!(private_key.len(), 32);
    // The identity is the public key of the returned secret key: the
    // holder of the private key controls the account.
    let secp = secp256k1::Secp256k1::new();
    let sk = secp256k1::SecretKey::from_slice(&private_key).unwrap();
    let derived = secp256k1::PublicKey::from_secret_key(&secp, &sk);
    assert_eq!(account.id, derived.serialize().to_vec());
    assert_eq!(account.name, "alice");
    assert_eq!(account.balance, 100);
    assert!(!account.is_frozen);
    let fetched = l.get_account(&account.id).unwrap();
    assert_eq!(fetched.id, account.id);
    assert_eq!(fetched.balance, 100);
}

#[test]
fn create_account_with_identity_and_get() {
    let mut l = Ledger::new();
    let (pk, _sk) = keypair(1);
    let account = l
        .create_account_with_identity(String::from("alice"), 55, pk.clone())
        .unwrap();
    assert_eq!(account.id, pk);
    assert_eq!(account.balance, 55);
    let fetched = l.get_account(&pk).unwrap();
    assert_eq!(fetched.name, "alice");
    assert_eq!(fetched.balance, 55);
    assert!(!fetched.is_frozen);
}

#[test]
fn duplicate_identity_rejected() {
    let mut l = Ledger::new();
    let (pk, _sk) = keypair(1);
    l.create_account_with_identity(String::from("alice"), 10, pk.clone())
        .unwrap();
    let second = l.create_account_with_identity(String::from("impostor"), 99, pk.clone());
    assert_eq!(second, Err(CreateError::IdentityExists));
    let fetched = l.get_account(&pk).unwrap();
    assert_eq!(fetched.name, "alice");
    assert_eq!(fetched.balance, 10);
}

#[test]
fn get_account_unknown_is_none() {
    let l = Ledger::new();
    assert!(l.get_account(&vec![1, 2, 3]).is_none());
}

#[test]
fn scenario_signed_transfer_updates_balances() {
    let mut l = Ledger::new();
    let (a, a_sk) = keypair(1);
    let (b, _b_sk) = keypair(2);
    l.create_account_with_identity(String::from("a"), 100, a.clone())
        .unwrap();
    l.create_account_with_identity(String::from("b"), 0, b.clone())
        .unwrap();

    let t = signed_request(&a_sk, &a, &b, 40, 7);
    assert_eq!(l.create_transfer(&t), Ok(()));
    assert_eq!(balance_of(&l, &a), 60);
    assert_eq!(balance_of(&l, &b), 40);

    let history_a = l.get_history(&a, None).unwrap();
    let transfers_a: Vec<_> = history_a
        .iter()
        .filter(|e| e.action == ActionType::Transfer)
        .collect();
    assert_eq!(transfers_a.len(), 1);
    assert_eq!(transfers_a[0].amount, 40);
    assert_eq!(transfers_a[0].from, a);
    assert_eq!(transfers_a[0].to, b);

    let history_b = l.get_history(&b, None).unwrap();
    let transfers_b: Vec<_> = history_b
        .iter()
        .filter(|e| e.action == ActionType::Transfer)
        .collect();
    assert_eq!(transfers_b.len(), 1);
    assert_eq!(transfers_b[0].amount, 40);
}

#[test]
fn scenario_frozen_source_rejected() {
    let mut l = Ledger::new();
    let (a, a_sk) = keypair(1);
    let (b, _) = keypair(2);
    l.create_account_with_identity(String::from("a"), 100, a.clone())
        .unwrap();
    l.create_account_with_identity(String::from("b"), 0, b.clone())
        .unwrap();
    assert_eq!(l.freeze_account(&a), Ok(true));

    let t = signed_request(&a_sk, &a, &b, 40, 1);
    assert_eq!(
        l.create_transfer(&t),
        Err(TransferError::FrozenAccount(FrozenSide::Source))
    );
    assert_eq!(balance_of(&l, &a), 100);
    assert_eq!(balance_of(&l, &b), 0);
}

#[test]
fn frozen_destination_rejected() {
    let mut l = Ledger::new();
    let (a, a_sk) = keypair(1);
    let (b, _) = keypair(2);
    l.create_account_with_identity(String::from("a"), 100, a.clone())
        .unwrap();
    l.create_account_with_identity(String::from("b"), 0, b.clone())
        .unwrap();
    assert_eq!(l.freeze_account(&b), Ok(true));

    let t = signed_request(&a_sk, &a, &b, 40, 1);
    assert_eq!(
        l.create_transfer(&t),
        Err(TransferError::FrozenAccount(FrozenSide::Destination))
    );
    assert_eq!(balance_of(&l, &a), 100);
    assert_eq!(balance_of(&l, &b), 0);
}

#[test]
fn invalid_signature_rejected() {
    let mut l = Ledger::new();
    let (a, _a_sk) = keypair(1);
    let (b, b_sk) = keypair(2);
    l.create_account_with_identity(String::from("a"), 100, a.clone())
        .unwrap();
    l.create_account_with_identity(String::from("b"), 0, b.clone())
        .unwrap();

    // Signed with the wrong key: balances and freeze state would
    // otherwise permit the transfer.
    let t = signed_request(&b_sk, &a, &b, 40, 1);
    assert_eq!(l.create_transfer(&t), Err(TransferError::InvalidSignature));
    assert_eq!(balance_of(&l, &a), 100);
    assert_eq!(balance_of(&l, &b), 0);
}

#[test]
fn tampered_amount_rejected() {
    let mut l = Ledger::new();
    let (a, a_sk) = keypair(1);
    let (b, _) = keypair(2);
    l.create_account_with_identity(String::from("a"), 100, a.clone())
        .unwrap();
    l.create_account_with_identity(String::from("b"), 0, b.clone())
        .unwrap();

    // A valid signature over amount 1, replayed on a request for 90.
    let sig = sign_transfer(&a_sk, &a, &b, 1, 5);
    let t = request(&a, &b, 90, 5, sig);
    assert_eq!(l.create_transfer(&t), Err(TransferError::InvalidSignature));
    assert_eq!(balance_of(&l, &a), 100);
}

#[test]
fn malformed_signature_encoding_rejected() {
    let mut l = Ledger::new();
    let (a, _) = keypair(1);
    let (b, _) = keypair(2);
    l.create_account_with_identity(String::from("a"), 100, a.clone())
        .unwrap();
    l.create_account_with_identity(String::from("b"), 0, b.clone())
        .unwrap();

    let t = request(&a, &b, 10, 1, vec![0xab; 65]);
    assert_eq!(l.create_transfer(&t), Err(TransferError::InvalidSignature));
}

#[test]
fn insufficient_balance_rejected() {
    let mut l = Ledger::new();
    let (a, a_sk) = keypair(1);
    let (b, _) = keypair(2);
    l.create_account_with_identity(String::from("a"), 30, a.clone())
        .unwrap();
    l.create_account_with_identity(String::from("b"), 5, b.clone())
        .unwrap();

    let t = signed_request(&a_sk, &a, &b, 31, 1);
    assert_eq!(
        l.create_transfer(&t),
        Err(TransferError::InsufficientBalance)
    );
    assert_eq!(balance_of(&l, &a), 30);
    assert_eq!(balance_of(&l, &b), 5);
}

#[test]
fn balance_overflow_rejected() {
    let mut l = Ledger::new();
    let (a, a_sk) = keypair(1);
    let (b, _) = keypair(2);
    l.create_account_with_identity(String::from("a"), 100, a.clone())
        .unwrap();
    l.create_account_with_identity(String::from("b"), u64::MAX, b.clone())
        .unwrap();

    let t = signed_request(&a_sk, &a, &b, 1, 1);
    assert_eq!(l.create_transfer(&t), Err(TransferError::BalanceOverflow));
    assert_eq!(balance_of(&l, &a), 100);
    assert_eq!(balance_of(&l, &b), u64::MAX);
}

#[test]
fn transfer_unknown_account_rejected() {
    let mut l = Ledger::new();
    let (a, a_sk) = keypair(1);
    let (b, _) = keypair(2);
    l.create_account_with_identity(String::from("a"), 100, a.clone())
        .unwrap();

    let t = signed_request(&a_sk, &a, &b, 10, 1);
    assert_eq!(l.create_transfer(&t), Err(TransferError::AccountNotFound));

    let t = signed_request(&a_sk, &b, &a, 10, 1);
    assert_eq!(l.create_transfer(&t), Err(TransferError::AccountNotFound));
}

#[test]
fn zero_amount_transfer_succeeds() {
    let mut l = Ledger::new();
    let (a, a_sk) = keypair(1);
    let (b, _) = keypair(2);
    l.create_account_with_identity(String::from("a"), 0, a.clone())
        .unwrap();
    l.create_account_with_identity(String::from("b"), 0, b.clone())
        .unwrap();

    let t = signed_request(&a_sk, &a, &b, 0, 1);
    assert_eq!(l.create_transfer(&t), Ok(()));
    assert_eq!(balance_of(&l, &a), 0);
    assert_eq!(balance_of(&l, &b), 0);
}

#[test]
fn self_transfer_preserves_balance() {
    let mut l = Ledger::new();
    let (a, a_sk) = keypair(1);
    l.create_account_with_identity(String::from("a"), 70, a.clone())
        .unwrap();

    let t = signed_request(&a_sk, &a, &a, 20, 1);
    assert_eq!(l.create_transfer(&t), Ok(()));
    assert_eq!(balance_of(&l, &a), 70);
}

#[test]
fn opposite_transfers_restore_balances() {
    let mut l = Ledger::new();
    let (a, a_sk) = keypair(1);
    let (b, b_sk) = keypair(2);
    l.create_account_with_identity(String::from("a"), 100, a.clone())
        .unwrap();
    l.create_account_with_identity(String::from("b"), 50, b.clone())
        .unwrap();

    assert_eq!(
        l.create_transfer(&signed_request(&a_sk, &a, &b, 25, 1)),
        Ok(())
    );
    assert_eq!(balance_of(&l, &a) + balance_of(&l, &b), 150);
    assert_eq!(
        l.create_transfer(&signed_request(&b_sk, &b, &a, 25, 2)),
        Ok(())
    );
    assert_eq!(balance_of(&l, &a), 100);
    assert_eq!(balance_of(&l, &b), 50);
}

#[test]
fn alternating_transfers_conserve_sum() {
    // Transfers settle one at a time; whatever order opposite
    // requests arrive in, the pair's total never changes and no torn
    // state is observable between settlements.
    let mut l = Ledger::new();
    let (a, a_sk) = keypair(1);
    let (b, b_sk) = keypair(2);
    l.create_account_with_identity(String::from("a"), 100, a.clone())
        .unwrap();
    l.create_account_with_identity(String::from("b"), 50, b.clone())
        .unwrap();

    for round in 0..50u64 {
        let (from, to, sk) = if round % 2 == 0 {
            (&a, &b, &a_sk)
        } else {
            (&b, &a, &b_sk)
        };
        assert_eq!(
            l.create_transfer(&signed_request(sk, from, to, 3, round)),
            Ok(())
        );
        assert_eq!(balance_of(&l, &a) + balance_of(&l, &b), 150);
    }
    assert_eq!(balance_of(&l, &a), 100);
    assert_eq!(balance_of(&l, &b), 50);
}

#[test]
fn replay_is_not_rejected() {
    // The engine accepts a nonce but never records it: replaying the
    // identical signed request settles again. This test pins that
    // behavior down so it is explicit rather than accidental.
    let mut l = Ledger::new();
    let (a, a_sk) = keypair(1);
    let (b, _) = keypair(2);
    l.create_account_with_identity(String::from("a"), 100, a.clone())
        .unwrap();
    l.create_account_with_identity(String::from("b"), 0, b.clone())
        .unwrap();

    let t = signed_request(&a_sk, &a, &b, 10, 42);
    assert_eq!(l.create_transfer(&t), Ok(()));
    assert_eq!(l.create_transfer(&t), Ok(()));
    assert_eq!(balance_of(&l, &a), 80);
    assert_eq!(balance_of(&l, &b), 20);
}

#[test]
fn freeze_unfreeze_idempotent() {
    let mut l = Ledger::new();
    let (a, _) = keypair(1);
    l.create_account_with_identity(String::from("a"), 10, a.clone())
        .unwrap();

    assert_eq!(l.unfreeze_account(&a), Ok(false));
    assert_eq!(l.freeze_account(&a), Ok(true));
    assert!(l.get_account(&a).unwrap().is_frozen);
    assert_eq!(l.freeze_account(&a), Ok(false));
    assert_eq!(l.unfreeze_account(&a), Ok(true));
    assert!(!l.get_account(&a).unwrap().is_frozen);
    assert_eq!(l.unfreeze_account(&a), Ok(false));

    let missing = vec![9, 9, 9];
    assert_eq!(l.freeze_account(&missing), Err(LedgerError::AccountNotFound));
    assert_eq!(
        l.unfreeze_account(&missing),
        Err(LedgerError::AccountNotFound)
    );
}

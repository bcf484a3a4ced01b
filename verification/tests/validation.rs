use ed25519_dalek::Signer;
use ed25519_dalek::SigningKey;
use rollup::account::AccountId;
use rollup::account::AccountInformation;
use rollup::account::AccountPublicKey;
use rollup::ledger::hash_leaf;
use rollup::ledger::hash_two_to_one;
use rollup::ledger::AccountPath;
use rollup::ledger::Amount;
use rollup::ledger::MerkleRoot;
use rollup::ledger::Parameters;
use rollup::transaction::Signature;
use rollup::transaction::TransactionVar;

fn demo_params() -> Parameters {
    Parameters {
        leaf_crh_params: b"leaf-domain".to_vec(),
        two_to_one_crh_params: b"node-domain".to_vec(),
    }
}

fn key(seed: u8) -> SigningKey {
    SigningKey::from_bytes(&[seed; 32])
}

fn account_for(key: &SigningKey, balance: u64) -> AccountInformation {
    AccountInformation {
        public_key: AccountPublicKey(key.verifying_key().to_bytes().to_vec()),
        balance: Amount(balance),
    }
}

struct Tree {
    root: MerkleRoot,
    path0: AccountPath,
    path1: AccountPath,
}

fn two_leaf_tree(
    params: &Parameters,
    leaf0: &AccountInformation,
    leaf1: &AccountInformation,
) -> Tree {
    let h0 = hash_leaf(&params.leaf_crh_params, &leaf0.to_bytes_le());
    let h1 = hash_leaf(&params.leaf_crh_params, &leaf1.to_bytes_le());
    let root = hash_two_to_one(&params.two_to_one_crh_params, &h0, &h1);
    Tree {
        root: MerkleRoot(root),
        path0: AccountPath { leaf_index: 0, siblings: vec![h1] },
        path1: AccountPath { leaf_index: 1, siblings: vec![h0] },
    }
}

fn signed_tx(key: &SigningKey, sender: u8, recipient: u8, amount: u64) -> TransactionVar {
    let unsigned = TransactionVar::new(
        AccountId(sender),
        AccountId(recipient),
        Amount(amount),
        Signature(vec![]),
    );
    let sig = key.sign(unsigned.message().as_slice()).to_bytes().to_vec();
    TransactionVar::new(AccountId(sender), AccountId(recipient), Amount(amount), Signature(sig))
}

#[test]
fn valid_transfer_accepted() {
    let params = demo_params();
    let sender_key = key(1);
    let recipient_key = key(2);
    let pre_sender = account_for(&sender_key, 100);
    let pre_recipient = account_for(&recipient_key, 10);
    let pre = two_leaf_tree(&params, &pre_sender, &pre_recipient);
    // The recomputed post balances are 100 - 30 = 70 and 10 + 30 = 40.
    assert_eq!(pre_sender.balance.checked_sub(&Amount(30)), Some(Amount(70)));
    assert_eq!(pre_recipient.balance.checked_add(&Amount(30)), Some(Amount(40)));
    let post_sender = account_for(&sender_key, 70);
    let post_recipient = account_for(&recipient_key, 40);
    let post = two_leaf_tree(&params, &post_sender, &post_recipient);
    let tx = signed_tx(&sender_key, 0, 1, 30);
    assert!(tx.validate(
        &params,
        &pre_sender,
        &pre.path0,
        &post.path0,
        &pre_recipient,
        &pre.path1,
        &post.path1,
        &pre.root,
        &post.root,
    ));
}

#[test]
fn full_balance_transfer_accepted() {
    let params = demo_params();
    let sender_key = key(1);
    let recipient_key = key(2);
    let pre_sender = account_for(&sender_key, 100);
    let pre_recipient = account_for(&recipient_key, 10);
    let pre = two_leaf_tree(&params, &pre_sender, &pre_recipient);
    let post_sender = account_for(&sender_key, 0);
    let post_recipient = account_for(&recipient_key, 110);
    let post = two_leaf_tree(&params, &post_sender, &post_recipient);
    let tx = signed_tx(&sender_key, 0, 1, 100);
    assert!(tx.validate(
        &params,
        &pre_sender,
        &pre.path0,
        &post.path0,
        &pre_recipient,
        &pre.path1,
        &post.path1,
        &pre.root,
        &post.root,
    ));
}

#[test]
fn insufficient_balance_rejected() {
    let params = demo_params();
    let sender_key = key(1);
    let recipient_key = key(2);
    let pre_sender = account_for(&sender_key, 100);
    let pre_recipient = account_for(&recipient_key, 10);
    let pre = two_leaf_tree(&params, &pre_sender, &pre_recipient);
    let tx = signed_tx(&sender_key, 0, 1, 101);
    assert!(!tx.validate(
        &params,
        &pre_sender,
        &pre.path0,
        &pre.path0,
        &pre_recipient,
        &pre.path1,
        &pre.path1,
        &pre.root,
        &pre.root,
    ));
}

#[test]
fn recipient_overflow_rejected() {
    let params = demo_params();
    let sender_key = key(1);
    let recipient_key = key(2);
    let pre_sender = account_for(&sender_key, 100);
    let pre_recipient = account_for(&recipient_key, u64::MAX);
    let pre = two_leaf_tree(&params, &pre_sender, &pre_recipient);
    let tx = signed_tx(&sender_key, 0, 1, 1);
    assert!(!tx.validate(
        &params,
        &pre_sender,
        &pre.path0,
        &pre.path0,
        &pre_recipient,
        &pre.path1,
        &pre.path1,
        &pre.root,
        &pre.root,
    ));
}

// A fixture whose trees fit the transaction (0, 1, 30) exactly, validated
// with a signature over a message differing in a single byte.
fn validate_with_signature_over(signed_sender: u8, signed_recipient: u8, signed_amount: u64) -> bool {
    let params = demo_params();
    let sender_key = key(1);
    let recipient_key = key(2);
    let pre_sender = account_for(&sender_key, 100);
    let pre_recipient = account_for(&recipient_key, 10);
    let pre = two_leaf_tree(&params, &pre_sender, &pre_recipient);
    let post_sender = account_for(&sender_key, 70);
    let post_recipient = account_for(&recipient_key, 40);
    let post = two_leaf_tree(&params, &post_sender, &post_recipient);
    let signed = signed_tx(&sender_key, signed_sender, signed_recipient, signed_amount);
    let tx = TransactionVar::new(AccountId(0), AccountId(1), Amount(30), signed.signature);
    tx.validate(
        &params,
        &pre_sender,
        &pre.path0,
        &post.path0,
        &pre_recipient,
        &pre.path1,
        &post.path1,
        &pre.root,
        &post.root,
    )
}

#[test]
fn tampered_sender_byte_rejected() {
    assert!(validate_with_signature_over(0, 1, 30));
    assert!(!validate_with_signature_over(5, 1, 30));
}

#[test]
fn tampered_recipient_byte_rejected() {
    assert!(!validate_with_signature_over(0, 9, 30));
}

#[test]
fn tampered_amount_byte_rejected() {
    assert!(!validate_with_signature_over(0, 1, 31));
}

#[test]
fn signed_amount_mismatch_rejected() {
    // The signature covers amount 30 while the transaction claims 31; the
    // trees are consistent with the claimed amount, so only the signature
    // check fails.
    let params = demo_params();
    let sender_key = key(1);
    let recipient_key = key(2);
    let pre_sender = account_for(&sender_key, 100);
    let pre_recipient = account_for(&recipient_key, 10);
    let pre = two_leaf_tree(&params, &pre_sender, &pre_recipient);
    let post_sender = account_for(&sender_key, 69);
    let post_recipient = account_for(&recipient_key, 41);
    let post = two_leaf_tree(&params, &post_sender, &post_recipient);
    let signed = signed_tx(&sender_key, 0, 1, 30);
    let tx = TransactionVar::new(AccountId(0), AccountId(1), Amount(31), signed.signature);
    assert!(!tx.validate(
        &params,
        &pre_sender,
        &pre.path0,
        &post.path0,
        &pre_recipient,
        &pre.path1,
        &post.path1,
        &pre.root,
        &post.root,
    ));
}

#[test]
fn wrong_post_sender_balance_rejected() {
    let params = demo_params();
    let sender_key = key(1);
    let recipient_key = key(2);
    let pre_sender = account_for(&sender_key, 100);
    let pre_recipient = account_for(&recipient_key, 10);
    let pre = two_leaf_tree(&params, &pre_sender, &pre_recipient);
    // The post tree records 69 for the sender where the transfer of 30
    // leaves 70, so the sender's post-state membership check fails.
    let post_sender = account_for(&sender_key, 69);
    let post_recipient = account_for(&recipient_key, 40);
    let post = two_leaf_tree(&params, &post_sender, &post_recipient);
    let tx = signed_tx(&sender_key, 0, 1, 30);
    assert!(!tx.validate(
        &params,
        &pre_sender,
        &pre.path0,
        &post.path0,
        &pre_recipient,
        &pre.path1,
        &post.path1,
        &pre.root,
        &post.root,
    ));
}

#[test]
fn wrong_post_sender_position_rejected() {
    let params = demo_params();
    let sender_key = key(1);
    let recipient_key = key(2);
    let pre_sender = account_for(&sender_key, 100);
    let pre_recipient = account_for(&recipient_key, 10);
    let pre = two_leaf_tree(&params, &pre_sender, &pre_recipient);
    let post_sender = account_for(&sender_key, 70);
    let post_recipient = account_for(&recipient_key, 40);
    let post = two_leaf_tree(&params, &post_sender, &post_recipient);
    let tx = signed_tx(&sender_key, 0, 1, 30);
    // The recipient's post path stands in for the sender's, so the
    // sender's updated leaf is checked at the wrong position.
    assert!(!tx.validate(
        &params,
        &pre_sender,
        &pre.path0,
        &post.path1,
        &pre_recipient,
        &pre.path1,
        &post.path1,
        &pre.root,
        &post.root,
    ));
}

#[test]
fn revalidation_is_idempotent() {
    let params = demo_params();
    let sender_key = key(1);
    let recipient_key = key(2);
    let pre_sender = account_for(&sender_key, 100);
    let pre_recipient = account_for(&recipient_key, 10);
    let pre = two_leaf_tree(&params, &pre_sender, &pre_recipient);
    let post_sender = account_for(&sender_key, 70);
    let post_recipient = account_for(&recipient_key, 40);
    let post = two_leaf_tree(&params, &post_sender, &post_recipient);
    let tx = signed_tx(&sender_key, 0, 1, 30);
    let first = tx.validate(
        &params,
        &pre_sender,
        &pre.path0,
        &post.path0,
        &pre_recipient,
        &pre.path1,
        &post.path1,
        &pre.root,
        &post.root,
    );
    let second = tx.validate(
        &params,
        &pre_sender,
        &pre.path0,
        &post.path0,
        &pre_recipient,
        &pre.path1,
        &post.path1,
        &pre.root,
        &post.root,
    );
    assert_eq!(first, second);
    assert!(first);
}

#[test]
fn self_transfer_of_zero_accepted() {
    let params = demo_params();
    let sender_key = key(1);
    let other_key = key(2);
    let acc = account_for(&sender_key, 100);
    let other = account_for(&other_key, 10);
    let tree = two_leaf_tree(&params, &acc, &other);
    let tx = signed_tx(&sender_key, 0, 0, 0);
    assert!(tx.validate(
        &params,
        &acc,
        &tree.path0,
        &tree.path0,
        &acc,
        &tree.path0,
        &tree.path0,
        &tree.root,
        &tree.root,
    ));
}

#[test]
fn signature_verifies_against_owning_key_only() {
    let sender_key = key(1);
    let recipient_key = key(2);
    let sender = account_for(&sender_key, 100);
    let recipient = account_for(&recipient_key, 10);
    let tx = signed_tx(&sender_key, 0, 1, 30);
    assert!(tx.verify_signature(&sender.public_key));
    assert!(!tx.verify_signature(&recipient.public_key));
}

#[test]
fn malformed_signature_bytes_rejected() {
    let sender_key = key(1);
    let sender = account_for(&sender_key, 100);
    let tx = TransactionVar::new(AccountId(0), AccountId(1), Amount(30), Signature(vec![1u8, 2]));
    assert!(!tx.verify_signature(&sender.public_key));
}

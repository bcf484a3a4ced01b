//! Transactions and the validation predicate: a signature check, checked
//! balance updates, and four Merkle membership checks, combined by logical
//! AND into one boolean.

use vstd::prelude::*;
use crate::account::AccountId;
use crate::account::AccountInformation;
use crate::account::AccountPublicKey;
use crate::ledger::AccountPath;
use crate::ledger::Amount;
use crate::ledger::MerkleRoot;
use crate::ledger::Parameters;
use crate::ledger::account_root;
use crate::ledger::bytes_eq;
use crate::ledger::compute_account_root;

verus! {

/// A signature value over a message, supplied pre-computed and only ever
/// verified, never recomputed.
pub struct Signature(pub Vec<u8>);

/// A transaction transferring some amount from one account to another.
pub struct TransactionVar {
    /// The account identifier of the sender.
    pub sender: AccountId,
    /// The account identifier of the recipient.
    pub recipient: AccountId,
    /// The amount being transferred from the sender to the recipient.
    pub amount: Amount,
    /// The spend authorization is a signature over the sender, the
    /// recipient, and the amount.
    pub signature: Signature,
}

/// Whether the signature scheme accepts `sig` as a signature on `msg` under
/// the public key `pk`; named but never restated.
pub uninterp spec fn signature_valid(pk: Seq<u8>, msg: Seq<u8>, sig: Seq<u8>) -> bool;

/// Relies on ed25519_dalek::VerifyingKey::verify_strict, with
/// ed25519_dalek::VerifyingKey::try_from and
/// ed25519_dalek::Signature::from_slice to read the raw bytes: acceptance
/// depends on the public-key bytes, the message bytes, and the signature
/// bytes alone, and bytes that are no well-formed key or signature are
/// never accepted.
#[verifier::external_body]
fn ed25519_verify(pk: &Vec<u8>, msg: &Vec<u8>, sig: &Vec<u8>) -> (r: bool)
    ensures
        r == signature_valid(pk@, msg@, sig@),
{
    let vk = match ed25519_dalek::VerifyingKey::try_from(pk.as_slice()) {
        Ok(vk) => vk,
        Err(_) => return false,
    };
    let parsed = match ed25519_dalek::Signature::from_slice(sig.as_slice()) {
        Ok(parsed) => parsed,
        Err(_) => return false,
    };
    vk.verify_strict(msg.as_slice(), &parsed).is_ok()
}

/// The authorized message: the canonical bytes of the sender id, the
/// recipient id, and the amount, in that order. The sender's public key is
/// not part of the message; it is bound through the sender's membership
/// proof instead.
pub open spec fn message_bytes(tx: TransactionVar) -> Seq<u8> {
    tx.sender.spec_bytes() + tx.recipient.spec_bytes() + tx.amount.spec_bytes()
}

/// The sender's account content after the transfer: same key, balance
/// decreased by the amount.
pub open spec fn post_sender_info(tx: TransactionVar, pre: AccountInformation) -> AccountInformation {
    AccountInformation {
        public_key: pre.public_key,
        balance: Amount((pre.balance.0 - tx.amount.0) as u64),
    }
}

/// The recipient's account content after the transfer: same key, balance
/// increased by the amount.
pub open spec fn post_recipient_info(
    tx: TransactionVar,
    pre: AccountInformation,
) -> AccountInformation {
    AccountInformation {
        public_key: pre.public_key,
        balance: Amount((pre.balance.0 + tx.amount.0) as u64),
    }
}

/// Whether `account`, serialized as a leaf, reproduces `root` along `path`.
pub open spec fn account_in_tree(
    params: Parameters,
    path: AccountPath,
    account: AccountInformation,
    root: MerkleRoot,
) -> bool {
    account_root(params, account.spec_bytes(), path) == root.0@
}

/// The validation predicate: the sender signed (sender, recipient, amount)
/// under the key in the sender's pre-state leaf; the sender's balance
/// covers the amount; the recipient's balance does not overflow; and both
/// accounts are in the tree before the transfer under `pre_root` and after
/// it, with updated balances, under `post_root`.
pub open spec fn transaction_valid(
    tx: TransactionVar,
    params: Parameters,
    pre_sender_acc_info: AccountInformation,
    pre_sender_path: AccountPath,
    post_sender_path: AccountPath,
    pre_recipient_acc_info: AccountInformation,
    pre_recipient_path: AccountPath,
    post_recipient_path: AccountPath,
    pre_root: MerkleRoot,
    post_root: MerkleRoot,
) -> bool {
    &&& signature_valid(pre_sender_acc_info.public_key.0@, message_bytes(tx), tx.signature.0@)
    &&& tx.amount.0 <= pre_sender_acc_info.balance.0
    &&& pre_recipient_acc_info.balance.0 + tx.amount.0 <= u64::MAX
    &&& account_in_tree(params, pre_sender_path, pre_sender_acc_info, pre_root)
    &&& account_in_tree(params, post_sender_path, post_sender_info(tx, pre_sender_acc_info), post_root)
    &&& account_in_tree(params, pre_recipient_path, pre_recipient_acc_info, pre_root)
    &&& account_in_tree(
        params,
        post_recipient_path,
        post_recipient_info(tx, pre_recipient_acc_info),
        post_root,
    )
}

impl TransactionVar {
    /// Assemble a transaction from its four fields.
    pub fn new(
        sender: AccountId,
        recipient: AccountId,
        amount: Amount,
        signature: Signature,
    ) -> (r: TransactionVar)
        ensures
            r.sender == sender,
            r.recipient == recipient,
            r.amount == amount,
            r.signature == signature,
    {
        TransactionVar { sender, recipient, amount, signature }
    }

    /// The authorized message for this transaction, as bytes.
    pub fn message(&self) -> (r: Vec<u8>)
        ensures
            r@ == message_bytes(*self),
    {
        let mut message = self.sender.to_bytes_le();
        let recipient_bytes = self.recipient.to_bytes_le();
        let amount_bytes = self.amount.to_bytes_le();
        crate::ledger::append_bytes(&mut message, &recipient_bytes);
        crate::ledger::append_bytes(&mut message, &amount_bytes);
        proof {
            assert(message@ =~= message_bytes(*self));
        }
        message
    }

    /// Verify just the signature in the transaction against the given
    /// public key.
    pub fn verify_signature(&self, pub_key: &AccountPublicKey) -> (r: bool)
        ensures
            r == signature_valid(pub_key.0@, message_bytes(*self), self.signature.0@),
    {
        let message = self.message();
        ed25519_verify(&pub_key.0, &message, &self.signature.0)
    }

    /// Check that `account`, serialized as a leaf, is present in the tree
    /// with the given root along `account_path`.
    pub fn check_account_existence(
        &self,
        parameters: &Parameters,
        account_path: &AccountPath,
        account: &AccountInformation,
        root: &MerkleRoot,
    ) -> (r: bool)
        ensures
            r == account_in_tree(*parameters, *account_path, *account, *root),
    {
        let leaf = account.to_bytes_le();
        let computed = compute_account_root(parameters, &leaf, account_path);
        bytes_eq(&computed, &root.0)
    }

    /// Check that the transaction is valid for the given ledger state. This
    /// checks the following conditions:
    /// 1. The signature is valid with respect to the public key in the
    /// sender's pre-transaction account information.
    /// 2. The sender's account has sufficient balance to finance the
    /// transaction, and the recipient's balance does not overflow.
    /// 3. Sender and recipient both exist in the tree before the transfer
    /// under `pre_root`, and after it, with updated balances, under
    /// `post_root`.
    /// Every failed check makes the result false; nothing aborts.
    pub fn validate(
        &self,
        parameters: &Parameters,
        pre_sender_acc_info: &AccountInformation,
        pre_sender_path: &AccountPath,
        post_sender_path: &AccountPath,
        pre_recipient_acc_info: &AccountInformation,
        pre_recipient_path: &AccountPath,
        post_recipient_path: &AccountPath,
        pre_root: &MerkleRoot,
        post_root: &MerkleRoot,
    ) -> (r: bool)
        ensures
            r == transaction_valid(
                *self,
                *parameters,
                *pre_sender_acc_info,
                *pre_sender_path,
                *post_sender_path,
                *pre_recipient_acc_info,
                *pre_recipient_path,
                *post_recipient_path,
                *pre_root,
                *post_root,
            ),
    {
        // Verify the signature against the sender public key.
        let sig_verifies = self.verify_signature(&pre_sender_acc_info.public_key);

        // Compute the new sender balance; insufficient balance invalidates
        // the transaction.
        let post_sender_balance = match pre_sender_acc_info.balance.checked_sub(&self.amount) {
            Some(balance) => balance,
            None => {
                return false;
            },
        };
        let post_sender_acc_info = AccountInformation {
            public_key: pre_sender_acc_info.public_key.duplicate(),
            balance: post_sender_balance,
        };

        // Compute the new recipient balance; overflow invalidates the
        // transaction.
        let post_recipient_balance = match pre_recipient_acc_info.balance.checked_add(
            &self.amount,
        ) {
            Some(balance) => balance,
            None => {
                return false;
            },
        };
        let post_recipient_acc_info = AccountInformation {
            public_key: pre_recipient_acc_info.public_key.duplicate(),
            balance: post_recipient_balance,
        };
        proof {
            assert(post_sender_acc_info.spec_bytes() == post_sender_info(
                *self,
                *pre_sender_acc_info,
            ).spec_bytes());
            assert(post_recipient_acc_info.spec_bytes() == post_recipient_info(
                *self,
                *pre_recipient_acc_info,
            ).spec_bytes());
        }

        // Check that the pre-transaction sender account information is
        // correct with respect to `pre_root`, and that the post-transaction
        // sender account information is correct with respect to `post_root`.
        let sender_existed = self.check_account_existence(
            parameters,
            pre_sender_path,
            pre_sender_acc_info,
            pre_root,
        );
        let sender_will_exist = self.check_account_existence(
            parameters,
            post_sender_path,
            &post_sender_acc_info,
            post_root,
        );
        let sender_exists = sender_existed && sender_will_exist;

        // Check that the pre-transaction recipient account information is
        // correct with respect to `pre_root`, and that the post-transaction
        // recipient account information is correct with respect to
        // `post_root`.
        let recipient_existed = self.check_account_existence(
            parameters,
            pre_recipient_path,
            pre_recipient_acc_info,
            pre_root,
        );
        let recipient_will_exist = self.check_account_existence(
            parameters,
            post_recipient_path,
            &post_recipient_acc_info,
            post_root,
        );
        let recipient_exists = recipient_existed && recipient_will_exist;

        sender_exists && recipient_exists && sig_verifies
    }
}

/// Law: a transaction that meets every condition — an accepted signature
/// under the sender's pre-state key, a sufficient sender balance, no
/// recipient overflow, and all four membership checks — is valid.
pub proof fn lemma_valid_transaction_accepted(
    tx: TransactionVar,
    params: Parameters,
    pre_sender_acc_info: AccountInformation,
    pre_sender_path: AccountPath,
    post_sender_path: AccountPath,
    pre_recipient_acc_info: AccountInformation,
    pre_recipient_path: AccountPath,
    post_recipient_path: AccountPath,
    pre_root: MerkleRoot,
    post_root: MerkleRoot,
)
    requires
        signature_valid(pre_sender_acc_info.public_key.0@, message_bytes(tx), tx.signature.0@),
        tx.amount.0 <= pre_sender_acc_info.balance.0,
        pre_recipient_acc_info.balance.0 + tx.amount.0 <= u64::MAX,
        account_in_tree(params, pre_sender_path, pre_sender_acc_info, pre_root),
        account_in_tree(params, post_sender_path, post_sender_info(tx, pre_sender_acc_info), post_root),
        account_in_tree(params, pre_recipient_path, pre_recipient_acc_info, pre_root),
        account_in_tree(
            params,
            post_recipient_path,
            post_recipient_info(tx, pre_recipient_acc_info),
            post_root,
        ),
    ensures
        transaction_valid(
            tx,
            params,
            pre_sender_acc_info,
            pre_sender_path,
            post_sender_path,
            pre_recipient_acc_info,
            pre_recipient_path,
            post_recipient_path,
            pre_root,
            post_root,
        ),
{
}

/// Law: a transaction whose amount exceeds the sender's pre-transaction
/// balance is invalid, whatever the signature, the paths and the roots.
pub proof fn lemma_insufficient_balance_rejected(
    tx: TransactionVar,
    params: Parameters,
    pre_sender_acc_info: AccountInformation,
    pre_sender_path: AccountPath,
    post_sender_path: AccountPath,
    pre_recipient_acc_info: AccountInformation,
    pre_recipient_path: AccountPath,
    post_recipient_path: AccountPath,
    pre_root: MerkleRoot,
    post_root: MerkleRoot,
)
    requires
        tx.amount.0 > pre_sender_acc_info.balance.0,
    ensures
        !transaction_valid(
            tx,
            params,
            pre_sender_acc_info,
            pre_sender_path,
            post_sender_path,
            pre_recipient_acc_info,
            pre_recipient_path,
            post_recipient_path,
            pre_root,
            post_root,
        ),
{
}

/// Law: a transaction that would push the recipient's balance past the
/// largest representable amount is invalid, whatever the signature, the
/// paths and the roots.
pub proof fn lemma_recipient_overflow_rejected(
    tx: TransactionVar,
    params: Parameters,
    pre_sender_acc_info: AccountInformation,
    pre_sender_path: AccountPath,
    post_sender_path: AccountPath,
    pre_recipient_acc_info: AccountInformation,
    pre_recipient_path: AccountPath,
    post_recipient_path: AccountPath,
    pre_root: MerkleRoot,
    post_root: MerkleRoot,
)
    requires
        pre_recipient_acc_info.balance.0 + tx.amount.0 > u64::MAX,
    ensures
        !transaction_valid(
            tx,
            params,
            pre_sender_acc_info,
            pre_sender_path,
            post_sender_path,
            pre_recipient_acc_info,
            pre_recipient_path,
            post_recipient_path,
            pre_root,
            post_root,
        ),
{
}

/// Law: a post-state sender path that does not tie the sender's updated
/// leaf to the post-transaction root makes the transaction invalid, even
/// when the signature and both balances are consistent.
pub proof fn lemma_wrong_post_sender_path_rejected(
    tx: TransactionVar,
    params: Parameters,
    pre_sender_acc_info: AccountInformation,
    pre_sender_path: AccountPath,
    post_sender_path: AccountPath,
    pre_recipient_acc_info: AccountInformation,
    pre_recipient_path: AccountPath,
    post_recipient_path: AccountPath,
    pre_root: MerkleRoot,
    post_root: MerkleRoot,
)
    requires
        !account_in_tree(params, post_sender_path, post_sender_info(tx, pre_sender_acc_info), post_root),
    ensures
        !transaction_valid(
            tx,
            params,
            pre_sender_acc_info,
            pre_sender_path,
            post_sender_path,
            pre_recipient_acc_info,
            pre_recipient_path,
            post_recipient_path,
            pre_root,
            post_root,
        ),
{
}

/// Law: validity is a function of the transaction, the parameters, the
/// account states, the paths and the roots alone, so two validations of
/// identical inputs return identical results.
pub proof fn lemma_validation_deterministic(
    r1: bool,
    r2: bool,
    tx: TransactionVar,
    params: Parameters,
    pre_sender_acc_info: AccountInformation,
    pre_sender_path: AccountPath,
    post_sender_path: AccountPath,
    pre_recipient_acc_info: AccountInformation,
    pre_recipient_path: AccountPath,
    post_recipient_path: AccountPath,
    pre_root: MerkleRoot,
    post_root: MerkleRoot,
)
    requires
        r1 == transaction_valid(
            tx,
            params,
            pre_sender_acc_info,
            pre_sender_path,
            post_sender_path,
            pre_recipient_acc_info,
            pre_recipient_path,
            post_recipient_path,
            pre_root,
            post_root,
        ),
        r2 == transaction_valid(
            tx,
            params,
            pre_sender_acc_info,
            pre_sender_path,
            post_sender_path,
            pre_recipient_acc_info,
            pre_recipient_path,
            post_recipient_path,
            pre_root,
            post_root,
        ),
    ensures
        r1 == r2,
{
}

} // verus!

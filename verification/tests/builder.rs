use forced_exit_requests::amount::Amount;
use forced_exit_requests::sender::ForcedExitSender;
use forced_exit_requests::types::{
    AccountId, Address, Failure, ForcedExitRequest, Nonce, TimeRange, Timestamp, TokenId, TxHash,
};

fn sender() -> ForcedExitSender {
    ForcedExitSender::new(Some(AccountId(17)), 3, "0x01").unwrap()
}

fn at(secs: i64) -> Timestamp {
    Timestamp { secs, nanos: 0 }
}

fn request_with_tokens(tokens: Vec<u32>) -> ForcedExitRequest {
    ForcedExitRequest {
        id: 123,
        target: Address([9; 20]),
        tokens: tokens.into_iter().map(TokenId).collect(),
        price_in_wei: Amount::from_u64(500000),
        valid_until: at(2_000),
        fulfilled_by: None,
        fulfilled_at: None,
    }
}

#[test]
fn request_matching_the_payment_is_fulfilled() {
    let sender = sender();
    let (id, amount) = sender.extract_id_from_amount(Amount::from_u64(500123));
    let request = request_with_tokens(vec![0]);
    assert_eq!(id, request.id);
    assert!(sender.check_request(amount, at(1_000), Some(request)));
}

#[test]
fn fulfilled_request_is_not_fulfilled_again() {
    let sender = sender();
    let mut request = request_with_tokens(vec![0]);
    request.fulfilled_at = Some(at(500));
    assert!(!sender.check_request(Amount::from_u64(500000), at(1_000), Some(request.clone())));
    assert!(!sender.check_request(Amount::from_u64(1), at(1_000), Some(request)));
}

#[test]
fn absent_request_is_not_fulfilled() {
    assert!(!sender().check_request(Amount::from_u64(500000), at(1_000), None));
}

#[test]
fn expired_request_is_not_fulfilled() {
    let sender = sender();
    let request = request_with_tokens(vec![0]);
    assert!(!sender.check_request(Amount::from_u64(500000), at(2_000), Some(request.clone())));
    assert!(!sender.check_request(Amount::from_u64(500000), at(2_001), Some(request.clone())));
    let last = Timestamp { secs: 1_999, nanos: 999_999_999 };
    assert!(sender.check_request(Amount::from_u64(500000), last, Some(request)));
}

#[test]
fn request_validity_is_compared_to_the_nanosecond() {
    let sender = sender();
    let mut request = request_with_tokens(vec![0]);
    request.valid_until = Timestamp { secs: 2_000, nanos: 5 };
    let before = Timestamp { secs: 2_000, nanos: 4 };
    let same = Timestamp { secs: 2_000, nanos: 5 };
    assert!(sender.check_request(Amount::from_u64(500000), before, Some(request.clone())));
    assert!(!sender.check_request(Amount::from_u64(500000), same, Some(request)));
    assert!(before.before(&same));
    assert!(!same.before(&same));
    assert!(!same.before(&before));
    assert!(Timestamp { secs: -1, nanos: 999 }.before(&Timestamp { secs: 0, nanos: 0 }));
}

#[test]
fn request_with_another_price_is_not_fulfilled() {
    let sender = sender();
    let request = request_with_tokens(vec![0]);
    assert!(!sender.check_request(Amount::from_u64(500001), at(1_000), Some(request.clone())));
    assert!(!sender.check_request(Amount::from_u64(499999), at(1_000), Some(request.clone())));
    assert!(sender.check_request(Amount::new(vec![500000, 0]), at(1_000), Some(request)));
}

#[test]
fn forced_exit_has_no_fee_and_no_bound_in_time() {
    let tx = sender().build_forced_exit(Nonce(5), Address([3; 20]), TokenId(8));
    assert_eq!(tx.initiator_account_id, AccountId(17));
    assert_eq!(tx.target, Address([3; 20]));
    assert_eq!(tx.token, TokenId(8));
    assert_eq!(tx.fee, 0);
    assert_eq!(tx.nonce, Nonce(5));
    assert_eq!(tx.time_range, TimeRange { valid_from: 0, valid_until: u64::MAX });
    assert_eq!(tx.time_range, TimeRange::default());
}

#[test]
fn batch_of_two_tokens_takes_two_nonces() {
    let sender = sender();
    let txs = sender.build_transactions(Nonce(7), request_with_tokens(vec![4, 2])).unwrap();
    assert_eq!(txs.len(), 2);
    assert_eq!(txs[0].nonce, Nonce(7));
    assert_eq!(txs[1].nonce, Nonce(8));
    assert_eq!(txs[0].token, TokenId(4));
    assert_eq!(txs[1].token, TokenId(2));
    assert_eq!(txs[0], sender.build_forced_exit(Nonce(7), Address([9; 20]), TokenId(4)));
    assert_eq!(txs[1], sender.build_forced_exit(Nonce(8), Address([9; 20]), TokenId(2)));
}

#[test]
fn batch_follows_the_order_of_the_tokens() {
    let tokens = vec![5, 1, 5, 0, 900];
    let txs = sender().build_transactions(Nonce(0), request_with_tokens(tokens.clone())).unwrap();
    assert_eq!(txs.len(), tokens.len());
    for (i, tx) in txs.iter().enumerate() {
        assert_eq!(tx.nonce, Nonce(i as u32));
        assert_eq!(tx.token, TokenId(tokens[i]));
        assert_eq!(tx.target, Address([9; 20]));
        assert_eq!(tx.initiator_account_id, AccountId(17));
    }
}

#[test]
fn batch_of_no_tokens_is_empty() {
    let txs = sender().build_transactions(Nonce(u32::MAX), request_with_tokens(vec![])).unwrap();
    assert!(txs.is_empty());
}

#[test]
fn batch_may_end_on_the_last_nonce() {
    let txs = sender().build_transactions(Nonce(u32::MAX - 1), request_with_tokens(vec![1, 2]));
    let txs = txs.unwrap();
    assert_eq!(txs[0].nonce, Nonce(u32::MAX - 1));
    assert_eq!(txs[1].nonce, Nonce(u32::MAX));
}

#[test]
fn batch_beyond_the_last_nonce_is_refused() {
    let sender = sender();
    assert_eq!(
        sender.build_transactions(Nonce(u32::MAX), request_with_tokens(vec![1, 2])),
        Err(Failure::NonceOverflow)
    );
    assert_eq!(
        sender.build_transactions(Nonce(u32::MAX - 1), request_with_tokens(vec![1, 2, 3])),
        Err(Failure::NonceOverflow)
    );
    assert_eq!(
        sender.build_batch(Nonce(u32::MAX), &request_with_tokens(vec![1, 2])),
        Err(Failure::NonceOverflow)
    );
}

#[test]
fn request_clone_is_equal() {
    let mut request = request_with_tokens(vec![1, 2]);
    request.fulfilled_by = Some(vec![TxHash([1; 32]), TxHash([2; 32])]);
    request.fulfilled_at = Some(at(3));
    assert_eq!(request.clone(), request);
}

#[test]
fn failures_that_need_attention_are_fatal() {
    assert!(Failure::ConfirmationTimeout.fatal());
    assert!(Failure::SenderStateMissing.fatal());
    assert!(Failure::NonceOverflow.fatal());
    assert!(Failure::EmptyBatch.fatal());
    assert!(Failure::UnexpectedEvent.fatal());
    assert!(!Failure::TransactionFailed.fatal());
    assert!(!Failure::Host(forced_exit_requests::types::HostError::Storage).fatal());
    assert!(!Failure::Host(forced_exit_requests::types::HostError::Transport).fatal());
    assert!(!Failure::Host(forced_exit_requests::types::HostError::Rejected).fatal());
}

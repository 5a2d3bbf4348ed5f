//! Mint and melt lifecycles: quote creation, payment observation,
//! execution, settlement and the state chains.

use ecash_node::bootstrap::DeclaredKeyset;
use ecash_node::config::QuoteTTLConfig;
use ecash_node::error::Error;
use ecash_node::keyset::KeysetKey;
use ecash_node::liquidity::{DepositObservation, SettlementOutcome, WithdrawalQuote};
use ecash_node::node::Node;
use ecash_node::protocol::{BlindedMessage, MeltRequest, Method, MintRequest, Proof, Unit};
use ecash_node::quote::{MeltQuoteState, MintQuoteState};
use ecash_node::fingerprint::{hash_melt_request_http, hash_mint_request_http};
use ecash_node::info::ProofState;
use ecash_node::response_cache::{CachedResponse, Route};

const KEYSET_ID: u64 = 0x00ab_cd00_0000_0001;

fn setup_node() -> Node {
    let mut node = Node::new(QuoteTTLConfig { mint_ttl: 3600, melt_ttl: 3600 }, None);
    node.liquidity.register(Method::Mock, Unit::MilliStrk);
    let mut keys = Vec::new();
    for k in 0..6 {
        keys.push(KeysetKey { amount: 1u64 << k, pubkey: vec![2u8; 33] });
    }
    let declared = DeclaredKeyset {
        unit: Unit::MilliStrk,
        index: 0,
        max_order: 6,
        keyset_id: KEYSET_ID,
        keys,
    };
    node.register_declared_keyset(&declared).unwrap();
    node
}

fn make_proof(amount: u64, secret: &str) -> Proof {
    Proof {
        amount,
        keyset_id: KEYSET_ID,
        secret: secret.as_bytes().to_vec(),
        c: vec![3u8; 33],
    }
}

fn message(amount: u64) -> BlindedMessage {
    BlindedMessage { amount, keyset_id: KEYSET_ID, blinded_secret: vec![2u8; 33] }
}

fn mock_blind_sigs(outputs: &[BlindedMessage]) -> Vec<Vec<u8>> {
    outputs.iter().map(|m| {
        let mut c = vec![9u8; 32];
        c.insert(0, (m.amount % 251) as u8);
        c
    }).collect()
}

#[test]
fn mint_lifecycle() {
    let mut node = setup_node();
    let quote = node
        .create_mint_quote(Method::Mock, Unit::MilliStrk, 16,
            "mock:deposit:16".to_string(), 7, 1_000)
        .unwrap();
    assert_eq!(quote.state, MintQuoteState::Unpaid);
    assert_eq!(quote.amount, 16);
    assert_eq!(quote.expiry, 4_600);
    assert_eq!(quote.request, "mock:deposit:16");

    // the backend observes settlement: Unpaid -> Paid
    let paid = node
        .mint_quote_state(Method::Mock, 7, Some(DepositObservation { paid: true }))
        .unwrap();
    assert_eq!(paid.state, MintQuoteState::Paid);

    // execute against outputs summing to the quoted amount
    let outputs = vec![message(16)];
    let request = MintRequest { quote: 7, outputs };
    let fp = hash_mint_request_http(&request);
    node.mint_validate(Method::Mock, 7, &request.outputs, 2_000).unwrap();
    let sigs = mock_blind_sigs(&request.outputs);
    let response = node.mint_commit(Method::Mock, 7, &request.outputs, &sigs, fp, 2_000);
    assert_eq!(response.signatures.len(), 1);
    assert_eq!(response.signatures[0].amount, 16);

    let issued = node.mint_quote_state(Method::Mock, 7, None).unwrap();
    assert_eq!(issued.state, MintQuoteState::Issued);

    // a second execute on the same quote fails the precondition
    let err = node.mint_validate(Method::Mock, 7, &request.outputs, 2_100).unwrap_err();
    assert_eq!(err, Error::InvalidState);
    assert_eq!(err.http_status(), 409);
}

#[test]
fn mint_quote_stays_unpaid_without_evidence() {
    let mut node = setup_node();
    node.create_mint_quote(Method::Mock, Unit::MilliStrk, 16, "m".to_string(), 7, 1_000)
        .unwrap();
    let q = node
        .mint_quote_state(Method::Mock, 7, Some(DepositObservation { paid: false }))
        .unwrap();
    assert_eq!(q.state, MintQuoteState::Unpaid);
    let q = node.mint_quote_state(Method::Mock, 7, None).unwrap();
    assert_eq!(q.state, MintQuoteState::Unpaid);
}

#[test]
fn mint_execute_rejections() {
    let mut node = setup_node();
    node.create_mint_quote(Method::Mock, Unit::MilliStrk, 16, "m".to_string(), 7, 1_000)
        .unwrap();

    // not yet paid
    assert_eq!(node.mint_validate(Method::Mock, 7, &vec![message(16)], 1_100).unwrap_err(),
        Error::InvalidState);

    node.mint_quote_state(Method::Mock, 7, Some(DepositObservation { paid: true })).unwrap();

    // unknown quote id, and the wrong method
    assert_eq!(node.mint_validate(Method::Mock, 8, &vec![message(16)], 1_100).unwrap_err(),
        Error::QuoteNotFound);
    assert_eq!(node.mint_validate(Method::Starknet, 7, &vec![message(16)], 1_100).unwrap_err(),
        Error::QuoteNotFound);

    // wrong total
    assert_eq!(node.mint_validate(Method::Mock, 7, &vec![message(8)], 1_100).unwrap_err(),
        Error::AmountMismatch);

    // expired: expiry is 1_000 + 3_600
    assert_eq!(node.mint_validate(Method::Mock, 7, &vec![message(16)], 4_600).unwrap_err(),
        Error::Expired);

    // no outputs
    assert_eq!(node.mint_validate(Method::Mock, 7, &vec![], 1_100).unwrap_err(),
        Error::EmptyOutputs);
}

#[test]
fn mint_quote_unsupported_method_unit_and_id_collision() {
    let mut node = setup_node();
    let err = node
        .create_mint_quote(Method::Starknet, Unit::MilliStrk, 16, "m".to_string(), 7, 1_000)
        .unwrap_err();
    assert_eq!(err, Error::MethodUnitUnsupported);
    assert_eq!(err.http_status(), 400);

    node.create_mint_quote(Method::Mock, Unit::MilliStrk, 16, "m".to_string(), 7, 1_000)
        .unwrap();
    let err = node
        .create_mint_quote(Method::Mock, Unit::MilliStrk, 8, "m2".to_string(), 7, 1_000)
        .unwrap_err();
    assert_eq!(err, Error::Internal);
    assert_eq!(err.http_status(), 500);
}

#[test]
fn melt_pending_then_paid() {
    let mut node = setup_node();
    let quote = node
        .create_melt_quote(Method::Mock, Unit::MilliStrk, "dest:acct".to_string(),
            WithdrawalQuote { amount: 30, fee: 2 }, 9, 1_000)
        .unwrap();
    assert_eq!(quote.state, MeltQuoteState::Unpaid);
    assert_eq!(quote.amount, 30);
    assert_eq!(quote.fee, 2);

    // inputs summing to amount + fee
    let inputs = vec![make_proof(32, "melt-a")];
    let ys = node.melt_validate(Method::Mock, 9, &inputs, 1_100).unwrap();
    node.melt_commit(Method::Mock, 9, &inputs, &ys, 1_100);
    let fp = hash_melt_request_http(&MeltRequest {
        quote: 9,
        inputs: vec![make_proof(32, "melt-a")],
    });

    // the backend reports an indeterminate settlement: stays Pending
    let outcome = SettlementOutcome { transfer_ids: vec!["t-1".to_string()], settled: false };
    let response = node.melt_finalize(9, &outcome, fp).unwrap();
    assert_eq!(response.state, MeltQuoteState::Pending);
    assert!(response.transfer_ids.is_empty());

    // the response sits in the cache for replay, verbatim
    match node.get_cached_response(Route::Melt, fp) {
        Some(CachedResponse::Melt(cached)) => {
            assert_eq!(cached.quote, 9);
            assert_eq!(cached.amount, 30);
            assert_eq!(cached.fee, 2);
            assert_eq!(cached.state, MeltQuoteState::Pending);
        }
        _ => panic!("melt response not cached"),
    }

    // the nullifiers are spent and held by the pending melt
    let states: Vec<ProofState> =
        node.check_state(&ys).into_iter().map(|e| e.state).collect();
    assert_eq!(states, vec![ProofState::Pending]);

    // replaying the proofs fails
    assert_eq!(node.melt_validate(Method::Mock, 9, &inputs, 1_200).unwrap_err(),
        Error::InvalidState);

    // a later poll confirms finality: Pending -> Paid with transfer ids
    let confirmed = SettlementOutcome { transfer_ids: vec!["t-1".to_string()], settled: true };
    let q = node.melt_quote_state(Method::Mock, 9, Some(&confirmed)).unwrap();
    assert_eq!(q.state, MeltQuoteState::Paid);
    assert_eq!(q.transfer_ids, vec!["t-1".to_string()]);

    // no longer pending, so the nullifiers report as spent
    let states: Vec<ProofState> =
        node.check_state(&ys).into_iter().map(|e| e.state).collect();
    assert_eq!(states, vec![ProofState::Spent]);
}

#[test]
fn melt_rejections() {
    let mut node = setup_node();
    node.create_melt_quote(Method::Mock, Unit::MilliStrk, "dest".to_string(),
        WithdrawalQuote { amount: 30, fee: 2 }, 9, 1_000).unwrap();

    // wrong total: amount + fee is 32
    assert_eq!(
        node.melt_validate(Method::Mock, 9, &vec![make_proof(16, "m-a")], 1_100).unwrap_err(),
        Error::AmountMismatch);

    // unknown quote
    assert_eq!(
        node.melt_validate(Method::Mock, 10, &vec![make_proof(32, "m-b")], 1_100).unwrap_err(),
        Error::QuoteNotFound);

    // expired
    assert_eq!(
        node.melt_validate(Method::Mock, 9, &vec![make_proof(32, "m-c")], 9_000).unwrap_err(),
        Error::Expired);

    // an unsupported pair at quote creation
    assert_eq!(
        node.create_melt_quote(Method::Starknet, Unit::Strk, "dest".to_string(),
            WithdrawalQuote { amount: 1, fee: 0 }, 11, 1_000).unwrap_err(),
        Error::MethodUnitUnsupported);
}

#[test]
fn melt_spent_before_settlement() {
    let mut node = setup_node();
    node.create_melt_quote(Method::Mock, Unit::MilliStrk, "dest".to_string(),
        WithdrawalQuote { amount: 30, fee: 2 }, 9, 1_000).unwrap();
    let inputs = vec![make_proof(32, "melt-spend")];
    let ys = node.melt_validate(Method::Mock, 9, &inputs, 1_100).unwrap();
    node.melt_commit(Method::Mock, 9, &inputs, &ys, 1_100);

    // even before any settlement outcome, the proofs are consumed
    assert!(node.store.is_spent(&ys[0]));
}

#[test]
fn quote_ttl_defaults_and_accessors() {
    let cfg = ecash_node::config::resolve_quote_ttl(None);
    assert_eq!(cfg.mint_ttl, 3600);
    assert_eq!(cfg.melt_ttl, 3600);
    let cfg = ecash_node::config::resolve_quote_ttl(Some(60));
    let state: ecash_node::config::QuoteTTLConfigState = cfg.into();
    assert_eq!(state.mint_ttl(), 60);
    assert_eq!(state.melt_ttl(), 60);
}

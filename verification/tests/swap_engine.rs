//! Swap scenarios: the happy path, replay, double spending and the size
//! bounds, run against a counting mock signer.

use ecash_node::bootstrap::DeclaredKeyset;
use ecash_node::config::QuoteTTLConfig;
use ecash_node::error::Error;
use ecash_node::keyset::KeysetKey;
use ecash_node::node::Node;
use ecash_node::protocol::{BlindedMessage, Method, Proof, SwapRequest, SwapResponse, Unit};
use ecash_node::response_cache::{CachedResponse, Route};
use ecash_node::fingerprint::hash_swap_request_http;
use ecash_node::info::ProofState;

const KEYSET_ID: u64 = 0x00ab_cd00_0000_0001;
const STRK_KEYSET_ID: u64 = 0x00ab_cd00_0000_0002;

fn declared_keys(max_order: u32) -> Vec<KeysetKey> {
    let mut keys = Vec::new();
    for k in 0..max_order {
        keys.push(KeysetKey { amount: 1u64 << k, pubkey: vec![2u8; 33] });
    }
    keys
}

fn setup_node() -> Node {
    let mut node = Node::new(QuoteTTLConfig { mint_ttl: 3600, melt_ttl: 3600 }, None);
    node.liquidity.register(Method::Mock, Unit::MilliStrk);
    let declared = DeclaredKeyset {
        unit: Unit::MilliStrk,
        index: 0,
        max_order: 6,
        keyset_id: KEYSET_ID,
        keys: declared_keys(6),
    };
    node.register_declared_keyset(&declared).unwrap();
    node
}

fn make_proof(amount: u64, secret: &str) -> Proof {
    Proof {
        amount,
        keyset_id: KEYSET_ID,
        secret: secret.as_bytes().to_vec(),
        c: vec![3u8; 33],
    }
}

fn message(amount: u64) -> BlindedMessage {
    BlindedMessage { amount, keyset_id: KEYSET_ID, blinded_secret: vec![2u8; 33] }
}

/// The app-side swap handler: cache check, validation, mock signer,
/// commit. Counts how often the signer is asked to blind-sign.
fn handle_swap(node: &mut Node, request: &SwapRequest, signer_calls: &mut u32)
    -> Result<SwapResponse, Error> {
    let fp = hash_swap_request_http(request);
    if let Some(CachedResponse::Swap(cached)) = node.get_cached_response(Route::Swap, fp) {
        let mut signatures = Vec::new();
        for sig in &cached.signatures {
            signatures.push(ecash_node::protocol::copy_sig(sig));
        }
        return Ok(SwapResponse { signatures });
    }
    let ys = node.swap_validate(&request.inputs, &request.outputs)?;
    // mock signer: Verify accepts, BlindSign returns a deterministic point
    *signer_calls += 1;
    let mut blind_sigs = Vec::new();
    for m in &request.outputs {
        let mut c = vec![9u8; 32];
        c.insert(0, (m.amount % 251) as u8);
        blind_sigs.push(c);
    }
    Ok(node.swap_commit(&request.outputs, &ys, &blind_sigs, fp))
}

fn spent_states(node: &Node, ys: &[Vec<u8>]) -> Vec<ProofState> {
    let owned: Vec<Vec<u8>> = ys.to_vec();
    node.check_state(&owned).into_iter().map(|e| e.state).collect()
}

#[test]
fn swap_happy_path() {
    let mut node = setup_node();
    let request = SwapRequest {
        inputs: vec![make_proof(4, "alpha"), make_proof(4, "beta")],
        outputs: vec![message(8)],
    };
    let mut calls = 0u32;
    let response = handle_swap(&mut node, &request, &mut calls).unwrap();
    assert_eq!(calls, 1);
    assert_eq!(response.signatures.len(), 1);
    assert_eq!(response.signatures[0].amount, 8);
    assert_eq!(response.signatures[0].keyset_id, KEYSET_ID);

    // both input nullifiers are now in the spent set
    let ys = node.swap_validate(&request.inputs, &request.outputs);
    assert_eq!(ys.unwrap_err(), Error::ProofAlreadySpent);
}

#[test]
fn swap_replay_returns_cached_response() {
    let mut node = setup_node();
    let request = SwapRequest {
        inputs: vec![make_proof(4, "alpha"), make_proof(4, "beta")],
        outputs: vec![message(8)],
    };
    let mut calls = 0u32;
    let first = handle_swap(&mut node, &request, &mut calls).unwrap();
    let spent_before = node.store.spent.len();

    // byte-identical request: replayed from the cache, signer not re-invoked
    let replay = SwapRequest {
        inputs: vec![make_proof(4, "alpha"), make_proof(4, "beta")],
        outputs: vec![message(8)],
    };
    let second = handle_swap(&mut node, &replay, &mut calls).unwrap();
    assert_eq!(calls, 1);
    assert_eq!(node.store.spent.len(), spent_before);
    assert_eq!(first.signatures.len(), second.signatures.len());
    for (a, b) in first.signatures.iter().zip(second.signatures.iter()) {
        assert_eq!(a.amount, b.amount);
        assert_eq!(a.keyset_id, b.keyset_id);
        assert_eq!(a.c, b.c);
    }
}

#[test]
fn swap_double_spend_rejected() {
    let mut node = setup_node();
    let request = SwapRequest {
        inputs: vec![make_proof(4, "alpha"), make_proof(4, "beta")],
        outputs: vec![message(8)],
    };
    let mut calls = 0u32;
    handle_swap(&mut node, &request, &mut calls).unwrap();

    // a new swap reusing the first input's secret
    let reuse = SwapRequest {
        inputs: vec![make_proof(4, "alpha")],
        outputs: vec![message(4)],
    };
    let err = handle_swap(&mut node, &reuse, &mut calls).unwrap_err();
    assert_eq!(err, Error::ProofAlreadySpent);
    assert_eq!(err.http_status(), 409);
    assert_eq!(err.reason(), "proof-already-spent");
    assert_eq!(calls, 1);
}

#[test]
fn swap_bounds_empty_and_oversized() {
    let mut node = setup_node();
    let mut calls = 0u32;

    let empty_inputs = SwapRequest { inputs: vec![], outputs: vec![message(8)] };
    let err = handle_swap(&mut node, &empty_inputs, &mut calls).unwrap_err();
    assert_eq!(err, Error::EmptyInputs);
    assert_eq!(err.http_status(), 400);

    let mut sixty_five = Vec::new();
    for i in 0..65 {
        sixty_five.push(make_proof(1, &format!("secret-{}", i)));
    }
    let too_many = SwapRequest { inputs: sixty_five, outputs: vec![message(8)] };
    let err = handle_swap(&mut node, &too_many, &mut calls).unwrap_err();
    assert_eq!(err, Error::TooManyInputs);
    assert_eq!(err.http_status(), 400);
    assert_eq!(calls, 0);
}

#[test]
fn swap_sixty_four_inputs_accepted() {
    let mut node = setup_node();
    let mut inputs = Vec::new();
    for i in 0..64 {
        inputs.push(make_proof(1, &format!("secret-{}", i)));
    }
    let request = SwapRequest { inputs, outputs: vec![message(32), message(32)] };
    let mut calls = 0u32;
    let response = handle_swap(&mut node, &request, &mut calls).unwrap();
    assert_eq!(response.signatures.len(), 2);
    assert_eq!(calls, 1);
}

#[test]
fn swap_unknown_keyset_rejected_without_signer_call() {
    let mut node = setup_node();
    let stranger = Proof {
        amount: 4,
        keyset_id: 0xdead_beef,
        secret: b"zeta".to_vec(),
        c: vec![3u8; 33],
    };
    let request = SwapRequest { inputs: vec![stranger], outputs: vec![message(4)] };
    let mut calls = 0u32;
    let err = handle_swap(&mut node, &request, &mut calls).unwrap_err();
    assert_eq!(err, Error::UnknownKeyset);
    assert_eq!(calls, 0);
}

#[test]
fn swap_cross_unit_rejected() {
    let mut node = setup_node();
    let declared = DeclaredKeyset {
        unit: Unit::Strk,
        index: 0,
        max_order: 6,
        keyset_id: STRK_KEYSET_ID,
        keys: declared_keys(6),
    };
    node.register_declared_keyset(&declared).unwrap();

    let cross_output =
        BlindedMessage { amount: 8, keyset_id: STRK_KEYSET_ID, blinded_secret: vec![2u8; 33] };
    let request = SwapRequest {
        inputs: vec![make_proof(4, "alpha"), make_proof(4, "beta")],
        outputs: vec![cross_output],
    };
    let mut calls = 0u32;
    let err = handle_swap(&mut node, &request, &mut calls).unwrap_err();
    assert_eq!(err, Error::UnitMismatch);
    assert_eq!(calls, 0);
}

#[test]
fn swap_conservation_violation_rejected() {
    let mut node = setup_node();
    let request = SwapRequest {
        inputs: vec![make_proof(4, "alpha"), make_proof(4, "beta")],
        outputs: vec![message(4)],
    };
    let mut calls = 0u32;
    let err = handle_swap(&mut node, &request, &mut calls).unwrap_err();
    assert_eq!(err, Error::AmountMismatch);
}

#[test]
fn swap_rejects_non_key_amount_and_duplicates_and_bad_secret() {
    let node = setup_node();

    // 3 is not a power of two
    let odd = SwapRequest { inputs: vec![make_proof(3, "gamma")], outputs: vec![message(2)] };
    assert_eq!(node.swap_validate(&odd.inputs, &odd.outputs).unwrap_err(),
        Error::NotAKeyAmount);

    // the same secret twice within one request
    let dup = SwapRequest {
        inputs: vec![make_proof(4, "alpha"), make_proof(4, "alpha")],
        outputs: vec![message(8)],
    };
    assert_eq!(node.swap_validate(&dup.inputs, &dup.outputs).unwrap_err(),
        Error::DuplicateInput);

    // an empty secret
    let bad = Proof { amount: 4, keyset_id: KEYSET_ID, secret: vec![], c: vec![3u8; 33] };
    let req = SwapRequest { inputs: vec![bad], outputs: vec![message(4)] };
    assert_eq!(node.swap_validate(&req.inputs, &req.outputs).unwrap_err(),
        Error::InvalidSecret);

    // no outputs
    let none = SwapRequest { inputs: vec![make_proof(4, "delta")], outputs: vec![] };
    assert_eq!(node.swap_validate(&none.inputs, &none.outputs).unwrap_err(),
        Error::EmptyOutputs);
}

#[test]
fn check_state_tracks_swap() {
    let mut node = setup_node();
    let request = SwapRequest {
        inputs: vec![make_proof(4, "alpha"), make_proof(4, "beta")],
        outputs: vec![message(8)],
    };
    let ys = node.swap_validate(&request.inputs, &request.outputs).unwrap();
    assert_eq!(spent_states(&node, &ys), vec![ProofState::Unspent, ProofState::Unspent]);

    let mut calls = 0u32;
    handle_swap(&mut node, &request, &mut calls).unwrap();
    assert_eq!(spent_states(&node, &ys), vec![ProofState::Spent, ProofState::Spent]);
}

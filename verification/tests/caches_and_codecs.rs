//! The response cache, request fingerprints, the keyset cache and the
//! codec wrappers.

use ecash_node::bootstrap::DeclaredKeyset;
use ecash_node::config::QuoteTTLConfig;
use ecash_node::digest::{compute_nullifier, sha256};
use ecash_node::error::Error;
use ecash_node::fingerprint::{fnv1a_hash, hash_swap_request_http, hash_melt_request_http};
use ecash_node::hexcodec::{decode_hex, encode_hex};
use ecash_node::keyset::KeysetKey;
use ecash_node::node::Node;
use ecash_node::protocol::{BlindedMessage, BlindSignature, MeltRequest, Method, Proof,
    SwapRequest, SwapResponse, Unit};
use ecash_node::response_cache::{CachedResponse, ResponseCache, Route};
use ecash_node::wire::{method_from_code, parse_blinded_message, parse_keyset_id, parse_point,
    parse_proof, unit_from_code};

const KEYSET_ID: u64 = 0x00ab_cd00_0000_0001;

fn setup_node() -> Node {
    let mut node = Node::new(QuoteTTLConfig { mint_ttl: 3600, melt_ttl: 3600 }, None);
    node.liquidity.register(Method::Mock, Unit::MilliStrk);
    let mut keys = Vec::new();
    for k in 0..6 {
        keys.push(KeysetKey { amount: 1u64 << k, pubkey: vec![2u8; 33] });
    }
    let declared = DeclaredKeyset {
        unit: Unit::MilliStrk,
        index: 0,
        max_order: 6,
        keyset_id: KEYSET_ID,
        keys,
    };
    node.register_declared_keyset(&declared).unwrap();
    node
}

fn make_proof(amount: u64, secret: &str) -> Proof {
    Proof {
        amount,
        keyset_id: KEYSET_ID,
        secret: secret.as_bytes().to_vec(),
        c: vec![3u8; 33],
    }
}

fn swap_body(sig_amount: u64) -> CachedResponse {
    CachedResponse::Swap(SwapResponse {
        signatures: vec![BlindSignature { amount: sig_amount, keyset_id: KEYSET_ID,
            c: vec![9u8; 33] }],
    })
}

fn cached_amount(c: &CachedResponse) -> u64 {
    match c {
        CachedResponse::Swap(r) => r.signatures[0].amount,
        _ => panic!("expected a swap body"),
    }
}

#[test]
fn response_cache_replays_verbatim() {
    let mut cache = ResponseCache::new(None);
    cache.insert(Route::Swap, 42, swap_body(8));
    let got = cache.get(Route::Swap, 42).unwrap();
    assert_eq!(cached_amount(got), 8);
    assert!(cache.get(Route::Swap, 43).is_none());
    assert!(cache.get(Route::Mint, 42).is_none());
}

#[test]
fn response_cache_first_body_wins() {
    let mut cache = ResponseCache::new(None);
    cache.insert(Route::Swap, 42, swap_body(8));
    cache.insert(Route::Swap, 42, swap_body(16));
    assert_eq!(cached_amount(cache.get(Route::Swap, 42).unwrap()), 8);
}

#[test]
fn response_cache_evicts_fifo() {
    let mut cache = ResponseCache::new(Some(2));
    cache.insert(Route::Swap, 1, swap_body(1));
    cache.insert(Route::Swap, 2, swap_body(2));
    cache.insert(Route::Swap, 3, swap_body(4));
    assert!(cache.get(Route::Swap, 1).is_none());
    assert_eq!(cached_amount(cache.get(Route::Swap, 2).unwrap()), 2);
    assert_eq!(cached_amount(cache.get(Route::Swap, 3).unwrap()), 4);
}

#[test]
fn fnv1a_known_values() {
    // standard FNV-1a 64-bit test vectors
    assert_eq!(fnv1a_hash(&vec![]), 0xcbf2_9ce4_8422_2325);
    assert_eq!(fnv1a_hash(&b"a".to_vec()), 0xaf63_dc4c_8601_ec8c);
}

#[test]
fn fingerprints_are_canonical_and_distinguishing() {
    let a = SwapRequest {
        inputs: vec![make_proof(4, "alpha")],
        outputs: vec![BlindedMessage { amount: 4, keyset_id: KEYSET_ID,
            blinded_secret: vec![2u8; 33] }],
    };
    let b = SwapRequest {
        inputs: vec![make_proof(4, "alpha")],
        outputs: vec![BlindedMessage { amount: 4, keyset_id: KEYSET_ID,
            blinded_secret: vec![2u8; 33] }],
    };
    assert_eq!(hash_swap_request_http(&a), hash_swap_request_http(&b));

    let c = SwapRequest {
        inputs: vec![make_proof(8, "alpha")],
        outputs: vec![BlindedMessage { amount: 4, keyset_id: KEYSET_ID,
            blinded_secret: vec![2u8; 33] }],
    };
    assert_ne!(hash_swap_request_http(&a), hash_swap_request_http(&c));

    let m1 = MeltRequest { quote: 9, inputs: vec![make_proof(32, "m")] };
    let m2 = MeltRequest { quote: 10, inputs: vec![make_proof(32, "m")] };
    assert_ne!(hash_melt_request_http(&m1), hash_melt_request_http(&m2));
}

#[test]
fn hex_round_trip_and_failures() {
    assert_eq!(encode_hex(&vec![0x00, 0xff, 0x1a]), "00ff1a");
    assert_eq!(decode_hex("00ff1a"), Some(vec![0x00, 0xff, 0x1a]));
    assert_eq!(decode_hex("00FF1A"), Some(vec![0x00, 0xff, 0x1a]));
    assert_eq!(decode_hex("0f0"), None);
    assert_eq!(decode_hex("zz"), None);
    assert_eq!(decode_hex(""), Some(vec![]));
}

#[test]
fn sha256_matches_published_digest() {
    // SHA-256 of "abc", FIPS 180-4 example
    let digest = sha256(&b"abc".to_vec());
    assert_eq!(encode_hex(&digest),
        "ba7816bf8f01cfea414140de5dae2223b00361a396177a9cb410ff61f20015ad");
}

#[test]
fn nullifiers_are_deterministic_and_domain_shaped() {
    let y1 = compute_nullifier(&b"alpha".to_vec());
    let y2 = compute_nullifier(&b"alpha".to_vec());
    let y3 = compute_nullifier(&b"beta".to_vec());
    assert_eq!(y1, y2);
    assert_ne!(y1, y3);
    assert_eq!(y1.len(), 33);
    assert_eq!(y1[0], 2);
    // the nullifier is not the plain digest of the secret
    assert_ne!(y1[1..].to_vec(), sha256(&b"alpha".to_vec()));
}

#[test]
fn wire_parsing() {
    assert_eq!(parse_keyset_id("0123456789abcdef"), Some(0x0123_4567_89ab_cdef));
    assert_eq!(parse_keyset_id("0123"), None);
    assert_eq!(parse_keyset_id("xx23456789abcdef"), None);

    let point_hex = "02".to_string() + &"11".repeat(32);
    assert_eq!(parse_point(&point_hex).unwrap().len(), 33);
    assert_eq!(parse_point("0211"), None);

    let p = parse_proof(4, "0123456789abcdef", "secret-string", &point_hex).unwrap();
    assert_eq!(p.amount, 4);
    assert_eq!(p.keyset_id, 0x0123_4567_89ab_cdef);
    assert_eq!(p.secret, b"secret-string".to_vec());
    assert_eq!(p.c.len(), 33);

    assert_eq!(parse_proof(4, "nope", "s", &point_hex).unwrap_err(), Error::UnknownKeyset);
    assert_eq!(parse_proof(4, "0123456789abcdef", "", &point_hex).unwrap_err(),
        Error::InvalidSecret);
    assert_eq!(parse_proof(4, "0123456789abcdef", "s", "02ff").unwrap_err(),
        Error::SignatureInvalid);

    let m = parse_blinded_message(8, "0123456789abcdef", &point_hex).unwrap();
    assert_eq!(m.amount, 8);
    assert_eq!(parse_blinded_message(8, "0123456789abcdef", "bad").unwrap_err(),
        Error::SignatureInvalid);
}

#[test]
fn keyset_cache_is_immutable_across_redeclaration() {
    let mut node = setup_node();
    let keys_before = node.get_keys_for_keyset(KEYSET_ID).unwrap();

    // re-declaring the identical keyset is a no-op for the key map
    let mut keys = Vec::new();
    for k in 0..6 {
        keys.push(KeysetKey { amount: 1u64 << k, pubkey: vec![7u8; 33] });
    }
    let redeclared = DeclaredKeyset {
        unit: Unit::MilliStrk,
        index: 0,
        max_order: 6,
        keyset_id: KEYSET_ID,
        keys,
    };
    node.register_declared_keyset(&redeclared).unwrap();
    let keys_after = node.get_keys_for_keyset(KEYSET_ID).unwrap();
    assert_eq!(keys_before.keys.len(), keys_after.keys.len());
    for (a, b) in keys_before.keys.iter().zip(keys_after.keys.iter()) {
        assert_eq!(a.amount, b.amount);
        assert_eq!(a.pubkey, b.pubkey);
    }
}

#[test]
fn keyset_rotation_deactivates_predecessor() {
    let mut node = setup_node();
    let mut keys = Vec::new();
    for k in 0..6 {
        keys.push(KeysetKey { amount: 1u64 << k, pubkey: vec![5u8; 33] });
    }
    let successor = DeclaredKeyset {
        unit: Unit::MilliStrk,
        index: 1,
        max_order: 6,
        keyset_id: KEYSET_ID + 1,
        keys,
    };
    node.register_declared_keyset(&successor).unwrap();

    let listing = node.get_keysets();
    assert_eq!(listing.len(), 2);
    assert_eq!(listing[0].id_hex, "00abcd0000000001");
    assert!(!listing[0].active);
    assert_eq!(listing[1].id_hex, "00abcd0000000002");
    assert!(listing[1].active);

    // the old keyset still verifies: its keys are unchanged
    let old = node.get_keys_for_keyset(KEYSET_ID).unwrap();
    assert_eq!(old.keys[0].pubkey, vec![2u8; 33]);
}

#[test]
fn reshaped_redeclaration_is_corruption() {
    let mut node = setup_node();
    let mut keys = Vec::new();
    for k in 0..5 {
        keys.push(KeysetKey { amount: 1u64 << k, pubkey: vec![2u8; 33] });
    }
    let reshaped = DeclaredKeyset {
        unit: Unit::MilliStrk,
        index: 0,
        max_order: 5,
        keyset_id: KEYSET_ID,
        keys,
    };
    assert_eq!(node.register_declared_keyset(&reshaped).unwrap_err(), Error::Internal);
}

#[test]
fn malformed_declared_keys_are_rejected() {
    let mut node = setup_node();
    // amounts must be the powers of two in order
    let keys = vec![
        KeysetKey { amount: 1, pubkey: vec![2u8; 33] },
        KeysetKey { amount: 3, pubkey: vec![2u8; 33] },
    ];
    let bad = DeclaredKeyset {
        unit: Unit::Strk,
        index: 0,
        max_order: 2,
        keyset_id: 0x77,
        keys,
    };
    assert_eq!(node.register_declared_keyset(&bad).unwrap_err(), Error::Internal);
}

#[test]
fn get_keys_unknown_keyset() {
    let node = setup_node();
    assert_eq!(node.get_keys_for_keyset(0xdead).unwrap_err(), Error::UnknownKeyset);
}

#[test]
fn get_keys_all_lists_installed_keysets() {
    let node = setup_node();
    let all = node.get_keys_all();
    assert_eq!(all.len(), 1);
    assert_eq!(all[0].id, KEYSET_ID);
    assert_eq!(all[0].unit, Unit::MilliStrk);
    assert!(all[0].active);
    assert_eq!(all[0].keys.len(), 6);
    assert_eq!(all[0].keys[5].amount, 32);
}

#[test]
fn node_info_aggregates() {
    let node = setup_node();
    let root = vec![2u8; 33];
    let info = node.node_info(&root, 12_345);
    assert_eq!(info.pubkey, root);
    assert_eq!(info.time, 12_345);
    assert_eq!(info.methods.len(), 1);
    assert_eq!(info.methods[0].method, Method::Mock);
    assert_eq!(info.methods[0].unit, Unit::MilliStrk);
    assert_eq!(info.name, "ecash mint node");
}

#[test]
fn error_taxonomy_maps_to_statuses() {
    assert_eq!(Error::UnknownKeyset.http_status(), 400);
    assert_eq!(Error::SignatureInvalid.http_status(), 400);
    assert_eq!(Error::ProofAlreadySpent.http_status(), 409);
    assert_eq!(Error::Expired.http_status(), 409);
    assert_eq!(Error::InvalidState.http_status(), 409);
    assert_eq!(Error::Unavailable.http_status(), 503);
    assert_eq!(Error::Internal.http_status(), 500);
    assert_eq!(Error::MethodUnitUnsupported.reason(), "method-unit-unsupported");
}

#[test]
fn quote_id_generation_is_usable() {
    // two draws; the engine tolerates any values, collisions included
    let a = ecash_node::ids::generate_quote_id();
    let b = ecash_node::ids::generate_quote_id();
    let mut node = setup_node();
    node.create_mint_quote(Method::Mock, Unit::MilliStrk, 16, "m".to_string(), a, 1_000)
        .unwrap();
    if b != a {
        node.create_mint_quote(Method::Mock, Unit::MilliStrk, 16, "m".to_string(), b, 1_000)
            .unwrap();
    }
}

#[test]
fn wire_tags_round_trip() {
    assert_eq!(unit_from_code(Unit::MilliStrk.code()), Some(Unit::MilliStrk));
    assert_eq!(unit_from_code(Unit::Strk.code()), Some(Unit::Strk));
    assert_eq!(unit_from_code("sat"), None);
    assert_eq!(method_from_code(Method::Mock.code()), Some(Method::Mock));
    assert_eq!(method_from_code(Method::Starknet.code()), Some(Method::Starknet));
    assert_eq!(method_from_code(""), None);
    assert_eq!(Error::Expired.reason(), "quote-expired");
}

#[test]
fn response_cache_other_keys_survive_inserts() {
    let mut cache = ResponseCache::new(None);
    cache.insert(Route::Swap, 1, swap_body(8));
    for fp in 2..20u64 {
        cache.insert(Route::Swap, fp, swap_body(fp));
    }
    cache.insert(Route::Mint, 1, swap_body(99));
    assert_eq!(cached_amount(cache.get(Route::Swap, 1).unwrap()), 8);
    assert_eq!(cached_amount(cache.get(Route::Swap, 7).unwrap()), 7);
}

//! Canonicalizing wire values into typed commands: hex keyset ids, hex
//! curve points and proof secrets, as both transport adapters hand them in.

use vstd::prelude::*;
use vstd::string::{StrSliceExecFns, StringExecFns, StringSliceAdditionalSpecFns};
use crate::error::Error;
use crate::hexcodec::{decode_hex, hex_decodable, hex_decode};
use crate::protocol::{Proof, BlindedMessage, Unit, Method, MAX_SECRET_LEN};

verus! {

/// Length, in bytes, of a compressed curve point.
pub const POINT_LEN: usize = 33;

/// The 64-bit value eight big-endian bytes spell.
pub open spec fn be_u64_of(b: Seq<u8>) -> u64 {
    ((b[0] as u64) << 56) | ((b[1] as u64) << 48) | ((b[2] as u64) << 40)
        | ((b[3] as u64) << 32) | ((b[4] as u64) << 24) | ((b[5] as u64) << 16)
        | ((b[6] as u64) << 8) | (b[7] as u64)
}

/// Parses a keyset id: sixteen hex digits spelling an 8-byte fingerprint.
pub fn parse_keyset_id(s: &str) -> (r: Option<u64>)
    ensures
        r is Some <==> hex_decodable(s@) && hex_decode(s@).len() == 8,
        r is Some ==> r->Some_0 == be_u64_of(hex_decode(s@)),
{
    let bytes = match decode_hex(s) {
        Some(b) => b,
        None => {
            return None;
        },
    };
    if bytes.len() != 8 {
        return None;
    }
    let id = ((bytes[0] as u64) << 56) | ((bytes[1] as u64) << 48) | ((bytes[2] as u64) << 40)
        | ((bytes[3] as u64) << 32) | ((bytes[4] as u64) << 24) | ((bytes[5] as u64) << 16)
        | ((bytes[6] as u64) << 8) | (bytes[7] as u64);
    Some(id)
}

/// Parses a compressed curve point: 66 hex digits spelling 33 bytes.
pub fn parse_point(s: &str) -> (r: Option<Vec<u8>>)
    ensures
        r is Some <==> hex_decodable(s@) && hex_decode(s@).len() == POINT_LEN,
        r is Some ==> r->Some_0@ == hex_decode(s@),
{
    let bytes = match decode_hex(s) {
        Some(b) => b,
        None => {
            return None;
        },
    };
    if bytes.len() != POINT_LEN {
        return None;
    }
    Some(bytes)
}

/// Parses a unit tag, the inverse of [`Unit::code`].
pub fn unit_from_code(s: &str) -> (r: Option<Unit>)
    ensures
        r == (if s@ == "milli-strk"@ {
            Some(Unit::MilliStrk)
        } else if s@ == "strk"@ {
            Some(Unit::Strk)
        } else {
            None::<Unit>
        }),
{
    let owned = String::from_str(s);
    if owned == String::from_str("milli-strk") {
        Some(Unit::MilliStrk)
    } else if owned == String::from_str("strk") {
        Some(Unit::Strk)
    } else {
        None
    }
}

/// Parses a method tag, the inverse of [`Method::code`].
pub fn method_from_code(s: &str) -> (r: Option<Method>)
    ensures
        r == (if s@ == "mock"@ {
            Some(Method::Mock)
        } else if s@ == "starknet"@ {
            Some(Method::Starknet)
        } else {
            None::<Method>
        }),
{
    let owned = String::from_str(s);
    if owned == String::from_str("mock") {
        Some(Method::Mock)
    } else if owned == String::from_str("starknet") {
        Some(Method::Starknet)
    } else {
        None
    }
}

/// The verdict of parsing one wire proof, in the order the checks run.
pub open spec fn parse_proof_ok(keyset_id_hex: Seq<char>, secret: Seq<u8>, c_hex: Seq<char>)
    -> Result<(), Error> {
    if !(hex_decodable(keyset_id_hex) && hex_decode(keyset_id_hex).len() == 8) {
        Err(Error::UnknownKeyset)
    } else if !(0 < secret.len() <= MAX_SECRET_LEN) {
        Err(Error::InvalidSecret)
    } else if !(hex_decodable(c_hex) && hex_decode(c_hex).len() == POINT_LEN) {
        Err(Error::SignatureInvalid)
    } else {
        Ok(())
    }
}

/// Converts one wire proof into a typed [`Proof`].
pub fn parse_proof(amount: u64, keyset_id_hex: &str, secret: &str, c_hex: &str)
    -> (r: Result<Proof, Error>)
    ensures
        r is Ok <==> parse_proof_ok(keyset_id_hex@, secret.spec_bytes(), c_hex@) is Ok,
        r is Err ==> r->Err_0 == parse_proof_ok(keyset_id_hex@, secret.spec_bytes(),
            c_hex@)->Err_0,
        r is Ok ==> r->Ok_0.amount == amount
            && r->Ok_0.keyset_id == be_u64_of(hex_decode(keyset_id_hex@))
            && r->Ok_0.secret@ == secret.spec_bytes()
            && r->Ok_0.c@ == hex_decode(c_hex@),
{
    let keyset_id = match parse_keyset_id(keyset_id_hex) {
        Some(id) => id,
        None => {
            return Err(Error::UnknownKeyset);
        },
    };
    let secret_bytes = secret.as_bytes_vec();
    if secret_bytes.len() == 0 || secret_bytes.len() > MAX_SECRET_LEN {
        return Err(Error::InvalidSecret);
    }
    let c = match parse_point(c_hex) {
        Some(p) => p,
        None => {
            return Err(Error::SignatureInvalid);
        },
    };
    Ok(Proof { amount, keyset_id, secret: secret_bytes, c })
}

/// The verdict of parsing one wire blinded message.
pub open spec fn parse_message_ok(keyset_id_hex: Seq<char>, b_hex: Seq<char>)
    -> Result<(), Error> {
    if !(hex_decodable(keyset_id_hex) && hex_decode(keyset_id_hex).len() == 8) {
        Err(Error::UnknownKeyset)
    } else if !(hex_decodable(b_hex) && hex_decode(b_hex).len() == POINT_LEN) {
        Err(Error::SignatureInvalid)
    } else {
        Ok(())
    }
}

/// Converts one wire blinded message into a typed [`BlindedMessage`].
pub fn parse_blinded_message(amount: u64, keyset_id_hex: &str, b_hex: &str)
    -> (r: Result<BlindedMessage, Error>)
    ensures
        r is Ok <==> parse_message_ok(keyset_id_hex@, b_hex@) is Ok,
        r is Err ==> r->Err_0 == parse_message_ok(keyset_id_hex@, b_hex@)->Err_0,
        r is Ok ==> r->Ok_0.amount == amount
            && r->Ok_0.keyset_id == be_u64_of(hex_decode(keyset_id_hex@))
            && r->Ok_0.blinded_secret@ == hex_decode(b_hex@),
{
    let keyset_id = match parse_keyset_id(keyset_id_hex) {
        Some(id) => id,
        None => {
            return Err(Error::UnknownKeyset);
        },
    };
    let blinded_secret = match parse_point(b_hex) {
        Some(p) => p,
        None => {
            return Err(Error::SignatureInvalid);
        },
    };
    Ok(BlindedMessage { amount, keyset_id, blinded_secret })
}

} // verus!

//! Public keys: the 32-byte ed25519 key the wallet is derived from, parsed
//! from the hexadecimal text the host hands in.

use vstd::prelude::*;
use vstd::string::StringSliceAdditionalSpecFns;

use crate::errors::ExitCode;
use crate::hexcodec::{decode_hex, hex_bytes, valid_hex};

verus! {

/// Whether ed25519 accepts these bytes as a public key, that is whether the
/// compressed Edwards point they encode decompresses; a function of the bytes
/// alone.
pub uninterp spec fn ed25519_point_decodable(b: Seq<u8>) -> bool;

/// Relies on ed25519_dalek::PublicKey::from_bytes: it succeeds exactly on 32
/// bytes whose compressed Edwards point decompresses, and that is a function
/// of the bytes alone.
#[verifier::external_body]
fn public_key_bytes_valid(b: &[u8]) -> (r: bool)
    ensures
        r <==> (b@.len() == 32 && ed25519_point_decodable(b@)),
{
    ed25519_dalek::PublicKey::from_bytes(b).is_ok()
}

/// An ed25519 public key held as its 32 canonical bytes.
#[derive(Debug, Clone, PartialEq, Eq)]
pub struct PublicKey {
    pub bytes: Vec<u8>,
}

impl PublicKey {
    /// Well-formedness: exactly 32 bytes, and they decode to a curve point.
    pub open spec fn wf(&self) -> bool {
        &&& self.bytes@.len() == 32
        &&& ed25519_point_decodable(self.bytes@)
    }
}

/// Whether a byte string is the hexadecimal form of a well-formed public key:
/// 64 hex digits whose 32 bytes decode to a curve point.
pub open spec fn valid_public_key_text(s: Seq<u8>) -> bool {
    &&& valid_hex(s)
    &&& s.len() == 64
    &&& ed25519_point_decodable(hex_bytes(s))
}

/// Parses the hexadecimal form of a public key. Succeeds exactly on 64 hex
/// digits that decode to a curve point; anything else is rejected as an
/// invalid public key.
pub fn read_public_key(s: &str) -> (r: Result<PublicKey, ExitCode>)
    ensures
        r is Ok <==> valid_public_key_text(s.spec_bytes()),
        r matches Ok(k) ==> k.bytes@ == hex_bytes(s.spec_bytes()) && k.wf(),
        r matches Err(c) ==> c == ExitCode::InvalidPublicKey,
{
    match decode_hex(s) {
        Some(data) => {
            if data.len() == 32 && public_key_bytes_valid(data.as_slice()) {
                Ok(PublicKey { bytes: data })
            } else {
                Err(ExitCode::InvalidPublicKey)
            }
        },
        None => Err(ExitCode::InvalidPublicKey),
    }
}

} // verus!

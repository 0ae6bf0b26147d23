//! The agent's Ed25519 keypair and the attestation it signs. The keys are
//! kept as bytes; deriving, signing and drawing the seed are
//! `ed25519_dalek`'s. Reading and writing the key file is the caller's.

use vstd::array::*;
use vstd::prelude::*;
use vstd::string::*;
use vstd::utf8::*;

use crate::encoding::{
    base64_bytes, base64_decode, base64_encode, base64_text, decode_error_text,
};
use crate::error::{BurrowError, BurrowErrorModel};
use crate::json::{json_document, json_string_text, quote, Json};
use crate::messages::{Attestation, AttestationModel};
use crate::text::{decimal, push_decimal};

verus! {

/// The public key that belongs to a 32-byte seed.
pub uninterp spec fn ed25519_public_key(seed: Seq<u8>) -> Seq<u8>;

/// The signature of a message under the key of a 32-byte seed.
pub uninterp spec fn ed25519_signature(seed: Seq<u8>, message: Seq<u8>) -> Seq<u8>;

/// Calls `ed25519_dalek::SigningKey::generate` with the operating system's
/// random number generator, and hands back the key's seed.
///
/// Trusted: nothing is claimed of the seed.
#[verifier::external_body]
fn random_seed() -> [u8; 32] {
    ed25519_dalek::SigningKey::generate(&mut rand::rngs::OsRng).to_bytes()
}

/// Calls `ed25519_dalek::SigningKey::from_bytes` and then
/// `ed25519_dalek::SigningKey::verifying_key`.
///
/// Trusted: the public key depends on the seed alone.
#[verifier::external_body]
fn derive_public_key(seed: &[u8; 32]) -> (public: [u8; 32])
    ensures
        public@ == ed25519_public_key(seed@),
{
    ed25519_dalek::SigningKey::from_bytes(seed).verifying_key().to_bytes()
}

/// Signs a message with `ed25519_dalek::Signer::sign` under the key of a
/// seed.
///
/// Trusted: the signature depends on the seed and the message alone.
#[verifier::external_body]
fn sign_with_seed(seed: &[u8; 32], message: &[u8]) -> (signature: [u8; 64])
    ensures
        signature@ == ed25519_signature(seed@, message@),
{
    ed25519_dalek::Signer::sign(&ed25519_dalek::SigningKey::from_bytes(seed), message).to_bytes()
}

fn first_32(bytes: &Vec<u8>) -> (r: [u8; 32])
    requires
        bytes@.len() >= 32,
    ensures
        r@ == bytes@.subrange(0, 32),
{
    let mut seed = [0u8; 32];
    let mut i: usize = 0;
    while i < 32
        invariant
            i <= 32,
            bytes@.len() >= 32,
            forall|k: int| 0 <= k < i ==> seed@[k] == bytes@[k],
        decreases 32 - i,
    {
        seed.set(i, bytes[i]);
        i += 1;
    }
    assert(seed@ =~= bytes@.subrange(0, 32));
    seed
}

/// An Ed25519 keypair.
#[derive(Debug, Clone, PartialEq, Eq)]
pub struct Keypair {
    /// The seed of the signing key.
    pub signing_key: [u8; 32],
    /// The public key.
    pub verifying_key: [u8; 32],
}

/// Why a key file was not accepted.
pub enum KeyFileFault {
    /// The text is not a JSON object with the strings `public_key` and
    /// `secret_key`.
    Format,
    /// The secret key is not base64.
    SecretEncoding,
    /// The secret key is not 64 bytes long.
    SecretLength,
    /// The public key is not base64.
    PublicEncoding,
    /// The public key is not the one that belongs to the secret key.
    Mismatch,
}

/// The string member `key` of a key file.
pub open spec fn file_text_member(j: Json, key: Seq<char>) -> Option<Seq<char>> {
    match j.member(key) {
        Some(Json::Str(s)) => Some(s@),
        _ => None,
    }
}

/// The seed that a key file holds, or why it holds none. The secret key is
/// 64 bytes, the seed and then the public key; the seed decides, and the
/// public key that is written beside it must be the seed's.
pub open spec fn key_file_seed(text: Seq<char>) -> Result<Seq<u8>, KeyFileFault> {
    match json_document(text) {
        None => Err(KeyFileFault::Format),
        Some(j) => match (file_text_member(j, "public_key"@), file_text_member(j, "secret_key"@)) {
            (Some(public), Some(secret)) => match base64_bytes(secret) {
                None => Err(KeyFileFault::SecretEncoding),
                Some(secret_bytes) => if secret_bytes.len() != 64 {
                    Err(KeyFileFault::SecretLength)
                } else {
                    match base64_bytes(public) {
                        None => Err(KeyFileFault::PublicEncoding),
                        Some(public_bytes) => if public_bytes == ed25519_public_key(
                            secret_bytes.subrange(0, 32),
                        ) {
                            Ok(secret_bytes.subrange(0, 32))
                        } else {
                            Err(KeyFileFault::Mismatch)
                        },
                    }
                },
            },
            _ => Err(KeyFileFault::Format),
        },
    }
}

/// How an error reports a fault of a key file.
pub open spec fn reports_fault(e: BurrowErrorModel, fault: KeyFileFault) -> bool {
    match fault {
        KeyFileFault::Format => e == BurrowErrorModel::Json("Invalid keypair file"@),
        KeyFileFault::SecretEncoding => e matches BurrowErrorModel::Crypto(text) && exists|
            detail: Seq<char>,
        | text == "Invalid secret key encoding: "@ + detail,
        KeyFileFault::SecretLength => e == BurrowErrorModel::Crypto("Invalid secret key length"@),
        KeyFileFault::PublicEncoding => e matches BurrowErrorModel::Crypto(text) && exists|
            detail: Seq<char>,
        | text == "Invalid public key encoding: "@ + detail,
        KeyFileFault::Mismatch => e == BurrowErrorModel::Crypto(
            "Public key doesn't match secret key"@,
        ),
    }
}

/// The text of a key file.
pub open spec fn key_file_text(seed: Seq<u8>, public: Seq<u8>) -> Seq<char> {
    "{\n  \"public_key\": "@ + json_string_text(base64_text(public)) + ",\n  \"secret_key\": "@
        + json_string_text(base64_text(seed + public)) + "\n}"@
}

/// The message that an attestation signs.
pub open spec fn attestation_message(timestamp: u64, requested_subdomain: Option<Seq<char>>) -> Seq<
    char,
> {
    "burrow:register:"@ + decimal(timestamp as nat) + ":"@ + match requested_subdomain {
        Some(name) => name,
        None => Seq::<char>::empty(),
    }
}

fn text_member(j: &Json, key: &str) -> (r: Option<String>)
    ensures
        r.deep_view() == file_text_member(*j, key@),
{
    match j.get(key) {
        Some(Json::Str(s)) => Some(s.clone()),
        _ => None,
    }
}

fn encoding_error(label: &str, error: &base64::DecodeError) -> (r: BurrowError)
    ensures
        r@ matches BurrowErrorModel::Crypto(text) && exists|detail: Seq<char>|
            text == label@ + detail,
{
    let mut text = String::from_str(label);
    let detail = decode_error_text(error);
    text.append(detail.as_str());
    assert(text@ == label@ + detail@);
    BurrowError::Crypto(text)
}

impl Keypair {
    /// The public key is the one that belongs to the seed.
    pub open spec fn well_formed(&self) -> bool {
        self.verifying_key@ == ed25519_public_key(self.signing_key@)
    }

    /// The keypair of a seed.
    pub fn from_seed(seed: [u8; 32]) -> (r: Self)
        ensures
            r.signing_key@ == seed@,
            r.well_formed(),
    {
        let verifying_key = derive_public_key(&seed);
        Keypair { signing_key: seed, verifying_key }
    }

    /// A new keypair, from a seed drawn at random.
    pub fn generate() -> (r: Self)
        ensures
            r.well_formed(),
    {
        Keypair::from_seed(random_seed())
    }

    /// Reads a keypair from the text of a key file.
    pub fn from_file_text(text: &str) -> (r: Result<Keypair, BurrowError>)
        ensures
            match key_file_seed(text@) {
                Ok(seed) => r matches Ok(keypair) && keypair.signing_key@ == seed
                    && keypair.well_formed(),
                Err(fault) => r matches Err(e) && reports_fault(e@, fault),
            },
    {
        let j = match Json::parse(text) {
            Some(j) => j,
            None => {
                return Err(BurrowError::Json(String::from_str("Invalid keypair file")));
            },
        };
        let public_key = text_member(&j, "public_key");
        let secret_key = text_member(&j, "secret_key");
        let (public_key, secret_key) = match (public_key, secret_key) {
            (Some(p), Some(s)) => (p, s),
            _ => {
                return Err(BurrowError::Json(String::from_str("Invalid keypair file")));
            },
        };
        let secret_bytes = match base64_decode(secret_key.as_str()) {
            Ok(bytes) => bytes,
            Err(e) => {
                return Err(encoding_error("Invalid secret key encoding: ", &e));
            },
        };
        if secret_bytes.len() != 64 {
            return Err(BurrowError::Crypto(String::from_str("Invalid secret key length")));
        }
        let seed = first_32(&secret_bytes);
        let keypair = Keypair::from_seed(seed);
        let expected_public = match base64_decode(public_key.as_str()) {
            Ok(bytes) => bytes,
            Err(e) => {
                return Err(encoding_error("Invalid public key encoding: ", &e));
            },
        };
        if !same_bytes(keypair.verifying_key.as_slice(), expected_public.as_slice()) {
            return Err(
                BurrowError::Crypto(String::from_str("Public key doesn't match secret key")),
            );
        }
        Ok(keypair)
    }

    /// Writes the keypair as the text of a key file: the public key, and the
    /// secret key as the seed followed by the public key, both base64.
    pub fn to_file_text(&self) -> (r: String)
        ensures
            r@ == key_file_text(self.signing_key@, self.verifying_key@),
    {
        let mut secret: Vec<u8> = Vec::new();
        secret.extend_from_slice(self.signing_key.as_slice());
        secret.extend_from_slice(self.verifying_key.as_slice());
        assert(secret@ =~= self.signing_key@ + self.verifying_key@);
        let public_text = base64_encode(self.verifying_key.as_slice());
        let secret_text = base64_encode(secret.as_slice());
        let mut out = String::from_str("{\n  \"public_key\": ");
        out.append(quote(public_text.as_str()).as_str());
        out.append(",\n  \"secret_key\": ");
        out.append(quote(secret_text.as_str()).as_str());
        out.append("\n}");
        out
    }

    /// The public key in base64.
    pub fn public_key_base64(&self) -> (r: String)
        ensures
            r@ == base64_text(self.verifying_key@),
    {
        base64_encode(self.verifying_key.as_slice())
    }

    /// Signs a message.
    pub fn sign(&self, message: &[u8]) -> (r: [u8; 64])
        ensures
            r@ == ed25519_signature(self.signing_key@, message@),
    {
        sign_with_seed(&self.signing_key, message)
    }
}

fn same_bytes(a: &[u8], b: &[u8]) -> (r: bool)
    ensures
        r == (a@ == b@),
{
    if a.len() != b.len() {
        return false;
    }
    let mut i: usize = 0;
    while i < a.len()
        invariant
            i <= a.len(),
            a.len() == b.len(),
            forall|k: int| 0 <= k < i ==> a@[k] == b@[k],
        decreases a.len() - i,
    {
        if a[i] != b[i] {
            return false;
        }
        i += 1;
    }
    assert(a@ =~= b@);
    true
}

/// Makes the attestation that asks for a registration at the time
/// `timestamp`, in seconds since the epoch: the public key, the subdomain
/// asked for, the time, and the signature of
/// `burrow:register:<timestamp>:<subdomain or nothing>`, in base64.
pub fn create_attestation(keypair: &Keypair, requested_subdomain: Option<&str>, timestamp: u64) -> (r:
    Attestation)
    ensures
        r@ == (AttestationModel {
            public_key: base64_text(keypair.verifying_key@),
            requested_subdomain: match requested_subdomain {
                Some(name) => Some(name@),
                None => None,
            },
            timestamp,
            signature: base64_text(
                ed25519_signature(
                    keypair.signing_key@,
                    encode_utf8(
                        attestation_message(
                            timestamp,
                            match requested_subdomain {
                                Some(name) => Some(name@),
                                None => None,
                            },
                        ),
                    ),
                ),
            ),
        }),
{
    let mut message = String::from_str("burrow:register:");
    push_decimal(&mut message, timestamp);
    message.append(":");
    match requested_subdomain {
        Some(name) => message.append(name),
        None => {
            assert(message@ + Seq::<char>::empty() =~= message@);
        },
    }
    let signature = keypair.sign(message.as_str().as_bytes());
    Attestation {
        public_key: keypair.public_key_base64(),
        requested_subdomain: match requested_subdomain {
            Some(name) => Some(name.to_string()),
            None => None,
        },
        timestamp,
        signature: base64_encode(signature.as_slice()),
    }
}

} // verus!

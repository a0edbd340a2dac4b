//! The signature verifier. An inbound webhook request authenticates by an
//! ed25519 signature, sent hex-encoded in one header, over the byte
//! concatenation of a timestamp header and the raw body. Verification runs
//! before anything parses the body: unauthenticated bytes are never
//! deserialized. The cryptography itself comes from ed25519_compact and the
//! hex decoding from the hex crate, both behind trusted wrappers.
use vstd::prelude::*;
use ed25519_compact::PublicKey;
use ed25519_compact::Signature;

verus! {

#[verifier::external_type_specification]
#[verifier::external_body]
pub struct ExPublicKey(PublicKey);

#[verifier::external_type_specification]
#[verifier::external_body]
pub struct ExSignature(Signature);

/// The 32 raw bytes a parsed public key holds.
pub uninterp spec fn pk_bytes(k: PublicKey) -> Seq<u8>;

/// The 64 raw bytes a parsed signature holds.
pub uninterp spec fn sig_bytes(g: Signature) -> Seq<u8>;

/// Whether `sig` is a valid ed25519 signature over `msg` under the public
/// key bytes `pk`: the verdict of ed25519_compact's verification, which is
/// a function of these three byte strings alone.
pub uninterp spec fn sig_valid(pk: Seq<u8>, msg: Seq<u8>, sig: Seq<u8>) -> bool;

/// Whether `b` is the code of a hex digit, upper or lower case.
pub open spec fn is_hex_digit(b: u8) -> bool {
    (48 <= b <= 57) || (65 <= b <= 70) || (97 <= b <= 102)
}

/// The value of a hex digit.
pub open spec fn hex_val(b: u8) -> int {
    if 48 <= b <= 57 {
        b - 48
    } else if 65 <= b <= 70 {
        b - 55
    } else {
        b - 87
    }
}

/// Whether `s` is a well-formed hex string: even length, every byte a digit.
pub open spec fn valid_hex(s: Seq<u8>) -> bool {
    s.len() % 2 == 0 && (forall|i: int| 0 <= i < s.len() ==> is_hex_digit(s[i]))
}

/// The bytes a well-formed hex string decodes to.
pub open spec fn hex_decode_spec(s: Seq<u8>) -> Seq<u8> {
    Seq::new((s.len() / 2) as nat, |i: int| (hex_val(s[2 * i]) * 16 + hex_val(s[2 * i + 1])) as u8)
}

/// Relies on hex::decode: it accepts upper and lower case digits, fails
/// exactly on an odd length or a non-digit byte, and makes output byte `i`
/// of input digits `2i` and `2i+1`.
#[verifier::external_body]
fn hex_decode(s: &Vec<u8>) -> (r: Option<Vec<u8>>)
    ensures
        r is Some <==> valid_hex(s@),
        r matches Some(v) ==> v@ == hex_decode_spec(s@),
{
    hex::decode(s.as_slice()).ok()
}

/// Relies on ed25519_compact::PublicKey::from_slice: it succeeds exactly on
/// a 32-byte slice and keeps those bytes.
#[verifier::external_body]
fn pk_from_slice(b: &Vec<u8>) -> (r: Option<PublicKey>)
    ensures
        r is Some <==> b@.len() == 32,
        r matches Some(k) ==> pk_bytes(k) == b@,
{
    PublicKey::from_slice(b.as_slice()).ok()
}

/// Relies on ed25519_compact::Signature::from_slice: it succeeds exactly on
/// a 64-byte slice and keeps those bytes.
#[verifier::external_body]
fn sig_from_slice(b: &Vec<u8>) -> (r: Option<Signature>)
    ensures
        r is Some <==> b@.len() == 64,
        r matches Some(g) ==> sig_bytes(g) == b@,
{
    Signature::from_slice(b.as_slice()).ok()
}

/// Relies on ed25519_compact::PublicKey::verify: its verdict is a
/// deterministic function of the key, message and signature bytes.
#[verifier::external_body]
fn ed25519_verify(k: &PublicKey, msg: &Vec<u8>, g: &Signature) -> (r: bool)
    ensures
        r == sig_valid(pk_bytes(*k), msg@, sig_bytes(*g)),
{
    k.verify(msg.as_slice(), g).is_ok()
}

/// Why a request failed authentication.
#[derive(Clone, Copy, Debug, PartialEq, Eq, Structural)]
pub enum AuthError {
    /// The timestamp or the signature header is absent.
    MissingHeader,
    /// The signature header is not well-formed hex for a 64-byte signature.
    MalformedSignature,
    /// The signature does not verify over `timestamp || body`.
    InvalidSignature,
}

/// The two byte strings the signed message is made of, in order.
pub open spec fn signed_message(timestamp: Seq<u8>, body: Seq<u8>) -> Seq<u8> {
    timestamp + body
}

/// The concatenation of two byte vectors.
fn concat_bytes(a: &Vec<u8>, b: &Vec<u8>) -> (r: Vec<u8>)
    ensures
        r@ == a@ + b@,
{
    let mut r: Vec<u8> = Vec::new();
    let mut i: usize = 0;
    while i < a.len()
        invariant
            i <= a@.len(),
            r@ == a@.subrange(0, i as int),
        decreases a@.len() - i,
    {
        r.push(a[i]);
        proof {
            assert(r@ =~= a@.subrange(0, i as int + 1));
        }
        i = i + 1;
    }
    proof {
        assert(r@ =~= a@);
    }
    let mut j: usize = 0;
    while j < b.len()
        invariant
            j <= b@.len(),
            r@ == a@ + b@.subrange(0, j as int),
        decreases b@.len() - j,
    {
        r.push(b[j]);
        proof {
            assert(r@ =~= a@ + b@.subrange(0, j as int + 1));
        }
        j = j + 1;
    }
    proof {
        assert(r@ =~= a@ + b@);
    }
    r
}

/// Authenticates a request: both headers must be present, the signature
/// header must decode to 64 bytes of hex, and the signature must verify
/// over `timestamp || body` under the configured public key. Nothing is
/// mutated; on success the caller goes on to parse the body it already
/// holds.
pub fn verify_request(
    public_key: &Vec<u8>,
    timestamp: Option<&Vec<u8>>,
    signature_hex: Option<&Vec<u8>>,
    body: &Vec<u8>,
) -> (r: Result<(), AuthError>)
    requires
        public_key@.len() == 32,
    ensures
        (timestamp is None || signature_hex is None) <==> r == Err::<(), AuthError>(
            AuthError::MissingHeader,
        ),
        timestamp matches Some(t) ==> signature_hex matches Some(h) ==> {
            &&& !(valid_hex(h@) && hex_decode_spec(h@).len() == 64) <==> r == Err::<(), AuthError>(
                AuthError::MalformedSignature,
            )
            &&& valid_hex(h@) && hex_decode_spec(h@).len() == 64 ==> {
                &&& sig_valid(public_key@, signed_message(t@, body@), hex_decode_spec(h@)) <==> r
                    is Ok
                &&& !sig_valid(public_key@, signed_message(t@, body@), hex_decode_spec(h@)) <==> r
                    == Err::<(), AuthError>(AuthError::InvalidSignature)
            }
        },
{
    let t = match timestamp {
        Some(t) => t,
        None => return Err(AuthError::MissingHeader),
    };
    let h = match signature_hex {
        Some(h) => h,
        None => return Err(AuthError::MissingHeader),
    };
    let raw = match hex_decode(h) {
        Some(v) => v,
        None => return Err(AuthError::MalformedSignature),
    };
    let sig = match sig_from_slice(&raw) {
        Some(g) => g,
        None => return Err(AuthError::MalformedSignature),
    };
    let key = match pk_from_slice(public_key) {
        Some(k) => k,
        None => {
            proof {
                assert(false);
            }
            return Err(AuthError::MissingHeader);
        },
    };
    let msg = concat_bytes(t, body);
    if ed25519_verify(&key, &msg, &sig) {
        Ok(())
    } else {
        Err(AuthError::InvalidSignature)
    }
}

} // verus!

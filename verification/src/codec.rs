//! Key codec: the byte form of a P-256 signing key and what is derived from it.

use crate::errors::LoadingError;
use vstd::prelude::*;
use vstd::slice::slice_to_vec;

verus! {

/// Length of the encoding of a private scalar.
pub const SCALAR_LEN: usize = 32;

/// Shortest input that the outside parser still reads as a private scalar.
pub const MIN_PARSED_LEN: usize = 24;

/// Order of the P-256 group: private scalars lie strictly between zero and it.
pub open spec fn curve_order() -> nat {
    0xffffffff00000000ffffffffffffffffbce6faada7179e84f3b9cac2fc632551nat
}

/// The number that a byte string denotes when read most significant byte first.
pub open spec fn be_value(bytes: Seq<u8>) -> nat
    decreases bytes.len(),
{
    if bytes.len() == 0 {
        0
    } else {
        256 * be_value(bytes.drop_last()) + bytes.last() as nat
    }
}

/// A canonical private scalar: exactly 32 bytes denoting a number in `1..order`.
pub open spec fn is_canonical_scalar(bytes: Seq<u8>) -> bool {
    bytes.len() == SCALAR_LEN && 0 < be_value(bytes) < curve_order()
}

/// The key that stored bytes decode to: the bytes themselves where they are a
/// canonical scalar, and none otherwise. Bytes of any other length are no key.
pub open spec fn decoded(blob: Seq<u8>) -> Option<Seq<u8>> {
    if is_canonical_scalar(blob) {
        Some(blob)
    } else {
        None
    }
}

/// `input` extended on the left with zero bytes to 32 bytes.
pub open spec fn left_padded(input: Seq<u8>) -> Seq<u8> {
    Seq::new((SCALAR_LEN - input.len()) as nat, |i: int| 0u8) + input
}

/// What the outside parser makes of `input`: it reads 24 to 32 bytes denoting a
/// number in `1..order`, and gives them padded on the left to 32 bytes. It is
/// more lenient than `decoded`, which `decode` enforces by testing the length.
pub open spec fn parsed(input: Seq<u8>) -> Option<Seq<u8>> {
    if MIN_PARSED_LEN <= input.len() <= SCALAR_LEN && 0 < be_value(input) < curve_order() {
        Some(left_padded(input))
    } else {
        None
    }
}

/// The uncompressed SEC1 encoding of the public point that belongs to a canonical
/// private scalar: the generator multiplied by the scalar.
pub uninterp spec fn public_point_of(scalar: Seq<u8>) -> Seq<u8>;

/// The PKCS#8 private-key document of a canonical private scalar, PEM-armoured
/// with CRLF line endings.
pub uninterp spec fn pkcs8_pem_of(scalar: Seq<u8>) -> Seq<char>;

/// A P-256 signing key, held as the canonical encoding of its private scalar.
/// The view of a key is that encoding.
pub struct SigningKey {
    scalar: Vec<u8>,
}

/// A P-256 verifying key, held as the uncompressed SEC1 encoding of its point.
#[derive(Debug, PartialEq, Eq)]
pub struct VerifyingKey {
    point: Vec<u8>,
}

impl View for SigningKey {
    type V = Seq<u8>;

    closed spec fn view(&self) -> Seq<u8> {
        self.scalar@
    }
}

impl View for VerifyingKey {
    type V = Seq<u8>;

    closed spec fn view(&self) -> Seq<u8> {
        self.point@
    }
}

impl SigningKey {
    #[verifier::type_invariant]
    spec fn holds_canonical_scalar(self) -> bool {
        is_canonical_scalar(self.scalar@)
    }
}

impl Clone for SigningKey {
    fn clone(&self) -> (copy: SigningKey)
        ensures
            copy@ == self@,
    {
        proof {
            use_type_invariant(self);
        }
        SigningKey { scalar: slice_to_vec(self.scalar.as_slice()) }
    }
}

impl Clone for VerifyingKey {
    fn clone(&self) -> (copy: VerifyingKey)
        ensures
            copy@ == self@,
    {
        VerifyingKey { point: slice_to_vec(self.point.as_slice()) }
    }
}

impl VerifyingKey {
    /// The uncompressed SEC1 encoding of the public point.
    pub fn to_sec1_bytes(&self) -> (bytes: Vec<u8>)
        ensures
            bytes@ == self@,
    {
        slice_to_vec(self.point.as_slice())
    }
}

/// Calls `p256::ecdsa::SigningKey::random` on the operating system's generator
/// and gives the new key's `to_bytes`. Trusted: the scalar is drawn by rejection
/// sampling from `1..order` and serialised as 32 big-endian bytes. Which scalar
/// comes out is left open. The call aborts if the system has no random source.
#[verifier::external_body]
fn random_scalar() -> (scalar: Vec<u8>)
    ensures
        is_canonical_scalar(scalar@),
{
    let key = p256::ecdsa::SigningKey::random(&mut rand_core::OsRng);
    key.to_bytes().to_vec()
}

/// Calls `p256::ecdsa::SigningKey::from_slice` and gives the parsed key's
/// `to_bytes`. Trusted: the call accepts 24 to 32 bytes, pads shorter input on
/// the left with zeros, and rejects a value that is zero or not below the group
/// order; `to_bytes` is the 32-byte big-endian form of the accepted value. The
/// leniency towards short input is the parser's own and goes no further than
/// this function: `decode` hands it 32 bytes and nothing else.
#[verifier::external_body]
fn parse_scalar(blob: &[u8]) -> (scalar: Option<Vec<u8>>)
    ensures
        match scalar {
            Some(bytes) => parsed(blob@) == Some(bytes@),
            None => parsed(blob@) is None,
        },
{
    match p256::ecdsa::SigningKey::from_slice(blob) {
        Ok(key) => Some(key.to_bytes().to_vec()),
        Err(_) => None,
    }
}

/// Calls `verifying_key` on the `p256::ecdsa::SigningKey` of a canonical scalar
/// and gives `to_encoded_point(false)` as bytes. Trusted: the result depends on
/// the scalar alone.
#[verifier::external_body]
fn public_point(scalar: &[u8]) -> (point: Vec<u8>)
    requires
        is_canonical_scalar(scalar@),
    ensures
        point@ == public_point_of(scalar@),
{
    let key = p256::ecdsa::SigningKey::from_slice(scalar).unwrap();
    key.verifying_key().to_encoded_point(false).as_bytes().to_vec()
}

/// Calls `to_pkcs8_pem` with CRLF line endings on the `p256::ecdsa::SigningKey`
/// of a canonical scalar. Trusted: the text depends on the scalar alone, and the
/// encoder accepts every canonical scalar, the document having a fixed size. A
/// refusal by the encoder would abort.
#[verifier::external_body]
fn pkcs8_pem(scalar: &[u8]) -> (pem: String)
    requires
        is_canonical_scalar(scalar@),
    ensures
        pem@ == pkcs8_pem_of(scalar@),
{
    let key = p256::ecdsa::SigningKey::from_slice(scalar).unwrap();
    let line_ending = p256::pkcs8::LineEnding::CRLF;
    p256::pkcs8::EncodePrivateKey::to_pkcs8_pem(&key, line_ending).unwrap().to_string()
}

/// Produces a fresh signing key from the system's secure random source.
pub fn generate() -> (key: SigningKey)
    ensures
        is_canonical_scalar(key@),
{
    SigningKey { scalar: random_scalar() }
}

/// The fixed-length byte form of a key: 32 bytes, most significant first.
pub fn encode(key: &SigningKey) -> (bytes: Vec<u8>)
    ensures
        bytes@ == key@,
        is_canonical_scalar(bytes@),
{
    proof {
        use_type_invariant(key);
    }
    slice_to_vec(key.scalar.as_slice())
}

/// Rebuilds a key from stored bytes. Succeeds exactly when the bytes are a
/// canonical scalar, and the key is then those bytes. Fails with `KeyFailedLoad`
/// otherwise: any length but 32, zero, or a value not below the order.
pub fn decode(blob: &[u8]) -> (outcome: Result<SigningKey, LoadingError>)
    ensures
        match outcome {
            Ok(key) => is_canonical_scalar(blob@) && key@ == blob@,
            Err(e) => !is_canonical_scalar(blob@) && e == LoadingError::KeyFailedLoad,
        },
{
    if blob.len() != SCALAR_LEN {
        return Err(LoadingError::KeyFailedLoad);
    }
    // Input of full length is parsed without padding: the key is the blob.
    match parse_scalar(blob) {
        Some(scalar) => Ok(SigningKey { scalar }),
        None => Err(LoadingError::KeyFailedLoad),
    }
}

/// The verifying key that belongs to a signing key.
pub fn derive_public(key: &SigningKey) -> (public: VerifyingKey)
    ensures
        public@ == public_point_of(key@),
{
    proof {
        use_type_invariant(key);
    }
    VerifyingKey { point: public_point(key.scalar.as_slice()) }
}

/// The key as a PEM-armoured PKCS#8 document with CRLF line endings.
pub fn export_pem(key: &SigningKey) -> (pem: String)
    ensures
        pem@ == pkcs8_pem_of(key@),
{
    proof {
        use_type_invariant(key);
    }
    pkcs8_pem(key.scalar.as_slice())
}

} // verus!

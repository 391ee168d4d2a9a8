//! Authentication of a request: the signature header, its hexadecimal digest
//! and the keyed hash over the raw body.

use vstd::prelude::*;
use vstd::slice::*;
use vstd::string::*;

verus! {

/// One request header as it came over the wire.
#[derive(Debug, PartialEq, Eq)]
pub struct Header {
    pub name: Vec<u8>,
    pub value: Vec<u8>,
}

/// Why no digest could be read from the request headers.
#[derive(Clone, Copy, Debug, PartialEq, Eq, Structural)]
pub enum SignatureError {
    /// No header carries the signature.
    MissingHeader,
    /// The header value does not start with the algorithm prefix.
    MalformedHeader,
    /// What follows the prefix is not an even number of hexadecimal digits.
    InvalidEncoding,
}

/// Name of the header that carries the signature. Matching ignores ASCII case.
pub const SIGNATURE_HEADER: &'static str = "X-Hub-Signature-256";

/// Algorithm prefix that the header value must start with.
pub const SIGNATURE_PREFIX: &'static str = "sha256=";

/// The ASCII lower-case form of a byte.
pub open spec fn ascii_lower(b: u8) -> u8 {
    if 0x41 <= b && b <= 0x5a {
        (b + 32) as u8
    } else {
        b
    }
}

/// Two header names are the same when they agree up to ASCII case.
pub open spec fn same_name(a: Seq<u8>, b: Seq<u8>) -> bool {
    &&& a.len() == b.len()
    &&& forall|i: int| 0 <= i < a.len() ==> ascii_lower(a[i]) == ascii_lower(b[i])
}

/// The value of the first header called `name`, if there is one.
pub open spec fn header_value(headers: Seq<Header>, name: Seq<u8>) -> Option<Seq<u8>>
    decreases headers.len(),
{
    if headers.len() == 0 {
        None
    } else if same_name(headers[0].name@, name) {
        Some(headers[0].value@)
    } else {
        header_value(headers.drop_first(), name)
    }
}

/// `value` begins with `prefix`.
pub open spec fn has_prefix(value: Seq<u8>, prefix: Seq<u8>) -> bool {
    &&& prefix.len() <= value.len()
    &&& forall|i: int| 0 <= i < prefix.len() ==> value[i] == prefix[i]
}

/// `0`-`9`, `a`-`f` or `A`-`F`.
pub open spec fn is_hex_digit(b: u8) -> bool {
    ||| 0x30 <= b && b <= 0x39
    ||| 0x41 <= b && b <= 0x46
    ||| 0x61 <= b && b <= 0x66
}

/// The number a hexadecimal digit stands for.
pub open spec fn hex_value(b: u8) -> int {
    if b <= 0x39 {
        b - 0x30
    } else if b <= 0x46 {
        b - 0x41 + 10
    } else {
        b - 0x61 + 10
    }
}

/// An even number of hexadecimal digits.
pub open spec fn is_hex(digits: Seq<u8>) -> bool {
    &&& digits.len() % 2 == 0
    &&& forall|i: int| 0 <= i < digits.len() ==> is_hex_digit(digits[i])
}

/// The bytes that a run of hexadecimal digits spells, two digits to a byte,
/// high digit first.
pub open spec fn hex_decoded(digits: Seq<u8>) -> Seq<u8> {
    Seq::new(
        digits.len() / 2,
        |i: int| (16 * hex_value(digits[2 * i]) + hex_value(digits[2 * i + 1])) as u8,
    )
}

/// The lower-case hexadecimal digit for a number below 16.
pub open spec fn hex_digit(nibble: u8) -> u8 {
    if nibble < 10 {
        (0x30 + nibble) as u8
    } else {
        (0x61 + nibble - 10) as u8
    }
}

/// The lower-case hexadecimal spelling of `bytes`.
pub open spec fn hex_encoded(bytes: Seq<u8>) -> Seq<u8> {
    Seq::new(
        2 * bytes.len(),
        |i: int| if i % 2 == 0 {
            hex_digit(bytes[i / 2] / 16)
        } else {
            hex_digit(bytes[i / 2] % 16)
        },
    )
}

/// The bytes of the header name and of the prefix, written out.
pub proof fn lemma_wire_names()
    ensures
        SIGNATURE_HEADER.spec_bytes() == seq![
            0x58u8, 0x2d, 0x48, 0x75, 0x62, 0x2d, 0x53, 0x69, 0x67, 0x6e, 0x61, 0x74, 0x75, 0x72,
            0x65, 0x2d, 0x32, 0x35, 0x36,
        ],
        SIGNATURE_PREFIX.spec_bytes() == seq![0x73u8, 0x68, 0x61, 0x32, 0x35, 0x36, 0x3d],
{
    broadcast use is_ascii_spec_bytes;

    reveal_strlit("X-Hub-Signature-256");
    reveal_strlit("sha256=");
    assert(is_ascii(SIGNATURE_HEADER)) by {
        assert(SIGNATURE_HEADER@.len() == 19);
    }
    assert(is_ascii(SIGNATURE_PREFIX)) by {
        assert(SIGNATURE_PREFIX@.len() == 7);
    }
    assert(SIGNATURE_HEADER.spec_bytes() =~= seq![
        0x58u8, 0x2d, 0x48, 0x75, 0x62, 0x2d, 0x53, 0x69, 0x67, 0x6e, 0x61, 0x74, 0x75, 0x72,
        0x65, 0x2d, 0x32, 0x35, 0x36,
    ]);
    assert(SIGNATURE_PREFIX.spec_bytes() =~= seq![0x73u8, 0x68, 0x61, 0x32, 0x35, 0x36, 0x3d]);
}

/// What the request headers say the digest is.
pub open spec fn signature_in(headers: Seq<Header>) -> Result<Seq<u8>, SignatureError> {
    match header_value(headers, SIGNATURE_HEADER.spec_bytes()) {
        None => Err(SignatureError::MissingHeader),
        Some(value) => {
            let prefix = SIGNATURE_PREFIX.spec_bytes();
            if !has_prefix(value, prefix) {
                Err(SignatureError::MalformedHeader)
            } else {
                let digits = value.subrange(prefix.len() as int, value.len() as int);
                if is_hex(digits) {
                    Ok(hex_decoded(digits))
                } else {
                    Err(SignatureError::InvalidEncoding)
                }
            }
        },
    }
}

fn lower(b: u8) -> (r: u8)
    ensures
        r == ascii_lower(b),
{
    if 0x41 <= b && b <= 0x5a {
        b + 32
    } else {
        b
    }
}

/// Compares two header names up to ASCII case.
pub fn names_match(a: &[u8], b: &[u8]) -> (r: bool)
    ensures
        r == same_name(a@, b@),
{
    if a.len() != b.len() {
        return false;
    }
    let mut i: usize = 0;
    while i < a.len()
        invariant
            a@.len() == b@.len(),
            i <= a@.len(),
            forall|k: int| 0 <= k < i ==> ascii_lower(a@[k]) == ascii_lower(b@[k]),
        decreases a@.len() - i,
    {
        if lower(a[i]) != lower(b[i]) {
            return false;
        }
        i += 1;
    }
    true
}

/// Finds the value of the first header called `name`, ignoring ASCII case.
pub fn find_header<'a>(headers: &'a Vec<Header>, name: &[u8]) -> (r: Option<&'a Vec<u8>>)
    ensures
        match r {
            Some(value) => header_value(headers@, name@) == Some(value@),
            None => header_value(headers@, name@) is None,
        },
{
    let mut i: usize = 0;
    assert(headers@.skip(0) =~= headers@);
    while i < headers.len()
        invariant
            i <= headers@.len(),
            header_value(headers@, name@) == header_value(headers@.skip(i as int), name@),
        decreases headers@.len() - i,
    {
        proof {
            let rest = headers@.skip(i as int);
            assert(rest[0] == headers@[i as int]);
            assert(rest.drop_first() =~= headers@.skip(i + 1));
        }
        if names_match(headers[i].name.as_slice(), name) {
            return Some(&headers[i].value);
        }
        i += 1;
    }
    None
}

/// Tells whether `value` begins with `prefix`.
pub fn starts_with(value: &[u8], prefix: &[u8]) -> (r: bool)
    ensures
        r == has_prefix(value@, prefix@),
{
    if prefix.len() > value.len() {
        return false;
    }
    let mut i: usize = 0;
    while i < prefix.len()
        invariant
            prefix@.len() <= value@.len(),
            i <= prefix@.len(),
            forall|k: int| 0 <= k < i ==> value@[k] == prefix@[k],
        decreases prefix@.len() - i,
    {
        if value[i] != prefix[i] {
            return false;
        }
        i += 1;
    }
    true
}

/// `hex::FromHexError`: why `hex` refused a run of digits.
#[verifier::external_type_specification]
#[verifier::external_body]
pub struct ExFromHexError(hex::FromHexError);

/// `hex::decode` on a byte slice. It succeeds exactly on an even number of
/// hexadecimal digits of either case, and then yields one byte for each pair
/// of digits, the first digit of a pair being the high half.
#[verifier::external_body]
fn hex_decode(digits: &[u8]) -> (r: Result<Vec<u8>, hex::FromHexError>)
    ensures
        r is Ok <==> is_hex(digits@),
        r matches Ok(bytes) ==> bytes@ == hex_decoded(digits@),
{
    hex::decode(digits)
}

/// Reads the digest that the request claims: the value of the signature
/// header, without its algorithm prefix, decoded from hexadecimal.
pub fn get_signature_from_header(headers: &Vec<Header>) -> (r: Result<Vec<u8>, SignatureError>)
    ensures
        match r {
            Ok(digest) => signature_in(headers@) == Ok::<Seq<u8>, SignatureError>(digest@),
            Err(e) => signature_in(headers@) == Err::<Seq<u8>, SignatureError>(e),
        },
{
    let value = match find_header(headers, SIGNATURE_HEADER.as_bytes()) {
        Some(value) => value,
        None => return Err(SignatureError::MissingHeader),
    };
    let prefix = SIGNATURE_PREFIX.as_bytes();
    if !starts_with(value.as_slice(), prefix) {
        return Err(SignatureError::MalformedHeader);
    }
    let digits = slice_subrange(value.as_slice(), prefix.len(), value.len());
    match hex_decode(digits) {
        Ok(digest) => Ok(digest),
        Err(_) => Err(SignatureError::InvalidEncoding),
    }
}

/// Longest secret, in bytes, that can key the hash: a longer one has a bit
/// length that the hash function's 64-bit counter cannot hold.
pub const MAX_SECRET_LEN: u64 = 0x1FFF_FFFF_FFFF_FFFF;

/// Longest message, in bytes, that can be hashed under a key: one block of
/// 64 bytes less than the longest secret, since the key block is hashed first.
pub const MAX_MESSAGE_LEN: u64 = 0x1FFF_FFFF_FFFF_FFBF;

/// HMAC with SHA-256 of `message` under the key `secret`, as `ring::hmac::sign`
/// computes it.
pub uninterp spec fn hmac_sha256(secret: Seq<u8>, message: Seq<u8>) -> Seq<u8>;

/// `digest` is the keyed hash of `message` under `secret`. A message that is
/// too long to be hashed is authenticated by no digest.
pub open spec fn authentic(secret: Seq<u8>, message: Seq<u8>, digest: Seq<u8>) -> bool {
    &&& message.len() <= MAX_MESSAGE_LEN
    &&& digest == hmac_sha256(secret, message)
}

/// `bytes` with one bit inverted; bits are counted from the low bit of the
/// first byte.
pub open spec fn with_bit_flipped(bytes: Seq<u8>, bit: int) -> Seq<u8> {
    bytes.update(bit / 8, bytes[bit / 8] ^ (1u8 << ((bit % 8) as u8)))
}

/// `ring::hmac::sign` with an HMAC-SHA-256 key made from `secret`: the tag it
/// returns, as bytes. The call panics where the secret or the message is
/// longer than the hash function can count, which `requires` leaves out.
#[verifier::external_body]
fn ring_sign(secret: &[u8], message: &[u8]) -> (tag: Vec<u8>)
    requires
        secret@.len() <= MAX_SECRET_LEN,
        message@.len() <= MAX_MESSAGE_LEN,
    ensures
        tag@ == hmac_sha256(secret@, message@),
{
    let key = ring::hmac::Key::new(ring::hmac::HMAC_SHA256, secret);
    ring::hmac::sign(&key, message).as_ref().to_vec()
}

/// `ring::hmac::verify` with an HMAC-SHA-256 key made from `secret`. It signs
/// `message` and compares the tag with `tag` in constant time; a message too
/// long to sign is reported as a mismatch. Making the key panics where the
/// secret is longer than the hash function can count, which `requires` leaves
/// out.
#[verifier::external_body]
fn ring_verify(secret: &[u8], message: &[u8], tag: &[u8]) -> (ok: bool)
    requires
        secret@.len() <= MAX_SECRET_LEN,
    ensures
        ok == authentic(secret@, message@, tag@),
{
    let key = ring::hmac::Key::new(ring::hmac::HMAC_SHA256, secret);
    ring::hmac::verify(&key, message, tag).is_ok()
}

/// Computes the digest that authenticates `message` under `secret`.
pub fn compute_signature(secret: &[u8], message: &[u8]) -> (digest: Vec<u8>)
    requires
        secret@.len() <= MAX_SECRET_LEN,
        message@.len() <= MAX_MESSAGE_LEN,
    ensures
        digest@ == hmac_sha256(secret@, message@),
        authentic(secret@, message@, digest@),
{
    ring_sign(secret, message)
}

/// Tells whether `expected_signature` is the keyed hash of `message` under
/// `secret`. The comparison takes the same time whatever the digests hold.
pub fn verify_signature(secret: &[u8], message: &[u8], expected_signature: &[u8]) -> (ok: bool)
    requires
        secret@.len() <= MAX_SECRET_LEN,
    ensures
        ok == authentic(secret@, message@, expected_signature@),
{
    ring_verify(secret, message, expected_signature)
}

/// The digest computed for a message authenticates it, and no other digest
/// does.
pub proof fn lemma_only_the_computed_digest_verifies(
    secret: Seq<u8>,
    message: Seq<u8>,
    digest: Seq<u8>,
)
    requires
        message.len() <= MAX_MESSAGE_LEN,
    ensures
        authentic(secret, message, hmac_sha256(secret, message)),
        authentic(secret, message, digest) <==> digest == hmac_sha256(secret, message),
{
}

/// Inverting any one bit of a byte string changes it.
pub proof fn lemma_flipped_bit_differs(bytes: Seq<u8>, bit: int)
    requires
        0 <= bit < 8 * bytes.len(),
    ensures
        with_bit_flipped(bytes, bit) != bytes,
        with_bit_flipped(bytes, bit).len() == bytes.len(),
{
    let at = bit / 8;
    let shift = (bit % 8) as u8;
    let before = bytes[at];
    assert(before ^ (1u8 << shift) != before) by (bit_vector)
        requires
            shift < 8,
    ;
    assert(with_bit_flipped(bytes, bit)[at] != bytes[at]);
}

/// A digest with any one bit inverted no longer authenticates the message it
/// was computed for.
pub proof fn lemma_flipped_digest_is_rejected(secret: Seq<u8>, message: Seq<u8>, bit: int)
    requires
        0 <= bit < 8 * hmac_sha256(secret, message).len(),
    ensures
        !authentic(secret, message, with_bit_flipped(hmac_sha256(secret, message), bit)),
{
    lemma_flipped_bit_differs(hmac_sha256(secret, message), bit);
}

/// A message with any one bit inverted is authenticated by the digest of the
/// unchanged message only if the two messages have the same keyed hash.
pub proof fn lemma_flipped_message_needs_a_collision(
    secret: Seq<u8>,
    message: Seq<u8>,
    bit: int,
)
    requires
        0 <= bit < 8 * message.len(),
        message.len() <= MAX_MESSAGE_LEN,
    ensures
        with_bit_flipped(message, bit) != message,
        authentic(secret, with_bit_flipped(message, bit), hmac_sha256(secret, message))
            <==> hmac_sha256(secret, with_bit_flipped(message, bit)) == hmac_sha256(
            secret,
            message,
        ),
{
    lemma_flipped_bit_differs(message, bit);
}

/// Decoding the lower-case hexadecimal spelling of a byte string gives the
/// byte string back.
pub proof fn lemma_hex_round_trip(bytes: Seq<u8>)
    ensures
        is_hex(hex_encoded(bytes)),
        hex_decoded(hex_encoded(bytes)) == bytes,
{
    let digits = hex_encoded(bytes);
    assert forall|i: int| 0 <= i < digits.len() implies is_hex_digit(digits[i]) by {
        let b = bytes[i / 2];
        assert(b / 16 < 16 && b % 16 < 16);
    }
    assert forall|i: int| 0 <= i < bytes.len() implies hex_decoded(digits)[i] == bytes[i] by {
        let b = bytes[i];
        assert((2 * i) / 2 == i && (2 * i + 1) / 2 == i);
        assert((2 * i) % 2 == 0 && (2 * i + 1) % 2 == 1);
        assert(digits[2 * i] == hex_digit(b / 16));
        assert(digits[2 * i + 1] == hex_digit(b % 16));
        assert(hex_value(hex_digit(b / 16)) == b / 16);
        assert(hex_value(hex_digit(b % 16)) == b % 16);
        assert(16 * (b / 16) + b % 16 == b);
    }
    assert(hex_decoded(digits) =~= bytes);
}

/// Each of the three failures has its own cause: no header of that name; a
/// header whose value lacks the prefix; a header with the prefix before
/// anything but an even number of hexadecimal digits.
pub proof fn lemma_each_failure_has_its_cause(headers: Seq<Header>)
    ensures
        signature_in(headers) == Err::<Seq<u8>, SignatureError>(SignatureError::MissingHeader)
            <==> header_value(headers, SIGNATURE_HEADER.spec_bytes()) is None,
        signature_in(headers) == Err::<Seq<u8>, SignatureError>(SignatureError::MalformedHeader)
            <==> (header_value(headers, SIGNATURE_HEADER.spec_bytes()) matches Some(value)
            && !has_prefix(value, SIGNATURE_PREFIX.spec_bytes())),
        signature_in(headers) == Err::<Seq<u8>, SignatureError>(SignatureError::InvalidEncoding)
            <==> (header_value(headers, SIGNATURE_HEADER.spec_bytes()) matches Some(value)
            && has_prefix(value, SIGNATURE_PREFIX.spec_bytes()) && !is_hex(
            value.subrange(SIGNATURE_PREFIX.spec_bytes().len() as int, value.len() as int),
        )),
{
}

/// Where the signature header holds the prefix followed by the lower-case
/// hexadecimal spelling of a digest, that digest is what the headers claim.
pub proof fn lemma_spelled_digest_is_read(headers: Seq<Header>, digest: Seq<u8>)
    requires
        header_value(headers, SIGNATURE_HEADER.spec_bytes()) == Some(
            SIGNATURE_PREFIX.spec_bytes() + hex_encoded(digest),
        ),
    ensures
        signature_in(headers) == Ok::<Seq<u8>, SignatureError>(digest),
{
    let prefix = SIGNATURE_PREFIX.spec_bytes();
    let value = prefix + hex_encoded(digest);
    lemma_hex_round_trip(digest);
    assert(has_prefix(value, prefix));
    assert(value.subrange(prefix.len() as int, value.len() as int) =~= hex_encoded(digest));
}

} // verus!

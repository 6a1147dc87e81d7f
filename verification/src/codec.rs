//! The signing codec: the canonical bytes of an update, base64 text, and
//! Ed25519 keys, signatures and their verification.

use vstd::prelude::*;
use vstd::slice::slice_to_vec;
use vstd::string::*;
use vstd::utf8::{encode_utf8, encode_utf8_decode_utf8};

verus! {

#[verifier::external_type_specification]
#[verifier::external_body]
pub struct ExDecodeError(base64::DecodeError);

#[verifier::external_type_specification]
#[verifier::external_body]
pub struct ExKeyRejected(ring::error::KeyRejected);

#[verifier::external_type_specification]
#[verifier::external_body]
pub struct ExUnspecified(ring::error::Unspecified);

/// The standard, padded base64 text of a byte string.
pub uninterp spec fn base64_text(bytes: Seq<u8>) -> Seq<char>;

/// The bytes that a standard base64 text stands for, if it is well formed.
pub uninterp spec fn base64_bytes(text: Seq<char>) -> Option<Seq<u8>>;

/// The public key held in a PKCS#8 v2 Ed25519 document, if the document is accepted.
pub uninterp spec fn ed25519_public_key(pkcs8: Seq<u8>) -> Option<Seq<u8>>;

/// The Ed25519 signature that the key of a PKCS#8 document gives a message.
pub uninterp spec fn ed25519_signature(pkcs8: Seq<u8>, message: Seq<u8>) -> Seq<u8>;

/// Whether Ed25519 verification accepts a signature of a message under a public key.
pub uninterp spec fn ed25519_accepts(public_key: Seq<u8>, message: Seq<u8>, signature: Seq<u8>) -> bool;

/// Whether a byte string is short enough for the base64 encoder: its text,
/// a third longer, must have a length that fits in `usize`.
pub open spec fn encodable(bytes: Seq<u8>) -> bool {
    bytes.len() <= usize::MAX / 2
}

/// Calls `base64::Engine::encode` on the `STANDARD` engine. Trusted: the text
/// is the base64 text of the bytes, it has four characters for every three
/// bytes or part of three, and decoding it gives the bytes back. The encoder
/// panics when the text's length overflows `usize`, which the bound on the
/// input rules out.
#[verifier::external_body]
fn encode_standard(bytes: &[u8]) -> (text: String)
    requires
        encodable(bytes@),
    ensures
        text@ == base64_text(bytes@),
        text@.len() == (bytes@.len() + 2) / 3 * 4,
        base64_bytes(text@) == Some(bytes@),
{
    base64::Engine::encode(&base64::engine::general_purpose::STANDARD, bytes)
}

/// Calls `base64::Engine::decode` on the `STANDARD` engine. Trusted: it
/// succeeds exactly on well-formed text, with the bytes the text stands for.
#[verifier::external_body]
fn decode_standard(text: &str) -> (r: Result<Vec<u8>, base64::DecodeError>)
    ensures
        r is Ok <==> base64_bytes(text@) is Some,
        r is Ok ==> base64_bytes(text@) == Some(r->Ok_0@),
{
    base64::Engine::decode(&base64::engine::general_purpose::STANDARD, text)
}

/// Calls `ring::signature::Ed25519KeyPair::from_pkcs8` and reads the pair's
/// public key. Trusted: the document is accepted exactly when it has a public
/// key, which is what comes back, 32 bytes long.
#[verifier::external_body]
fn pkcs8_public_key(pkcs8: &[u8]) -> (r: Result<Vec<u8>, ring::error::KeyRejected>)
    ensures
        r is Ok <==> ed25519_public_key(pkcs8@) is Some,
        r is Ok ==> ed25519_public_key(pkcs8@) == Some(r->Ok_0@),
        r is Ok ==> r->Ok_0@.len() == 32,
{
    let pair = ring::signature::Ed25519KeyPair::from_pkcs8(pkcs8)?;
    Ok(ring::signature::KeyPair::public_key(&pair).as_ref().to_vec())
}

/// Calls `ring::signature::Ed25519KeyPair::sign` with the key of a PKCS#8
/// document. Trusted: an accepted document signs; the signature depends on
/// document and message alone, is 64 bytes long, and is accepted by Ed25519
/// verification under the document's public key.
#[verifier::external_body]
fn pkcs8_sign(pkcs8: &[u8], message: &[u8]) -> (r: Result<Vec<u8>, ring::error::KeyRejected>)
    ensures
        r is Ok <==> ed25519_public_key(pkcs8@) is Some,
        r is Ok ==> r->Ok_0@ == ed25519_signature(pkcs8@, message@),
        r is Ok ==> r->Ok_0@.len() == 64,
        r is Ok ==> ed25519_accepts(ed25519_public_key(pkcs8@)->Some_0, message@, r->Ok_0@),
{
    let pair = ring::signature::Ed25519KeyPair::from_pkcs8(pkcs8)?;
    Ok(pair.sign(message).as_ref().to_vec())
}

/// Calls `ring::signature::UnparsedPublicKey::verify` for `ED25519`.
/// Trusted: it succeeds exactly when the signature is accepted, and accepts
/// only a signature of 64 bytes under a key of 32 bytes.
#[verifier::external_body]
fn verify_detached(public_key: &[u8], message: &[u8], signature: &[u8]) -> (r: Result<
    (),
    ring::error::Unspecified,
>)
    ensures
        r is Ok <==> ed25519_accepts(public_key@, message@, signature@),
        r is Ok ==> public_key@.len() == 32 && signature@.len() == 64,
{
    ring::signature::UnparsedPublicKey::new(&ring::signature::ED25519, public_key).verify(
        message,
        signature,
    )
}

/// Calls `ring::signature::Ed25519KeyPair::generate_pkcs8` with the system's
/// random number generator. Nothing is claimed of the document.
#[verifier::external_body]
fn fresh_pkcs8() -> (r: Result<Vec<u8>, ring::error::Unspecified>) {
    let rng = ring::rand::SystemRandom::new();
    let document = ring::signature::Ed25519KeyPair::generate_pkcs8(&rng)?;
    Ok(document.as_ref().to_vec())
}

/// The bytes that are signed for a user and a content reference: the UTF-8
/// encoding of the user, one space, and the reference.
pub open spec fn canonical_bytes(user: Seq<char>, content: Seq<char>) -> Seq<u8> {
    encode_utf8(user.push(' ') + content)
}

/// The canonical bytes tell user and content apart as long as no user name
/// holds a space: two pairs with such users and the same bytes are the same
/// pair.
pub proof fn canonical_bytes_unambiguous(
    user1: Seq<char>,
    content1: Seq<char>,
    user2: Seq<char>,
    content2: Seq<char>,
)
    requires
        !user1.contains(' '),
        !user2.contains(' '),
        canonical_bytes(user1, content1) == canonical_bytes(user2, content2),
    ensures
        user1 == user2,
        content1 == content2,
{
    let joined1 = user1.push(' ') + content1;
    let joined2 = user2.push(' ') + content2;
    encode_utf8_decode_utf8(joined1);
    encode_utf8_decode_utf8(joined2);
    assert(joined1 == joined2);
    assert(joined1[user1.len() as int] == ' ');
    assert(joined2[user2.len() as int] == ' ');
    if user1.len() < user2.len() {
        assert(joined2[user1.len() as int] == user2[user1.len() as int]);
        assert(user2.contains(' '));
    }
    if user2.len() < user1.len() {
        assert(joined1[user2.len() as int] == user1[user2.len() as int]);
        assert(user1.contains(' '));
    }
    assert forall|k: int| 0 <= k < user1.len() implies user1[k] == user2[k] by {
        assert(joined1[k] == user1[k]);
        assert(joined2[k] == user2[k]);
    }
    assert(user1 =~= user2);
    assert(content1.len() == content2.len()) by {
        assert(joined1.len() == user1.len() + 1 + content1.len());
        assert(joined2.len() == user2.len() + 1 + content2.len());
    }
    assert forall|k: int| 0 <= k < content1.len() implies content1[k] == content2[k] by {
        assert(joined1[user1.len() + 1 + k] == content1[k]);
        assert(joined2[user2.len() + 1 + k] == content2[k]);
    }
    assert(content1 =~= content2);
}

/// With a space in the user name the canonical bytes are ambiguous: the
/// part of the name after the space may as well open the content.
pub proof fn canonical_bytes_ambiguous(user: Seq<char>, middle: Seq<char>, content: Seq<char>)
    ensures
        canonical_bytes(user.push(' ') + middle, content) == canonical_bytes(
            user,
            middle.push(' ') + content,
        ),
{
    assert((user.push(' ') + middle).push(' ') + content =~= user.push(' ') + (middle.push(' ')
        + content));
}

/// Builds the bytes that are signed for `user` and `content`.
pub fn canonicalize(user: &str, content: &str) -> (bytes: Vec<u8>)
    ensures
        bytes@ == canonical_bytes(user@, content@),
{
    let joined = String::from_str(user).concat(" ").concat(content);
    proof {
        reveal_strlit(" ");
        assert(" "@ =~= seq![' ']);
        assert(joined@ =~= user@.push(' ') + content@);
    }
    joined.as_str().as_bytes_vec()
}

/// The base64 text of `bytes`: four characters for every three bytes or
/// part of three.
pub fn encode(bytes: &[u8]) -> (text: String)
    requires
        encodable(bytes@),
    ensures
        text@ == base64_text(bytes@),
        text@.len() == (bytes@.len() + 2) / 3 * 4,
        base64_bytes(text@) == Some(bytes@),
{
    encode_standard(bytes)
}

/// The bytes of a base64 text, or `None` where the text is malformed.
pub fn decode(text: &str) -> (bytes: Option<Vec<u8>>)
    ensures
        bytes is Some <==> base64_bytes(text@) is Some,
        bytes is Some ==> base64_bytes(text@) == Some(bytes->Some_0@),
{
    match decode_standard(text) {
        Ok(bytes) => Some(bytes),
        Err(_) => None,
    }
}

/// Whether `signature` is a valid Ed25519 signature of `message` under
/// `public_key`. Only a signature of 64 bytes under a key of 32 bytes is.
pub fn verify(public_key: &[u8], message: &[u8], signature: &[u8]) -> (accepted: bool)
    ensures
        accepted == ed25519_accepts(public_key@, message@, signature@),
        accepted ==> public_key@.len() == 32 && signature@.len() == 64,
{
    match verify_detached(public_key, message, signature) {
        Ok(_) => true,
        Err(_) => false,
    }
}

/// An Ed25519 key pair: a PKCS#8 document that was accepted, and its public key.
pub struct KeyPair {
    pkcs8: Vec<u8>,
    public: Vec<u8>,
}

impl KeyPair {
    #[verifier::type_invariant]
    spec fn consistent(&self) -> bool {
        ed25519_public_key(self.pkcs8@) == Some(self.public@) && self.public@.len() == 32
    }

    /// The PKCS#8 document of the pair.
    pub closed spec fn document(&self) -> Seq<u8> {
        self.pkcs8@
    }

    /// The public key of the pair.
    pub closed spec fn public_key(&self) -> Seq<u8> {
        self.public@
    }

    /// Reads a key pair from a PKCS#8 v2 document; `None` where the document
    /// is rejected.
    pub fn from_pkcs8(pkcs8: &[u8]) -> (pair: Option<KeyPair>)
        ensures
            pair is Some <==> ed25519_public_key(pkcs8@) is Some,
            pair is Some ==> pair->Some_0.document() == pkcs8@ && Some(pair->Some_0.public_key())
                == ed25519_public_key(pkcs8@),
            pair is Some ==> pair->Some_0.public_key().len() == 32,
    {
        match pkcs8_public_key(pkcs8) {
            Ok(public) => Some(KeyPair { pkcs8: slice_to_vec(pkcs8), public }),
            Err(_) => None,
        }
    }

    /// Generates a new key pair; `None` where the generator fails or its
    /// document is rejected.
    pub fn generate() -> (pair: Option<KeyPair>)
        ensures
            pair is Some ==> ed25519_public_key(pair->Some_0.document()) == Some(
                pair->Some_0.public_key(),
            ),
            pair is Some ==> pair->Some_0.public_key().len() == 32,
    {
        match fresh_pkcs8() {
            Ok(document) => KeyPair::from_generated(Some(document)),
            Err(_) => KeyPair::from_generated(None),
        }
    }

    /// The key pair of what the generator handed out: the pair of the
    /// document, where there is one and it is accepted; `None` where the
    /// generator failed or its document is rejected.
    pub fn from_generated(generated: Option<Vec<u8>>) -> (pair: Option<KeyPair>)
        ensures
            pair is Some <==> generated is Some && ed25519_public_key(generated->Some_0@)
                is Some,
            pair is Some ==> pair->Some_0.document() == generated->Some_0@ && Some(
                pair->Some_0.public_key(),
            ) == ed25519_public_key(generated->Some_0@),
            pair is Some ==> pair->Some_0.public_key().len() == 32,
    {
        match generated {
            Some(document) => KeyPair::from_pkcs8(document.as_slice()),
            None => None,
        }
    }

    /// The pair's public key, of 32 bytes.
    pub fn public_key_bytes(&self) -> (bytes: &[u8])
        ensures
            bytes@ == self.public_key(),
            bytes@.len() == 32,
    {
        proof {
            use_type_invariant(self);
        }
        self.public.as_slice()
    }

    /// The pair's PKCS#8 document.
    pub fn pkcs8_bytes(&self) -> (bytes: &[u8])
        ensures
            bytes@ == self.document(),
    {
        self.pkcs8.as_slice()
    }

    /// Signs `message`. The signature is the one that Ed25519 gives the
    /// message under this key, has 64 bytes, and is accepted under the pair's
    /// public key.
    pub fn sign(&self, message: &[u8]) -> (signature: Vec<u8>)
        ensures
            signature@ == ed25519_signature(self.document(), message@),
            signature@.len() == 64,
            ed25519_accepts(self.public_key(), message@, signature@),
    {
        proof {
            use_type_invariant(self);
        }
        match pkcs8_sign(self.pkcs8.as_slice(), message) {
            Ok(signature) => signature,
            Err(_) => Vec::new(),
        }
    }
}

} // verus!

//! The update message: the signed record by which a user points a name at a
//! new content reference.

use crate::codec::{
    base64_bytes, base64_text, canonical_bytes, canonicalize, decode, ed25519_accepts,
    ed25519_signature, encode, verify, KeyPair,
};
use vstd::prelude::*;
use vstd::string::*;

verus! {

/// The text that std's `Debug` gives a string: the string between double
/// quotes, with its escapes.
pub uninterp spec fn debug_text(s: Seq<char>) -> Seq<char>;

/// Formats a string with std's `Debug` for `str`. Trusted: the text is a
/// function of the string alone.
#[verifier::external_body]
fn debug_quoted(s: &str) -> (text: String)
    ensures
        text@ == debug_text(s@),
{
    format!("{:?}", s)
}

/// Why a candidate update is rejected.
#[derive(Clone, PartialEq, Eq, Debug)]
pub enum ValidationError {
    /// The message's user has no key record; holds the user's name.
    UnknownUser(String),
    /// The signature text is empty or is not base64.
    MalformedSignature,
    /// The signature decodes, and the user's key does not accept it.
    InvalidSignature,
}

impl ValidationError {
    /// The text by which the rejection is described: the one that `Debug`
    /// gives the value, with the user's name quoted and escaped.
    pub open spec fn description(self) -> Seq<char> {
        match self {
            ValidationError::UnknownUser(user) => "UnknownUser("@ + debug_text(user@) + ")"@,
            ValidationError::MalformedSignature => "MalformedSignature"@,
            ValidationError::InvalidSignature => "InvalidSignature"@,
        }
    }

    /// Describes the rejection in words.
    pub fn describe(&self) -> (text: String)
        ensures
            text@ == self.description(),
    {
        match self {
            ValidationError::UnknownUser(user) => String::from_str("UnknownUser(").concat(
                debug_quoted(user.as_str()).as_str(),
            ).concat(")"),
            ValidationError::MalformedSignature => String::from_str("MalformedSignature"),
            ValidationError::InvalidSignature => String::from_str("InvalidSignature"),
        }
    }
}

/// A moment in UTC: whole seconds since the Unix epoch, and the nanoseconds
/// into that second.
#[derive(Clone, Copy, Debug, PartialEq, Eq, Structural)]
pub struct Timestamp {
    pub seconds: i64,
    pub nanos: u32,
}

/// Reads the system's clock with `std::time::SystemTime::now`, converts it
/// with chrono's `From<SystemTime>` for `DateTime<Utc>`, and reads the
/// moment's seconds and nanoseconds; a clock that stands before 1970 gives
/// negative seconds. Nothing is claimed of the moment. The conversion holds
/// every moment within chrono's range, some 262,000 years to either side of
/// 1970.
#[verifier::external_body]
fn utc_now() -> (moment: Timestamp) {
    let now = chrono::DateTime::<chrono::Utc>::from(std::time::SystemTime::now());
    Timestamp { seconds: now.timestamp(), nanos: now.timestamp_subsec_nanos() }
}

/// The record "user sets the pointer to `new_contents` at `utc`", with the
/// user's signature as base64 text. The time is carried along and not signed.
#[derive(Debug, Clone, PartialEq, Eq)]
pub struct UpdateMessage {
    pub user: String,
    pub utc: Timestamp,
    pub signature: String,
    pub new_contents: String,
}

/// The bytes of a signature text: those that its base64 stands for. An empty
/// text holds no signature, and neither does one that is not base64.
pub open spec fn signature_bytes(text: Seq<char>) -> Option<Seq<u8>> {
    if text.len() == 0 {
        None
    } else {
        base64_bytes(text)
    }
}

/// Decodes a signature text; `None` where the text is empty or is not base64.
pub fn decode_signature(text: &str) -> (bytes: Option<Vec<u8>>)
    ensures
        bytes is Some <==> signature_bytes(text@) is Some,
        bytes is Some ==> signature_bytes(text@) == Some(bytes->Some_0@),
{
    if text.is_empty() {
        None
    } else {
        decode(text)
    }
}

/// What becomes of a signature text: malformed where it did not decode,
/// otherwise valid or invalid as the key accepted it or not.
pub open spec fn verdict_of(decoded: bool, accepted: bool) -> Result<(), ValidationError> {
    if !decoded {
        Err(ValidationError::MalformedSignature)
    } else if accepted {
        Ok(())
    } else {
        Err(ValidationError::InvalidSignature)
    }
}

/// The verdict on a signature, from whether its text decoded and whether the
/// key accepted the decoded bytes.
pub fn verdict(decoded: bool, accepted: bool) -> (r: Result<(), ValidationError>)
    ensures
        r == verdict_of(decoded, accepted),
{
    if !decoded {
        Err(ValidationError::MalformedSignature)
    } else if accepted {
        Ok(())
    } else {
        Err(ValidationError::InvalidSignature)
    }
}

/// A message without a signature text is malformed under every key, and a
/// malformed message is so under every key alike: which key is asked never
/// turns a decode error into a mismatch.
pub proof fn malformed_under_every_key(msg: UpdateMessage, key: Seq<u8>, other: Seq<u8>)
    ensures
        msg.signature@.len() == 0 ==> msg.outcome(key) == Err::<(), ValidationError>(
            ValidationError::MalformedSignature,
        ),
        msg.outcome(key) == Err::<(), ValidationError>(ValidationError::MalformedSignature)
            <==> msg.outcome(other) == Err::<(), ValidationError>(
            ValidationError::MalformedSignature,
        ),
{
}

impl UpdateMessage {
    /// The bytes that the message's signature is a signature of.
    pub open spec fn signed_bytes(self) -> Seq<u8> {
        canonical_bytes(self.user@, self.new_contents@)
    }

    /// The outcome of checking the message against a public key.
    pub open spec fn outcome(self, public_key: Seq<u8>) -> Result<(), ValidationError> {
        match signature_bytes(self.signature@) {
            None => verdict_of(false, false),
            Some(signature) => verdict_of(
                true,
                ed25519_accepts(public_key, self.signed_bytes(), signature),
            ),
        }
    }

    /// A copy of the message, field by field.
    pub fn duplicate(&self) -> (copy: UpdateMessage)
        ensures
            copy == *self,
    {
        UpdateMessage {
            user: self.user.clone(),
            utc: self.utc,
            signature: self.signature.clone(),
            new_contents: self.new_contents.clone(),
        }
    }

    /// Composes the update of `user` to `msg` at the moment `utc`, signed
    /// with `keypair`. User and contents are taken as they are; the signature
    /// is the base64 text of the key's signature of the canonical bytes. The
    /// message is valid against the pair's public key, and against no key is
    /// its signature malformed.
    pub fn signed_message_at(keypair: &KeyPair, user: &str, msg: &str, utc: Timestamp) -> (m:
        UpdateMessage)
        ensures
            m.user@ == user@,
            m.new_contents@ == msg@,
            m.utc == utc,
            m.signature@ == base64_text(
                ed25519_signature(keypair.document(), canonical_bytes(user@, msg@)),
            ),
            m.outcome(keypair.public_key()) == Ok::<(), ValidationError>(()),
            forall|key: Seq<u8>| #[trigger]
                m.outcome(key) != Err::<(), ValidationError>(ValidationError::MalformedSignature),
    {
        let message_bytes = canonicalize(user, msg);
        let sig = keypair.sign(message_bytes.as_slice());
        let base64_sig = encode(sig.as_slice());
        UpdateMessage {
            user: String::from_str(user),
            utc,
            signature: base64_sig,
            new_contents: String::from_str(msg),
        }
    }

    /// Composes the update of `user` to `msg` now, signed with `keypair`.
    /// Whatever the clock says, the message is the one that
    /// `signed_message_at` composes for that moment.
    pub fn signed_message(keypair: &KeyPair, user: &str, msg: &str) -> (m: UpdateMessage)
        ensures
            m.user@ == user@,
            m.new_contents@ == msg@,
            m.signature@ == base64_text(
                ed25519_signature(keypair.document(), canonical_bytes(user@, msg@)),
            ),
            m.outcome(keypair.public_key()) == Ok::<(), ValidationError>(()),
            forall|key: Seq<u8>| #[trigger]
                m.outcome(key) != Err::<(), ValidationError>(ValidationError::MalformedSignature),
    {
        UpdateMessage::signed_message_at(keypair, user, msg, utc_now())
    }

    /// Checks the message against a public key: `MalformedSignature` where the
    /// signature text is empty or not base64, `InvalidSignature` where the key does not
    /// accept the decoded signature for the message's canonical bytes.
    pub fn verify_signature(&self, pubkey_bytes: &[u8]) -> (r: Result<(), ValidationError>)
        ensures
            r == self.outcome(pubkey_bytes@),
    {
        let message_bytes = canonicalize(self.user.as_str(), self.new_contents.as_str());
        match decode_signature(self.signature.as_str()) {
            None => verdict(false, false),
            Some(sig_bytes) => verdict(
                true,
                verify(pubkey_bytes, message_bytes.as_slice(), sig_bytes.as_slice()),
            ),
        }
    }
}

} // verus!

use name_registry::codec::{canonicalize, decode, encode, verify, KeyPair};

fn unhex(text: &str) -> Vec<u8> {
    let digits: Vec<u8> = text.bytes().map(|c| (c as char).to_digit(16).unwrap() as u8).collect();
    digits.chunks(2).map(|pair| pair[0] * 16 + pair[1]).collect()
}

const SEED: &str = "9d61b19deffd5a60ba844af492ec2cc44449c5697b326919703bac031cae7f60";
const PUBLIC: &str = "d75a980182b10ab7d54bfed3c964073a0ee172f3daa62325af021a68f707511a";
const SIGNATURE_OF_EMPTY: &str = "e5564300c360ac729086e2cc806e828a84877f1eb8e5d974d873e06522490155\
5fb8821590a33bacc61e39701cf9b46bd25bf5f0595bbe24655141438e7a100b";

fn document() -> Vec<u8> {
    let mut doc = unhex("3053020101300506032b657004220420");
    doc.extend(unhex(SEED));
    doc.extend(unhex("a123032100"));
    doc.extend(unhex(PUBLIC));
    doc
}

#[test]
fn canonical_bytes_are_user_space_contents() {
    assert_eq!(canonicalize("alice", "doc1"), b"alice doc1".to_vec());
    assert_eq!(canonicalize("", ""), b" ".to_vec());
    assert_eq!(canonicalize("a b", "c"), canonicalize("a", "b c"));
    assert_eq!(canonicalize("zo\u{e9}", "\u{20ac}"), "zo\u{e9} \u{20ac}".as_bytes().to_vec());
}

#[test]
fn base64_text_of_known_bytes() {
    assert_eq!(encode(b"hello world~"), "aGVsbG8gd29ybGR+");
    assert_eq!(encode(b""), "");
    assert_eq!(encode(b"a"), "YQ==");
}

#[test]
fn base64_bytes_of_known_text() {
    assert_eq!(decode("aGVsbG8gd29ybGR+"), Some(b"hello world~".to_vec()));
    assert_eq!(decode("YQ=="), Some(b"a".to_vec()));
    assert_eq!(decode(""), Some(Vec::new()));
}

#[test]
fn base64_rejects_malformed_text() {
    assert_eq!(decode("not base64!"), None);
    assert_eq!(decode("YQ"), None);
    assert_eq!(decode("Y"), None);
}

#[test]
fn base64_round_trip() {
    let bytes: Vec<u8> = (0u8..=255).collect();
    assert_eq!(decode(&encode(&bytes)), Some(bytes));
}

#[test]
fn key_pair_from_known_document() {
    let doc = document();
    let pair = KeyPair::from_pkcs8(&doc).expect("the document is well formed");
    assert_eq!(pair.public_key_bytes(), unhex(PUBLIC).as_slice());
    assert_eq!(pair.pkcs8_bytes(), doc.as_slice());
}

#[test]
fn key_pair_rejects_bad_documents() {
    assert!(KeyPair::from_pkcs8(b"").is_none());
    assert!(KeyPair::from_pkcs8(b"not a key").is_none());
    let mut doc = document();
    let last = doc.len() - 1;
    doc[last] ^= 1;
    assert!(KeyPair::from_pkcs8(&doc).is_none());
}

#[test]
fn signature_of_known_message() {
    let pair = KeyPair::from_pkcs8(&document()).unwrap();
    assert_eq!(pair.sign(b""), unhex(SIGNATURE_OF_EMPTY));
    assert_eq!(pair.sign(b"alice doc1").len(), 64);
    assert_ne!(pair.sign(b"alice doc1"), pair.sign(b""));
}

#[test]
fn verify_accepts_known_signature() {
    assert!(verify(&unhex(PUBLIC), b"", &unhex(SIGNATURE_OF_EMPTY)));
}

#[test]
fn verify_rejects_other_message_key_or_signature() {
    let public = unhex(PUBLIC);
    let signature = unhex(SIGNATURE_OF_EMPTY);
    assert!(!verify(&public, b"x", &signature));
    assert!(!verify(&public, b"", &signature[..63]));
    assert!(!verify(&public, b"", b""));
    assert!(!verify(&public[..31], b"", &signature));
    let mut other = signature.clone();
    other[0] ^= 1;
    assert!(!verify(&public, b"", &other));
    let stranger = KeyPair::generate().unwrap();
    assert!(!verify(stranger.public_key_bytes(), b"", &signature));
}

#[test]
fn sign_then_verify_round_trip() {
    let pair = KeyPair::generate().unwrap();
    for (user, contents) in [("alice", "doc1"), ("", ""), ("bob", "Qm a b c"), ("zo\u{e9}", "x")] {
        let bytes = canonicalize(user, contents);
        let signature = pair.sign(&bytes);
        assert!(verify(pair.public_key_bytes(), &bytes, &signature));
    }
}

#[test]
fn generated_pairs_differ() {
    let one = KeyPair::generate().unwrap();
    let two = KeyPair::generate().unwrap();
    assert_eq!(one.public_key_bytes().len(), 32);
    assert_ne!(one.public_key_bytes(), two.public_key_bytes());
    let again = KeyPair::from_pkcs8(one.pkcs8_bytes()).unwrap();
    assert_eq!(again.public_key_bytes(), one.public_key_bytes());
}

#[test]
fn pair_of_a_generated_document() {
    let doc = document();
    let pair = KeyPair::from_generated(Some(doc.clone())).expect("the document is well formed");
    assert_eq!(pair.pkcs8_bytes(), doc.as_slice());
    assert_eq!(pair.public_key_bytes(), unhex(PUBLIC).as_slice());
    assert!(KeyPair::from_generated(None).is_none());
    assert!(KeyPair::from_generated(Some(Vec::new())).is_none());
    assert!(KeyPair::from_generated(Some(b"no document".to_vec())).is_none());
}

#[test]
fn generated_pair_holds_the_key_of_its_document() {
    let pair = KeyPair::generate().unwrap();
    let again = KeyPair::from_generated(Some(pair.pkcs8_bytes().to_vec())).unwrap();
    assert_eq!(again.public_key_bytes(), pair.public_key_bytes());
    assert_eq!(pair.public_key_bytes().len(), 32);
    let signature = pair.sign(b"alice doc1");
    assert!(verify(pair.public_key_bytes(), b"alice doc1", &signature));
}

#[test]
fn base64_text_has_four_characters_for_three_bytes() {
    for n in 0usize..70 {
        let bytes = vec![7u8; n];
        assert_eq!(encode(&bytes).chars().count(), (n + 2) / 3 * 4);
    }
    assert_eq!(encode(&[0u8; 64]).len(), 88);
    assert_eq!(encode(&[0u8; 32]).len(), 44);
}

#[test]
fn verify_accepts_only_full_lengths() {
    let pair = KeyPair::generate().unwrap();
    let signature = pair.sign(b"m");
    assert!(verify(pair.public_key_bytes(), b"m", &signature));
    let mut longer = signature.clone();
    longer.push(0);
    assert!(!verify(pair.public_key_bytes(), b"m", &longer));
    let mut long_key = pair.public_key_bytes().to_vec();
    long_key.push(0);
    assert!(!verify(&long_key, b"m", &signature));
}

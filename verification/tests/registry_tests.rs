use name_registry::codec::KeyPair;
use name_registry::message::{UpdateMessage, ValidationError};
use name_registry::registry::ServerData;

#[test]
fn empty_registry_knows_nothing() {
    let server = ServerData::default();
    assert_eq!(server.get_name("home"), None);
    assert_eq!(server.get_id_key("alice"), None);
}

#[test]
fn registering_a_user_is_idempotent_and_overwrites() {
    let mut server = ServerData::default();
    server.add_id("alice", b"key one");
    assert_eq!(server.get_id_key("alice"), Some(&b"key one"[..]));
    server.add_id("alice", b"key one");
    assert_eq!(server.get_id_key("alice"), Some(&b"key one"[..]));
    server.add_id("alice", b"key two");
    assert_eq!(server.get_id_key("alice"), Some(&b"key two"[..]));
    assert_eq!(server.get_id_key("bob"), None);
}

#[test]
fn add_user_registers_the_public_key_it_hands_back() {
    let mut server = ServerData::default();
    let pair = server.add_user("icefox").unwrap();
    assert_eq!(server.get_id_key("icefox"), Some(pair.public_key_bytes()));
    let msg = UpdateMessage::signed_message(&pair, "icefox", "doc");
    assert_eq!(server.apply_update_if_valid("home", &msg), Ok(()));
}

#[test]
fn add_keypair_registers_the_public_key() {
    let mut server = ServerData::default();
    let pair = KeyPair::generate().unwrap();
    server.add_keypair("alice", &pair);
    assert_eq!(server.get_id_key("alice"), Some(pair.public_key_bytes()));
}

#[test]
fn unknown_user_is_rejected_whatever_the_signature() {
    let mut server = ServerData::default();
    let pair = KeyPair::generate().unwrap();
    server.add_keypair("alice", &pair);
    let valid = UpdateMessage::signed_message(&pair, "mallory", "doc1");
    let expected = Err(ValidationError::UnknownUser("mallory".to_string()));
    assert_eq!(server.validate_update(&valid), expected);
    assert_eq!(server.apply_update_if_valid("home", &valid), expected);
    let malformed = UpdateMessage { signature: "***".to_string(), ..valid.clone() };
    assert_eq!(server.apply_update_if_valid("home", &malformed), expected);
    let empty = UpdateMessage { signature: String::new(), ..valid };
    assert_eq!(server.apply_update_if_valid("home", &empty), expected);
    assert_eq!(server.get_name("home"), None);
}

#[test]
fn each_error_has_its_input() {
    let mut server = ServerData::default();
    let alice = KeyPair::generate().unwrap();
    let bob = KeyPair::generate().unwrap();
    server.add_keypair("alice", &alice);
    server.add_keypair("bob", &bob);
    let msg = UpdateMessage::signed_message(&alice, "alice", "doc1");
    let as_bob = UpdateMessage { user: "bob".to_string(), ..msg.clone() };
    let broken = UpdateMessage { signature: "%".to_string(), ..msg.clone() };
    let nobody = UpdateMessage { user: "carol".to_string(), ..msg.clone() };
    assert_eq!(server.apply_update_if_valid("n", &as_bob), Err(ValidationError::InvalidSignature));
    assert_eq!(server.apply_update_if_valid("n", &broken), Err(ValidationError::MalformedSignature));
    assert_eq!(
        server.apply_update_if_valid("n", &nobody),
        Err(ValidationError::UnknownUser("carol".to_string()))
    );
    assert_eq!(server.get_name("n"), None);
    assert_eq!(server.apply_update_if_valid("n", &msg), Ok(()));
    assert_eq!(server.get_name("n"), Some(&msg));
}

#[test]
fn last_write_wins() {
    let mut server = ServerData::default();
    let pair = KeyPair::generate().unwrap();
    server.add_keypair("alice", &pair);
    let first = UpdateMessage::signed_message(&pair, "alice", "doc1");
    let second = UpdateMessage::signed_message(&pair, "alice", "doc2");
    assert_eq!(server.apply_update_if_valid("home", &first), Ok(()));
    assert_eq!(server.get_name("home"), Some(&first));
    assert_eq!(server.apply_update_if_valid("home", &second), Ok(()));
    assert_eq!(server.get_name("home"), Some(&second));
    assert_eq!(server.apply_update_if_valid("home", &first), Ok(()));
    assert_eq!(server.get_name("home"), Some(&first));
    assert_eq!(server.get_name("work"), None);
}

#[test]
fn apply_verdict_commits_only_on_ok() {
    let mut server = ServerData::default();
    let pair = KeyPair::generate().unwrap();
    server.add_keypair("alice", &pair);
    let msg = UpdateMessage::signed_message(&pair, "alice", "doc1");
    let rejected = Err(ValidationError::InvalidSignature);
    assert_eq!(server.apply_verdict("home", &msg, rejected.clone()), rejected);
    assert_eq!(server.get_name("home"), None);
    assert_eq!(server.apply_verdict("home", &msg, Ok(())), Ok(()));
    assert_eq!(server.get_name("home"), Some(&msg));
}

#[test]
fn submissions_in_any_order_leave_one_whole_message() {
    let names = ["u0", "u1", "u2", "u3"];
    let pairs: Vec<KeyPair> = names.iter().map(|_| KeyPair::generate().unwrap()).collect();
    let msgs: Vec<UpdateMessage> = names
        .iter()
        .zip(pairs.iter())
        .map(|(user, pair)| UpdateMessage::signed_message(pair, user, &format!("doc of {}", user)))
        .collect();
    for start in 0..names.len() {
        let mut server = ServerData::default();
        for (user, pair) in names.iter().zip(pairs.iter()) {
            server.add_keypair(user, pair);
        }
        let mut last = start;
        for step in 0..names.len() {
            last = (start + step * 3) % names.len();
            assert_eq!(server.apply_update_if_valid("shared", &msgs[last]), Ok(()));
        }
        let entry = server.get_name("shared").unwrap();
        assert_eq!(entry, &msgs[last]);
        assert!(msgs.iter().any(|m| m == entry));
    }
}

#[test]
fn end_to_end_scenario() {
    let mut server = ServerData::default();
    let pair = KeyPair::generate().unwrap();
    server.add_id("alice", pair.public_key_bytes());
    let msg = UpdateMessage::signed_message(&pair, "alice", "doc1");
    assert_eq!(server.apply_update_if_valid("home", &msg), Ok(()));
    assert_eq!(server.get_name("home"), Some(&msg));
    assert_eq!(server.apply_update_if_valid("home", &msg), Ok(()));
    assert_eq!(server.get_name("home"), Some(&msg));
    let unsigned = UpdateMessage { signature: String::new(), ..msg.clone() };
    let outcome = server.apply_update_if_valid("home", &unsigned);
    assert_eq!(outcome, Err(ValidationError::MalformedSignature));
    assert_eq!(server.get_id_key("alice"), Some(pair.public_key_bytes()));
    assert_eq!(server.get_name("home"), Some(&msg));
}

#[test]
fn add_generated_registers_what_was_generated() {
    let mut server = ServerData::default();
    assert!(server.add_generated("alice", None).is_none());
    assert_eq!(server.get_id_key("alice"), None);
    let pair = KeyPair::generate().unwrap();
    let public = pair.public_key_bytes().to_vec();
    let document = pair.pkcs8_bytes().to_vec();
    let back = server.add_generated("alice", Some(pair)).unwrap();
    assert_eq!(back.public_key_bytes(), public.as_slice());
    assert_eq!(back.pkcs8_bytes(), document.as_slice());
    assert_eq!(server.get_id_key("alice"), Some(public.as_slice()));
    assert_eq!(server.get_id_key("bob"), None);
    assert!(server.add_generated("alice", None).is_none());
    assert_eq!(server.get_id_key("alice"), Some(public.as_slice()));
}

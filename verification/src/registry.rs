//! The registry: the users' public keys, and for each name the latest update
//! that was accepted for it.

use crate::codec::{encodable, KeyPair};
use crate::message::{UpdateMessage, ValidationError};
use vstd::hash_map::StringHashMap;
use vstd::prelude::*;
use vstd::slice::slice_to_vec;
use vstd::string::*;

verus! {

/// What a registry holds: each user's public key, and each name's latest update.
pub struct RegistryState {
    pub keys: Map<Seq<char>, Seq<u8>>,
    pub names: Map<Seq<char>, UpdateMessage>,
}

/// The outcome of validating a message against a key table: `UnknownUser`
/// where the message's user has no key, else the outcome of checking the
/// message against that user's key.
pub open spec fn validation(keys: Map<Seq<char>, Seq<u8>>, msg: UpdateMessage) -> Result<
    (),
    ValidationError,
> {
    if keys.contains_key(msg.user@) {
        msg.outcome(keys[msg.user@])
    } else {
        Err(ValidationError::UnknownUser(msg.user))
    }
}

impl RegistryState {
    /// The state with the key of `user` set to `key`.
    pub open spec fn registered(self, user: Seq<char>, key: Seq<u8>) -> RegistryState {
        RegistryState { keys: self.keys.insert(user, key), names: self.names }
    }

    /// The state after the validation of `msg` for `name` ended as `verdict`
    /// says: on `Ok` the message replaces the name's entry, on an error
    /// nothing changes.
    pub open spec fn committed(
        self,
        name: Seq<char>,
        msg: UpdateMessage,
        verdict: Result<(), ValidationError>,
    ) -> RegistryState {
        if verdict is Ok {
            RegistryState { keys: self.keys, names: self.names.insert(name, msg) }
        } else {
            self
        }
    }

    /// The state after `msg` is submitted for `name`.
    pub open spec fn submitted(self, name: Seq<char>, msg: UpdateMessage) -> RegistryState {
        self.committed(name, msg, validation(self.keys, msg))
    }

    /// The state after the messages are submitted for `name`, one after the
    /// other.
    pub open spec fn submitted_all(self, name: Seq<char>, msgs: Seq<UpdateMessage>) -> RegistryState
        decreases msgs.len(),
    {
        if msgs.len() == 0 {
            self
        } else {
            self.submitted_all(name, msgs.drop_last()).submitted(name, msgs.last())
        }
    }

    /// Every key is short enough to be encoded, and every name's entry is a
    /// message of a user who has a key.
    pub open spec fn sound(self) -> bool {
        &&& forall|user: Seq<char>| #[trigger]
            self.keys.contains_key(user) ==> encodable(self.keys[user])
        &&& forall|name: Seq<char>| #[trigger]
            self.names.contains_key(name) ==> self.keys.contains_key(self.names[name].user@)
    }
}

/// Whether `msgs[i]` is the last message of `msgs` that is valid against `keys`.
pub open spec fn last_valid(keys: Map<Seq<char>, Seq<u8>>, msgs: Seq<UpdateMessage>, i: int) -> bool {
    &&& 0 <= i < msgs.len()
    &&& validation(keys, msgs[i]) is Ok
    &&& forall|j: int| i < j < msgs.len() ==> !(#[trigger] validation(keys, msgs[j]) is Ok)
}

/// Last write wins: after two valid updates of one name, one after the
/// other, the name's entry is the second message, and the registry is as if
/// the first had never been submitted.
pub proof fn last_write_wins(
    state: RegistryState,
    name: Seq<char>,
    first: UpdateMessage,
    second: UpdateMessage,
)
    requires
        validation(state.keys, first) is Ok,
        validation(state.keys, second) is Ok,
    ensures
        state.submitted(name, first).submitted(name, second).names.contains_key(name),
        state.submitted(name, first).submitted(name, second).names[name] == second,
        state.submitted(name, first).submitted(name, second) == state.submitted(name, second),
{
    let twice = state.submitted(name, first).submitted(name, second);
    let once = state.submitted(name, second);
    assert(twice.names =~= once.names);
}

/// Submitting a message a second time changes nothing: an accepted message
/// is accepted again and stays the entry, a rejected one is rejected again.
pub proof fn resubmission_changes_nothing(state: RegistryState, name: Seq<char>, msg: UpdateMessage)
    ensures
        validation(state.submitted(name, msg).keys, msg) == validation(state.keys, msg),
        state.submitted(name, msg).submitted(name, msg) == state.submitted(name, msg),
{
    let once = state.submitted(name, msg);
    assert(once.submitted(name, msg).names =~= once.names);
}

/// A rejected submission leaves the registry as it was, and a message of a
/// user without a key is rejected as `UnknownUser`, whatever its signature.
pub proof fn rejection_changes_nothing(state: RegistryState, name: Seq<char>, msg: UpdateMessage)
    ensures
        validation(state.keys, msg) is Err ==> state.submitted(name, msg) == state,
        !state.keys.contains_key(msg.user@) ==> validation(state.keys, msg) == Err::<
            (),
            ValidationError,
        >(ValidationError::UnknownUser(msg.user)),
{
}

/// Registering a key and submitting a message keep a sound state sound: no
/// name ever holds a message of a user without a key.
pub proof fn soundness_is_kept(
    state: RegistryState,
    user: Seq<char>,
    key: Seq<u8>,
    name: Seq<char>,
    msg: UpdateMessage,
)
    requires
        state.sound(),
    ensures
        encodable(key) ==> state.registered(user, key).sound(),
        state.submitted(name, msg).sound(),
{
}

/// However many messages are submitted for one name, in whatever order they
/// arrive: the keys stay as they were, so each message is accepted or
/// rejected as it would be alone; the other names stay as they were; and the
/// name's entry is one whole message, the last valid one in the order of
/// arrival, or what it was before where none is valid.
pub proof fn submissions_leave_one_message(
    state: RegistryState,
    name: Seq<char>,
    msgs: Seq<UpdateMessage>,
)
    ensures
        state.submitted_all(name, msgs).keys == state.keys,
        state.submitted_all(name, msgs).names.remove(name) == state.names.remove(name),
        forall|i: int| #[trigger]
            last_valid(state.keys, msgs, i) ==> state.submitted_all(name, msgs).names.contains_key(
                name,
            ) && state.submitted_all(name, msgs).names[name] == msgs[i],
        (forall|i: int| 0 <= i < msgs.len() ==> !(#[trigger] validation(state.keys, msgs[i])
            is Ok)) ==> state.submitted_all(name, msgs) == state,
    decreases msgs.len(),
{
    if msgs.len() > 0 {
        let front = msgs.drop_last();
        let before = state.submitted_all(name, front);
        let end = state.submitted_all(name, msgs);
        submissions_leave_one_message(state, name, front);
        assert(end == before.submitted(name, msgs.last()));
        assert(end.names.remove(name) =~= state.names.remove(name));
        assert forall|i: int| #[trigger] last_valid(state.keys, msgs, i) implies end.names.contains_key(
            name,
        ) && end.names[name] == msgs[i] by {
            if i < msgs.len() - 1 {
                assert(!(validation(state.keys, msgs[msgs.len() - 1]) is Ok));
                assert(front[i] == msgs[i]);
                assert forall|j: int| i < j < front.len() implies !(#[trigger] validation(
                    state.keys,
                    front[j],
                ) is Ok) by {
                    assert(front[j] == msgs[j]);
                }
                assert(last_valid(state.keys, front, i));
            }
        }
        if forall|i: int| 0 <= i < msgs.len() ==> !(#[trigger] validation(state.keys, msgs[i]) is Ok) {
            assert forall|i: int| 0 <= i < front.len() implies !(#[trigger] validation(
                state.keys,
                front[i],
            ) is Ok) by {
                assert(front[i] == msgs[i]);
            }
            assert(!(validation(state.keys, msgs[msgs.len() - 1]) is Ok));
        }
    }
}


/// The registry of a server.
pub struct ServerData {
    names: StringHashMap<UpdateMessage>,
    keys: StringHashMap<Vec<u8>>,
}

impl View for ServerData {
    type V = RegistryState;

    closed spec fn view(&self) -> RegistryState {
        RegistryState { keys: self.keys@.map_values(|key: Vec<u8>| key@), names: self.names@ }
    }
}

impl Default for ServerData {
    /// The registry without users and names.
    fn default() -> (s: ServerData)
        ensures
            s@.keys == Map::<Seq<char>, Seq<u8>>::empty(),
            s@.names == Map::<Seq<char>, UpdateMessage>::empty(),
            s.wf(),
    {
        let s = ServerData { names: StringHashMap::new(), keys: StringHashMap::new() };
        assert(s@.keys =~= Map::<Seq<char>, Seq<u8>>::empty());
        s
    }
}

impl ServerData {
    /// The registry's invariant: its state is sound.
    pub open spec fn wf(&self) -> bool {
        self@.sound()
    }

    /// The latest update that was accepted for `name`, if there is one.
    pub fn get_name(&self, name: &str) -> (entry: Option<&UpdateMessage>)
        ensures
            entry is Some <==> self@.names.contains_key(name@),
            entry is Some ==> *entry->Some_0 == self@.names[name@],
    {
        self.names.get(name)
    }

    /// The public key of the user `id`, if the user is registered.
    pub fn get_id_key(&self, id: &str) -> (key: Option<&[u8]>)
        ensures
            key is Some <==> self@.keys.contains_key(id@),
            key is Some ==> key->Some_0@ == self@.keys[id@],
    {
        match self.keys.get(id) {
            Some(key) => Some(key.as_slice()),
            None => None,
        }
    }

    /// Registers the user `id` with the public key `key`, in place of any key
    /// the user had. The names stay as they are.
    pub fn add_id(&mut self, id: &str, key: &[u8])
        requires
            old(self).wf(),
            encodable(key@),
        ensures
            final(self)@ == old(self)@.registered(id@, key@),
            final(self).wf(),
    {
        self.keys.insert(String::from_str(id), slice_to_vec(key));
        assert(self@.keys =~= old(self)@.keys.insert(id@, key@));
    }

    /// Validates a message against the key table: `UnknownUser` with the
    /// user's name where the user has no key, whatever the signature is; else
    /// the outcome of checking the signature against the user's key.
    pub fn validate_update(&self, msg: &UpdateMessage) -> (r: Result<(), ValidationError>)
        ensures
            r == validation(self@.keys, *msg),
            !self@.keys.contains_key(msg.user@) ==> r == Err::<(), ValidationError>(
                ValidationError::UnknownUser(msg.user),
            ),
    {
        match self.keys.get(msg.user.as_str()) {
            Some(key) => msg.verify_signature(key.as_slice()),
            None => Err(ValidationError::UnknownUser(msg.user.clone())),
        }
    }

    /// Replaces the entry of `name` with a copy of `contents`.
    fn update_name(&mut self, name: &str, contents: &UpdateMessage)
        requires
            old(self).wf(),
            old(self)@.keys.contains_key(contents.user@),
        ensures
            final(self)@.keys == old(self)@.keys,
            final(self)@.names == old(self)@.names.insert(name@, *contents),
            final(self).wf(),
    {
        self.names.insert(String::from_str(name), contents.duplicate());
    }

    /// Commits a message whose validation gave `verdict`: where the verdict
    /// is `Ok`, the message replaces the entry of `dest`; where it is an
    /// error, the registry stays as it is. The verdict is handed back. The
    /// verdict is taken on trust: `apply_update_if_valid` is the operation
    /// that validates before it commits.
    pub fn apply_verdict(
        &mut self,
        dest: &str,
        msg: &UpdateMessage,
        verdict: Result<(), ValidationError>,
    ) -> (r: Result<(), ValidationError>)
        requires
            old(self).wf(),
            verdict is Ok ==> old(self)@.keys.contains_key(msg.user@),
        ensures
            r == verdict,
            final(self)@ == old(self)@.committed(dest@, *msg, verdict),
            final(self).wf(),
    {
        if verdict.is_ok() {
            self.update_name(dest, msg);
        }
        verdict
    }

    /// Validates `msg` and, where it is valid, makes it the entry of `dest`.
    /// The result is that of the validation against the key table as it was;
    /// on an error nothing changes, and a message of a user without a key is
    /// always rejected as `UnknownUser`.
    pub fn apply_update_if_valid(&mut self, dest: &str, msg: &UpdateMessage) -> (r: Result<
        (),
        ValidationError,
    >)
        requires
            old(self).wf(),
        ensures
            r == validation(old(self)@.keys, *msg),
            !old(self)@.keys.contains_key(msg.user@) ==> r == Err::<(), ValidationError>(
                ValidationError::UnknownUser(msg.user),
            ),
            final(self)@ == old(self)@.submitted(dest@, *msg),
            r is Err ==> final(self)@ == old(self)@,
            final(self).wf(),
    {
        let verdict = self.validate_update(msg);
        self.apply_verdict(dest, msg, verdict)
    }

    /// Registers `username` with the public key of `keypair`.
    pub fn add_keypair(&mut self, username: &str, keypair: &KeyPair)
        requires
            old(self).wf(),
        ensures
            final(self)@ == old(self)@.registered(username@, keypair.public_key()),
            final(self).wf(),
    {
        let public = keypair.public_key_bytes();
        self.add_id(username, public);
    }

    /// Generates a key pair for `username` and registers its public key. The
    /// pair is handed back for the user; `None`, with the registry unchanged,
    /// where no pair could be generated.
    pub fn add_user(&mut self, username: &str) -> (pair: Option<KeyPair>)
        requires
            old(self).wf(),
        ensures
            match pair {
                Some(keypair) => final(self)@ == old(self)@.registered(
                    username@,
                    keypair.public_key(),
                ),
                None => final(self)@ == old(self)@,
            },
            final(self).wf(),
    {
        let generated = KeyPair::generate();
        self.add_generated(username, generated)
    }

    /// Registers `username` with the public key of the pair that was
    /// generated for the user, and hands the pair back. Where none was
    /// generated, the registry stays as it is and `None` is handed back.
    pub fn add_generated(&mut self, username: &str, generated: Option<KeyPair>) -> (pair: Option<
        KeyPair,
    >)
        requires
            old(self).wf(),
        ensures
            pair == generated,
            match generated {
                Some(keypair) => final(self)@ == old(self)@.registered(
                    username@,
                    keypair.public_key(),
                ),
                None => final(self)@ == old(self)@,
            },
            final(self).wf(),
    {
        match generated {
            Some(keypair) => {
                self.add_keypair(username, &keypair);
                Some(keypair)
            },
            None => None,
        }
    }
}

} // verus!

//! The client's side: the commands of its shell, its connection to a server,
//! and the update messages it composes.

use crate::codec::{
    base64_bytes, base64_text, canonical_bytes, decode, ed25519_public_key, ed25519_signature,
    KeyPair,
};
use crate::message::{UpdateMessage, ValidationError};
use vstd::prelude::*;
use vstd::string::*;

verus! {

/// Whether a character is white space: the Unicode property `White_Space`.
pub open spec fn blank(c: char) -> bool {
    let n = c as u32;
    ||| 0x09 <= n <= 0x0d
    ||| n == 0x20
    ||| n == 0x85
    ||| n == 0xa0
    ||| n == 0x1680
    ||| 0x2000 <= n <= 0x200a
    ||| n == 0x2028
    ||| n == 0x2029
    ||| n == 0x202f
    ||| n == 0x205f
    ||| n == 0x3000
}

/// Whether `c` is white space.
pub fn is_blank(c: char) -> (b: bool)
    ensures
        b == blank(c),
{
    let n: u32 = c as u32;
    (0x09 <= n && n <= 0x0d) || n == 0x20 || n == 0x85 || n == 0xa0 || n == 0x1680 || (0x2000 <= n
        && n <= 0x200a) || n == 0x2028 || n == 0x2029 || n == 0x202f || n == 0x205f || n == 0x3000
}

/// The words of a text: its maximal runs of characters that are not white
/// space, in order. Read character by character: white space adds nothing, a
/// character after another of a word lengthens the last word, and any other
/// begins a new one.
pub open spec fn words(s: Seq<char>) -> Seq<Seq<char>>
    decreases s.len(),
{
    if s.len() == 0 {
        seq![]
    } else {
        let front = s.drop_last();
        let before = words(front);
        if blank(s.last()) {
            before
        } else if front.len() > 0 && !blank(front.last()) && before.len() > 0 {
            before.drop_last().push(before.last().push(s.last()))
        } else {
            before.push(seq![s.last()])
        }
    }
}

/// Whether a sequence of characters is not empty and holds no white space.
pub open spec fn solid(word: Seq<char>) -> bool {
    word.len() > 0 && forall|j: int| 0 <= j < word.len() ==> !blank(#[trigger] word[j])
}

/// Every word of a text is non-empty and holds no white space, and a text
/// that ends in a character of a word has at least one word.
pub proof fn words_are_solid(s: Seq<char>)
    ensures
        forall|k: int| 0 <= k < words(s).len() ==> solid(#[trigger] words(s)[k]),
        s.len() > 0 && !blank(s.last()) ==> words(s).len() > 0,
    decreases s.len(),
{
    if s.len() > 0 {
        let front = s.drop_last();
        let before = words(front);
        let c = s.last();
        words_are_solid(front);
        if blank(c) {
        } else if front.len() > 0 && !blank(front.last()) && before.len() > 0 {
            let longer = before.last().push(c);
            assert(solid(before.last()));
            assert forall|j: int| 0 <= j < longer.len() implies !blank(#[trigger] longer[j]) by {
                if j < longer.len() - 1 {
                    assert(longer[j] == before.last()[j]);
                }
            }
            assert forall|k: int| 0 <= k < words(s).len() implies solid(#[trigger] words(s)[k]) by {
                if k < before.len() - 1 {
                    assert(words(s)[k] == before[k]);
                } else {
                    assert(words(s)[k] == longer);
                }
            }
        } else {
            assert(solid(seq![c]));
            assert forall|k: int| 0 <= k < words(s).len() implies solid(#[trigger] words(s)[k]) by {
                if k < before.len() {
                    assert(words(s)[k] == before[k]);
                } else {
                    assert(words(s)[k] == seq![c]);
                }
            }
        }
    }
}

/// The texts of a sequence of strings.
pub open spec fn texts(strings: Seq<String>) -> Seq<Seq<char>> {
    Seq::new(strings.len(), |k: int| strings[k]@)
}

/// Splits a line into its words.
pub fn split_words(line: &str) -> (out: Vec<String>)
    ensures
        texts(out@) == words(line@),
{
    let n = line.unicode_len();
    let mut out: Vec<String> = Vec::new();
    let mut i: usize = 0;
    let mut start: usize = 0;
    let mut in_word = false;
    assert(texts(out@) =~= words(line@.take(0)));
    while i < n
        invariant
            n == line@.len(),
            i <= n,
            start <= i,
            in_word ==> start < i && !blank(line@[i - 1]) && words(line@.take(i as int)) == texts(
                out@,
            ).push(line@.subrange(start as int, i as int)),
            !in_word ==> (i == 0 || blank(line@[i - 1])) && words(line@.take(i as int)) == texts(
                out@,
            ),
        decreases n - i,
    {
        let c = line.get_char(i);
        let ghost before = texts(out@);
        proof {
            assert(line@.take(i + 1).drop_last() =~= line@.take(i as int));
            assert(line@.take(i + 1).last() == c);
            if i > 0 {
                assert(line@.take(i as int).last() == line@[i - 1]);
            }
        }
        if is_blank(c) {
            if in_word {
                out.push(String::from_str(line.substring_char(start, i)));
                in_word = false;
                assert(texts(out@) =~= before.push(line@.subrange(start as int, i as int)));
            }
        } else {
            if !in_word {
                start = i;
                in_word = true;
                assert(line@.subrange(i as int, i + 1) =~= seq![c]);
            } else {
                let ghost w = before.push(line@.subrange(start as int, i as int));
                assert(w.drop_last() =~= before);
                assert(w.last().push(c) =~= line@.subrange(start as int, i + 1));
            }
        }
        i += 1;
    }
    assert(line@.take(n as int) =~= line@);
    if in_word {
        let ghost before = texts(out@);
        out.push(String::from_str(line.substring_char(start, n)));
        assert(texts(out@) =~= before.push(line@.subrange(start as int, n as int)));
    }
    out
}

/// What a line of the shell asks for.
#[derive(Debug, Clone, PartialEq, Eq)]
pub enum Command {
    /// The line holds no word.
    Nothing,
    /// Show the help text.
    Help,
    /// Connect to a server, as a user, with a private key as base64 text.
    Server(String, String, String),
    /// `server` with fewer than three arguments: show its syntax and drop
    /// the connection.
    ServerSyntax,
    /// Fetch the latest document.
    Get,
    /// Post a new document.
    Post,
    /// A first word that is no command.
    Unknown(String),
}

/// What a sequence of words asks for. It goes by the first word; `server`
/// takes the three words after it and ignores the rest.
pub fn command_of(tokens: &Vec<String>) -> (c: Command)
    ensures
        match c {
            Command::Nothing => tokens@.len() == 0,
            Command::Help => tokens@.len() > 0 && tokens@[0]@ == "help"@,
            Command::Server(server, user, key) => tokens@.len() >= 4 && tokens@[0]@ == "server"@
                && tokens@[0]@ != "help"@ && server@ == tokens@[1]@ && user@ == tokens@[2]@ && key@
                == tokens@[3]@,
            Command::ServerSyntax => 0 < tokens@.len() < 4 && tokens@[0]@ == "server"@
                && tokens@[0]@ != "help"@,
            Command::Get => tokens@.len() > 0 && tokens@[0]@ == "get"@ && tokens@[0]@ != "help"@
                && tokens@[0]@ != "server"@,
            Command::Post => tokens@.len() > 0 && tokens@[0]@ == "post"@ && tokens@[0]@ != "help"@
                && tokens@[0]@ != "server"@ && tokens@[0]@ != "get"@,
            Command::Unknown(other) => tokens@.len() > 0 && other@ == tokens@[0]@ && other@
                != "help"@ && other@ != "server"@ && other@ != "get"@ && other@ != "post"@,
        },
{
    if tokens.len() == 0 {
        return Command::Nothing;
    }
    let first = &tokens[0];
    if *first == String::from_str("help") {
        Command::Help
    } else if *first == String::from_str("server") {
        if tokens.len() >= 4 {
            Command::Server(tokens[1].clone(), tokens[2].clone(), tokens[3].clone())
        } else {
            Command::ServerSyntax
        }
    } else if *first == String::from_str("get") {
        Command::Get
    } else if *first == String::from_str("post") {
        Command::Post
    } else {
        Command::Unknown(first.clone())
    }
}

/// What a line of the shell asks for: the command of its words.
pub fn parse_command(line: &str) -> (c: Command)
    ensures
        match c {
            Command::Nothing => words(line@).len() == 0,
            Command::Help => words(line@).len() > 0 && words(line@)[0] == "help"@,
            Command::Server(server, user, key) => words(line@).len() >= 4 && words(line@)[0]
                == "server"@ && words(line@)[0] != "help"@ && server@ == words(line@)[1] && user@
                == words(line@)[2] && key@ == words(line@)[3],
            Command::ServerSyntax => 0 < words(line@).len() < 4 && words(line@)[0] == "server"@
                && words(line@)[0] != "help"@,
            Command::Get => words(line@).len() > 0 && words(line@)[0] == "get"@ && words(line@)[0]
                != "help"@ && words(line@)[0] != "server"@,
            Command::Post => words(line@).len() > 0 && words(line@)[0] == "post"@ && words(
                line@,
            )[0] != "help"@ && words(line@)[0] != "server"@ && words(line@)[0] != "get"@,
            Command::Unknown(other) => words(line@).len() > 0 && other@ == words(line@)[0]
                && other@ != "help"@ && other@ != "server"@ && other@ != "get"@ && other@
                != "post"@,
        },
{
    let tokens = split_words(line);
    assert(forall|k: int| 0 <= k < tokens@.len() ==> tokens@[k]@ == #[trigger] texts(tokens@)[k]);
    command_of(&tokens)
}

/// A client's connection: the server it talks to, the user it acts for, and
/// the user's key pair.
pub struct Connection {
    pub target_server: String,
    pub username: String,
    pub key: KeyPair,
}

/// Connects to `servername` as `username`, with the user's PKCS#8 document
/// as base64 text. `None` where the text is not base64 or the document is
/// rejected.
pub fn do_server(servername: &str, username: &str, keystring: &str) -> (c: Option<Connection>)
    ensures
        c is Some <==> base64_bytes(keystring@) is Some && ed25519_public_key(
            base64_bytes(keystring@)->Some_0,
        ) is Some,
        c is Some ==> c->Some_0.target_server@ == servername@ && c->Some_0.username@ == username@
            && c->Some_0.key.document() == base64_bytes(keystring@)->Some_0,
{
    match decode(keystring) {
        None => None,
        Some(pkcs8_bytes) => match KeyPair::from_pkcs8(pkcs8_bytes.as_slice()) {
            None => None,
            Some(key) => Some(
                Connection {
                    target_server: String::from_str(servername),
                    username: String::from_str(username),
                    key,
                },
            ),
        },
    }
}

/// The shell's prompt: the server of the connection, or "(not connected)",
/// and then " > ".
pub fn prompt(client: &Option<Connection>) -> (text: String)
    ensures
        text@ == match *client {
            Some(state) => state.target_server@,
            None => "(not connected)"@,
        } + " > "@,
{
    match client {
        Some(state) => state.target_server.clone().concat(" > "),
        None => String::from_str("(not connected)").concat(" > "),
    }
}

/// The address from which a document of the content store is read.
pub fn document_url(name: &str) -> (url: String)
    ensures
        url@ == "http://localhost:5001/api/v0/cat?arg="@ + name@,
{
    String::from_str("http://localhost:5001/api/v0/cat?arg=").concat(name)
}

impl Connection {
    /// The address of the conversation's name on the server.
    pub fn conversation_url(&self) -> (url: String)
        ensures
            url@ == "http://"@ + self.target_server@ + "/name/conversation"@,
    {
        String::from_str("http://").concat(self.target_server.as_str()).concat(
            "/name/conversation",
        )
    }

    /// Composes the user's update to `content_ref`, signed with the
    /// connection's key and stamped with the clock. The message is valid
    /// against the key's public half.
    pub fn compose(&self, content_ref: &str) -> (m: UpdateMessage)
        ensures
            m.user@ == self.username@,
            m.new_contents@ == content_ref@,
            m.signature@ == base64_text(
                ed25519_signature(
                    self.key.document(),
                    canonical_bytes(self.username@, content_ref@),
                ),
            ),
            m.outcome(self.key.public_key()) == Ok::<(), ValidationError>(()),
    {
        UpdateMessage::signed_message(&self.key, self.username.as_str(), content_ref)
    }
}

} // verus!

//! Client configuration and the session kept between runs, and the result
//! of logging in.

use vstd::prelude::*;

use crate::text::{owned, push_str};

verus! {

/// The address of the server a fresh configuration points at.
pub open spec fn default_server_url() -> Seq<char> {
    "http://127.0.0.1:8443"@
}

/// Client settings. The data directory is kept as the text of its path.
pub struct ClientConfig {
    /// Server base URL (e.g. `http://127.0.0.1:8443`).
    pub server_url: String,
    /// Path of the client's local data directory (databases, keys).
    pub data_dir: String,
    /// Whether TLS certificates that fail validation are accepted.
    pub accept_invalid_certs: bool,
}

impl ClientConfig {
    /// The configuration used when none is given: the local server, the
    /// given data directory, and certificate checks on.
    pub fn with_data_dir(data_dir: String) -> (c: Self)
        ensures
            c.server_url@ == default_server_url(),
            c.data_dir == data_dir,
            !c.accept_invalid_certs,
    {
        ClientConfig {
            server_url: owned("http://127.0.0.1:8443"),
            data_dir,
            accept_invalid_certs: false,
        }
    }
}

/// Session state persisted between client invocations.
pub struct SessionState {
    pub server_url: Option<String>,
    pub token: Option<String>,
    pub user_id: Option<i64>,
    pub username: Option<String>,
}

impl SessionState {
    /// A session with nothing stored: not logged in.
    pub fn empty() -> (s: Self)
        ensures
            s.server_url is None,
            s.token is None,
            s.user_id is None,
            s.username is None,
    {
        SessionState { server_url: None, token: None, user_id: None, username: None }
    }
}

/// Result of a successful registration or login.
pub struct AuthResult {
    pub server_url: String,
    pub token: String,
    pub user_id: i64,
    pub username: String,
    pub key_packages_uploaded: usize,
}

impl AuthResult {
    /// The session to store after logging in: the server, token, user ID and
    /// name of this result.
    pub fn session(&self) -> (s: SessionState)
        ensures
            s.server_url matches Some(u) && u@ == self.server_url@,
            s.token matches Some(t) && t@ == self.token@,
            s.user_id == Some(self.user_id),
            s.username matches Some(n) && n@ == self.username@,
    {
        SessionState {
            server_url: Some(owned(self.server_url.as_str())),
            token: Some(owned(self.token.as_str())),
            user_id: Some(self.user_id),
            username: Some(owned(self.username.as_str())),
        }
    }
}

/// The user name to keep after logging in: the server's canonical spelling
/// when it gives one, otherwise the name that was typed.
pub fn canonical_username(typed: &str, from_server: &str) -> (r: String)
    ensures
        r@ == if from_server@.len() == 0 {
            typed@
        } else {
            from_server@
        },
{
    if from_server.is_empty() {
        owned(typed)
    } else {
        owned(from_server)
    }
}

/// The messages of an error and of each of its causes, joined by `": "`.
pub open spec fn error_chain_spec(messages: Seq<Seq<char>>) -> Seq<char>
    decreases messages.len(),
{
    if messages.len() == 0 {
        Seq::empty()
    } else if messages.len() == 1 {
        messages[0]
    } else {
        error_chain_spec(messages.drop_last()) + ": "@ + messages.last()
    }
}

/// Formats an error with its chain of causes, outermost first, each message
/// separated from the next by `": "`.
pub fn format_error_chain(messages: &[String]) -> (r: String)
    ensures
        r@ == error_chain_spec(crate::command::strings_view(messages@)),
{
    let ghost mv = crate::command::strings_view(messages@);
    let mut out: Vec<char> = Vec::new();
    let mut i: usize = 0;
    while i < messages.len()
        invariant
            i <= messages@.len(),
            mv == crate::command::strings_view(messages@),
            out@ == error_chain_spec(mv.take(i as int)),
        decreases messages@.len() - i,
    {
        proof {
            assert(mv.take(i + 1).drop_last() =~= mv.take(i as int));
        }
        if i > 0 {
            push_str(&mut out, ": ");
        } else {
            assert(mv.take(0) =~= Seq::<Seq<char>>::empty());
        }
        push_str(&mut out, messages[i].as_str());
        proof {
            if i == 0 {
                assert(out@ =~= mv.take(1)[0]);
            }
        }
        i = i + 1;
    }
    proof {
        assert(mv.take(mv.len() as int) =~= mv);
    }
    crate::text::string_from_chars(out.as_slice())
}

} // verus!

use crate::error::FetchError;
use crate::user::{json_name_member, User};
use vstd::prelude::*;
use vstd::string::StringExecFns;

verus! {

#[verifier::external_type_specification]
#[verifier::external_body]
pub struct ExClient(reqwest::Client);

/// Relies on reqwest's `Client::new`: it builds a client with the default
/// configuration. It panics only when no TLS backend or system resolver
/// configuration can be loaded, which no argument can cause.
pub assume_specification[ reqwest::Client::new ]() -> reqwest::Client;

/// The public demo directory that a default repository uses.
pub const DEFAULT_BASE_URL: &'static str = "https://jsonplaceholder.typicode.com";

/// The path of the first user, below the base URL.
pub const USERS_FIRST_PATH: &'static str = "/users/1";

/// A configured endpoint and the HTTP client that every fetch reuses.
pub struct UserRepo {
    base_url: String,
    client: reqwest::Client,
}

impl Default for UserRepo {
    /// A repository on the public demo directory.
    fn default() -> (r: UserRepo)
        ensures
            r.base_url_spec() == DEFAULT_BASE_URL@,
    {
        UserRepo::new(String::from_str(DEFAULT_BASE_URL))
    }
}

impl UserRepo {
    /// The base URL that requests are built on.
    pub closed spec fn base_url_spec(&self) -> Seq<char> {
        self.base_url@
    }

    /// A repository on `base_url`, taken verbatim, with a new HTTP client.
    pub fn new(base_url: String) -> (r: UserRepo)
        ensures
            r.base_url_spec() == base_url@,
    {
        UserRepo { base_url, client: reqwest::Client::new() }
    }

    /// The base URL as it was given.
    pub fn base_url(&self) -> (r: &str)
        ensures
            r@ == self.base_url_spec(),
    {
        self.base_url.as_str()
    }

    /// The HTTP client that every request of this repository goes through.
    pub fn client(&self) -> &reqwest::Client {
        &self.client
    }

    /// The URL of the first user: the base URL as it was given, then
    /// `/users/1`. No separator is added or removed.
    pub fn users_url(&self) -> (r: String)
        ensures
            r@ == self.base_url_spec() + USERS_FIRST_PATH@,
    {
        let mut url = self.base_url.clone();
        url.append(USERS_FIRST_PATH);
        url
    }

    /// Decides what a fetch returns from what the transport delivered: the
    /// full response body, whatever its status, or the transport's failure
    /// message. A failure is passed on as it came; a body is decoded.
    pub fn fetch_outcome(received: Result<Vec<u8>, String>) -> (r: Result<User, FetchError>)
        ensures
            received matches Err(m) ==> (r matches Err(FetchError::Transport(e)) && e@ == m@),
            received matches Ok(body) ==> {
                &&& (r is Ok <==> json_name_member(body@) is Some)
                &&& (r matches Ok(u) ==> json_name_member(body@) == Some(u@))
                &&& (json_name_member(body@) is None ==> r matches Err(
                    FetchError::Deserialization,
                ))
            },
    {
        match received {
            Ok(body) => User::from_json(body.as_slice()),
            Err(message) => Err(FetchError::Transport(message)),
        }
    }
}

} // verus!

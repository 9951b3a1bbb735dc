use vstd::prelude::*;

use super::{Authenticator, Headers};
use crate::string_map::position_of;

verus! {

/// Authenticates with an API key and the name of the host that the key belongs to.
pub struct AppSyncAPIAuthenticator {
    hostname: String,
    api_key: String,
}

impl AppSyncAPIAuthenticator {
    /// The host name that the authenticator was made with.
    pub closed spec fn hostname(&self) -> Seq<char> {
        self.hostname@
    }

    /// The API key that the authenticator was made with.
    pub closed spec fn api_key(&self) -> Seq<char> {
        self.api_key@
    }

    /// An authenticator for `hostname` with `api_key`.
    pub fn new(hostname: &str, api_key: &str) -> (authenticator: Self)
        ensures
            authenticator.hostname() == hostname@,
            authenticator.api_key() == api_key@,
    {
        Self { hostname: hostname.to_owned(), api_key: api_key.to_owned() }
    }
}

impl Authenticator for AppSyncAPIAuthenticator {
    open spec fn publish_headers(&self) -> Seq<(Seq<char>, Seq<char>)> {
        seq![("x-api-key"@, self.api_key())]
    }

    open spec fn subscribe_headers(&self) -> Seq<(Seq<char>, Seq<char>)> {
        seq![("x-api-key"@, self.api_key()), ("host"@, self.hostname())]
    }

    /// An API key needs no exchange: it is always accepted here.
    open spec fn answers(&self, accepted: bool) -> bool {
        accepted
    }

    fn authenticate(&self) -> (accepted: bool) {
        true
    }

    fn publish_auth_headers(&self) -> (headers: Headers) {
        let mut result = Headers::new();
        result.insert("x-api-key".to_owned(), self.api_key.clone());
        result
    }

    fn subscribe_auth_headers(&self) -> (headers: Headers) {
        let mut result = Headers::new();
        result.insert("x-api-key".to_owned(), self.api_key.clone());
        result.insert("host".to_owned(), self.hostname.clone());
        proof {
            reveal_strlit("x-api-key");
            reveal_strlit("host");
            assert("x-api-key"@.len() == 9 && "host"@.len() == 4);
            let first = seq![("x-api-key"@, self.api_key())];
            assert(position_of(first.drop_first(), "host"@) == 0);
        }
        result
    }
}

} // verus!

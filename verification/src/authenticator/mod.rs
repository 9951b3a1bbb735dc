use vstd::prelude::*;

use crate::string_map::StringMap;

pub mod appsync_api_authenticator;

verus! {

/// Named header values, in the place of a hash map from name to value.
pub type Headers = StringMap;

/// The collaborator that knows the credentials.
///
/// The library never looks into the headers that it hands out: it passes them on as they
/// are.
pub trait Authenticator {
    /// The headers that authorise publishing and subscribing to a channel.
    spec fn publish_headers(&self) -> Seq<(Seq<char>, Seq<char>)>;

    /// The headers that authorise opening a connection.
    spec fn subscribe_headers(&self) -> Seq<(Seq<char>, Seq<char>)>;

    /// Whether `accepted` is an answer that `authenticate` may give.
    spec fn answers(&self, accepted: bool) -> bool;

    /// Establishes the credentials; `false` where they are rejected.
    fn authenticate(&self) -> (accepted: bool)
        ensures
            self.answers(accepted),
    ;

    /// Hands out [`Authenticator::publish_headers`].
    fn publish_auth_headers(&self) -> (headers: Headers)
        ensures
            headers@ == self.publish_headers(),
    ;

    /// Hands out [`Authenticator::subscribe_headers`].
    fn subscribe_auth_headers(&self) -> (headers: Headers)
        ensures
            headers@ == self.subscribe_headers(),
    ;
}

} // verus!

//! The endpoint registry: the single mutable record of the node's base URL.

use vstd::prelude::*;
use vstd::string::StringExecFns;

verus! {

/// The base URL used until `set_node_url` is called.
pub open spec fn default_node_url() -> Seq<char> {
    "http://localhost:9090"@
}

/// Holds the single configurable base URL of the local compute node.
///
/// The registry starts out empty; an empty registry answers with the
/// well-known default address, so callers always see a usable URL.
pub struct EndpointRegistry {
    url: Option<String>,
}

impl EndpointRegistry {
    /// The URL explicitly stored so far, if any.
    pub closed spec fn stored(self) -> Option<Seq<char>> {
        match self.url {
            Some(u) => Some(u@),
            None => None,
        }
    }

    /// What `get_node_url` answers: the stored URL, or the default.
    pub closed spec fn current(self) -> Seq<char> {
        match self.url {
            Some(u) => u@,
            None => default_node_url(),
        }
    }

    /// A fresh registry, in which no URL has been stored yet.
    pub fn new() -> (r: Self)
        ensures
            r.stored() is None,
            r.current() == default_node_url(),
    {
        EndpointRegistry { url: None }
    }

    /// Overwrites the stored URL unconditionally; no validation, no failure.
    pub fn set_node_url(&mut self, url: String)
        ensures
            final(self).stored() == Some(url@),
            final(self).current() == url@,
    {
        self.url = Some(url);
    }

    /// Returns the stored URL, or `http://localhost:9090` if none was ever set.
    /// A pure read: the registry is unchanged.
    pub fn get_node_url(&self) -> (r: String)
        ensures
            r@ == self.current(),
    {
        match &self.url {
            Some(u) => u.clone(),
            None => "http://localhost:9090".to_owned(),
        }
    }

    /// The address of the liveness-probe endpoint under the current base URL.
    pub fn stats_url(&self) -> (r: String)
        ensures
            r@ == self.current() + "/api/stats"@,
    {
        let mut u = self.get_node_url();
        u.append("/api/stats");
        u
    }

    /// The address of the chat-completion endpoint under the current base URL.
    pub fn chat_url(&self) -> (r: String)
        ensures
            r@ == self.current() + "/v1/chat/completions"@,
    {
        let mut u = self.get_node_url();
        u.append("/v1/chat/completions");
        u
    }

    /// The address of the model-listing endpoint under the current base URL.
    pub fn models_url(&self) -> (r: String)
        ensures
            r@ == self.current() + "/v1/models"@,
    {
        let mut u = self.get_node_url();
        u.append("/v1/models");
        u
    }
}

/// Law: after `set_node_url(url)`, and with no intervening update, the
/// registry answers exactly `url`.
pub proof fn lemma_set_then_get(reg: EndpointRegistry, url: Seq<char>)
    requires
        reg.stored() == Some(url),
    ensures
        reg.current() == url,
{
}

/// Law: before any `set_node_url` call, the registry answers the default
/// address `http://localhost:9090`.
pub proof fn lemma_initial_url(reg: EndpointRegistry)
    requires
        reg.stored() is None,
    ensures
        reg.current() == default_node_url(),
{
}

} // verus!

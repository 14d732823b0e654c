//! Building outbound requests.
//!
//! A [`Requester`] is immutable once created: it carries the target URL
//! and an optional user-agent header, and is shared across the queue and
//! the fetch stage without further mutation.

use vstd::prelude::*;

verus! {

/// One outbound fetch request: a target URL and an optional user-agent.
pub struct Requester {
    url: String,
    user_agent: Option<String>,
}

/// The identifying header sent when a request names no user-agent of its
/// own.
pub open spec fn default_user_agent() -> Seq<char> {
    "Mozilla/5.0 (Macintosh; Intel Mac OS X 10_15_7) AppleWebKit/537.36 (KHTML, like Gecko) Chrome/131.0.0.0 Safari/537.36"@
}

impl Requester {
    /// The target URL, as a sequence of characters.
    pub closed spec fn url_spec(&self) -> Seq<char> {
        self.url@
    }

    /// The user-agent header, if one was set.
    pub closed spec fn user_agent_spec(&self) -> Option<Seq<char>> {
        match self.user_agent {
            Some(ua) => Some(ua@),
            None => None,
        }
    }

    /// The user-agent that the fetch stage will actually send: the one
    /// set on this request, or the default identifying header.
    pub open spec fn effective_user_agent_spec(&self) -> Seq<char> {
        match self.user_agent_spec() {
            Some(ua) => ua,
            None => default_user_agent(),
        }
    }

    /// Creates a request for the given URL, with no user-agent set.
    pub fn new(url: &str) -> (r: Requester)
        ensures
            r.url_spec() == url@,
            r.user_agent_spec() is None,
    {
        Requester { url: url.to_owned(), user_agent: None }
    }

    /// Returns the same request with the user-agent header set.
    pub fn with_user_agent(self, user_agent: &str) -> (r: Requester)
        ensures
            r.url_spec() == self.url_spec(),
            r.user_agent_spec() == Some(user_agent@),
    {
        Requester { url: self.url, user_agent: Some(user_agent.to_owned()) }
    }

    /// The target URL.
    pub fn url(&self) -> (r: &str)
        ensures
            r@ == self.url_spec(),
    {
        self.url.as_str()
    }

    /// The user-agent header, if one was set.
    pub fn user_agent(&self) -> (r: Option<&str>)
        ensures
            match r {
                Some(ua) => self.user_agent_spec() == Some(ua@),
                None => self.user_agent_spec() is None,
            },
    {
        match &self.user_agent {
            Some(ua) => Some(ua.as_str()),
            None => None,
        }
    }

    /// The user-agent the fetch stage sends for this request: the header
    /// set on the request, or the default identifying one.
    pub fn effective_user_agent(&self) -> (r: String)
        ensures
            r@ == self.effective_user_agent_spec(),
    {
        match &self.user_agent {
            Some(ua) => ua.clone(),
            None => {
                let r = "Mozilla/5.0 (Macintosh; Intel Mac OS X 10_15_7) AppleWebKit/537.36 (KHTML, like Gecko) Chrome/131.0.0.0 Safari/537.36".to_owned();
                r
            },
        }
    }
}

} // verus!

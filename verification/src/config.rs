//! The server's configuration, and what it switches on.

use url::Url;
use vstd::prelude::*;

verus! {

/// The configuration of the server.
#[derive(Debug, Clone)]
pub struct Config {
    /// Whether alerts of a remote system are to be offered.
    pub use_truenas: bool,
    /// The address of the remote system, as the text of a URL.
    pub truenas_address: Option<String>,
    /// The token that the remote system asks for.
    pub truenas_token: Option<String>,
    pub accept_invalid_certs: bool,
    pub port: u16,
}

/// Whether an address is a URL that cannot serve as a base for relative
/// references, as the `url` crate judges it; `None` where the text is no
/// absolute URL.
pub uninterp spec fn cannot_be_base(address: Seq<char>) -> Option<bool>;

/// `Url::parse` and then `Url::cannot_be_a_base` of the `url` crate: parses
/// the text as an absolute URL and says whether relative references can be
/// resolved against it. A text that does not parse gives `None`. The
/// result depends on the text alone.
#[verifier::external_body]
fn url_cannot_be_a_base(address: &str) -> (r: Option<bool>)
    ensures
        r == cannot_be_base(address@),
{
    match Url::parse(address) {
        Ok(url) => Some(url.cannot_be_a_base()),
        Err(_) => None,
    }
}

impl Config {
    /// What is known of the configured address: whether it cannot serve as
    /// a base, or `None` where there is no address or it is no URL.
    pub open spec fn address_status(self) -> Option<bool> {
        match self.truenas_address {
            Some(address) => cannot_be_base(address@),
            None => None,
        }
    }

    /// The remote system is switched on, has a token that is not empty, and
    /// has an address against which requests can be resolved.
    pub open spec fn wants_truenas(self, address_status: Option<bool>) -> bool {
        &&& self.use_truenas
        &&& self.truenas_token matches Some(token) && token@.len() > 0
        &&& self.truenas_address is Some
        &&& address_status == Some(false)
    }

    /// Whether the configuration asks for the remote system and gives what
    /// is needed to reach it, given what is known of its address.
    pub fn truenas_usable(&self, address_status: Option<bool>) -> (r: bool)
        ensures
            r == self.wants_truenas(address_status),
    {
        if !self.use_truenas {
            return false;
        }
        let has_token = match &self.truenas_token {
            Some(token) => !token.as_str().is_empty(),
            None => false,
        };
        let can_be_base = match address_status {
            Some(cannot) => !cannot,
            None => false,
        };
        has_token && self.truenas_address.is_some() && can_be_base
    }

    /// Whether the configuration asks for the remote system and gives what
    /// is needed to reach it.
    pub fn truenas_configured(&self) -> (r: bool)
        ensures
            r == self.wants_truenas(self.address_status()),
            !self.use_truenas ==> !r,
    {
        let status = match &self.truenas_address {
            Some(address) => url_cannot_be_a_base(address.as_str()),
            None => None,
        };
        self.truenas_usable(status)
    }
}

} // verus!

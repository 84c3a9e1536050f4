//! Where a typed client points: scheme, host, port and a base path prefix.
use vstd::prelude::*;

use crate::text::{decimal, decimal_text};

verus! {

/// URL scheme.
#[derive(Debug, Clone, Copy, PartialEq, Eq, Structural)]
pub enum Scheme {
    /// `http://`
    Http,
    /// `https://`
    Https,
}

/// Where the client points. Default ports: 80 (http) / 443 (https).
#[derive(Debug, Clone, PartialEq, Eq)]
pub struct BaseUrl {
    /// `http` or `https`.
    pub scheme: Scheme,
    /// Host name.
    pub host: String,
    /// Port.
    pub port: u16,
    /// Base path prefix (without trailing slash), prepended to request paths.
    pub path: String,
}

/// The textual scheme.
pub open spec fn scheme_text(s: Scheme) -> Seq<char> {
    match s {
        Scheme::Http => "http"@,
        Scheme::Https => "https"@,
    }
}

/// `scheme://host:port` + base path + target.
pub open spec fn url_text(b: BaseUrl, target: Seq<char>) -> Seq<char> {
    scheme_text(b.scheme) + "://"@ + b.host@ + ":"@ + decimal(b.port as nat) + b.path@ + target
}

impl BaseUrl {
    /// `http://host:port` with no base path.
    pub fn http(host: &str, port: u16) -> (b: BaseUrl)
        ensures
            b.scheme == Scheme::Http,
            b.host@ == host@,
            b.port == port,
            b.path@ == Seq::<char>::empty(),
    {
        BaseUrl { scheme: Scheme::Http, host: String::from_str(host), port, path: String::new() }
    }

    /// The scheme as a string.
    pub fn scheme_str(&self) -> (s: &'static str)
        ensures
            s@ == scheme_text(self.scheme),
    {
        match self.scheme {
            Scheme::Http => "http",
            Scheme::Https => "https",
        }
    }

    /// Build the absolute URL for a request target (which begins with `/`).
    pub fn url_for(&self, target: &str) -> (u: String)
        ensures
            u@ == url_text(*self, target@),
    {
        String::from_str(self.scheme_str()).concat("://").concat(self.host.as_str()).concat(
            ":",
        ).concat(decimal_text(self.port as u64).as_str()).concat(self.path.as_str()).concat(target)
    }
}

} // verus!

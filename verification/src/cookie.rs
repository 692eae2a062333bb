//! Cookies, as a web view reports them.

use crate::geometry::Double;
use vstd::prelude::*;

verus! {

/// A cookie.
#[derive(Debug)]
pub struct Cookie {
    pub domain: String,
    /// When the cookie expires, as the web view reports it.
    pub expires: Double,
    pub is_http_only: bool,
    pub is_secure: bool,
    pub is_session: bool,
    pub name: String,
    pub path: String,
    pub same_site: i32,
    pub value: String,
}

impl Cookie {
    /// The domain that the cookie belongs to.
    pub fn domain(&self) -> (r: &str)
        ensures
            r@ == self.domain@,
    {
        self.domain.as_str()
    }

    /// When the cookie expires.
    pub fn expires(&self) -> (r: Double)
        ensures
            r == self.expires,
    {
        self.expires
    }

    /// Whether scripts cannot read the cookie.
    pub fn is_http_only(&self) -> (r: bool)
        ensures
            r == self.is_http_only,
    {
        self.is_http_only
    }

    /// Whether the cookie is sent over secure connections only.
    pub fn is_secure(&self) -> (r: bool)
        ensures
            r == self.is_secure,
    {
        self.is_secure
    }

    /// Whether the cookie ends with the session.
    pub fn is_session(&self) -> (r: bool)
        ensures
            r == self.is_session,
    {
        self.is_session
    }

    /// The cookie's name.
    pub fn name(&self) -> (r: &str)
        ensures
            r@ == self.name@,
    {
        self.name.as_str()
    }

    /// The path that the cookie belongs to.
    pub fn path(&self) -> (r: &str)
        ensures
            r@ == self.path@,
    {
        self.path.as_str()
    }

    /// The cookie's policy for requests from other sites.
    pub fn same_site(&self) -> (r: i32)
        ensures
            r == self.same_site,
    {
        self.same_site
    }

    /// The cookie's value.
    pub fn value(&self) -> (r: &str)
        ensures
            r@ == self.value@,
    {
        self.value.as_str()
    }
}

} // verus!

//! The claims that head a token.

use crate::text::same_text;
use vstd::prelude::*;

verus! {

/// The registered claims of a token, each present or absent.
#[derive(Debug, PartialEq)]
pub struct Header<'a> {
    /// Audience.
    pub aud: Option<&'a str>,
    /// Subject.
    pub sub: Option<&'a str>,
    /// Issuer.
    pub iss: Option<&'a str>,
    /// Token identifier.
    pub tid: Option<&'a str>,
    /// Not before.
    pub nbf: Option<&'a str>,
    /// Issued at.
    pub iat: Option<&'a str>,
    /// Expiration.
    pub exp: Option<&'a str>,
    /// Footer.
    pub ftr: Option<&'a str>,
    /// Implicit assertions.
    pub ixa: Option<&'a str>,
}

impl<'a> Header<'a> {
    /// The header with no claim.
    pub open spec fn empty() -> Header<'a> {
        Header {
            aud: None,
            sub: None,
            iss: None,
            tid: None,
            nbf: None,
            iat: None,
            exp: None,
            ftr: None,
            ixa: None,
        }
    }

    /// The header with the claim called `name` set to `value`. A name that
    /// is none of the nine claims leaves the header as it is.
    pub open spec fn with(self, name: Seq<char>, value: &'a str) -> Header<'a> {
        if name == "aud"@ {
            Header { aud: Some(value), ..self }
        } else if name == "sub"@ {
            Header { sub: Some(value), ..self }
        } else if name == "iss"@ {
            Header { iss: Some(value), ..self }
        } else if name == "tid"@ {
            Header { tid: Some(value), ..self }
        } else if name == "nbf"@ {
            Header { nbf: Some(value), ..self }
        } else if name == "iat"@ {
            Header { iat: Some(value), ..self }
        } else if name == "exp"@ {
            Header { exp: Some(value), ..self }
        } else if name == "ftr"@ {
            Header { ftr: Some(value), ..self }
        } else if name == "ixa"@ {
            Header { ixa: Some(value), ..self }
        } else {
            self
        }
    }

    /// The header with the first `n` of the given claims set, in order.
    pub open spec fn with_first(self, claims: Seq<(&str, &'a str)>, n: int) -> Header<'a>
        decreases n,
    {
        if n <= 0 {
            self
        } else {
            self.with_first(claims, n - 1).with(claims[n - 1].0@, claims[n - 1].1)
        }
    }

    /// Sets the claim called `name` to `value`. A name that is none of the
    /// nine claims is passed over.
    pub fn set(&mut self, name: &str, value: &'a str)
        ensures
            *final(self) == old(self).with(name@, value),
    {
        if same_text(name, "aud") {
            self.aud = Some(value);
        } else if same_text(name, "sub") {
            self.sub = Some(value);
        } else if same_text(name, "iss") {
            self.iss = Some(value);
        } else if same_text(name, "tid") {
            self.tid = Some(value);
        } else if same_text(name, "nbf") {
            self.nbf = Some(value);
        } else if same_text(name, "iat") {
            self.iat = Some(value);
        } else if same_text(name, "exp") {
            self.exp = Some(value);
        } else if same_text(name, "ftr") {
            self.ftr = Some(value);
        } else if same_text(name, "ixa") {
            self.ixa = Some(value);
        }
    }
}

impl<'a> Default for Header<'a> {
    fn default() -> (r: Header<'a>)
        ensures
            r == Header::empty(),
    {
        Header {
            aud: None,
            sub: None,
            iss: None,
            tid: None,
            nbf: None,
            iat: None,
            exp: None,
            ftr: None,
            ixa: None,
        }
    }
}

/// Builds a header from pairs of a claim's name and its value, set in order:
/// of two pairs for one claim the later one stays.
pub fn header<'a>(claims: &[(&str, &'a str)]) -> (r: Header<'a>)
    ensures
        r == Header::empty().with_first(claims@, claims@.len() as int),
{
    let mut r = Header::default();
    let mut i: usize = 0;
    while i < claims.len()
        invariant
            i <= claims@.len(),
            r == Header::empty().with_first(claims@, i as int),
        decreases claims@.len() - i,
    {
        let (name, value) = claims[i];
        r.set(name, value);
        i += 1;
    }
    r
}

} // verus!

//! URIs: what the crate uses of `http::uri`.

use bytes::Bytes;
use vstd::prelude::*;

verus! {

/// The parts of a URI, as text.
#[verifier::ext_equal]
pub struct UriModel {
    pub scheme: Option<Seq<char>>,
    pub authority: Option<Seq<char>>,
    pub path_and_query: Option<Seq<char>>,
}

/// A URI, taken apart. Whatever part is missing is `None`.
#[derive(Debug)]
pub struct Uri {
    pub scheme: Option<String>,
    pub authority: Option<String>,
    pub path_and_query: Option<String>,
}

/// The text that is there, if any.
pub open spec fn text_of(s: Option<String>) -> Option<Seq<char>> {
    match s {
        Some(text) => Some(text@),
        None => None,
    }
}

impl View for Uri {
    type V = UriModel;

    open spec fn view(&self) -> UriModel {
        UriModel {
            scheme: text_of(self.scheme),
            authority: text_of(self.authority),
            path_and_query: text_of(self.path_and_query),
        }
    }
}

/// The parts that `http` finds in a URI written as text; `None` if the text is not a URI.
pub uninterp spec fn uri_parts(text: Seq<char>) -> Option<UriModel>;

/// True if `http` takes the text for an authority.
pub uninterp spec fn is_authority(text: Seq<char>) -> bool;

/// The path and query that `http` makes of a text; `None` if it does not take the text for one.
pub uninterp spec fn path_of(text: Seq<char>) -> Option<Seq<char>>;

/// True if the character can stand in a scheme.
pub open spec fn is_scheme_char(c: char) -> bool {
    ||| 'a' <= c <= 'z'
    ||| 'A' <= c <= 'Z'
    ||| '0' <= c <= '9'
    ||| c == '+' || c == '-' || c == '.' || c == '~'
}

/// True if the text can be a scheme.
pub open spec fn is_scheme(text: Seq<char>) -> bool {
    text.len() <= 64 && forall|i: int| 0 <= i < text.len() ==> is_scheme_char(#[trigger] text[i])
}

/// `http::Uri::from_str` and `Uri::into_parts`: whether the text is a URI, and its parts if it is
/// one, depend on the text alone. The parts go together, each of them is valid in itself, and the
/// path and query stay as they are when they are made a path again.
#[verifier::external_body]
fn parse_uri(text: &str) -> (r: Option<Uri>)
    ensures
        match r {
            Some(uri) => uri_parts(text@) == Some(uri@),
            None => uri_parts(text@) is None,
        },
        r matches Some(uri) ==> uri@.is_parsed(),
{
    let parts = text.parse::<http::Uri>().ok()?.into_parts();
    Some(
        Uri {
            scheme: parts.scheme.map(|s| s.as_str().to_owned()),
            authority: parts.authority.map(|a| a.as_str().to_owned()),
            path_and_query: parts.path_and_query.map(|p| p.as_str().to_owned()),
        },
    )
}

/// `http::uri::Scheme::from_shared`: it takes at most 64 of the characters that a scheme can hold,
/// and keeps them as they are.
#[verifier::external_body]
fn check_scheme(text: &str) -> (r: Option<String>)
    ensures
        r is Some <==> is_scheme(text@),
        r matches Some(scheme) ==> scheme@ == text@,
{
    http::uri::Scheme::from_shared(Bytes::from(text)).ok().map(|s| s.as_str().to_owned())
}

/// `http::uri::Authority::from_shared`: whether it takes the text depends on the text alone, and it
/// keeps what it takes as it is.
#[verifier::external_body]
fn check_authority(text: &str) -> (r: Option<String>)
    ensures
        r is Some <==> is_authority(text@),
        r matches Some(authority) ==> authority@ == text@,
{
    http::uri::Authority::from_shared(Bytes::from(text)).ok().map(|a| a.as_str().to_owned())
}

/// `http::uri::PathAndQuery::from_shared`: whether it takes the text, and what it makes of it,
/// depend on the text alone.
#[verifier::external_body]
fn check_path(text: &str) -> (r: Option<String>)
    ensures
        match r {
            Some(path) => path_of(text@) == Some(path@),
            None => path_of(text@) is None,
        },
{
    http::uri::PathAndQuery::from_shared(Bytes::from(text)).ok().map(|p| p.as_str().to_owned())
}

/// The parts given for a URI do not go together.
#[derive(Clone, Copy, Debug, PartialEq, Eq, Structural)]
pub struct InvalidUriParts;

impl UriModel {
    /// True if the parts go together: all three, the authority alone, the path alone, or nothing.
    pub open spec fn consistent(self) -> bool {
        if self.scheme is Some {
            self.authority is Some && self.path_and_query is Some
        } else {
            self.authority is None || self.path_and_query is None
        }
    }

    /// True if each part that is there is valid in itself.
    pub open spec fn valid_parts(self) -> bool {
        &&& self.scheme matches Some(s) ==> is_scheme(s)
        &&& self.authority matches Some(a) ==> is_authority(a)
        &&& self.path_and_query matches Some(p) ==> path_of(p) is Some
    }

    /// True of the parts of a URI that was parsed: they go together, each is valid in itself, and
    /// the path and query are what a path is made of them.
    pub open spec fn is_parsed(self) -> bool {
        self.consistent() && self.valid_parts() && self.normalized() == self
    }

    /// The parts with the path as it is made a path.
    pub open spec fn normalized(self) -> UriModel {
        UriModel {
            path_and_query: match self.path_and_query {
                Some(p) => path_of(p),
                None => None,
            },
            ..self
        }
    }
}

impl Uri {
    /// The parts of the URI, if the text is one.
    pub fn parse(text: &str) -> (r: Option<Uri>)
        ensures
            match r {
                Some(uri) => uri_parts(text@) == Some(uri@),
                None => uri_parts(text@) is None,
            },
            r matches Some(uri) ==> uri@.is_parsed(),
    {
        parse_uri(text)
    }

    /// Makes each part valid in itself: the scheme and the authority as they are, the path and
    /// query without what does not belong to them. `None` if a part cannot be made valid.
    pub fn validate(self) -> (r: Option<Uri>)
        ensures
            r is Some <==> self@.valid_parts(),
            r matches Some(uri) ==> uri@ == self@.normalized(),
    {
        let scheme = match &self.scheme {
            Some(text) => match check_scheme(text.as_str()) {
                Some(scheme) => Some(scheme),
                None => return None,
            },
            None => None,
        };
        let authority = match &self.authority {
            Some(text) => match check_authority(text.as_str()) {
                Some(authority) => Some(authority),
                None => return None,
            },
            None => None,
        };
        let path_and_query = match &self.path_and_query {
            Some(text) => match check_path(text.as_str()) {
                Some(path) => Some(path),
                None => return None,
            },
            None => None,
        };
        Some(Uri { scheme, authority, path_and_query })
    }

    /// The URI with these parts, if they go together.
    pub fn from_parts(
        scheme: Option<String>,
        authority: Option<String>,
        path_and_query: Option<String>,
    ) -> (r: Result<Uri, InvalidUriParts>)
        ensures
            ({
                let uri = Uri { scheme, authority, path_and_query };
                r == if uri@.consistent() {
                    Ok::<Uri, InvalidUriParts>(uri)
                } else {
                    Err(InvalidUriParts)
                }
            }),
    {
        if scheme.is_some() {
            if authority.is_none() || path_and_query.is_none() {
                return Err(InvalidUriParts);
            }
        } else if authority.is_some() && path_and_query.is_some() {
            return Err(InvalidUriParts);
        }
        Ok(Uri { scheme, authority, path_and_query })
    }
}

} // verus!

//! The library's model of a caller-supplied base URL.
//!
//! Request assembly reads three things of a base URL: its serialization
//! (scheme, authority and path), its path, and whether its scheme
//! supports hierarchical paths, so that a path segment may be appended.
//! `BaseUrl` holds exactly those as plain values; the `url` crate
//! computes them when a base is parsed.

use vstd::prelude::*;
use vstd::string::StringExecFns;

verus! {

/// What `url::Url::parse` makes of a string `s`, reduced to what request
/// assembly reads: `None` when `s` does not parse as an absolute URL,
/// otherwise `Some((text, path, hierarchical))` where `text` is the
/// serialization of the parsed URL with its query and fragment removed,
/// `path` is the URL's path, and `hierarchical` says whether that path
/// can carry segments (false for opaque schemes such as `mailto:`).
/// Parsing is a fixed function of `s` alone.
pub uninterp spec fn parsed_base_of(s: Seq<char>) -> Option<(Seq<char>, Seq<char>, bool)>;

/// A base URL, reduced to what request assembly reads of it. Any query or
/// fragment is removed when the base is parsed: the assembled request
/// defines its own query and sends no fragment.
#[derive(Debug)]
pub struct BaseUrl {
    text: String,
    path: String,
    hierarchical: bool,
}

impl BaseUrl {
    /// The serialization of the base: scheme, authority and path.
    pub closed spec fn serialization(&self) -> Seq<char> {
        self.text@
    }

    /// The path of the base: `/` for a special URL without one, and the
    /// final suffix of the serialization otherwise.
    pub closed spec fn path_spec(&self) -> Seq<char> {
        self.path@
    }

    /// Whether path segments can be appended to the base.
    pub closed spec fn is_hierarchical(&self) -> bool {
        self.hierarchical
    }

    /// Relies on `url::Url::parse` (validation and normalization of an
    /// absolute URL), `Url::path` (the path of the parsed URL),
    /// `Url::set_query(None)` and `Url::set_fragment(None)` (each removes
    /// that part from the serialization; on an opaque path they also
    /// strip its trailing spaces), `Url::as_str` (the serialization of
    /// the result), and `Url::cannot_be_a_base` (true exactly when the
    /// scheme and `:` are not followed by `/`, so the path cannot carry
    /// segments).
    #[verifier::external_body]
    pub fn parse(s: &str) -> (r: Option<BaseUrl>)
        ensures
            r is Some <==> parsed_base_of(s@) is Some,
            r matches Some(b) ==> parsed_base_of(s@) == Some(
                (b.serialization(), b.path_spec(), b.is_hierarchical()),
            ),
    {
        match url::Url::parse(s) {
            Ok(mut u) => {
                let hierarchical = !u.cannot_be_a_base();
                let path = u.path().to_string();
                u.set_query(None);
                u.set_fragment(None);
                Some(BaseUrl { text: u.as_str().to_string(), path, hierarchical })
            },
            Err(_) => None,
        }
    }

    /// The serialization of the base.
    pub fn as_str(&self) -> (r: &str)
        ensures
            r@ == self.serialization(),
    {
        self.text.as_str()
    }

    /// The path of the base.
    pub fn path(&self) -> (r: &str)
        ensures
            r@ == self.path_spec(),
    {
        self.path.as_str()
    }

    /// Whether the base's path is exactly the root `/`. Such a path
    /// already ends in a segment separator, so appending a segment to it
    /// inserts no further `/`.
    pub fn has_root_path(&self) -> (r: bool)
        ensures
            r == (self.path_spec() == "/"@),
    {
        let slash = String::from_str("/");
        self.path == slash
    }

    /// Whether the base accepts appended path segments.
    pub fn can_be_a_base(&self) -> (r: bool)
        ensures
            r == self.is_hierarchical(),
    {
        self.hierarchical
    }

    /// Consumes the base and hands out its serialization.
    pub fn into_text(self) -> (r: String)
        ensures
            r@ == self.serialization(),
    {
        self.text
    }
}

impl Clone for BaseUrl {
    /// A clone holds the same serialization, path and path capability.
    fn clone(&self) -> (r: Self)
        ensures
            r == *self,
    {
        BaseUrl {
            text: self.text.clone(),
            path: self.path.clone(),
            hierarchical: self.hierarchical,
        }
    }
}

} // verus!

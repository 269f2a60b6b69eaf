//! Serving the embedded single-page application: which file answers a path, and how long it
//! may be cached.
use crate::text::str_equals;
use vstd::prelude::*;

verus! {

/// The compiled web application that the API serves.
pub struct Assets;

/// `path` without its leading slashes.
pub open spec fn without_leading_slashes(path: Seq<char>) -> Seq<char>
    decreases path.len(),
{
    if path.len() > 0 && path[0] == '/' {
        without_leading_slashes(path.drop_first())
    } else {
        path
    }
}

/// The asset a request path asks for: the path without its leading slashes, or the index page
/// for the root.
pub open spec fn requested_asset(path: Seq<char>) -> Seq<char> {
    let p = without_leading_slashes(path);
    if p.len() == 0 {
        "index.html"@
    } else {
        p
    }
}

impl Assets {
    /// The asset that a request path asks for (`trim_start_matches('/')`, the root being the
    /// index page).
    pub fn requested_path(path: &str) -> (r: &str)
        ensures
            r@ == requested_asset(path@),
    {
        let mut rest = path;
        let mut n = rest.unicode_len();
        while n > 0 && rest.get_char(0) == '/'
            invariant
                n == rest@.len(),
                without_leading_slashes(path@) == without_leading_slashes(rest@),
            decreases n,
        {
            proof {
                assert(rest@.subrange(1, n as int) == rest@.drop_first());
            }
            rest = rest.substring_char(1, n);
            n = n - 1;
        }
        if n == 0 {
            "index.html"
        } else {
            rest
        }
    }

    /// The asset that answers: the one asked for where it exists, else the index page (the
    /// application routes in the browser), else none.
    pub fn served_path<'a>(requested: &'a str, requested_exists: bool, index_exists: bool) -> (r:
        Option<&'a str>)
        ensures
            r == if requested_exists {
                Some(requested)
            } else if index_exists {
                Some("index.html")
            } else {
                None::<&str>
            },
    {
        if requested_exists {
            Some(requested)
        } else if index_exists {
            Some("index.html")
        } else {
            None
        }
    }

    /// The index page is never cached; every other asset has a content-hashed name and is
    /// cached for a year.
    pub fn cache_control(path: &str) -> (r: &'static str)
        ensures
            r@ == if path@ == "index.html"@ {
                "no-cache"@
            } else {
                "public, max-age=31536000, immutable"@
            },
    {
        if str_equals(path, "index.html") {
            "no-cache"
        } else {
            "public, max-age=31536000, immutable"
        }
    }
}

} // verus!

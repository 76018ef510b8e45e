//! The HTTP side of the server: which browser origins may call it.
use vstd::prelude::*;

use crate::text::{chars_of, has_prefix, starts_with_chars};

verus! {

/// Whether an origin may call the HTTP server: local pages only, that is
/// `http://` or `https://` followed by `localhost:` or `127.0.0.1:`.
pub open spec fn origin_allowed(origin: Seq<char>) -> bool {
    ||| has_prefix(origin, "http://localhost:"@)
    ||| has_prefix(origin, "http://127.0.0.1:"@)
    ||| has_prefix(origin, "https://localhost:"@)
    ||| has_prefix(origin, "https://127.0.0.1:"@)
}

/// Whether the browser origin `origin` may call the HTTP server.
pub fn allow_origin(origin: &str) -> (r: bool)
    ensures
        r == origin_allowed(origin@),
{
    let o = chars_of(origin);
    let a = chars_of("http://localhost:");
    let b = chars_of("http://127.0.0.1:");
    let c = chars_of("https://localhost:");
    let d = chars_of("https://127.0.0.1:");
    starts_with_chars(o.as_slice(), a.as_slice()) || starts_with_chars(o.as_slice(), b.as_slice())
        || starts_with_chars(o.as_slice(), c.as_slice()) || starts_with_chars(
        o.as_slice(),
        d.as_slice(),
    )
}

} // verus!

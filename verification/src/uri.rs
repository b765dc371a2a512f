//! The URI boundary: what the library keeps of a parsed URI, and the one
//! trusted call into hyper's `Uri` parser.
//!
//! A URI value itself is opaque here; the pipeline only ever needs its
//! canonical text (to request it and to resolve redirects against it) and
//! its authority component (to detect and resolve relative redirects). Both
//! are held as plain strings in [`UriParts`], and three uninterpreted names
//! tie them to the outside parser.

use vstd::prelude::*;

verus! {

/// What the pipeline keeps of one successfully parsed URI: its canonical
/// display text and, when present, its authority component.
pub struct UriParts {
    pub text: String,
    pub authority: Option<String>,
}

/// Whether `http::Uri::from_str` (re-exported as `hyper::Uri`) accepts `s`.
pub uninterp spec fn uri_ok(s: Seq<char>) -> bool;

/// The `Display` form of the URI parsed from `s`, meaningful only when
/// `uri_ok(s)` holds.
pub uninterp spec fn uri_text(s: Seq<char>) -> Seq<char>;

/// The authority component (`Uri::authority`) of the URI parsed from `s`,
/// meaningful only when `uri_ok(s)` holds; `None` when the URI is relative.
pub uninterp spec fn uri_authority(s: Seq<char>) -> Option<Seq<char>>;

/// The view of an optional authority string.
pub open spec fn authority_view(o: Option<String>) -> Option<Seq<char>> {
    match o {
        Some(a) => Some(a@),
        None => None,
    }
}

/// The view of a `UriParts`: canonical text and authority text.
pub open spec fn uri_view(p: UriParts) -> (Seq<char>, Option<Seq<char>>) {
    (p.text@, authority_view(p.authority))
}

/// Relies on hyper's `Uri` (hyper re-exports `http::Uri`): `str::parse::<Uri>`
/// to parse, `Uri::authority` for the authority component, and the `Display`
/// impls of `Uri` and `Authority` for their text. `uri_ok`, `uri_text` and
/// `uri_authority` name the success of the parse and those two components of
/// its result; the parse is a function of the string alone.
#[verifier::external_body]
pub(crate) fn parse_uri(s: &str) -> (r: Option<UriParts>)
    ensures
        r is Some <==> uri_ok(s@),
        r matches Some(p) ==> p.text@ == uri_text(s@),
        r matches Some(p) ==> authority_view(p.authority) == uri_authority(s@),
{
    match s.parse::<hyper::Uri>() {
        Ok(u) => Some(UriParts {
            authority: u.authority().map(|a| format!("{}", a)),
            text: format!("{}", u),
        }),
        Err(_) => None,
    }
}

} // verus!
